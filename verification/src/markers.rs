use vstd::prelude::*;

verus! {

/// Offset of the first 4-byte signature field.
pub const SIG1_OFFSET: usize = 0x5004;

/// Offset of the second 4-byte signature field.
pub const SIG2_OFFSET: usize = 0x5194;

/// Smallest buffer that holds both signature fields in full.
pub const MIN_IMAGE_LEN: usize = 0x5198;

/// Occurrences of the patched marker in a fully patched image.
pub const FULLY_PATCHED_COUNT: usize = 11;

/// The 7-byte model marker, ASCII "87232.0"; its presence anywhere in the
/// buffer marks an incompatible hardware model.
pub open spec fn model_marker() -> Seq<u8> {
    seq![0x38u8, 0x37u8, 0x32u8, 0x33u8, 0x32u8, 0x2eu8, 0x30u8]
}

/// The 4-byte signature ASCII "ksid".
pub open spec fn ksid_signature() -> Seq<u8> {
    seq![0x6bu8, 0x73u8, 0x69u8, 0x64u8]
}

/// The 4-byte signature ASCII "soso".
pub open spec fn soso_signature() -> Seq<u8> {
    seq![0x73u8, 0x6fu8, 0x73u8, 0x6fu8]
}

/// The 8-byte unpatched marker, ASCII "87402.0" followed by 0x04.
pub open spec fn unpatched_marker() -> Seq<u8> {
    seq![0x38u8, 0x37u8, 0x34u8, 0x30u8, 0x32u8, 0x2eu8, 0x30u8, 0x04u8]
}

/// The 8-byte patched marker, ASCII "87402.0" followed by 0x03.
pub open spec fn patched_marker() -> Seq<u8> {
    seq![0x38u8, 0x37u8, 0x34u8, 0x30u8, 0x32u8, 0x2eu8, 0x30u8, 0x03u8]
}

/// The model marker as bytes in memory.
pub fn model_marker_bytes() -> (v: Vec<u8>)
    ensures
        v@ == model_marker(),
{
    let mut v: Vec<u8> = Vec::new();
    v.push(0x38);
    v.push(0x37);
    v.push(0x32);
    v.push(0x33);
    v.push(0x32);
    v.push(0x2e);
    v.push(0x30);
    proof {
        assert(v@ =~= model_marker());
    }
    v
}

/// The "ksid" signature as bytes in memory.
pub fn ksid_bytes() -> (v: Vec<u8>)
    ensures
        v@ == ksid_signature(),
{
    let mut v: Vec<u8> = Vec::new();
    v.push(0x6b);
    v.push(0x73);
    v.push(0x69);
    v.push(0x64);
    proof {
        assert(v@ =~= ksid_signature());
    }
    v
}

/// The "soso" signature as bytes in memory.
pub fn soso_bytes() -> (v: Vec<u8>)
    ensures
        v@ == soso_signature(),
{
    let mut v: Vec<u8> = Vec::new();
    v.push(0x73);
    v.push(0x6f);
    v.push(0x73);
    v.push(0x6f);
    proof {
        assert(v@ =~= soso_signature());
    }
    v
}

/// The unpatched marker as bytes in memory.
pub fn unpatched_marker_bytes() -> (v: Vec<u8>)
    ensures
        v@ == unpatched_marker(),
{
    let mut v: Vec<u8> = Vec::new();
    v.push(0x38);
    v.push(0x37);
    v.push(0x34);
    v.push(0x30);
    v.push(0x32);
    v.push(0x2e);
    v.push(0x30);
    v.push(0x04);
    proof {
        assert(v@ =~= unpatched_marker());
    }
    v
}

/// The patched marker as bytes in memory.
pub fn patched_marker_bytes() -> (v: Vec<u8>)
    ensures
        v@ == patched_marker(),
{
    let mut v: Vec<u8> = Vec::new();
    v.push(0x38);
    v.push(0x37);
    v.push(0x34);
    v.push(0x30);
    v.push(0x32);
    v.push(0x2e);
    v.push(0x30);
    v.push(0x03);
    proof {
        assert(v@ =~= patched_marker());
    }
    v
}

} // verus!
