use vstd::prelude::*;

use crate::classify::{
    classification_of, classify, normal_signatures, reversed_signatures, Classification,
};
use crate::markers::{
    ksid_signature, ksid_bytes, soso_signature, soso_bytes, unpatched_marker,
    unpatched_marker_bytes, MIN_IMAGE_LEN, SIG1_OFFSET, SIG2_OFFSET,
};
use crate::search::{contains_pattern, match_at, matches_at, find_pattern};

verus! {

/// The buffer with "ksid" written over the first signature field and "soso"
/// over the second, every other byte unchanged.
pub open spec fn with_fixed_signatures(data: Seq<u8>) -> Seq<u8>
    recommends
        data.len() >= MIN_IMAGE_LEN,
{
    Seq::new(
        data.len(),
        |i: int|
            if SIG1_OFFSET <= i < SIG1_OFFSET + 4 {
                ksid_signature()[i - SIG1_OFFSET]
            } else if SIG2_OFFSET <= i < SIG2_OFFSET + 4 {
                soso_signature()[i - SIG2_OFFSET]
            } else {
                data[i]
            },
    )
}

/// The buffer after the signature step of the applier: rewritten to the
/// normal orientation when the classifier saw the reversed one, untouched
/// otherwise.
pub open spec fn after_signature_step(data: Seq<u8>, reversed: bool) -> Seq<u8> {
    if reversed {
        with_fixed_signatures(data)
    } else {
        data
    }
}

/// Overwrites the two signature fields with ("ksid", "soso"), unconditionally.
pub fn fix_signatures(data: &mut Vec<u8>)
    requires
        old(data)@.len() >= MIN_IMAGE_LEN,
    ensures
        final(data)@ == with_fixed_signatures(old(data)@),
{
    data[SIG1_OFFSET] = 0x6b;
    data[SIG1_OFFSET + 1] = 0x73;
    data[SIG1_OFFSET + 2] = 0x69;
    data[SIG1_OFFSET + 3] = 0x64;
    data[SIG2_OFFSET] = 0x73;
    data[SIG2_OFFSET + 1] = 0x6f;
    data[SIG2_OFFSET + 2] = 0x73;
    data[SIG2_OFFSET + 3] = 0x6f;
    proof {
        assert(data@ =~= with_fixed_signatures(old(data)@));
    }
}

/// The signature fix leaves the fields in the normal orientation and touches
/// no byte outside the two 4-byte fields.
pub proof fn lemma_fix_signatures_normalizes(data: Seq<u8>)
    requires
        data.len() >= MIN_IMAGE_LEN,
    ensures
        normal_signatures(with_fixed_signatures(data)),
        with_fixed_signatures(data).len() == data.len(),
        forall|i: int|
            0 <= i < data.len() && !(SIG1_OFFSET <= i < SIG1_OFFSET + 4) && !(SIG2_OFFSET <= i
                < SIG2_OFFSET + 4) ==> with_fixed_signatures(data)[i] == data[i],
{
}

/// Fixing the signature fields is idempotent: a second application gives
/// byte-for-byte the same buffer, with the fields still ("ksid", "soso").
pub proof fn lemma_fix_signatures_idempotent(data: Seq<u8>)
    requires
        data.len() >= MIN_IMAGE_LEN,
    ensures
        with_fixed_signatures(with_fixed_signatures(data)) == with_fixed_signatures(data),
{
    assert(with_fixed_signatures(with_fixed_signatures(data)) =~= with_fixed_signatures(data));
}

/// Finds the first occurrence of the pattern and overwrites the last byte of
/// that occurrence with `new_last_byte`, reporting the index of the replaced
/// byte; leaves the buffer untouched when the pattern is empty or absent.
pub fn patch_pattern_in_vec(data: &mut Vec<u8>, pattern: &Vec<u8>, new_last_byte: u8) -> (r: Option<
    usize,
>)
    ensures
        match r {
            None => final(data)@ == old(data)@ && (pattern@.len() == 0 || !contains_pattern(
                old(data)@,
                pattern@,
            )),
            Some(idx) => {
                &&& pattern@.len() >= 1
                &&& pattern@.len() - 1 <= idx < old(data)@.len()
                &&& matches_at(old(data)@, pattern@, idx - pattern@.len() + 1)
                &&& (forall|i: int|
                    0 <= i < idx - pattern@.len() + 1 ==> !matches_at(old(data)@, pattern@, i))
                &&& final(data)@ == old(data)@.update(idx as int, new_last_byte)
            },
        },
{
    if pattern.len() == 0 || data.len() < pattern.len() {
        return None;
    }
    match find_pattern(data, pattern) {
        Some(pos) => {
            let target_index = pos + pattern.len() - 1;
            data[target_index] = new_last_byte;
            Some(target_index)
        },
        None => None,
    }
}

/// The applier: rewrites the signature fields when the classifier saw them
/// reversed, then patches the last byte of the first unpatched marker from
/// 0x04 to 0x03, mutating exactly that one byte of the intermediate buffer;
/// reports the index of the patched byte, or `None` when no unpatched marker
/// is present (then only the signature step has run).
pub fn apply_patch(data: &mut Vec<u8>, reversed: bool) -> (r: Option<usize>)
    requires
        old(data)@.len() >= MIN_IMAGE_LEN,
    ensures
        ({
            let mid = after_signature_step(old(data)@, reversed);
            match r {
                None => final(data)@ == mid && !contains_pattern(mid, unpatched_marker()),
                Some(idx) => {
                    &&& 7 <= idx < mid.len()
                    &&& matches_at(mid, unpatched_marker(), idx - 7)
                    &&& (forall|i: int|
                        0 <= i < idx - 7 ==> !matches_at(mid, unpatched_marker(), i))
                    &&& mid[idx as int] == 0x04u8
                    &&& final(data)@ == mid.update(idx as int, 0x03u8)
                },
            }
        }),
{
    if reversed {
        fix_signatures(data);
    }
    let pattern = unpatched_marker_bytes();
    let r = patch_pattern_in_vec(data, &pattern, 0x03);
    proof {
        let mid = after_signature_step(old(data)@, reversed);
        if let Some(idx) = r {
            assert(mid[idx as int] == unpatched_marker()[7]);
        }
    }
    r
}

/// How one whole run of the pipeline ended.
#[derive(PartialEq, Eq, Structural, Clone, Copy, Debug)]
pub enum PipelineOutcome {
    /// The model marker was found; nothing was touched.
    IncompatibleModel,
    /// The signature fields hold neither accepted ordering; nothing was touched.
    CorruptedSignatures,
    /// The patch markers are in no recognised state; nothing was touched.
    CorruptedMarkers,
    /// Already fully patched; nothing was touched.
    FullyPatched,
    /// A partially patched image needed confirmation and none was given;
    /// nothing was touched.
    Declined,
    /// The applier ran and patched the marker byte at this offset.
    PatchedAt { offset: usize },
    /// The applier ran, but no unpatched marker was present; at most the
    /// signature fields were rewritten.
    PatchedNoMarker,
}

/// One whole run: classify, then apply at most one signature fix and one
/// marker patch. `confirm_partial` is the caller's confirmation gate for
/// mutating a partially patched image.
pub fn run_pipeline(data: &mut Vec<u8>, confirm_partial: bool) -> (r: PipelineOutcome)
    requires
        old(data)@.len() >= MIN_IMAGE_LEN,
    ensures
        ({
            let d = old(data)@;
            let c = classification_of(d);
            let mid = after_signature_step(d, reversed_signatures(d));
            match r {
                PipelineOutcome::IncompatibleModel => final(data)@ == d && c
                    == Classification::IncompatibleModel,
                PipelineOutcome::CorruptedSignatures => final(data)@ == d && c
                    == Classification::Corrupted && !normal_signatures(d) && !reversed_signatures(
                    d,
                ),
                PipelineOutcome::CorruptedMarkers => final(data)@ == d && c == Classification::Corrupted
                    && normal_signatures(d),
                PipelineOutcome::FullyPatched => final(data)@ == d && c == Classification::FullyPatched,
                PipelineOutcome::Declined => final(data)@ == d && c == (Classification::NeedsPatch {
                    reversed_signatures: false,
                    needs_confirmation: true,
                }) && !confirm_partial,
                PipelineOutcome::PatchedAt { offset } => {
                    &&& c == (Classification::NeedsPatch {
                        reversed_signatures: reversed_signatures(d),
                        needs_confirmation: !reversed_signatures(d),
                    })
                    &&& (!reversed_signatures(d) ==> confirm_partial)
                    &&& 7 <= offset < mid.len()
                    &&& matches_at(mid, unpatched_marker(), offset - 7)
                    &&& (forall|i: int|
                        0 <= i < offset - 7 ==> !matches_at(mid, unpatched_marker(), i))
                    &&& mid[offset as int] == 0x04u8
                    &&& final(data)@ == mid.update(offset as int, 0x03u8)
                },
                PipelineOutcome::PatchedNoMarker => {
                    &&& c == (Classification::NeedsPatch {
                        reversed_signatures: reversed_signatures(d),
                        needs_confirmation: !reversed_signatures(d),
                    })
                    &&& (!reversed_signatures(d) ==> confirm_partial)
                    &&& final(data)@ == mid
                    &&& !contains_pattern(mid, unpatched_marker())
                },
            }
        }),
{
    let c = classify(data);
    match c {
        Classification::IncompatibleModel => PipelineOutcome::IncompatibleModel,
        Classification::Corrupted => {
            let ksid = ksid_bytes();
            let soso = soso_bytes();
            let normal = match_at(data, &ksid, SIG1_OFFSET) && match_at(data, &soso, SIG2_OFFSET);
            if normal {
                PipelineOutcome::CorruptedMarkers
            } else {
                PipelineOutcome::CorruptedSignatures
            }
        },
        Classification::FullyPatched => PipelineOutcome::FullyPatched,
        Classification::NeedsPatch { reversed_signatures: rev, needs_confirmation: conf } => {
            if conf && !confirm_partial {
                return PipelineOutcome::Declined;
            }
            match apply_patch(data, rev) {
                Some(offset) => PipelineOutcome::PatchedAt { offset },
                None => PipelineOutcome::PatchedNoMarker,
            }
        },
    }
}

} // verus!
