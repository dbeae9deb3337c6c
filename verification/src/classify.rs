use vstd::prelude::*;

use crate::markers::{
    ksid_signature, ksid_bytes, model_marker, model_marker_bytes, patched_marker,
    patched_marker_bytes, soso_signature, soso_bytes, unpatched_marker, unpatched_marker_bytes,
    FULLY_PATCHED_COUNT, MIN_IMAGE_LEN, SIG1_OFFSET, SIG2_OFFSET,
};
use crate::search::{contains_pattern, count_matches, match_at, matches_at, count_pattern,
    find_pattern, lemma_count_zero_iff_not_contains};

verus! {

/// What the classifier concludes from the buffer contents alone.
#[derive(PartialEq, Eq, Structural, Clone, Copy, Debug)]
pub enum Classification {
    /// The model marker occurs somewhere: wrong hardware model, nothing to do.
    IncompatibleModel,
    /// The signature fields hold neither accepted ordering, or the patch
    /// markers are in no recognised state.
    Corrupted,
    /// No unpatched marker and exactly the expected count of patched markers.
    FullyPatched,
    /// A patch run is called for; `needs_confirmation` asks the caller to
    /// confirm before mutating a partially patched image.
    NeedsPatch { reversed_signatures: bool, needs_confirmation: bool },
}

/// The two signature fields hold ("ksid", "soso"), the normal orientation.
pub open spec fn normal_signatures(data: Seq<u8>) -> bool {
    &&& matches_at(data, ksid_signature(), SIG1_OFFSET as int)
    &&& matches_at(data, soso_signature(), SIG2_OFFSET as int)
}

/// The two signature fields hold ("soso", "ksid"), the reversed orientation.
pub open spec fn reversed_signatures(data: Seq<u8>) -> bool {
    &&& matches_at(data, soso_signature(), SIG1_OFFSET as int)
    &&& matches_at(data, ksid_signature(), SIG2_OFFSET as int)
}

/// Classification of a buffer: the model check, then the signature check,
/// then (only in the normal orientation) the patch-state check; the first
/// disqualifying result wins.
pub open spec fn classification_of(data: Seq<u8>) -> Classification
    recommends
        data.len() >= MIN_IMAGE_LEN,
{
    if contains_pattern(data, model_marker()) {
        Classification::IncompatibleModel
    } else if !normal_signatures(data) && !reversed_signatures(data) {
        Classification::Corrupted
    } else if reversed_signatures(data) {
        Classification::NeedsPatch { reversed_signatures: true, needs_confirmation: false }
    } else if contains_pattern(data, unpatched_marker()) {
        Classification::NeedsPatch { reversed_signatures: false, needs_confirmation: true }
    } else if count_matches(data, patched_marker()) == FULLY_PATCHED_COUNT {
        Classification::FullyPatched
    } else {
        Classification::Corrupted
    }
}

/// Pure inspection of the buffer; no mutation, first disqualifying check wins.
pub fn classify(data: &Vec<u8>) -> (c: Classification)
    requires
        data@.len() >= MIN_IMAGE_LEN,
    ensures
        c == classification_of(data@),
{
    let model = model_marker_bytes();
    if find_pattern(data, &model).is_some() {
        return Classification::IncompatibleModel;
    }
    let ksid = ksid_bytes();
    let soso = soso_bytes();
    let normal = match_at(data, &ksid, SIG1_OFFSET) && match_at(data, &soso, SIG2_OFFSET);
    let reversed = match_at(data, &soso, SIG1_OFFSET) && match_at(data, &ksid, SIG2_OFFSET);
    if !normal && !reversed {
        return Classification::Corrupted;
    }
    if reversed {
        return Classification::NeedsPatch { reversed_signatures: true, needs_confirmation: false };
    }
    let unpatched = unpatched_marker_bytes();
    if find_pattern(data, &unpatched).is_some() {
        return Classification::NeedsPatch { reversed_signatures: false, needs_confirmation: true };
    }
    let patched = patched_marker_bytes();
    if count_pattern(data, &patched) == FULLY_PATCHED_COUNT {
        Classification::FullyPatched
    } else {
        Classification::Corrupted
    }
}

/// A buffer holding the model marker is classified incompatible, whatever its
/// signature fields or patch markers hold.
pub proof fn lemma_model_marker_is_terminal(data: Seq<u8>)
    requires
        contains_pattern(data, model_marker()),
    ensures
        classification_of(data) == Classification::IncompatibleModel,
{
}

/// A buffer free of the model marker whose signature fields hold neither
/// accepted ordering is classified corrupted.
pub proof fn lemma_bad_signatures_corrupted(data: Seq<u8>)
    requires
        !contains_pattern(data, model_marker()),
        !normal_signatures(data),
        !reversed_signatures(data),
    ensures
        classification_of(data) == Classification::Corrupted,
{
}

/// A buffer free of the model marker, in the normal signature orientation,
/// with no unpatched marker and exactly the expected count of patched markers
/// is classified fully patched.
pub proof fn lemma_expected_counts_fully_patched(data: Seq<u8>)
    requires
        !contains_pattern(data, model_marker()),
        normal_signatures(data),
        count_matches(data, unpatched_marker()) == 0,
        count_matches(data, patched_marker()) == FULLY_PATCHED_COUNT,
    ensures
        classification_of(data) == Classification::FullyPatched,
{
    lemma_count_zero_iff_not_contains(data, unpatched_marker());
    assert(!reversed_signatures(data)) by {
        assert(data[SIG1_OFFSET as int] == 0x6bu8);
    }
}

} // verus!
