use msepatch::classify::{classify, Classification};
use msepatch::markers::{FULLY_PATCHED_COUNT, SIG1_OFFSET, SIG2_OFFSET};
use msepatch::patch::{apply_patch, fix_signatures, run_pipeline, PipelineOutcome};

const KSID: [u8; 4] = [0x6b, 0x73, 0x69, 0x64];
const SOSO: [u8; 4] = [0x73, 0x6f, 0x73, 0x6f];
const MODEL_MARKER: [u8; 7] = [0x38, 0x37, 0x32, 0x33, 0x32, 0x2e, 0x30];
const UNPATCHED: [u8; 8] = [0x38, 0x37, 0x34, 0x30, 0x32, 0x2e, 0x30, 0x04];
const PATCHED: [u8; 8] = [0x38, 0x37, 0x34, 0x30, 0x32, 0x2e, 0x30, 0x03];

fn write_bytes(buf: &mut [u8], off: usize, bytes: &[u8]) {
    buf[off..off + bytes.len()].copy_from_slice(bytes);
}

/// A 0x5200-byte image with ("ksid", "soso") in the signature fields.
fn base_image() -> Vec<u8> {
    let mut data = vec![0u8; 0x5200];
    write_bytes(&mut data, SIG1_OFFSET, &KSID);
    write_bytes(&mut data, SIG2_OFFSET, &SOSO);
    data
}

/// The base image with the given count of patched markers, spaced apart.
fn image_with_patched_markers(count: usize) -> Vec<u8> {
    let mut data = base_image();
    for k in 0..count {
        write_bytes(&mut data, 0x100 + 16 * k, &PATCHED);
    }
    data
}

#[test]
fn model_marker_wins_over_everything() {
    let mut data = image_with_patched_markers(FULLY_PATCHED_COUNT);
    write_bytes(&mut data, 0x2000, &UNPATCHED);
    write_bytes(&mut data, 0x3000, &MODEL_MARKER);
    assert_eq!(classify(&data), Classification::IncompatibleModel);
    let before = data.clone();
    assert_eq!(run_pipeline(&mut data, true), PipelineOutcome::IncompatibleModel);
    assert_eq!(data, before);
}

#[test]
fn bad_signatures_are_corrupted_and_untouched() {
    let mut data = base_image();
    write_bytes(&mut data, SIG1_OFFSET, &[1, 2, 3, 4]);
    write_bytes(&mut data, 0x1000, &UNPATCHED);
    assert_eq!(classify(&data), Classification::Corrupted);
    let before = data.clone();
    assert_eq!(run_pipeline(&mut data, true), PipelineOutcome::CorruptedSignatures);
    assert_eq!(data, before);
}

#[test]
fn fully_patched_image_is_left_alone() {
    let mut data = image_with_patched_markers(FULLY_PATCHED_COUNT);
    assert_eq!(classify(&data), Classification::FullyPatched);
    let before = data.clone();
    assert_eq!(run_pipeline(&mut data, true), PipelineOutcome::FullyPatched);
    assert_eq!(data, before);
}

#[test]
fn wrong_patched_count_is_corrupted() {
    let mut data = image_with_patched_markers(FULLY_PATCHED_COUNT - 1);
    assert_eq!(classify(&data), Classification::Corrupted);
    let before = data.clone();
    assert_eq!(run_pipeline(&mut data, true), PipelineOutcome::CorruptedMarkers);
    assert_eq!(data, before);
}

#[test]
fn partially_patched_needs_confirmation() {
    let mut data = base_image();
    write_bytes(&mut data, 0x1000, &UNPATCHED);
    assert_eq!(
        classify(&data),
        Classification::NeedsPatch { reversed_signatures: false, needs_confirmation: true },
    );
    let before = data.clone();
    assert_eq!(run_pipeline(&mut data, false), PipelineOutcome::Declined);
    assert_eq!(data, before);
}

#[test]
fn single_marker_scenario_patches_one_byte() {
    let mut data = base_image();
    write_bytes(&mut data, 0x1000, &UNPATCHED);
    let before = data.clone();
    assert_eq!(run_pipeline(&mut data, true), PipelineOutcome::PatchedAt { offset: 0x1007 });
    for i in 0..data.len() {
        if i == 0x1007 {
            assert_eq!(before[i], 0x04);
            assert_eq!(data[i], 0x03);
        } else {
            assert_eq!(data[i], before[i]);
        }
    }
}

#[test]
fn reversed_scenario_fixes_signatures_then_patches() {
    let mut data = base_image();
    write_bytes(&mut data, SIG1_OFFSET, &SOSO);
    write_bytes(&mut data, SIG2_OFFSET, &KSID);
    write_bytes(&mut data, 0x1000, &UNPATCHED);
    assert_eq!(
        classify(&data),
        Classification::NeedsPatch { reversed_signatures: true, needs_confirmation: false },
    );
    let before = data.clone();
    assert_eq!(run_pipeline(&mut data, false), PipelineOutcome::PatchedAt { offset: 0x1007 });
    assert_eq!(&data[SIG1_OFFSET..SIG1_OFFSET + 4], &KSID);
    assert_eq!(&data[SIG2_OFFSET..SIG2_OFFSET + 4], &SOSO);
    assert_eq!(data[0x1007], 0x03);
    for i in 0..data.len() {
        let in_sig1 = SIG1_OFFSET <= i && i < SIG1_OFFSET + 4;
        let in_sig2 = SIG2_OFFSET <= i && i < SIG2_OFFSET + 4;
        if !in_sig1 && !in_sig2 && i != 0x1007 {
            assert_eq!(data[i], before[i]);
        }
    }
}

#[test]
fn reversed_without_marker_fixes_signatures_only() {
    let mut data = base_image();
    write_bytes(&mut data, SIG1_OFFSET, &SOSO);
    write_bytes(&mut data, SIG2_OFFSET, &KSID);
    let mut expected = data.clone();
    write_bytes(&mut expected, SIG1_OFFSET, &KSID);
    write_bytes(&mut expected, SIG2_OFFSET, &SOSO);
    assert_eq!(run_pipeline(&mut data, false), PipelineOutcome::PatchedNoMarker);
    assert_eq!(data, expected);
}

#[test]
fn signature_fix_is_idempotent() {
    let mut data = base_image();
    write_bytes(&mut data, SIG1_OFFSET, &SOSO);
    write_bytes(&mut data, SIG2_OFFSET, &KSID);
    fix_signatures(&mut data);
    let once = data.clone();
    assert_eq!(&once[SIG1_OFFSET..SIG1_OFFSET + 4], &KSID);
    assert_eq!(&once[SIG2_OFFSET..SIG2_OFFSET + 4], &SOSO);
    fix_signatures(&mut data);
    assert_eq!(data, once);
    assert_eq!(&data[SIG1_OFFSET..SIG1_OFFSET + 4], &KSID);
    assert_eq!(&data[SIG2_OFFSET..SIG2_OFFSET + 4], &SOSO);
}

#[test]
fn apply_patch_without_marker_reports_none() {
    let mut data = base_image();
    let before = data.clone();
    assert_eq!(apply_patch(&mut data, false), None);
    assert_eq!(data, before);
}

#[test]
fn repeated_runs_converge_to_fully_patched() {
    let mut data = image_with_patched_markers(FULLY_PATCHED_COUNT - 2);
    write_bytes(&mut data, 0x2000, &UNPATCHED);
    write_bytes(&mut data, 0x2100, &UNPATCHED);
    assert_eq!(run_pipeline(&mut data, true), PipelineOutcome::PatchedAt { offset: 0x2007 });
    assert_eq!(run_pipeline(&mut data, true), PipelineOutcome::PatchedAt { offset: 0x2107 });
    assert_eq!(run_pipeline(&mut data, true), PipelineOutcome::FullyPatched);
}
