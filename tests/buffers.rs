use cuneus::atomic::AtomicBuffer;
use cuneus::bindings::{group_entries, pass_groups, BindingEntry, GroupKind};
use cuneus::export::{padded_bytes_per_row, unpad_rows, CaptureError, ExportJob, ExportSettings};
use cuneus::feedback::{Contents, FeedbackPair, PixelFormat};
use cuneus::spectrum::{frame_spectrum, ingest_spectrum, SPECTRUM_BANDS};

#[test]
fn pair_roles_alternate_with_parity() {
    let pair = FeedbackPair::allocate(4, 3, PixelFormat::Rgba16Float, 0);
    assert_eq!(FeedbackPair::target_index(0), 0);
    assert_eq!(FeedbackPair::source_index(0), 1);
    assert_eq!(FeedbackPair::target_index(1), 1);
    assert_eq!(FeedbackPair::source_index(1), 0);
    for frame in [0u32, 1, 2, 7, u32::MAX] {
        assert_ne!(FeedbackPair::target_index(frame), FeedbackPair::source_index(frame));
    }
    // the counter wraps from an odd to an even value, so roles still swap
    assert_ne!(FeedbackPair::target_index(u32::MAX), FeedbackPair::target_index(0));
    assert_eq!(pair.a, pair.b);
    assert_eq!(pair.current_source(0), &pair.b);
    assert_eq!(pair.current_target(0), &pair.a);
}

#[test]
fn mark_written_touches_only_the_target() {
    let mut pair = FeedbackPair::allocate(4, 3, PixelFormat::Rgba16Float, 0);
    pair.mark_written(5);
    assert_eq!(pair.b.contents, Contents::Rendered(5));
    assert_eq!(pair.a.contents, Contents::Cleared);
    pair.mark_written(6);
    assert_eq!(pair.a.contents, Contents::Rendered(6));
    assert_eq!(pair.b.contents, Contents::Rendered(5));
}

#[test]
fn reallocation_gives_cleared_images_of_the_new_size() {
    let mut pair = FeedbackPair::allocate(800, 600, PixelFormat::Rgba16Float, 2);
    pair.mark_written(0);
    pair.mark_written(1);
    let fresh = pair.clear_and_reallocate(1024, 768);
    for img in [fresh.a, fresh.b] {
        assert_eq!((img.width, img.height), (1024, 768));
        assert_eq!(img.contents, Contents::Cleared);
        assert_eq!(img.format, PixelFormat::Rgba16Float);
    }
    assert_eq!(fresh.layout, 2);
    assert_eq!(fresh.generation, 1);
}

#[test]
fn atomic_buffer_sizes_and_slots() {
    let b = AtomicBuffer::new(800, 600, 1).unwrap();
    assert_eq!(b.slot_count, 480_000);
    let b4 = AtomicBuffer::new(800, 600, 4).unwrap();
    assert_eq!(b4.slot_count, 1_920_000);
    assert_eq!(b4.slot_index(0, 0, 0), 0);
    assert_eq!(b4.slot_index(1, 0, 2), 6);
    assert_eq!(b4.slot_index(3, 2, 1), (2 * 800 + 3) * 4 + 1);
    assert_eq!(b4.slot_index(799, 599, 3), 1_919_999);
    let r = b4.resized(10, 10).unwrap();
    assert_eq!(r.slot_count, 400);
    assert_eq!(r.multiple, 4);
}

#[test]
fn atomic_buffer_too_large_is_refused() {
    if usize::MAX as u128 <= (u32::MAX as u128).pow(3) {
        assert!(AtomicBuffer::new(u32::MAX, u32::MAX, u32::MAX).is_none());
    }
}

#[test]
fn atomic_clear_is_all_zero_for_every_size() {
    for (w, h, m) in [(0u32, 0u32, 1u32), (1, 1, 1), (3, 5, 2), (800, 600, 1), (64, 4, 4)] {
        let b = AtomicBuffer::new(w, h, m).unwrap();
        let zeros = b.clear();
        assert_eq!(zeros.len(), (w * h * m) as usize);
        assert!(zeros.iter().all(|&c| c == 0));
    }
}

#[test]
fn row_stride_rounds_up_to_256() {
    assert_eq!(padded_bytes_per_row(0), 0);
    assert_eq!(padded_bytes_per_row(1), 256);
    assert_eq!(padded_bytes_per_row(64), 256);
    assert_eq!(padded_bytes_per_row(65), 512);
    assert_eq!(padded_bytes_per_row(800), 3328);
    assert_eq!(padded_bytes_per_row(1920), 7680);
}

#[test]
fn unpadding_keeps_pixels_and_drops_padding() {
    let (w, h) = (3u32, 2u32);
    let stride = padded_bytes_per_row(w) as usize;
    let mut padded = vec![0xEEu8; stride * h as usize];
    for y in 0..h as usize {
        for x in 0..(w as usize * 4) {
            padded[y * stride + x] = (y * 100 + x) as u8;
        }
    }
    let out = unpad_rows(&padded, w, h).unwrap();
    assert_eq!(out.len(), 24);
    let expected: Vec<u8> = (0..2usize).flat_map(|y| (0..12usize).map(move |x| (y * 100 + x) as u8)).collect();
    assert_eq!(out, expected);
    assert!(!out.contains(&0xEE));
}

#[test]
fn unpadding_of_aligned_rows_is_identity() {
    let padded: Vec<u8> = (0..512u32).map(|i| (i % 251) as u8).collect();
    let out = unpad_rows(&padded, 64, 2).unwrap();
    assert_eq!(out, padded);
}

#[test]
fn unpadding_short_buffer_fails() {
    let padded = vec![0u8; 256 * 2 - 1];
    assert_eq!(unpad_rows(&padded, 3, 2), Err(CaptureError::ShortBuffer));
    assert_eq!(unpad_rows(&[], 3, 0), Ok(vec![]));
}

fn half_second_settings() -> ExportSettings {
    ExportSettings { width: 4, height: 4, fps: 2, start_ms: 0, duration_ms: 1500 }
}

fn drain(job: &mut ExportJob) -> Vec<(u64, u64)> {
    let mut v = Vec::new();
    while let Some(f) = job.try_get_next_frame() {
        v.push(f);
    }
    v
}

#[test]
fn export_schedule_at_half_seconds() {
    let mut job = ExportJob::new(half_second_settings());
    assert_eq!(job.frame_count(), 3);
    assert_eq!(job.try_get_next_frame(), None);
    job.start();
    let frames = drain(&mut job);
    assert_eq!(frames, vec![(0, 0), (1, 500_000), (2, 1_000_000)]);
    assert!(!job.active);
    job.start();
    assert_eq!(drain(&mut job), frames);
}

#[test]
fn export_with_offset_start_and_zero_fps() {
    let mut job = ExportJob::new(ExportSettings { width: 1, height: 1, fps: 30, start_ms: 2000, duration_ms: 100 });
    job.start();
    assert_eq!(drain(&mut job), vec![(0, 2_000_000), (1, 2_033_333), (2, 2_066_666)]);
    let mut idle = ExportJob::new(ExportSettings { width: 1, height: 1, fps: 0, start_ms: 0, duration_ms: 1000 });
    idle.start();
    assert_eq!(idle.frame_count(), 0);
    assert_eq!(idle.try_get_next_frame(), None);
}

#[test]
fn export_stop_ends_the_job() {
    let mut job = ExportJob::new(half_second_settings());
    job.start();
    assert_eq!(job.try_get_next_frame(), Some((0, 0)));
    job.stop();
    assert_eq!(job.try_get_next_frame(), None);
}

#[test]
fn spectrum_absence_equals_silence() {
    let none = ingest_spectrum(None);
    assert_eq!(none.len(), SPECTRUM_BANDS);
    assert!(none.iter().all(|&v| v == 0));
    let silence = vec![0u32; 40];
    assert_eq!(ingest_spectrum(Some(&silence)), none);
}

#[test]
fn spectrum_is_padded_or_cut_to_the_band_count() {
    let short: Vec<u32> = vec![0.5f32.to_bits(), 1.0f32.to_bits()];
    let up = ingest_spectrum(Some(&short));
    assert_eq!(up.len(), SPECTRUM_BANDS);
    assert_eq!(f32::from_bits(up[0]), 0.5);
    assert_eq!(f32::from_bits(up[1]), 1.0);
    assert!(up[2..].iter().all(|&v| v == 0));
    let long: Vec<u32> = (0..300u32).collect();
    let cut = ingest_spectrum(Some(&long));
    assert_eq!(cut, (0..SPECTRUM_BANDS as u32).collect::<Vec<u32>>());
}

#[test]
fn export_frames_take_no_live_spectrum() {
    let live: Vec<u32> = vec![1.5f32.to_bits(); 10];
    assert_eq!(frame_spectrum(true, Some(&live)), vec![0u32; SPECTRUM_BANDS]);
    assert_eq!(frame_spectrum(false, Some(&live)), ingest_spectrum(Some(&live)));
    assert_eq!(frame_spectrum(false, Some(&live))[0], 1.5f32.to_bits());
}

#[test]
fn contents_reset_keeps_the_images() {
    let mut pair = FeedbackPair::allocate(4, 3, PixelFormat::Rgba16Float, 1);
    pair.mark_written(0);
    let reset = pair.reset_contents();
    assert_eq!(reset.a.contents, Contents::Cleared);
    assert_eq!(reset.b.contents, Contents::Cleared);
    assert_eq!((reset.a.width, reset.a.height, reset.layout, reset.generation), (4, 3, 1, 0));
}

#[test]
fn binding_layouts() {
    assert_eq!(group_entries(GroupKind::ImageSampler), vec![BindingEntry::Texture, BindingEntry::Sampler]);
    assert_eq!(group_entries(GroupKind::Atomic), vec![BindingEntry::StorageBuffer]);
    assert_eq!(group_entries(GroupKind::Time), vec![BindingEntry::UniformBuffer]);
    assert_eq!(
        pass_groups(true),
        vec![GroupKind::ImageSampler, GroupKind::Time, GroupKind::Params, GroupKind::Atomic]
    );
    assert_eq!(pass_groups(false)[3], GroupKind::Resolution);
}
