use cuneus::export::ExportSettings;
use cuneus::feedback::{Contents, PixelFormat};
use cuneus::pipeline::{
    check_passes, feedback_chain_passes, single_pass, ControlRequest, FinalTarget, ImageRef, Orchestrator, PassInput, PassOp, PassOutput, PassSpec,
    SetupError, SourceRef, TargetRef,
};
use cuneus::program::{PipelineProgram, ProgramTable, ReloadError};
use cuneus::params::{ParamEdit, ParamError, ParameterBlock};
use cuneus::synthesis::{decode_sample, Mailbox, RawSample, ReadbackAction, SynthesisBridge, READBACK_CADENCE};


fn three_pass_table() -> Vec<PassSpec> {
    vec![
        PassSpec { slot: 0, input: PassInput::Feedback(0), output: PassOutput::Pair(0), writes_atomic: true },
        PassSpec { slot: 1, input: PassInput::Chained(0), output: PassOutput::Pair(1), writes_atomic: true },
        PassSpec { slot: 2, input: PassInput::Chained(1), output: PassOutput::Final, writes_atomic: true },
    ]
}

fn programs() -> ProgramTable {
    let mut t = ProgramTable::new();
    t.add_slot(0, 1);
    t.add_slot(0, 2);
    t.add_slot(0, 3);
    t.add_slot(1, 1);
    t
}

fn settings() -> ExportSettings {
    ExportSettings { width: 1920, height: 1080, fps: 2, start_ms: 0, duration_ms: 1500 }
}

fn three_pass() -> Orchestrator {
    Orchestrator::new(8, 6, PixelFormat::Rgba16Float, 2, three_pass_table(), programs(), Some(1), settings()).unwrap()
}

fn img(pair: usize, index: usize) -> ImageRef {
    ImageRef { pair, index }
}

fn assert_no_aliasing(ops: &[PassOp]) {
    for op in ops {
        if let (SourceRef::Image(a), TargetRef::Image(b)) = (op.source, op.target) {
            assert_ne!(a, b);
        }
    }
}

#[test]
fn plan_even_and_odd_frames() {
    let mut o = three_pass();
    let ops = o.plan_frame(FinalTarget::Surface);
    assert_eq!(ops.len(), 3);
    assert_eq!(ops[0].source, SourceRef::Image(img(0, 1)));
    assert_eq!(ops[0].target, TargetRef::Image(img(0, 0)));
    assert_eq!(ops[1].source, SourceRef::Image(img(0, 0)));
    assert_eq!(ops[1].target, TargetRef::Image(img(1, 0)));
    assert_eq!(ops[2].source, SourceRef::Image(img(1, 0)));
    assert_eq!(ops[2].target, TargetRef::Surface);
    assert!(ops.iter().all(|op| op.clear_atomic));
    assert_no_aliasing(&ops);
    o.finish_frame();
    assert_eq!(o.time.frame, 1);
    assert_eq!(o.pairs[0].a.contents, Contents::Rendered(0));
    assert_eq!(o.pairs[0].b.contents, Contents::Cleared);
    let ops = o.plan_frame(FinalTarget::Surface);
    assert_eq!(ops[0].source, SourceRef::Image(img(0, 0)));
    assert_eq!(ops[0].target, TargetRef::Image(img(0, 1)));
    assert_eq!(ops[2].source, SourceRef::Image(img(1, 1)));
    assert_no_aliasing(&ops);
}

#[test]
fn every_frame_reads_one_image_and_writes_the_other() {
    let mut o = three_pass();
    for frame in 0..6u32 {
        let ops = o.plan_frame(FinalTarget::Surface);
        let t = (frame % 2) as usize;
        if let (SourceRef::Image(a), TargetRef::Image(b)) = (ops[0].source, ops[0].target) {
            assert_eq!(a.pair, b.pair);
            assert_eq!(a.index, 1 - t);
            assert_eq!(b.index, t);
        } else {
            panic!("feedback pass must read and write its pair");
        }
        assert_no_aliasing(&ops);
        o.finish_frame();
    }
}

#[test]
fn setup_rejects_mismatched_layouts() {
    let bad_pair = vec![PassSpec { slot: 0, input: PassInput::Feedback(2), output: PassOutput::Final, writes_atomic: false }];
    assert_eq!(check_passes(&bad_pair, 2, 1), false);
    let r = Orchestrator::new(8, 6, PixelFormat::Rgba16Float, 2, bad_pair, programs(), None, settings());
    assert_eq!(r.err(), Some(SetupError::LayoutMismatch));
    let chained_first = vec![PassSpec { slot: 0, input: PassInput::Chained(0), output: PassOutput::Final, writes_atomic: false }];
    assert_eq!(check_passes(&chained_first, 1, 1), false);
    let self_read = vec![
        PassSpec { slot: 0, input: PassInput::External, output: PassOutput::Pair(0), writes_atomic: false },
        PassSpec { slot: 0, input: PassInput::Chained(0), output: PassOutput::Pair(0), writes_atomic: false },
    ];
    assert_eq!(check_passes(&self_read, 1, 1), false);
    let bad_slot = vec![PassSpec { slot: 9, input: PassInput::External, output: PassOutput::Final, writes_atomic: false }];
    assert_eq!(check_passes(&bad_slot, 0, 4), false);
    assert!(check_passes(&three_pass_table(), 2, 3));
}

#[test]
fn setup_rejects_an_atomic_buffer_too_large() {
    if usize::MAX as u128 <= (u32::MAX as u128).pow(3) {
        let r = Orchestrator::new(
            u32::MAX, u32::MAX, PixelFormat::Rgba8Unorm, 0, vec![], ProgramTable::new(), Some(u32::MAX), settings(),
        );
        assert_eq!(r.err(), Some(SetupError::AtomicTooLarge));
    }
}

#[test]
fn resize_reallocates_both_images_cleared() {
    let mut o = three_pass();
    o.finish_frame();
    o.finish_frame();
    let gen = o.pairs[0].generation;
    assert_eq!(o.resize(20, 10), Ok(()));
    assert_eq!((o.width, o.height), (20, 10));
    for p in &o.pairs {
        for im in [p.a, p.b] {
            assert_eq!((im.width, im.height), (20, 10));
            assert_eq!(im.contents, Contents::Cleared);
        }
    }
    assert_ne!(o.pairs[0].generation, gen);
    assert_eq!(o.atomic.unwrap().slot_count, 200);
}

#[test]
fn requests_apply_between_frames() {
    let mut o = three_pass();
    o.finish_frame();
    o.advance_time(1000);
    assert_eq!(o.time.elapsed_us, 1000);
    let req = ControlRequest { toggle_pause: true, seek_to_us: Some(5), clear_buffers: true, start_export: true, stop_export: false };
    o.apply_request(req);
    assert!(o.time.paused);
    assert_eq!(o.time.elapsed_us, 5);
    assert_eq!(o.pairs[0].a.contents, Contents::Cleared);
    assert!(o.export.active);
    o.advance_time(1000);
    assert_eq!(o.time.elapsed_us, 5);
    let stop = ControlRequest { toggle_pause: true, seek_to_us: None, clear_buffers: false, start_export: true, stop_export: true };
    o.apply_request(stop);
    assert!(!o.time.paused);
    assert!(!o.export.active);
}

#[test]
fn export_frames_are_deterministic() {
    let run = |live_frames: u32| {
        let mut o = three_pass();
        o.advance_time(123_456);
        for _ in 0..live_frames {
            o.finish_frame();
        }
        o.apply_request(ControlRequest { toggle_pause: false, seek_to_us: None, clear_buffers: false, start_export: true, stop_export: false });
        let mut out = Vec::new();
        while let Some(f) = o.next_export_frame() {
            assert_eq!(o.time.elapsed_us, f.time_us);
            out.push((f.index, f.time_us, f.ops));
        }
        out
    };
    let first = run(0);
    let times: Vec<u64> = first.iter().map(|f| f.1).collect();
    assert_eq!(times, vec![0, 500_000, 1_000_000]);
    assert_eq!(first[0].2.last().unwrap().target, TargetRef::Capture);
    assert_eq!(first[0].2[0].target, TargetRef::Image(img(0, 0)));
    assert_eq!(first[1].2[0].target, TargetRef::Image(img(0, 1)));
    assert_eq!(first, run(0));
    assert_eq!(first, run(3));
}

#[test]
fn export_start_resets_frame_and_pairs_and_records_outputs() {
    let mut o = three_pass();
    o.finish_frame();
    o.finish_frame();
    o.finish_frame();
    o.apply_request(ControlRequest { toggle_pause: false, seek_to_us: None, clear_buffers: false, start_export: true, stop_export: false });
    assert_eq!(o.time.frame, 0);
    assert!(o.pairs.iter().all(|p| p.a.contents == Contents::Cleared && p.b.contents == Contents::Cleared));
    // the images are zero-filled in place, not replaced
    assert!(o.pairs.iter().all(|p| p.generation == 0 && p.a.width == 8 && p.a.height == 6));
    let f = o.next_export_frame().unwrap();
    assert_eq!(f.index, 0);
    assert_eq!(o.time.frame, 1);
    assert_eq!(o.pairs[0].a.contents, Contents::Rendered(0));
    assert_eq!(o.pairs[1].a.contents, Contents::Rendered(0));
    assert_eq!(o.pairs[0].b.contents, Contents::Cleared);
}

#[test]
fn reload_of_invalid_source_keeps_programs() {
    let mut o = three_pass();
    let before = o.programs.slots.clone();
    assert_eq!(o.reload(0, Some(false)), Err(ReloadError::Invalid));
    assert_eq!(o.programs.slots, before);
    assert_eq!(o.reload(0, None), Ok(false));
    assert_eq!(o.programs.slots, before);
}

#[test]
fn setup_states_layout_and_counters_per_pixel() {
    let o = three_pass();
    assert_eq!(o.time.frame, 0);
    assert_eq!(o.pairs.len(), 2);
    for p in &o.pairs {
        assert_eq!(p.layout, 0);
        assert_eq!(p.generation, 0);
        for im in [p.a, p.b] {
            assert_eq!((im.width, im.height), (8, 6));
            assert_eq!(im.format, PixelFormat::Rgba16Float);
        }
    }
    let b = o.atomic.unwrap();
    assert_eq!(b.multiple, 1);
    assert_eq!(b.slot_count, 48);
    assert!(b.clear().iter().all(|&c| c == 0));
}

#[test]
fn reload_of_valid_source_swaps_all_its_slots() {
    let mut o = three_pass();
    assert_eq!(o.reload(0, Some(true)), Ok(true));
    assert_eq!(o.programs.version, 1);
    for i in 0..3 {
        assert_eq!(o.programs.slots[i].version, 1);
        assert_eq!(o.programs.slots[i].source, 0);
    }
    assert_eq!(o.programs.slots[3], PipelineProgram { source: 1, entry: 1, version: 0 });
    let ops = o.plan_frame(FinalTarget::Surface);
    assert!(ops.iter().all(|op| op.program.version == 1));
}

#[test]
fn compile_result_is_applied_whole_or_not_at_all() {
    let mut t = programs();
    assert_eq!(t.apply_compile_result(1, false), Err(ReloadError::Invalid));
    assert_eq!(t.version, 0);
    assert_eq!(t.apply_compile_result(1, true), Ok(()));
    assert_eq!(t.slots[3].version, 1);
    assert_eq!(t.slots[0].version, 0);
    let idx = t.add_slot(1, 7);
    assert_eq!(idx, 4);
    assert_eq!(t.slots[4], PipelineProgram { source: 1, entry: 7, version: 1 });
    let fresh = t.add_slot(5, 0);
    assert_eq!(t.slots[fresh].version, 1);
    t.version = u64::MAX;
    assert_eq!(t.apply_compile_result(1, true), Err(ReloadError::VersionsExhausted));
}

#[test]
fn readback_only_on_cadence_frames() {
    let mut b = SynthesisBridge::new(READBACK_CADENCE);
    let mut attempts = Vec::new();
    for frame in 0..=540u32 {
        if let ReadbackAction::RequestMap(id) = b.on_frame(frame) {
            attempts.push((frame, id));
        }
    }
    // no read ever completed, yet every cadence frame asks for one
    assert_eq!(attempts, vec![(0, 0), (180, 1), (360, 2), (540, 3)]);
    assert_eq!(b.on_frame(179), ReadbackAction::Skip);
    assert_eq!(b.on_frame(1), ReadbackAction::Skip);
}

#[test]
fn the_last_sample_stays_until_a_newer_read_completes() {
    let mut b = SynthesisBridge::new(180);
    assert_eq!(b.on_frame(180), ReadbackAction::RequestMap(0));
    assert_eq!(b.on_frame(360), ReadbackAction::RequestMap(1));
    let s1 = RawSample { frequency_bits: 5, amplitude_bits: 6, waveform_bits: 7 };
    assert_eq!(b.on_mapped(1, &[5, 6, 7]), Some(s1));
    assert_eq!(b.latest, Some(s1));
    // the older read completes late: it does not replace the newer sample
    assert_eq!(b.on_mapped(0, &[1, 2, 3]), None);
    assert_eq!(b.latest, Some(s1));
    assert_eq!(b.on_frame(540), ReadbackAction::RequestMap(2));
    // a buffer too short to hold a sample keeps the last one
    assert_eq!(b.on_mapped(2, &[9, 9]), None);
    assert_eq!(b.latest, Some(s1));
    assert_eq!(b.applied, Some(1));
    let s2 = RawSample { frequency_bits: 1, amplitude_bits: 2, waveform_bits: 3 };
    assert_eq!(b.on_mapped(2, &[1, 2, 3, 4]), Some(s2));
    assert_eq!(b.latest, Some(s2));
}

#[test]
fn preset_pass_tables_are_sound() {
    assert_eq!(feedback_chain_passes(), three_pass_table());
    assert!(check_passes(&feedback_chain_passes(), 2, 3));
    let single = single_pass();
    assert_eq!(single.len(), 1);
    assert_eq!(single[0].input, PassInput::External);
    assert_eq!(single[0].output, PassOutput::Final);
    assert!(!single[0].writes_atomic);
    assert!(check_passes(&single, 0, 1));
}

#[test]
fn export_start_request_is_recognised() {
    let mut r = ControlRequest { toggle_pause: false, seek_to_us: None, clear_buffers: false, start_export: true, stop_export: false };
    assert!(r.starts_export());
    r.stop_export = true;
    assert!(!r.starts_export());
}

#[test]
fn stop_keeps_the_job_position() {
    let mut o = three_pass();
    o.apply_request(ControlRequest { toggle_pause: false, seek_to_us: None, clear_buffers: false, start_export: true, stop_export: false });
    o.next_export_frame().unwrap();
    o.apply_request(ControlRequest { toggle_pause: false, seek_to_us: None, clear_buffers: false, start_export: false, stop_export: true });
    assert!(!o.export.active);
    assert_eq!(o.export.next_frame, 1);
}

#[test]
fn parameter_edits_apply_whole_or_not_at_all() {
    let mut p = ParameterBlock::new(vec![0, 0, 0]);
    let ok = [ParamEdit { index: 0, bits: 3.0f32.to_bits() }, ParamEdit { index: 2, bits: 7 }, ParamEdit { index: 0, bits: 9 }];
    assert_eq!(p.apply_edits(&ok), Ok(()));
    assert_eq!(p.words, vec![9, 0, 7]);
    let bad = [ParamEdit { index: 1, bits: 5 }, ParamEdit { index: 3, bits: 5 }];
    assert_eq!(p.apply_edits(&bad), Err(ParamError::OutOfRange));
    assert_eq!(p.words, vec![9, 0, 7]);
    assert_eq!(p.apply_edits(&[]), Ok(()));
}

#[test]
fn decode_needs_three_words() {
    assert_eq!(decode_sample(&[]), None);
    assert_eq!(decode_sample(&[7, 8]), None);
    assert_eq!(decode_sample(&[7, 8, 9]), Some(RawSample { frequency_bits: 7, amplitude_bits: 8, waveform_bits: 9 }));
}

#[test]
fn mailbox_keeps_the_latest_value() {
    let mut m: Mailbox<u32> = Mailbox::new();
    assert_eq!(m.take(), None);
    m.post(1);
    m.post(2);
    assert_eq!(m.take(), Some(2));
    assert_eq!(m.take(), None);
}
