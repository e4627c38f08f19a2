//! The multi-pass orchestrator: from a table of passes, the frame counter and
//! the program table it plans each frame's draws (which image each pass reads
//! and writes, which program it runs, whether the atomic buffer is cleared
//! first), and it applies user requests, resizes and reloads between frames.
use vstd::prelude::*;
use crate::atomic::AtomicBuffer;
use crate::export::{ExportJob, ExportSettings, frame_time_us, total_frames};
use crate::feedback::{Contents, FeedbackPair, ImageBuffer, PixelFormat, source_index, target_index};
use crate::program::{PipelineProgram, ProgramTable, ReloadError};

verus! {

/// Where a pass takes its input image from.
#[derive(Clone, Copy, Debug, PartialEq, Eq, Structural)]
pub enum PassInput {
    /// Last frame's output of a pair: the image not written this frame.
    Feedback(usize),
    /// This frame's output of a pair, written by an earlier pass.
    Chained(usize),
    /// An image the host binds (a loaded texture, video or camera frame).
    External,
}

/// Where a pass draws.
#[derive(Clone, Copy, Debug, PartialEq, Eq, Structural)]
pub enum PassOutput {
    /// The image of a pair written this frame.
    Pair(usize),
    /// The frame's final target: the display surface, or the capture target
    /// while exporting.
    Final,
}

/// One pass of the table: the program slot it runs, its input and output,
/// and whether it accumulates into the atomic buffer.
#[derive(Clone, Copy, Debug, PartialEq, Eq, Structural)]
pub struct PassSpec {
    pub slot: usize,
    pub input: PassInput,
    pub output: PassOutput,
    pub writes_atomic: bool,
}

/// The final target of a frame.
#[derive(Clone, Copy, Debug, PartialEq, Eq, Structural)]
pub enum FinalTarget {
    Surface,
    Capture,
}

/// One image of one pair.
#[derive(Clone, Copy, Debug, PartialEq, Eq, Structural)]
pub struct ImageRef {
    pub pair: usize,
    pub index: usize,
}

/// The image a planned draw samples.
#[derive(Clone, Copy, Debug, PartialEq, Eq, Structural)]
pub enum SourceRef {
    Image(ImageRef),
    External,
}

/// The image a planned draw writes.
#[derive(Clone, Copy, Debug, PartialEq, Eq, Structural)]
pub enum TargetRef {
    Image(ImageRef),
    Surface,
    Capture,
}

/// One full-screen draw of a frame, as the host issues it.
#[derive(Clone, Copy, Debug, PartialEq, Eq, Structural)]
pub struct PassOp {
    pub slot: usize,
    pub program: PipelineProgram,
    pub source: SourceRef,
    pub target: TargetRef,
    pub clear_atomic: bool,
}

/// The image a pass input names on `frame`.
pub open spec fn source_of(input: PassInput, frame: u32) -> SourceRef {
    match input {
        PassInput::Feedback(p) => SourceRef::Image(ImageRef { pair: p, index: source_index(frame) as usize }),
        PassInput::Chained(p) => SourceRef::Image(ImageRef { pair: p, index: target_index(frame) as usize }),
        PassInput::External => SourceRef::External,
    }
}

/// The image a pass output names on `frame`.
pub open spec fn target_of(output: PassOutput, frame: u32, fin: FinalTarget) -> TargetRef {
    match output {
        PassOutput::Pair(p) => TargetRef::Image(ImageRef { pair: p, index: target_index(frame) as usize }),
        PassOutput::Final => match fin {
            FinalTarget::Surface => TargetRef::Surface,
            FinalTarget::Capture => TargetRef::Capture,
        },
    }
}

/// The draw of pass `s` on `frame`.
pub open spec fn op_of(s: PassSpec, programs: Seq<PipelineProgram>, frame: u32, fin: FinalTarget) -> PassOp {
    PassOp {
        slot: s.slot,
        program: programs[s.slot as int],
        source: source_of(s.input, frame),
        target: target_of(s.output, frame, fin),
        clear_atomic: s.writes_atomic,
    }
}

/// The draws of a whole frame, in pass order.
pub open spec fn frame_plan(
    passes: Seq<PassSpec>,
    programs: Seq<PipelineProgram>,
    frame: u32,
    fin: FinalTarget,
) -> Seq<PassOp> {
    Seq::new(passes.len(), |i: int| op_of(passes[i], programs, frame, fin))
}

/// Whether pass `i` of the table is sound: its slot and pairs exist, and a
/// chained input comes from an earlier pass and is not the pass's own output.
pub open spec fn pass_wf(passes: Seq<PassSpec>, i: int, pair_count: nat, slot_count: nat) -> bool {
    let s = passes[i];
    &&& s.slot < slot_count
    &&& s.input matches PassInput::Feedback(p) ==> p < pair_count
    &&& s.input matches PassInput::Chained(p) ==> {
        &&& p < pair_count
        &&& s.output != PassOutput::Pair(p)
        &&& exists|j: int| 0 <= j < i && #[trigger] passes[j].output == PassOutput::Pair(p)
    }
    &&& s.output matches PassOutput::Pair(p) ==> p < pair_count
}

/// Every pass of the table is sound.
pub open spec fn passes_wf(passes: Seq<PassSpec>, pair_count: nat, slot_count: nat) -> bool {
    forall|i: int| 0 <= i < passes.len() ==> #[trigger] pass_wf(passes, i, pair_count, slot_count)
}

/// The three-pass feedback chain: pass 0 feeds pair 0 back into itself,
/// pass 1 reads that output and writes pair 1, pass 2 reads pair 1 and
/// draws the final target; every pass accumulates into the atomic buffer.
pub open spec fn feedback_chain_spec() -> Seq<PassSpec> {
    seq![
        PassSpec { slot: 0, input: PassInput::Feedback(0), output: PassOutput::Pair(0), writes_atomic: true },
        PassSpec { slot: 1, input: PassInput::Chained(0), output: PassOutput::Pair(1), writes_atomic: true },
        PassSpec { slot: 2, input: PassInput::Chained(1), output: PassOutput::Final, writes_atomic: true },
    ]
}

/// One pass from a host-bound image to the final target, with no atomic
/// buffer.
pub open spec fn single_pass_spec() -> Seq<PassSpec> {
    seq![PassSpec { slot: 0, input: PassInput::External, output: PassOutput::Final, writes_atomic: false }]
}

/// The three-pass feedback chain; sound for two pairs and three slots.
pub fn feedback_chain_passes() -> (r: Vec<PassSpec>)
    ensures
        r@ == feedback_chain_spec(),
        passes_wf(r@, 2, 3),
{
    let mut r: Vec<PassSpec> = Vec::new();
    r.push(PassSpec { slot: 0, input: PassInput::Feedback(0), output: PassOutput::Pair(0), writes_atomic: true });
    r.push(PassSpec { slot: 1, input: PassInput::Chained(0), output: PassOutput::Pair(1), writes_atomic: true });
    r.push(PassSpec { slot: 2, input: PassInput::Chained(1), output: PassOutput::Final, writes_atomic: true });
    proof {
        let s = r@;
        assert(s =~= feedback_chain_spec());
        assert(s[0].output == PassOutput::Pair(0));
        assert(s[1].output == PassOutput::Pair(1));
        assert(pass_wf(s, 0, 2, 3));
        assert(pass_wf(s, 1, 2, 3));
        assert(pass_wf(s, 2, 2, 3));
        assert forall|i: int| 0 <= i < s.len() implies #[trigger] pass_wf(s, i, 2, 3) by {
            if i == 0 {} else if i == 1 {} else {}
        }
    }
    r
}

/// The single pass; sound with no pairs and one slot.
pub fn single_pass() -> (r: Vec<PassSpec>)
    ensures
        r@ == single_pass_spec(),
        passes_wf(r@, 0, 1),
{
    let mut r: Vec<PassSpec> = Vec::new();
    r.push(PassSpec { slot: 0, input: PassInput::External, output: PassOutput::Final, writes_atomic: false });
    proof {
        assert(r@ =~= single_pass_spec());
        assert(pass_wf(r@, 0, 0, 1));
    }
    r
}

/// Whether one of the first `n` passes writes pair `p`.
pub open spec fn written_by(passes: Seq<PassSpec>, n: int, p: usize) -> bool {
    exists|k: int| 0 <= k < n && #[trigger] passes[k].output == PassOutput::Pair(p)
}

/// Whether some pass of the table writes pair `p`.
pub open spec fn writes_pair(passes: Seq<PassSpec>, p: usize) -> bool {
    exists|i: int| 0 <= i < passes.len() && #[trigger] passes[i].output == PassOutput::Pair(p)
}

/// On every frame, no draw reads the image it writes; a pass that feeds a
/// pair back reads one of its images and writes the other; and every image
/// written on a frame is the one that frame targets, so an image read as
/// feedback is never written in the same frame.
pub proof fn lemma_no_aliasing(
    passes: Seq<PassSpec>,
    programs: Seq<PipelineProgram>,
    pair_count: nat,
    frame: u32,
    fin: FinalTarget,
    i: int,
)
    requires
        passes_wf(passes, pair_count, programs.len()),
        0 <= i < passes.len(),
    ensures
        ({
            let op = frame_plan(passes, programs, frame, fin)[i];
            &&& op.source matches SourceRef::Image(a) ==> (op.target matches TargetRef::Image(b) ==> a != b)
            &&& op.target matches TargetRef::Image(b) ==> b.index == target_index(frame) && b.pair < pair_count
            &&& passes[i].input matches PassInput::Feedback(p) ==> op.source == SourceRef::Image(
                ImageRef { pair: p, index: source_index(frame) as usize },
            )
            &&& passes[i].input matches PassInput::Feedback(p) ==> (passes[i].output == PassOutput::Pair(p)
                ==> op.target == TargetRef::Image(ImageRef { pair: p, index: (1 - source_index(frame)) as usize }))
        }),
{
    assert(pass_wf(passes, i, pair_count, programs.len()));
}

/// Within one planned frame, draws whose programs come from the same source
/// run programs of one version: a reload is seen by all of them or by none.
pub proof fn lemma_frame_single_version(
    passes: Seq<PassSpec>,
    programs: ProgramTable,
    pair_count: nat,
    frame: u32,
    fin: FinalTarget,
    i: int,
    j: int,
)
    requires
        programs.wf(),
        passes_wf(passes, pair_count, programs.slots@.len()),
        0 <= i < passes.len(),
        0 <= j < passes.len(),
    ensures
        ({
            let plan = frame_plan(passes, programs.slots@, frame, fin);
            plan[i].program.source == plan[j].program.source ==> plan[i].program.version == plan[j].program.version
        }),
{
    assert(pass_wf(passes, i, pair_count, programs.slots@.len()));
    assert(pass_wf(passes, j, pair_count, programs.slots@.len()));
    let a = passes[i].slot as int;
    let b = passes[j].slot as int;
    assert(programs.slots@[a].source == programs.slots@[b].source ==> programs.slots@[a].version
        == programs.slots@[b].version);
}

/// Monotonic logical time and the frame counter; the orchestrator alone
/// writes it.
#[derive(Clone, Copy, Debug, PartialEq, Eq, Structural)]
pub struct TimeState {
    pub frame: u32,
    pub elapsed_us: u64,
    pub paused: bool,
}

/// The frame after `frame`; the counter wraps, which keeps the parity
/// alternating since `u32::MAX` is odd.
pub open spec fn next_frame(frame: u32) -> u32 {
    if frame == u32::MAX { 0 } else { (frame + 1) as u32 }
}

impl TimeState {
    /// Time zero, frame zero, running.
    pub fn new() -> (r: TimeState)
        ensures
            r.frame == 0,
            r.elapsed_us == 0,
            !r.paused,
    {
        TimeState { frame: 0, elapsed_us: 0, paused: false }
    }

    /// Moves time on by `delta_us` unless paused (saturating at the maximum).
    pub fn advance(&mut self, delta_us: u64)
        ensures
            final(self).frame == old(self).frame,
            final(self).paused == old(self).paused,
            final(self).elapsed_us == (if old(self).paused {
                old(self).elapsed_us as int
            } else if old(self).elapsed_us + delta_us > u64::MAX {
                u64::MAX as int
            } else {
                old(self).elapsed_us + delta_us
            }),
    {
        if !self.paused {
            self.elapsed_us = self.elapsed_us.saturating_add(delta_us);
        }
    }
}

/// Discrete user intents, applied between frames.
#[derive(Clone, Copy, Debug, PartialEq, Eq, Structural)]
pub struct ControlRequest {
    pub toggle_pause: bool,
    pub seek_to_us: Option<u64>,
    pub clear_buffers: bool,
    pub start_export: bool,
    pub stop_export: bool,
}

/// Whether a request starts an export job.
pub open spec fn starts_export(req: ControlRequest) -> bool {
    req.start_export && !req.stop_export
}

impl ControlRequest {
    /// Whether the request starts an export job (a stop in the same request
    /// wins).
    pub fn starts_export(&self) -> (r: bool)
        ensures
            r == starts_export(*self),
    {
        self.start_export && !self.stop_export
    }
}

/// Why a pipeline could not be set up.
#[derive(Clone, Copy, Debug, PartialEq, Eq, Structural)]
pub enum SetupError {
    /// A pass names a missing slot or pair, or chains from a pair that no
    /// earlier pass writes, or reads the image it writes.
    LayoutMismatch,
    /// The atomic buffer for this surface would not fit in memory.
    AtomicTooLarge,
}

/// The state the orchestrator owns: time, feedback pairs, the atomic
/// buffer, the pass table, the programs and the export job.
#[derive(Clone, Debug)]
pub struct Orchestrator {
    pub time: TimeState,
    pub width: u32,
    pub height: u32,
    pub pairs: Vec<FeedbackPair>,
    pub atomic: Option<AtomicBuffer>,
    pub passes: Vec<PassSpec>,
    pub programs: ProgramTable,
    pub export: ExportJob,
}

/// All pairs are sound and sized `width` x `height`.
pub open spec fn pairs_sized(pairs: Seq<FeedbackPair>, width: u32, height: u32) -> bool {
    forall|p: int|
        0 <= p < pairs.len() ==> {
            &&& (#[trigger] pairs[p]).wf()
            &&& pairs[p].a.width == width
            &&& pairs[p].a.height == height
        }
}

/// Pairs replaced by cleared ones of `width` x `height`, each keeping its
/// format and layout.
pub open spec fn reallocated(old: Seq<FeedbackPair>, new: Seq<FeedbackPair>, width: u32, height: u32) -> bool {
    &&& new.len() == old.len()
    &&& forall|p: int|
        0 <= p < new.len() ==> {
            &&& (#[trigger] new[p]).wf()
            &&& new[p].fresh_at(width, height)
            &&& new[p].a.format == old[p].a.format
            &&& new[p].layout == old[p].layout
            &&& new[p].generation != old[p].generation
        }
}

/// Pairs after the draws of frame `f` of `passes`: each pair a pass writes
/// holds that frame's output in its target image; its other image, its
/// layout and generation stay; pairs no pass writes stay whole.
pub open spec fn outputs_marked(old: Seq<FeedbackPair>, new: Seq<FeedbackPair>, passes: Seq<PassSpec>, f: u32) -> bool {
    &&& new.len() == old.len()
    &&& forall|p: int|
        0 <= p < old.len() ==> {
            &&& (#[trigger] new[p]).image_at(source_index(f)) == old[p].image_at(source_index(f))
            &&& new[p].generation == old[p].generation
            &&& new[p].layout == old[p].layout
            &&& writes_pair(passes, p as usize) ==> new[p].image_at(target_index(f)).contents == Contents::Rendered(f)
            &&& !writes_pair(passes, p as usize) ==> new[p] == old[p]
        }
}

/// The same pairs with both images of each zero-filled in place.
pub open spec fn contents_reset(old: Seq<FeedbackPair>, new: Seq<FeedbackPair>) -> bool {
    &&& new.len() == old.len()
    &&& forall|p: int| 0 <= p < new.len() ==> #[trigger] new[p] == old[p].with_cleared_contents()
}

/// Zero-fills every pair in place.
fn reset_all_contents(pairs: &mut Vec<FeedbackPair>)
    ensures
        contents_reset(old(pairs)@, final(pairs)@),
{
    let ghost before = pairs@;
    let mut i: usize = 0;
    while i < pairs.len()
        invariant
            i <= pairs@.len(),
            pairs@.len() == before.len(),
            forall|p: int| i <= p < pairs@.len() ==> #[trigger] pairs@[p] == before[p],
            forall|p: int| 0 <= p < i ==> #[trigger] pairs@[p] == before[p].with_cleared_contents(),
        decreases pairs@.len() - i,
    {
        let fresh = pairs[i].reset_contents();
        pairs.set(i, fresh);
        i = i + 1;
    }
}

/// Replaces every pair by a cleared one of the given size.
fn reallocate_all(pairs: &mut Vec<FeedbackPair>, width: u32, height: u32)
    ensures
        reallocated(old(pairs)@, final(pairs)@, width, height),
{
    let ghost before = pairs@;
    let mut i: usize = 0;
    while i < pairs.len()
        invariant
            i <= pairs@.len(),
            pairs@.len() == before.len(),
            forall|p: int| i <= p < pairs@.len() ==> #[trigger] pairs@[p] == before[p],
            forall|p: int|
                0 <= p < i ==> {
                    &&& (#[trigger] pairs@[p]).wf()
                    &&& pairs@[p].fresh_at(width, height)
                    &&& pairs@[p].a.format == before[p].a.format
                    &&& pairs@[p].layout == before[p].layout
                    &&& pairs@[p].generation != before[p].generation
                },
        decreases pairs@.len() - i,
    {
        let fresh = pairs[i].clear_and_reallocate(width, height);
        pairs.set(i, fresh);
        i = i + 1;
    }
}

/// Checks that every pass of `passes` is sound for the given pair and slot
/// counts.
pub fn check_passes(passes: &Vec<PassSpec>, pair_count: usize, slot_count: usize) -> (r: bool)
    ensures
        r == passes_wf(passes@, pair_count as nat, slot_count as nat),
{
    let mut i: usize = 0;
    while i < passes.len()
        invariant
            i <= passes@.len(),
            forall|k: int| 0 <= k < i ==> #[trigger] pass_wf(passes@, k, pair_count as nat, slot_count as nat),
        decreases passes@.len() - i,
    {
        let s = passes[i];
        if s.slot >= slot_count {
            assert(!pass_wf(passes@, i as int, pair_count as nat, slot_count as nat));
            return false;
        }
        match s.output {
            PassOutput::Pair(p) => {
                if p >= pair_count {
                    assert(!pass_wf(passes@, i as int, pair_count as nat, slot_count as nat));
                    return false;
                }
            },
            PassOutput::Final => {},
        }
        match s.input {
            PassInput::Feedback(p) => {
                if p >= pair_count {
                    assert(!pass_wf(passes@, i as int, pair_count as nat, slot_count as nat));
                    return false;
                }
            },
            PassInput::Chained(p) => {
                if p >= pair_count || s.output == PassOutput::Pair(p) {
                    assert(!pass_wf(passes@, i as int, pair_count as nat, slot_count as nat));
                    return false;
                }
                let mut found = false;
                let mut j: usize = 0;
                while j < i
                    invariant
                        j <= i,
                        i < passes@.len(),
                        found ==> exists|k: int| 0 <= k < i && #[trigger] passes@[k].output == PassOutput::Pair(p),
                        !found ==> forall|k: int| 0 <= k < j ==> #[trigger] passes@[k].output != PassOutput::Pair(p),
                    decreases i - j,
                {
                    if passes[j].output == PassOutput::Pair(p) {
                        found = true;
                    }
                    j = j + 1;
                }
                if !found {
                    assert(!pass_wf(passes@, i as int, pair_count as nat, slot_count as nat));
                    return false;
                }
            },
            PassInput::External => {},
        }
        assert(pass_wf(passes@, i as int, pair_count as nat, slot_count as nat));
        i = i + 1;
    }
    true
}

impl Orchestrator {
    /// Pairs, atomic buffer, passes and programs agree with each other and
    /// with the surface size.
    pub open spec fn wf(self) -> bool {
        &&& self.programs.wf()
        &&& passes_wf(self.passes@, self.pairs@.len(), self.programs.slots@.len())
        &&& pairs_sized(self.pairs@, self.width, self.height)
        &&& self.atomic matches Some(b) ==> b.wf() && b.width == self.width && b.height == self.height
    }

    /// Sets up a pipeline of `pair_count` cleared pairs at `width` x
    /// `height`, with an atomic buffer of `atomic_multiple` counters per
    /// pixel if one is asked for. Fails on a pass table that does not fit
    /// the pairs and programs, and on an atomic buffer too large to hold.
    pub fn new(
        width: u32,
        height: u32,
        format: PixelFormat,
        pair_count: usize,
        passes: Vec<PassSpec>,
        programs: ProgramTable,
        atomic_multiple: Option<u32>,
        export: ExportSettings,
    ) -> (r: Result<Orchestrator, SetupError>)
        requires
            programs.wf(),
        ensures
            !passes_wf(passes@, pair_count as nat, programs.slots@.len()) ==> r == Err::<Orchestrator, SetupError>(
                SetupError::LayoutMismatch,
            ),
            passes_wf(passes@, pair_count as nat, programs.slots@.len()) ==> (r is Err <==> (atomic_multiple matches Some(m)
                && crate::atomic::slot_count_of(width as nat, height as nat, m as nat) > usize::MAX)),
            r is Err ==> r == Err::<Orchestrator, SetupError>(SetupError::LayoutMismatch) || r == Err::<
                Orchestrator,
                SetupError,
            >(SetupError::AtomicTooLarge),
            r matches Ok(o) ==> {
                &&& o.wf()
                &&& o.width == width && o.height == height
                &&& o.time == TimeState { frame: 0, elapsed_us: 0, paused: false }
                &&& o.pairs@.len() == pair_count
                &&& forall|p: int| 0 <= p < pair_count ==> (#[trigger] o.pairs@[p]).fresh_at(width, height)
                    && o.pairs@[p].a.format == format
                &&& o.passes@ == passes@
                &&& o.programs == programs
                &&& o.atomic.is_some() == atomic_multiple.is_some()
                &&& o.atomic matches Some(b) ==> atomic_multiple == Some(b.multiple)
                &&& forall|p: int| 0 <= p < pair_count ==> (#[trigger] o.pairs@[p]).layout == 0
                    && o.pairs@[p].generation == 0
                &&& o.export == ExportJob { settings: export, next_frame: 0, active: false }
            },
    {
        if !check_passes(&passes, pair_count, programs.slots.len()) {
            return Err(SetupError::LayoutMismatch);
        }
        let atomic = match atomic_multiple {
            Some(m) => match AtomicBuffer::new(width, height, m) {
                Some(b) => Some(b),
                None => {
                    return Err(SetupError::AtomicTooLarge);
                },
            },
            None => None,
        };
        let mut pairs: Vec<FeedbackPair> = Vec::new();
        let mut i: usize = 0;
        while i < pair_count
            invariant
                i <= pair_count,
                pairs@.len() == i,
                forall|p: int|
                    0 <= p < i ==> {
                        &&& (#[trigger] pairs@[p]).wf()
                        &&& pairs@[p].fresh_at(width, height)
                        &&& pairs@[p].a.format == format
                        &&& pairs@[p].layout == 0
                        &&& pairs@[p].generation == 0
                    },
            decreases pair_count - i,
        {
            pairs.push(FeedbackPair::allocate(width, height, format, 0));
            i = i + 1;
        }
        Ok(Orchestrator {
            time: TimeState::new(),
            width,
            height,
            pairs,
            atomic,
            passes,
            programs,
            export: ExportJob::new(export),
        })
    }

    /// The draws of the current frame, drawing the last pass into `fin`.
    pub fn plan_frame(&self, fin: FinalTarget) -> (r: Vec<PassOp>)
        requires
            self.wf(),
        ensures
            r@ == frame_plan(self.passes@, self.programs.slots@, self.time.frame, fin),
    {
        let frame = self.time.frame;
        let ghost plan = frame_plan(self.passes@, self.programs.slots@, frame, fin);
        let mut out: Vec<PassOp> = Vec::new();
        let mut i: usize = 0;
        while i < self.passes.len()
            invariant
                self.wf(),
                frame == self.time.frame,
                plan == frame_plan(self.passes@, self.programs.slots@, frame, fin),
                i <= self.passes@.len(),
                out@ == plan.subrange(0, i as int),
            decreases self.passes@.len() - i,
        {
            let s = self.passes[i];
            assert(pass_wf(self.passes@, i as int, self.pairs@.len(), self.programs.slots@.len()));
            let source = match s.input {
                PassInput::Feedback(p) => SourceRef::Image(ImageRef { pair: p, index: FeedbackPair::source_index(frame) }),
                PassInput::Chained(p) => SourceRef::Image(ImageRef { pair: p, index: FeedbackPair::target_index(frame) }),
                PassInput::External => SourceRef::External,
            };
            let target = match s.output {
                PassOutput::Pair(p) => TargetRef::Image(ImageRef { pair: p, index: FeedbackPair::target_index(frame) }),
                PassOutput::Final => match fin {
                    FinalTarget::Surface => TargetRef::Surface,
                    FinalTarget::Capture => TargetRef::Capture,
                },
            };
            out.push(PassOp {
                slot: s.slot,
                program: self.programs.slots[s.slot],
                source,
                target,
                clear_atomic: s.writes_atomic,
            });
            proof {
                assert(out@ =~= plan.subrange(0, i + 1));
            }
            i = i + 1;
        }
        proof {
            assert(out@ =~= plan);
        }
        out
    }

    /// Records the outputs of the current frame's draws: every pair a pass
    /// writes holds this frame's output in its target image, and its other
    /// image is untouched.
    fn mark_outputs(&mut self)
        requires
            old(self).wf(),
        ensures
            final(self).wf(),
            final(self).time == old(self).time,
            final(self).passes == old(self).passes,
            final(self).programs == old(self).programs,
            final(self).atomic == old(self).atomic,
            final(self).export == old(self).export,
            final(self).width == old(self).width,
            final(self).height == old(self).height,
            outputs_marked(old(self).pairs@, final(self).pairs@, old(self).passes@, old(self).time.frame),
    {
        let frame = self.time.frame;
        let ghost before = self.pairs@;
        let n_pairs = self.pairs.len();
        let mut i: usize = 0;
        while i < self.passes.len()
            invariant
                old(self).wf(),
                before.len() == n_pairs,
                frame == old(self).time.frame,
                before == old(self).pairs@,
                self.passes == old(self).passes,
                self.programs == old(self).programs,
                self.width == old(self).width,
                self.height == old(self).height,
                self.atomic == old(self).atomic,
                self.export == old(self).export,
                self.time == old(self).time,
                i <= self.passes@.len(),
                self.pairs@.len() == before.len(),
                pairs_sized(self.pairs@, self.width, self.height),
                forall|p: int|
                    0 <= p < before.len() ==> {
                        &&& (#[trigger] self.pairs@[p]).image_at(source_index(frame)) == before[p].image_at(
                            source_index(frame),
                        )
                        &&& self.pairs@[p].generation == before[p].generation
                        &&& self.pairs@[p].layout == before[p].layout
                        &&& written_by(self.passes@, i as int, p as usize)
                            ==> self.pairs@[p].image_at(target_index(frame)).contents == Contents::Rendered(frame)
                        &&& !written_by(self.passes@, i as int, p as usize) ==> self.pairs@[p] == before[p]
                    },
            decreases self.passes@.len() - i,
        {
            assert(pass_wf(self.passes@, i as int, self.pairs@.len(), self.programs.slots@.len()));
            let ghost prev = self.pairs@;
            let out = self.passes[i].output;
            match out {
                PassOutput::Pair(p) => {
                    let mut pair = self.pairs[p];
                    pair.mark_written(frame);
                    self.pairs.set(p, pair);
                },
                PassOutput::Final => {},
            }
            proof {
                assert forall|q: int| 0 <= q < before.len() implies {
                    &&& (#[trigger] self.pairs@[q]).image_at(source_index(frame)) == before[q].image_at(
                        source_index(frame),
                    )
                    &&& self.pairs@[q].generation == before[q].generation
                    &&& self.pairs@[q].layout == before[q].layout
                    &&& written_by(self.passes@, i + 1, q as usize)
                        ==> self.pairs@[q].image_at(target_index(frame)).contents == Contents::Rendered(frame)
                    &&& !written_by(self.passes@, i + 1, q as usize) ==> self.pairs@[q] == before[q]
                } by {
                    let qu = q as usize;
                    assert(qu as int == q);
                    if out == PassOutput::Pair(qu) {
                        assert(self.passes@[i as int].output == PassOutput::Pair(qu));
                        assert(written_by(self.passes@, i + 1, qu));
                    } else {
                        assert(self.pairs@[q] == prev[q]);
                        if written_by(self.passes@, i + 1, qu) {
                            let k = choose|k: int| 0 <= k < i + 1 && #[trigger] self.passes@[k].output == PassOutput::Pair(qu);
                            assert(k < i);
                            assert(written_by(self.passes@, i as int, qu));
                        } else {
                            assert(!written_by(self.passes@, i as int, qu));
                        }
                    }
                }
            }
            i = i + 1;
        }
        proof {
            assert forall|p: int| 0 <= p < before.len() implies
                #[trigger] written_by(self.passes@, self.passes@.len() as int, p as usize) == writes_pair(self.passes@, p as usize) by {}
        }
    }

    /// Closes the current frame after its draws were issued: its outputs
    /// are recorded and the frame counter moves on.
    pub fn finish_frame(&mut self)
        requires
            old(self).wf(),
        ensures
            final(self).wf(),
            final(self).time.frame == next_frame(old(self).time.frame),
            final(self).time.elapsed_us == old(self).time.elapsed_us,
            final(self).time.paused == old(self).time.paused,
            final(self).passes == old(self).passes,
            final(self).programs == old(self).programs,
            final(self).atomic == old(self).atomic,
            final(self).export == old(self).export,
            final(self).width == old(self).width,
            final(self).height == old(self).height,
            outputs_marked(old(self).pairs@, final(self).pairs@, old(self).passes@, old(self).time.frame),
    {
        self.mark_outputs();
        self.time.frame = self.time.frame.wrapping_add(1);
    }
    /// Reallocates every pair at `width` x `height` (both images of a pair
    /// together, cleared) and resizes the atomic buffer. If the atomic buffer
    /// would not fit in memory nothing changes.
    pub fn resize(&mut self, width: u32, height: u32) -> (r: Result<(), SetupError>)
        requires
            old(self).wf(),
        ensures
            final(self).wf(),
            r is Err <==> (old(self).atomic matches Some(b) && crate::atomic::slot_count_of(
                width as nat,
                height as nat,
                b.multiple as nat,
            ) > usize::MAX),
            r is Err ==> r == Err::<(), SetupError>(SetupError::AtomicTooLarge) && *final(self) == *old(self),
            r is Ok ==> {
                &&& final(self).width == width && final(self).height == height
                &&& reallocated(old(self).pairs@, final(self).pairs@, width, height)
                &&& final(self).atomic.is_some() == old(self).atomic.is_some()
                &&& final(self).atomic matches Some(b) ==> (old(self).atomic matches Some(a) && b.multiple
                    == a.multiple)
                &&& final(self).passes == old(self).passes
                &&& final(self).programs == old(self).programs
                &&& final(self).time == old(self).time
                &&& final(self).export == old(self).export
            },
    {
        let atomic = match self.atomic {
            Some(b) => match b.resized(width, height) {
                Some(nb) => Some(nb),
                None => {
                    return Err(SetupError::AtomicTooLarge);
                },
            },
            None => None,
        };
        reallocate_all(&mut self.pairs, width, height);
        self.width = width;
        self.height = height;
        self.atomic = atomic;
        Ok(())
    }

    /// Replaces every pair by cleared images of the current size.
    pub fn clear_buffers(&mut self)
        requires
            old(self).wf(),
        ensures
            final(self).wf(),
            reallocated(old(self).pairs@, final(self).pairs@, old(self).width, old(self).height),
            final(self).width == old(self).width,
            final(self).height == old(self).height,
            final(self).atomic == old(self).atomic,
            final(self).passes == old(self).passes,
            final(self).programs == old(self).programs,
            final(self).time == old(self).time,
            final(self).export == old(self).export,
    {
        let w = self.width;
        let h = self.height;
        reallocate_all(&mut self.pairs, w, h);
    }

    /// Applies a user request between frames: pause toggle, seek, clearing
    /// the pairs, and starting or stopping an export (a stop wins over a
    /// start in the same request). Starting an export zero-fills the pairs
    /// in place and sets the frame counter to zero, so that a job renders
    /// the same frames whenever it is started; only a clear request
    /// replaces the images.
    pub fn apply_request(&mut self, req: ControlRequest)
        requires
            old(self).wf(),
        ensures
            final(self).wf(),
            final(self).width == old(self).width,
            final(self).height == old(self).height,
            final(self).atomic == old(self).atomic,
            final(self).passes == old(self).passes,
            final(self).programs == old(self).programs,
            final(self).time.frame == (if starts_export(req) { 0 } else { old(self).time.frame }),
            final(self).time.paused == (old(self).time.paused != req.toggle_pause),
            final(self).time.elapsed_us == (match req.seek_to_us {
                Some(t) => t,
                None => old(self).time.elapsed_us,
            }),
            req.clear_buffers ==> reallocated(old(self).pairs@, final(self).pairs@, old(self).width, old(self).height),
            !req.clear_buffers && starts_export(req) ==> contents_reset(old(self).pairs@, final(self).pairs@),
            !req.clear_buffers && !starts_export(req) ==> final(self).pairs == old(self).pairs,
            final(self).export.settings == old(self).export.settings,
            req.stop_export ==> final(self).export == (ExportJob { active: false, ..old(self).export }),
            starts_export(req) ==> final(self).export.active && final(self).export.next_frame == 0,
            !req.stop_export && !req.start_export ==> final(self).export == old(self).export,
    {
        let starting = req.starts_export();
        if req.clear_buffers {
            self.clear_buffers();
        } else if starting {
            reset_all_contents(&mut self.pairs);
            proof {
                assert forall|p: int| 0 <= p < self.pairs@.len() implies {
                    &&& (#[trigger] self.pairs@[p]).wf()
                    &&& self.pairs@[p].a.width == self.width
                    &&& self.pairs@[p].a.height == self.height
                } by {
                    assert(old(self).pairs@[p].wf());
                }
            }
        }
        if starting {
            self.time.frame = 0;
        }
        if req.toggle_pause {
            self.time.paused = !self.time.paused;
        }
        match req.seek_to_us {
            Some(t) => {
                self.time.elapsed_us = t;
            },
            None => {},
        }
        if starting {
            self.export.start();
        }
        if req.stop_export {
            self.export.stop();
        }
    }

    /// Moves logical time on by `delta_us` (unless paused).
    pub fn advance_time(&mut self, delta_us: u64)
        requires
            old(self).wf(),
        ensures
            final(self).wf(),
            final(self).time.frame == old(self).time.frame,
            final(self).time.paused == old(self).time.paused,
            final(self).time.elapsed_us == (if old(self).time.paused {
                old(self).time.elapsed_us as int
            } else if old(self).time.elapsed_us + delta_us > u64::MAX {
                u64::MAX as int
            } else {
                old(self).time.elapsed_us + delta_us
            }),
            final(self).pairs == old(self).pairs,
            final(self).passes == old(self).passes,
            final(self).programs == old(self).programs,
            final(self).atomic == old(self).atomic,
            final(self).export == old(self).export,
            final(self).width == old(self).width,
            final(self).height == old(self).height,
    {
        self.time.advance(delta_us);
    }

    /// Hot reload of `source` between frames: see
    /// [`ProgramTable::check_and_reload`]. `compiled` is `None` when no
    /// change was seen, else whether the device built the programs of every
    /// slot bound to `source` from the new text. The pass table keeps
    /// pointing at valid slots whatever the outcome.
    pub fn reload(&mut self, source: u32, compiled: Option<bool>) -> (r: Result<bool, ReloadError>)
        requires
            old(self).wf(),
        ensures
            final(self).wf(),
            compiled is None ==> r == Ok::<bool, ReloadError>(false) && final(self).programs == old(self).programs,
            compiled == Some(false) ==> r == Err::<bool, ReloadError>(ReloadError::Invalid),
            compiled == Some(true) && old(self).programs.version == u64::MAX ==> r == Err::<bool, ReloadError>(
                ReloadError::VersionsExhausted,
            ),
            compiled == Some(true) && old(self).programs.version < u64::MAX ==> {
                &&& r == Ok::<bool, ReloadError>(true)
                &&& final(self).programs.version == old(self).programs.version + 1
                &&& final(self).programs.slots@ == crate::program::rebuilt(
                    old(self).programs.slots@,
                    source,
                    (old(self).programs.version + 1) as u64,
                )
            },
            r is Err ==> final(self).programs.slots@ == old(self).programs.slots@
                && final(self).programs.version == old(self).programs.version,
            final(self).pairs == old(self).pairs,
            final(self).passes == old(self).passes,
            final(self).time == old(self).time,
            final(self).atomic == old(self).atomic,
            final(self).export == old(self).export,
            final(self).width == old(self).width,
            final(self).height == old(self).height,
    {
        let r = self.programs.check_and_reload(source, compiled);
        proof {
            match compiled {
                Some(c) => {
                    if c {
                        assert(compiled == Some(true));
                    } else {
                        assert(compiled == Some(false));
                    }
                },
                None => {},
            }
            assert(self.programs.slots@.len() == old(self).programs.slots@.len());
            assert(passes_wf(self.passes@, self.pairs@.len(), self.programs.slots@.len()));
            assert(self.programs.wf());
        }
        r
    }

    /// The next frame of the active export job: its index, its logical time,
    /// and the draws that render it into the capture target. The logical
    /// time is set to the frame's time, the draws' outputs are recorded and
    /// the frame counter moves on, as for a live frame. `None` once the job
    /// is done (it then stops).
    pub fn next_export_frame(&mut self) -> (r: Option<ExportFrame>)
        requires
            old(self).wf(),
        ensures
            final(self).wf(),
            frame_view(r) == export_step(*old(self)),
            final(self).export.settings == old(self).export.settings,
            final(self).passes == old(self).passes,
            final(self).programs == old(self).programs,
            final(self).atomic == old(self).atomic,
            final(self).width == old(self).width,
            final(self).height == old(self).height,
            final(self).time.paused == old(self).time.paused,
            r matches Some(e) ==> {
                &&& final(self).time.elapsed_us == e.time_us
                &&& final(self).time.frame == next_frame(old(self).time.frame)
                &&& outputs_marked(old(self).pairs@, final(self).pairs@, old(self).passes@, old(self).time.frame)
                &&& final(self).export.active
                &&& final(self).export.next_frame == old(self).export.next_frame + 1
            },
            r is None ==> {
                &&& !final(self).export.active
                &&& final(self).export.next_frame == old(self).export.next_frame
                &&& final(self).time == old(self).time
                &&& final(self).pairs == old(self).pairs
            },
    {
        match self.export.try_get_next_frame() {
            Some((index, time_us)) => {
                self.time.elapsed_us = time_us;
                let ops = self.plan_frame(FinalTarget::Capture);
                self.finish_frame();
                Some(ExportFrame { index, time_us, ops })
            },
            None => None,
        }
    }
}

/// One frame of an export job, ready to render.
#[derive(Clone, Debug)]
pub struct ExportFrame {
    pub index: u64,
    pub time_us: u64,
    pub ops: Vec<PassOp>,
}

/// An export frame as plain values: index, time and draws.
pub open spec fn frame_view(r: Option<ExportFrame>) -> Option<(u64, u64, Seq<PassOp>)> {
    match r {
        Some(e) => Some((e.index, e.time_us, e.ops@)),
        None => None,
    }
}

/// What [`Orchestrator::next_export_frame`] hands out for state `o`.
pub open spec fn export_step(o: Orchestrator) -> Option<(u64, u64, Seq<PassOp>)> {
    if o.export.active && o.export.next_frame < total_frames(o.export.settings) {
        Some(
            (
                o.export.next_frame,
                frame_time_us(o.export.settings, o.export.next_frame as nat) as u64,
                frame_plan(o.passes@, o.programs.slots@, o.time.frame, FinalTarget::Capture),
            ),
        )
    } else {
        None
    }
}

/// What holds of every draw of a frame planned by a sound orchestrator,
/// whatever its pass table: no draw reads the image it writes, a feedback
/// pass reads the image of its pair that the frame does not write, and every
/// image written is the one the frame targets.
pub proof fn lemma_planned_frame_no_aliasing(o: Orchestrator, fin: FinalTarget, i: int)
    requires
        o.wf(),
        0 <= i < o.passes@.len(),
    ensures
        ({
            let op = frame_plan(o.passes@, o.programs.slots@, o.time.frame, fin)[i];
            &&& op.source matches SourceRef::Image(a) ==> (op.target matches TargetRef::Image(b) ==> a != b)
            &&& op.target matches TargetRef::Image(b) ==> b.index == target_index(o.time.frame) && b.pair
                < o.pairs@.len()
            &&& o.passes@[i].input matches PassInput::Feedback(p) ==> op.source == SourceRef::Image(
                ImageRef { pair: p, index: source_index(o.time.frame) as usize },
            )
        }),
{
    lemma_no_aliasing(o.passes@, o.programs.slots@, o.pairs@.len(), o.time.frame, fin, i);
}

/// Export is deterministic: two runs whose export job, pass table, programs
/// and frame parity agree get the same frame index, the same logical time
/// and the same draws, whatever their wall-clock time, pause state or
/// elapsed time. Starting a job sets the frame counter to zero and clears
/// the pairs, so every run of a job starts from the same state.
pub proof fn lemma_export_deterministic(a: Orchestrator, b: Orchestrator)
    requires
        a.export == b.export,
        a.passes@ == b.passes@,
        a.programs.slots@ == b.programs.slots@,
        a.time.frame % 2 == b.time.frame % 2,
    ensures
        export_step(a) == export_step(b),
{
    let pa = frame_plan(a.passes@, a.programs.slots@, a.time.frame, FinalTarget::Capture);
    let pb = frame_plan(b.passes@, b.programs.slots@, b.time.frame, FinalTarget::Capture);
    assert(pa =~= pb);
}

} // verus!
