//! The GPU synthesis bridge: on a fixed cadence of frames the render loop
//! asks for the sample buffer that the compute pass wrote, without waiting
//! for it; a completed read is decoded and handed to the audio engine
//! through a single-slot mailbox in which the latest value wins.
use vstd::prelude::*;

verus! {

/// Frames between two readbacks of the synthesis buffer.
pub const READBACK_CADENCE: u32 = 180;

/// Synthesis parameters as the compute pass wrote them: the bit patterns of
/// its first three 32-bit floats (frequency, amplitude, waveform selector).
#[derive(Clone, Copy, Debug, PartialEq, Eq, Structural)]
pub struct RawSample {
    pub frequency_bits: u32,
    pub amplitude_bits: u32,
    pub waveform_bits: u32,
}

/// What the render loop does about the synthesis buffer on a frame.
#[derive(Clone, Copy, Debug, PartialEq, Eq, Structural)]
pub enum ReadbackAction {
    /// Not a readback frame.
    Skip,
    /// A readback frame: copy the buffer out and ask for the copy to be
    /// mapped, without waiting. The number names the request.
    RequestMap(u64),
}

/// Whether `frame` is a readback frame.
pub open spec fn is_readback_frame(frame: u32, cadence: u32) -> bool
    recommends
        cadence > 0,
{
    frame % cadence == 0
}

/// The sample held in the first three words of a mapped buffer, if it has
/// that many.
pub open spec fn decoded(words: Seq<u32>) -> Option<RawSample> {
    if words.len() >= 3 {
        Some(RawSample { frequency_bits: words[0], amplitude_bits: words[1], waveform_bits: words[2] })
    } else {
        None
    }
}

/// Decodes the first three words of a mapped synthesis buffer.
pub fn decode_sample(words: &[u32]) -> (r: Option<RawSample>)
    ensures
        r == decoded(words@),
{
    if words.len() >= 3 {
        Some(RawSample { frequency_bits: words[0], amplitude_bits: words[1], waveform_bits: words[2] })
    } else {
        None
    }
}

/// State of the readback side of the bridge: the number of the next
/// request, the number of the request whose sample is in force, and that
/// sample.
#[derive(Clone, Copy, Debug, PartialEq, Eq, Structural)]
pub struct SynthesisBridge {
    pub cadence: u32,
    pub next_request: u64,
    pub applied: Option<u64>,
    pub latest: Option<RawSample>,
}

/// Whether a completed request `id` is newer than the one in force.
pub open spec fn is_newer(applied: Option<u64>, id: u64) -> bool {
    match applied {
        Some(a) => a < id,
        None => true,
    }
}

impl SynthesisBridge {
    /// A bridge reading back every `cadence` frames, with nothing read yet.
    pub fn new(cadence: u32) -> (r: SynthesisBridge)
        requires
            cadence > 0,
        ensures
            r.cadence == cadence,
            r.next_request == 0,
            r.applied is None,
            r.latest is None,
    {
        SynthesisBridge { cadence, next_request: 0, applied: None, latest: None }
    }

    /// Called once per frame: every readback frame asks for one read,
    /// whether or not earlier reads have completed; other frames ask for
    /// none. The decision depends on the frame number alone.
    pub fn on_frame(&mut self, frame: u32) -> (r: ReadbackAction)
        requires
            old(self).cadence > 0,
        ensures
            is_readback_frame(frame, old(self).cadence) ==> r == ReadbackAction::RequestMap(old(self).next_request),
            !is_readback_frame(frame, old(self).cadence) ==> r == ReadbackAction::Skip,
            final(self).cadence == old(self).cadence,
            final(self).latest == old(self).latest,
            final(self).applied == old(self).applied,
            final(self).next_request == (if is_readback_frame(frame, old(self).cadence)
                && old(self).next_request < u64::MAX {
                old(self).next_request + 1
            } else {
                old(self).next_request as int
            }),
    {
        if frame % self.cadence != 0 {
            ReadbackAction::Skip
        } else {
            let id = self.next_request;
            if id < u64::MAX {
                self.next_request = id + 1;
            }
            ReadbackAction::RequestMap(id)
        }
    }

    /// Called when request `id` completed with `words`: returns the sample
    /// to forward to the audio engine. A buffer too short to hold a sample,
    /// or a read older than the sample in force, changes nothing: the last
    /// sample stays until a newer read completes.
    pub fn on_mapped(&mut self, id: u64, words: &[u32]) -> (r: Option<RawSample>)
        ensures
            r == (if decoded(words@) is Some && is_newer(old(self).applied, id) {
                decoded(words@)
            } else {
                None
            }),
            final(self).cadence == old(self).cadence,
            final(self).next_request == old(self).next_request,
            r is Some ==> final(self).latest == r && final(self).applied == Some(id),
            r is None ==> final(self).latest == old(self).latest && final(self).applied == old(self).applied,
    {
        let s = decode_sample(words);
        let newer = match self.applied {
            Some(a) => a < id,
            None => true,
        };
        if s.is_some() && newer {
            self.latest = s;
            self.applied = Some(id);
            s
        } else {
            None
        }
    }
}

/// A single-slot handoff between one writer and one reader: a post replaces
/// whatever was not yet taken, and a take never waits.
#[derive(Clone, Copy, Debug)]
pub struct Mailbox<T> {
    pub slot: Option<T>,
}

impl<T> Mailbox<T> {
    /// An empty mailbox.
    pub fn new() -> (r: Mailbox<T>)
        ensures
            r.slot is None,
    {
        Mailbox { slot: None }
    }

    /// Leaves `value` for the reader, dropping an older value not yet taken.
    pub fn post(&mut self, value: T)
        ensures
            final(self).slot == Some(value),
    {
        self.slot = Some(value);
    }

    /// Takes the latest value, if one was posted since the last take.
    pub fn take(&mut self) -> (r: Option<T>)
        ensures
            r == old(self).slot,
            final(self).slot is None,
    {
        self.slot.take()
    }
}

/// With the fixed cadence, frames 1 to 179 ask for nothing, and every
/// multiple of 180 asks for exactly one read, whatever earlier reads did.
pub proof fn lemma_readback_cadence(frame: u32)
    ensures
        1 <= frame < 180 ==> !is_readback_frame(frame, READBACK_CADENCE),
        is_readback_frame(frame, READBACK_CADENCE) <==> frame % 180 == 0,
{
}

} // verus!
