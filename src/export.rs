//! Offscreen frame export: the schedule of frames and times of an export job,
//! and the removal of the row padding that GPU buffer copies carry.
use vstd::prelude::*;
use vstd::arithmetic::mul::lemma_mul_inequality;

verus! {

/// GPU buffer copies pad every row to a multiple of this many bytes.
pub const ROW_ALIGNMENT: u64 = 256;

/// Bytes in one tightly packed RGBA8 row.
pub open spec fn row_bytes(width: nat) -> nat {
    width * 4
}

/// Bytes in one row of a GPU copy: the packed row rounded up to the alignment.
pub open spec fn padded_row_bytes(width: nat) -> nat {
    ((width * 4 + 255) / 256) * 256
}

/// The first `h` rows of `p`, each `row` bytes taken at a stride of
/// `stride` bytes, concatenated.
pub open spec fn packed_rows(p: Seq<u8>, row: nat, stride: nat, h: nat) -> Seq<u8>
    decreases h,
{
    if h == 0 {
        Seq::empty()
    } else {
        let y = (h - 1) as nat;
        packed_rows(p, row, stride, y) + p.subrange((y * stride) as int, (y * stride + row) as int)
    }
}

/// Why a captured buffer could not be turned into pixels.
#[derive(Clone, Copy, Debug, PartialEq, Eq, Structural)]
pub enum CaptureError {
    /// The mapped buffer holds fewer bytes than `height` padded rows.
    ShortBuffer,
}

/// Row stride of a GPU copy of an RGBA8 image `width` pixels wide.
pub fn padded_bytes_per_row(width: u32) -> (r: u64)
    ensures
        r as nat == padded_row_bytes(width as nat),
        r % ROW_ALIGNMENT == 0,
        row_bytes(width as nat) <= r,
        r < row_bytes(width as nat) + ROW_ALIGNMENT,
{
    let unpadded: u64 = width as u64 * 4;
    (unpadded + 255) / 256 * 256
}

proof fn lemma_packed_rows_len(p: Seq<u8>, row: nat, stride: nat, h: nat)
    requires
        row <= stride,
        h * stride <= p.len(),
    ensures
        packed_rows(p, row, stride, h).len() == h * row,
    decreases h,
{
    if h > 0 {
        let y = (h - 1) as nat;
        assert(y * stride + stride == h * stride) by (nonlinear_arith)
            requires y == h - 1;
        assert(y * stride <= h * stride) by (nonlinear_arith)
            requires y == h - 1;
        assert(y * row + row == h * row) by (nonlinear_arith)
            requires y == h - 1;
        lemma_packed_rows_len(p, row, stride, y);
        let tail = p.subrange((y * stride) as int, (y * stride + row) as int);
        assert(tail.len() == row);
        assert(packed_rows(p, row, stride, h) == packed_rows(p, row, stride, y) + tail);
        assert(packed_rows(p, row, stride, h).len() == y * row + row);
    } else {
        assert(h * row == 0) by (nonlinear_arith)
            requires h == 0;
    }
}

/// Byte `x` of row `y` of the packed rows is byte `x` of row `y` of the
/// padded copy.
pub proof fn lemma_packed_rows_index(p: Seq<u8>, row: nat, stride: nat, h: nat, y: nat, x: nat)
    requires
        row <= stride,
        h * stride <= p.len(),
        y < h,
        x < row,
    ensures
        y * row + x < packed_rows(p, row, stride, h).len(),
        packed_rows(p, row, stride, h)[(y * row + x) as int] == p[(y * stride + x) as int],
    decreases h,
{
    let last = (h - 1) as nat;
    assert(last * stride <= h * stride) by (nonlinear_arith)
        requires last == h - 1;
    assert(last * stride + stride == h * stride) by (nonlinear_arith)
        requires last == h - 1;
    lemma_packed_rows_len(p, row, stride, h);
    lemma_packed_rows_len(p, row, stride, last);
    assert(y * row + x < h * row) by (nonlinear_arith)
        requires y < h, x < row;
    let tail = p.subrange((last * stride) as int, (last * stride + row) as int);
    assert(packed_rows(p, row, stride, h) == packed_rows(p, row, stride, last) + tail);
    if y < last {
        lemma_packed_rows_index(p, row, stride, last, y, x);
    } else {
        assert(y == last);
    }
}

/// Strips the row padding from a mapped copy of a `width` x `height` RGBA8
/// image, giving `width * height * 4` tightly packed bytes in row-major order.
pub fn unpad_rows(padded: &[u8], width: u32, height: u32) -> (r: Result<Vec<u8>, CaptureError>)
    ensures
        (padded@.len() < padded_row_bytes(width as nat) * height) <==> r is Err,
        r is Err ==> r == Err::<Vec<u8>, CaptureError>(CaptureError::ShortBuffer),
        r is Ok ==> r->Ok_0@ == packed_rows(
            padded@,
            row_bytes(width as nat),
            padded_row_bytes(width as nat),
            height as nat,
        ),
        r is Ok ==> r->Ok_0@.len() == width as nat * height as nat * 4,
{
    let stride64 = padded_bytes_per_row(width);
    assert(stride64 as u128 * height as u128 <= u64::MAX as u128 * u32::MAX as u128) by (nonlinear_arith)
        requires stride64 <= u64::MAX, height <= u32::MAX;
    let needed: u128 = stride64 as u128 * height as u128;
    if (padded.len() as u128) < needed {
        return Err(CaptureError::ShortBuffer);
    }
    if height == 0 {
        return Ok(Vec::new());
    }
    let plen: usize = padded.len();
    let ghost p = padded@;
    let ghost s = padded_row_bytes(width as nat);
    let ghost rw = row_bytes(width as nat);
    let ghost h = height as nat;
    assert(h * s <= p.len()) by (nonlinear_arith)
        requires needed == s * h, needed <= p.len();
    assert(s <= h * s) by (nonlinear_arith)
        requires h >= 1;
    let stride: usize = stride64 as usize;
    let row: usize = width as usize * 4;
    let mut out: Vec<u8> = Vec::new();
    let mut base: usize = 0;
    let mut y: u32 = 0;
    while y < height
        invariant
            y <= height,
            h == height as nat,
            s == padded_row_bytes(width as nat),
            rw == row_bytes(width as nat),
            stride == s,
            row == rw,
            rw <= s,
            h * s <= p.len(),
            plen == p.len(),
            p == padded@,
            base == y * s,
            out@ == packed_rows(p, rw, s, y as nat),
        decreases height - y,
    {
        proof {
            assert(base + s <= h * s) by (nonlinear_arith)
                requires base == y * s, y < h;
        }
        let ghost start = out@;
        let mut x: usize = 0;
        while x < row
            invariant
                x <= row,
                row == rw,
                base + row <= plen,
                plen == p.len(),
                p == padded@,
                out@ == start + p.subrange(base as int, (base + x) as int),
            decreases row - x,
        {
            out.push(padded[base + x]);
            proof {
                assert(p.subrange(base as int, (base + x) as int).push(p[(base + x) as int])
                    =~= p.subrange(base as int, (base + x + 1) as int));
            }
            x = x + 1;
        }
        proof {
            assert(packed_rows(p, rw, s, (y + 1) as nat)
                == packed_rows(p, rw, s, y as nat) + p.subrange((y * s) as int, (y * s + rw) as int));
        }
        proof {
            assert(base + s == (y + 1) * s) by (nonlinear_arith)
                requires base == y * s;
            assert((y + 1) * s <= h * s) by (nonlinear_arith)
                requires y < h;
        }
        y = y + 1;
        base = base + stride;
    }
    proof {
        assert(base == y * s);
        lemma_packed_rows_len(p, rw, s, h);
        assert(h * rw == width as nat * height as nat * 4) by (nonlinear_arith)
            requires h == height as nat, rw == width as nat * 4;
    }
    Ok(out)
}

/// What an export job renders: the capture size, the frame rate, and the
/// span of logical time, in milliseconds, that it covers.
#[derive(Clone, Copy, Debug, PartialEq, Eq, Structural)]
pub struct ExportSettings {
    pub width: u32,
    pub height: u32,
    pub fps: u32,
    pub start_ms: u32,
    pub duration_ms: u32,
}

/// Number of frames an export job renders: one per `1/fps` second of its span.
pub open spec fn total_frames(s: ExportSettings) -> nat {
    if s.fps == 0 {
        0
    } else {
        (s.duration_ms * s.fps / 1000) as nat
    }
}

/// Logical time, in microseconds, at which frame `f` of a job is rendered.
pub open spec fn frame_time_us(s: ExportSettings, f: nat) -> nat
    recommends
        s.fps > 0,
{
    (s.start_ms * 1000 + f * 1_000_000 / (s.fps as nat)) as nat
}

/// The frames of an export job, handed out one at a time in order.
///
/// The frame index and its time depend on the settings alone, never on the
/// wall clock.
#[derive(Clone, Copy, Debug, PartialEq, Eq, Structural)]
pub struct ExportJob {
    pub settings: ExportSettings,
    pub next_frame: u64,
    pub active: bool,
}

impl ExportJob {
    /// An idle job with the given settings.
    pub fn new(settings: ExportSettings) -> (r: ExportJob)
        ensures
            r.settings == settings,
            r.next_frame == 0,
            !r.active,
    {
        ExportJob { settings, next_frame: 0, active: false }
    }

    /// Starts the job over from its first frame.
    pub fn start(&mut self)
        ensures
            final(self).settings == old(self).settings,
            final(self).next_frame == 0,
            final(self).active,
    {
        self.next_frame = 0;
        self.active = true;
    }

    /// Stops the job; no further frames are handed out.
    pub fn stop(&mut self)
        ensures
            final(self).settings == old(self).settings,
            final(self).next_frame == old(self).next_frame,
            !final(self).active,
    {
        self.active = false;
    }

    /// Number of frames the job renders.
    pub fn frame_count(&self) -> (r: u64)
        ensures
            r as nat == total_frames(self.settings),
    {
        if self.settings.fps == 0 {
            0
        } else {
            let d = self.settings.duration_ms as u64;
            let fps = self.settings.fps as u64;
            assert(d * fps <= u32::MAX as u64 * u32::MAX as u64) by (nonlinear_arith)
                requires d <= u32::MAX, fps <= u32::MAX;
            d * fps / 1000
        }
    }

    /// The next frame to render and its logical time in microseconds, or
    /// `None` once every frame was handed out (the job then stops).
    pub fn try_get_next_frame(&mut self) -> (r: Option<(u64, u64)>)
        ensures
            final(self).settings == old(self).settings,
            (old(self).active && old(self).next_frame < total_frames(old(self).settings)) ==> {
                &&& r == Some((old(self).next_frame, frame_time_us(old(self).settings, old(self).next_frame as nat) as u64))
                &&& frame_time_us(old(self).settings, old(self).next_frame as nat) <= u64::MAX
                &&& final(self).next_frame == old(self).next_frame + 1
                &&& final(self).active
            },
            !(old(self).active && old(self).next_frame < total_frames(old(self).settings)) ==> {
                &&& r is None
                &&& final(self).next_frame == old(self).next_frame
                &&& !final(self).active
            },
    {
        let total = self.frame_count();
        if !self.active || self.next_frame >= total {
            self.active = false;
            return None;
        }
        let s = self.settings;
        let f = self.next_frame;
        proof {
            let d = s.duration_ms as int;
            let fps = s.fps as int;
            assert(f * 1000 <= d * fps) by (nonlinear_arith)
                requires f < (d * fps) / 1000, fps > 0, d >= 0;
            assert(f * 1_000_000 <= d * fps * 1000) by (nonlinear_arith)
                requires f * 1000 <= d * fps;
            assert(f * 1_000_000 / fps <= d * 1000) by (nonlinear_arith)
                requires f * 1_000_000 <= d * fps * 1000, fps > 0;
            assert(d * fps <= u32::MAX as nat * u32::MAX as nat) by (nonlinear_arith)
                requires 0 <= d <= u32::MAX, 0 <= fps <= u32::MAX;
        }
        let offset: u128 = f as u128 * 1_000_000 / s.fps as u128;
        let t: u64 = s.start_ms as u64 * 1000 + offset as u64;
        self.next_frame = f + 1;
        Some((f, t))
    }
}

} // verus!
