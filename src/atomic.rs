//! Atomic accumulation buffers: one counter per pixel (or a few per pixel),
//! zero-filled before every pass that accumulates into them.
use vstd::prelude::*;

verus! {

/// Number of counters of a buffer for a `width` x `height` surface with
/// `multiple` counters per pixel.
pub open spec fn slot_count_of(width: nat, height: nat, multiple: nat) -> nat {
    width * height * multiple
}

/// Counter `k` of pixel (`x`, `y`): pixels in row-major order, each owning
/// `multiple` consecutive counters.
pub open spec fn slot_of(width: nat, multiple: nat, x: nat, y: nat, k: nat) -> nat {
    (y * width + x) * multiple + k
}

/// The contents of a buffer of `len` counters after a clear.
pub open spec fn cleared(len: nat) -> Seq<u32> {
    Seq::new(len, |i: int| 0u32)
}

/// Size and pixel-to-slot mapping of a GPU counter buffer.
#[derive(Clone, Copy, Debug, PartialEq, Eq, Structural)]
pub struct AtomicBuffer {
    pub width: u32,
    pub height: u32,
    pub multiple: u32,
    pub slot_count: usize,
}

impl AtomicBuffer {
    /// The counter count matches the surface size.
    pub open spec fn wf(self) -> bool {
        self.slot_count as nat == slot_count_of(self.width as nat, self.height as nat, self.multiple as nat)
    }

    /// A buffer with `multiple` counters for each pixel of a `width` x
    /// `height` surface, or `None` where that count does not fit in `usize`.
    pub fn new(width: u32, height: u32, multiple: u32) -> (r: Option<AtomicBuffer>)
        ensures
            slot_count_of(width as nat, height as nat, multiple as nat) <= usize::MAX <==> r is Some,
            r matches Some(b) ==> {
                &&& b.wf()
                &&& b.width == width
                &&& b.height == height
                &&& b.multiple == multiple
            },
    {
        assert(width as u64 * height as u64 <= u32::MAX as u64 * u32::MAX as u64) by (nonlinear_arith)
            requires width <= u32::MAX, height <= u32::MAX;
        let wh: u64 = width as u64 * height as u64;
        assert(wh as u128 * multiple as u128 <= u64::MAX as u128 * u32::MAX as u128) by (nonlinear_arith)
            requires wh <= u64::MAX, multiple <= u32::MAX;
        let count: u128 = wh as u128 * multiple as u128;
        assert(count as nat == slot_count_of(width as nat, height as nat, multiple as nat));
        if count > usize::MAX as u128 {
            return None;
        }
        Some(AtomicBuffer { width, height, multiple, slot_count: count as usize })
    }

    /// The same mapping for a surface of a new size.
    pub fn resized(&self, width: u32, height: u32) -> (r: Option<AtomicBuffer>)
        ensures
            slot_count_of(width as nat, height as nat, self.multiple as nat) <= usize::MAX <==> r is Some,
            r matches Some(b) ==> {
                &&& b.wf()
                &&& b.width == width
                &&& b.height == height
                &&& b.multiple == self.multiple
            },
    {
        AtomicBuffer::new(width, height, self.multiple)
    }

    /// Index of counter `k` of pixel (`x`, `y`).
    pub fn slot_index(&self, x: u32, y: u32, k: u32) -> (r: usize)
        requires
            self.wf(),
            x < self.width,
            y < self.height,
            k < self.multiple,
        ensures
            r as nat == slot_of(self.width as nat, self.multiple as nat, x as nat, y as nat, k as nat),
            r < self.slot_count,
    {
        let ghost w = self.width as nat;
        let ghost h = self.height as nat;
        let ghost m = self.multiple as nat;
        proof {
            assert(y * w + x < h * w) by (nonlinear_arith)
                requires x < w, y < h;
            assert((y * w + x) * m + k < (h * w) * m) by (nonlinear_arith)
                requires y * w + x < h * w, k < m;
            assert((h * w) * m == w * h * m) by (nonlinear_arith);
            assert(h * w <= (h * w) * m) by (nonlinear_arith)
                requires m >= 1;
            assert(y * w <= y * w + x);
            assert((y * w + x) * m <= (y * w + x) * m + k);
        }
        let p: usize = y as usize * self.width as usize + x as usize;
        p * self.multiple as usize + k as usize
    }

    /// The zero-fill written to the buffer before a pass accumulates into
    /// it: every counter is zero, whatever the buffer's size.
    pub fn clear(&self) -> (r: Vec<u32>)
        ensures
            r@ == cleared(self.slot_count as nat),
    {
        let mut out: Vec<u32> = Vec::with_capacity(self.slot_count);
        let mut i: usize = 0;
        while i < self.slot_count
            invariant
                i <= self.slot_count,
                out@ == cleared(i as nat),
            decreases self.slot_count - i,
        {
            out.push(0u32);
            proof {
                assert(out@ =~= cleared((i + 1) as nat));
            }
            i = i + 1;
        }
        out
    }
}

/// Right after a clear, every counter of the buffer reads zero.
pub proof fn lemma_cleared_all_zero(len: nat)
    ensures
        cleared(len).len() == len,
        forall|i: int| 0 <= i < len ==> #[trigger] cleared(len)[i] == 0,
{
}

} // verus!
