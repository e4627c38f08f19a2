//! Feedback image pairs: two images of one size and format, of which one is
//! read and the other written on each frame, chosen by the frame's parity.
use vstd::prelude::*;

verus! {

/// Pixel formats that the render core allocates images in.
#[derive(Clone, Copy, Debug, PartialEq, Eq, Structural)]
pub enum PixelFormat {
    Rgba8Unorm,
    Rgba16Float,
    Bgra8UnormSrgb,
}

/// What an image holds: nothing yet (zero-filled), or the output of a pass
/// run on the given frame.
#[derive(Clone, Copy, Debug, PartialEq, Eq, Structural)]
pub enum Contents {
    Cleared,
    Rendered(u32),
}

/// A 2D pixel surface of the pair manager.
#[derive(Clone, Copy, Debug, PartialEq, Eq, Structural)]
pub struct ImageBuffer {
    pub width: u32,
    pub height: u32,
    pub format: PixelFormat,
    pub contents: Contents,
}

/// Index of the image that is written on `frame`.
pub open spec fn target_index(frame: u32) -> int {
    (frame % 2) as int
}

/// Index of the image that is read on `frame`: the one not written.
pub open spec fn source_index(frame: u32) -> int {
    1 - (frame % 2) as int
}

/// Two images, A (index 0) and B (index 1), allocated and replaced together.
///
/// `generation` counts allocations; a host keeps one GPU texture per image
/// and makes new ones whenever the generation it holds differs.
#[derive(Clone, Copy, Debug, PartialEq, Eq, Structural)]
pub struct FeedbackPair {
    pub a: ImageBuffer,
    pub b: ImageBuffer,
    pub layout: u32,
    pub generation: u64,
}

impl FeedbackPair {
    /// The image at `i` (0 is A, 1 is B).
    pub open spec fn image_at(self, i: int) -> ImageBuffer {
        if i == 0 { self.a } else { self.b }
    }

    /// Both images have the same size and format.
    pub open spec fn wf(self) -> bool {
        &&& self.a.width == self.b.width
        &&& self.a.height == self.b.height
        &&& self.a.format == self.b.format
    }

    /// Both images are fresh at `width` x `height`.
    pub open spec fn fresh_at(self, width: u32, height: u32) -> bool {
        &&& self.a.width == width && self.a.height == height
        &&& self.b.width == width && self.b.height == height
        &&& self.a.contents == Contents::Cleared
        &&& self.b.contents == Contents::Cleared
    }

    /// Allocates a pair of cleared images of one size, format and binding layout.
    pub fn allocate(width: u32, height: u32, format: PixelFormat, layout: u32) -> (r: FeedbackPair)
        ensures
            r.wf(),
            r.fresh_at(width, height),
            r.a.format == format,
            r.layout == layout,
            r.generation == 0,
    {
        let img = ImageBuffer { width, height, format, contents: Contents::Cleared };
        FeedbackPair { a: img, b: img, layout, generation: 0 }
    }

    /// Replaces both images at once by cleared ones of the new size, keeping
    /// format and layout. Used on resize and on an explicit clear request.
    ///
    /// The generation wraps after `u64::MAX` reallocations.
    pub fn clear_and_reallocate(&self, width: u32, height: u32) -> (r: FeedbackPair)
        ensures
            r.wf(),
            r.fresh_at(width, height),
            r.a.format == self.a.format,
            r.layout == self.layout,
            r.generation == (if self.generation == u64::MAX { 0 } else { self.generation + 1 }),
    {
        let img = ImageBuffer { width, height, format: self.a.format, contents: Contents::Cleared };
        FeedbackPair { a: img, b: img, layout: self.layout, generation: self.generation.wrapping_add(1) }
    }

    /// The same two images, zero-filled in place: sizes, format, layout and
    /// generation stay.
    pub open spec fn with_cleared_contents(self) -> FeedbackPair {
        FeedbackPair {
            a: ImageBuffer { contents: Contents::Cleared, ..self.a },
            b: ImageBuffer { contents: Contents::Cleared, ..self.b },
            ..self
        }
    }

    /// Zero-fills both images in place, keeping the images themselves.
    pub fn reset_contents(&self) -> (r: FeedbackPair)
        ensures
            r == self.with_cleared_contents(),
            self.wf() ==> r.wf(),
    {
        FeedbackPair {
            a: ImageBuffer { width: self.a.width, height: self.a.height, format: self.a.format, contents: Contents::Cleared },
            b: ImageBuffer { width: self.b.width, height: self.b.height, format: self.b.format, contents: Contents::Cleared },
            layout: self.layout,
            generation: self.generation,
        }
    }

    /// Index of the image written on `frame`.
    pub fn target_index(frame: u32) -> (r: usize)
        ensures
            r as int == target_index(frame),
            r < 2,
    {
        (frame % 2) as usize
    }

    /// Index of the image read on `frame`.
    pub fn source_index(frame: u32) -> (r: usize)
        ensures
            r as int == source_index(frame),
            r < 2,
    {
        1 - (frame % 2) as usize
    }

    /// The image read on `frame`: the one not written this frame.
    pub fn current_source(&self, frame: u32) -> (r: &ImageBuffer)
        ensures
            *r == self.image_at(source_index(frame)),
    {
        if frame % 2 == 0 { &self.b } else { &self.a }
    }

    /// The image written on `frame`.
    pub fn current_target(&self, frame: u32) -> (r: &ImageBuffer)
        ensures
            *r == self.image_at(target_index(frame)),
    {
        if frame % 2 == 0 { &self.a } else { &self.b }
    }

    /// Records that a pass of `frame` wrote the image that this frame targets.
    pub fn mark_written(&mut self, frame: u32)
        ensures
            final(self).image_at(target_index(frame)).contents == Contents::Rendered(frame),
            final(self).image_at(source_index(frame)) == old(self).image_at(source_index(frame)),
            final(self).image_at(target_index(frame)).width == old(self).image_at(target_index(frame)).width,
            final(self).image_at(target_index(frame)).height == old(self).image_at(target_index(frame)).height,
            final(self).image_at(target_index(frame)).format == old(self).image_at(target_index(frame)).format,
            final(self).layout == old(self).layout,
            final(self).generation == old(self).generation,
            old(self).wf() ==> final(self).wf(),
    {
        if frame % 2 == 0 {
            self.a.contents = Contents::Rendered(frame);
        } else {
            self.b.contents = Contents::Rendered(frame);
        }
    }
}

/// On every frame the image read and the image written are the two distinct
/// members of the pair, and the next frame swaps their roles.
pub proof fn lemma_source_target_partition(frame: u32)
    ensures
        0 <= source_index(frame) < 2,
        0 <= target_index(frame) < 2,
        source_index(frame) != target_index(frame),
        source_index(frame) + target_index(frame) == 1,
        frame < u32::MAX ==> target_index((frame + 1) as u32) == source_index(frame),
        frame == u32::MAX ==> target_index(0) == source_index(frame),
{
}

} // verus!
