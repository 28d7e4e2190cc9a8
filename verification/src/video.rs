//! What the video output remembers between frames, and what it decides in
//! a frame.
//!
//! Drawing a frame is work on the window and on the graphics card. Between
//! the pieces of that work stand decisions: whether to draw at all, whether
//! the swapchain has to be made again, which fences to wait for. They are
//! made here, on plain values; the caller does the work and reports how it
//! went.

use vstd::prelude::*;

verus! {

/// What is to be done before the next image is acquired.
#[derive(Clone, Copy, Debug, PartialEq, Eq, Structural)]
pub enum Prepare {
    /// The window is minimized: draw nothing in this frame.
    Skip,
    /// Make the viewport again, and with it the swapchain.
    RecreateViewport,
    /// Make the swapchain again.
    RecreateSwapchain,
    /// Nothing: acquire the next image.
    Nothing,
}

/// How acquiring the next image of the swapchain went.
#[derive(Clone, Copy, Debug, PartialEq, Eq, Structural)]
pub enum Acquired {
    /// The image with this number was acquired.
    Image { image_i: u32, suboptimal: bool },
    /// The swapchain is out of date.
    OutOfDate,
    /// Acquiring failed for another reason.
    Failed,
}

/// How flushing the work of a frame went.
#[derive(Clone, Copy, Debug, PartialEq, Eq, Structural)]
pub enum Flushed {
    /// The work is on its way and a fence stands for it.
    Fence,
    /// The swapchain is out of date.
    OutOfDate,
    /// Flushing failed for another reason.
    Failed,
}

/// What is to be done with an acquired image.
#[derive(Clone, Copy, Debug, PartialEq, Eq, Structural)]
pub struct Draw {
    /// The image to draw to.
    pub image_i: u32,
    /// Whether a fence of an earlier frame stands for this image and has to
    /// be waited for first.
    pub wait_for_image: bool,
    /// Whether the frame before left a fence to continue from; else the
    /// frame starts from a future that is already done.
    pub follow_previous: bool,
}

/// What a frame does after it tried to acquire an image.
#[derive(Clone, Copy, Debug, PartialEq, Eq, Structural)]
pub enum AfterAcquire {
    /// Draw to the image that was acquired.
    Draw(Draw),
    /// Give this frame up; the next one makes the swapchain again.
    Retry,
    /// Fail the frame: acquiring went wrong, or the image has no fence
    /// slot.
    Fail,
}

/// The memory of the video output.
pub struct Video {
    recreate_swapchain: bool,
    window_resized: bool,
    fences: Vec<bool>,
    previous_fence_i: u32,
}

impl Video {
    /// Whether the swapchain is to be made again.
    pub closed spec fn recreate_swapchain(&self) -> bool {
        self.recreate_swapchain
    }

    /// Whether the window changed its size since the last frame drawn.
    pub closed spec fn window_resized(&self) -> bool {
        self.window_resized
    }

    /// For each image of the swapchain, whether a fence stands for it.
    pub closed spec fn fences(&self) -> Seq<bool> {
        self.fences@
    }

    /// The image that the last frame drew to.
    pub closed spec fn previous_fence_i(&self) -> u32 {
        self.previous_fence_i
    }

    /// Whether a fence stands for the image that the last frame drew to.
    pub open spec fn has_previous_fence(&self) -> bool {
        &&& self.previous_fence_i() < self.fences().len()
        &&& self.fences()[self.previous_fence_i() as int]
    }

    /// The memory of an output with `frames_in_flight` images: nothing to
    /// make again, no fence yet.
    pub fn new(frames_in_flight: usize) -> (video: Video)
        ensures
            !video.recreate_swapchain(),
            !video.window_resized(),
            video.fences() == Seq::new(frames_in_flight as nat, |i: int| false),
            video.previous_fence_i() == 0,
    {
        let mut fences: Vec<bool> = Vec::new();
        let mut made: usize = 0;
        while made < frames_in_flight
            invariant
                made <= frames_in_flight,
                fences@ == Seq::new(made as nat, |i: int| false),
            decreases frames_in_flight - made,
        {
            fences.push(false);
            made = made + 1;
        }
        Video { recreate_swapchain: false, window_resized: false, fences, previous_fence_i: 0 }
    }

    /// Notes that the window changed its size.
    pub fn on_window_resize(&mut self)
        ensures
            final(self).window_resized(),
            final(self).recreate_swapchain() == old(self).recreate_swapchain(),
            final(self).fences() == old(self).fences(),
            final(self).previous_fence_i() == old(self).previous_fence_i(),
    {
        self.window_resized = true;
    }

    /// The first decision of a frame. A minimized window draws nothing and
    /// forgets nothing. Else a resized window has its viewport made again,
    /// which covers a pending swapchain: both notes are cleared before the
    /// work begins. Else a pending swapchain is made again, and its note
    /// stays until `swapchain_recreated` reports that the work succeeded, so
    /// that a failure does not lose it.
    pub fn prepare(&mut self, is_minimized: bool) -> (prepare: Prepare)
        ensures
            final(self).fences() == old(self).fences(),
            final(self).previous_fence_i() == old(self).previous_fence_i(),
            prepare == if is_minimized {
                Prepare::Skip
            } else if old(self).window_resized() {
                Prepare::RecreateViewport
            } else if old(self).recreate_swapchain() {
                Prepare::RecreateSwapchain
            } else {
                Prepare::Nothing
            },
            final(self).window_resized() == (is_minimized && old(self).window_resized()),
            final(self).recreate_swapchain() == (old(self).recreate_swapchain() && (is_minimized
                || !old(self).window_resized())),
    {
        if is_minimized {
            return Prepare::Skip;
        }
        if self.window_resized {
            self.window_resized = false;
            self.recreate_swapchain = false;
            return Prepare::RecreateViewport;
        }
        if self.recreate_swapchain {
            return Prepare::RecreateSwapchain;
        }
        Prepare::Nothing
    }

    /// Reports that the swapchain was made again: its note is cleared.
    pub fn swapchain_recreated(&mut self)
        ensures
            !final(self).recreate_swapchain(),
            final(self).window_resized() == old(self).window_resized(),
            final(self).fences() == old(self).fences(),
            final(self).previous_fence_i() == old(self).previous_fence_i(),
    {
        self.recreate_swapchain = false;
    }

    /// The decision after the attempt to acquire an image. An out-of-date
    /// swapchain is noted and the frame given up. A suboptimal image is
    /// drawn to, and the swapchain noted for the next frame.
    pub fn acquired(&mut self, acquired: Acquired) -> (after: AfterAcquire)
        ensures
            final(self).window_resized() == old(self).window_resized(),
            final(self).fences() == old(self).fences(),
            final(self).previous_fence_i() == old(self).previous_fence_i(),
            match acquired {
                Acquired::OutOfDate => {
                    &&& after == AfterAcquire::Retry
                    &&& final(self).recreate_swapchain()
                },
                Acquired::Failed => after == AfterAcquire::Fail && final(self).recreate_swapchain()
                    == old(self).recreate_swapchain(),
                Acquired::Image { image_i, suboptimal } => {
                    &&& final(self).recreate_swapchain() == (old(self).recreate_swapchain()
                        || suboptimal)
                    &&& after == if image_i < old(self).fences().len() {
                        AfterAcquire::Draw(
                            Draw {
                                image_i,
                                wait_for_image: old(self).fences()[image_i as int],
                                follow_previous: old(self).has_previous_fence(),
                            },
                        )
                    } else {
                        AfterAcquire::Fail
                    }
                },
            },
    {
        match acquired {
            Acquired::OutOfDate => {
                self.recreate_swapchain = true;
                AfterAcquire::Retry
            },
            Acquired::Failed => AfterAcquire::Fail,
            Acquired::Image { image_i, suboptimal } => {
                if suboptimal {
                    self.recreate_swapchain = true;
                }
                let image = image_i as usize;
                if image >= self.fences.len() {
                    return AfterAcquire::Fail;
                }
                let previous = self.previous_fence_i as usize;
                let follow_previous = previous < self.fences.len() && self.fences[previous];
                AfterAcquire::Draw(
                    Draw { image_i, wait_for_image: self.fences[image], follow_previous },
                )
            },
        }
    }

    /// The end of a frame that drew to `image_i`: the image has a fence
    /// exactly if the flush gave one, an out-of-date swapchain is noted, and
    /// the image becomes the previous one. An image that has no fence slot
    /// changes nothing.
    pub fn flushed(&mut self, image_i: u32, flushed: Flushed)
        ensures
            final(self).window_resized() == old(self).window_resized(),
            image_i >= old(self).fences().len() ==> *final(self) == *old(self),
            image_i < old(self).fences().len() ==> {
                &&& final(self).fences() == old(self).fences().update(
                    image_i as int,
                    flushed == Flushed::Fence,
                )
                &&& final(self).previous_fence_i() == image_i
                &&& final(self).recreate_swapchain() == (old(self).recreate_swapchain() || flushed
                    == Flushed::OutOfDate)
            },
    {
        let image = image_i as usize;
        if image >= self.fences.len() {
            return ;
        }
        match flushed {
            Flushed::Fence => {
                self.fences[image] = true;
            },
            Flushed::OutOfDate => {
                self.recreate_swapchain = true;
                self.fences[image] = false;
            },
            Flushed::Failed => {
                self.fences[image] = false;
            },
        }
        self.previous_fence_i = image_i;
    }
}

} // verus!
