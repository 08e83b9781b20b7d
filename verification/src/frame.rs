//! What the frame loop is told and what it asks for in return.

use crate::factory::QueueHandle;
use crate::screen::{Extent, Framebuffer, SwapchainConfig, SwapchainOutcome, Viewport};
use vstd::prelude::*;

verus! {

/// A signal that earlier work on the graphics queue has completed.
#[derive(Clone, Copy, Debug, PartialEq, Eq, Structural)]
pub enum FrameToken {
    /// A signal that has completed already.
    Signaled,
    /// The signal that the frame presented on this image has completed.
    FrameEnd { image: usize },
}

/// What the driver answered to the request for the next image.
#[derive(Clone, Copy, Debug, PartialEq, Eq, Structural)]
pub enum AcquireOutcome {
    /// The image at this position is ready. A suboptimal swapchain still
    /// works, but no longer matches the surface.
    Acquired { image: usize, suboptimal: bool },
    /// The swapchain no longer fits the surface.
    OutOfDate,
    /// The driver failed in another way.
    Failed,
}

/// What the driver answered to the submission of the commands of a frame.
#[derive(Clone, Copy, Debug, PartialEq, Eq, Structural)]
pub enum SubmitOutcome {
    Accepted,
    Rejected,
}

/// What the driver answered to the request to present an image.
#[derive(Clone, Copy, Debug, PartialEq, Eq, Structural)]
pub enum PresentOutcome {
    /// The frame is on its way to the surface.
    Presented,
    /// The swapchain no longer fits the surface.
    OutOfDate,
    /// The work could not be flushed to the queue.
    FlushFailed,
}

/// Something the frame loop is told.
#[derive(Clone, Copy, Debug, PartialEq, Eq, Structural)]
pub enum Event {
    /// The window was asked to close.
    CloseRequested,
    /// The window has changed its size.
    Resized,
    /// All pending window events are handled: a frame may be drawn.
    RedrawEventsCleared,
    /// The driver has answered the request for a new swapchain, which was
    /// made for a window of size `extent`.
    SwapchainRecreated { extent: Extent, outcome: SwapchainOutcome },
    /// The driver has answered the request for the next image.
    ImageAcquired(AcquireOutcome),
    /// The driver has answered the submission of the commands of the frame.
    Submitted(SubmitOutcome),
    /// The driver has answered the request to present the image.
    Presented(PresentOutcome),
}

/// An error that ends the frame loop.
#[derive(Clone, Copy, Debug, PartialEq, Eq, Structural)]
pub enum FatalError {
    /// The swapchain could not be made again, for another reason than its
    /// extent.
    SwapchainRecreationFailed,
    /// No image could be acquired, for another reason than an outdated
    /// swapchain.
    AcquireFailed,
    /// The driver rejected the commands of a frame.
    SubmitRejected,
}

/// Why an iteration ended before anything was submitted.
#[derive(Clone, Copy, Debug, PartialEq, Eq, Structural)]
pub enum SkipReason {
    /// The driver does not support the current size of the window.
    ExtentUnsupported,
    /// The swapchain no longer fits the surface.
    OutOfDate,
}

/// Why a submitted frame counts as dropped.
#[derive(Clone, Copy, Debug, PartialEq, Eq, Structural)]
pub enum DropReason {
    /// The swapchain no longer fits the surface.
    OutOfDate,
    /// The work could not be flushed to the queue. This is worth a line in
    /// the log.
    FlushFailed,
}

/// What the frame loop asks of its caller.
#[derive(Clone, Copy, Debug, PartialEq, Eq, Structural)]
pub enum Action {
    /// Nothing: the event is noted.
    Wait,
    /// Nothing: the event answers a request that is not pending.
    Ignored,
    /// Leave the loop. Outstanding work is not waited for.
    Exit,
    /// Leave the loop with an error.
    Abort(FatalError),
    /// Ask the driver for a new swapchain with the parameters of `current`
    /// at the current size of the window, and answer with
    /// `Event::SwapchainRecreated`.
    RecreateSwapchain { current: SwapchainConfig },
    /// Ask the driver for the next image, without a timeout, and answer
    /// with `Event::ImageAcquired`.
    AcquireImage,
    /// Release what completed work has held, have the commands of the frame
    /// recorded for `framebuffer` and `viewport`, and submit them to
    /// `queue` after both the acquired image and `wait_for` are ready.
    /// Answer with `Event::Submitted`.
    RecordAndSubmit {
        queue: QueueHandle,
        framebuffer: Framebuffer,
        viewport: Viewport,
        wait_for: FrameToken,
    },
    /// Ask the driver to present the image on `queue` and flush. Answer
    /// with `Event::Presented`.
    Present { queue: QueueHandle, image: usize },
    /// The iteration is over and nothing was submitted. The signal of the
    /// previous frame stays.
    FrameSkipped(SkipReason),
    /// The iteration is over. The signal of the frame just presented
    /// becomes the one to wait for.
    FramePresented,
    /// The iteration is over. A signal that has completed already becomes
    /// the one to wait for.
    FrameDropped(DropReason),
}

} // verus!
