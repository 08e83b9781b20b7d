//! The frame loop: one decision for each event.

use crate::frame::{
    AcquireOutcome, Action, DropReason, Event, FatalError, FrameToken, PresentOutcome, SkipReason,
    SubmitOutcome,
};
use crate::hardware::Hardware;
use crate::screen::{
    framebuffers_for, Extent, Framebuffer, Screen, ScreenError, SwapchainConfig, SwapchainOutcome,
    Viewport,
};
use vstd::prelude::*;

verus! {

/// Where the frame loop stands within an iteration.
#[derive(Clone, Copy, Debug, PartialEq, Eq, Structural)]
pub enum Phase {
    /// Between iterations.
    Idle,
    /// A new swapchain is asked for.
    SwapchainCheck,
    /// The next image is asked for.
    AcquireImage,
    /// The commands for this image are being recorded and submitted.
    RecordAndSubmit { image: usize },
    /// This image is being presented.
    PresentOrRetry { image: usize },
    /// The loop has ended.
    Terminated,
    /// The loop has ended with an error.
    Failed(FatalError),
}

/// The state of the frame loop as a value.
pub struct EngineView {
    pub hardware: Hardware,
    pub swapchain: SwapchainConfig,
    pub framebuffers: Seq<Framebuffer>,
    pub phase: Phase,
    /// Whether the swapchain is to be made again before the next image is
    /// acquired.
    pub resize_flagged: bool,
    /// Whether the loop is to end at the top of the next iteration.
    pub terminate: bool,
    /// The signal that the next submission waits for, while the loop holds
    /// it.
    pub previous_frame: Option<FrameToken>,
}

impl EngineView {
    /// The state in which a loop starts: idle, with nothing flagged, and a
    /// signal to wait for that has completed already.
    pub open spec fn initial(
        hardware: Hardware,
        swapchain: SwapchainConfig,
        framebuffers: Seq<Framebuffer>,
    ) -> EngineView {
        EngineView {
            hardware,
            swapchain,
            framebuffers,
            phase: Phase::Idle,
            resize_flagged: false,
            terminate: false,
            previous_frame: Some(FrameToken::Signaled),
        }
    }

    /// The swapchain has an image for each framebuffer, all of its extent.
    /// While a frame is being submitted or presented, its image is one of
    /// the swapchain and the signal of the previous frame is with the
    /// submission; at every other time before the loop fails the loop
    /// holds that signal.
    pub open spec fn wf(self) -> bool {
        &&& self.framebuffers.len() >= 1
        &&& self.framebuffers == framebuffers_for(self.framebuffers.len(), self.swapchain.extent)
        &&& match self.phase {
            Phase::RecordAndSubmit { image } | Phase::PresentOrRetry { image } => {
                &&& image < self.framebuffers.len()
                &&& self.previous_frame is None
            },
            Phase::Failed(_) => true,
            _ => self.previous_frame is Some,
        }
    }

    /// How many signals of previous frames the loop holds.
    pub open spec fn retained_tokens(self) -> nat {
        if self.previous_frame is Some {
            1
        } else {
            0
        }
    }

    /// The viewport that covers a framebuffer.
    pub open spec fn viewport(self) -> Viewport {
        Viewport { width: self.swapchain.extent.width, height: self.swapchain.extent.height }
    }

    /// The top of an iteration: the loop ends where that was asked for;
    /// else a new swapchain is asked for where a resize is flagged; else
    /// the next image is asked for.
    pub open spec fn begin_iteration(self) -> (EngineView, Action) {
        if self.terminate {
            (EngineView { phase: Phase::Terminated, ..self }, Action::Exit)
        } else if self.resize_flagged {
            (
                EngineView { phase: Phase::SwapchainCheck, ..self },
                Action::RecreateSwapchain { current: self.swapchain },
            )
        } else {
            (EngineView { phase: Phase::AcquireImage, ..self }, Action::AcquireImage)
        }
    }

    /// The answer to the request for a new swapchain. A new swapchain
    /// replaces the old one together with its framebuffers, clears the
    /// flag, and the next image is asked for. An unsupported extent ends
    /// the iteration and leaves swapchain and flag as they are. Any other
    /// failure is fatal.
    pub open spec fn swapchain_recreated(
        self,
        extent: Extent,
        outcome: SwapchainOutcome,
    ) -> (EngineView, Action) {
        match outcome {
            SwapchainOutcome::Created { images } if images >= 1 => (
                EngineView {
                    swapchain: self.swapchain.resized(extent),
                    framebuffers: framebuffers_for(images as nat, extent),
                    resize_flagged: false,
                    phase: Phase::AcquireImage,
                    ..self
                },
                Action::AcquireImage,
            ),
            SwapchainOutcome::ExtentUnsupported => (
                EngineView { phase: Phase::Idle, ..self },
                Action::FrameSkipped(SkipReason::ExtentUnsupported),
            ),
            _ => self.fail(FatalError::SwapchainRecreationFailed),
        }
    }

    /// The loop fails with `error`.
    pub open spec fn fail(self, error: FatalError) -> (EngineView, Action) {
        (EngineView { phase: Phase::Failed(error), ..self }, Action::Abort(error))
    }

    /// The answer to the request for the next image. An image of the
    /// swapchain is drawn to: the signal of the previous frame goes with
    /// the submission, and a suboptimal swapchain is flagged for the next
    /// iteration. An outdated swapchain is flagged and ends the iteration.
    /// Any other answer is fatal.
    pub open spec fn image_acquired(self, outcome: AcquireOutcome) -> (EngineView, Action) {
        match outcome {
            AcquireOutcome::Acquired { image, suboptimal } if image < self.framebuffers.len() => (
                EngineView {
                    phase: Phase::RecordAndSubmit { image },
                    resize_flagged: self.resize_flagged || suboptimal,
                    previous_frame: None,
                    ..self
                },
                Action::RecordAndSubmit {
                    queue: self.hardware.graphics(),
                    framebuffer: self.framebuffers[image as int],
                    viewport: self.viewport(),
                    wait_for: match self.previous_frame {
                        Some(token) => token,
                        None => FrameToken::Signaled,
                    },
                },
            ),
            AcquireOutcome::OutOfDate => (
                EngineView { phase: Phase::Idle, resize_flagged: true, ..self },
                Action::FrameSkipped(SkipReason::OutOfDate),
            ),
            _ => self.fail(FatalError::AcquireFailed),
        }
    }

    /// The answer to the submission of the frame for `image`: accepted
    /// commands are followed by the presentation of the image; rejected
    /// ones are fatal.
    pub open spec fn submitted(self, image: usize, outcome: SubmitOutcome) -> (EngineView, Action) {
        match outcome {
            SubmitOutcome::Accepted => (
                EngineView { phase: Phase::PresentOrRetry { image }, ..self },
                Action::Present { queue: self.hardware.graphics(), image },
            ),
            SubmitOutcome::Rejected => self.fail(FatalError::SubmitRejected),
        }
    }

    /// The answer to the presentation of `image`. The iteration is over
    /// either way. The signal of a presented frame becomes the one to wait
    /// for; after a failure a signal that has completed already does, and
    /// an outdated swapchain is flagged.
    pub open spec fn presented(self, image: usize, outcome: PresentOutcome) -> (EngineView, Action) {
        match outcome {
            PresentOutcome::Presented => (
                EngineView {
                    phase: Phase::Idle,
                    previous_frame: Some(FrameToken::FrameEnd { image }),
                    ..self
                },
                Action::FramePresented,
            ),
            PresentOutcome::OutOfDate => (
                EngineView {
                    phase: Phase::Idle,
                    resize_flagged: true,
                    previous_frame: Some(FrameToken::Signaled),
                    ..self
                },
                Action::FrameDropped(DropReason::OutOfDate),
            ),
            PresentOutcome::FlushFailed => (
                EngineView {
                    phase: Phase::Idle,
                    previous_frame: Some(FrameToken::Signaled),
                    ..self
                },
                Action::FrameDropped(DropReason::FlushFailed),
            ),
        }
    }

    /// The state after `event` and what the loop asks for. A loop that has
    /// ended stays as it is. Window events are noted in every phase. An
    /// answer counts only in the phase that waits for it.
    pub open spec fn step(self, event: Event) -> (EngineView, Action) {
        match (self.phase, event) {
            (Phase::Terminated, _) => (self, Action::Exit),
            (Phase::Failed(error), _) => (self, Action::Abort(error)),
            (_, Event::CloseRequested) => (EngineView { terminate: true, ..self }, Action::Wait),
            (_, Event::Resized) => (EngineView { resize_flagged: true, ..self }, Action::Wait),
            (Phase::Idle, Event::RedrawEventsCleared) => self.begin_iteration(),
            (
                Phase::SwapchainCheck,
                Event::SwapchainRecreated { extent, outcome },
            ) => self.swapchain_recreated(extent, outcome),
            (Phase::AcquireImage, Event::ImageAcquired(outcome)) => self.image_acquired(outcome),
            (Phase::RecordAndSubmit { image }, Event::Submitted(outcome)) => self.submitted(
                image,
                outcome,
            ),
            (Phase::PresentOrRetry { image }, Event::Presented(outcome)) => self.presented(
                image,
                outcome,
            ),
            _ => (self, Action::Ignored),
        }
    }

    /// The state after the events of `events` in turn, and what the loop
    /// asks for after each.
    pub open spec fn run(self, events: Seq<Event>) -> (EngineView, Seq<Action>)
        decreases events.len(),
    {
        if events.len() == 0 {
            (self, Seq::empty())
        } else {
            let (before, actions) = self.run(events.drop_last());
            let (after, action) = before.step(events.last());
            (after, actions.push(action))
        }
    }
}

/// The frame loop of an engine.
#[derive(Debug)]
pub struct Engine {
    hardware: Hardware,
    screen: Screen,
    phase: Phase,
    resize_flagged: bool,
    terminate: bool,
    previous_frame: Option<FrameToken>,
}

impl View for Engine {
    type V = EngineView;

    closed spec fn view(&self) -> EngineView {
        EngineView {
            hardware: self.hardware,
            swapchain: self.screen.config(),
            framebuffers: self.screen.framebuffer_set(),
            phase: self.phase,
            resize_flagged: self.resize_flagged,
            terminate: self.terminate,
            previous_frame: self.previous_frame,
        }
    }
}

impl Engine {
    #[verifier::type_invariant]
    closed spec fn inv(&self) -> bool {
        self@.wf()
    }

    /// Starts a frame loop on `hardware` and `screen`.
    pub fn new(hardware: Hardware, screen: Screen) -> (engine: Engine)
        ensures
            engine@ == EngineView::initial(hardware, screen.config(), screen.framebuffer_set()),
            engine@.wf(),
    {
        proof {
            use_type_invariant(&screen);
        }
        Engine {
            hardware,
            screen,
            phase: Phase::Idle,
            resize_flagged: false,
            terminate: false,
            previous_frame: Some(FrameToken::Signaled),
        }
    }

    /// Takes one event and says what to do next.
    pub fn step(self, event: Event) -> (next: (Engine, Action))
        ensures
            (next.0@, next.1) == self@.step(event),
            next.0@.wf(),
    {
        proof {
            use_type_invariant(&self);
            use_type_invariant(&self.screen);
        }
        match (self.phase, event) {
            (Phase::Terminated, _) => (self, Action::Exit),
            (Phase::Failed(error), _) => (self, Action::Abort(error)),
            (_, Event::CloseRequested) => (Engine { terminate: true, ..self }, Action::Wait),
            (_, Event::Resized) => (Engine { resize_flagged: true, ..self }, Action::Wait),
            (Phase::Idle, Event::RedrawEventsCleared) => {
                if self.terminate {
                    (Engine { phase: Phase::Terminated, ..self }, Action::Exit)
                } else if self.resize_flagged {
                    let current = *self.screen.swapchain();
                    (
                        Engine { phase: Phase::SwapchainCheck, ..self },
                        Action::RecreateSwapchain { current },
                    )
                } else {
                    (Engine { phase: Phase::AcquireImage, ..self }, Action::AcquireImage)
                }
            },
            (Phase::SwapchainCheck, Event::SwapchainRecreated { extent, outcome }) => {
                match self.screen.recreate(extent, outcome) {
                    Ok(screen) => (
                        Engine {
                            screen,
                            resize_flagged: false,
                            phase: Phase::AcquireImage,
                            ..self
                        },
                        Action::AcquireImage,
                    ),
                    Err(ScreenError::ExtentUnsupported) => (
                        Engine { phase: Phase::Idle, ..self },
                        Action::FrameSkipped(SkipReason::ExtentUnsupported),
                    ),
                    Err(ScreenError::SwapchainCreationFailed) => self.fail(
                        FatalError::SwapchainRecreationFailed,
                    ),
                }
            },
            (Phase::AcquireImage, Event::ImageAcquired(outcome)) => {
                match outcome {
                    AcquireOutcome::Acquired { image, suboptimal } => {
                        if image < self.screen.images() {
                            let action = Action::RecordAndSubmit {
                                queue: *self.hardware.graphics_queue(),
                                framebuffer: self.screen.framebuffers()[image],
                                viewport: self.screen.viewport(),
                                wait_for: match self.previous_frame {
                                    Some(token) => token,
                                    None => FrameToken::Signaled,
                                },
                            };
                            (
                                Engine {
                                    phase: Phase::RecordAndSubmit { image },
                                    resize_flagged: self.resize_flagged || suboptimal,
                                    previous_frame: None,
                                    ..self
                                },
                                action,
                            )
                        } else {
                            self.fail(FatalError::AcquireFailed)
                        }
                    },
                    AcquireOutcome::OutOfDate => (
                        Engine { phase: Phase::Idle, resize_flagged: true, ..self },
                        Action::FrameSkipped(SkipReason::OutOfDate),
                    ),
                    AcquireOutcome::Failed => self.fail(FatalError::AcquireFailed),
                }
            },
            (Phase::RecordAndSubmit { image }, Event::Submitted(outcome)) => {
                match outcome {
                    SubmitOutcome::Accepted => {
                        let queue = *self.hardware.graphics_queue();
                        (
                            Engine { phase: Phase::PresentOrRetry { image }, ..self },
                            Action::Present { queue, image },
                        )
                    },
                    SubmitOutcome::Rejected => self.fail(FatalError::SubmitRejected),
                }
            },
            (Phase::PresentOrRetry { image }, Event::Presented(outcome)) => {
                match outcome {
                    PresentOutcome::Presented => (
                        Engine {
                            phase: Phase::Idle,
                            previous_frame: Some(FrameToken::FrameEnd { image }),
                            ..self
                        },
                        Action::FramePresented,
                    ),
                    PresentOutcome::OutOfDate => (
                        Engine {
                            phase: Phase::Idle,
                            resize_flagged: true,
                            previous_frame: Some(FrameToken::Signaled),
                            ..self
                        },
                        Action::FrameDropped(DropReason::OutOfDate),
                    ),
                    PresentOutcome::FlushFailed => (
                        Engine {
                            phase: Phase::Idle,
                            previous_frame: Some(FrameToken::Signaled),
                            ..self
                        },
                        Action::FrameDropped(DropReason::FlushFailed),
                    ),
                }
            },
            _ => (self, Action::Ignored),
        }
    }

    fn fail(self, error: FatalError) -> (next: (Engine, Action))
        ensures
            (next.0@, next.1) == self@.fail(error),
            next.0@.wf(),
    {
        proof {
            use_type_invariant(&self);
        }
        (Engine { phase: Phase::Failed(error), ..self }, Action::Abort(error))
    }

    /// Takes the events of `events` in turn and collects what to do after
    /// each.
    pub fn run(self, events: &Vec<Event>) -> (end: (Engine, Vec<Action>))
        ensures
            (end.0@, end.1@) == self@.run(events@),
            end.0@.wf(),
    {
        proof {
            use_type_invariant(&self);
        }
        let mut engine = self;
        let mut actions: Vec<Action> = Vec::new();
        let mut i: usize = 0;
        while i < events.len()
            invariant
                i <= events.len(),
                (engine@, actions@) == self@.run(events@.take(i as int)),
                engine@.wf(),
            decreases events.len() - i,
        {
            proof {
                assert(events@.take(i as int + 1).drop_last() =~= events@.take(i as int));
            }
            let (next, action) = engine.step(events[i]);
            engine = next;
            actions.push(action);
            i += 1;
        }
        proof {
            assert(events@.take(i as int) =~= events@);
        }
        (engine, actions)
    }

    /// The queues that the loop submits to.
    pub fn hardware(&self) -> (hardware: &Hardware)
        ensures
            *hardware == self@.hardware,
    {
        &self.hardware
    }

    /// The swapchain and framebuffers that the loop draws to.
    pub fn screen(&self) -> (screen: &Screen)
        ensures
            screen.config() == self@.swapchain,
            screen.framebuffer_set() == self@.framebuffers,
    {
        &self.screen
    }

    /// Where the loop stands within an iteration.
    pub fn phase(&self) -> (phase: Phase)
        ensures
            phase == self@.phase,
    {
        self.phase
    }

    /// Whether the swapchain is to be made again before the next image is
    /// acquired.
    pub fn resize_flagged(&self) -> (flagged: bool)
        ensures
            flagged == self@.resize_flagged,
    {
        self.resize_flagged
    }

    /// Whether the loop is to end at the top of the next iteration.
    pub fn terminate_flagged(&self) -> (flagged: bool)
        ensures
            flagged == self@.terminate,
    {
        self.terminate
    }

    /// The signal that the next submission waits for, while the loop holds
    /// it.
    pub fn previous_frame(&self) -> (token: Option<FrameToken>)
        ensures
            token == self@.previous_frame,
    {
        self.previous_frame
    }
}

/// A step keeps a well-formed state well-formed.
pub proof fn lemma_step_keeps_wf(state: EngineView, event: Event)
    requires
        state.wf(),
    ensures
        state.step(event).0.wf(),
{
}

/// A run keeps a well-formed state well-formed and asks for one thing
/// after each event.
pub proof fn lemma_run_keeps_wf(state: EngineView, events: Seq<Event>)
    requires
        state.wf(),
    ensures
        state.run(events).0.wf(),
        state.run(events).1.len() == events.len(),
    decreases events.len(),
{
    if events.len() > 0 {
        lemma_run_keeps_wf(state, events.drop_last());
        lemma_step_keeps_wf(state.run(events.drop_last()).0, events.last());
    }
}

/// After any number of the events of a run the loop holds at most one
/// signal of a previous frame: none while a frame is being submitted or
/// presented, and exactly one at every other time before the loop fails.
pub proof fn lemma_one_previous_frame(state: EngineView, events: Seq<Event>, seen: int)
    requires
        state.wf(),
        0 <= seen <= events.len(),
    ensures
        state.run(events.take(seen)).0.retained_tokens() <= 1,
        match state.run(events.take(seen)).0.phase {
            Phase::RecordAndSubmit { .. } | Phase::PresentOrRetry { .. } => state.run(
                events.take(seen),
            ).0.retained_tokens() == 0,
            Phase::Failed(_) => true,
            _ => state.run(events.take(seen)).0.retained_tokens() == 1,
        },
{
    lemma_run_keeps_wf(state, events.take(seen));
}

/// An outdated swapchain at the acquire step ends the iteration with
/// nothing submitted and the signal of the previous frame untouched, and
/// the next iteration asks for a new swapchain before any image.
pub proof fn lemma_out_of_date_recreates_first(state: EngineView)
    requires
        state.phase == Phase::AcquireImage,
        !state.terminate,
    ensures
        ({
            let (skipped, first) = state.step(Event::ImageAcquired(AcquireOutcome::OutOfDate));
            let (next, second) = skipped.step(Event::RedrawEventsCleared);
            &&& first == Action::FrameSkipped(SkipReason::OutOfDate)
            &&& skipped.phase == Phase::Idle
            &&& skipped.resize_flagged
            &&& skipped.previous_frame == state.previous_frame
            &&& second == (Action::RecreateSwapchain { current: state.swapchain })
            &&& next.phase == Phase::SwapchainCheck
        }),
{
}

/// A failure to flush at the present step drops the frame and no more: the
/// loop goes on, and the next submission waits for a signal that has
/// completed already.
pub proof fn lemma_flush_failure_drops_frame(state: EngineView, image: usize)
    requires
        state.phase == (Phase::PresentOrRetry { image }),
        !state.terminate,
    ensures
        ({
            let (dropped, first) = state.step(Event::Presented(PresentOutcome::FlushFailed));
            let (next, second) = dropped.step(Event::RedrawEventsCleared);
            &&& first == Action::FrameDropped(DropReason::FlushFailed)
            &&& dropped.phase == Phase::Idle
            &&& dropped.previous_frame == Some(FrameToken::Signaled)
            &&& dropped.resize_flagged == state.resize_flagged
            &&& second == if state.resize_flagged {
                Action::RecreateSwapchain { current: state.swapchain }
            } else {
                Action::AcquireImage
            }
        }),
{
}

} // verus!
