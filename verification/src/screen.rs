//! The swapchain of the presentation surface and the framebuffers made
//! from it.

use vstd::prelude::*;

verus! {

/// A size in pixels.
#[derive(Clone, Copy, Debug, PartialEq, Eq, Structural)]
pub struct Extent {
    pub width: u32,
    pub height: u32,
}

/// How the alpha channel of a presented image is combined with what lies
/// behind the surface.
#[derive(Clone, Copy, Debug, PartialEq, Eq, Structural)]
pub enum CompositeAlpha {
    Opaque,
    PreMultiplied,
    PostMultiplied,
    Inherit,
}

/// How presented images are queued for display.
#[derive(Clone, Copy, Debug, PartialEq, Eq, Structural)]
pub enum PresentMode {
    Immediate,
    Mailbox,
    /// Images wait in a queue for the vertical blank: no tearing.
    Fifo,
    FifoRelaxed,
}

/// What the images of a swapchain are used for.
#[derive(Clone, Copy, Debug, PartialEq, Eq, Structural)]
pub enum ImageUsage {
    ColorAttachment,
}

/// What an adapter reports of a surface.
#[derive(Debug)]
pub struct SurfaceCapabilities {
    /// The least number of images a swapchain on the surface must have.
    pub min_image_count: u32,
    /// The supported image formats, in the order reported. A format is
    /// known by a code that the caller chooses.
    pub supported_formats: Vec<u32>,
    /// The supported composite alpha modes, in the order reported.
    pub supported_composite_alpha: Vec<CompositeAlpha>,
}

/// The parameters of a swapchain.
#[derive(Clone, Copy, Debug, PartialEq, Eq, Structural)]
pub struct SwapchainConfig {
    /// The least number of images to make.
    pub image_count: u32,
    /// The code of the image format.
    pub format: u32,
    pub composite_alpha: CompositeAlpha,
    pub extent: Extent,
    pub present_mode: PresentMode,
    pub usage: ImageUsage,
}

/// What the driver answered to the request for a swapchain.
#[derive(Clone, Copy, Debug, PartialEq, Eq, Structural)]
pub enum SwapchainOutcome {
    /// The swapchain exists and has this many images.
    Created { images: usize },
    /// The driver does not support the extent asked for.
    ExtentUnsupported,
    /// The driver failed in another way.
    Failed,
}

/// Why there is no new swapchain.
#[derive(Clone, Copy, Debug, PartialEq, Eq, Structural)]
pub enum ScreenError {
    /// The driver does not support the extent asked for. A swapchain made
    /// earlier stays valid.
    ExtentUnsupported,
    /// The driver failed in another way, or made a swapchain without
    /// images.
    SwapchainCreationFailed,
}

/// The attachment of one swapchain image to the render pass.
#[derive(Clone, Copy, Debug, PartialEq, Eq, Structural)]
pub struct Framebuffer {
    /// The position of the image in the swapchain.
    pub image: usize,
    /// The size of the image.
    pub extent: Extent,
}

/// The part of a framebuffer that is drawn to: all of it, from the origin,
/// over the whole depth range.
#[derive(Clone, Copy, Debug, PartialEq, Eq, Structural)]
pub struct Viewport {
    pub width: u32,
    pub height: u32,
}

/// The framebuffers of a swapchain with `images` images of size `extent`:
/// one for each image, in order.
pub open spec fn framebuffers_for(images: nat, extent: Extent) -> Seq<Framebuffer> {
    Seq::new(images, |i: int| Framebuffer { image: i as usize, extent })
}

impl SwapchainConfig {
    /// The parameters chosen for a surface with capabilities `capabilities`
    /// in a window of size `window`, where the adapter reports a format and
    /// a composite alpha mode: as few images as the surface allows, the
    /// first format and the first composite alpha mode reported, the size
    /// of the window, presentation in turn, for use as colour attachments.
    pub open spec fn chosen(capabilities: SurfaceCapabilities, window: Extent) -> Option<
        SwapchainConfig,
    > {
        if capabilities.supported_formats@.len() > 0 && capabilities.supported_composite_alpha@.len()
            > 0 {
            Some(
                SwapchainConfig {
                    image_count: capabilities.min_image_count,
                    format: capabilities.supported_formats@[0],
                    composite_alpha: capabilities.supported_composite_alpha@[0],
                    extent: window,
                    present_mode: PresentMode::Fifo,
                    usage: ImageUsage::ColorAttachment,
                },
            )
        } else {
            None
        }
    }

    /// Chooses the parameters of the swapchain for a surface. There are
    /// none where the adapter reports no format or no composite alpha mode.
    pub fn for_surface(capabilities: &SurfaceCapabilities, window: Extent) -> (config: Option<
        SwapchainConfig,
    >)
        ensures
            config == SwapchainConfig::chosen(*capabilities, window),
    {
        if capabilities.supported_formats.len() == 0
            || capabilities.supported_composite_alpha.len() == 0 {
            return None;
        }
        Some(
            SwapchainConfig {
                image_count: capabilities.min_image_count,
                format: capabilities.supported_formats[0],
                composite_alpha: capabilities.supported_composite_alpha[0],
                extent: window,
                present_mode: PresentMode::Fifo,
                usage: ImageUsage::ColorAttachment,
            },
        )
    }

    /// The same parameters for another extent.
    pub open spec fn resized(self, extent: Extent) -> SwapchainConfig {
        SwapchainConfig { extent, ..self }
    }

    /// The same parameters for another extent.
    pub fn with_extent(&self, extent: Extent) -> (config: SwapchainConfig)
        ensures
            config == self.resized(extent),
    {
        SwapchainConfig {
            image_count: self.image_count,
            format: self.format,
            composite_alpha: self.composite_alpha,
            extent,
            present_mode: self.present_mode,
            usage: self.usage,
        }
    }
}

/// A swapchain together with the framebuffers made from it. The two are
/// made as a pair and never change afterwards.
#[derive(Debug)]
pub struct Screen {
    swapchain: SwapchainConfig,
    framebuffers: Vec<Framebuffer>,
}

impl Screen {
    /// The parameters of the swapchain.
    pub closed spec fn config(&self) -> SwapchainConfig {
        self.swapchain
    }

    /// The framebuffers, one for each image of the swapchain, in order.
    pub closed spec fn framebuffer_set(&self) -> Seq<Framebuffer> {
        self.framebuffers@
    }

    /// A swapchain has an image, and its framebuffers are those of its
    /// images at its extent.
    #[verifier::type_invariant]
    pub open spec fn wf(&self) -> bool {
        &&& self.framebuffer_set().len() >= 1
        &&& self.framebuffer_set() == framebuffers_for(
            self.framebuffer_set().len(),
            self.config().extent,
        )
    }

    /// Whether `made` is what comes of asking the driver for a swapchain
    /// with parameters `config`, given the driver's answer: a screen with
    /// those parameters and a framebuffer for each image, or the reason why
    /// there is none.
    pub open spec fn is_made_from(
        made: Result<Screen, ScreenError>,
        config: SwapchainConfig,
        outcome: SwapchainOutcome,
    ) -> bool {
        match outcome {
            SwapchainOutcome::Created { images } => if images >= 1 {
                &&& made matches Ok(screen)
                &&& screen.wf()
                &&& screen.config() == config
                &&& screen.framebuffer_set() == framebuffers_for(images as nat, config.extent)
            } else {
                made == Err::<Screen, ScreenError>(ScreenError::SwapchainCreationFailed)
            },
            SwapchainOutcome::ExtentUnsupported => made == Err::<Screen, ScreenError>(
                ScreenError::ExtentUnsupported,
            ),
            SwapchainOutcome::Failed => made == Err::<Screen, ScreenError>(
                ScreenError::SwapchainCreationFailed,
            ),
        }
    }

    /// Makes the screen for a swapchain that was asked for with parameters
    /// `config`, given the driver's answer.
    pub fn new(config: SwapchainConfig, outcome: SwapchainOutcome) -> (made: Result<
        Screen,
        ScreenError,
    >)
        ensures
            Screen::is_made_from(made, config, outcome),
    {
        match outcome {
            SwapchainOutcome::Created { images } => {
                if images == 0 {
                    return Err(ScreenError::SwapchainCreationFailed);
                }
                let mut framebuffers: Vec<Framebuffer> = Vec::new();
                let mut i: usize = 0;
                while i < images
                    invariant
                        i <= images,
                        framebuffers@ == framebuffers_for(i as nat, config.extent),
                    decreases images - i,
                {
                    framebuffers.push(Framebuffer { image: i, extent: config.extent });
                    i += 1;
                }
                Ok(Screen { swapchain: config, framebuffers })
            },
            SwapchainOutcome::ExtentUnsupported => Err(ScreenError::ExtentUnsupported),
            SwapchainOutcome::Failed => Err(ScreenError::SwapchainCreationFailed),
        }
    }

    /// Makes the screen that replaces this one after the swapchain was
    /// asked for again with the same parameters at `extent`, given the
    /// driver's answer. This screen stays as it is.
    pub fn recreate(&self, extent: Extent, outcome: SwapchainOutcome) -> (made: Result<
        Screen,
        ScreenError,
    >)
        ensures
            Screen::is_made_from(made, self.config().resized(extent), outcome),
    {
        Screen::new(self.swapchain.with_extent(extent), outcome)
    }

    /// The parameters of the swapchain.
    pub fn swapchain(&self) -> (config: &SwapchainConfig)
        ensures
            *config == self.config(),
    {
        &self.swapchain
    }

    /// The framebuffers, one for each image of the swapchain, in order.
    pub fn framebuffers(&self) -> (framebuffers: &Vec<Framebuffer>)
        ensures
            framebuffers@ == self.framebuffer_set(),
    {
        &self.framebuffers
    }

    /// The number of images of the swapchain.
    pub fn images(&self) -> (images: usize)
        ensures
            images == self.framebuffer_set().len(),
            images >= 1,
    {
        proof {
            use_type_invariant(self);
        }
        self.framebuffers.len()
    }

    /// The viewport that covers a framebuffer of this screen.
    pub fn viewport(&self) -> (viewport: Viewport)
        ensures
            viewport == (Viewport {
                width: self.config().extent.width,
                height: self.config().extent.height,
            }),
    {
        Viewport { width: self.swapchain.extent.width, height: self.swapchain.extent.height }
    }
}

/// Asking twice in a row for the same extent, with the same answer from
/// the driver, gives the same swapchain parameters and framebuffers of
/// equal number and equal extents both times.
pub proof fn lemma_recreate_idempotent(
    screen: Screen,
    extent: Extent,
    outcome: SwapchainOutcome,
    first: Result<Screen, ScreenError>,
    second: Result<Screen, ScreenError>,
)
    requires
        Screen::is_made_from(first, screen.config().resized(extent), outcome),
        first is Ok,
        Screen::is_made_from(second, first->Ok_0.config().resized(extent), outcome),
    ensures
        second is Ok,
        second->Ok_0.config() == first->Ok_0.config(),
        second->Ok_0.framebuffer_set().len() == first->Ok_0.framebuffer_set().len(),
        forall|i: int|
            0 <= i < first->Ok_0.framebuffer_set().len() ==> (
            #[trigger] second->Ok_0.framebuffer_set()[i]).extent
                == first->Ok_0.framebuffer_set()[i].extent,
        forall|i: int|
            0 <= i < first->Ok_0.framebuffer_set().len() ==> (
            #[trigger] first->Ok_0.framebuffer_set()[i]).extent == extent,
{
}

} // verus!
