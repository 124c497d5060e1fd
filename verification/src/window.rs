//! The swapchain window: the state machine of the presentation loop.
//!
//! The window owns the swapchain model (format, extent, image count,
//! generation), the framebuffer set derived from it, and the acquisition
//! token. It moves between two operational states: Ready (no outstanding
//! acquisition) and Acquired (a token is held, awaiting submission), with a
//! transient rebuild in between when the swapchain goes out of date.
//!
//! The host performs the device and window-system calls — acquiring an image,
//! recreating the swapchain, flushing a submission — and reports each
//! outcome here as an event; the window decides what follows. The host's
//! acquisition loop retries acquisition, unbounded, as long as the window
//! answers an out-of-date report with a rebuild demand.

use vstd::prelude::*;
use crate::command_buffer::FlushOutcome;
use crate::errors::FatalError;
use crate::extent::Extent;
use crate::framebuffer::{build_framebuffers, framebuffers_match, Framebuffer};
use crate::render_pass::{supported_attachment_count, RenderPassDesc};

verus! {

/// Fallback width when the surface reports no current extent at creation.
pub const DEFAULT_WIDTH: u32 = 1024;

/// Fallback height when the surface reports no current extent at creation.
pub const DEFAULT_HEIGHT: u32 = 768;

/// The surface capabilities the window reads when planning a swapchain:
/// the supported formats (opaque host-owned handles, in the surface's
/// preference order), the current extent if the surface reports one, and the
/// smallest presentable image count the surface supports.
#[derive(Debug)]
pub struct Capabilities {
    pub supported_formats: Vec<u64>,
    pub current_extent: Option<Extent>,
    pub min_image_count: u32,
}

/// The presentation mode a swapchain is created with.
#[derive(Clone, Copy, Debug, PartialEq, Eq, Structural)]
pub enum PresentMode {
    Immediate,
    Mailbox,
    Fifo,
}

/// Everything the host needs to create the swapchain: the chosen format,
/// the requested extent, the requested image count, and the presentation
/// mode.
#[derive(Clone, Copy, Debug, PartialEq, Eq, Structural)]
pub struct SwapchainConfig {
    pub format: u64,
    pub extent: Extent,
    pub image_count: u32,
    pub present_mode: PresentMode,
}

/// The host's report of a swapchain creation attempt.
#[derive(Clone, Copy, Debug, PartialEq, Eq, Structural)]
pub enum SwapchainCreateResult {
    /// The swapchain was created and yielded this many presentable images.
    Created { image_count: usize },
    /// The surface rejected the requested dimensions.
    UnsupportedDimensions,
    /// Creation failed for another reason.
    Failed,
}

/// The host's report of one acquisition attempt.
#[derive(Clone, Copy, Debug, PartialEq, Eq, Structural)]
pub enum AcquireOutcome {
    /// The device handed out this image index, with an image-ready future.
    Acquired { image_index: usize },
    /// The swapchain no longer matches the surface and must be rebuilt.
    OutOfDate,
    /// Acquisition failed for another reason.
    Failed,
}

/// What the window tells the host to do next after an acquisition report.
#[derive(Clone, Copy, Debug, PartialEq, Eq, Structural)]
pub enum AcquireStep {
    /// The token is now held; render into the framebuffer at this index.
    Acquired { image_index: usize },
    /// Recreate the swapchain at the surface's current dimensions, then
    /// retry the acquisition.
    MustRebuild,
}

/// The host's report of a swapchain recreation attempt.
#[derive(Clone, Copy, Debug, PartialEq, Eq, Structural)]
pub enum RecreateResult {
    /// The swapchain was recreated and yielded this many presentable images.
    Recreated { image_count: usize },
    /// The surface rejected the requested dimensions.
    UnsupportedDimensions,
    /// Recreation failed for another reason.
    Failed,
}

/// The future a completed present step hands back to the caller.
#[derive(Clone, Copy, Debug, PartialEq, Eq, Structural)]
pub enum FrameFuture {
    /// The frame's work, presentation included, is enqueued behind a fence.
    FenceSignalled,
    /// A no-op, already completed future: the frame was dropped, and the
    /// caller's next frame starts from a clean slate.
    Completed,
}

/// What a consumed present step returned: which image was presented, the
/// future the caller may wait on or drop, and whether the frame was dropped
/// on the way.
#[derive(Clone, Copy, Debug, PartialEq, Eq, Structural)]
pub struct PresentOutcome {
    pub image_index: usize,
    pub future: FrameFuture,
    pub frame_dropped: bool,
}

/// Plans a swapchain from the surface's capabilities: the first supported
/// format, the surface's current extent (with a fixed fallback when the
/// surface reports none), the capability minimum image count, and immediate
/// presentation. A surface without any supported format is an environment
/// mismatch and fatal.
pub fn plan_swapchain(caps: &Capabilities) -> (result: Result<SwapchainConfig, FatalError>)
    ensures
        result is Ok <==> caps.supported_formats@.len() > 0,
        result matches Ok(c) ==> ({
            &&& c.format == caps.supported_formats@[0]
            &&& c.extent == (match caps.current_extent {
                Option::Some(e) => e,
                Option::None => Extent { width: DEFAULT_WIDTH, height: DEFAULT_HEIGHT },
            })
            &&& c.image_count == caps.min_image_count
            &&& c.present_mode == PresentMode::Immediate
        }),
        result matches Err(e) ==> e == FatalError::NoSupportedFormat,
{
    if caps.supported_formats.len() == 0 {
        return Err(FatalError::NoSupportedFormat);
    }
    let extent = match caps.current_extent {
        Option::Some(e) => e,
        Option::None => Extent { width: DEFAULT_WIDTH, height: DEFAULT_HEIGHT },
    };
    Ok(SwapchainConfig {
        format: caps.supported_formats[0],
        extent,
        image_count: caps.min_image_count,
        present_mode: PresentMode::Immediate,
    })
}

/// The swapchain window. Fields are public so that contracts can speak of
/// them; the host mutates them only through the methods below.
#[derive(Debug)]
pub struct VkWindow {
    /// The render pass the framebuffers are built against. Swapping it takes
    /// effect on the next rebuild.
    pub render_pass: RenderPassDesc,
    /// The swapchain's image format, as chosen at creation.
    pub format: u64,
    /// The swapchain's current extent. Matches the surface's dimensions as
    /// of the last creation or rebuild.
    pub extent: Extent,
    /// How many presentable images the current swapchain holds.
    pub image_count: usize,
    /// Bumped on every rebuild: images and framebuffers of an older
    /// generation are invalid.
    pub generation: u64,
    /// One framebuffer per swapchain image, rebuilt with the swapchain.
    pub framebuffers: Vec<Framebuffer>,
    /// The acquired image index, while an acquisition token is outstanding.
    pub image_num: Option<usize>,
    /// Whether the acquisition token's image-ready future has not yet been
    /// taken for submission.
    pub future_pending: bool,
}

impl VkWindow {
    /// Structural well-formedness: the framebuffer set covers the images,
    /// a held token addresses a real image, and a pending future only exists
    /// under a held token.
    pub open spec fn wf(self) -> bool {
        &&& self.framebuffers@.len() == self.image_count
        &&& (self.image_num matches Some(i) ==> i < self.image_count)
        &&& (self.future_pending ==> self.image_num is Some)
    }

    /// Whether an acquisition token is outstanding (the Acquired state).
    pub open spec fn acquired(self) -> bool {
        self.image_num is Some
    }

    /// Whether the framebuffer set is exactly what the builder owes for the
    /// current render pass, image count and extent. Holds after creation and
    /// after every successful rebuild; a render-pass swap suspends it until
    /// the next rebuild.
    pub open spec fn framebuffers_current(self) -> bool {
        framebuffers_match(
            self.framebuffers@,
            self.render_pass,
            self.image_count as int,
            self.extent,
        )
    }

    /// Creates the window around a freshly created swapchain: stores the
    /// configuration the host created it with, and builds the initial
    /// framebuffer set. A creation failure, an unsupported-dimensions report,
    /// or an unsupported attachment count is fatal.
    pub fn new(
        render_pass: RenderPassDesc,
        config: SwapchainConfig,
        creation: SwapchainCreateResult,
    ) -> (result: Result<VkWindow, FatalError>)
        ensures
            result is Ok <==> (creation is Created && supported_attachment_count(
                render_pass.attachments@.len() as int,
            )),
            result matches Ok(w) ==> ({
                &&& creation matches SwapchainCreateResult::Created { image_count }
                    && w.image_count == image_count
                &&& w.render_pass == render_pass
                &&& w.format == config.format
                &&& w.extent == config.extent
                &&& w.generation == 0
                &&& w.image_num is None
                &&& !w.future_pending
                &&& w.wf()
                &&& w.framebuffers_current()
            }),
            creation is UnsupportedDimensions ==> result == Err::<VkWindow, FatalError>(
                FatalError::UnsupportedDimensions { dimensions: config.extent },
            ),
            creation is Failed ==> result == Err::<VkWindow, FatalError>(
                FatalError::SwapchainCreationFailed,
            ),
            creation is Created && !supported_attachment_count(
                render_pass.attachments@.len() as int,
            ) ==> (result matches Err(e) && e matches FatalError::UnsupportedAttachmentCount {
                count,
            } && count == render_pass.attachments@.len()),
    {
        match creation {
            SwapchainCreateResult::Created { image_count } => {
                match build_framebuffers(&render_pass, image_count, config.extent) {
                    Ok(framebuffers) => Ok(VkWindow {
                        render_pass,
                        format: config.format,
                        extent: config.extent,
                        image_count,
                        generation: 0,
                        framebuffers,
                        image_num: Option::None,
                        future_pending: false,
                    }),
                    Err(e) => Err(e),
                }
            },
            SwapchainCreateResult::UnsupportedDimensions => Err(
                FatalError::UnsupportedDimensions { dimensions: config.extent },
            ),
            SwapchainCreateResult::Failed => Err(FatalError::SwapchainCreationFailed),
        }
    }

    /// Replaces the render pass the framebuffers are built against. Takes
    /// effect on the next rebuild; the current framebuffer set is untouched.
    pub fn set_render_pass(&mut self, new_render_pass: RenderPassDesc)
        requires
            old(self).wf(),
        ensures
            final(self).wf(),
            final(self).render_pass == new_render_pass,
            final(self).format == old(self).format,
            final(self).extent == old(self).extent,
            final(self).image_count == old(self).image_count,
            final(self).generation == old(self).generation,
            final(self).framebuffers == old(self).framebuffers,
            final(self).image_num == old(self).image_num,
            final(self).future_pending == old(self).future_pending,
    {
        self.render_pass = new_render_pass;
    }

    /// The window after a successful acquisition of `image_index`.
    pub open spec fn with_token(self, image_index: usize) -> VkWindow {
        VkWindow { image_num: Some(image_index), future_pending: true, ..self }
    }

    /// The window with the acquisition token consumed.
    pub open spec fn with_token_consumed(self) -> VkWindow {
        VkWindow { image_num: None, future_pending: false, ..self }
    }

    /// The acquisition transition: what `next_image` does to the window and
    /// returns, for each state and each reported outcome.
    pub open spec fn spec_next_image(self, outcome: AcquireOutcome) -> (VkWindow, Result<
        AcquireStep,
        FatalError,
    >) {
        if self.acquired() {
            (self, Err(FatalError::AcquisitionAlreadyHeld))
        } else {
            match outcome {
                AcquireOutcome::Acquired { image_index } => if image_index < self.image_count {
                    (self.with_token(image_index), Ok(AcquireStep::Acquired { image_index }))
                } else {
                    (
                        self,
                        Err(FatalError::InvalidImageIndex {
                            index: image_index,
                            image_count: self.image_count,
                        }),
                    )
                },
                AcquireOutcome::OutOfDate => (self, Ok(AcquireStep::MustRebuild)),
                AcquireOutcome::Failed => (self, Err(FatalError::AcquireFailed)),
            }
        }
    }

    /// Feeds one acquisition report into the window. On success the window
    /// moves Ready → Acquired, stores the token, and names the framebuffer
    /// index to render into; an out-of-date report demands a rebuild and a
    /// retry; any other failure is fatal. A second acquisition while a token
    /// is outstanding is rejected outright and discards nothing.
    pub fn next_image(&mut self, outcome: AcquireOutcome) -> (result: Result<
        AcquireStep,
        FatalError,
    >)
        requires
            old(self).wf(),
        ensures
            final(self).wf(),
            (*final(self), result) == old(self).spec_next_image(outcome),
            old(self).acquired() ==> (*final(self) == *old(self) && result == Err::<
                AcquireStep,
                FatalError,
            >(FatalError::AcquisitionAlreadyHeld)),
            result matches Ok(AcquireStep::Acquired { image_index }) ==> (
                final(self).image_num == Some(image_index) && final(self).future_pending
                && image_index < old(self).image_count),
            result is Err || result == Ok::<AcquireStep, FatalError>(AcquireStep::MustRebuild)
                ==> *final(self) == *old(self),
    {
        if self.image_num.is_some() {
            return Err(FatalError::AcquisitionAlreadyHeld);
        }
        match outcome {
            AcquireOutcome::Acquired { image_index } => {
                if image_index < self.image_count {
                    self.image_num = Option::Some(image_index);
                    self.future_pending = true;
                    Ok(AcquireStep::Acquired { image_index })
                } else {
                    Err(FatalError::InvalidImageIndex {
                        index: image_index,
                        image_count: self.image_count,
                    })
                }
            },
            AcquireOutcome::OutOfDate => Ok(AcquireStep::MustRebuild),
            AcquireOutcome::Failed => Err(FatalError::AcquireFailed),
        }
    }

    /// Recreates the swapchain model at the surface's current dimensions and
    /// rebuilds the framebuffer set against the current render pass. On any
    /// failure — unsupported dimensions, another creation error, or an
    /// unsupported attachment count — the window is left exactly as it was:
    /// never a partial rebuild.
    pub fn rebuild(&mut self, dimensions: Extent, recreation: RecreateResult) -> (result: Result<
        (),
        FatalError,
    >)
        requires
            old(self).wf(),
            !old(self).acquired(),
        ensures
            final(self).wf(),
            result is Ok <==> (recreation is Recreated && supported_attachment_count(
                old(self).render_pass.attachments@.len() as int,
            )),
            result is Ok ==> ({
                &&& recreation matches RecreateResult::Recreated { image_count }
                    && final(self).image_count == image_count
                &&& final(self).extent == dimensions
                &&& final(self).framebuffers_current()
                &&& final(self).render_pass == old(self).render_pass
                &&& final(self).format == old(self).format
                &&& final(self).generation == (if old(self).generation == u64::MAX {
                    0u64
                } else {
                    (old(self).generation + 1) as u64
                })
                &&& final(self).image_num is None
                &&& !final(self).future_pending
            }),
            result is Err ==> *final(self) == *old(self),
            recreation is UnsupportedDimensions ==> result == Err::<(), FatalError>(
                FatalError::UnsupportedDimensions { dimensions },
            ),
            recreation is Failed ==> result == Err::<(), FatalError>(
                FatalError::SwapchainCreationFailed,
            ),
            recreation is Recreated && !supported_attachment_count(
                old(self).render_pass.attachments@.len() as int,
            ) ==> (result matches Err(e) && e matches FatalError::UnsupportedAttachmentCount {
                count,
            } && count == old(self).render_pass.attachments@.len()),
    {
        match recreation {
            RecreateResult::Recreated { image_count } => {
                match build_framebuffers(&self.render_pass, image_count, dimensions) {
                    Ok(framebuffers) => {
                        self.extent = dimensions;
                        self.image_count = image_count;
                        self.framebuffers = framebuffers;
                        self.generation = if self.generation == u64::MAX {
                            0
                        } else {
                            self.generation + 1
                        };
                        Ok(())
                    },
                    Err(e) => Err(e),
                }
            },
            RecreateResult::UnsupportedDimensions => Err(
                FatalError::UnsupportedDimensions { dimensions },
            ),
            RecreateResult::Failed => Err(FatalError::SwapchainCreationFailed),
        }
    }

    /// The take-the-future transition: what `get_future` does and returns.
    pub open spec fn spec_get_future(self) -> (VkWindow, Result<usize, FatalError>) {
        match self.image_num {
            Option::Some(i) => if self.future_pending {
                (VkWindow { future_pending: false, ..self }, Ok(i))
            } else {
                (self, Err(FatalError::NoPendingAcquireFuture))
            },
            Option::None => (self, Err(FatalError::NoPendingAcquireFuture)),
        }
    }

    /// Takes the acquisition token's image-ready future for submission,
    /// naming the image index it belongs to. The future exists once per
    /// acquisition: taking it twice, or without a prior acquisition, is
    /// rejected outright.
    pub fn get_future(&mut self) -> (result: Result<usize, FatalError>)
        requires
            old(self).wf(),
        ensures
            final(self).wf(),
            (*final(self), result) == old(self).spec_get_future(),
            old(self).future_pending ==> (old(self).image_num matches Some(i) ==> (result == Ok::<
                usize,
                FatalError,
            >(i) && !final(self).future_pending && final(self).image_num == old(self).image_num)),
            !old(self).future_pending ==> (*final(self) == *old(self) && result == Err::<
                usize,
                FatalError,
            >(FatalError::NoPendingAcquireFuture)),
    {
        match self.image_num {
            Option::Some(i) => {
                if self.future_pending {
                    self.future_pending = false;
                    Ok(i)
                } else {
                    Err(FatalError::NoPendingAcquireFuture)
                }
            },
            Option::None => Err(FatalError::NoPendingAcquireFuture),
        }
    }

    /// The present transition: what `present_image` does and returns.
    pub open spec fn spec_present_image(self, flush: FlushOutcome) -> (VkWindow, Result<
        PresentOutcome,
        FatalError,
    >) {
        match self.image_num {
            Option::Some(i) => {
                let outcome = match flush {
                    FlushOutcome::Flushed => PresentOutcome {
                        image_index: i,
                        future: FrameFuture::FenceSignalled,
                        frame_dropped: false,
                    },
                    FlushOutcome::OutOfDate => PresentOutcome {
                        image_index: i,
                        future: FrameFuture::Completed,
                        frame_dropped: true,
                    },
                    FlushOutcome::Failed => PresentOutcome {
                        image_index: i,
                        future: FrameFuture::Completed,
                        frame_dropped: true,
                    },
                };
                (self.with_token_consumed(), Ok(outcome))
            },
            Option::None => (self, Err(FatalError::NoAcquisition)),
        }
    }

    /// Consumes the acquisition token against the host's flush report.
    /// Presenting without a prior acquisition is rejected outright and never
    /// proceeds with a stale or default index. With a token held, the token
    /// is consumed whatever the outcome — Acquired → Ready — and the caller
    /// gets back either the enqueued frame's fence future or, on any flush
    /// failure, a completed no-op future with the frame dropped.
    pub fn present_image(&mut self, flush: FlushOutcome) -> (result: Result<
        PresentOutcome,
        FatalError,
    >)
        requires
            old(self).wf(),
        ensures
            final(self).wf(),
            (*final(self), result) == old(self).spec_present_image(flush),
            !old(self).acquired() ==> (*final(self) == *old(self) && result == Err::<
                PresentOutcome,
                FatalError,
            >(FatalError::NoAcquisition)),
            old(self).acquired() ==> (!final(self).acquired() && !final(self).future_pending),
            old(self).image_num matches Some(i) ==> (result matches Ok(o) && o.image_index == i
                && (o.future is FenceSignalled <==> flush is Flushed) && (o.frame_dropped <==> !(
            flush is Flushed))),
    {
        match self.image_num {
            Option::Some(i) => {
                let outcome = match flush {
                    FlushOutcome::Flushed => PresentOutcome {
                        image_index: i,
                        future: FrameFuture::FenceSignalled,
                        frame_dropped: false,
                    },
                    FlushOutcome::OutOfDate => PresentOutcome {
                        image_index: i,
                        future: FrameFuture::Completed,
                        frame_dropped: true,
                    },
                    FlushOutcome::Failed => PresentOutcome {
                        image_index: i,
                        future: FrameFuture::Completed,
                        frame_dropped: true,
                    },
                };
                self.image_num = Option::None;
                self.future_pending = false;
                Ok(outcome)
            },
            Option::None => Err(FatalError::NoAcquisition),
        }
    }
}

/// The acquisition token is strictly one-in-one-out: once an acquisition
/// succeeds, any further acquisition attempt — whatever the host reports —
/// is rejected with an explicit error and leaves the window, the held token
/// included, exactly as it was. Nothing is silently discarded and no index
/// dangles.
pub proof fn lemma_acquisition_one_in_one_out(
    w: VkWindow,
    first: AcquireOutcome,
    second: AcquireOutcome,
)
    ensures
        ({
            let (w1, r1) = w.spec_next_image(first);
            r1 matches Ok(AcquireStep::Acquired { .. }) ==> ({
                let (w2, r2) = w1.spec_next_image(second);
                &&& w2 == w1
                &&& r2 == Err::<AcquireStep, FatalError>(FatalError::AcquisitionAlreadyHeld)
            })
        }),
{
}

/// Presenting without a prior acquisition is rejected with an explicit
/// error and changes nothing: it never proceeds with a stale or default
/// index.
pub proof fn lemma_present_requires_acquisition(w: VkWindow, flush: FlushOutcome)
    ensures
        ({
            let (w1, r1) = w.spec_present_image(flush);
            !w.acquired() ==> (w1 == w && r1 == Err::<PresentOutcome, FatalError>(
                FatalError::NoAcquisition,
            ))
        }),
{
}

/// A present always consumes the most recently acquired token: the presented
/// index is exactly the token's, and afterwards the window holds no token,
/// so the next acquisition is admitted again.
pub proof fn lemma_present_consumes_token(w: VkWindow, flush: FlushOutcome)
    ensures
        ({
            let (w1, r1) = w.spec_present_image(flush);
            w.image_num matches Some(i) ==> (r1 matches Ok(o) && o.image_index == i
                && !w1.acquired())
        }),
{
}

/// A full frame is balanced: from a window with no outstanding token, a
/// successful acquisition followed by a present — with any flush outcome —
/// returns the window exactly to its starting state. The swapchain, its
/// framebuffers and the render pass are untouched by the acquire/present
/// protocol; once acquired, a frame is always concluded rather than left
/// half-open.
pub proof fn lemma_frame_cycle_returns_to_ready(
    w: VkWindow,
    outcome: AcquireOutcome,
    flush: FlushOutcome,
)
    requires
        w.wf(),
        !w.acquired(),
    ensures
        ({
            let (w1, r1) = w.spec_next_image(outcome);
            r1 matches Ok(AcquireStep::Acquired { .. }) ==> ({
                let (w2, r2) = w1.spec_present_image(flush);
                &&& w2 == w
                &&& r2 is Ok
            })
        }),
{
}

/// A flush failure during present — the out-of-date kind included — is
/// downgraded to a completed, safely droppable no-op future: the frame is
/// dropped, the token is still consumed, and nothing escalates beyond the
/// dropped frame.
pub proof fn lemma_flush_failure_downgraded(w: VkWindow, flush: FlushOutcome)
    ensures
        ({
            let (w1, r1) = w.spec_present_image(flush);
            w.acquired() && !(flush is Flushed) ==> (r1 matches Ok(o) && o.future
                == FrameFuture::Completed && o.frame_dropped && !w1.acquired())
        }),
{
}

} // verus!
