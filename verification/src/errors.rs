//! Error classification for the presentation loop.
//!
//! Fatal errors mark caller-contract violations or unrecoverable environment
//! mismatches; the host is expected to abort on them. Transient conditions
//! (an out-of-date swapchain, a failed flush) are not represented here: they
//! are handled inside the loop and never surface as fatal errors.

use vstd::prelude::*;
use crate::extent::Extent;

verus! {

/// An unrecoverable error: a caller-contract violation or an environment
/// mismatch. The host aborts on these rather than retrying.
#[derive(Clone, Copy, Debug, PartialEq, Eq, Structural)]
pub enum FatalError {
    /// The render pass declares an attachment count outside the supported
    /// range of one to four.
    UnsupportedAttachmentCount { count: usize },
    /// The surface rejected the requested swapchain dimensions.
    UnsupportedDimensions { dimensions: Extent },
    /// Swapchain creation or recreation failed for a reason other than
    /// unsupported dimensions.
    SwapchainCreationFailed,
    /// The surface reports no supported image format.
    NoSupportedFormat,
    /// Image acquisition failed for a reason other than the swapchain being
    /// out of date.
    AcquireFailed,
    /// The acquired image index does not address any swapchain image.
    InvalidImageIndex { index: usize, image_count: usize },
    /// A second acquisition was attempted while an acquisition token was
    /// still outstanding.
    AcquisitionAlreadyHeld,
    /// Submission or presentation was attempted without a prior successful
    /// acquisition.
    NoAcquisition,
    /// The acquisition future was requested twice, or before any acquisition.
    NoPendingAcquireFuture,
    /// The number of clear values does not match the framebuffer's
    /// attachment count.
    ClearValueCountMismatch { expected: usize, actual: usize },
}

impl FatalError {
    /// A human-readable description of the error, for the host's abort path.
    pub fn message(&self) -> (r: &'static str)
        ensures
            r@.len() > 0,
    {
        let r: &'static str = match self {
            FatalError::UnsupportedAttachmentCount { .. } => {
                "unsupported attachment count: a render pass must declare between one and four attachments"
            },
            FatalError::UnsupportedDimensions { .. } => {
                "the surface rejected the requested swapchain dimensions"
            },
            FatalError::SwapchainCreationFailed => "swapchain creation failed",
            FatalError::NoSupportedFormat => "the surface reports no supported image format",
            FatalError::AcquireFailed => "image acquisition failed",
            FatalError::InvalidImageIndex { .. } => {
                "the acquired image index does not address any swapchain image"
            },
            FatalError::AcquisitionAlreadyHeld => {
                "an acquisition token is already outstanding; submit or present it before acquiring again"
            },
            FatalError::NoAcquisition => {
                "no image was acquired before submitting or presenting; acquire an image first"
            },
            FatalError::NoPendingAcquireFuture => {
                "no acquisition future is pending; it was already taken or never produced"
            },
            FatalError::ClearValueCountMismatch { .. } => {
                "the number of clear values must equal the framebuffer's attachment count"
            },
        };
        proof {
            reveal_strlit("swapchain creation failed");
            reveal_strlit("the surface reports no supported image format");
            reveal_strlit("image acquisition failed");
            reveal_strlit(
                "unsupported attachment count: a render pass must declare between one and four attachments",
            );
            reveal_strlit("the surface rejected the requested swapchain dimensions");
            reveal_strlit("the acquired image index does not address any swapchain image");
            reveal_strlit(
                "an acquisition token is already outstanding; submit or present it before acquiring again",
            );
            reveal_strlit(
                "no image was acquired before submitting or presenting; acquire an image first",
            );
            reveal_strlit(
                "no acquisition future is pending; it was already taken or never produced",
            );
            reveal_strlit(
                "the number of clear values must equal the framebuffer's attachment count",
            );
        }
        r
    }
}

} // verus!
