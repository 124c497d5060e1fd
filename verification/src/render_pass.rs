//! A reduced view of an externally constructed render pass: the declared
//! attachments with the per-attachment data the framebuffer builder reads.
//!
//! The pass's subpass structure is owned and validated by the host; the core
//! only reads the attachment count and each attachment's format and sample
//! count to build compatible framebuffers.

use vstd::prelude::*;

verus! {

/// The smallest supported number of declared attachments.
pub const MIN_ATTACHMENTS: usize = 1;

/// The largest supported number of declared attachments.
pub const MAX_ATTACHMENTS: usize = 4;

/// Whether a declared attachment count lies in the supported range.
pub open spec fn supported_attachment_count(count: int) -> bool {
    MIN_ATTACHMENTS <= count <= MAX_ATTACHMENTS
}

/// One declared attachment: the image format and sample count that an image
/// bound at this slot must have. The format is an opaque host-owned handle.
#[derive(Clone, Copy, Debug, PartialEq, Eq, Structural)]
pub struct AttachmentDesc {
    pub format: u64,
    pub samples: u32,
}

/// The attachment declarations of one render pass, in slot order.
/// Slot zero is the presented color attachment; later slots are auxiliary
/// (depth/stencil or multisample) attachments.
#[derive(Debug)]
pub struct RenderPassDesc {
    pub attachments: Vec<AttachmentDesc>,
}

impl RenderPassDesc {
    pub fn new(attachments: Vec<AttachmentDesc>) -> (r: RenderPassDesc)
        ensures
            r.attachments@ == attachments@,
    {
        RenderPassDesc { attachments }
    }

    /// The number of declared attachment slots.
    pub fn attachment_count(&self) -> (r: usize)
        ensures
            r == self.attachments@.len(),
    {
        self.attachments.len()
    }
}

} // verus!
