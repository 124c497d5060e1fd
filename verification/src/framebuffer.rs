//! The framebuffer builder: one framebuffer per swapchain image, each with
//! exactly the attachments the render pass declares.
//!
//! Attachment slot zero is always the swapchain image itself; every later
//! slot is a freshly allocated transient image sized to the current extent,
//! with format and sample count taken from the render pass's declaration for
//! that slot. Transient attachments are recreated on every rebuild and never
//! persist across swapchain generations.

use vstd::prelude::*;
use crate::errors::FatalError;
use crate::extent::Extent;
use crate::render_pass::{supported_attachment_count, RenderPassDesc};

verus! {

/// One bound attachment slot of a framebuffer.
#[derive(Clone, Copy, Debug, PartialEq, Eq, Structural)]
pub enum FramebufferAttachment {
    /// The presentable swapchain image at the given slot index.
    SwapchainImage { image_index: usize },
    /// A freshly allocated transient image of the given format, sample count
    /// and size.
    Transient { format: u64, samples: u32, extent: Extent },
}

/// A bound set of attachments a render pass writes into for one frame,
/// together with the extent all of them share.
#[derive(Debug)]
pub struct Framebuffer {
    pub attachments: Vec<FramebufferAttachment>,
    pub extent: Extent,
}

/// Whether `fb` is exactly the framebuffer the builder owes for swapchain
/// image `image_index` under `render_pass` at `extent`: slot zero is that
/// swapchain image, every later slot a transient image with the declared
/// format and sample count, all sized to `extent`.
pub open spec fn framebuffer_matches(
    fb: Framebuffer,
    render_pass: RenderPassDesc,
    image_index: int,
    extent: Extent,
) -> bool {
    &&& fb.extent == extent
    &&& fb.attachments@.len() == render_pass.attachments@.len()
    &&& fb.attachments@.len() > 0 ==> fb.attachments@[0] == (
        FramebufferAttachment::SwapchainImage { image_index: image_index as usize }
    )
    &&& forall|slot: int| 1 <= slot < fb.attachments@.len() ==> fb.attachments@[slot] == (
        FramebufferAttachment::Transient {
            format: render_pass.attachments@[slot].format,
            samples: render_pass.attachments@[slot].samples,
            extent: extent,
        }
    )
}

/// Whether `fbs` is the complete framebuffer set the builder owes: one
/// framebuffer per swapchain image, each matching the render pass at
/// `extent`.
pub open spec fn framebuffers_match(
    fbs: Seq<Framebuffer>,
    render_pass: RenderPassDesc,
    image_count: int,
    extent: Extent,
) -> bool {
    &&& fbs.len() == image_count
    &&& forall|i: int| 0 <= i < image_count ==> framebuffer_matches(
        #[trigger] fbs[i],
        render_pass,
        i,
        extent,
    )
}

/// Builds the attachment list for the framebuffer of swapchain image
/// `image_index`.
fn build_attachments(
    render_pass: &RenderPassDesc,
    image_index: usize,
    extent: Extent,
) -> (r: Vec<FramebufferAttachment>)
    requires
        render_pass.attachments@.len() >= 1,
    ensures
        r@.len() == render_pass.attachments@.len(),
        r@[0] == (FramebufferAttachment::SwapchainImage { image_index }),
        forall|slot: int| 1 <= slot < r@.len() ==> r@[slot] == (
            FramebufferAttachment::Transient {
                format: render_pass.attachments@[slot].format,
                samples: render_pass.attachments@[slot].samples,
                extent: extent,
            }
        ),
{
    let count = render_pass.attachments.len();
    let mut attachments: Vec<FramebufferAttachment> = Vec::new();
    attachments.push(FramebufferAttachment::SwapchainImage { image_index });
    let mut slot: usize = 1;
    while slot < count
        invariant
            1 <= slot <= count,
            count == render_pass.attachments@.len(),
            attachments@.len() == slot,
            attachments@[0] == (FramebufferAttachment::SwapchainImage { image_index }),
            forall|j: int| 1 <= j < slot ==> attachments@[j] == (
                FramebufferAttachment::Transient {
                    format: render_pass.attachments@[j].format,
                    samples: render_pass.attachments@[j].samples,
                    extent: extent,
                }
            ),
        decreases count - slot,
    {
        let desc = render_pass.attachments[slot];
        attachments.push(FramebufferAttachment::Transient {
            format: desc.format,
            samples: desc.samples,
            extent,
        });
        slot = slot + 1;
    }
    attachments
}

/// Builds one framebuffer per swapchain image for the given render pass at
/// the given extent, or rejects an unsupported attachment count with a fatal
/// error before anything is built: the result is either the complete set or
/// no framebuffer at all, never a partial one.
pub fn build_framebuffers(
    render_pass: &RenderPassDesc,
    image_count: usize,
    extent: Extent,
) -> (result: Result<Vec<Framebuffer>, FatalError>)
    ensures
        result is Ok <==> supported_attachment_count(render_pass.attachments@.len() as int),
        result matches Ok(fbs) ==> framebuffers_match(
            fbs@,
            *render_pass,
            image_count as int,
            extent,
        ),
        result matches Err(e) ==> e == (FatalError::UnsupportedAttachmentCount {
            count: render_pass.attachments.len(),
        }),
{
    let count = render_pass.attachments.len();
    if count < crate::render_pass::MIN_ATTACHMENTS || count > crate::render_pass::MAX_ATTACHMENTS {
        return Err(FatalError::UnsupportedAttachmentCount { count });
    }
    let mut fbs: Vec<Framebuffer> = Vec::new();
    let mut i: usize = 0;
    while i < image_count
        invariant
            0 <= i <= image_count,
            supported_attachment_count(render_pass.attachments@.len() as int),
            fbs@.len() == i,
            forall|k: int| 0 <= k < i ==> framebuffer_matches(
                #[trigger] fbs@[k],
                *render_pass,
                k,
                extent,
            ),
        decreases image_count - i,
    {
        let attachments = build_attachments(render_pass, i, extent);
        fbs.push(Framebuffer { attachments, extent });
        i = i + 1;
    }
    Ok(fbs)
}

} // verus!
