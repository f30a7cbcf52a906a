//! The per-image resources that follow a swapchain: which attachment
//! stands where in a framebuffer, and how many of each resource a
//! swapchain of a given size needs.

use vstd::prelude::*;

verus! {

/// Positions of the attachments in the render pass and in every
/// framebuffer.
pub const ATTACHMENT_SWAPCHAIN: usize = 0;

pub const ATTACHMENT_NORMAL: usize = 1;

pub const ATTACHMENT_ALBEDO: usize = 2;

pub const ATTACHMENT_PRIMITIVE_ID: usize = 3;

pub const ATTACHMENT_DEPTH_BUFFER: usize = 4;

pub const NUM_ATTACHMENTS: usize = 5;

/// Positions of the subpasses in the render pass.
pub const SUBPASS_GBUFFER: usize = 0;

pub const SUBPASS_DEFERRED: usize = 1;

pub const NUM_SUBPASSES: usize = 2;

/// The colour attachments the geometry subpass writes.
pub const GBUFFER_COLOR_ATTACHMENT_COUNT: usize = 3;

/// Where an attachment of a framebuffer comes from.
#[derive(Clone, Copy, Debug, PartialEq, Eq, Structural)]
pub enum AttachmentSource {
    /// The view of the swapchain image with this index.
    SwapchainImage(usize),
    /// The normal buffer, shared by all framebuffers.
    NormalBuffer,
    /// The albedo buffer, shared by all framebuffers.
    AlbedoBuffer,
    /// The primitive id buffer with this index, one per framebuffer.
    PrimitiveIdBuffer(usize),
    /// The depth buffer, shared by all framebuffers.
    DepthBuffer,
}

/// The attachments of the framebuffer for the swapchain image `image`,
/// each at its position.
pub open spec fn spec_framebuffer_attachments(image: usize) -> Seq<AttachmentSource> {
    seq![
        AttachmentSource::SwapchainImage(image),
        AttachmentSource::NormalBuffer,
        AttachmentSource::AlbedoBuffer,
        AttachmentSource::PrimitiveIdBuffer(image),
        AttachmentSource::DepthBuffer,
    ]
}

/// The attachments of the framebuffer for the swapchain image `image`.
pub fn framebuffer_attachments(image: usize) -> (attachments: Vec<AttachmentSource>)
    ensures
        attachments@ == spec_framebuffer_attachments(image),
        attachments@.len() == NUM_ATTACHMENTS,
        attachments@[ATTACHMENT_SWAPCHAIN as int] == AttachmentSource::SwapchainImage(image),
        attachments@[ATTACHMENT_NORMAL as int] == AttachmentSource::NormalBuffer,
        attachments@[ATTACHMENT_ALBEDO as int] == AttachmentSource::AlbedoBuffer,
        attachments@[ATTACHMENT_PRIMITIVE_ID as int] == AttachmentSource::PrimitiveIdBuffer(image),
        attachments@[ATTACHMENT_DEPTH_BUFFER as int] == AttachmentSource::DepthBuffer,
{
    let mut attachments: Vec<AttachmentSource> = Vec::new();
    attachments.push(AttachmentSource::SwapchainImage(image));
    attachments.push(AttachmentSource::NormalBuffer);
    attachments.push(AttachmentSource::AlbedoBuffer);
    attachments.push(AttachmentSource::PrimitiveIdBuffer(image));
    attachments.push(AttachmentSource::DepthBuffer);
    assert(attachments@ =~= spec_framebuffer_attachments(image));
    attachments
}

/// The framebuffers of a swapchain: one per swapchain image, in the
/// order of the images, each with its own image view and primitive id
/// buffer.
pub fn create_framebuffers(swapchain_image_count: usize, primitive_id_buffer_count: usize) -> (framebuffers:
    Vec<Vec<AttachmentSource>>)
    requires
        primitive_id_buffer_count >= swapchain_image_count,
    ensures
        framebuffers@.len() == swapchain_image_count,
        forall|image: int|
            0 <= image < swapchain_image_count ==> (#[trigger] framebuffers@[image])@
                == spec_framebuffer_attachments(image as usize),
{
    let mut framebuffers: Vec<Vec<AttachmentSource>> = Vec::new();
    let mut image: usize = 0;
    while image < swapchain_image_count
        invariant
            image <= swapchain_image_count,
            framebuffers@.len() == image,
            forall|made: int|
                0 <= made < image ==> (#[trigger] framebuffers@[made])@
                    == spec_framebuffer_attachments(made as usize),
        decreases swapchain_image_count - image,
    {
        framebuffers.push(framebuffer_attachments(image));
        image = image + 1;
    }
    framebuffers
}

/// What a message of the validation layers is about.
#[derive(Clone, Copy, Debug, PartialEq, Eq, Structural)]
pub enum MessageKind {
    General,
    Validation,
    Performance,
    Unknown,
}

/// The level a message of the validation layers is logged at.
#[derive(Clone, Copy, Debug, PartialEq, Eq, Structural)]
pub enum LogLevel {
    Error,
    Warn,
    Debug,
}

/// The type and severity flags of a message of the validation layers.
#[derive(Clone, Copy, Debug, PartialEq, Eq, Structural)]
pub struct DebugMessage {
    pub general: bool,
    pub validation: bool,
    pub performance: bool,
    pub error: bool,
    pub warning: bool,
    pub information: bool,
    pub verbose: bool,
}

/// How a message of the validation layers is logged.
#[derive(Clone, Copy, Debug, PartialEq, Eq, Structural)]
pub struct DebugLogLine {
    pub kind: MessageKind,
    pub level: LogLevel,
    /// Whether any severity flag was set.
    pub severity_known: bool,
}

impl MessageKind {
    /// The label of the kind in the log.
    pub fn label(&self) -> (label: &'static str)
        ensures
            label@ == match self {
                MessageKind::General => "GENERAL"@,
                MessageKind::Validation => "VALIDATION"@,
                MessageKind::Performance => "PERFORMANCE"@,
                MessageKind::Unknown => "TYPE-UNKNOWN"@,
            },
    {
        match self {
            MessageKind::General => "GENERAL",
            MessageKind::Validation => "VALIDATION",
            MessageKind::Performance => "PERFORMANCE",
            MessageKind::Unknown => "TYPE-UNKNOWN",
        }
    }
}

/// Decides how a message of the validation layers is logged: the kind is
/// the first of general, validation, performance whose flag is set; the
/// level follows the gravest severity flag, and anything below a warning
/// is logged for debugging.
pub fn process_debug_callback(msg: &DebugMessage) -> (line: DebugLogLine)
    ensures
        line.kind == if msg.general {
            MessageKind::General
        } else if msg.validation {
            MessageKind::Validation
        } else if msg.performance {
            MessageKind::Performance
        } else {
            MessageKind::Unknown
        },
        line.level == if msg.error {
            LogLevel::Error
        } else if msg.warning {
            LogLevel::Warn
        } else {
            LogLevel::Debug
        },
        line.severity_known == (msg.error || msg.warning || msg.information || msg.verbose),
{
    let kind = if msg.general {
        MessageKind::General
    } else if msg.validation {
        MessageKind::Validation
    } else if msg.performance {
        MessageKind::Performance
    } else {
        MessageKind::Unknown
    };
    let level = if msg.error {
        LogLevel::Error
    } else if msg.warning {
        LogLevel::Warn
    } else {
        LogLevel::Debug
    };
    DebugLogLine {
        kind,
        level,
        severity_known: msg.error || msg.warning || msg.information || msg.verbose,
    }
}

} // verus!
