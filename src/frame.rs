use vstd::prelude::*;

verus! {

/// Sample count of the colour attachment where multisampling is available.
pub const MULTISAMPLE_COUNT: u32 = 4;

/// Sample count where the backend cannot multisample.
pub const SINGLE_SAMPLE: u32 = 1;

/// Largest 2D texture dimension requested from a constrained backend.
pub const CONSTRAINED_MAX_TEXTURE_DIMENSION: u32 = 4096;

/// A size in physical pixels.
#[derive(Clone, Copy, Debug, PartialEq, Eq, Structural)]
pub struct Size {
    pub width: u32,
    pub height: u32,
}

impl Size {
    /// Both dimensions are positive: a surface of this size has an area.
    pub open spec fn has_area(self) -> bool {
        self.width > 0 && self.height > 0
    }

    pub fn new(width: u32, height: u32) -> (r: Size)
        ensures
            r.width == width,
            r.height == height,
    {
        Size { width, height }
    }

    pub fn is_drawable(&self) -> (r: bool)
        ensures
            r == self.has_area(),
    {
        self.width > 0 && self.height > 0
    }
}

/// Choices resolved once at startup from what the backend can do.
#[derive(Clone, Copy, Debug, PartialEq, Eq, Structural)]
pub struct RenderConfig {
    /// Samples per pixel of the colour and depth attachments.
    pub sample_count: u32,
    /// Cap on the 2D texture dimension asked of the device, if any.
    pub max_texture_dimension_2d: Option<u32>,
}

impl RenderConfig {
    /// A constrained backend (a browser's) gets one sample and capped
    /// textures; any other gets multisampling and the device's own limits.
    pub fn resolve(constrained_backend: bool) -> (r: RenderConfig)
        ensures
            constrained_backend ==> r.sample_count == SINGLE_SAMPLE
                && r.max_texture_dimension_2d == Some(CONSTRAINED_MAX_TEXTURE_DIMENSION),
            !constrained_backend ==> r.sample_count == MULTISAMPLE_COUNT
                && r.max_texture_dimension_2d.is_none(),
    {
        if constrained_backend {
            RenderConfig {
                sample_count: SINGLE_SAMPLE,
                max_texture_dimension_2d: Some(CONSTRAINED_MAX_TEXTURE_DIMENSION),
            }
        } else {
            RenderConfig { sample_count: MULTISAMPLE_COUNT, max_texture_dimension_2d: None }
        }
    }
}

/// What the presentation surface is configured with. The colour format is
/// an index among the formats the adapter supports for the surface.
#[derive(Clone, Copy, Debug, PartialEq, Eq, Structural)]
pub struct SurfaceConfig {
    pub width: u32,
    pub height: u32,
    pub format: u32,
}

impl SurfaceConfig {
    pub fn from_size(size: Size, format: u32) -> (r: SurfaceConfig)
        ensures
            r == (SurfaceConfig { width: size.width, height: size.height, format }),
    {
        SurfaceConfig { width: size.width, height: size.height, format }
    }
}

/// The colour and depth attachments a render pass draws into; both share
/// these dimensions and this sample count, and the colour attachment has the
/// surface's colour format.
#[derive(Clone, Copy, Debug, PartialEq, Eq, Structural)]
pub struct FrameTarget {
    pub width: u32,
    pub height: u32,
    pub format: u32,
    pub sample_count: u32,
}

impl FrameTarget {
    /// The attachments that match a surface configuration.
    pub open spec fn matches(self, config: SurfaceConfig, render: RenderConfig) -> bool {
        self.width == config.width && self.height == config.height && self.format == config.format
            && self.sample_count == render.sample_count
    }

    /// Describes the attachments to create for a surface configuration.
    pub fn rebuild(config: &SurfaceConfig, render: &RenderConfig) -> (r: FrameTarget)
        ensures
            r.matches(*config, *render),
    {
        FrameTarget {
            width: config.width,
            height: config.height,
            format: config.format,
            sample_count: render.sample_count,
        }
    }
}

/// Where the render pass draws its colour.
#[derive(Clone, Copy, Debug, PartialEq, Eq, Structural)]
pub enum ColorTarget {
    /// The multisampled attachment of the frame target.
    Multisampled,
    /// The acquired surface image itself.
    Surface,
}

/// How one frame's render pass is bound.
#[derive(Clone, Copy, Debug, PartialEq, Eq, Structural)]
pub struct PassPlan {
    pub color_target: ColorTarget,
    /// The multisampled colour is resolved into the surface image.
    pub resolve_to_surface: bool,
}

/// With one sample the pass draws straight into the surface image; with more
/// it draws into the multisampled attachment and resolves into the image.
pub open spec fn planned_pass(sample_count: u32) -> PassPlan {
    if sample_count == SINGLE_SAMPLE {
        PassPlan { color_target: ColorTarget::Surface, resolve_to_surface: false }
    } else {
        PassPlan { color_target: ColorTarget::Multisampled, resolve_to_surface: true }
    }
}

/// How the render pass is bound for a sample count.
pub fn pass_plan(sample_count: u32) -> (r: PassPlan)
    ensures
        r == planned_pass(sample_count),
{
    if sample_count == SINGLE_SAMPLE {
        PassPlan { color_target: ColorTarget::Surface, resolve_to_surface: false }
    } else {
        PassPlan { color_target: ColorTarget::Multisampled, resolve_to_surface: true }
    }
}

} // verus!
