//! The graphics-context model: the surface configuration that scene
//! materialization depends on, held as plain values.  The device, queue and
//! surface handles themselves stay with the host; the registry never reads
//! them, it only forwards the context to scene constructors.

use vstd::prelude::*;

verus! {

/// Pixel format negotiated for the presentation surface.  Only the linear
/// formats a host picks as defaults and their sRGB views are distinguished;
/// the registry logic never depends on which one is chosen.
#[derive(Clone, Copy, PartialEq, Eq, Structural, Debug)]
pub enum TextureFormat {
    Bgra8Unorm,
    Bgra8UnormSrgb,
    Rgba8Unorm,
    Rgba8UnormSrgb,
}

impl TextureFormat {
    /// The sRGB variant of this format; a format that is already sRGB is
    /// its own variant.
    pub open spec fn spec_add_srgb_suffix(self) -> TextureFormat {
        match self {
            TextureFormat::Bgra8Unorm => TextureFormat::Bgra8UnormSrgb,
            TextureFormat::Rgba8Unorm => TextureFormat::Rgba8UnormSrgb,
            other => other,
        }
    }

    /// Promotes the format to its sRGB variant, as the host does when it
    /// appends an sRGB view format after configuring the surface.
    pub fn add_srgb_suffix(self) -> (r: TextureFormat)
        ensures
            r == self.spec_add_srgb_suffix(),
    {
        match self {
            TextureFormat::Bgra8Unorm => TextureFormat::Bgra8UnormSrgb,
            TextureFormat::Rgba8Unorm => TextureFormat::Rgba8UnormSrgb,
            other => other,
        }
    }
}

/// The negotiated surface configuration: pixel dimensions, the base pixel
/// format, and the view formats the host pushed (the sRGB view of the base
/// format).
pub struct SurfaceConfig {
    pub width: u32,
    pub height: u32,
    pub format: TextureFormat,
    pub view_formats: Vec<TextureFormat>,
}

impl SurfaceConfig {
    /// A well-formed configuration carries exactly the sRGB view of its base
    /// format, which is what the host installs on every resize.
    pub open spec fn wf(self) -> bool {
        self.view_formats@ == seq![self.format.spec_add_srgb_suffix()]
    }
}

/// The context scenes are constructed against and painted with.  Its one
/// datum visible to the registry is the current surface configuration, which
/// is `None` until the first resize; no scene may be materialized before it
/// is `Some`.
pub struct GraphicsContext {
    pub surface_config: Option<SurfaceConfig>,
}

impl GraphicsContext {
    /// Whether the surface has been configured; scene materialization
    /// requires it.
    pub open spec fn is_configured(self) -> bool {
        self.surface_config is Some
    }

    pub open spec fn wf(self) -> bool {
        self.surface_config matches Some(c) ==> c.wf()
    }

    /// A fresh context: no surface configuration until the first resize.
    pub fn new() -> (r: GraphicsContext)
        ensures
            !r.is_configured(),
            r.wf(),
    {
        GraphicsContext { surface_config: None }
    }

    /// Recomputes and applies a surface configuration, as the host does on a
    /// resize: the given dimensions and base format, plus its sRGB view
    /// format.  Once configured, a context stays configured.
    pub fn reconfigure(&mut self, width: u32, height: u32, format: TextureFormat)
        ensures
            final(self).is_configured(),
            final(self).wf(),
            final(self).surface_config matches Some(c) && c.width == width && c.height == height
                && c.format == format,
    {
        let mut view_formats: Vec<TextureFormat> = Vec::new();
        view_formats.push(format.add_srgb_suffix());
        self.surface_config = Some(
            SurfaceConfig { width, height, format, view_formats },
        );
    }
}

} // verus!
