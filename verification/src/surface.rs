use vstd::prelude::*;

use crate::descriptors::TextureFormat;
use crate::gpu::Device;

verus! {

/// Configuration of a window surface: its size in texels, its format, and
/// the view formats registered alongside it.
pub struct SurfaceConfiguration {
    pub width: u32,
    pub height: u32,
    pub format: TextureFormat,
    pub view_formats: Vec<TextureFormat>,
}

/// The sRGB variant of a format; a format without one (or already sRGB)
/// stands as it is.
pub open spec fn spec_add_srgb_suffix(format: TextureFormat) -> TextureFormat {
    match format {
        TextureFormat::Rgba8Unorm => TextureFormat::Rgba8UnormSrgb,
        TextureFormat::Bgra8Unorm => TextureFormat::Bgra8UnormSrgb,
        _ => format,
    }
}

/// The sRGB variant of a surface format.
pub fn add_srgb_suffix(format: TextureFormat) -> (r: TextureFormat)
    ensures
        r == spec_add_srgb_suffix(format),
{
    match format {
        TextureFormat::Rgba8Unorm => TextureFormat::Rgba8UnormSrgb,
        TextureFormat::Bgra8Unorm => TextureFormat::Bgra8UnormSrgb,
        other => other,
    }
}

/// An opaque handle to a live window surface; the host creates the real one
/// from its window when the application resumes.
pub struct Surface {}

/// Owns the optional live surface and its configuration across the host
/// window's suspend/resume lifecycle.
pub struct SurfaceWrapper {
    surface: Option<Surface>,
    configuration: Option<SurfaceConfiguration>,
}

impl SurfaceWrapper {
    /// Whether a live surface is held.
    pub closed spec fn spec_has_surface(&self) -> bool {
        self.surface is Some
    }

    /// The held configuration, if the surface has been configured.
    pub closed spec fn spec_configuration(&self) -> Option<SurfaceConfiguration> {
        self.configuration
    }

    /// A wrapper with no surface and no configuration yet.
    pub fn new() -> (w: Self)
        ensures
            !w.spec_has_surface(),
            w.spec_configuration() is None,
    {
        SurfaceWrapper { surface: Option::None, configuration: Option::None }
    }

    /// A borrow of the live surface, if any.
    pub fn get(&self) -> (r: Option<&Surface>)
        ensures
            r is Some <==> self.spec_has_surface(),
    {
        self.surface.as_ref()
    }

    /// The current configuration; the surface must have been configured.
    pub fn configuration(&self) -> (r: &SurfaceConfiguration)
        requires
            self.spec_configuration() is Some,
        ensures
            self.spec_configuration() == Option::Some(*r),
    {
        match &self.configuration {
            Option::Some(configuration) => configuration,
            // Excluded by the precondition.
            Option::None => vstd::pervasive::unreached(),
        }
    }

    /// Takes the surface the host created for its window and configures it:
    /// the default configuration for the window's size, with the format's
    /// sRGB variant registered as an extra view format.
    pub fn resume(&mut self, _device: &Device, width: u32, height: u32, format: TextureFormat)
        ensures
            final(self).spec_has_surface(),
            final(self).spec_configuration() matches Option::Some(c) && c.width == width
                && c.height == height && c.format == format && c.view_formats@ == seq![
                spec_add_srgb_suffix(format),
            ],
    {
        self.surface = Option::Some(Surface {});
        let mut view_formats: Vec<TextureFormat> = Vec::new();
        view_formats.push(add_srgb_suffix(format));
        proof {
            assert(view_formats@ =~= seq![spec_add_srgb_suffix(format)]);
        }
        self.configuration = Option::Some(
            SurfaceConfiguration { width, height, format, view_formats },
        );
    }

    /// Updates the configured size after a window resize; the surface must
    /// be live and configured.
    pub fn resize(&mut self, width: u32, height: u32)
        requires
            old(self).spec_has_surface(),
            old(self).spec_configuration() is Some,
        ensures
            final(self).spec_has_surface(),
            ({
                let before = old(self).spec_configuration()->Some_0;
                final(self).spec_configuration() matches Option::Some(c) && c.width == width
                    && c.height == height && c.format == before.format && c.view_formats
                    == before.view_formats
            }),
    {
        if let Option::Some(configuration) = &mut self.configuration {
            configuration.width = width;
            configuration.height = height;
        }
    }
}

} // verus!
