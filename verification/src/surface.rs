//! The presentable surface's configuration: pixel format, presentation
//! mode and dimensions, and the resize rule that protects it from
//! zero-area requests.

use vstd::prelude::*;

verus! {

/// The pixel format of a presentable texture or color target.
#[derive(Clone, Copy, Debug, PartialEq, Eq, Structural)]
pub enum TextureFormat {
    Bgra8Unorm,
    Bgra8UnormSrgb,
    Rgba8Unorm,
    Rgba8UnormSrgb,
}

/// How finished frames are handed to the display.
#[derive(Clone, Copy, Debug, PartialEq, Eq, Structural)]
pub enum PresentMode {
    Fifo,
    Mailbox,
    Immediate,
}

/// What the surface's textures are used for. Presentable frames are
/// always render attachments.
#[derive(Clone, Copy, Debug, PartialEq, Eq, Structural)]
pub enum SurfaceUsage {
    RenderAttachment,
}

/// The full configuration of the presentable surface.
#[derive(Clone, Copy, Debug, PartialEq, Eq, Structural)]
pub struct SurfaceConfig {
    pub usage: SurfaceUsage,
    pub format: TextureFormat,
    pub width: u32,
    pub height: u32,
    pub present_mode: PresentMode,
}

impl SurfaceConfig {
    /// A configured surface never has a zero dimension.
    pub open spec fn wf(self) -> bool {
        self.width > 0 && self.height > 0
    }

    /// The initial configuration: a vsync'd (FIFO) render attachment at
    /// the given size. A zero-area surface cannot be configured, so such
    /// a request yields no configuration.
    pub fn new(width: u32, height: u32, format: TextureFormat) -> (r: Option<SurfaceConfig>)
        ensures
            r is Some <==> width > 0 && height > 0,
            r matches Some(c) ==> c == (SurfaceConfig {
                usage: SurfaceUsage::RenderAttachment,
                format,
                width,
                height,
                present_mode: PresentMode::Fifo,
            }) && c.wf(),
    {
        if width > 0 && height > 0 {
            Some(
                SurfaceConfig {
                    usage: SurfaceUsage::RenderAttachment,
                    format,
                    width,
                    height,
                    present_mode: PresentMode::Fifo,
                },
            )
        } else {
            None
        }
    }

    /// A resize stores the requested dimensions and keeps everything
    /// else; a request with a zero dimension is ignored and the previous
    /// configuration retained.
    pub fn resize(&mut self, width: u32, height: u32) -> (changed: bool)
        ensures
            changed <==> width > 0 && height > 0,
            changed ==> *final(self) == (SurfaceConfig { width, height, ..*old(self) }),
            !changed ==> *final(self) == *old(self),
            final(self).format == old(self).format,
            final(self).usage == old(self).usage,
            final(self).present_mode == old(self).present_mode,
            old(self).wf() ==> final(self).wf(),
    {
        if width > 0 && height > 0 {
            self.width = width;
            self.height = height;
            true
        } else {
            false
        }
    }
}

} // verus!
