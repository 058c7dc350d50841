//! The surface configuration store: target size, pixel format, presentation
//! mode and usage flags of the presentable surface.

use vstd::prelude::*;

verus! {

/// Usage bit of a surface whose frames are render targets.
pub const USAGE_RENDER_ATTACHMENT: u32 = 16;

/// A pixel format, named by the code the graphics backend gives it. The
/// library carries it through and never looks inside.
#[derive(Clone, Copy, Debug, PartialEq, Eq, Structural)]
pub struct PixelFormat {
    pub code: u32,
}

/// How the presentation engine paces the frames it is handed.
#[derive(Clone, Copy, Debug, PartialEq, Eq, Structural)]
pub enum PresentMode {
    /// Frames are shown at once; tearing may be seen.
    Immediate,
    /// Frames wait for the vertical blank, and a newer frame replaces a waiting one.
    Mailbox,
    /// Frames wait for the vertical blank in a queue: vertical sync.
    Fifo,
}

/// A raw dimension raised to at least one: the larger of the two.
pub open spec fn clamped(raw: int) -> int {
    vstd::math::max(raw, 1)
}

/// Raises a raw window dimension to the least size a surface accepts.
/// A minimized window reports zero; every other value is kept.
pub fn clamp_dimension(raw: u32) -> (dim: u32)
    ensures
        dim == clamped(raw as int),
        dim >= 1,
{
    if raw < 1 {
        1
    } else {
        raw
    }
}

/// What a `SurfaceConfig` holds, as mathematical values.
pub struct ConfigModel {
    pub width: nat,
    pub height: nat,
    pub format: PixelFormat,
    pub present_mode: PresentMode,
    pub usage: u32,
}

impl ConfigModel {
    /// Both dimensions are at least one and fit the machine type that stores them.
    pub open spec fn well_formed(self) -> bool {
        &&& 1 <= self.width <= u32::MAX
        &&& 1 <= self.height <= u32::MAX
    }

    /// The configuration a surface starts with: the window's size, each
    /// dimension clamped, vertical sync, and frames used as render targets.
    pub open spec fn initial(width: u32, height: u32, format: PixelFormat) -> ConfigModel {
        ConfigModel {
            width: clamped(width as int) as nat,
            height: clamped(height as int) as nat,
            format,
            present_mode: PresentMode::Fifo,
            usage: USAGE_RENDER_ATTACHMENT,
        }
    }

    /// This configuration with a new requested size, each dimension clamped;
    /// format, presentation mode and usage are kept.
    pub open spec fn resized(self, width: u32, height: u32) -> ConfigModel {
        ConfigModel {
            width: clamped(width as int) as nat,
            height: clamped(height as int) as nat,
            ..self
        }
    }
}

/// Target size, pixel format, presentation mode and usage flags of the
/// presentable surface. Neither dimension is ever zero.
#[derive(Clone, Copy, Debug, PartialEq, Eq)]
pub struct SurfaceConfig {
    width: u32,
    height: u32,
    format: PixelFormat,
    present_mode: PresentMode,
    usage: u32,
}

impl View for SurfaceConfig {
    type V = ConfigModel;

    closed spec fn view(&self) -> ConfigModel {
        ConfigModel {
            width: self.width as nat,
            height: self.height as nat,
            format: self.format,
            present_mode: self.present_mode,
            usage: self.usage,
        }
    }
}

impl SurfaceConfig {
    #[verifier::type_invariant]
    spec fn nonzero_extent(self) -> bool {
        self.width >= 1 && self.height >= 1
    }

    /// Builds a configuration from a raw size, clamping each dimension.
    pub fn new(
        width: u32,
        height: u32,
        format: PixelFormat,
        present_mode: PresentMode,
        usage: u32,
    ) -> (config: SurfaceConfig)
        ensures
            config@ == (ConfigModel {
                width: clamped(width as int) as nat,
                height: clamped(height as int) as nat,
                format,
                present_mode,
                usage,
            }),
            config@.well_formed(),
    {
        SurfaceConfig {
            width: clamp_dimension(width),
            height: clamp_dimension(height),
            format,
            present_mode,
            usage,
        }
    }

    /// The configuration a surface starts with, from the window's current
    /// physical size and the format the surface prefers.
    pub fn initial(width: u32, height: u32, format: PixelFormat) -> (config: SurfaceConfig)
        ensures
            config@ == ConfigModel::initial(width, height, format),
            config@.well_formed(),
    {
        SurfaceConfig::new(width, height, format, PresentMode::Fifo, USAGE_RENDER_ATTACHMENT)
    }

    /// Overwrites the stored size with a requested one, each dimension
    /// clamped to at least one. Everything else is kept.
    pub fn resize(&mut self, width: u32, height: u32)
        ensures
            final(self)@ == old(self)@.resized(width, height),
            final(self)@.width == clamped(width as int),
            final(self)@.height == clamped(height as int),
            final(self)@.well_formed(),
    {
        *self = SurfaceConfig {
            width: clamp_dimension(width),
            height: clamp_dimension(height),
            format: self.format,
            present_mode: self.present_mode,
            usage: self.usage,
        };
    }

    pub fn width(&self) -> (width: u32)
        ensures
            width == self@.width,
            width >= 1,
    {
        proof {
            use_type_invariant(self);
        }
        self.width
    }

    pub fn height(&self) -> (height: u32)
        ensures
            height == self@.height,
            height >= 1,
    {
        proof {
            use_type_invariant(self);
        }
        self.height
    }

    pub fn format(&self) -> (format: PixelFormat)
        ensures
            format == self@.format,
    {
        self.format
    }

    pub fn present_mode(&self) -> (mode: PresentMode)
        ensures
            mode == self@.present_mode,
    {
        self.present_mode
    }

    pub fn usage(&self) -> (usage: u32)
        ensures
            usage == self@.usage,
    {
        self.usage
    }
}

/// Resizing to the same size twice leaves the configuration that resizing
/// once leaves.
pub proof fn lemma_resize_idempotent(config: ConfigModel, width: u32, height: u32)
    ensures
        config.resized(width, height).resized(width, height) == config.resized(width, height),
{
}

/// A resize stores exactly the requested size unless a dimension is zero,
/// which is stored as one; the result is well formed whatever was stored
/// before.
pub proof fn lemma_resized_extent(config: ConfigModel, width: u32, height: u32)
    ensures
        config.resized(width, height).width == (if width == 0 { 1 } else { width as int }),
        config.resized(width, height).height == (if height == 0 { 1 } else { height as int }),
        config.resized(width, height).well_formed(),
{
}

/// The last resize decides the size: what was requested before is gone.
pub proof fn lemma_resize_overwrites(
    config: ConfigModel,
    first: (u32, u32),
    second: (u32, u32),
)
    ensures
        config.resized(first.0, first.1).resized(second.0, second.1) == config.resized(
            second.0,
            second.1,
        ),
{
}

/// Two configurations with the same model are the same value, field by field.
pub proof fn lemma_model_determines_config(a: SurfaceConfig, b: SurfaceConfig)
    requires
        a@ == b@,
    ensures
        a == b,
{
}

} // verus!
