use vstd::prelude::*;

verus! {

/// The pixel layouts that the scaffold can present to or use as a depth buffer.
#[derive(Clone, Copy, Debug, PartialEq, Eq, Hash, Structural)]
pub enum TextureFormat {
    Rgba8Unorm,
    Rgba8UnormSrgb,
    Bgra8Unorm,
    Bgra8UnormSrgb,
    Rgb10a2Unorm,
    Rgba16Float,
    Depth32Float,
    Depth24Plus,
    Depth24PlusStencil8,
}

impl TextureFormat {
    /// The format with an `Srgb` suffix where such a twin exists, else the format itself.
    pub open spec fn srgb_suffixed(self) -> TextureFormat {
        match self {
            TextureFormat::Rgba8Unorm => TextureFormat::Rgba8UnormSrgb,
            TextureFormat::Bgra8Unorm => TextureFormat::Bgra8UnormSrgb,
            _ => self,
        }
    }

    /// Whether the format stores depth values.
    pub open spec fn carries_depth(self) -> bool {
        self == TextureFormat::Depth32Float || self == TextureFormat::Depth24Plus || self
            == TextureFormat::Depth24PlusStencil8
    }

    /// Whether the format stores color values.
    pub open spec fn carries_color(self) -> bool {
        !self.carries_depth()
    }

    /// Adds an `Srgb` suffix to the format, if the format supports it.
    pub fn add_srgb_suffix(&self) -> (out: TextureFormat)
        ensures
            out == self.srgb_suffixed(),
    {
        match self {
            TextureFormat::Rgba8Unorm => TextureFormat::Rgba8UnormSrgb,
            TextureFormat::Bgra8Unorm => TextureFormat::Bgra8UnormSrgb,
            _ => *self,
        }
    }

    /// Whether the format can back a depth attachment.
    pub fn is_depth(&self) -> (out: bool)
        ensures
            out == self.carries_depth(),
    {
        match self {
            TextureFormat::Depth32Float => true,
            TextureFormat::Depth24Plus => true,
            TextureFormat::Depth24PlusStencil8 => true,
            _ => false,
        }
    }

    /// Whether the format can back a color target.
    pub fn is_color(&self) -> (out: bool)
        ensures
            out == self.carries_color(),
    {
        !self.is_depth()
    }
}

} // verus!
