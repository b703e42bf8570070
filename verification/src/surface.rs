use vstd::prelude::*;
use crate::command::Command;
use crate::format::TextureFormat;

verus! {

/// Frames that the presentation engine may queue ahead of the display.
pub const MAX_FRAME_LATENCY: u32 = 2;

/// The drawable extent of a window's surface, in physical pixels.
#[derive(Clone, Copy, Debug, PartialEq, Eq, Hash, Structural)]
pub struct SurfaceSize {
    pub width: u32,
    pub height: u32,
}

impl SurfaceSize {
    /// A surface can only be configured with a size whose sides are both positive.
    pub open spec fn is_drawable(self) -> bool {
        self.width > 0 && self.height > 0
    }

    pub fn new(width: u32, height: u32) -> (size: SurfaceSize)
        ensures
            size == (SurfaceSize { width, height }),
    {
        SurfaceSize { width, height }
    }

    pub fn drawable(&self) -> (out: bool)
        ensures
            out == self.is_drawable(),
    {
        self.width > 0 && self.height > 0
    }
}

/// What a texture is allowed to be used for.
#[derive(Clone, Copy, Debug, PartialEq, Eq, Hash, Structural)]
pub enum TextureUsage {
    CopySrc,
    CopyDst,
    TextureBinding,
    StorageBinding,
    RenderAttachment,
}

/// How presented frames are paced against the display.
#[derive(Clone, Copy, Debug, PartialEq, Eq, Hash, Structural)]
pub enum PresentMode {
    AutoVsync,
    AutoNoVsync,
    Fifo,
    FifoRelaxed,
    Immediate,
    Mailbox,
}

/// How the compositor reads the alpha channel of presented frames.
#[derive(Clone, Copy, Debug, PartialEq, Eq, Hash, Structural)]
pub enum CompositeAlphaMode {
    Auto,
    Opaque,
    PreMultiplied,
    PostMultiplied,
    Inherit,
}

/// Everything a surface is told when it is configured.
#[derive(Clone, Copy, Debug, PartialEq, Eq, Hash, Structural)]
pub struct SurfaceConfiguration {
    pub usage: TextureUsage,
    pub format: TextureFormat,
    /// The one extra format that views of the surface's images may have.
    pub view_format: TextureFormat,
    pub alpha_mode: CompositeAlphaMode,
    pub width: u32,
    pub height: u32,
    pub desired_maximum_frame_latency: u32,
    pub present_mode: PresentMode,
}

impl SurfaceConfiguration {
    /// The configuration that the scaffold applies for a format and a size.
    pub open spec fn of(format: TextureFormat, size: SurfaceSize) -> SurfaceConfiguration {
        SurfaceConfiguration {
            usage: TextureUsage::RenderAttachment,
            format,
            view_format: format.srgb_suffixed(),
            alpha_mode: CompositeAlphaMode::PreMultiplied,
            width: size.width,
            height: size.height,
            desired_maximum_frame_latency: MAX_FRAME_LATENCY,
            present_mode: PresentMode::AutoVsync,
        }
    }

    pub open spec fn size(self) -> SurfaceSize {
        SurfaceSize { width: self.width, height: self.height }
    }

    pub fn new(format: TextureFormat, size: SurfaceSize) -> (configuration: SurfaceConfiguration)
        ensures
            configuration == Self::of(format, size),
    {
        SurfaceConfiguration {
            usage: TextureUsage::RenderAttachment,
            format,
            view_format: format.add_srgb_suffix(),
            alpha_mode: CompositeAlphaMode::PreMultiplied,
            width: size.width,
            height: size.height,
            desired_maximum_frame_latency: MAX_FRAME_LATENCY,
            present_mode: PresentMode::AutoVsync,
        }
    }

    pub fn extent(&self) -> (size: SurfaceSize)
        ensures
            size == self.size(),
    {
        SurfaceSize { width: self.width, height: self.height }
    }
}

/// The depth and stencil texture that belongs to one configuration of the surface.
#[derive(Clone, Copy, Debug, PartialEq, Eq, Hash, Structural)]
pub struct DepthAttachment {
    pub size: SurfaceSize,
    pub format: TextureFormat,
    pub usage: TextureUsage,
    pub mip_level_count: u32,
    pub sample_count: u32,
    /// Which configuration of the surface the texture was created for.
    pub generation: u64,
}

impl DepthAttachment {
    pub open spec fn of(size: SurfaceSize, format: TextureFormat, generation: u64) -> DepthAttachment {
        DepthAttachment {
            size,
            format,
            usage: TextureUsage::RenderAttachment,
            mip_level_count: 1,
            sample_count: 1,
            generation,
        }
    }

    pub fn new(size: SurfaceSize, format: TextureFormat, generation: u64) -> (depth: DepthAttachment)
        ensures
            depth == Self::of(size, format, generation),
    {
        DepthAttachment {
            size,
            format,
            usage: TextureUsage::RenderAttachment,
            mip_level_count: 1,
            sample_count: 1,
            generation,
        }
    }
}

/// What the driver answered when it was asked for the next presentable image.
#[derive(Clone, Copy, Debug, PartialEq, Eq, Hash, Structural)]
pub enum AcquireStatus {
    /// An image was handed out.
    Good,
    /// An image was handed out, though the surface no longer matches the window exactly.
    Suboptimal,
    Timeout,
    Outdated,
    Lost,
    OutOfMemory,
    Unknown,
}

impl AcquireStatus {
    pub open spec fn image_available(self) -> bool {
        self == AcquireStatus::Good || self == AcquireStatus::Suboptimal
    }
}

/// Why no frame could be acquired.
#[derive(Clone, Copy, Debug, PartialEq, Eq, Hash, Structural)]
pub enum SurfaceError {
    /// The surface must be configured anew.
    SurfaceLost,
    /// The surface no longer fits its window: resize, then retry.
    SurfaceOutdated,
    /// No image became available in time.
    Timeout,
    OutOfMemory,
    Unknown,
}

impl SurfaceError {
    /// Errors that configuring the surface again and retrying on a later redraw cures.
    pub open spec fn is_recoverable(self) -> bool {
        self == SurfaceError::SurfaceLost || self == SurfaceError::SurfaceOutdated || self
            == SurfaceError::Timeout
    }

    pub fn recoverable(&self) -> (out: bool)
        ensures
            out == self.is_recoverable(),
    {
        match self {
            SurfaceError::SurfaceLost => true,
            SurfaceError::SurfaceOutdated => true,
            SurfaceError::Timeout => true,
            _ => false,
        }
    }
}

/// One acquired presentable image and the view onto it, for the duration of one render call.
#[derive(Clone, Copy, Debug, PartialEq, Eq, Hash, Structural)]
pub struct Frame {
    pub size: SurfaceSize,
    pub format: TextureFormat,
    pub view_format: TextureFormat,
    pub suboptimal: bool,
    /// The configuration of the surface that the image was acquired under.
    pub generation: u64,
}

/// Where a surface stands in its life.
#[derive(Clone, Copy, Debug, PartialEq, Eq, Hash, Structural)]
pub enum SurfaceStage {
    Unconfigured,
    Configured,
    /// The window is gone; the surface can no longer be used.
    Released,
}

/// The generation that follows `generation`. The counter wraps, so that two
/// successive generations always differ.
pub open spec fn next_generation(generation: u64) -> u64 {
    if generation == u64::MAX {
        0
    } else {
        (generation + 1) as u64
    }
}

/// The mathematical state of a [`SurfaceManager`].
pub struct SurfaceModel {
    pub stage: SurfaceStage,
    /// The formats that the surface reported as supported, in its order of preference.
    pub supported: Seq<TextureFormat>,
    pub depth_format: TextureFormat,
    pub configuration: Option<SurfaceConfiguration>,
    pub depth: Option<DepthAttachment>,
    /// How often the surface was configured, modulo 2^64.
    pub generation: u64,
}

impl SurfaceModel {
    /// A surface that was created for a window and never configured.
    pub open spec fn fresh(supported: Seq<TextureFormat>, depth_format: TextureFormat) -> SurfaceModel {
        SurfaceModel {
            stage: SurfaceStage::Unconfigured,
            supported,
            depth_format,
            configuration: None,
            depth: None,
            generation: 0,
        }
    }

    /// The invariant of a surface: it has a configuration and a depth attachment
    /// exactly while it is configured, the configuration has a drawable size and a
    /// supported format, and the depth attachment has the size and the generation of
    /// the configuration.
    pub open spec fn wf(self) -> bool {
        &&& (self.stage is Configured) == (self.configuration is Some)
        &&& (self.stage is Configured) == (self.depth is Some)
        &&& self.configuration matches Some(configuration) ==> {
            &&& configuration == SurfaceConfiguration::of(configuration.format, configuration.size())
            &&& configuration.size().is_drawable()
            &&& self.supported.contains(configuration.format)
            &&& self.depth == Some(
                DepthAttachment::of(configuration.size(), self.depth_format, self.generation),
            )
        }
    }

    /// The size of the current configuration.
    pub open spec fn size(self) -> SurfaceSize
        recommends
            self.stage is Configured,
    {
        self.configuration->0.size()
    }

    /// The format of the current configuration.
    pub open spec fn format(self) -> TextureFormat
        recommends
            self.stage is Configured,
    {
        self.configuration->0.format
    }

    /// The state after `configure`.
    pub open spec fn configured(self, size: SurfaceSize, format: TextureFormat) -> SurfaceModel {
        SurfaceModel {
            stage: SurfaceStage::Configured,
            configuration: Some(SurfaceConfiguration::of(format, size)),
            depth: Some(
                DepthAttachment::of(size, self.depth_format, next_generation(self.generation)),
            ),
            generation: next_generation(self.generation),
            ..self
        }
    }

    /// What `configure` asks of the GPU: the new configuration, then a new depth texture.
    pub open spec fn configure_commands(self, size: SurfaceSize, format: TextureFormat) -> Seq<
        Command,
    > {
        seq![
            Command::ConfigureSurface(SurfaceConfiguration::of(format, size)),
            Command::CreateDepthAttachment(
                DepthAttachment::of(size, self.depth_format, next_generation(self.generation)),
            ),
        ]
    }

    /// The state after `resize`.
    pub open spec fn resized(self, new_size: SurfaceSize) -> SurfaceModel
        recommends
            self.stage is Configured,
    {
        if new_size == self.size() {
            self
        } else {
            self.configured(new_size, self.format())
        }
    }

    /// What `resize` asks of the GPU.
    pub open spec fn resize_commands(self, new_size: SurfaceSize) -> Seq<Command>
        recommends
            self.stage is Configured,
    {
        if new_size == self.size() {
            Seq::empty()
        } else {
            self.configure_commands(new_size, self.format())
        }
    }

    /// The frame that an available image becomes.
    pub open spec fn frame(self, suboptimal: bool) -> Frame
        recommends
            self.stage is Configured,
    {
        Frame {
            size: self.size(),
            format: self.format(),
            view_format: self.configuration->0.view_format,
            suboptimal,
            generation: self.generation,
        }
    }

    /// What `acquire_frame` returns for each answer of the driver.
    pub open spec fn acquired(self, status: AcquireStatus) -> Result<Frame, SurfaceError>
        recommends
            self.stage is Configured,
    {
        match status {
            AcquireStatus::Good => Ok(self.frame(false)),
            AcquireStatus::Suboptimal => Ok(self.frame(true)),
            AcquireStatus::Timeout => Err(SurfaceError::Timeout),
            AcquireStatus::Outdated => Err(SurfaceError::SurfaceOutdated),
            AcquireStatus::Lost => Err(SurfaceError::SurfaceLost),
            AcquireStatus::OutOfMemory => Err(SurfaceError::OutOfMemory),
            AcquireStatus::Unknown => Err(SurfaceError::Unknown),
        }
    }

    /// The state after `release`.
    pub open spec fn released(self) -> SurfaceModel {
        SurfaceModel { stage: SurfaceStage::Released, configuration: None, depth: None, ..self }
    }
}

/// The presentable surface of one window together with its depth attachment.
///
/// The manager keeps the two in step: whenever the surface is configured, the
/// depth attachment is replaced by one of the same size, under a new generation.
pub struct SurfaceManager {
    supported: Vec<TextureFormat>,
    depth_format: TextureFormat,
    current: Lifecycle,
}

/// The part of a manager that changes, replaced as a whole at each transition.
#[derive(Clone, Copy)]
struct Lifecycle {
    stage: SurfaceStage,
    configuration: Option<SurfaceConfiguration>,
    depth: Option<DepthAttachment>,
    generation: u64,
}

impl View for SurfaceManager {
    type V = SurfaceModel;

    closed spec fn view(&self) -> SurfaceModel {
        SurfaceModel {
            stage: self.current.stage,
            supported: self.supported@,
            depth_format: self.depth_format,
            configuration: self.current.configuration,
            depth: self.current.depth,
            generation: self.current.generation,
        }
    }
}

impl SurfaceManager {
    #[verifier::type_invariant]
    closed spec fn inv(self) -> bool {
        self@.wf()
    }

    /// A manager for a surface that reports `supported` and has not been configured.
    pub fn new(supported: Vec<TextureFormat>, depth_format: TextureFormat) -> (manager:
        SurfaceManager)
        ensures
            manager@ == SurfaceModel::fresh(supported@, depth_format),
            manager@.wf(),
    {
        SurfaceManager {
            supported,
            depth_format,
            current: Lifecycle {
                stage: SurfaceStage::Unconfigured,
                configuration: None,
                depth: None,
                generation: 0,
            },
        }
    }

    pub fn stage(&self) -> (stage: SurfaceStage)
        ensures
            stage == self@.stage,
            self@.wf(),
    {
        proof {
            use_type_invariant(self);
        }
        self.current.stage
    }

    pub fn is_configured(&self) -> (out: bool)
        ensures
            out == (self@.stage is Configured),
            self@.wf(),
    {
        proof {
            use_type_invariant(self);
        }
        match self.current.stage {
            SurfaceStage::Configured => true,
            _ => false,
        }
    }

    pub fn configuration(&self) -> (configuration: Option<SurfaceConfiguration>)
        ensures
            configuration == self@.configuration,
            self@.wf(),
    {
        proof {
            use_type_invariant(self);
        }
        self.current.configuration
    }

    pub fn depth_attachment(&self) -> (depth: Option<DepthAttachment>)
        ensures
            depth == self@.depth,
            self@.wf(),
    {
        proof {
            use_type_invariant(self);
        }
        self.current.depth
    }

    pub fn depth_format(&self) -> (format: TextureFormat)
        ensures
            format == self@.depth_format,
    {
        self.depth_format
    }

    pub fn generation(&self) -> (generation: u64)
        ensures
            generation == self@.generation,
    {
        self.current.generation
    }

    /// Whether the surface reported `format` as supported.
    pub fn supports(&self, format: TextureFormat) -> (out: bool)
        ensures
            out == self@.supported.contains(format),
    {
        let mut i: usize = 0;
        while i < self.supported.len()
            invariant
                i <= self.supported@.len(),
                forall|j: int| 0 <= j < i ==> self.supported@[j] != format,
            decreases self.supported@.len() - i,
        {
            if self.supported[i] == format {
                return true;
            }
            i = i + 1;
        }
        false
    }

    /// Applies a configuration of `size` and `format` to the surface and replaces
    /// the depth attachment by one of the same size.
    pub fn configure(&mut self, size: SurfaceSize, format: TextureFormat) -> (commands: Vec<
        Command,
    >)
        requires
            !(old(self)@.stage is Released),
            size.is_drawable(),
            old(self)@.supported.contains(format),
        ensures
            final(self)@ == old(self)@.configured(size, format),
            commands@ == old(self)@.configure_commands(size, format),
            final(self)@.wf(),
    {
        let generation: u64 = if self.current.generation == u64::MAX {
            0
        } else {
            self.current.generation + 1
        };
        let configuration = SurfaceConfiguration::new(format, size);
        let depth = DepthAttachment::new(size, self.depth_format, generation);
        self.current = Lifecycle {
            stage: SurfaceStage::Configured,
            configuration: Some(configuration),
            depth: Some(depth),
            generation,
        };
        let mut commands: Vec<Command> = Vec::new();
        commands.push(Command::ConfigureSurface(configuration));
        commands.push(Command::CreateDepthAttachment(depth));
        assert(commands@ =~= old(self)@.configure_commands(size, format));
        commands
    }

    /// Follows the window to `new_size`: nothing happens if the surface already has
    /// that size, else the surface is configured anew with its current format.
    pub fn resize(&mut self, new_size: SurfaceSize) -> (commands: Vec<Command>)
        requires
            old(self)@.stage is Configured,
            new_size.is_drawable(),
        ensures
            final(self)@ == old(self)@.resized(new_size),
            commands@ == old(self)@.resize_commands(new_size),
            final(self)@.wf(),
    {
        proof {
            use_type_invariant(&*self);
        }
        let current = self.current.configuration.unwrap();
        if current.width == new_size.width && current.height == new_size.height {
            Vec::new()
        } else {
            self.configure(new_size, current.format)
        }
    }

    /// Configures the surface anew at its current size and format, as after a
    /// lost or outdated surface.
    pub fn reconfigure(&mut self) -> (commands: Vec<Command>)
        requires
            old(self)@.stage is Configured,
        ensures
            final(self)@ == old(self)@.configured(old(self)@.size(), old(self)@.format()),
            commands@ == old(self)@.configure_commands(old(self)@.size(), old(self)@.format()),
            final(self)@.wf(),
    {
        proof {
            use_type_invariant(&*self);
        }
        let current = self.current.configuration.unwrap();
        self.configure(current.extent(), current.format)
    }

    /// Turns the driver's answer to a request for the next image into a frame or an error.
    pub fn acquire_frame(&self, status: AcquireStatus) -> (frame: Result<Frame, SurfaceError>)
        requires
            self@.stage is Configured,
        ensures
            frame == self@.acquired(status),
    {
        proof {
            use_type_invariant(self);
        }
        let current = self.current.configuration.unwrap();
        let image = Frame {
            size: current.extent(),
            format: current.format,
            view_format: current.view_format,
            suboptimal: false,
            generation: self.current.generation,
        };
        match status {
            AcquireStatus::Good => Ok(image),
            AcquireStatus::Suboptimal => Ok(Frame { suboptimal: true, ..image }),
            AcquireStatus::Timeout => Err(SurfaceError::Timeout),
            AcquireStatus::Outdated => Err(SurfaceError::SurfaceOutdated),
            AcquireStatus::Lost => Err(SurfaceError::SurfaceLost),
            AcquireStatus::OutOfMemory => Err(SurfaceError::OutOfMemory),
            AcquireStatus::Unknown => Err(SurfaceError::Unknown),
        }
    }

    /// Gives the surface up when its window is destroyed.
    pub fn release(&mut self)
        ensures
            final(self)@ == old(self)@.released(),
            final(self)@.wf(),
    {
        self.current = Lifecycle {
            stage: SurfaceStage::Released,
            configuration: None,
            depth: None,
            generation: self.current.generation,
        };
    }
}

/// Every transition keeps the invariant of the surface, and each new
/// configuration gets a generation that differs from the one before.
pub proof fn law_transitions_keep_invariant(
    model: SurfaceModel,
    size: SurfaceSize,
    format: TextureFormat,
)
    requires
        model.wf(),
        size.is_drawable(),
    ensures
        model.supported.contains(format) ==> model.configured(size, format).wf(),
        model.stage is Configured ==> model.resized(size).wf(),
        model.released().wf(),
        model.configured(size, format).generation != model.generation,
        SurfaceModel::fresh(model.supported, model.depth_format).wf(),
{
}

/// Once a surface is configured with a drawable size, the next image that the
/// driver hands out becomes a frame of exactly that size, and acquiring it
/// leaves the configuration and its generation as they are.
pub proof fn law_configure_then_acquire(
    model: SurfaceModel,
    size: SurfaceSize,
    format: TextureFormat,
    status: AcquireStatus,
)
    requires
        model.wf(),
        !(model.stage is Released),
        size.is_drawable(),
        model.supported.contains(format),
        status.image_available(),
    ensures
        model.configured(size, format).acquired(status) is Ok,
        model.configured(size, format).acquired(status)->Ok_0.size == size,
        model.configured(size, format).acquired(status)->Ok_0.format == format,
        model.configured(size, format).acquired(status)->Ok_0.view_format
            == format.srgb_suffixed(),
        model.configured(size, format).acquired(status)->Ok_0.generation == model.configured(
            size,
            format,
        ).generation,
{
}

/// After a resize to a size that differs from the current one, the depth
/// attachment is a new one of exactly the new size.
pub proof fn law_resize_recreates_depth(model: SurfaceModel, new_size: SurfaceSize)
    requires
        model.wf(),
        model.stage is Configured,
        new_size.is_drawable(),
        new_size != model.size(),
    ensures
        model.resized(new_size).wf(),
        model.resized(new_size).depth is Some,
        model.resized(new_size).depth->0.size == new_size,
        model.resized(new_size).size() == new_size,
        model.resized(new_size).depth->0.generation != model.depth->0.generation,
{
}

/// A resize to the current size changes nothing: the depth attachment and its
/// generation stay, and nothing is asked of the GPU.
pub proof fn law_resize_same_size_is_noop(model: SurfaceModel, new_size: SurfaceSize)
    requires
        model.wf(),
        model.stage is Configured,
        new_size == model.size(),
    ensures
        model.resized(new_size) == model,
        model.resize_commands(new_size) == Seq::<Command>::empty(),
{
}

} // verus!
