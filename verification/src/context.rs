use vstd::prelude::*;

verus! {

/// Why the scaffold could not be set up. Each of these ends the process.
#[derive(Clone, Copy, Debug, PartialEq, Eq, Hash, Structural)]
pub enum InitError {
    /// No physical adapter is compatible with the window's surface.
    AdapterUnavailable,
    /// The adapter refused to create a logical device.
    DeviceRequestFailed,
    /// The shading program is malformed.
    ShaderCompilationError,
    /// The color and depth formats cannot be rendered to together.
    UnsupportedTargetFormat,
}

/// How far the connection to the GPU has come.
#[derive(Clone, Copy, Debug, PartialEq, Eq, Hash, Structural)]
pub enum ContextStage {
    AwaitingAdapter,
    AwaitingDevice,
    /// Device and queue are there.
    Ready,
    Failed(InitError),
}

/// What the driver answered to the request that was last made of it.
#[derive(Clone, Copy, Debug, PartialEq, Eq, Hash, Structural)]
pub enum DriverReply {
    AdapterFound,
    AdapterMissing,
    DeviceGranted,
    DeviceRefused,
}

/// What to ask of the driver next.
#[derive(Clone, Copy, Debug, PartialEq, Eq, Hash, Structural)]
pub enum ContextRequest {
    RequestAdapter,
    RequestDevice,
    /// Nothing more: the context is ready, has failed, or the reply was not awaited.
    Nothing,
}

impl ContextStage {
    /// The stage that follows when the driver has answered. A reply that the
    /// stage does not await leaves it as it is.
    pub open spec fn after(self, reply: DriverReply) -> ContextStage {
        match (self, reply) {
            (ContextStage::AwaitingAdapter, DriverReply::AdapterFound) => ContextStage::AwaitingDevice,
            (ContextStage::AwaitingAdapter, DriverReply::AdapterMissing) => ContextStage::Failed(
                InitError::AdapterUnavailable,
            ),
            (ContextStage::AwaitingDevice, DriverReply::DeviceGranted) => ContextStage::Ready,
            (ContextStage::AwaitingDevice, DriverReply::DeviceRefused) => ContextStage::Failed(
                InitError::DeviceRequestFailed,
            ),
            _ => self,
        }
    }

    /// The request that a reply leads to.
    pub open spec fn request_after(self, reply: DriverReply) -> ContextRequest {
        match (self, reply) {
            (ContextStage::AwaitingAdapter, DriverReply::AdapterFound) => ContextRequest::RequestDevice,
            _ => ContextRequest::Nothing,
        }
    }

    /// The stage after a whole sequence of replies.
    pub open spec fn after_all(self, replies: Seq<DriverReply>) -> ContextStage
        decreases replies.len(),
    {
        if replies.len() == 0 {
            self
        } else {
            self.after_all(replies.drop_last()).after(replies.last())
        }
    }
}

/// The logical connection to the GPU: a device and its queue, obtained from an
/// adapter in two requests.
pub struct GraphicsContext {
    stage: ContextStage,
}

impl GraphicsContext {
    pub closed spec fn progress(&self) -> ContextStage {
        self.stage
    }

    /// Starts a connection: the first thing to ask the driver for is an adapter.
    pub fn create() -> (started: (GraphicsContext, ContextRequest))
        ensures
            started.0.progress() == ContextStage::AwaitingAdapter,
            started.1 == ContextRequest::RequestAdapter,
    {
        (GraphicsContext { stage: ContextStage::AwaitingAdapter }, ContextRequest::RequestAdapter)
    }

    /// Takes the driver's answer and says what to ask next.
    pub fn advance(&mut self, reply: DriverReply) -> (request: ContextRequest)
        ensures
            final(self).progress() == old(self).progress().after(reply),
            request == old(self).progress().request_after(reply),
    {
        match (self.stage, reply) {
            (ContextStage::AwaitingAdapter, DriverReply::AdapterFound) => {
                self.stage = ContextStage::AwaitingDevice;
                ContextRequest::RequestDevice
            },
            (ContextStage::AwaitingAdapter, DriverReply::AdapterMissing) => {
                self.stage = ContextStage::Failed(InitError::AdapterUnavailable);
                ContextRequest::Nothing
            },
            (ContextStage::AwaitingDevice, DriverReply::DeviceGranted) => {
                self.stage = ContextStage::Ready;
                ContextRequest::Nothing
            },
            (ContextStage::AwaitingDevice, DriverReply::DeviceRefused) => {
                self.stage = ContextStage::Failed(InitError::DeviceRequestFailed);
                ContextRequest::Nothing
            },
            _ => ContextRequest::Nothing,
        }
    }

    pub fn stage(&self) -> (stage: ContextStage)
        ensures
            stage == self.progress(),
    {
        self.stage
    }

    /// Whether device and queue are there.
    pub fn is_ready(&self) -> (out: bool)
        ensures
            out == (self.progress() is Ready),
    {
        match self.stage {
            ContextStage::Ready => true,
            _ => false,
        }
    }

    /// The error that ended the attempt, if it has failed.
    pub fn error(&self) -> (error: Option<InitError>)
        ensures
            error == match self.progress() {
                ContextStage::Failed(e) => Some(e),
                _ => None,
            },
    {
        match self.stage {
            ContextStage::Failed(e) => Some(e),
            _ => None,
        }
    }
}

/// A context that is ready or has failed stays so, whatever the driver says next.
pub proof fn law_context_settles(stage: ContextStage, replies: Seq<DriverReply>)
    requires
        stage is Ready || stage is Failed,
    ensures
        stage.after_all(replies) == stage,
    decreases replies.len(),
{
    if replies.len() > 0 {
        law_context_settles(stage, replies.drop_last());
    }
}

/// A new context becomes ready on exactly one pair of answers: an adapter was
/// found and it granted a device. It fails with `AdapterUnavailable` when no
/// adapter was found, and with `DeviceRequestFailed` when the adapter refused.
pub proof fn law_context_outcomes(first: DriverReply, second: DriverReply)
    ensures
        ContextStage::AwaitingAdapter.after(first).after(second) is Ready <==> first
            == DriverReply::AdapterFound && second == DriverReply::DeviceGranted,
        ContextStage::AwaitingAdapter.after(first) == ContextStage::Failed(
            InitError::AdapterUnavailable,
        ) <==> first == DriverReply::AdapterMissing,
        ContextStage::AwaitingAdapter.after(first).after(second) == ContextStage::Failed(
            InitError::DeviceRequestFailed,
        ) <==> first == DriverReply::AdapterFound && second == DriverReply::DeviceRefused,
{
}

} // verus!
