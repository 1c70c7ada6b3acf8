//! What passes between the session and the rendering backend: the operations
//! that the host carries out on the backend, and what the backend answers.
use vstd::prelude::*;

verus! {

/// A capability tier of a rendering device.
#[derive(Clone, Copy, PartialEq, Eq, Debug, Structural)]
pub enum FeatureLevel {
    Level9_1,
    Level9_2,
    Level9_3,
    Level10_0,
    Level10_1,
    Level11_0,
    Level11_1,
}

impl FeatureLevel {
    /// The place of a tier among the tiers: a higher tier has a higher rank.
    pub open spec fn rank(self) -> nat {
        match self {
            FeatureLevel::Level9_1 => 0,
            FeatureLevel::Level9_2 => 1,
            FeatureLevel::Level9_3 => 2,
            FeatureLevel::Level10_0 => 3,
            FeatureLevel::Level10_1 => 4,
            FeatureLevel::Level11_0 => 5,
            FeatureLevel::Level11_1 => 6,
        }
    }

    /// The tiers in the order in which a device is asked for them.
    pub open spec fn preference_order() -> Seq<FeatureLevel> {
        seq![
            FeatureLevel::Level11_1,
            FeatureLevel::Level11_0,
            FeatureLevel::Level10_1,
            FeatureLevel::Level10_0,
            FeatureLevel::Level9_3,
            FeatureLevel::Level9_2,
            FeatureLevel::Level9_1,
        ]
    }

    /// The tiers to negotiate a device from, the most capable first and the
    /// least capable, which every session needs, last.
    pub fn preference() -> (levels: Vec<FeatureLevel>)
        ensures
            levels@ == FeatureLevel::preference_order(),
    {
        let mut levels: Vec<FeatureLevel> = Vec::new();
        levels.push(FeatureLevel::Level11_1);
        levels.push(FeatureLevel::Level11_0);
        levels.push(FeatureLevel::Level10_1);
        levels.push(FeatureLevel::Level10_0);
        levels.push(FeatureLevel::Level9_3);
        levels.push(FeatureLevel::Level9_2);
        levels.push(FeatureLevel::Level9_1);
        assert(levels@ =~= FeatureLevel::preference_order());
        levels
    }

    /// The order of preference runs strictly downwards through the tiers and
    /// leaves none out.
    pub proof fn lemma_preference_descends()
        ensures
            forall|i: int, j: int|
                0 <= i < j < FeatureLevel::preference_order().len()
                    ==> FeatureLevel::preference_order()[i].rank()
                    > FeatureLevel::preference_order()[j].rank(),
            forall|level: FeatureLevel| #[trigger]
                FeatureLevel::preference_order().contains(level),
    {
        let order = FeatureLevel::preference_order();
        assert forall|level: FeatureLevel| #[trigger] order.contains(level) by {
            assert(order[6 - level.rank()] == level);
        }
    }
}

/// The layout of the pixels of a surface or of a depth target.
#[derive(Clone, Copy, PartialEq, Eq, Debug, Structural)]
pub enum PixelFormat {
    /// Four 8-bit channels, blue first, each read as a fraction of one.
    B8G8R8A8Unorm,
    /// 24 bits of depth read as a fraction of one, and 8 bits of stencil.
    D24UnormS8Uint,
}

/// Why the backend could not do what it was asked.
#[derive(Clone, Copy, PartialEq, Eq, Debug, Structural)]
pub enum BackendError {
    /// The device was taken away.
    DeviceRemoved,
    /// The device was reset.
    DeviceReset,
    /// Anything else.
    Other,
}

impl BackendError {
    /// Whether the error means that the device and all that was made with it
    /// are no longer valid.
    pub open spec fn is_device_lost(self) -> bool {
        self == BackendError::DeviceRemoved || self == BackendError::DeviceReset
    }

    /// Whether the device and all that was made with it are no longer valid.
    pub fn device_lost(&self) -> (lost: bool)
        ensures
            lost == self.is_device_lost(),
    {
        match self {
            BackendError::DeviceRemoved => true,
            BackendError::DeviceReset => true,
            BackendError::Other => false,
        }
    }
}

/// What the backend answered to the operations it was last given.
#[derive(Clone, Copy, PartialEq, Eq, Debug, Structural)]
pub enum BackendEvent {
    /// A device and its immediate context were made, at this tier.
    DeviceCreated(FeatureLevel),
    /// The operations were carried out.
    Completed,
    /// One of the operations failed; those after it were not attempted.
    Failed(BackendError),
}

/// Whether a status code of the backend reports a failure: the negative ones
/// do.
pub fn failed(hr: i32) -> (failure: bool)
    ensures
        failure == (hr < 0),
{
    hr < 0
}

/// What a status code of the backend means, given the two codes by which the
/// backend reports a removed and a reset device.
pub open spec fn event_of_status(hr: i32, device_removed: i32, device_reset: i32) -> BackendEvent {
    if hr == device_removed {
        BackendEvent::Failed(BackendError::DeviceRemoved)
    } else if hr == device_reset {
        BackendEvent::Failed(BackendError::DeviceReset)
    } else if hr < 0 {
        BackendEvent::Failed(BackendError::Other)
    } else {
        BackendEvent::Completed
    }
}

impl BackendEvent {
    /// Reads a status code of the backend: the two codes for a lost device
    /// are told apart from every other failure, and a code that is no failure
    /// means that the operations were carried out.
    pub fn from_status(hr: i32, device_removed: i32, device_reset: i32) -> (event: BackendEvent)
        ensures
            event == event_of_status(hr, device_removed, device_reset),
    {
        if hr == device_removed {
            BackendEvent::Failed(BackendError::DeviceRemoved)
        } else if hr == device_reset {
            BackendEvent::Failed(BackendError::DeviceReset)
        } else if failed(hr) {
            BackendEvent::Failed(BackendError::Other)
        } else {
            BackendEvent::Completed
        }
    }
}

/// One operation on the backend. The host carries out the operations of a
/// plan in order, stops at the first that fails, and reports what came of the
/// plan as a [`BackendEvent`].
#[derive(Clone, Copy, PartialEq, Eq, Debug, Structural)]
pub enum BackendOp {
    /// Make a hardware device and its immediate context on the default
    /// adapter, at the first tier of [`FeatureLevel::preference`] that the
    /// backend accepts, with the backend's debug instrumentation if asked for.
    CreateDevice { debug_layer: bool },
    /// Bind no render targets.
    UnbindTargets,
    /// Let go of the color view and of the depth view.
    ReleaseViews,
    /// Have the backend finish the work it holds back.
    Flush,
    /// Resize the buffers of the surface that exists.
    ResizeSurface { buffer_count: u32, width: u32, height: u32, format: PixelFormat },
    /// Make a surface for the window: not multisampled, used as render
    /// target.
    CreateSurface {
        buffer_count: u32,
        width: u32,
        height: u32,
        format: PixelFormat,
        windowed: bool,
    },
    /// Make the color view of the surface's back buffer, and a depth target
    /// of this size and format with its view.
    CreateViews { width: u32, height: u32, depth_format: PixelFormat },
    /// Let go of both views, the surface, the context and the device.
    ReleaseAll,
    /// Fill the color target with the background color.
    ClearColor,
    /// Set the depth target to the farthest depth and the stencil to zero.
    ClearDepthStencil,
    /// Bind the color view and the depth view as render targets.
    BindTargets,
    /// Set the viewport to this size, at the origin, over the whole depth
    /// range.
    SetViewport { width: u32, height: u32 },
    /// Let the application draw its scene.
    Draw,
    /// Show the back buffer, waiting for this many vertical syncs.
    Present { sync_interval: u32 },
}

} // verus!
