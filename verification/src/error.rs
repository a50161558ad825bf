//! Error taxonomy of the backend's bootstrap and presentation lifecycle.

use vstd::prelude::*;

verus! {

/// Everything that can go wrong while bringing the backend up or while
/// (re)creating the presentation chain.
///
/// The taxonomy follows the lifecycle steps: entry/instance/surface
/// creation (`Bootstrap`), device selection (`NoSuitableDevice`), queue
/// resolution (`QueueResolution`), logical-device creation
/// (`DeviceCreation`), and swapchain queries or creation (`Swapchain`,
/// with `SurfaceLost` as the one unrecoverable swapchain failure).
#[derive(Clone, Copy, Debug, PartialEq, Eq, Structural)]
pub enum BackendError {
    /// The entry point could not be loaded, or the platform rejected the
    /// instance or surface description. An environment problem; not
    /// retriable.
    Bootstrap,
    /// No discrete GPU is present, so the selection policy has nothing to
    /// pick. Not retriable.
    NoSuitableDevice,
    /// Some required queue family (graphics, dedicated transfer, or
    /// presentation) is unresolvable on the chosen device. Not retriable.
    QueueResolution,
    /// The driver rejected the logical-device parameters. Not retriable.
    DeviceCreation,
    /// A surface query or swapchain/image-view creation failed. Retriable
    /// by re-running swapchain recreation.
    Swapchain,
    /// The surface itself is gone; recreation cannot help. Terminal.
    SurfaceLost,
}

impl BackendError {
    /// Whether the caller should respond by re-invoking swapchain
    /// recreation rather than aborting: exactly the recoverable
    /// swapchain failure.
    pub fn is_retriable(&self) -> (r: bool)
        ensures
            r == (*self is Swapchain),
    {
        match self {
            BackendError::Swapchain => true,
            _ => false,
        }
    }

    /// A short description of the failure, in place of `Display`.
    pub fn describe(&self) -> (r: &'static str)
    {
        match self {
            BackendError::Bootstrap => "entry, instance, or surface creation failed",
            BackendError::NoSuitableDevice => "no discrete GPU is available",
            BackendError::QueueResolution => "missing required queue families",
            BackendError::DeviceCreation => "logical device creation failed",
            BackendError::Swapchain => "swapchain query or creation failed",
            BackendError::SurfaceLost => "presentation surface was lost",
        }
    }
}

} // verus!
