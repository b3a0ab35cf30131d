use vstd::prelude::*;

verus! {

/// winit's `OsError`, the failure to create a window; carried, never read.
#[verifier::external_type_specification]
#[verifier::external_body]
pub struct ExOsError(winit::error::OsError);

/// wgpu's `RequestDeviceError`, the adapter's refusal to create a device;
/// carried, never read.
#[verifier::external_type_specification]
#[verifier::external_body]
pub struct ExRequestDeviceError(wgpu::RequestDeviceError);

/// Why the render surface could not be set up.
pub enum RenderError {
    /// No graphics adapter can present to the window's surface.
    BadAdapter,
    /// The adapter refused to create a device.
    BadDevice(wgpu::RequestDeviceError),
    /// The adapter reports no format for the swap chain.
    BadSwapChainFormat,
}

/// Why the framework could not start.
pub enum RogueError {
    /// The window could not be created.
    OSError(winit::error::OsError),
    /// The render surface could not be set up.
    RenderError(RenderError),
    /// The font image could not be decoded, or is too small for a 16 × 16 atlas.
    BadFont,
}

pub type RenderResult<T> = Result<T, RenderError>;

pub type RogueResult<T> = Result<T, RogueError>;

} // verus!
