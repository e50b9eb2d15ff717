use vstd::prelude::*;

verus! {

/// Usage page of generic desktop devices.
pub const USAGE_PAGE_GENERIC_DESKTOP: u16 = 1;
/// Usage of a mouse on the generic desktop page.
pub const USAGE_MOUSE: u16 = 2;
/// Usage of a keyboard on the generic desktop page.
pub const USAGE_KEYBOARD: u16 = 6;
/// Registration flag: deliver input even while the window is not in the foreground.
pub const INPUT_SINK: u32 = 0x0000_0100;

/// One device class that the capture window asks to receive reports from.
#[derive(Debug, Clone, Copy, PartialEq, Eq)]
pub struct DeviceRequest {
    pub usage_page: u16,
    pub usage: u16,
    pub flags: u32,
    pub target: usize,
}

/// Why the capture side could not be set up.
#[derive(Debug, Clone, Copy, PartialEq, Eq)]
pub enum CaptureError {
    /// The window could not be created: the OS gave a null handle.
    WindowCreation,
    /// Registration was asked for a null window handle.
    InvalidWindow,
    /// The OS rejected the device registration.
    RegistrationRejected,
}

pub open spec fn request_for(usage: u16, target: usize) -> DeviceRequest {
    DeviceRequest { usage_page: USAGE_PAGE_GENERIC_DESKTOP, usage, flags: INPUT_SINK, target }
}

/// The two device classes to register for a window: the generic mouse, then
/// the generic keyboard, both as input sinks.
pub fn device_requests(target: usize) -> (r: Vec<DeviceRequest>)
    ensures
        r@ == seq![request_for(USAGE_MOUSE, target), request_for(USAGE_KEYBOARD, target)],
{
    let mut r: Vec<DeviceRequest> = Vec::new();
    r.push(DeviceRequest { usage_page: USAGE_PAGE_GENERIC_DESKTOP, usage: USAGE_MOUSE, flags: INPUT_SINK, target });
    r.push(DeviceRequest { usage_page: USAGE_PAGE_GENERIC_DESKTOP, usage: USAGE_KEYBOARD, flags: INPUT_SINK, target });
    r
}

/// A created window's handle, or the error for a null one, which must not be
/// pumped or registered.
pub fn created_window(handle: usize) -> (r: Result<usize, CaptureError>)
    ensures
        r == (if handle == 0 { Err::<usize, CaptureError>(CaptureError::WindowCreation) } else { Ok(handle) }),
{
    if handle == 0 {
        Err(CaptureError::WindowCreation)
    } else {
        Ok(handle)
    }
}

/// Whether registration for `target` may go to the OS at all: a null window
/// handle is refused before any request is made.
pub fn registration_target(target: usize) -> (r: Result<Vec<DeviceRequest>, CaptureError>)
    ensures
        target == 0 ==> r == Err::<Vec<DeviceRequest>, CaptureError>(CaptureError::InvalidWindow),
        target != 0 ==> r.is_ok() && r.unwrap()@ == seq![request_for(USAGE_MOUSE, target), request_for(USAGE_KEYBOARD, target)],
{
    if target == 0 {
        Err(CaptureError::InvalidWindow)
    } else {
        Ok(device_requests(target))
    }
}

/// The outcome of a registration, from the OS's reply (non-zero for success).
/// Failure is reported, never dropped.
pub fn registration_outcome(target: usize, reply: i32) -> (r: Result<(), CaptureError>)
    ensures
        r == (if target == 0 {
            Err(CaptureError::InvalidWindow)
        } else if reply == 0 {
            Err(CaptureError::RegistrationRejected)
        } else {
            Ok(())
        }),
{
    if target == 0 {
        Err(CaptureError::InvalidWindow)
    } else if reply == 0 {
        Err(CaptureError::RegistrationRejected)
    } else {
        Ok(())
    }
}

} // verus!
