//! Video frames handed to the display, and the capture devices they can
//! come from.
use vstd::prelude::*;

verus! {

/// A frame to display: `width` by `height` pixels, four bytes each (red,
/// green, blue, alpha), rows top to bottom.
pub struct VideoFrame {
    pub width: u32,
    pub height: u32,
    pub data: Vec<u8>,
}

/// A capture device: its position in the system's list, its name and its
/// description.
#[derive(Clone, Debug)]
pub struct VideoDeviceInfo {
    pub index: u32,
    pub name: String,
    pub description: String,
}

/// No capture device.
pub const NO_DEVICE: u32 = 0xFFFF_FFFF;

/// Which capture device is wanted and which is open.
pub struct CaptureControl {
    /// The device the user picked, or `NO_DEVICE`.
    pub target: u32,
    /// The device whose stream is open, or `NO_DEVICE`.
    pub current: u32,
    /// Whether frames are coming.
    pub capturing: bool,
    /// Why the last device could not be opened.
    pub last_error: Option<String>,
}

/// What to do when the wanted device is not the open one.
#[derive(Debug, Clone, Copy, PartialEq, Eq, Structural)]
pub struct SwitchPlan {
    /// Whether a stream is open and is to be stopped.
    pub close: bool,
    /// The device to open, if any.
    pub open: Option<u32>,
}

impl CaptureControl {
    /// Nothing wanted, nothing open, no error.
    pub fn new() -> (r: Self)
        ensures
            r.target == NO_DEVICE && r.current == NO_DEVICE && !r.capturing && r.last_error.is_none(),
    {
        CaptureControl { target: NO_DEVICE, current: NO_DEVICE, capturing: false, last_error: None }
    }

    /// The user picks device `index`; the last error is forgotten.
    pub fn start_capture(&mut self, index: u32)
        ensures
            final(self).target == index,
            final(self).last_error.is_none(),
            final(self).current == old(self).current,
            final(self).capturing == old(self).capturing,
    {
        self.last_error = None;
        self.target = index;
    }

    /// The user wants no device.
    pub fn stop_capture(&mut self)
        ensures
            final(self).target == NO_DEVICE,
            final(self).current == old(self).current,
            final(self).capturing == old(self).capturing,
            final(self).last_error == old(self).last_error,
    {
        self.target = NO_DEVICE;
    }

    /// Whether frames are coming.
    pub fn is_capturing(&self) -> (r: bool)
        ensures
            r == self.capturing,
    {
        self.capturing
    }

    /// When the wanted device is not the open one: nothing is open or
    /// capturing any more, and the plan says whether to stop the open
    /// stream and which device to open. `None` when they agree.
    pub fn begin_switch(&mut self) -> (r: Option<SwitchPlan>)
        ensures
            old(self).target == old(self).current ==> r.is_none() && final(self).current == old(self).current
                && final(self).capturing == old(self).capturing,
            old(self).target != old(self).current ==> r == Some(SwitchPlan {
                close: old(self).current != NO_DEVICE,
                open: if old(self).target != NO_DEVICE { Some(old(self).target) } else { None },
            }) && final(self).current == NO_DEVICE && !final(self).capturing,
            final(self).target == old(self).target,
            final(self).last_error == old(self).last_error,
    {
        if self.target == self.current {
            return None;
        }
        let close = self.current != NO_DEVICE;
        self.capturing = false;
        self.current = NO_DEVICE;
        let open = if self.target != NO_DEVICE { Some(self.target) } else { None };
        Some(SwitchPlan { close, open })
    }

    /// Device `index` opened: frames are coming and the error is forgotten.
    pub fn opened(&mut self, index: u32)
        ensures
            final(self).current == index,
            final(self).capturing,
            final(self).last_error.is_none(),
            final(self).target == old(self).target,
    {
        self.current = index;
        self.capturing = true;
        self.last_error = None;
    }

    /// Opening failed for the reason `message`; it is tried again on the
    /// next pass as long as the device is still wanted.
    pub fn open_failed(&mut self, message: String)
        ensures
            final(self).last_error == Some(message),
            final(self).current == old(self).current,
            final(self).capturing == old(self).capturing,
            final(self).target == old(self).target,
    {
        self.last_error = Some(message);
    }
}

} // verus!
