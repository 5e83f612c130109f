//! The data model shared between the engine and its caller: device
//! classifications, device descriptions, the control-channel command,
//! and the error taxonomy of a split-input session.

use vstd::prelude::*;
use vstd::string::StringExecFns;

use crate::strings::dec_digits;
use crate::strings::decimal_string;

verus! {

/// The classification a device receives from its capability bits or from
/// its first captured events. `Unknown` covers both "no signature" and
/// "more than one signature": such a device is never routed anywhere.
#[derive(Clone, Copy, PartialEq, Eq, Structural, Debug)]
pub enum DeviceType {
    Keyboard,
    Mouse,
    Gamepad,
    Unknown,
}

impl DeviceType {
    /// A human-readable name for the classification.
    pub fn label(&self) -> (r: &'static str)
        ensures
            self is Keyboard ==> r@ == "Keyboard"@,
            self is Mouse ==> r@ == "Mouse"@,
            self is Gamepad ==> r@ == "Gamepad"@,
            self is Unknown ==> r@ == "Unknown"@,
    {
        match self {
            DeviceType::Keyboard => "Keyboard",
            DeviceType::Mouse => "Mouse",
            DeviceType::Gamepad => "Gamepad",
            DeviceType::Unknown => "Unknown",
        }
    }
}

/// The available output-injection mechanisms.
#[derive(Clone, Copy, PartialEq, Eq, Structural, Debug)]
pub enum Backend {
    Native,
}

impl Backend {
    /// A human-readable name for the backend.
    pub fn label(&self) -> (r: &'static str)
        ensures
            r@ == "Native"@,
    {
        match self {
            Backend::Native => "Native",
        }
    }
}

/// The errors a split-input session can surface to its caller.
#[derive(Clone, Copy, PartialEq, Eq, Structural, Debug)]
pub enum ClientError {
    /// `run()` was called while a child process already exists.
    AlreadySpawnedError,
    /// The requested display is not supported by the chosen backend.
    UnsupportedError,
    /// The display connection could not be opened.
    X11DisplayOpenError,
    /// A relative pointer motion could not be synthesized.
    RelativeMovementFail,
    /// The command channel was closed while a worker was still running.
    ChannelClosed,
}

impl ClientError {
    /// A human-readable description of the error.
    pub fn message(&self) -> (r: &'static str)
        ensures
            self is AlreadySpawnedError ==> r@ == "run() was called, but child already exists"@,
            self is UnsupportedError ==> r@ == "Unsupported"@,
            self is X11DisplayOpenError ==> r@ == "Couldn't open the X11 DISPLAY"@,
            self is RelativeMovementFail ==> r@ == "Relative mouse movement failed"@,
            self is ChannelClosed ==> r@ == "Command channel disconnected"@,
    {
        match self {
            ClientError::AlreadySpawnedError => "run() was called, but child already exists",
            ClientError::UnsupportedError => "Unsupported",
            ClientError::X11DisplayOpenError => "Couldn't open the X11 DISPLAY",
            ClientError::RelativeMovementFail => "Relative mouse movement failed",
            ClientError::ChannelClosed => "Command channel disconnected",
        }
    }
}

/// The one command a caller can deliver to a running worker.
#[derive(Clone, Copy, PartialEq, Eq, Structural, Debug)]
pub enum BackendCommand {
    Terminate,
}

/// Which screen the graphical front-end is showing.
#[derive(Clone, Copy, PartialEq, Eq, Structural, Debug)]
pub enum GuiState {
    /// Select a preset.
    MainMenu,
    /// Create and edit a preset.
    EditPreset,
    /// Manage a preset: start and stop its clients.
    ManagePreset,
    /// Edit one client of a preset.
    EditClient,
}

/// Placement of one session's window.
#[derive(Clone, Copy, PartialEq, Eq, Structural, Debug)]
pub struct WindowGeometry {
    pub x: u32,
    pub y: u32,
    pub width: u32,
    pub height: u32,
}

/// How a session's program is launched.
#[derive(Clone, PartialEq, Eq, Debug)]
pub enum CommandType {
    SteamLaunch { appid: u32 },
    Manual { command: String },
}

impl CommandType {
    pub fn as_mut(&mut self) -> (r: &mut Self)
        ensures
            *final(r) == *final(self),
            *old(self) == *r,
    {
        self
    }
}

/// One kernel input device as presented to the caller: its name, its
/// device-node number, and an index used to tell equally named devices
/// apart.
#[derive(Clone, PartialEq, Eq, Debug)]
pub struct Device {
    pub name: String,
    pub index: u16,
    pub showindex: bool,
    pub devicetype: DeviceType,
    pub namenum: Option<u16>,
}

impl Device {
    /// The name shown for this device: the bare name, or, for devices
    /// that share a name with an earlier one, the name followed by its
    /// one-based index.
    pub open spec fn spec_display_name(self) -> Seq<char> {
        if self.showindex {
            self.name@ + seq![' '] + dec_digits((self.index + 1) as nat)
        } else {
            self.name@
        }
    }

    pub fn new(name: String, index: u16, devicetype: DeviceType, namenum: Option<u16>) -> (d:
        Device)
        ensures
            d.name == name,
            d.index == index,
            !d.showindex,
            d.devicetype == devicetype,
            d.namenum == namenum,
    {
        Device { name, index, showindex: false, devicetype, namenum }
    }

    pub fn get_name(&self) -> (r: String)
        requires
            self.showindex ==> self.index < u16::MAX,
        ensures
            r@ == self.spec_display_name(),
    {
        if self.showindex {
            let mut s = self.name.as_str().to_owned();
            proof {
                reveal_strlit(" ");
            }
            s.append(" ");
            let num = decimal_string(self.index + 1);
            s.append(num.as_str());
            proof {
                assert(s@ =~= self.spec_display_name());
            }
            s
        } else {
            self.name.as_str().to_owned()
        }
    }
}

/// The ordered list of devices found by enumeration.
#[derive(Clone, PartialEq, Eq, Debug)]
pub struct DeviceList {
    pub devices: Vec<Device>,
}

/// One device together with whether the caller has selected it.
#[derive(Clone, PartialEq, Eq, Debug)]
pub struct GuiDevice {
    pub device: Device,
    pub chosen: bool,
}

/// Wrap enumerated devices for presentation, none of them selected yet.
pub fn get_ui_devices(devices: Vec<Device>) -> (r: Vec<GuiDevice>)
    ensures
        r@.len() == devices@.len(),
        forall|i: int|
            0 <= i < r@.len() ==> r@[i].device == devices@[i] && !r@[i].chosen,
{
    let mut devices = devices;
    let ghost orig = devices@;
    let mut r: Vec<GuiDevice> = Vec::new();
    while devices.len() > 0
        invariant
            r@.len() + devices@.len() == orig.len(),
            devices@ == orig.skip(r@.len() as int),
            forall|k: int| 0 <= k < r@.len() ==> r@[k].device == orig[k] && !r@[k].chosen,
        decreases devices@.len(),
    {
        let d = devices.remove(0);
        r.push(GuiDevice { device: d, chosen: false });
        proof {
            assert(devices@ =~= orig.skip(r@.len() as int));
        }
    }
    r
}

} // verus!
