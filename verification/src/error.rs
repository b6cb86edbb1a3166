//! Error taxonomy with user-actionable hints. Every failure path renders one
//! of these; no error is swallowed silently.

use vstd::prelude::*;

use crate::text::push_str;

verus! {

#[derive(Debug, Clone, PartialEq, Eq)]
pub enum Error {
    DeviceNotFound(String),
    PermissionDenied(String),
    Io(String),
    Unsupported(String),
    Protocol(String),
    Config(String),
    AlreadyRunning(String),
}

/// The message an error carries.
pub open spec fn error_detail(e: Error) -> Seq<char> {
    match e {
        Error::DeviceNotFound(m) => m@,
        Error::PermissionDenied(m) => m@,
        Error::Io(m) => m@,
        Error::Unsupported(m) => m@,
        Error::Protocol(m) => m@,
        Error::Config(m) => m@,
        Error::AlreadyRunning(m) => m@,
    }
}

/// The fixed lead-in shown before an error's message.
pub open spec fn error_prefix(e: Error) -> Seq<char> {
    match e {
        Error::DeviceNotFound(_) => "No supported keyboard controller found: "@,
        Error::PermissionDenied(_) => "Permission denied opening the controller: "@,
        Error::Io(_) => "I/O error talking to the controller: "@,
        Error::Unsupported(_) => "Unsupported operation: "@,
        Error::Protocol(_) => "Protocol error: "@,
        Error::Config(_) => "Configuration error: "@,
        Error::AlreadyRunning(_) => "Another loq-rgb writer instance is already running: "@,
    }
}

/// Guidance text shown next to an error.
pub open spec fn error_hint(e: Error) -> Seq<char> {
    match e {
        Error::DeviceNotFound(_) => HINT_DEVICE_NOT_FOUND@,
        Error::PermissionDenied(_) => HINT_PERMISSION_DENIED@,
        Error::Io(_) => HINT_IO@,
        Error::Unsupported(_) => HINT_UNSUPPORTED@,
        Error::Protocol(_) => HINT_PROTOCOL@,
        Error::Config(_) => HINT_CONFIG@,
        Error::AlreadyRunning(_) => HINT_ALREADY_RUNNING@,
    }
}

pub const HINT_DEVICE_NOT_FOUND: &'static str =
    "This tool targets the ITE 4-zone RGB controllers (048d:c993 = LOQ 2024). Run `lsusb` to check whether a 048d device is present, or `loq-rgb-cli detect`.";

pub const HINT_PERMISSION_DENIED: &'static str =
    "Install the udev rule once: `sudo loq-rgb-cli udev`, then reload rules (`sudo udevadm control --reload-rules && sudo udevadm trigger`) and reconnect the keyboard. Alternatively run the app with sudo.";

pub const HINT_IO: &'static str =
    "The controller may have been unplugged or suspended. The app retries automatically; if this persists, replug the laptop's internal keyboard (power cycle) or check `dmesg` for USB errors.";

pub const HINT_UNSUPPORTED: &'static str =
    "Your hardware reports it cannot do this. Only controls the device actually supports are enabled.";

pub const HINT_PROTOCOL: &'static str =
    "The controller answered with data this app could not interpret. Report this output to the project.";

pub const HINT_CONFIG: &'static str =
    "The configuration file was invalid; a backup was kept and defaults restored. Check the reported path.";

pub const HINT_ALREADY_RUNNING: &'static str =
    "Only one lighting writer may run at a time. Stop the existing instance first: `pkill -f 'loq-rgb-cli listen-hotkeys'` (or close the other loq-rgb window).";

impl Error {
    /// Guidance text the CLI/UI can show next to the error.
    pub fn hint(&self) -> (h: &'static str)
        ensures
            h@ == error_hint(*self),
    {
        match self {
            Error::DeviceNotFound(_) => HINT_DEVICE_NOT_FOUND,
            Error::PermissionDenied(_) => HINT_PERMISSION_DENIED,
            Error::Io(_) => HINT_IO,
            Error::Unsupported(_) => HINT_UNSUPPORTED,
            Error::Protocol(_) => HINT_PROTOCOL,
            Error::Config(_) => HINT_CONFIG,
            Error::AlreadyRunning(_) => HINT_ALREADY_RUNNING,
        }
    }

    /// The user-facing text: the variant's lead-in followed by the message.
    pub fn message(&self) -> (s: String)
        ensures
            s@ == error_prefix(*self) + error_detail(*self),
    {
        let mut s = String::new();
        let (prefix, detail) = match self {
            Error::DeviceNotFound(m) => ("No supported keyboard controller found: ", m),
            Error::PermissionDenied(m) => ("Permission denied opening the controller: ", m),
            Error::Io(m) => ("I/O error talking to the controller: ", m),
            Error::Unsupported(m) => ("Unsupported operation: ", m),
            Error::Protocol(m) => ("Protocol error: ", m),
            Error::Config(m) => ("Configuration error: ", m),
            Error::AlreadyRunning(m) => (
                "Another loq-rgb writer instance is already running: ",
                m,
            ),
        };
        push_str(&mut s, prefix);
        push_str(&mut s, detail.as_str());
        assert(s@ =~= error_prefix(*self) + error_detail(*self));
        s
    }

    /// An identical copy.
    pub fn duplicate(&self) -> (e: Error)
        ensures
            e == *self,
    {
        match self {
            Error::DeviceNotFound(m) => Error::DeviceNotFound(m.clone()),
            Error::PermissionDenied(m) => Error::PermissionDenied(m.clone()),
            Error::Io(m) => Error::Io(m.clone()),
            Error::Unsupported(m) => Error::Unsupported(m.clone()),
            Error::Protocol(m) => Error::Protocol(m.clone()),
            Error::Config(m) => Error::Config(m.clone()),
            Error::AlreadyRunning(m) => Error::AlreadyRunning(m.clone()),
        }
    }
}

} // verus!
