//! Decisions of the HID backend that do not need the device: which of the
//! controller's interfaces to open, and how a HID error is classified. The
//! application enumerates devices and performs the I/O.

use vstd::prelude::*;

use crate::error::Error;
use crate::text::{contains_str, has_infix, hex4, push_hex4, push_str};

verus! {

/// Vendor usage page reported by the lighting interface.
pub const USAGE_PAGE: u16 = 0xff89;

pub const USAGE: u16 = 0x00cc;

/// One enumerated HID interface: vendor id, product id, usage page, usage.
pub type HidInterface = (u16, u16, u16, u16);

/// The interface to open for (vid, pid): the first one whose usage matches
/// the lighting interface, else the first one of the device at all.
pub open spec fn chosen_interface(devices: Seq<HidInterface>, vid: u16, pid: u16) -> Option<int> {
    let of_device = |d: HidInterface| d.0 == vid && d.1 == pid;
    let lighting = |d: HidInterface| d.0 == vid && d.1 == pid && d.2 == USAGE_PAGE && d.3 == USAGE;
    if exists|i: int| 0 <= i < devices.len() && lighting(#[trigger] devices[i]) {
        Some(choose|i: int| 0 <= i < devices.len() && lighting(#[trigger] devices[i]) && forall|j: int| 0 <= j < i ==> !lighting(#[trigger] devices[j]))
    } else if exists|i: int| 0 <= i < devices.len() && of_device(#[trigger] devices[i]) {
        Some(choose|i: int| 0 <= i < devices.len() && of_device(#[trigger] devices[i]) && forall|j: int| 0 <= j < i ==> !of_device(#[trigger] devices[j]))
    } else {
        None
    }
}

/// The message when the device is not on the bus.
pub open spec fn not_on_bus_message(vid: u16, pid: u16) -> Seq<char> {
    hex4(vid) + ":"@ + hex4(pid) + " not found on the USB bus"@
}

/// Select which enumerated interface to open for (vid, pid).
pub fn pick_interface(devices: &Vec<HidInterface>, vid: u16, pid: u16) -> (r: Result<usize, Error>)
    ensures
        chosen_interface(devices@, vid, pid) matches Some(i) ==> r == Ok::<usize, Error>(i as usize),
        chosen_interface(devices@, vid, pid) is None ==> (r matches Err(Error::DeviceNotFound(m))
            && m@ == not_on_bus_message(vid, pid)),
{
    let ghost of_device = |d: HidInterface| d.0 == vid && d.1 == pid;
    let ghost lighting = |d: HidInterface| d.0 == vid && d.1 == pid && d.2 == USAGE_PAGE && d.3 == USAGE;
    let mut first: Option<usize> = None;
    let mut i: usize = 0;
    while i < devices.len()
        invariant
            i <= devices@.len(),
            of_device == (|d: HidInterface| d.0 == vid && d.1 == pid),
            lighting == (|d: HidInterface| d.0 == vid && d.1 == pid && d.2 == USAGE_PAGE && d.3 == USAGE),
            forall|j: int| 0 <= j < i ==> !lighting(#[trigger] devices@[j]),
            first is None ==> forall|j: int| 0 <= j < i ==> !of_device(#[trigger] devices@[j]),
            first matches Some(f) ==> f < i && of_device(devices@[f as int]) && forall|j: int| 0 <= j < f ==> !of_device(#[trigger] devices@[j]),
        decreases devices@.len() - i,
    {
        let d = devices[i];
        if d.0 == vid && d.1 == pid {
            if d.2 == USAGE_PAGE && d.3 == USAGE {
                proof {
                    assert(lighting(devices@[i as int]));
                    let c = choose|c: int| 0 <= c < devices@.len() && lighting(#[trigger] devices@[c]) && forall|j: int| 0 <= j < c ==> !lighting(#[trigger] devices@[j]);
                    assert(c == i) by {
                        if c < i {
                        } else if c > i {
                            assert(!lighting(devices@[i as int]));
                        }
                    }
                }
                return Ok(i);
            }
            if first.is_none() {
                first = Some(i);
            }
        }
        i = i + 1;
    }
    match first {
        Some(f) => {
            proof {
                assert(!(exists|k: int| 0 <= k < devices@.len() && lighting(#[trigger] devices@[k])));
                let c = choose|c: int| 0 <= c < devices@.len() && of_device(#[trigger] devices@[c]) && forall|j: int| 0 <= j < c ==> !of_device(#[trigger] devices@[j]);
                assert(c == f) by {
                    if c < f {
                    } else if c > f {
                        assert(!of_device(devices@[f as int]));
                    }
                }
            }
            Ok(f)
        },
        None => {
            let mut m = String::new();
            push_hex4(&mut m, vid);
            push_str(&mut m, ":");
            push_hex4(&mut m, pid);
            push_str(&mut m, " not found on the USB bus");
            assert(m@ =~= not_on_bus_message(vid, pid));
            Err(Error::DeviceNotFound(m))
        },
    }
}

/// A failure to open the device: permission problems are reported as such.
pub fn classify_open_error(msg: String) -> (e: Error)
    ensures
        (has_infix(msg@, "not permitted"@) || has_infix(msg@, "ermission"@)) ==> e == Error::PermissionDenied(msg),
        !(has_infix(msg@, "not permitted"@) || has_infix(msg@, "ermission"@)) ==> e == Error::Io(msg),
{
    if contains_str(msg.as_str(), "not permitted") || contains_str(msg.as_str(), "ermission") {
        Error::PermissionDenied(msg)
    } else {
        Error::Io(msg)
    }
}

/// A failure talking to an open device: a vanished device is reported as
/// not found.
pub fn classify_io_error(msg: String) -> (e: Error)
    ensures
        (has_infix(msg@, "not found"@) || has_infix(msg@, "o such device"@)) ==> e == Error::DeviceNotFound(msg),
        !(has_infix(msg@, "not found"@) || has_infix(msg@, "o such device"@)) ==> e == Error::Io(msg),
{
    if contains_str(msg.as_str(), "not found") || contains_str(msg.as_str(), "o such device") {
        Error::DeviceNotFound(msg)
    } else {
        Error::Io(msg)
    }
}

} // verus!
