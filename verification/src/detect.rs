//! Hardware detection: pick the supported controller among the USB devices
//! on the bus and describe it, with the machine's DMI identity when known.
//! Reading sysfs is the application's part; it hands the values in here.

use vstd::prelude::*;

use crate::devices::{controller_label, family_of};
use crate::text::{hex4, owned, parse_unsigned, parse_unsigned_spec, push_hex4, push_str, str_eq,
    trim, trimmed};

verus! {

/// A detected, supported lighting controller.
#[derive(Debug, Clone, PartialEq, Eq)]
pub struct Detected {
    pub vid: u16,
    pub pid: u16,
    pub family: &'static str,
    /// e.g. "LENOVO LOQ 15IRX9 (83DV)" — only when DMI data is readable.
    pub machine: Option<String>,
}

/// `<family> controller vvvv:pppp`.
pub open spec fn controller_text(family: Seq<char>, vid: u16, pid: u16) -> Seq<char> {
    family + " controller "@ + hex4(vid) + ":"@ + hex4(pid)
}

impl Detected {
    /// The single-line description the CLI and UI device card show.
    pub open spec fn description(self) -> Seq<char> {
        match self.machine {
            Some(m) => m@ + " · "@ + controller_text(self.family@, self.vid, self.pid),
            None => controller_text(self.family@, self.vid, self.pid),
        }
    }

    /// Short single-line description used by the CLI and UI device card.
    pub fn describe(&self) -> (s: String)
        ensures
            s@ == self.description(),
    {
        let mut s = String::new();
        match &self.machine {
            Some(m) => {
                push_str(&mut s, m.as_str());
                push_str(&mut s, " · ");
            },
            None => {},
        }
        push_str(&mut s, self.family);
        push_str(&mut s, " controller ");
        push_hex4(&mut s, self.vid);
        push_str(&mut s, ":");
        push_hex4(&mut s, self.pid);
        assert(s@ =~= self.description());
        s
    }
}

/// Build the detection record for the first supported controller in bus
/// order, tagged with the machine name.
pub fn detect_from_bus(devices: &[(u16, u16)], machine: Option<String>) -> (d: Option<Detected>)
    ensures
        (forall|i: int| 0 <= i < devices@.len() ==> (#[trigger] family_of(devices@[i].0, devices@[i].1)) is None) <==> d is None,
        d matches Some(det) ==> exists|i: int|
            0 <= i < devices@.len() && det.vid == devices@[i].0 && det.pid == devices@[i].1
                && family_of(det.vid, det.pid) == Some(det.family@) && (forall|j: int|
                0 <= j < i ==> (#[trigger] family_of(devices@[j].0, devices@[j].1)) is None),
        d matches Some(det) ==> det.machine == machine,
{
    let mut i: usize = 0;
    while i < devices.len()
        invariant
            i <= devices@.len(),
            forall|j: int| 0 <= j < i ==> (#[trigger] family_of(devices@[j].0, devices@[j].1)) is None,
        decreases devices@.len() - i,
    {
        let (vid, pid) = devices[i];
        match controller_label(vid, pid) {
            Some(family) => {
                return Some(Detected { vid, pid, family, machine });
            },
            None => {},
        }
        i = i + 1;
    }
    None
}

/// The machine string from DMI fields: vendor plus marketing name (the
/// product family, else the product version, else the product name), then
/// the model code (product name, else board name) in brackets when it
/// differs from the marketing name. `None` without a vendor or name.
pub open spec fn machine_text(
    vendor: Option<Seq<char>>,
    family: Option<Seq<char>>,
    version: Option<Seq<char>>,
    product: Option<Seq<char>>,
    board: Option<Seq<char>>,
) -> Option<Seq<char>> {
    let marketing = if family is Some {
        family
    } else if version is Some {
        version
    } else {
        product
    };
    let code = if product is Some {
        product
    } else {
        board
    };
    if vendor is None || marketing is None {
        None
    } else if code is Some && code.unwrap() != marketing.unwrap() {
        Some(vendor.unwrap() + " "@ + marketing.unwrap() + " ("@ + code.unwrap() + ")"@)
    } else {
        Some(vendor.unwrap() + " "@ + marketing.unwrap())
    }
}

/// The characters of an optional string.
pub open spec fn opt_view(o: Option<String>) -> Option<Seq<char>> {
    match o {
        Some(s) => Some(s@),
        None => None,
    }
}

/// Human-readable machine string from the DMI fields (each already
/// cleaned), or `None`.
pub fn machine_label(
    vendor: Option<String>,
    family: Option<String>,
    version: Option<String>,
    product: Option<String>,
    board: Option<String>,
) -> (label: Option<String>)
    ensures
        opt_view(label) == machine_text(
            opt_view(vendor),
            opt_view(family),
            opt_view(version),
            opt_view(product),
            opt_view(board),
        ),
{
    let vendor = match vendor {
        Some(v) => v,
        None => {
            return None;
        },
    };
    let marketing = match family {
        Some(f) => f,
        None => match version {
            Some(v) => v,
            None => match &product {
                Some(p) => p.clone(),
                None => {
                    return None;
                },
            },
        },
    };
    let code = match product {
        Some(p) => Some(p),
        None => board,
    };
    let mut s = String::new();
    push_str(&mut s, vendor.as_str());
    push_str(&mut s, " ");
    push_str(&mut s, marketing.as_str());
    match code {
        Some(c) => {
            if !str_eq(c.as_str(), marketing.as_str()) {
                push_str(&mut s, " (");
                push_str(&mut s, c.as_str());
                push_str(&mut s, ")");
            }
        },
        None => {},
    }
    Some(s)
}

/// Is this sysfs entry an interface directory (its name contains `:`)
/// rather than a device?
pub fn is_interface_entry(name: &str) -> (b: bool)
    ensures
        b == name@.contains(':'),
{
    let n = name.unicode_len();
    let mut i: usize = 0;
    while i < n
        invariant
            n == name@.len(),
            i <= n,
            forall|k: int| 0 <= k < i ==> name@[k] != ':',
        decreases n - i,
    {
        if name.get_char(i) == ':' {
            return true;
        }
        i = i + 1;
    }
    false
}

/// A hexadecimal USB id as sysfs writes it (`idVendor`, `idProduct`),
/// surrounding whitespace allowed.
pub open spec fn usb_id(raw: Seq<char>) -> Option<u16> {
    match parse_unsigned_spec(trim(raw), 16, 0xFFFF) {
        Some(v) => Some(v as u16),
        None => None,
    }
}

/// The (vid, pid) of one sysfs USB entry, or `None` for interface
/// directories and malformed ids.
pub fn usb_entry(name: &str, vid_raw: &str, pid_raw: &str) -> (r: Option<(u16, u16)>)
    ensures
        name@.contains(':') ==> r is None,
        !name@.contains(':') && usb_id(vid_raw@) is Some && usb_id(pid_raw@) is Some ==> r == Some(
            (usb_id(vid_raw@).unwrap(), usb_id(pid_raw@).unwrap()),
        ),
        !name@.contains(':') && (usb_id(vid_raw@) is None || usb_id(pid_raw@) is None) ==> r is None,
{
    if is_interface_entry(name) {
        return None;
    }
    let v = trimmed(vid_raw);
    let p = trimmed(pid_raw);
    let vid = match parse_unsigned(v.as_str(), 16, 0xFFFF) {
        Some(x) => x as u16,
        None => {
            return None;
        },
    };
    let pid = match parse_unsigned(p.as_str(), 16, 0xFFFF) {
        Some(x) => x as u16,
        None => {
            return None;
        },
    };
    Some((vid, pid))
}

} // verus!
