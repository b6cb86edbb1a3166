//! Known Lenovo 4-zone RGB keyboard controllers (ITE Tech, VID 0x048d) and
//! the rule for which DMI values count as present.

use vstd::prelude::*;

use crate::text::{str_eq, trim, trimmed};

verus! {

pub const ITE_VID: u16 = 0x048D;

/// The primary controller PID this project targets (LOQ 2024).
pub const PRIMARY_PID: u16 = 0xC993;

/// The family label of a supported controller, or `None`.
pub open spec fn family_of(vid: u16, pid: u16) -> Option<Seq<char>> {
    if vid != ITE_VID {
        None
    } else if pid == 0xC993 {
        Some("Lenovo LOQ (2024)"@)
    } else if pid == 0xC983 {
        Some("Lenovo LOQ (2023)"@)
    } else if pid == 0xC995 {
        Some("Legion Pro (2024)"@)
    } else if pid == 0xC994 {
        Some("Legion (2024)"@)
    } else if pid == 0xC985 {
        Some("Legion Pro (2023)"@)
    } else if pid == 0xC984 {
        Some("Legion (2023)"@)
    } else if pid == 0xC975 {
        Some("Legion (2022)"@)
    } else if pid == 0xC973 {
        Some("IdeaPad Gaming (2022)"@)
    } else if pid == 0xC965 {
        Some("Legion (2021)"@)
    } else if pid == 0xC963 {
        Some("IdeaPad Gaming (2021)"@)
    } else if pid == 0xC955 {
        Some("Legion (2020)"@)
    } else {
        None
    }
}

/// The supported PIDs, newest first.
pub open spec fn known_pids() -> Seq<u16> {
    seq![0xC993u16, 0xC983, 0xC995, 0xC994, 0xC985, 0xC984, 0xC975, 0xC973, 0xC965, 0xC963, 0xC955]
}

/// Look up the family label for a (vid, pid).
pub fn controller_label(vid: u16, pid: u16) -> (label: Option<&'static str>)
    ensures
        family_of(vid, pid) is None ==> label is None,
        family_of(vid, pid) matches Some(f) ==> (label matches Some(l) && l@ == f),
{
    if vid != ITE_VID {
        return None;
    }
    if pid == 0xC993 {
        Some("Lenovo LOQ (2024)")
    } else if pid == 0xC983 {
        Some("Lenovo LOQ (2023)")
    } else if pid == 0xC995 {
        Some("Legion Pro (2024)")
    } else if pid == 0xC994 {
        Some("Legion (2024)")
    } else if pid == 0xC985 {
        Some("Legion Pro (2023)")
    } else if pid == 0xC984 {
        Some("Legion (2023)")
    } else if pid == 0xC975 {
        Some("Legion (2022)")
    } else if pid == 0xC973 {
        Some("IdeaPad Gaming (2022)")
    } else if pid == 0xC965 {
        Some("Legion (2021)")
    } else if pid == 0xC963 {
        Some("IdeaPad Gaming (2021)")
    } else if pid == 0xC955 {
        Some("Legion (2020)")
    } else {
        None
    }
}

/// (vid, pid, family label) of every verified 4-zone controller.
pub fn known_controllers() -> (table: Vec<(u16, u16, &'static str)>)
    ensures
        table@.len() == known_pids().len(),
        forall|k: int|
            0 <= k < table@.len() ==> (#[trigger] table@[k]).0 == ITE_VID && table@[k].1
                == known_pids()[k] && family_of(table@[k].0, table@[k].1) == Some(table@[k].2@),
{
    let mut table: Vec<(u16, u16, &'static str)> = Vec::new();
    let pids: [u16; 11] = [0xC993, 0xC983, 0xC995, 0xC994, 0xC985, 0xC984, 0xC975, 0xC973, 0xC965, 0xC963, 0xC955];
    assert(pids@ =~= known_pids());
    let mut i: usize = 0;
    while i < 11
        invariant
            i <= 11,
            pids@ == known_pids(),
            table@.len() == i,
            forall|k: int|
                0 <= k < i ==> (#[trigger] table@[k]).0 == ITE_VID && table@[k].1 == known_pids()[k]
                    && family_of(table@[k].0, table@[k].1) == Some(table@[k].2@),
        decreases 11 - i,
    {
        let pid = pids[i];
        match controller_label(ITE_VID, pid) {
            Some(label) => {
                table.push((ITE_VID, pid, label));
            },
            None => {
                assert(false);
            },
        }
        i = i + 1;
    }
    table
}

/// No PID appears twice in the table, and each one is recognised.
pub proof fn lemma_known_pids_distinct()
    ensures
        forall|i: int, j: int|
            0 <= i < j < known_pids().len() ==> #[trigger] known_pids()[i] != #[trigger] known_pids()[j],
        forall|i: int| 0 <= i < known_pids().len() ==> family_of(ITE_VID, #[trigger] known_pids()[i]) is Some,
{
}

/// The model year a PID encodes in its second-lowest hex digit: 0xC95x is
/// 2020, 0xC96x 2021, 0xC97x 2022, 0xC98x 2023 and 0xC99x 2024.
pub open spec fn pid_year(pid: u16) -> int {
    2015 + (pid / 16) % 16
}

/// Every family label ends in the model year its PID encodes, as
/// `(20yy)`: a label never names another year than its controller's.
pub proof fn lemma_family_label_names_pid_year(vid: u16, pid: u16)
    ensures
        family_of(vid, pid) matches Some(f) ==> {
            &&& vid == ITE_VID
            &&& f.len() >= 7
            &&& f[f.len() - 7] == ' '
            &&& f[f.len() - 6] == '('
            &&& f[f.len() - 5] == '2'
            &&& f[f.len() - 4] == '0'
            &&& f[f.len() - 3] == '2'
            &&& f[f.len() - 2] as int == '0' as int + pid_year(pid) - 2020
            &&& f[f.len() - 1] == ')'
        },
{
    reveal_strlit("Lenovo LOQ (2024)");
    reveal_strlit("Lenovo LOQ (2023)");
    reveal_strlit("Legion Pro (2024)");
    reveal_strlit("Legion (2024)");
    reveal_strlit("Legion Pro (2023)");
    reveal_strlit("Legion (2023)");
    reveal_strlit("Legion (2022)");
    reveal_strlit("IdeaPad Gaming (2022)");
    reveal_strlit("Legion (2021)");
    reveal_strlit("IdeaPad Gaming (2021)");
    reveal_strlit("Legion (2020)");
}

/// The label before the year names the product line: PIDs ending in 3 are
/// the Lenovo LOQ from 2023 on and the IdeaPad Gaming before; those ending
/// in 4 are Legion; those ending in 5 are Legion Pro from 2023 on and
/// Legion before.
pub proof fn lemma_family_label_names_product_line(pid: u16)
    ensures
        family_of(ITE_VID, pid) matches Some(f) ==> {
            let line = f.subrange(0, f.len() - 7);
            &&& pid % 16 == 3 && pid_year(pid) >= 2023 ==> line == "Lenovo LOQ"@
            &&& pid % 16 == 3 && pid_year(pid) < 2023 ==> line == "IdeaPad Gaming"@
            &&& pid % 16 == 4 ==> line == "Legion"@
            &&& pid % 16 == 5 && pid_year(pid) >= 2023 ==> line == "Legion Pro"@
            &&& pid % 16 == 5 && pid_year(pid) < 2023 ==> line == "Legion"@
            &&& pid % 16 == 3 || pid % 16 == 4 || pid % 16 == 5
        },
{
    reveal_strlit("Lenovo LOQ (2024)");
    reveal_strlit("Lenovo LOQ (2023)");
    reveal_strlit("Legion Pro (2024)");
    reveal_strlit("Legion (2024)");
    reveal_strlit("Legion Pro (2023)");
    reveal_strlit("Legion (2023)");
    reveal_strlit("Legion (2022)");
    reveal_strlit("IdeaPad Gaming (2022)");
    reveal_strlit("Legion (2021)");
    reveal_strlit("IdeaPad Gaming (2021)");
    reveal_strlit("Legion (2020)");
    reveal_strlit("Lenovo LOQ");
    reveal_strlit("IdeaPad Gaming");
    reveal_strlit("Legion");
    reveal_strlit("Legion Pro");
    if family_of(ITE_VID, pid) is Some {
        let f = family_of(ITE_VID, pid).unwrap();
        let line = f.subrange(0, f.len() - 7);
        if pid == 0xC993 || pid == 0xC983 {
            assert(line =~= "Lenovo LOQ"@);
        } else if pid == 0xC973 || pid == 0xC963 {
            assert(line =~= "IdeaPad Gaming"@);
        } else if pid == 0xC995 || pid == 0xC985 {
            assert(line =~= "Legion Pro"@);
        } else {
            assert(line =~= "Legion"@);
        }
    }
}

/// Different supported controllers never share a family label.
pub proof fn lemma_family_labels_distinct(p: u16, q: u16)
    requires
        family_of(ITE_VID, p) is Some,
        family_of(ITE_VID, q) is Some,
        p != q,
    ensures
        family_of(ITE_VID, p) != family_of(ITE_VID, q),
{
    reveal_strlit("Lenovo LOQ (2024)");
    reveal_strlit("Lenovo LOQ (2023)");
    reveal_strlit("Legion Pro (2024)");
    reveal_strlit("Legion (2024)");
    reveal_strlit("Legion Pro (2023)");
    reveal_strlit("Legion (2023)");
    reveal_strlit("Legion (2022)");
    reveal_strlit("IdeaPad Gaming (2022)");
    reveal_strlit("Legion (2021)");
    reveal_strlit("IdeaPad Gaming (2021)");
    reveal_strlit("Legion (2020)");
    let f = family_of(ITE_VID, p).unwrap();
    let g = family_of(ITE_VID, q).unwrap();
    if f == g {
        assert(f.len() == g.len());
        assert(f[2] == g[2]);
        assert(f[7] == g[7]);
        assert(f[f.len() - 2] == g[g.len() - 2]);
    }
}

/// Placeholder values firmware vendors leave in DMI fields.
pub const DMI_NONE: &'static str = "None";

pub const DMI_OEM_PLACEHOLDER: &'static str = "To be filled by O.E.M.";

/// A DMI value, trimmed, unless it is empty or a known placeholder.
pub open spec fn dmi_value(raw: Seq<char>) -> Option<Seq<char>> {
    let v = trim(raw);
    if v.len() == 0 || v == DMI_NONE@ || v == DMI_OEM_PLACEHOLDER@ {
        None
    } else {
        Some(v)
    }
}

/// Clean a raw DMI attribute: trimmed, or `None` when unavailable.
pub fn clean_dmi_value(raw: &str) -> (v: Option<String>)
    ensures
        v is None <==> dmi_value(raw@) is None,
        v matches Some(s) ==> dmi_value(raw@) == Some(s@),
{
    let val = trimmed(raw);
    if val.as_str().unicode_len() == 0 || str_eq(val.as_str(), DMI_NONE) || str_eq(
        val.as_str(),
        DMI_OEM_PLACEHOLDER,
    ) {
        return None;
    }
    Some(val)
}

} // verus!
