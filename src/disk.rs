//! Disks offered for installation, and the device paths derived from them.
use vstd::prelude::*;
use crate::text::{chars_of, is_digit_char};

verus! {

#[derive(Clone, Debug)]
pub struct DiskInfo {
    pub name: String,
    pub size: String,
    pub model: String,
}

pub open spec fn digit_char(d: nat) -> char {
    if d == 0 { '0' }
    else if d == 1 { '1' }
    else if d == 2 { '2' }
    else if d == 3 { '3' }
    else if d == 4 { '4' }
    else if d == 5 { '5' }
    else if d == 6 { '6' }
    else if d == 7 { '7' }
    else if d == 8 { '8' }
    else { '9' }
}

/// The decimal digits of `n`, without leading zeros.
pub open spec fn decimal(n: nat) -> Seq<char>
    decreases n,
{
    if n < 10 {
        seq![digit_char(n)]
    } else {
        decimal(n / 10) + seq![digit_char(n % 10)]
    }
}

pub open spec fn device_path_of(name: Seq<char>) -> Seq<char> {
    "/dev/"@ + name
}

/// Partitions of a device whose name ends in a digit take a `p` before their number.
pub open spec fn partition_path_of(name: Seq<char>, index: nat) -> Seq<char> {
    if name.len() > 0 && is_digit_char(name.last()) {
        "/dev/"@ + name + "p"@ + decimal(index)
    } else {
        "/dev/"@ + name + decimal(index)
    }
}

pub open spec fn disk_label_of(name: Seq<char>, size: Seq<char>, model: Seq<char>) -> Seq<char> {
    if model.len() == 0 {
        name + " ("@ + size + ")"@
    } else {
        name + " ("@ + size + ") "@ + model
    }
}

fn digit_str(d: u8) -> (r: &'static str)
    requires
        d < 10,
    ensures
        r@ == seq![digit_char(d as nat)],
{
    proof {
        reveal_strlit("0");
        reveal_strlit("1");
        reveal_strlit("2");
        reveal_strlit("3");
        reveal_strlit("4");
        reveal_strlit("5");
        reveal_strlit("6");
        reveal_strlit("7");
        reveal_strlit("8");
        reveal_strlit("9");
    }
    let r = if d == 0 { "0" }
    else if d == 1 { "1" }
    else if d == 2 { "2" }
    else if d == 3 { "3" }
    else if d == 4 { "4" }
    else if d == 5 { "5" }
    else if d == 6 { "6" }
    else if d == 7 { "7" }
    else if d == 8 { "8" }
    else { "9" };
    assert(r@ =~= seq![digit_char(d as nat)]);
    r
}

/// Appends the decimal digits of `n`.
pub fn push_decimal(out: &mut String, n: u8)
    ensures
        final(out)@ == old(out)@ + decimal(n as nat),
{
    if n >= 100 {
        out.append(digit_str(n / 100));
        out.append(digit_str((n / 10) % 10));
        out.append(digit_str(n % 10));
        assert(decimal(n as nat) =~= seq![digit_char((n / 100) as nat)] + seq![
            digit_char(((n / 10) % 10) as nat),
        ] + seq![digit_char((n % 10) as nat)]) by {
            assert(decimal((n / 10) as nat) == decimal(((n / 10) / 10) as nat) + seq![
                digit_char(((n / 10) % 10) as nat),
            ]);
            assert(decimal(((n / 10) / 10) as nat) == seq![digit_char((n / 100) as nat)]);
        }
    } else if n >= 10 {
        out.append(digit_str(n / 10));
        out.append(digit_str(n % 10));
        assert(decimal((n / 10) as nat) == seq![digit_char((n / 10) as nat)]);
        assert(decimal(n as nat) =~= seq![digit_char((n / 10) as nat)] + seq![
            digit_char((n % 10) as nat),
        ]);
    } else {
        out.append(digit_str(n));
    }
}

pub open spec fn same_disk(a: DiskInfo, b: DiskInfo) -> bool {
    a.name@ == b.name@ && a.size@ == b.size@ && a.model@ == b.model@
}

impl DiskInfo {
    /// A copy of the disk's description.
    pub fn duplicate(&self) -> (r: DiskInfo)
        ensures
            same_disk(r, *self),
    {
        DiskInfo { name: self.name.clone(), size: self.size.clone(), model: self.model.clone() }
    }

    pub fn device_path(&self) -> (r: String)
        ensures
            r@ == device_path_of(self.name@),
    {
        let mut out = String::from_str("/dev/");
        out.append(self.name.as_str());
        out
    }

    pub fn partition_path(&self, index: u8) -> (r: String)
        ensures
            r@ == partition_path_of(self.name@, index as nat),
    {
        let cs = chars_of(self.name.as_str());
        let needs_p = cs.len() > 0 && '0' <= cs[cs.len() - 1] && cs[cs.len() - 1] <= '9';
        let mut out = String::from_str("/dev/");
        out.append(self.name.as_str());
        if needs_p {
            out.append("p");
        }
        push_decimal(&mut out, index);
        out
    }

    pub fn label(&self) -> (r: String)
        ensures
            r@ == disk_label_of(self.name@, self.size@, self.model@),
    {
        let mut out = self.name.clone();
        out.append(" (");
        out.append(self.size.as_str());
        if self.model.as_str().unicode_len() == 0 {
            out.append(")");
        } else {
            out.append(") ");
            out.append(self.model.as_str());
        }
        out
    }
}

} // verus!
