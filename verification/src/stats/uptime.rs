//! Uptime, split over the units that are asked for.

use vstd::prelude::*;
use vstd::string::StringExecFns;
use crate::text::{contains_text, decimal, push_decimal, texts};

verus! {

/// The number of units of time, from weeks down to seconds.
pub const UNITS: usize = 5;

/// The name of the unit at `i`, as flags spell it.
pub open spec fn unit_name_spec(i: int) -> Seq<char> {
    if i == 0 {
        "week"@
    } else if i == 1 {
        "day"@
    } else if i == 2 {
        "hour"@
    } else if i == 3 {
        "min"@
    } else {
        "sec"@
    }
}

/// The length of the unit at `i` in seconds.
pub open spec fn unit_seconds_spec(i: int) -> nat {
    if i == 0 {
        604800
    } else if i == 1 {
        86400
    } else if i == 2 {
        3600
    } else if i == 3 {
        60
    } else {
        1
    }
}

/// The letter that follows a value in the unit at `i`.
pub open spec fn unit_suffix_spec(i: int) -> Seq<char> {
    if i == 0 {
        "w"@
    } else if i == 1 {
        "d"@
    } else if i == 2 {
        "h"@
    } else if i == 3 {
        "m"@
    } else {
        "s"@
    }
}

/// A unit is used where the flags name it, and every unit where there are no
/// flags. Flags that name no unit select nothing, and a flag counts once
/// however often it is given.
pub open spec fn selected(flags: Seq<Seq<char>>, i: int) -> bool {
    flags.len() == 0 || flags.contains(unit_name_spec(i))
}

/// What stands for an uptime too short to show in any selected unit: zero in
/// the smallest selected unit, or in seconds where no unit is selected.
pub open spec fn zero_text(flags: Seq<Seq<char>>) -> Seq<char> {
    "0"@ + (if selected(flags, 4) {
        unit_suffix_spec(4)
    } else if selected(flags, 3) {
        unit_suffix_spec(3)
    } else if selected(flags, 2) {
        unit_suffix_spec(2)
    } else if selected(flags, 1) {
        unit_suffix_spec(1)
    } else if selected(flags, 0) {
        unit_suffix_spec(0)
    } else {
        unit_suffix_spec(4)
    })
}

/// The text for the units from `i` on, with `secs` still to be shown.
/// Each selected unit that fits takes its whole multiple and leaves the rest
/// to the smaller ones; the values are set apart by single spaces. `written`
/// says whether a larger unit has already put down a value.
pub open spec fn uptime_from(flags: Seq<Seq<char>>, secs: nat, i: int, written: bool) -> Seq<char>
    decreases UNITS - i,
{
    if i < 0 || i >= UNITS {
        if written {
            Seq::empty()
        } else {
            zero_text(flags)
        }
    } else if selected(flags, i) && secs >= unit_seconds_spec(i) {
        (if written {
            " "@
        } else {
            Seq::empty()
        }) + decimal(secs / unit_seconds_spec(i)) + unit_suffix_spec(i) + uptime_from(
            flags,
            secs % unit_seconds_spec(i),
            i + 1,
            true,
        )
    } else {
        uptime_from(flags, secs, i + 1, written)
    }
}

/// The token of an uptime.
pub open spec fn uptime_spec(flags: Seq<Seq<char>>, secs: nat) -> Seq<char> {
    "UPTIME=\""@ + uptime_from(flags, secs, 0, false) + "\" "@
}

fn unit_name(i: usize) -> (name: &'static str)
    requires
        i < UNITS,
    ensures
        name@ == unit_name_spec(i as int),
{
    if i == 0 {
        "week"
    } else if i == 1 {
        "day"
    } else if i == 2 {
        "hour"
    } else if i == 3 {
        "min"
    } else {
        "sec"
    }
}

fn unit_seconds(i: usize) -> (seconds: u64)
    requires
        i < UNITS,
    ensures
        seconds == unit_seconds_spec(i as int),
        seconds > 0,
{
    if i == 0 {
        604800
    } else if i == 1 {
        86400
    } else if i == 2 {
        3600
    } else if i == 3 {
        60
    } else {
        1
    }
}

fn unit_suffix(i: usize) -> (suffix: &'static str)
    requires
        i < UNITS,
    ensures
        suffix@ == unit_suffix_spec(i as int),
{
    if i == 0 {
        "w"
    } else if i == 1 {
        "d"
    } else if i == 2 {
        "h"
    } else if i == 3 {
        "m"
    } else {
        "s"
    }
}

fn is_selected(flags: &[&str], i: usize) -> (chosen: bool)
    requires
        i < UNITS,
    ensures
        chosen == selected(texts(flags@), i as int),
{
    flags.len() == 0 || contains_text(flags, unit_name(i))
}

/// Appends the token of an uptime of `uptime_secs` seconds, shown in the
/// units that `flags` name.
pub fn get_uptime_stats(uptime_secs: u64, flags: &[&str], buf: &mut String)
    ensures
        final(buf)@ == old(buf)@ + uptime_spec(texts(flags@), uptime_secs as nat),
{
    let ghost names = texts(flags@);
    let ghost whole = uptime_from(names, uptime_secs as nat, 0, false);
    buf.append("UPTIME=\"");
    let ghost head = buf@;
    let mut remaining = uptime_secs;
    let mut written = false;
    let mut smallest: usize = UNITS;
    let mut i: usize = 0;
    let ghost mut done: Seq<char> = Seq::empty();
    while i < UNITS
        invariant
            i <= UNITS,
            names == texts(flags@),
            buf@ == head + done,
            done + uptime_from(names, remaining as nat, i as int, written) == whole,
            smallest <= UNITS,
            smallest < UNITS ==> selected(names, smallest as int),
            forall|j: int| smallest < j < i ==> !selected(names, j),
            smallest == UNITS ==> forall|j: int| 0 <= j < i ==> !selected(names, j),
            smallest < UNITS ==> smallest < i,
        decreases UNITS - i,
    {
        let chosen = is_selected(flags, i);
        if chosen {
            smallest = i;
        }
        let seconds = unit_seconds(i);
        if chosen && remaining >= seconds {
            if written {
                buf.append(" ");
            }
            push_decimal(buf, remaining / seconds);
            buf.append(unit_suffix(i));
            let ghost piece = (if written {
                " "@
            } else {
                Seq::empty()
            }) + decimal((remaining / seconds) as nat) + unit_suffix_spec(i as int);
            remaining = remaining % seconds;
            written = true;
            proof {
                done = done + piece;
            }
        }
        i += 1;
    }
    if !written {
        buf.append("0");
        if smallest < UNITS {
            buf.append(unit_suffix(smallest));
        } else {
            buf.append("s");
        }
    }
    buf.append("\" ");
}

} // verus!
