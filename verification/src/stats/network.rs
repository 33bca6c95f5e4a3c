//! Network traffic per interface, in whole kilobytes per second.

use vstd::prelude::*;
use vstd::string::StringExecFns;
use crate::text::{decimal, push_decimal, same_text, token, unit_spec};

verus! {

/// What was read of one interface: the bytes it took in and sent out since
/// the reading before.
#[derive(Clone, Debug, PartialEq, Eq)]
pub struct InterfaceReading {
    pub name: String,
    pub received: u64,
    pub transmitted: u64,
}

/// Bytes over an interval of seconds as whole kilobytes per second: both
/// divisions drop the remainder.
pub open spec fn rate(bytes: u64, interval: u32) -> nat {
    ((bytes / 1024) / (interval as u64)) as nat
}

/// The two tokens of an interface: what it received, then what it sent.
pub open spec fn interface_tokens(reading: InterfaceReading, interval: u32, no_units: bool) -> Seq<
    char,
> {
    token(
        "NETWORK_RX_"@ + reading.name@,
        decimal(rate(reading.received, interval)),
        unit_spec(no_units, "KB/s"@),
    ) + token(
        "NETWORK_TX_"@ + reading.name@,
        decimal(rate(reading.transmitted, interval)),
        unit_spec(no_units, "KB/s"@),
    )
}

/// The first reading of the interface of that name, if there is one.
pub open spec fn reading_of(readings: Seq<InterfaceReading>, name: Seq<char>) -> Option<
    InterfaceReading,
>
    decreases readings.len(),
{
    if readings.len() == 0 {
        None
    } else if readings.first().name@ == name {
        Some(readings.first())
    } else {
        reading_of(readings.drop_first(), name)
    }
}

/// The tokens of the interfaces that are asked for, in the order asked. An
/// interface that was not read has no tokens.
pub open spec fn named_tokens(
    readings: Seq<InterfaceReading>,
    names: Seq<String>,
    interval: u32,
    no_units: bool,
) -> Seq<char>
    decreases names.len(),
{
    if names.len() == 0 {
        Seq::empty()
    } else {
        named_tokens(readings, names.drop_last(), interval, no_units) + (match reading_of(
            readings,
            names.last()@,
        ) {
            Some(reading) => interface_tokens(reading, interval, no_units),
            None => Seq::empty(),
        })
    }
}

/// The tokens of every interface that was read, in the order read.
pub open spec fn all_tokens(readings: Seq<InterfaceReading>, interval: u32, no_units: bool) -> Seq<
    char,
>
    decreases readings.len(),
{
    if readings.len() == 0 {
        Seq::empty()
    } else {
        all_tokens(readings.drop_last(), interval, no_units) + interface_tokens(
            readings.last(),
            interval,
            no_units,
        )
    }
}

/// What the network adds to a payload: nothing for an interval of zero, the
/// named interfaces where names are given, and every interface else.
pub open spec fn network_spec(
    readings: Seq<InterfaceReading>,
    interfaces: Option<Seq<String>>,
    interval: u32,
    no_units: bool,
) -> Seq<char> {
    if interval == 0 {
        Seq::empty()
    } else {
        match interfaces {
            Some(names) => named_tokens(readings, names, interval, no_units),
            None => all_tokens(readings, interval, no_units),
        }
    }
}

fn find_reading<'a>(readings: &'a [InterfaceReading], name: &str) -> (found: Option<
    &'a InterfaceReading,
>)
    ensures
        match found {
            Some(reading) => reading_of(readings@, name@) == Some(*reading),
            None => reading_of(readings@, name@) is None,
        },
{
    let mut i: usize = 0;
    assert(readings@.skip(0) =~= readings@);
    while i < readings.len()
        invariant
            i <= readings.len(),
            reading_of(readings@, name@) == reading_of(readings@.skip(i as int), name@),
        decreases readings.len() - i,
    {
        proof {
            assert(readings@.skip(i as int).drop_first() =~= readings@.skip(i + 1));
        }
        if same_text(readings[i].name.as_str(), name) {
            return Some(&readings[i]);
        }
        i += 1;
    }
    None
}

fn push_interface(buf: &mut String, reading: &InterfaceReading, interval: u32, no_units: bool)
    requires
        interval > 0,
    ensures
        final(buf)@ == old(buf)@ + interface_tokens(*reading, interval, no_units),
{
    let unit = if no_units {
        proof {
            reveal_strlit("");
        }
        ""
    } else {
        "KB/s"
    };
    buf.append("NETWORK_RX_");
    buf.append(reading.name.as_str());
    buf.append("=\"");
    push_decimal(buf, (reading.received / 1024) / (interval as u64));
    buf.append(unit);
    buf.append("\" ");
    buf.append("NETWORK_TX_");
    buf.append(reading.name.as_str());
    buf.append("=\"");
    push_decimal(buf, (reading.transmitted / 1024) / (interval as u64));
    buf.append(unit);
    buf.append("\" ");
}

/// Appends the tokens of the interfaces asked for, or of all that were read,
/// for traffic counted over `interval` seconds.
pub fn get_network_stats(
    readings: &[InterfaceReading],
    interfaces: Option<&[String]>,
    interval: u32,
    no_units: bool,
    buf: &mut String,
)
    ensures
        final(buf)@ == old(buf)@ + network_spec(
            readings@,
            match interfaces {
                Some(names) => Some(names@),
                None => None,
            },
            interval,
            no_units,
        ),
{
    if interval == 0 {
        return ;
    }
    match interfaces {
        Some(names) => {
            let mut i: usize = 0;
            while i < names.len()
                invariant
                    i <= names.len(),
                    interval > 0,
                    buf@ == old(buf)@ + named_tokens(
                        readings@,
                        names@.take(i as int),
                        interval,
                        no_units,
                    ),
                decreases names.len() - i,
            {
                proof {
                    assert(names@.take(i + 1).drop_last() =~= names@.take(i as int));
                }
                match find_reading(readings, names[i].as_str()) {
                    Some(reading) => {
                        push_interface(buf, reading, interval, no_units);
                    },
                    None => {},
                }
                i += 1;
            }
            assert(names@.take(i as int) =~= names@);
        },
        None => {
            let mut i: usize = 0;
            while i < readings.len()
                invariant
                    i <= readings.len(),
                    interval > 0,
                    buf@ == old(buf)@ + all_tokens(readings@.take(i as int), interval, no_units),
                decreases readings.len() - i,
            {
                proof {
                    assert(readings@.take(i + 1).drop_last() =~= readings@.take(i as int));
                }
                push_interface(buf, &readings[i], interval, no_units);
                i += 1;
            }
            assert(readings@.take(i as int) =~= readings@);
        },
    }
}

} // verus!
