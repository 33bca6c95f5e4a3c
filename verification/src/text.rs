//! Text as the payload needs it: comparison of names, numbers in decimal and
//! the `KEY="value" ` tokens that a payload is made of.

use vstd::prelude::*;
use vstd::string::{StringExecFns, StringSliceAdditionalSpecFns};
use vstd::utf8::{encode_utf8, encode_utf8_decode_utf8};

verus! {

/// Whether two texts are the same, character for character.
pub fn same_text(a: &str, b: &str) -> (same: bool)
    ensures
        same == (a@ == b@),
{
    let left = a.as_bytes();
    let right = b.as_bytes();
    proof {
        encode_utf8_decode_utf8(a@);
        encode_utf8_decode_utf8(b@);
    }
    if left.len() != right.len() {
        return false;
    }
    let mut i: usize = 0;
    while i < left.len()
        invariant
            i <= left.len(),
            left.len() == right.len(),
            left@ == encode_utf8(a@),
            right@ == encode_utf8(b@),
            forall|j: int| 0 <= j < i ==> left@[j] == right@[j],
        decreases left.len() - i,
    {
        if left[i] != right[i] {
            return false;
        }
        i += 1;
    }
    assert(left@ =~= right@);
    true
}

/// The texts of a list of names.
pub open spec fn texts<'a>(names: Seq<&'a str>) -> Seq<Seq<char>> {
    names.map_values(|name: &'a str| name@)
}

/// The texts of a list of owned names.
pub open spec fn owned_texts(names: Seq<String>) -> Seq<Seq<char>> {
    names.map_values(|name: String| name@)
}

/// Whether a list of names holds a name.
pub fn contains_text(names: &[&str], name: &str) -> (found: bool)
    ensures
        found == texts(names@).contains(name@),
{
    let mut i: usize = 0;
    while i < names.len()
        invariant
            i <= names.len(),
            forall|j: int| 0 <= j < i ==> texts(names@)[j] != name@,
        decreases names.len() - i,
    {
        if same_text(names[i], name) {
            assert(texts(names@)[i as int] == name@);
            return true;
        }
        i += 1;
    }
    false
}

/// Whether a list of owned names holds a name.
pub fn contains_owned_text(names: &[String], name: &str) -> (found: bool)
    ensures
        found == owned_texts(names@).contains(name@),
{
    let mut i: usize = 0;
    while i < names.len()
        invariant
            i <= names.len(),
            forall|j: int| 0 <= j < i ==> owned_texts(names@)[j] != name@,
        decreases names.len() - i,
    {
        if same_text(names[i].as_str(), name) {
            assert(owned_texts(names@)[i as int] == name@);
            return true;
        }
        i += 1;
    }
    false
}

/// The character of a decimal digit.
pub open spec fn digit(d: nat) -> char {
    if d == 0 {
        '0'
    } else if d == 1 {
        '1'
    } else if d == 2 {
        '2'
    } else if d == 3 {
        '3'
    } else if d == 4 {
        '4'
    } else if d == 5 {
        '5'
    } else if d == 6 {
        '6'
    } else if d == 7 {
        '7'
    } else if d == 8 {
        '8'
    } else {
        '9'
    }
}

/// A number in decimal, without sign and without leading zeros.
pub open spec fn decimal(n: nat) -> Seq<char>
    decreases n,
{
    if n < 10 {
        seq![digit(n)]
    } else {
        decimal(n / 10).push(digit(n % 10))
    }
}

fn digit_text(d: u64) -> (text: &'static str)
    requires
        d < 10,
    ensures
        text@ == seq![digit(d as nat)],
{
    proof {
        reveal_strlit("0");
        reveal_strlit("1");
        reveal_strlit("2");
        reveal_strlit("3");
        reveal_strlit("4");
        reveal_strlit("5");
        reveal_strlit("6");
        reveal_strlit("7");
        reveal_strlit("8");
        reveal_strlit("9");
    }
    let text = if d == 0 {
        "0"
    } else if d == 1 {
        "1"
    } else if d == 2 {
        "2"
    } else if d == 3 {
        "3"
    } else if d == 4 {
        "4"
    } else if d == 5 {
        "5"
    } else if d == 6 {
        "6"
    } else if d == 7 {
        "7"
    } else if d == 8 {
        "8"
    } else {
        "9"
    };
    text
}

/// Appends a number in decimal.
pub fn push_decimal(buf: &mut String, n: u64)
    ensures
        final(buf)@ == old(buf)@ + decimal(n as nat),
    decreases n,
{
    if n >= 10 {
        push_decimal(buf, n / 10);
    }
    buf.append(digit_text(n % 10));
}

/// The unit that follows a value: none where values go without units.
pub open spec fn unit_spec(no_units: bool, unit: Seq<char>) -> Seq<char> {
    if no_units {
        Seq::empty()
    } else {
        unit
    }
}

/// One token of a payload: `KEY="value" `, where the value ends in its unit.
pub open spec fn token(key: Seq<char>, value: Seq<char>, unit: Seq<char>) -> Seq<char> {
    key + "=\""@ + value + unit + "\" "@
}

/// Appends the token of a value that is given as text.
pub fn push_token(buf: &mut String, key: &str, value: &str, unit: &str)
    ensures
        final(buf)@ == old(buf)@ + token(key@, value@, unit@),
{
    buf.append(key);
    buf.append("=\"");
    buf.append(value);
    buf.append(unit);
    buf.append("\" ");
}

/// Appends the token of a number.
pub fn push_number_token(buf: &mut String, key: &str, value: u64, unit: &str)
    ensures
        final(buf)@ == old(buf)@ + token(key@, decimal(value as nat), unit@),
{
    buf.append(key);
    buf.append("=\"");
    push_decimal(buf, value);
    buf.append(unit);
    buf.append("\" ");
}

} // verus!
