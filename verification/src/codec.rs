//! The message codec: command text to wire bytes and reply bytes back to text.

use vstd::prelude::*;
use vstd::string::StringSliceAdditionalSpecFns;
use vstd::utf8::{decode_utf8, valid_utf8};

verus! {

/// Marks the end of an argument, and the end of the payload.
pub const SEPARATOR: u8 = 0;

/// Splits arguments outside of quotes.
pub const SPACE: u8 = 0x20;

pub const DOUBLE_QUOTE: u8 = 0x22;

pub const SINGLE_QUOTE: u8 = 0x27;

pub open spec fn is_quote(byte: u8) -> bool {
    byte == DOUBLE_QUOTE || byte == SINGLE_QUOTE
}

/// What a left-to-right scan has produced so far: the bytes emitted and the
/// quote character that is open, if any.
pub struct Scan {
    pub out: Seq<u8>,
    pub open: Option<u8>,
}

pub open spec fn ends_with_separator(out: Seq<u8>) -> bool {
    out.len() > 0 && out.last() == SEPARATOR
}

/// One byte of input applied to a scan.
///
/// A quote opens a span, closes the span it opened, or stands for itself
/// inside a span of the other quote. A space outside of any span becomes a
/// separator unless it would lead the output or follow another separator.
/// Every other byte is copied.
pub open spec fn scan_step(scan: Scan, byte: u8) -> Scan {
    if is_quote(byte) {
        match scan.open {
            None => Scan { out: scan.out, open: Some(byte) },
            Some(q) => if q == byte {
                Scan { out: scan.out, open: None }
            } else {
                Scan { out: scan.out.push(byte), open: scan.open }
            },
        }
    } else if byte == SPACE && scan.open is None {
        if scan.out.len() == 0 || ends_with_separator(scan.out) {
            scan
        } else {
            Scan { out: scan.out.push(SEPARATOR), open: scan.open }
        }
    } else {
        Scan { out: scan.out.push(byte), open: scan.open }
    }
}

/// The scan of a whole input, byte by byte from the left.
pub open spec fn scan(input: Seq<u8>) -> Scan
    decreases input.len(),
{
    if input.len() == 0 {
        Scan { out: Seq::empty(), open: None }
    } else {
        scan_step(scan(input.drop_last()), input.last())
    }
}

/// A buffer closed by one terminator: appended unless the buffer ends in one.
pub open spec fn terminated(out: Seq<u8>) -> Seq<u8> {
    if ends_with_separator(out) {
        out
    } else {
        out.push(SEPARATOR)
    }
}

/// The wire bytes of a command.
pub open spec fn encode_spec(input: Seq<u8>) -> Seq<u8> {
    terminated(scan(input).out)
}

/// Encodes the bytes of a command: quotes stripped, unquoted spaces turned into
/// single separators, one terminator at the end.
pub fn encode_bytes(input: &[u8]) -> (payload: Vec<u8>)
    ensures
        payload@ == encode_spec(input@),
{
    let mut out: Vec<u8> = Vec::new();
    let mut open: Option<u8> = None;
    let mut i: usize = 0;
    while i < input.len()
        invariant
            i <= input.len(),
            scan(input@.take(i as int)) == (Scan { out: out@, open }),
        decreases input.len() - i,
    {
        let byte = input[i];
        proof {
            assert(input@.take(i + 1).drop_last() =~= input@.take(i as int));
        }
        if byte == DOUBLE_QUOTE || byte == SINGLE_QUOTE {
            match open {
                None => {
                    open = Some(byte);
                },
                Some(q) => {
                    if q == byte {
                        open = None;
                    } else {
                        out.push(byte);
                    }
                },
            }
        } else if byte == SPACE && open.is_none() {
            if out.len() > 0 && out[out.len() - 1] != SEPARATOR {
                out.push(SEPARATOR);
            }
        } else {
            out.push(byte);
        }
        i += 1;
    }
    proof {
        assert(input@.take(i as int) =~= input@);
    }
    if out.len() == 0 || out[out.len() - 1] != SEPARATOR {
        out.push(SEPARATOR);
    }
    out
}

/// Encodes a command given as text.
pub fn encode(command: &str) -> (payload: Vec<u8>)
    ensures
        payload@ == encode_spec(command.spec_bytes()),
{
    encode_bytes(command.as_bytes())
}

/// The text that `String::from_utf8_lossy` makes of `bytes`.
pub uninterp spec fn utf8_lossy(bytes: Seq<u8>) -> Seq<char>;

/// `String::from_utf8_lossy`, whose result `Cow::into_owned` turns into a
/// `String`.
///
/// Trusted: the text is a function of the bytes alone, and bytes that are
/// valid UTF-8 come back as the text they spell. What the conversion makes of
/// invalid sequences is not stated here.
#[verifier::external_body]
fn from_utf8_lossy(bytes: &[u8]) -> (text: String)
    ensures
        text@ == utf8_lossy(bytes@),
        valid_utf8(bytes@) ==> text@ == decode_utf8(bytes@),
{
    String::from_utf8_lossy(bytes).into_owned()
}

/// The text of a reply: empty where no bytes came.
pub open spec fn decode_spec(bytes: Option<Seq<u8>>) -> Seq<char> {
    match bytes {
        None => Seq::empty(),
        Some(b) => utf8_lossy(b),
    }
}

/// Decodes reply bytes to text. Never fails: invalid sequences are replaced,
/// and absent bytes give the empty string.
pub fn decode(bytes: Option<&[u8]>) -> (text: String)
    ensures
        match bytes {
            None => text@ == decode_spec(None),
            Some(b) => text@ == decode_spec(Some(b@)) && (valid_utf8(b@) ==> text@ == decode_utf8(
                b@,
            )),
        },
{
    match bytes {
        None => String::new(),
        Some(b) => from_utf8_lossy(b),
    }
}

/// No quote is left open at the end of the input.
pub open spec fn balanced(input: Seq<u8>) -> bool {
    scan(input).open is None
}

/// The byte at `i` is a quote that stands inside a span of the other quote.
pub open spec fn nested_quote_at(input: Seq<u8>, i: int) -> bool {
    &&& 0 <= i < input.len()
    &&& is_quote(input[i])
    &&& scan(input.take(i)).open matches Some(q)
    &&& q != input[i]
}

pub open spec fn has_nested_quote(input: Seq<u8>) -> bool {
    exists|i: int| nested_quote_at(input, i)
}

/// The byte at `i` is a literal separator that arrives when the output already
/// ends in one.
pub open spec fn separator_repeated_at(input: Seq<u8>, i: int) -> bool {
    &&& 0 <= i < input.len()
    &&& input[i] == SEPARATOR
    &&& ends_with_separator(scan(input.take(i)).out)
}

pub open spec fn repeats_separator(input: Seq<u8>) -> bool {
    exists|i: int| separator_repeated_at(input, i)
}

pub open spec fn free_of_quotes(out: Seq<u8>) -> bool {
    forall|j: int| 0 <= j < out.len() ==> !is_quote(#[trigger] out[j])
}

pub open spec fn separators_apart(out: Seq<u8>) -> bool {
    forall|j: int|
        0 < j < out.len() ==> !(out[j - 1] == SEPARATOR && #[trigger] out[j] == SEPARATOR)
}

proof fn lemma_scan_push(input: Seq<u8>, byte: u8)
    ensures
        scan(input.push(byte)) == scan_step(scan(input), byte),
{
    assert(input.push(byte).drop_last() =~= input);
}

proof fn lemma_nested_quote_push(input: Seq<u8>, byte: u8)
    ensures
        has_nested_quote(input.push(byte)) <==> has_nested_quote(input) || nested_quote_at(
            input.push(byte),
            input.len() as int,
        ),
{
    let longer = input.push(byte);
    assert forall|i: int| 0 <= i < input.len() implies nested_quote_at(longer, i)
        == nested_quote_at(input, i) by {
        assert(longer.take(i) =~= input.take(i));
    }
}

proof fn lemma_separator_repeated_push(input: Seq<u8>, byte: u8)
    ensures
        repeats_separator(input.push(byte)) <==> repeats_separator(input) || separator_repeated_at(
            input.push(byte),
            input.len() as int,
        ),
{
    let longer = input.push(byte);
    assert forall|i: int| 0 <= i < input.len() implies separator_repeated_at(longer, i)
        == separator_repeated_at(input, i) by {
        assert(longer.take(i) =~= input.take(i));
    }
}

proof fn lemma_push_free_of_quotes(out: Seq<u8>, byte: u8)
    ensures
        free_of_quotes(out.push(byte)) <==> free_of_quotes(out) && !is_quote(byte),
{
    let longer = out.push(byte);
    if free_of_quotes(longer) {
        assert forall|j: int| 0 <= j < out.len() implies !is_quote(#[trigger] out[j]) by {
            assert(longer[j] == out[j]);
        }
        assert(longer[out.len() as int] == byte);
    }
}

proof fn lemma_push_separators_apart(out: Seq<u8>, byte: u8)
    ensures
        separators_apart(out.push(byte)) <==> separators_apart(out) && !(ends_with_separator(out)
            && byte == SEPARATOR),
{
    let longer = out.push(byte);
    if separators_apart(longer) {
        assert forall|j: int| 0 < j < out.len() implies !(out[j - 1] == SEPARATOR
            && #[trigger] out[j] == SEPARATOR) by {
            assert(longer[j] == out[j]);
            assert(longer[j - 1] == out[j - 1]);
        }
        if out.len() > 0 {
            assert(longer[out.len() as int] == byte);
        }
    }
}

proof fn lemma_scan_free_of_quotes(input: Seq<u8>)
    ensures
        free_of_quotes(scan(input).out) <==> !has_nested_quote(input),
    decreases input.len(),
{
    if input.len() > 0 {
        let shorter = input.drop_last();
        let byte = input.last();
        assert(shorter.push(byte) =~= input);
        lemma_scan_free_of_quotes(shorter);
        lemma_scan_push(shorter, byte);
        lemma_nested_quote_push(shorter, byte);
        lemma_push_free_of_quotes(scan(shorter).out, byte);
        lemma_push_free_of_quotes(scan(shorter).out, SEPARATOR);
    }
}

proof fn lemma_scan_separators_apart(input: Seq<u8>)
    ensures
        separators_apart(scan(input).out) <==> !repeats_separator(input),
    decreases input.len(),
{
    if input.len() > 0 {
        let shorter = input.drop_last();
        let byte = input.last();
        assert(shorter.push(byte) =~= input);
        lemma_scan_separators_apart(shorter);
        lemma_scan_push(shorter, byte);
        lemma_separator_repeated_push(shorter, byte);
        lemma_push_separators_apart(scan(shorter).out, byte);
        lemma_push_separators_apart(scan(shorter).out, SEPARATOR);
    }
}

/// The payload holds a quote byte exactly when the input holds a quote inside
/// a span of the other quote: such a byte is content, every other quote is
/// stripped.
pub proof fn law_quotes_stripped(input: Seq<u8>)
    ensures
        free_of_quotes(encode_spec(input)) <==> !has_nested_quote(input),
{
    lemma_scan_free_of_quotes(input);
    lemma_push_free_of_quotes(scan(input).out, SEPARATOR);
}

/// The payload holds two separators in a row exactly when the input holds a
/// literal separator byte that arrives right after a separator: spaces alone
/// never produce a run.
pub proof fn law_separators_collapsed(input: Seq<u8>)
    ensures
        separators_apart(encode_spec(input)) <==> !repeats_separator(input),
{
    lemma_scan_separators_apart(input);
    lemma_push_separators_apart(scan(input).out, SEPARATOR);
}

/// An input with balanced quotes, none of them inside a span of the other
/// quote, and without a literal separator after a separator, encodes to a
/// payload with no quote byte and no two separators in a row.
pub proof fn law_balanced_input_encodes_cleanly(input: Seq<u8>)
    requires
        balanced(input),
        !has_nested_quote(input),
        !repeats_separator(input),
    ensures
        free_of_quotes(encode_spec(input)),
        separators_apart(encode_spec(input)),
{
    law_quotes_stripped(input);
    law_separators_collapsed(input);
}

/// Every payload ends in a terminator, and the terminator is appended only
/// where the scanned bytes do not already end in one: terminating twice is
/// terminating once.
pub proof fn law_one_terminator(input: Seq<u8>)
    ensures
        ends_with_separator(encode_spec(input)),
        ends_with_separator(scan(input).out) ==> encode_spec(input) == scan(input).out,
        !ends_with_separator(scan(input).out) ==> encode_spec(input) == scan(input).out.push(
            SEPARATOR,
        ),
        terminated(encode_spec(input)) == encode_spec(input),
{
}

/// Unless the input holds a literal separator right after a separator, the
/// payload ends in exactly one terminator: the byte before it is no
/// separator.
pub proof fn law_exactly_one_terminator(input: Seq<u8>)
    requires
        !repeats_separator(input),
    ensures
        ends_with_separator(encode_spec(input)),
        encode_spec(input).len() >= 2 ==> encode_spec(input)[encode_spec(input).len() - 2]
            != SEPARATOR,
{
    law_separators_collapsed(input);
}

/// A space after an input with balanced quotes adds nothing to the payload:
/// the separator it stands for is the terminator.
pub proof fn law_trailing_space_absorbed(input: Seq<u8>)
    requires
        balanced(input),
    ensures
        encode_spec(input.push(SPACE)) == encode_spec(input),
{
    lemma_scan_push(input, SPACE);
}

} // verus!
