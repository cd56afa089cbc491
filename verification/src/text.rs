//! Small text helpers: comparison, decimal numbers and quoted byte strings.

use vstd::prelude::*;

verus! {

/// `String::push` appends one character to the end of the string.
pub assume_specification[ String::push ](s: &mut String, ch: char)
    ensures
        final(s)@ == old(s)@.push(ch),
;

/// Tells whether two texts hold the same characters.
pub fn text_eq(a: &str, b: &str) -> (same: bool)
    ensures
        same == (a@ == b@),
{
    let left = a.to_owned();
    let right = b.to_owned();
    left == right
}

/// The character that writes the digit `d` in bases up to sixteen, in lower
/// case.
pub open spec fn digit_char(d: int) -> char
    recommends
        0 <= d < 16,
{
    if d < 10 {
        (d + 48) as u8 as char
    } else {
        (d + 87) as u8 as char
    }
}

/// The decimal text of `n`, without sign or leading zeros.
pub open spec fn decimal_text(n: nat) -> Seq<char>
    decreases n,
{
    if n < 10 {
        seq![digit_char(n as int)]
    } else {
        decimal_text(n / 10).push(digit_char((n % 10) as int))
    }
}

/// The lower-case hexadecimal text of a byte, without leading zero.
pub open spec fn hex_text(b: u8) -> Seq<char> {
    if b < 16 {
        seq![digit_char(b as int)]
    } else {
        seq![digit_char(b as int / 16), digit_char(b as int % 16)]
    }
}

/// A byte that prints as itself: a printable ASCII character or a tab.
pub open spec fn is_visible(b: u8) -> bool {
    (32 <= b && b < 127) || b == 9
}

/// How one byte is shown inside a quoted byte string: visible bytes as
/// themselves, the quotation mark behind a backslash, any other byte as
/// `\x` and its hexadecimal value.
pub open spec fn escaped_byte(b: u8) -> Seq<char> {
    if b == 34 {
        seq!['\\', '"']
    } else if is_visible(b) {
        seq![b as char]
    } else {
        seq!['\\', 'x'] + hex_text(b)
    }
}

/// The escaped forms of all bytes, in order.
pub open spec fn escaped_text(bytes: Seq<u8>) -> Seq<char>
    decreases bytes.len(),
{
    if bytes.len() == 0 {
        Seq::empty()
    } else {
        escaped_text(bytes.drop_last()) + escaped_byte(bytes.last())
    }
}

/// A byte string between quotation marks, with its bytes escaped.
pub open spec fn quoted_text(bytes: Seq<u8>) -> Seq<char> {
    seq!['"'] + escaped_text(bytes) + seq!['"']
}

/// Bytes that are visible and hold no quotation mark are shown as they
/// are: the quoted text is the bytes, read as characters, between two
/// quotation marks.
pub proof fn lemma_plain_bytes_are_quoted_as_they_are(bytes: Seq<u8>)
    requires
        forall|i: int| 0 <= i < bytes.len() ==> is_visible(#[trigger] bytes[i]) && bytes[i] != 34,
    ensures
        escaped_text(bytes) == Seq::new(bytes.len(), |i: int| bytes[i] as char),
        quoted_text(bytes) == seq!['"'] + Seq::new(bytes.len(), |i: int| bytes[i] as char) + seq![
            '"',
        ],
    decreases bytes.len(),
{
    if bytes.len() > 0 {
        lemma_plain_bytes_are_quoted_as_they_are(bytes.drop_last());
        assert(is_visible(bytes.last()));
    }
    assert(escaped_text(bytes) =~= Seq::new(bytes.len(), |i: int| bytes[i] as char));
}

fn digit(d: u8) -> (c: char)
    requires
        d < 16,
    ensures
        c == digit_char(d as int),
{
    if d < 10 {
        (d + 48u8) as char
    } else {
        (d + 87u8) as char
    }
}

/// Writes `n` in decimal.
pub fn decimal(n: u16) -> (text: String)
    ensures
        text@ == decimal_text(n as nat),
    decreases n,
{
    if n < 10 {
        let mut text = String::new();
        text.push(digit(n as u8));
        text
    } else {
        let mut text = decimal(n / 10);
        text.push(digit((n % 10) as u8));
        text
    }
}

fn push_escaped(text: &mut String, b: u8)
    ensures
        final(text)@ == old(text)@ + escaped_byte(b),
{
    if b == 34 {
        text.push('\\');
        text.push('"');
    } else if (32 <= b && b < 127) || b == 9 {
        text.push(b as char);
    } else {
        text.push('\\');
        text.push('x');
        if b >= 16 {
            text.push(digit(b / 16));
        }
        text.push(digit(b % 16));
    }
    assert(text@ =~= old(text)@ + escaped_byte(b));
}

/// Writes a byte string between quotation marks, escaping what would not
/// print.
pub fn quoted(bytes: &Vec<u8>) -> (text: String)
    ensures
        text@ == quoted_text(bytes@),
{
    let mut text = String::new();
    text.push('"');
    let mut i: usize = 0;
    while i < bytes.len()
        invariant
            i <= bytes.len(),
            text@ == seq!['"'] + escaped_text(bytes@.take(i as int)),
        decreases bytes.len() - i,
    {
        let ghost before = text@;
        push_escaped(&mut text, bytes[i]);
        proof {
            let upto = bytes@.take(i as int + 1);
            assert(upto.drop_last() =~= bytes@.take(i as int));
            assert(upto.last() == bytes@[i as int]);
            assert(text@ =~= seq!['"'] + escaped_text(upto));
        }
        i = i + 1;
    }
    proof {
        assert(bytes@.take(i as int) =~= bytes@);
    }
    text.push('"');
    assert(text@ =~= quoted_text(bytes@));
    text
}

} // verus!
