//! Readable text for byte strings and headers, as their debug output shows them.

use vstd::prelude::*;
use vstd::string::StringExecFns;
use crate::request::Header;
use crate::text::push_char;

verus! {

/// Whether the byte is printable ASCII: from a space up to a tilde.
pub open spec fn is_printable(c: u8) -> bool {
    0x20 <= c < 0x7f
}

/// The lowercase hexadecimal digit of `d`.
pub open spec fn hex_digit(d: u8) -> char {
    if d < 10 {
        (48 + d) as char
    } else {
        (87 + d) as char
    }
}

/// How one byte is shown: a printable byte as its character, any other as
/// `\x` and two lowercase hexadecimal digits.
pub open spec fn escape_byte(c: u8) -> Seq<char> {
    if is_printable(c) {
        seq![c as char]
    } else {
        seq!['\\', 'x', hex_digit(c / 16), hex_digit(c % 16)]
    }
}

/// How the bytes `bs` are shown, one after the other.
pub open spec fn escape_bytes(bs: Seq<u8>) -> Seq<char>
    decreases bs.len(),
{
    if bs.len() == 0 {
        Seq::empty()
    } else {
        escape_bytes(bs.drop_last()) + escape_byte(bs.last())
    }
}

/// The debug text of a byte string: `b"`, its bytes shown one by one, and `"`.
pub open spec fn spec_bytes_debug(bs: Seq<u8>) -> Seq<char> {
    seq!['b', '"'] + escape_bytes(bs) + seq!['"']
}

/// The debug text of the byte string `bs`.
pub fn bytes_debug(bs: &[u8]) -> (r: String)
    ensures
        r@ == spec_bytes_debug(bs@),
{
    let mut s = String::new();
    push_char(&mut s, 'b');
    push_char(&mut s, '"');
    let mut i: usize = 0;
    assert(bs@.take(0) =~= Seq::<u8>::empty());
    assert(s@ =~= seq!['b', '"'] + escape_bytes(bs@.take(0)));
    while i < bs.len()
        invariant
            i <= bs@.len(),
            s@ == seq!['b', '"'] + escape_bytes(bs@.take(i as int)),
        decreases bs@.len() - i,
    {
        let c = bs[i];
        assert(bs@.take(i + 1).drop_last() =~= bs@.take(i as int));
        if c >= 0x20 && c < 0x7f {
            push_char(&mut s, c as char);
        } else {
            push_char(&mut s, '\\');
            push_char(&mut s, 'x');
            let hi = c / 16;
            let lo = c % 16;
            push_char(&mut s, if hi < 10 { (48 + hi) as char } else { (87 + hi) as char });
            push_char(&mut s, if lo < 10 { (48 + lo) as char } else { (87 + lo) as char });
        }
        i = i + 1;
        assert(s@ =~= seq!['b', '"'] + escape_bytes(bs@.take(i as int)));
    }
    assert(bs@.take(bs@.len() as int) =~= bs@);
    push_char(&mut s, '"');
    s
}

/// The debug text of a header: its name and its value as byte strings.
pub open spec fn spec_header_debug(name: Seq<u8>, value: Seq<u8>) -> Seq<char> {
    "Header { name: "@ + spec_bytes_debug(name) + ", value: "@ + spec_bytes_debug(value) + " }"@
}

/// The debug text of the header `h`.
pub fn header_debug(h: &Header) -> (r: String)
    ensures
        r@ == spec_header_debug(h.name@, h.value@),
{
    let mut s = "Header { name: ".to_owned();
    let name = bytes_debug(h.name.as_slice());
    s.append(name.as_str());
    s.append(", value: ");
    let value = bytes_debug(h.value.as_slice());
    s.append(value.as_str());
    s.append(" }");
    s
}

/// Printable bytes are shown as their own characters.
pub proof fn lemma_printable_shown_as_is(bs: Seq<u8>)
    requires
        forall|i: int| 0 <= i < bs.len() ==> is_printable(#[trigger] bs[i]),
    ensures
        escape_bytes(bs) == bs.map_values(|c: u8| c as char),
    decreases bs.len(),
{
    if bs.len() > 0 {
        lemma_printable_shown_as_is(bs.drop_last());
        assert(bs.drop_last().map_values(|c: u8| c as char).push(bs.last() as char)
            =~= bs.map_values(|c: u8| c as char));
    }
}

/// Whether the character is printable ASCII: from a space up to a tilde.
pub open spec fn is_printable_char(c: char) -> bool {
    ' ' <= c <= '~'
}

/// What the debug text shows of any bytes is printable ASCII only.
pub proof fn lemma_escape_printable(bs: Seq<u8>)
    ensures
        forall|i: int| 0 <= i < escape_bytes(bs).len() ==> is_printable_char(#[trigger] escape_bytes(bs)[i]),
    decreases bs.len(),
{
    if bs.len() > 0 {
        lemma_escape_printable(bs.drop_last());
        let c = bs.last();
        let prev = escape_bytes(bs.drop_last());
        let e = escape_byte(c);
        assert(c / 16 < 16 && c % 16 < 16);
        assert forall|i: int| 0 <= i < e.len() implies is_printable_char(#[trigger] e[i]) by {
        }
        assert forall|i: int| 0 <= i < escape_bytes(bs).len() implies is_printable_char(
            #[trigger] escape_bytes(bs)[i],
        ) by {
            if i < prev.len() {
                assert(escape_bytes(bs)[i] == prev[i]);
            } else {
                assert(escape_bytes(bs)[i] == e[i - prev.len()]);
            }
        }
    }
}

} // verus!
