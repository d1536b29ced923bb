//! Percent-encoding: how a value stands in the query of an address.
//!
//! A value is encoded by its UTF-8 bytes. The unreserved bytes (letters, digits, `-`, `.`,
//! `_`, `~`) stand for themselves; every other byte stands as `%` and two upper-case
//! hexadecimal digits.

use vstd::prelude::*;
use vstd::utf8::encode_utf8;

verus! {

/// Taken on trust from the standard library, not proved here: [`String::push`] appends the
/// given character at the end of the string and leaves what stood before it as it was.
pub assume_specification[ String::push ](s: &mut String, c: char)
    ensures
        final(s)@ == old(s)@.push(c),
;

/// The characters that stand for themselves in a query: letters, digits, `-`, `.`, `_`
/// and `~`.
pub open spec fn is_unreserved_char(c: char) -> bool {
    ||| 'A' <= c <= 'Z'
    ||| 'a' <= c <= 'z'
    ||| '0' <= c <= '9'
    ||| c == '-'
    ||| c == '.'
    ||| c == '_'
    ||| c == '~'
}

/// The bytes that stand for themselves in a query: the codes of the unreserved characters.
pub open spec fn spec_is_unreserved(b: u8) -> bool {
    is_unreserved_char(b as char)
}

/// The sixteen digits of an escape, in order.
pub open spec fn hex_digits() -> Seq<char> {
    seq!['0', '1', '2', '3', '4', '5', '6', '7', '8', '9', 'A', 'B', 'C', 'D', 'E', 'F']
}

/// How one byte stands in a query: an unreserved byte as itself, any other as `%` and its
/// value in two upper-case hexadecimal digits.
pub open spec fn escaped(b: u8) -> Seq<char> {
    if spec_is_unreserved(b) {
        seq![b as char]
    } else {
        seq!['%', hex_digits()[b as int / 16], hex_digits()[b as int % 16]]
    }
}

/// How a sequence of bytes stands in a query: each byte as [`escaped`] says, in order.
pub open spec fn percent_encoded(bytes: Seq<u8>) -> Seq<char>
    decreases bytes.len(),
{
    if bytes.len() == 0 {
        Seq::empty()
    } else {
        percent_encoded(bytes.drop_last()) + escaped(bytes.last())
    }
}

/// The characters that a percent-encoding is made of: the unreserved ones, and `%`.
pub open spec fn is_query_safe(c: char) -> bool {
    c == '%' || is_unreserved_char(c)
}

/// A text of unreserved characters only.
pub open spec fn is_plain(text: Seq<char>) -> bool {
    forall|i: int| 0 <= i < text.len() ==> is_unreserved_char(#[trigger] text[i])
}

/// Whether the byte stands for itself in a query.
#[verifier::when_used_as_spec(spec_is_unreserved)]
pub fn is_unreserved(b: u8) -> (r: bool)
    ensures
        r == spec_is_unreserved(b),
{
    (b >= 0x41 && b <= 0x5A) || (b >= 0x61 && b <= 0x7A) || (b >= 0x30 && b <= 0x39) || b == 0x2D
        || b == 0x2E || b == 0x5F || b == 0x7E
}

/// The hexadecimal digit of a value below sixteen.
fn hex_digit(n: u8) -> (c: char)
    requires
        n < 16,
    ensures
        c == hex_digits()[n as int],
{
    if n < 10 {
        (0x30 + n) as char
    } else {
        (0x37 + n) as char
    }
}

/// Appends the percent-encoding of the text's UTF-8 bytes.
pub(crate) fn push_percent_encoded(out: &mut String, text: &str)
    ensures
        final(out)@ == old(out)@ + percent_encoded(encode_utf8(text@)),
{
    let bytes = text.as_bytes();
    let ghost before = out@;
    let mut i: usize = 0;
    while i < bytes.len()
        invariant
            i <= bytes@.len(),
            out@ == before + percent_encoded(bytes@.take(i as int)),
        decreases bytes@.len() - i,
    {
        let b = bytes[i];
        proof {
            let next = bytes@.take(i + 1);
            assert(next.drop_last() == bytes@.take(i as int));
            assert(next.last() == b);
            assert(percent_encoded(next) == percent_encoded(bytes@.take(i as int)) + escaped(b));
        }
        if is_unreserved(b) {
            out.push(b as char);
        } else {
            out.push('%');
            out.push(hex_digit(b / 16));
            out.push(hex_digit(b % 16));
        }
        i += 1;
    }
    assert(bytes@.take(i as int) == bytes@);
}

/// The percent-encoding of a text, by its UTF-8 bytes. Whatever the text holds, the result
/// is made of unreserved characters and `%` alone.
pub fn percent_encode(text: &str) -> (encoded: String)
    ensures
        encoded@ == percent_encoded(encode_utf8(text@)),
        forall|i: int| 0 <= i < encoded@.len() ==> is_query_safe(#[trigger] encoded@[i]),
{
    let mut encoded = String::new();
    push_percent_encoded(&mut encoded, text);
    proof {
        lemma_percent_encoded_is_query_safe(encode_utf8(text@));
    }
    encoded
}

/// Whatever the bytes, their percent-encoding holds nothing but unreserved characters and
/// `%`: no byte of a value can end the parameter it stands in, or begin another.
pub proof fn lemma_percent_encoded_is_query_safe(bytes: Seq<u8>)
    ensures
        forall|i: int|
            0 <= i < percent_encoded(bytes).len() ==> is_query_safe(
                #[trigger] percent_encoded(bytes)[i],
            ),
    decreases bytes.len(),
{
    if bytes.len() > 0 {
        lemma_percent_encoded_is_query_safe(bytes.drop_last());
        let b = bytes.last();
        let head = percent_encoded(bytes.drop_last());
        assert forall|i: int| 0 <= i < escaped(b).len() implies is_query_safe(
            #[trigger] escaped(b)[i],
        ) by {
            if !spec_is_unreserved(b) {
                let high = b as int / 16;
                let low = b as int % 16;
                assert(0 <= high < 16 && 0 <= low < 16);
                assert(forall|n: int| 0 <= n < 16 ==> is_query_safe(#[trigger] hex_digits()[n]));
            }
        }
        assert forall|i: int| 0 <= i < percent_encoded(bytes).len() implies is_query_safe(
            #[trigger] percent_encoded(bytes)[i],
        ) by {
            if i >= head.len() {
                assert(percent_encoded(bytes)[i] == escaped(b)[i - head.len()]);
            }
        }
    }
}

/// In a percent-encoding every `%` is followed by two more characters.
proof fn lemma_escape_is_complete(bytes: Seq<u8>, i: int)
    requires
        0 <= i < percent_encoded(bytes).len(),
        percent_encoded(bytes)[i] == '%',
    ensures
        i + 2 < percent_encoded(bytes).len(),
    decreases bytes.len(),
{
    if bytes.len() > 0 {
        let head = percent_encoded(bytes.drop_last());
        if i < head.len() {
            lemma_escape_is_complete(bytes.drop_last(), i);
        } else {
            assert(percent_encoded(bytes)[i] == escaped(bytes.last())[i - head.len()]);
        }
    }
}

/// Bytes with one percent-encoding are the same bytes: nothing is lost on the way to the
/// provider, which reads back exactly what was given.
pub proof fn lemma_percent_encoded_is_injective(a: Seq<u8>, b: Seq<u8>)
    requires
        percent_encoded(a) == percent_encoded(b),
    ensures
        a == b,
    decreases a.len(),
{
    if a.len() == 0 || b.len() == 0 {
        if a.len() > 0 {
            assert(percent_encoded(a).len() >= escaped(a.last()).len());
        }
        if b.len() > 0 {
            assert(percent_encoded(b).len() >= escaped(b.last()).len());
        }
        assert(a =~= b);
    } else {
        let x = a.last();
        let y = b.last();
        let all = percent_encoded(a);
        let n = all.len() as int;
        let head_a = percent_encoded(a.drop_last());
        let head_b = percent_encoded(b.drop_last());
        assert(all == head_a + escaped(x));
        assert(all == head_b + escaped(y));
        if spec_is_unreserved(x) && !spec_is_unreserved(y) {
            assert(all[n - 3] == escaped(y)[0]);
            assert(head_a[n - 3] == all[n - 3]);
            lemma_escape_is_complete(a.drop_last(), n - 3);
        } else if !spec_is_unreserved(x) && spec_is_unreserved(y) {
            assert(all[n - 3] == escaped(x)[0]);
            assert(head_b[n - 3] == all[n - 3]);
            lemma_escape_is_complete(b.drop_last(), n - 3);
        } else if spec_is_unreserved(x) {
            assert(all[n - 1] == escaped(x)[0]);
            assert(all[n - 1] == escaped(y)[0]);
            assert(head_a =~= all.take(n - 1));
            assert(head_b =~= all.take(n - 1));
        } else {
            assert(all[n - 2] == escaped(x)[1] && all[n - 1] == escaped(x)[2]);
            assert(all[n - 2] == escaped(y)[1] && all[n - 1] == escaped(y)[2]);
            assert(forall|i: int, j: int|
                0 <= i < 16 && 0 <= j < 16 && #[trigger] hex_digits()[i] == #[trigger] hex_digits()[j]
                    ==> i == j);
            assert(x as int / 16 == y as int / 16 && x as int % 16 == y as int % 16);
            assert(head_a =~= all.take(n - 3));
            assert(head_b =~= all.take(n - 3));
        }
        assert(x == y);
        lemma_percent_encoded_is_injective(a.drop_last(), b.drop_last());
        assert(a =~= a.drop_last().push(x));
        assert(b =~= b.drop_last().push(y));
    }
}

/// Texts with one percent-encoding are the same text.
pub proof fn lemma_percent_encode_is_injective(s: Seq<char>, t: Seq<char>)
    requires
        percent_encoded(encode_utf8(s)) == percent_encoded(encode_utf8(t)),
    ensures
        s == t,
{
    lemma_percent_encoded_is_injective(encode_utf8(s), encode_utf8(t));
    vstd::utf8::encode_utf8_decode_utf8(s);
    vstd::utf8::encode_utf8_decode_utf8(t);
}

/// A plain text is its own percent-encoding.
pub proof fn lemma_plain_text_is_unchanged(text: Seq<char>)
    requires
        is_plain(text),
    ensures
        percent_encoded(encode_utf8(text)) == text,
{
    vstd::utf8::is_ascii_chars_encode_utf8(text);
    let bytes = encode_utf8(text);
    assert forall|n: int| 0 <= n <= text.len() implies #[trigger] percent_encoded(bytes.take(n))
        == text.take(n) by {
        lemma_plain_prefix_is_unchanged(text, bytes, n);
    }
    assert(bytes.take(text.len() as int) == bytes);
    assert(text.take(text.len() as int) == text);
}

proof fn lemma_plain_prefix_is_unchanged(text: Seq<char>, bytes: Seq<u8>, n: int)
    requires
        is_plain(text),
        bytes.len() == text.len(),
        forall|i: int| 0 <= i < text.len() ==> text[i] as u8 == #[trigger] bytes[i],
        0 <= n <= text.len(),
    ensures
        percent_encoded(bytes.take(n)) == text.take(n),
    decreases n,
{
    if n > 0 {
        lemma_plain_prefix_is_unchanged(text, bytes, n - 1);
        assert(bytes.take(n).drop_last() == bytes.take(n - 1));
        assert(bytes.take(n).last() == bytes[n - 1]);
        assert(text[n - 1] as u8 as char == text[n - 1]);
        assert(text.take(n) == text.take(n - 1).push(text[n - 1]));
    }
}

} // verus!
