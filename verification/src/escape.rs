//! Percent-encoding of identifiers that are placed inside a URL path.

use vstd::prelude::*;
use vstd::string::StringSliceAdditionalSpecFns;

verus! {

/// Bytes that stand for themselves inside a path segment: ASCII letters,
/// digits, `-`, `.`, `_` and `~`.
pub open spec fn is_unreserved(b: u8) -> bool {
    ||| 0x30 <= b <= 0x39
    ||| 0x41 <= b <= 0x5a
    ||| 0x61 <= b <= 0x7a
    ||| b == 0x2d
    ||| b == 0x2e
    ||| b == 0x5f
    ||| b == 0x7e
}

/// The upper-case hexadecimal digit for a value below sixteen.
pub open spec fn hex_digit(n: u8) -> char {
    if n < 10 {
        (0x30 + n) as u8 as char
    } else {
        (0x37 + n) as u8 as char
    }
}

/// What one byte becomes: itself when unreserved, otherwise `%` followed by
/// its two hexadecimal digits.
pub open spec fn encoded_byte(b: u8) -> Seq<char> {
    if is_unreserved(b) {
        seq![b as char]
    } else {
        seq!['%', hex_digit(b / 16), hex_digit(b % 16)]
    }
}

/// The percent-encoding of a byte string, byte by byte.
pub open spec fn percent_encoded(bytes: Seq<u8>) -> Seq<char>
    decreases bytes.len(),
{
    if bytes.len() == 0 {
        Seq::empty()
    } else {
        percent_encoded(bytes.drop_last()) + encoded_byte(bytes.last())
    }
}

/// `String::push`: the character is appended and nothing else changes.
#[verifier::external_body]
pub(crate) fn push_char(s: &mut String, c: char)
    ensures
        final(s)@ == old(s)@.push(c),
{
    s.push(c)
}

fn hex_char(n: u8) -> (c: char)
    requires
        n < 16,
    ensures
        c == hex_digit(n),
{
    if n < 10 {
        (0x30 + n) as char
    } else {
        (0x37 + n) as char
    }
}

fn unreserved(b: u8) -> (r: bool)
    ensures
        r == is_unreserved(b),
{
    (0x30 <= b && b <= 0x39) || (0x41 <= b && b <= 0x5a) || (0x61 <= b && b <= 0x7a) || b == 0x2d
        || b == 0x2e || b == 0x5f || b == 0x7e
}

/// Percent-encodes the UTF-8 bytes of `s` so that the result can stand as one
/// segment of a URL path.
pub fn urlencode(s: &str) -> (r: String)
    ensures
        r@ == percent_encoded(s.spec_bytes()),
{
    let bytes = s.as_bytes();
    let mut out = String::new();
    let mut i: usize = 0;
    while i < bytes.len()
        invariant
            i <= bytes.len(),
            bytes@ == s.spec_bytes(),
            out@ == percent_encoded(bytes@.take(i as int)),
        decreases bytes.len() - i,
    {
        let b = bytes[i];
        proof {
            assert(bytes@.take(i + 1).drop_last() == bytes@.take(i as int));
            assert(bytes@.take(i + 1).last() == b);
        }
        if unreserved(b) {
            push_char(&mut out, b as char);
        } else {
            push_char(&mut out, '%');
            push_char(&mut out, hex_char(b / 16));
            push_char(&mut out, hex_char(b % 16));
        }
        i += 1;
    }
    proof {
        assert(bytes@.take(i as int) == bytes@);
    }
    out
}

/// The characters that an encoded string is made of: the unreserved ones
/// and `%`.
pub open spec fn is_safe_char(c: char) -> bool {
    c == '%' || (c as u32) < 128 && is_unreserved(c as u8)
}

/// Encoding goes byte by byte: the encoding of two strings in a row is the
/// encoding of the first followed by that of the second.
pub proof fn lemma_encoded_concat(a: Seq<u8>, b: Seq<u8>)
    ensures
        percent_encoded(a + b) == percent_encoded(a) + percent_encoded(b),
    decreases b.len(),
{
    if b.len() == 0 {
        assert(a + b =~= a);
        assert(percent_encoded(a) + percent_encoded(b) =~= percent_encoded(a));
    } else {
        lemma_encoded_concat(a, b.drop_last());
        assert((a + b).drop_last() =~= a + b.drop_last());
        assert((a + b).last() == b.last());
        assert(percent_encoded(a + b) =~= percent_encoded(a) + percent_encoded(b));
    }
}

/// A byte that is not unreserved never shows up as itself: where it stood,
/// the encoding holds `%` and its two hexadecimal digits.
pub proof fn lemma_reserved_is_escaped(before: Seq<u8>, b: u8, after: Seq<u8>)
    requires
        !is_unreserved(b),
    ensures
        percent_encoded(before + seq![b] + after) == percent_encoded(before) + seq![
            '%',
            hex_digit(b / 16),
            hex_digit(b % 16),
        ] + percent_encoded(after),
{
    lemma_encoded_concat(before + seq![b], after);
    lemma_encoded_concat(before, seq![b]);
    assert(seq![b].drop_last() =~= Seq::<u8>::empty());
    assert(percent_encoded(seq![b]) =~= encoded_byte(b)) by {
        assert(percent_encoded(seq![b].drop_last()) =~= Seq::<char>::empty());
    }
}

/// An encoded string is made of unreserved characters and `%` alone.
pub proof fn lemma_encoded_is_safe(bytes: Seq<u8>)
    ensures
        forall|i: int|
            0 <= i < percent_encoded(bytes).len() ==> is_safe_char(
                #[trigger] percent_encoded(bytes)[i],
            ),
    decreases bytes.len(),
{
    if bytes.len() > 0 {
        lemma_encoded_is_safe(bytes.drop_last());
        let b = bytes.last();
        let head = percent_encoded(bytes.drop_last());
        let tail = encoded_byte(b);
        assert(forall|k: int| 0 <= k < tail.len() ==> is_safe_char(#[trigger] tail[k])) by {
            lemma_hex_digit_is_safe((b / 16) as u8);
            lemma_hex_digit_is_safe((b % 16) as u8);
        }
        assert forall|i: int| 0 <= i < percent_encoded(bytes).len() implies is_safe_char(
            #[trigger] percent_encoded(bytes)[i],
        ) by {
            if i >= head.len() {
                assert(percent_encoded(bytes)[i] == tail[i - head.len()]);
            }
        }
    }
}

/// A hexadecimal digit is an unreserved character.
pub proof fn lemma_hex_digit_is_safe(n: u8)
    requires
        n < 16,
    ensures
        is_safe_char(hex_digit(n)),
{
}

/// No character outside the safe ones stands in an encoded string. A slash
/// is such a character: an identifier cannot add a segment to a path.
pub proof fn lemma_encoded_has_no(bytes: Seq<u8>, c: char)
    requires
        !is_safe_char(c),
    ensures
        !percent_encoded(bytes).contains(c),
{
    lemma_encoded_is_safe(bytes);
}

/// Encoding read from the front: the encoding of the first byte, followed
/// by the encoding of the rest.
pub proof fn lemma_encoded_first(bytes: Seq<u8>)
    requires
        bytes.len() > 0,
    ensures
        percent_encoded(bytes) == encoded_byte(bytes[0]) + percent_encoded(bytes.drop_first()),
{
    let first = seq![bytes[0]];
    lemma_encoded_concat(first, bytes.drop_first());
    assert(first + bytes.drop_first() =~= bytes);
    assert(first.drop_last() =~= Seq::<u8>::empty());
    assert(percent_encoded(first) =~= encoded_byte(bytes[0])) by {
        assert(percent_encoded(first.drop_last()) =~= Seq::<char>::empty());
    }
}

/// Two bytes with the same encoding are the same byte.
pub proof fn lemma_encoded_byte_is_injective(a: u8, b: u8)
    requires
        encoded_byte(a) == encoded_byte(b),
    ensures
        a == b,
{
    let ea = encoded_byte(a);
    let eb = encoded_byte(b);
    assert(ea.len() == eb.len());
    assert(ea[0] == eb[0]);
    if !is_unreserved(a) {
        assert(!is_unreserved(b));
        assert(ea[1] == eb[1]);
        assert(ea[2] == eb[2]);
        assert(a / 16 == b / 16);
        assert(a % 16 == b % 16);
        assert(a == 16 * (a / 16) + a % 16);
        assert(b == 16 * (b / 16) + b % 16);
    } else {
        assert(is_unreserved(b));
        assert(ea =~= seq![a as char] && eb =~= seq![b as char]);
        assert(ea[0] == a as char && eb[0] == b as char);
        assert(a as char == b as char);
        assert((a as char) as u8 == a);
        assert((b as char) as u8 == b);
    }
}

/// Different identifiers have different encodings: the bytes can be read
/// back from the encoded string.
pub proof fn lemma_encoding_is_injective(a: Seq<u8>, b: Seq<u8>)
    requires
        percent_encoded(a) == percent_encoded(b),
    ensures
        a == b,
    decreases a.len(),
{
    if a.len() == 0 {
        assert(percent_encoded(a).len() == 0);
        if b.len() > 0 {
            lemma_encoded_first(b);
            let eb = encoded_byte(b[0]);
            let rb = percent_encoded(b.drop_first());
            assert(eb.len() > 0);
            assert((eb + rb).len() == eb.len() + rb.len());
            assert(percent_encoded(b).len() > 0);
        }
        assert(b.len() == 0);
        assert(a =~= b);
    } else {
        lemma_encoded_first(a);
        let ea = encoded_byte(a[0]);
        let ra = percent_encoded(a.drop_first());
        assert(ea.len() > 0);
        if b.len() == 0 {
            assert(percent_encoded(b).len() == 0);
            assert((ea + ra).len() == ea.len() + ra.len());
            assert(percent_encoded(a).len() > 0);
        } else {
            lemma_encoded_first(b);
            let eb = encoded_byte(b[0]);
            let rb = percent_encoded(b.drop_first());
            let whole = percent_encoded(a);
            assert(whole == ea + ra && whole == eb + rb);
            assert(whole[0] == ea[0] && whole[0] == eb[0]);
            // The first character tells an escape from an unreserved byte.
            assert(is_unreserved(a[0]) == is_unreserved(b[0]));
            if !is_unreserved(a[0]) {
                assert(whole[1] == ea[1] && whole[1] == eb[1]);
                assert(whole[2] == ea[2] && whole[2] == eb[2]);
            }
            assert(ea =~= eb);
            lemma_encoded_byte_is_injective(a[0], b[0]);
            assert(ra =~= whole.subrange(ea.len() as int, whole.len() as int));
            assert(rb =~= whole.subrange(eb.len() as int, whole.len() as int));
            lemma_encoding_is_injective(a.drop_first(), b.drop_first());
            assert(a =~= seq![a[0]] + a.drop_first());
            assert(b =~= seq![b[0]] + b.drop_first());
        }
    }
}

} // verus!
