//! Percent-encoding of one path segment of a URL.

use vstd::prelude::*;

verus! {

/// The bytes that stand for themselves in a path segment: ASCII letters and
/// digits, `-`, `_`, `.` and `~`.
pub open spec fn unreserved(byte: u8) -> bool {
    ||| 0x41 <= byte <= 0x5a
    ||| 0x61 <= byte <= 0x7a
    ||| 0x30 <= byte <= 0x39
    ||| byte == 0x2d
    ||| byte == 0x5f
    ||| byte == 0x2e
    ||| byte == 0x7e
}

/// The upper-case hexadecimal digit of a number below sixteen.
pub open spec fn hex_digit(digit: u8) -> char {
    if digit < 10 {
        (0x30 + digit) as u8 as char
    } else {
        (0x37 + digit) as u8 as char
    }
}

/// How one byte is written: as itself, or as `%` and two hexadecimal digits.
pub open spec fn escaped(byte: u8) -> Seq<char> {
    if unreserved(byte) {
        seq![byte as char]
    } else {
        seq!['%', hex_digit(byte / 16), hex_digit(byte % 16)]
    }
}

/// How a sequence of bytes is written, byte after byte.
pub open spec fn percent_encoded(bytes: Seq<u8>) -> Seq<char>
    decreases bytes.len(),
{
    if bytes.len() == 0 {
        Seq::empty()
    } else {
        escaped(bytes[0]) + percent_encoded(bytes.skip(1))
    }
}

/// `text` as one path segment: the encoding of its UTF-8 bytes.
pub open spec fn segment(text: Seq<char>) -> Seq<char> {
    percent_encoded(vstd::utf8::encode_utf8(text))
}

/// The characters that an encoded segment is made of.
pub open spec fn segment_char(c: char) -> bool {
    ||| 'A' <= c <= 'Z'
    ||| 'a' <= c <= 'z'
    ||| '0' <= c <= '9'
    ||| c == '-'
    ||| c == '_'
    ||| c == '.'
    ||| c == '~'
    ||| c == '%'
}

fn hex(digit: u8) -> (c: char)
    requires
        digit < 16,
    ensures
        c == hex_digit(digit),
{
    if digit < 10 {
        (0x30 + digit) as char
    } else {
        (0x37 + digit) as char
    }
}

/// `value` as one path segment of a URL.
pub fn url_component(value: &str) -> (component: String)
    ensures
        component@ == segment(value@),
{
    let bytes = value.as_bytes();
    let mut component = String::new();
    let mut i: usize = 0;
    assert(bytes@.skip(0) =~= bytes@);
    while i < bytes.len()
        invariant
            i <= bytes@.len(),
            component@ + percent_encoded(bytes@.skip(i as int)) == percent_encoded(bytes@),
        decreases bytes@.len() - i,
    {
        let ghost before = component@;
        let ghost rest = bytes@.skip(i as int);
        let byte: u8 = bytes[i];
        if (0x41 <= byte && byte <= 0x5a) || (0x61 <= byte && byte <= 0x7a) || (0x30 <= byte
            && byte <= 0x39) || byte == 0x2d || byte == 0x5f || byte == 0x2e || byte == 0x7e {
            component.push(byte as char);
        } else {
            component.push('%');
            component.push(hex(byte / 16));
            component.push(hex(byte % 16));
        }
        assert(component@ =~= before + escaped(byte));
        i += 1;
        assert(rest.skip(1) =~= bytes@.skip(i as int));
        assert(component@ + percent_encoded(bytes@.skip(i as int)) =~= before + percent_encoded(
            rest,
        ));
    }
    assert(component@ =~= percent_encoded(bytes@));
    component
}

proof fn lemma_encoded_chars(bytes: Seq<u8>)
    ensures
        forall|i: int|
            0 <= i < percent_encoded(bytes).len() ==> segment_char(
                #[trigger] percent_encoded(bytes)[i],
            ),
    decreases bytes.len(),
{
    if bytes.len() > 0 {
        lemma_encoded_chars(bytes.skip(1));
        let first = escaped(bytes[0]);
        let rest = percent_encoded(bytes.skip(1));
        assert forall|i: int| 0 <= i < percent_encoded(bytes).len() implies segment_char(
            #[trigger] percent_encoded(bytes)[i],
        ) by {
            if i < first.len() {
                assert(percent_encoded(bytes)[i] == first[i]);
            } else {
                assert(percent_encoded(bytes)[i] == rest[i - first.len()]);
            }
        }
    }
}

/// A segment is made of letters, digits, `-`, `_`, `.`, `~` and `%` alone,
/// whatever the text: no `/`, `?` or `#` of a name reaches the URL.
pub proof fn segment_is_plain(text: Seq<char>)
    ensures
        forall|i: int| 0 <= i < segment(text).len() ==> segment_char(#[trigger] segment(text)[i]),
{
    lemma_encoded_chars(vstd::utf8::encode_utf8(text));
}

proof fn lemma_encoding_is_injective(left: Seq<u8>, right: Seq<u8>)
    requires
        percent_encoded(left) == percent_encoded(right),
    ensures
        left == right,
    decreases left.len(),
{
    let l = percent_encoded(left);
    let r = percent_encoded(right);
    if left.len() == 0 || right.len() == 0 {
        if left.len() > 0 {
            assert(l.len() > 0);
        }
        if right.len() > 0 {
            assert(r.len() > 0);
        }
    } else {
        let a = left[0];
        let b = right[0];
        assert(l[0] == escaped(a)[0]);
        assert(r[0] == escaped(b)[0]);
        assert(escaped(a).len() == escaped(b).len());
        if !unreserved(a) {
            assert(l[1] == hex_digit(a / 16) && l[2] == hex_digit(a % 16));
            assert(r[1] == hex_digit(b / 16) && r[2] == hex_digit(b % 16));
        }
        assert(a == b);
        let n = escaped(a).len() as int;
        assert(percent_encoded(left.skip(1)) =~= l.skip(n));
        assert(percent_encoded(right.skip(1)) =~= r.skip(n));
        lemma_encoding_is_injective(left.skip(1), right.skip(1));
        assert(left =~= seq![a] + left.skip(1));
        assert(right =~= seq![b] + right.skip(1));
    }
}

/// Different texts give different segments: no two names share a URL.
pub proof fn segment_is_injective(left: Seq<char>, right: Seq<char>)
    requires
        segment(left) == segment(right),
    ensures
        left == right,
{
    lemma_encoding_is_injective(
        vstd::utf8::encode_utf8(left),
        vstd::utf8::encode_utf8(right),
    );
    vstd::utf8::encode_utf8_decode_utf8(left);
    vstd::utf8::encode_utf8_decode_utf8(right);
}

/// A name made of letters, digits, `-`, `_`, `.` and `~` is its own segment.
pub proof fn plain_text_is_its_segment(text: Seq<char>)
    requires
        forall|i: int| 0 <= i < text.len() ==> segment_char(#[trigger] text[i]) && text[i] != '%',
    ensures
        segment(text) == text,
    decreases text.len(),
{
    let bytes = vstd::utf8::encode_utf8(text);
    if text.len() > 0 {
        let rest = text.skip(1);
        assert forall|i: int| 0 <= i < rest.len() implies segment_char(#[trigger] rest[i])
            && rest[i] != '%' by {
            assert(rest[i] == text[i + 1]);
        }
        plain_text_is_its_segment(rest);
        let c = text[0];
        assert(segment_char(c) && c != '%');
        assert(text.drop_first() =~= rest);
        assert(vstd::utf8::encode_scalar(c as u32) =~= seq![c as u8]) by {
            assert(c as u32 <= 0x7f);
            let v = c as u32;
            assert((v & 0x7F) as u8 == v as u8) by (bit_vector)
                requires
                    v <= 0x7f,
            ;
        }
        assert(bytes =~= seq![c as u8] + vstd::utf8::encode_utf8(rest));
        assert(bytes.skip(1) =~= vstd::utf8::encode_utf8(rest));
        assert(segment(text) =~= text);
    }
}

/// Whether a character stands for itself in a segment.
pub open spec fn stands_for_itself(c: char) -> bool {
    segment_char(c) && c != '%'
}

/// The number that an upper-case hexadecimal digit stands for.
pub open spec fn digit_value(c: char) -> Option<int> {
    if '0' <= c <= '9' {
        Some(c as int - '0' as int)
    } else if 'A' <= c <= 'F' {
        Some(c as int - 'A' as int + 10)
    } else {
        None
    }
}

/// The bytes that a segment is read back as, if it is spelled as a segment must
/// be: `%` and two upper-case hexadecimal digits for a byte that does not stand
/// for itself, and the character for one that does.
pub open spec fn read_back(text: Seq<char>) -> Option<Seq<u8>>
    decreases text.len(),
{
    if text.len() == 0 {
        Some(Seq::empty())
    } else if text[0] == '%' {
        if text.len() < 3 {
            None
        } else {
            match (digit_value(text[1]), digit_value(text[2]), read_back(text.skip(3))) {
                (Some(high), Some(low), Some(rest)) => {
                    let byte = (high * 16 + low) as u8;
                    if stands_for_itself(byte as char) {
                        None
                    } else {
                        Some(seq![byte] + rest)
                    }
                },
                _ => None,
            }
        }
    } else if stands_for_itself(text[0]) {
        match read_back(text.skip(1)) {
            Some(rest) => Some(seq![text[0] as u8] + rest),
            None => None,
        }
    } else {
        None
    }
}

proof fn lemma_reads_back(bytes: Seq<u8>)
    ensures
        read_back(percent_encoded(bytes)) == Some(bytes),
    decreases bytes.len(),
{
    if bytes.len() > 0 {
        let byte = bytes[0];
        let first = escaped(byte);
        let rest = percent_encoded(bytes.skip(1));
        let whole = percent_encoded(bytes);
        lemma_reads_back(bytes.skip(1));
        assert(whole.skip(first.len() as int) =~= rest);
        assert(whole[0] == first[0]);
        assert(bytes =~= seq![byte] + bytes.skip(1));
        if unreserved(byte) {
            assert(byte as char as u8 == byte);
            assert(stands_for_itself(whole[0]));
        } else {
            assert(whole[1] == hex_digit(byte / 16) && whole[2] == hex_digit(byte % 16));
            assert(digit_value(hex_digit(byte / 16)) == Some((byte / 16) as int));
            assert(digit_value(hex_digit(byte % 16)) == Some((byte % 16) as int));
            assert(((byte / 16) as int * 16 + (byte % 16) as int) as u8 == byte);
            assert(!stands_for_itself(byte as char));
        }
    } else {
        assert(bytes =~= Seq::empty());
    }
}

/// A call of [`url_component`] spells out the UTF-8 bytes of its argument: read
/// back, the segment gives exactly these, and nothing is escaped that need not
/// be.
pub proof fn segment_reads_back(value: &str, component: String)
    requires
        call_ensures(url_component, (value,), component),
    ensures
        read_back(component@) == Some(vstd::utf8::encode_utf8(value@)),
{
    lemma_reads_back(vstd::utf8::encode_utf8(value@));
}

}
