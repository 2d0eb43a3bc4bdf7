//! Text operations of the driver: comparison, trimming and replacement, each
//! stated over the characters of its arguments.

use vstd::prelude::*;

verus! {

/// `String::push` appends one character.
pub assume_specification[ String::push ](s: &mut String, c: char)
    ensures
        final(s)@ == old(s)@.push(c),
;

/// Whether `needle` stands somewhere in `text` as one piece.
pub open spec fn occurs(needle: Seq<char>, text: Seq<char>) -> bool {
    exists|i: int| occurs_at(needle, text, i)
}

/// Whether `needle` stands in `text` at position `i`.
pub open spec fn occurs_at(needle: Seq<char>, text: Seq<char>, i: int) -> bool {
    &&& 0 <= i
    &&& i + needle.len() <= text.len()
    &&& text.subrange(i, i + needle.len()) == needle
}

/// `text` with every match of `from` replaced by `to`. Matches are taken from
/// the left and do not overlap; an empty `from` matches before each character
/// and at the end.
pub open spec fn replaced(text: Seq<char>, from: Seq<char>, to: Seq<char>) -> Seq<char>
    decreases text.len(),
{
    if text.len() == 0 {
        if from.len() == 0 {
            to
        } else {
            text
        }
    } else if from.len() == 0 {
        to + seq![text[0]] + replaced(text.skip(1), from, to)
    } else if occurs_at(from, text, 0) {
        to + replaced(text.skip(from.len() as int), from, to)
    } else {
        seq![text[0]] + replaced(text.skip(1), from, to)
    }
}

/// The characters with the Unicode property `White_Space`.
pub open spec fn is_white_space(c: char) -> bool {
    ||| '\u{9}' <= c <= '\u{d}'
    ||| c == ' '
    ||| c == '\u{85}'
    ||| c == '\u{a0}'
    ||| c == '\u{1680}'
    ||| '\u{2000}' <= c <= '\u{200a}'
    ||| c == '\u{2028}'
    ||| c == '\u{2029}'
    ||| c == '\u{202f}'
    ||| c == '\u{205f}'
    ||| c == '\u{3000}'
}

/// `text` without the white space it starts with.
pub open spec fn trimmed_start(text: Seq<char>) -> Seq<char>
    decreases text.len(),
{
    if text.len() > 0 && is_white_space(text[0]) {
        trimmed_start(text.skip(1))
    } else {
        text
    }
}

/// `text` without the white space it ends with.
pub open spec fn trimmed_end(text: Seq<char>) -> Seq<char>
    decreases text.len(),
{
    if text.len() > 0 && is_white_space(text.last()) {
        trimmed_end(text.drop_last())
    } else {
        text
    }
}

/// `text` without the white space around it.
pub open spec fn trimmed(text: Seq<char>) -> Seq<char> {
    trimmed_end(trimmed_start(text))
}

/// `text` without the characters `c` that it ends with.
pub open spec fn without_trailing(text: Seq<char>, c: char) -> Seq<char>
    decreases text.len(),
{
    if text.len() > 0 && text.last() == c {
        without_trailing(text.drop_last(), c)
    } else {
        text
    }
}

/// The view of an optional text.
pub open spec fn optional(text: Option<String>) -> Option<Seq<char>> {
    match text {
        Some(text) => Some(text@),
        None => None,
    }
}

/// A copy of an optional text.
pub fn copy_of(text: &Option<String>) -> (copy: Option<String>)
    ensures
        optional(copy) == optional(*text),
        match (text, copy) {
            (Some(text), Some(copy)) => copy@ == text@,
            (None, None) => true,
            _ => false,
        },
{
    match text {
        Some(text) => Some(text.clone()),
        None => None,
    }
}

/// The characters of `text`.
fn characters(text: &str) -> (chars: Vec<char>)
    ensures
        chars@ == text@,
{
    let mut chars: Vec<char> = Vec::new();
    for c in it: text.chars()
        invariant
            it.seq() == text@,
            chars@ == text@.take(it.index()),
    {
        chars.push(c);
        assert(chars@ == text@.take(it.index() + 1));
    }
    assert(text@.take(text@.len() as int) == text@);
    chars
}

/// Whether two texts are the same.
pub fn same(left: &str, right: &str) -> (result: bool)
    ensures
        result == (left@ == right@),
{
    let a = left.as_bytes();
    let b = right.as_bytes();
    proof {
        vstd::utf8::encode_utf8_decode_utf8(left@);
        vstd::utf8::encode_utf8_decode_utf8(right@);
    }
    if a.len() != b.len() {
        return false;
    }
    let mut i: usize = 0;
    while i < a.len()
        invariant
            a@.len() == b@.len(),
            i <= a@.len(),
            a@ == vstd::utf8::encode_utf8(left@),
            b@ == vstd::utf8::encode_utf8(right@),
            forall|k: int| 0 <= k < i ==> a@[k] == b@[k],
        decreases a@.len() - i,
    {
        if a[i] != b[i] {
            return false;
        }
        i += 1;
    }
    assert(a@ =~= b@);
    true
}

/// Whether `from` stands in `text` at position `i`.
fn starts_at(text: &Vec<char>, i: usize, from: &Vec<char>) -> (result: bool)
    requires
        i <= text@.len(),
    ensures
        result == occurs_at(from@, text@.skip(i as int), 0),
{
    let ghost rest = text@.skip(i as int);
    if from.len() > text.len() - i {
        return false;
    }
    let mut k: usize = 0;
    while k < from.len()
        invariant
            i + from.len() <= text.len(),
            k <= from@.len(),
            rest == text@.skip(i as int),
            forall|j: int| 0 <= j < k ==> text@[i + j] == from@[j],
        decreases from@.len() - k,
    {
        if text[i + k] != from[k] {
            assert(rest.subrange(0, from@.len() as int)[k as int] == text@[i + k]);
            return false;
        }
        k += 1;
    }
    assert(rest.subrange(0, from@.len() as int) =~= from@);
    true
}

/// `text` with every match of `from` replaced by `to`.
pub fn replace_all(text: &str, from: &str, to: &str) -> (result: String)
    ensures
        result@ == replaced(text@, from@, to@),
{
    let chars = characters(text);
    let pattern = characters(from);
    let mut result = String::new();
    let mut i: usize = 0;
    assert(text@.skip(0) =~= text@);
    while i < chars.len()
        invariant
            chars@ == text@,
            pattern@ == from@,
            i <= chars@.len(),
            result@ + replaced(text@.skip(i as int), from@, to@) == replaced(text@, from@, to@),
        decreases chars@.len() - i,
    {
        let ghost rest = text@.skip(i as int);
        let ghost before = result@;
        if pattern.len() == 0 {
            result.append(to);
            result.push(chars[i]);
            i += 1;
            assert(rest.skip(1) =~= text@.skip(i as int));
            assert(result@ =~= before + (to@ + seq![rest[0]]));
        } else if starts_at(&chars, i, &pattern) {
            result.append(to);
            i += pattern.len();
            assert(rest.skip(from@.len() as int) =~= text@.skip(i as int));
        } else {
            result.push(chars[i]);
            i += 1;
            assert(rest.skip(1) =~= text@.skip(i as int));
            assert(result@ =~= before + seq![rest[0]]);
        }
        assert(result@ + replaced(text@.skip(i as int), from@, to@) =~= before + replaced(
            rest,
            from@,
            to@,
        ));
    }
    if pattern.len() == 0 {
        result.append(to);
    }
    assert(result@ =~= replaced(text@, from@, to@));
    result
}

/// Whether `c` has the Unicode property `White_Space`.
fn white_space(c: char) -> (result: bool)
    ensures
        result == is_white_space(c),
{
    ('\u{9}' <= c && c <= '\u{d}') || c == ' ' || c == '\u{85}' || c == '\u{a0}' || c
        == '\u{1680}' || ('\u{2000}' <= c && c <= '\u{200a}') || c == '\u{2028}' || c
        == '\u{2029}' || c == '\u{202f}' || c == '\u{205f}' || c == '\u{3000}'
}

/// `text` without the white space around it.
pub fn trim(text: &str) -> (result: &str)
    ensures
        result@ == trimmed(text@),
{
    let chars = characters(text);
    let mut start: usize = 0;
    assert(text@.skip(0) =~= text@);
    while start < chars.len() && white_space(chars[start])
        invariant
            chars@ == text@,
            start <= chars@.len(),
            trimmed_start(text@.skip(start as int)) == trimmed_start(text@),
        decreases chars@.len() - start,
    {
        assert(text@.skip(start as int).skip(1) =~= text@.skip(start + 1));
        start += 1;
    }
    let ghost rest = text@.skip(start as int);
    let mut end: usize = chars.len();
    assert(rest =~= text@.subrange(start as int, end as int));
    while start < end && white_space(chars[end - 1])
        invariant
            chars@ == text@,
            start <= end <= chars@.len(),
            trimmed_end(text@.subrange(start as int, end as int)) == trimmed_end(rest),
        decreases end,
    {
        assert(text@.subrange(start as int, end as int).drop_last() =~= text@.subrange(
            start as int,
            end - 1,
        ));
        end -= 1;
    }
    text.substring_char(start, end)
}

/// `text` without the characters `c` that it ends with.
pub fn trim_end(text: &str, c: char) -> (result: &str)
    ensures
        result@ == without_trailing(text@, c),
{
    let chars = characters(text);
    let mut end: usize = chars.len();
    assert(text@ =~= text@.subrange(0, end as int));
    while 0 < end && chars[end - 1] == c
        invariant
            chars@ == text@,
            end <= chars@.len(),
            without_trailing(text@.subrange(0, end as int), c) == without_trailing(text@, c),
        decreases end,
    {
        assert(text@.subrange(0, end as int).drop_last() =~= text@.subrange(0, end - 1));
        end -= 1;
    }
    text.substring_char(0, end)
}

/// Whether `needle`, laid over `token` with its start `d` places after the start
/// of `token`, agrees with it wherever both have a character.
pub open spec fn fits(needle: Seq<char>, token: Seq<char>, d: int) -> bool {
    forall|j: int|
        0 <= j < needle.len() && 0 <= d + j < token.len() ==> #[trigger] needle[j] == token[d + j]
}

/// Whether no place where `needle` could stand touches an inserted `token`: not
/// inside it, not around it, and not across one of its ends.
pub open spec fn clear_of(needle: Seq<char>, token: Seq<char>) -> bool {
    forall|d: int| -needle.len() < d < token.len() ==> !#[trigger] fits(needle, token, d)
}

/// A text that holds neither end of a token, and does not stand in it, is clear
/// of it.
pub proof fn clear_without_ends(needle: Seq<char>, token: Seq<char>)
    requires
        needle.len() > 0,
        token.len() > 0,
        !needle.contains(token[0]),
        !needle.contains(token.last()),
        !occurs(needle, token),
    ensures
        clear_of(needle, token),
{
    assert forall|d: int| -needle.len() < d < token.len() implies !#[trigger] fits(
        needle,
        token,
        d,
    ) by {
        if fits(needle, token, d) {
            if d <= 0 {
                assert(needle[-d] == token[0]);
            } else if d + needle.len() > token.len() {
                assert(needle[token.len() - 1 - d] == token.last());
            } else {
                assert(token.subrange(d, d + needle.len()) =~= needle) by {
                    assert forall|j: int| 0 <= j < needle.len() implies token[d + j]
                        == needle[j] by {}
                }
                assert(occurs_at(needle, token, d));
            }
        }
    }
}

/// What a replacement leaves of a text, from a place on: where it agrees with
/// the end of `needle`, the text did before.
proof fn lemma_replaced_prefix(
    text: Seq<char>,
    from: Seq<char>,
    to: Seq<char>,
    needle: Seq<char>,
    k: int,
)
    requires
        from.len() > 0,
        to.len() > 0,
        clear_of(needle, to),
        0 <= k <= needle.len(),
        occurs_at(needle.skip(k), replaced(text, from, to), 0),
    ensures
        occurs_at(needle.skip(k), text, 0),
    decreases text.len(),
{
    let result = replaced(text, from, to);
    let end = needle.skip(k);
    assert forall|j: int| 0 <= j < end.len() implies #[trigger] end[j] == result[j] by {
        assert(result.subrange(0, end.len() as int)[j] == end[j]);
    }
    if k == needle.len() {
        assert(text.subrange(0, 0) =~= end);
    } else if text.len() > 0 {
        if occurs_at(from, text, 0) {
            assert(fits(needle, to, -k)) by {
                assert forall|j: int| 0 <= j < needle.len() && 0 <= -k + j < to.len() implies
                    #[trigger] needle[j] == to[-k + j] by {
                    assert(end[j - k] == result[j - k]);
                }
            }
        } else {
            let tail = replaced(text.skip(1), from, to);
            let rest = needle.skip(k + 1);
            assert(end[0] == result[0]);
            assert(tail.subrange(0, rest.len() as int) =~= rest) by {
                assert forall|j: int| 0 <= j < rest.len() implies tail[j] == rest[j] by {
                    assert(end[j + 1] == result[j + 1]);
                }
            }
            lemma_replaced_prefix(text.skip(1), from, to, needle, k + 1);
            assert(text.subrange(0, end.len() as int) =~= end) by {
                assert forall|j: int| 0 <= j < end.len() implies text[j] == end[j] by {
                    if j > 0 {
                        assert(text.skip(1).subrange(0, rest.len() as int)[j - 1] == rest[j - 1]);
                    }
                }
            }
        }
    }
}

/// Replacing brings nothing back: a text that is clear of `to` is absent after
/// the replacement if it is what was replaced, or if it was absent before.
pub proof fn replacement_hides(text: Seq<char>, from: Seq<char>, to: Seq<char>, needle: Seq<char>)
    requires
        from.len() > 0,
        to.len() > 0,
        needle.len() > 0,
        clear_of(needle, to),
        needle == from || !occurs(needle, text),
    ensures
        !occurs(needle, replaced(text, from, to)),
    decreases text.len(),
{
    let result = replaced(text, from, to);
    assert forall|i: int| !occurs_at(needle, result, i) by {
        if occurs_at(needle, result, i) {
            let piece = result.subrange(i, i + needle.len());
            if text.len() > 0 && occurs_at(from, text, 0) {
                let rest = text.skip(from.len() as int);
                let tail = replaced(rest, from, to);
                lemma_absent_in_rest(text, needle, from, from.len() as int);
                replacement_hides(rest, from, to, needle);
                if i >= to.len() {
                    assert(tail.subrange(i - to.len(), i - to.len() + needle.len()) =~= piece);
                    assert(occurs_at(needle, tail, i - to.len()));
                } else {
                    assert(fits(needle, to, i)) by {
                        assert forall|j: int| 0 <= j < needle.len() && 0 <= i + j < to.len()
                            implies #[trigger] needle[j] == to[i + j] by {
                            assert(piece[j] == result[i + j]);
                        }
                    }
                }
            } else if text.len() > 0 {
                let rest = text.skip(1);
                let tail = replaced(rest, from, to);
                lemma_absent_in_rest(text, needle, from, 1);
                replacement_hides(rest, from, to, needle);
                if i >= 1 {
                    assert(tail.subrange(i - 1, i - 1 + needle.len()) =~= piece);
                    assert(occurs_at(needle, tail, i - 1));
                } else {
                    assert(needle.skip(0) =~= needle);
                    lemma_replaced_prefix(text, from, to, needle, 0);
                }
            }
        }
    }
}

proof fn lemma_absent_in_rest(text: Seq<char>, needle: Seq<char>, from: Seq<char>, n: int)
    requires
        0 <= n <= text.len(),
        needle == from || !occurs(needle, text),
    ensures
        needle == from || !occurs(needle, text.skip(n)),
{
    if !occurs(needle, text) {
        assert forall|i: int| !occurs_at(needle, text.skip(n), i) by {
            if occurs_at(needle, text.skip(n), i) {
                assert(text.subrange(i + n, i + n + needle.len()) =~= text.skip(n).subrange(
                    i,
                    i + needle.len(),
                ));
                assert(occurs_at(needle, text, i + n));
            }
        }
    }
}

/// Where there is nothing to replace, the text stays as it is.
pub proof fn replacement_keeps(text: Seq<char>, from: Seq<char>, to: Seq<char>)
    requires
        from.len() > 0,
        !occurs(from, text),
    ensures
        replaced(text, from, to) == text,
    decreases text.len(),
{
    if text.len() > 0 {
        assert(!occurs_at(from, text, 0));
        assert forall|i: int| !occurs_at(from, text.skip(1), i) by {
            if occurs_at(from, text.skip(1), i) {
                assert(text.subrange(i + 1, i + 1 + from.len()) =~= text.skip(1).subrange(
                    i,
                    i + from.len(),
                ));
                assert(occurs_at(from, text, i + 1));
            }
        }
        replacement_keeps(text.skip(1), from, to);
        assert(replaced(text, from, to) =~= text);
    }
}

/// What is left after trimming a trailing character does not end with it.
pub proof fn trailing_is_gone(text: Seq<char>, c: char)
    ensures
        without_trailing(text, c).len() > 0 ==> without_trailing(text, c).last() != c,
    decreases text.len(),
{
    if text.len() > 0 && text.last() == c {
        trailing_is_gone(text.drop_last(), c);
    }
}

proof fn lemma_trimmed_start(text: Seq<char>)
    ensures
        trimmed_start(text).len() > 0 ==> !is_white_space(trimmed_start(text)[0]),
    decreases text.len(),
{
    if text.len() > 0 && is_white_space(text[0]) {
        lemma_trimmed_start(text.skip(1));
    }
}

proof fn lemma_trimmed_end(text: Seq<char>)
    ensures
        trimmed_end(text).len() > 0 ==> !is_white_space(trimmed_end(text).last()),
        trimmed_end(text).len() > 0 ==> trimmed_end(text)[0] == text[0],
    decreases text.len(),
{
    if text.len() > 0 && is_white_space(text.last()) {
        lemma_trimmed_end(text.drop_last());
    }
}

/// A trimmed text has nothing more to trim.
pub proof fn trimming_is_final(text: Seq<char>)
    ensures
        trimmed(trimmed(text)) == trimmed(text),
{
    lemma_trimmed_start(text);
    lemma_trimmed_end(trimmed_start(text));
}

/// Whether a text is made of white space alone.
pub open spec fn blank(text: Seq<char>) -> bool {
    forall|i: int| 0 <= i < text.len() ==> is_white_space(#[trigger] text[i])
}

/// The view of an optional text is there exactly if the text is, and says the
/// same.
pub proof fn optional_text_is_kept(text: Option<String>)
    ensures
        text matches Some(found) ==> optional(text) == Some(found@),
        text is None ==> optional(text) is None,
{
}

proof fn lemma_leading_blank(before: Seq<char>, rest: Seq<char>)
    requires
        blank(before),
    ensures
        trimmed_start(before + rest) == trimmed_start(rest),
    decreases before.len(),
{
    if before.len() > 0 {
        assert(is_white_space(before[0]));
        assert((before + rest).skip(1) =~= before.skip(1) + rest);
        assert forall|i: int| 0 <= i < before.skip(1).len() implies is_white_space(
            #[trigger] before.skip(1)[i],
        ) by {
            assert(before.skip(1)[i] == before[i + 1]);
        }
        lemma_leading_blank(before.skip(1), rest);
    } else {
        assert(before + rest =~= rest);
    }
}

proof fn lemma_trailing_blank(rest: Seq<char>, after: Seq<char>)
    requires
        blank(after),
    ensures
        trimmed_end(rest + after) == trimmed_end(rest),
    decreases after.len(),
{
    if after.len() > 0 {
        assert(is_white_space(after[after.len() - 1]));
        assert((rest + after).drop_last() =~= rest + after.drop_last());
        assert forall|i: int| 0 <= i < after.drop_last().len() implies is_white_space(
            #[trigger] after.drop_last()[i],
        ) by {
            assert(after.drop_last()[i] == after[i]);
        }
        lemma_trailing_blank(rest, after.drop_last());
    } else {
        assert(rest + after =~= rest);
    }
}

/// Trimming leaves what stands between the outermost characters that are not
/// white space, whatever white space is around it.
pub proof fn trimming_leaves_the_core(before: Seq<char>, core: Seq<char>, after: Seq<char>)
    requires
        blank(before),
        blank(after),
        core.len() > 0 ==> !is_white_space(core[0]) && !is_white_space(core.last()),
    ensures
        trimmed(before + core + after) == core,
{
    assert(before + core + after =~= before + (core + after));
    lemma_leading_blank(before, core + after);
    if core.len() > 0 {
        assert((core + after)[0] == core[0]);
        lemma_trailing_blank(core, after);
    } else {
        assert(core + after =~= after + core);
        lemma_leading_blank(after, core);
    }
}

/// Any text can be cut into white space, what trimming leaves of it, and white
/// space again.
pub proof fn trimmed_text_stands_in_white_space(text: Seq<char>) -> (parts: (Seq<char>, Seq<char>))
    ensures
        blank(parts.0),
        blank(parts.1),
        text == parts.0 + trimmed(text) + parts.1,
        trimmed(text).len() > 0 ==> !is_white_space(trimmed(text)[0]) && !is_white_space(
            trimmed(text).last(),
        ),
{
    lemma_trimmed_start(text);
    lemma_trimmed_end(trimmed_start(text));
    let before = lemma_start_cut(text);
    let after = lemma_end_cut(trimmed_start(text));
    assert(text =~= before + trimmed(text) + after);
    (before, after)
}

proof fn lemma_start_cut(text: Seq<char>) -> (before: Seq<char>)
    ensures
        blank(before),
        text == before + trimmed_start(text),
    decreases text.len(),
{
    if text.len() > 0 && is_white_space(text[0]) {
        let rest = lemma_start_cut(text.skip(1));
        let before = seq![text[0]] + rest;
        assert(text =~= before + trimmed_start(text)) by {
            assert(text =~= seq![text[0]] + text.skip(1));
        }
        before
    } else {
        assert(text =~= Seq::<char>::empty() + text);
        Seq::empty()
    }
}

proof fn lemma_end_cut(text: Seq<char>) -> (after: Seq<char>)
    ensures
        blank(after),
        text == trimmed_end(text) + after,
    decreases text.len(),
{
    if text.len() > 0 && is_white_space(text.last()) {
        let rest = lemma_end_cut(text.drop_last());
        let after = rest.push(text.last());
        assert(text =~= trimmed_end(text) + after) by {
            assert(text =~= text.drop_last().push(text.last()));
        }
        after
    } else {
        assert(text =~= text + Seq::<char>::empty());
        Seq::empty()
    }
}

/// A call of [`trim`] hands back what stands between the outermost characters
/// that are not white space.
pub proof fn trim_hands_back_the_core(
    text: &str,
    result: &str,
    before: Seq<char>,
    core: Seq<char>,
    after: Seq<char>,
)
    requires
        call_ensures(trim, (text,), result),
        text@ == before + core + after,
        blank(before),
        blank(after),
        core.len() > 0 ==> !is_white_space(core[0]) && !is_white_space(core.last()),
    ensures
        result@ == core,
{
    trimming_leaves_the_core(before, core, after);
}

/// The white space that is trimmed: the control characters from tab to carriage
/// return, and the characters that Unicode lists besides.
pub proof fn white_space_by_code(c: char)
    ensures
        is_white_space(c) <==> (9 <= c as u32 <= 13 || 0x2000 <= c as u32 <= 0x200a || c as u32
            == 0x20 || c as u32 == 0x85 || c as u32 == 0xa0 || c as u32 == 0x1680 || c as u32
            == 0x2028 || c as u32 == 0x2029 || c as u32 == 0x202f || c as u32 == 0x205f || c as u32
            == 0x3000),
{
}

/// Taking the trailing characters `c` off a text leaves what stands before them,
/// however many there are.
pub proof fn trailing_characters_are_taken_off(core: Seq<char>, tail: Seq<char>, c: char)
    requires
        forall|i: int| 0 <= i < tail.len() ==> #[trigger] tail[i] == c,
        core.len() > 0 ==> core.last() != c,
    ensures
        without_trailing(core + tail, c) == core,
    decreases tail.len(),
{
    if tail.len() > 0 {
        assert(tail[tail.len() - 1] == c);
        assert((core + tail).drop_last() =~= core + tail.drop_last());
        trailing_characters_are_taken_off(core, tail.drop_last(), c);
    } else {
        assert(core + tail =~= core);
    }
}

/// A call of [`trim_end`] hands back what stands before the trailing characters.
pub proof fn trim_end_hands_back_the_rest(
    text: &str,
    c: char,
    result: &str,
    core: Seq<char>,
    tail: Seq<char>,
)
    requires
        call_ensures(trim_end, (text, c), result),
        text@ == core + tail,
        forall|i: int| 0 <= i < tail.len() ==> #[trigger] tail[i] == c,
        core.len() > 0 ==> core.last() != c,
    ensures
        result@ == core,
{
    trailing_characters_are_taken_off(core, tail, c);
}

/// Whether `from` starts at none of the first `n` places of `text`.
pub open spec fn starts_nowhere_before(from: Seq<char>, text: Seq<char>, n: int) -> bool {
    forall|j: int|
        0 <= j < n && j + from.len() <= text.len() ==> #[trigger] text.subrange(j, j + from.len())
            != from
}

/// What stands before the first match is kept, the match is replaced, and what
/// stands behind it is treated as a text of its own.
pub proof fn first_match_is_replaced(
    before: Seq<char>,
    from: Seq<char>,
    after: Seq<char>,
    to: Seq<char>,
)
    requires
        from.len() > 0,
        starts_nowhere_before(from, before + from + after, before.len() as int),
    ensures
        replaced(before + from + after, from, to) == before + to + replaced(after, from, to),
    decreases before.len(),
{
    let text = before + from + after;
    if before.len() == 0 {
        assert(text.subrange(0, from.len() as int) =~= from);
        assert(text.skip(from.len() as int) =~= after);
        assert(before + to =~= to);
    } else {
        assert(text.subrange(0, 0int + from.len()) != from);
        assert(!occurs_at(from, text, 0));
        let rest = before.skip(1);
        assert(text.skip(1) =~= rest + from + after);
        assert forall|j: int| 0 <= j < rest.len() && j + from.len() <= text.skip(1).len() implies
            #[trigger] text.skip(1).subrange(j, j + from.len()) != from by {
            assert(text.skip(1).subrange(j, j + from.len()) =~= text.subrange(
                j + 1,
                j + 1 + from.len(),
            ));
        }
        assert(starts_nowhere_before(from, rest + from + after, rest.len() as int));
        first_match_is_replaced(rest, from, after, to);
        assert(replaced(text, from, to) =~= before + to + replaced(after, from, to));
    }
}

/// A call of [`replace_all`] keeps what stands before the first match, puts the
/// replacement in its place, and goes on behind it as another call does on what
/// is left.
pub proof fn replace_all_goes_match_by_match(
    text: &str,
    rest: &str,
    from: &str,
    to: &str,
    whole: String,
    tail: String,
    before: Seq<char>,
)
    requires
        call_ensures(replace_all, (text, from, to), whole),
        call_ensures(replace_all, (rest, from, to), tail),
        from@.len() > 0,
        text@ == before + from@ + rest@,
        starts_nowhere_before(from@, text@, before.len() as int),
    ensures
        whole@ == before + to@ + tail@,
{
    first_match_is_replaced(before, from@, rest@, to@);
}

/// A call of [`replace_all`] on a text without a match hands the text back.
pub proof fn replace_all_without_match(text: &str, from: &str, to: &str, result: String)
    requires
        call_ensures(replace_all, (text, from, to), result),
        from@.len() > 0,
        starts_nowhere_before(from@, text@, text@.len() as int),
    ensures
        result@ == text@,
{
    assert forall|i: int| !occurs_at(from@, text@, i) by {
        if occurs_at(from@, text@, i) {
            assert(text@.subrange(i, i + from@.len()) == from@);
        }
    }
    replacement_keeps(text@, from@, to@);
}

/// With nothing to look for, a call of [`replace_all`] puts the replacement
/// before each character and at the end.
pub proof fn replace_all_of_nothing(
    text: &str,
    rest: &str,
    from: &str,
    to: &str,
    whole: String,
    tail: String,
)
    requires
        call_ensures(replace_all, (text, from, to), whole),
        call_ensures(replace_all, (rest, from, to), tail),
        from@.len() == 0,
        text@.len() > 0 ==> rest@ == text@.skip(1),
    ensures
        text@.len() == 0 ==> whole@ == to@,
        text@.len() > 0 ==> whole@ == to@ + seq![text@[0]] + tail@,
{
}

}
