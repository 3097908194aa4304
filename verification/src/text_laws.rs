//! What holds of the pieces into which texts are taken apart.
use crate::text;
use vstd::prelude::*;

verus! {

/// A text of nothing but white space.
pub open spec fn all_spaces(s: Seq<char>) -> bool {
    forall|i: int| 0 <= i < s.len() ==> text::is_space(#[trigger] s[i])
}

/// A text without white space.
pub open spec fn no_spaces(s: Seq<char>) -> bool {
    forall|i: int| 0 <= i < s.len() ==> !text::is_space(#[trigger] s[i])
}

// ---------------------------------------------------------------------------
// Trimming
// ---------------------------------------------------------------------------

proof fn lemma_spaces_before(left: Seq<char>, rest: Seq<char>)
    requires
        all_spaces(left),
    ensures
        text::trim_start(left + rest) == text::trim_start(rest),
    decreases left.len(),
{
    let s = left + rest;
    if left.len() == 0 {
        assert(s =~= rest);
    } else {
        assert(s[0] == left[0]);
        assert(s.skip(1) =~= left.skip(1) + rest);
        assert forall|i: int| 0 <= i < left.skip(1).len() implies text::is_space(
            #[trigger] left.skip(1)[i],
        ) by {
            assert(left.skip(1)[i] == left[i + 1]);
        }
        lemma_spaces_before(left.skip(1), rest);
    }
}

proof fn lemma_spaces_after(s: Seq<char>, right: Seq<char>)
    requires
        all_spaces(right),
    ensures
        text::trim_end(s + right) == text::trim_end(s),
    decreases right.len(),
{
    let all = s + right;
    if right.len() == 0 {
        assert(all =~= s);
    } else {
        assert(all.last() == right[right.len() - 1]);
        assert(all.drop_last() =~= s + right.drop_last());
        assert forall|i: int| 0 <= i < right.drop_last().len() implies text::is_space(
            #[trigger] right.drop_last()[i],
        ) by {
            assert(right.drop_last()[i] == right[i]);
        }
        lemma_spaces_after(s, right.drop_last());
    }
}

/// Whatever white space stands around a text that has none at its ends,
/// trimming gives back the text.
pub proof fn law_trimming_gives_the_text(left: Seq<char>, word: Seq<char>, right: Seq<char>)
    requires
        all_spaces(left),
        all_spaces(right),
        word.len() > 0 ==> !text::is_space(word[0]) && !text::is_space(word.last()),
    ensures
        text::trim(left + word + right) == word,
{
    assert(left + word + right =~= left + (word + right));
    lemma_spaces_before(left, word + right);
    if word.len() > 0 {
        assert((word + right)[0] == word[0]);
        lemma_spaces_after(word, right);
    } else {
        assert(word + right =~= right + Seq::<char>::empty());
        lemma_spaces_before(right, Seq::empty());
    }
}

/// Trimming takes off white space at the ends and nothing else: the text is
/// what is left, with white space before it and after it.
pub proof fn law_trimming_takes_off_spaces(s: Seq<char>) -> (start: int)
    ensures
        0 <= start,
        start + text::trim(s).len() <= s.len(),
        text::trim(s) == s.subrange(start, start + text::trim(s).len()),
        all_spaces(s.take(start)),
        all_spaces(s.skip(start + text::trim(s).len())),
        text::trim(s).len() > 0 ==> !text::is_space(text::trim(s)[0]) && !text::is_space(
            text::trim(s).last(),
        ),
    decreases s.len(),
{
    text::lemma_trim_ends(s);
    if s.len() > 0 && text::is_space(s[0]) {
        let rest = s.skip(1);
        let start = law_trimming_takes_off_spaces(rest);
        let n = text::trim(s).len();
        assert(s.subrange(start + 1, start + 1 + n) =~= rest.subrange(start, start + n));
        assert forall|i: int| 0 <= i < start + 1 implies text::is_space(
            #[trigger] s.take(start + 1)[i],
        ) by {
            if i > 0 {
                assert(rest.take(start)[i - 1] == s[i]);
            }
        }
        assert(s.skip(start + 1 + n) =~= rest.skip(start + n));
        start + 1
    } else {
        lemma_end_taken_off(s);
        assert(s.take(0) =~= Seq::empty());
        0
    }
}

proof fn lemma_end_taken_off(s: Seq<char>)
    ensures
        text::trim_end(s).len() <= s.len(),
        text::trim_end(s) == s.subrange(0, text::trim_end(s).len() as int),
        all_spaces(s.skip(text::trim_end(s).len() as int)),
    decreases s.len(),
{
    if s.len() > 0 && text::is_space(s.last()) {
        let rest = s.drop_last();
        lemma_end_taken_off(rest);
        let n = text::trim_end(s).len() as int;
        assert(s.subrange(0, n) =~= rest.subrange(0, n));
        assert forall|i: int| 0 <= i < s.skip(n).len() implies text::is_space(
            #[trigger] s.skip(n)[i],
        ) by {
            if i < s.len() - 1 - n {
                assert(rest.skip(n)[i] == s[n + i]);
            }
        }
    } else {
        assert(s.subrange(0, s.len() as int) =~= s);
    }
}

/// Among the ASCII characters white space is the blank and the control
/// characters from the tabulator to the carriage return.
pub proof fn law_ascii_spaces(c: char)
    requires
        (c as u32) < 128,
    ensures
        text::is_space(c) <==> c == ' ' || 9 <= (c as u32) <= 13,
{
}

// ---------------------------------------------------------------------------
// Taking texts apart
// ---------------------------------------------------------------------------

/// What stands before a character, where the character does not occur earlier;
/// and all of it where it does not occur at all.
pub proof fn law_text_before_a_character(front: Seq<char>, c: char, back: Seq<char>)
    requires
        !front.contains(c),
    ensures
        text::before_first(front.push(c) + back, c) == front,
        text::before_first(front, c) == front,
    decreases front.len(),
{
    let s = front.push(c) + back;
    if front.len() == 0 {
        assert(s[0] == c);
        assert(text::before_first(s, c) =~= front);
        assert(text::before_first(front, c) =~= front);
    } else {
        assert(front.contains(front[0]));
        let rest = front.skip(1);
        assert(s[0] == front[0]);
        assert(s.skip(1) =~= rest.push(c) + back);
        assert forall|i: int| 0 <= i < rest.len() implies rest[i] != c by {
            assert(front.contains(front[i + 1]));
        }
        law_text_before_a_character(rest, c, back);
        assert(seq![front[0]] + rest =~= front);
    }
}

/// What stands after a character, where the character does not occur later; and
/// all of it where it does not occur at all.
pub proof fn law_text_after_a_character(front: Seq<char>, c: char, back: Seq<char>)
    requires
        !back.contains(c),
    ensures
        text::after_last(front.push(c) + back, c) == back,
        text::after_last(back, c) == back,
    decreases back.len(),
{
    let s = front.push(c) + back;
    if back.len() == 0 {
        assert(s.last() == c);
        assert(text::after_last(s, c) =~= back);
        assert(text::after_last(back, c) =~= back);
    } else {
        assert(back.contains(back.last()));
        let rest = back.drop_last();
        assert(s.last() == back.last());
        assert(s.drop_last() =~= front.push(c) + rest);
        assert forall|i: int| 0 <= i < rest.len() implies rest[i] != c by {
            assert(back.contains(back[i]));
        }
        law_text_after_a_character(front, c, rest);
        assert(rest.push(back.last()) =~= back);
    }
}

proof fn lemma_found(s: Seq<char>, pat: Seq<char>, i: int)
    requires
        0 <= i,
    ensures
        match text::find_from(s, pat, i) {
            Some(at) => i <= at && at + pat.len() <= s.len() && s.subrange(at, at + pat.len())
                == pat && forall|j: int|
                i <= j < at ==> #[trigger] s.subrange(j, j + pat.len()) != pat,
            None => forall|j: int|
                i <= j && j + pat.len() <= s.len() ==> #[trigger] s.subrange(j, j + pat.len())
                    != pat,
        },
    decreases s.len() - i + 1,
{
    if i + pat.len() <= s.len() && s.subrange(i, i + pat.len()) != pat {
        lemma_found(s, pat, i + 1);
    }
}

/// A text that is divided at a pattern is the two parts with the pattern between
/// them, and the pattern does not occur any earlier; where it is not divided,
/// the pattern does not occur.
pub proof fn law_text_is_divided(s: Seq<char>, pat: Seq<char>)
    ensures
        match text::split_once(s, pat) {
            Some((front, back)) => s == front + pat + back && forall|j: int|
                0 <= j < front.len() ==> #[trigger] s.subrange(j, j + pat.len()) != pat,
            None => forall|j: int|
                0 <= j && j + pat.len() <= s.len() ==> #[trigger] s.subrange(j, j + pat.len())
                    != pat,
        },
{
    lemma_found(s, pat, 0);
    match text::find(s, pat) {
        Some(at) => {
            assert(s.take(at) + pat + s.skip(at + pat.len()) =~= s) by {
                assert(s =~= s.take(at) + s.subrange(at, at + pat.len()) + s.skip(
                    at + pat.len(),
                ));
            }
        },
        None => {},
    }
}

/// Pieces with a character between them.
pub open spec fn put_together(pieces: Seq<Seq<char>>, c: char) -> Seq<char>
    decreases pieces.len(),
{
    if pieces.len() == 0 {
        Seq::empty()
    } else if pieces.len() == 1 {
        pieces[0]
    } else {
        put_together(pieces.drop_last(), c).push(c) + pieces.last()
    }
}

/// The pieces of a text between the occurrences of a character do not hold the
/// character, and put together with it they are the text.
pub proof fn law_pieces_make_the_text(s: Seq<char>, c: char)
    ensures
        text::split(s, c).len() > 0,
        put_together(text::split(s, c), c) == s,
        forall|i: int|
            0 <= i < text::split(s, c).len() ==> !(#[trigger] text::split(s, c)[i]).contains(c),
    decreases s.len(),
{
    let pieces = text::split(s, c);
    if s.len() == 0 {
        assert(pieces =~= seq![s]);
    } else {
        let before = text::split(s.drop_last(), c);
        law_pieces_make_the_text(s.drop_last(), c);
        assert(s.drop_last().push(s.last()) =~= s);
        if s.last() == c {
            assert(pieces == before.push(Seq::empty()));
            assert(pieces.drop_last() =~= before);
            assert(put_together(before, c).push(c) + Seq::<char>::empty() =~= s);
        } else {
            let last = before.last().push(s.last());
            assert(pieces == before.drop_last().push(last));
            assert(pieces.drop_last() =~= before.drop_last());
            if before.len() > 1 {
                assert(put_together(before.drop_last(), c).push(c) + last =~= (put_together(
                    before.drop_last(),
                    c,
                ).push(c) + before.last()).push(s.last()));
            }
            assert forall|i: int| 0 <= i < pieces.len() implies !(
            #[trigger] pieces[i]).contains(c) by {
                if i < before.len() - 1 {
                    assert(pieces[i] == before[i]);
                } else {
                    assert(!before[before.len() - 1].contains(c));
                    if last.contains(c) {
                        let k = choose|k: int| 0 <= k < last.len() && last[k] == c;
                        if k < before.last().len() {
                            assert(before.last()[k] == c);
                        }
                    }
                }
            }
        }
    }
}

/// The first word of a text is found behind any white space, with all that
/// follows it.
pub proof fn law_first_word_is_found(left: Seq<char>, word: Seq<char>, rest: Seq<char>)
    requires
        all_spaces(left),
        word.len() > 0,
        no_spaces(word),
        rest.len() > 0 ==> text::is_space(rest[0]),
    ensures
        text::next_word(left + word + rest) == Some((word, rest)),
        text::next_word(left) is None,
{
    let s = left + word + rest;
    assert(s =~= left + (word + rest));
    lemma_spaces_before(left, word + rest);
    assert((word + rest)[0] == word[0]);
    lemma_word_ends(word, rest);
    assert((word + rest).skip(word.len() as int) =~= rest);
    lemma_spaces_before(left, Seq::empty());
    assert(left + Seq::<char>::empty() =~= left);
}

proof fn lemma_word_ends(word: Seq<char>, rest: Seq<char>)
    requires
        no_spaces(word),
        rest.len() > 0 ==> text::is_space(rest[0]),
    ensures
        text::until_space(word + rest) == word,
    decreases word.len(),
{
    let s = word + rest;
    if word.len() == 0 {
        assert(s =~= rest);
        assert(text::until_space(s) =~= word);
    } else {
        assert(s[0] == word[0]);
        assert(s.skip(1) =~= word.skip(1) + rest);
        assert forall|i: int| 0 <= i < word.skip(1).len() implies !text::is_space(
            #[trigger] word.skip(1)[i],
        ) by {
            assert(word.skip(1)[i] == word[i + 1]);
        }
        lemma_word_ends(word.skip(1), rest);
        assert(seq![word[0]] + word.skip(1) =~= word);
    }
}

/// What follows a prefix, and only where it is one.
pub proof fn law_rest_follows_the_prefix(prefix: Seq<char>, rest: Seq<char>, s: Seq<char>)
    ensures
        text::after_prefix(prefix + rest, prefix) == Some(rest),
        text::after_prefix(s, prefix) matches Some(found) ==> s == prefix + found,
{
    assert((prefix + rest).take(prefix.len() as int) =~= prefix);
    assert((prefix + rest).skip(prefix.len() as int) =~= rest);
    match text::after_prefix(s, prefix) {
        Some(found) => {
            assert(s.take(prefix.len() as int) + s.skip(prefix.len() as int) =~= s);
        },
        None => {},
    }
}

/// Small letters stand for the capitals of the ASCII alphabet, everything else
/// for itself, each in its place.
pub proof fn law_capitals_become_small(s: Seq<char>, i: int)
    requires
        0 <= i < s.len(),
    ensures
        text::lower(s).len() == s.len(),
        65 <= (s[i] as u32) <= 90 ==> (text::lower(s)[i] as u32) == (s[i] as u32) + 32,
        !(65 <= (s[i] as u32) <= 90) ==> text::lower(s)[i] == s[i],
{
    let c = s[i];
    if 'A' <= c && c <= 'Z' {
        let d = ((c as u8) + 32) as u8 as char;
        assert(d as u32 == c as u32 + 32);
    }
}

// ---------------------------------------------------------------------------
// Numbers
// ---------------------------------------------------------------------------

/// A number is read digit by digit: one more digit makes it ten times as large
/// and adds the digit, as far as the bound allows.
pub proof fn law_number_is_read_by_digits(s: Seq<char>, c: char, max: nat, number: nat)
    requires
        text::parse_number(s, max) == Some(number),
        '0' <= c <= '9',
    ensures
        text::parse_number(s.push(c), max) == if number * 10 + (c as nat - 48) <= max {
            Some((number * 10 + (c as nat - 48)) as nat)
        } else {
            None
        },
{
    let digits = text::without_plus(s);
    let more = s.push(c);
    assert(more[0] == s[0]);
    assert(text::without_plus(more) =~= digits.push(c));
    assert(digits.push(c).drop_last() =~= digits);
    assert(text::all_digits(digits.push(c)));
}

/// A text that holds anything but digits, after at most one plus sign, is no
/// number; neither is one without a digit. A plus sign makes no difference.
pub proof fn law_other_text_is_no_number(s: Seq<char>, max: nat, i: int)
    requires
        0 <= i < s.len(),
        !('0' <= s[i] <= '9'),
        i > 0 || s[0] != '+',
    ensures
        text::parse_number(s, max) is None,
        text::parse_number(Seq::empty(), max) is None,
{
    let digits = text::without_plus(s);
    if s[0] == '+' {
        assert(digits[i - 1] == s[i]);
    } else {
        assert(digits[i] == s[i]);
    }
}

/// A single digit is the number that it shows, with a plus sign or without.
pub proof fn law_digit_is_a_number(c: char, max: nat)
    requires
        '0' <= c <= '9',
        9 <= max,
    ensures
        text::parse_number(seq![c], max) == Some((c as nat - 48) as nat),
        text::parse_number(seq!['+', c], max) == Some((c as nat - 48) as nat),
{
    assert(seq!['+', c].skip(1) =~= seq![c]);
    assert(seq![c].drop_last() =~= Seq::empty());
    assert(text::digits_value(Seq::empty()) == 0);
}

} // verus!
