//! Laws of texts: how they are cut, ordered, written as numbers and read again.
use crate::order::{inserted, sorted, Ordered};
use crate::text::{
    decimal, digit, digits_value, index_of_char, is_digit, is_space, lex_le, number_digits,
    parsed_u32, pieces, replaced, text_lines, word_len, words,
};
use vstd::prelude::*;

verus! {

// ── Order ────────────────────────────────────────────────────────────────

/// Of two texts the one comes first whose character is the lower one where they
/// first differ; a text comes before what it is a start of.
pub proof fn law_texts_are_ordered_by_first_difference(a: Seq<char>, b: Seq<char>, i: int)
    requires
        0 <= i <= a.len(),
        i <= b.len(),
        a.take(i) == b.take(i),
    ensures
        i < a.len() && i < b.len() && (a[i] as u32) < (b[i] as u32) ==> lex_le(a, b) && !lex_le(
            b,
            a,
        ),
        i == a.len() ==> lex_le(a, b),
        i == a.len() && i < b.len() ==> !lex_le(b, a),
    decreases i,
{
    if i > 0 {
        assert(a.take(i)[0] == a[0] && b.take(i)[0] == b[0]);
        assert(a.drop_first().take(i - 1) =~= a.take(i).drop_first());
        assert(b.drop_first().take(i - 1) =~= b.take(i).drop_first());
        law_texts_are_ordered_by_first_difference(a.drop_first(), b.drop_first(), i - 1);
    }
}

proof fn lemma_inserted_among_equals<T: Ordered>(s: Seq<T>, x: T, y: T)
    ensures
        inserted(s, x).filter(|z: T| T::le(y, z) && T::le(z, y)) == s.filter(
            |z: T| T::le(y, z) && T::le(z, y),
        ) + (if T::le(y, x) && T::le(x, y) {
            seq![x]
        } else {
            Seq::empty()
        }) || exists|k: int| 0 <= k < s.len() && !T::le(#[trigger] s[k], x) && T::le(y, s[k])
            && T::le(s[k], y) && T::le(y, x) && T::le(x, y),
    decreases s.len(),
{
    reveal(Seq::filter);
    let p = |z: T| T::le(y, z) && T::le(z, y);
    let end = if p(x) {
        seq![x]
    } else {
        Seq::empty()
    };
    if s.len() == 0 || T::le(s.last(), x) {
        assert(s.push(x).drop_last() =~= s);
        assert(s.push(x).filter(p) =~= s.filter(p) + end);
    } else {
        let t = s.drop_last();
        let r = inserted(t, x);
        lemma_inserted_among_equals(t, x, y);
        if r.filter(p) == t.filter(p) + end {
            assert(r.push(s.last()).drop_last() =~= r);
            if p(s.last()) {
                if p(x) {
                    assert(!T::le(s[s.len() - 1], x));
                } else {
                    assert(r.push(s.last()).filter(p) =~= s.filter(p) + end);
                }
            } else {
                assert(r.push(s.last()).filter(p) =~= s.filter(p) + end);
            }
        } else {
            let k = choose|k: int|
                0 <= k < t.len() && !T::le(#[trigger] t[k], x) && T::le(y, t[k]) && T::le(t[k], y)
                    && T::le(y, x) && T::le(x, y);
            assert(s[k] == t[k]);
        }
    }
}

/// Elements that are equal in the order keep the order they came in.
pub proof fn law_equal_elements_keep_their_order<T: Ordered>(s: Seq<T>, y: T)
    ensures
        sorted(s).filter(|z: T| T::le(y, z) && T::le(z, y)) == s.filter(
            |z: T| T::le(y, z) && T::le(z, y),
        ),
    decreases s.len(),
{
    reveal(Seq::filter);
    let p = |z: T| T::le(y, z) && T::le(z, y);
    if s.len() > 0 {
        let t = s.drop_last();
        law_equal_elements_keep_their_order(t, y);
        lemma_inserted_among_equals(sorted(t), s.last(), y);
        if exists|k: int|
            0 <= k < sorted(t).len() && !T::le(#[trigger] sorted(t)[k], s.last()) && T::le(
                y,
                sorted(t)[k],
            ) && T::le(sorted(t)[k], y) && T::le(y, s.last()) && T::le(s.last(), y) {
            let k = choose|k: int|
                0 <= k < sorted(t).len() && !T::le(#[trigger] sorted(t)[k], s.last()) && T::le(
                    y,
                    sorted(t)[k],
                ) && T::le(sorted(t)[k], y) && T::le(y, s.last()) && T::le(s.last(), y);
            T::transitive(sorted(t)[k], y, s.last());
        }
        assert(s.filter(p) =~= t.filter(p) + (if p(s.last()) {
            seq![s.last()]
        } else {
            Seq::empty()
        }));
    }
}

// ── Pieces and lines ─────────────────────────────────────────────────────

pub proof fn lemma_pieces_of_one(s: Seq<char>, sep: char)
    requires
        !s.contains(sep),
    ensures
        pieces(s, sep) == seq![s],
    decreases s.len(),
{
    if s.len() > 0 {
        let t = s.drop_last();
        assert(s[s.len() - 1] != sep);
        assert(!t.contains(sep)) by {
            if t.contains(sep) {
                let i = choose|i: int| 0 <= i < t.len() && t[i] == sep;
                assert(s[i] == sep);
            }
        }
        lemma_pieces_of_one(t, sep);
        assert(t.push(s.last()) =~= s);
        assert(pieces(s, sep) =~= seq![s]);
    } else {
        assert(s =~= Seq::<char>::empty());
    }
}

pub proof fn lemma_pieces_nonempty(s: Seq<char>, sep: char)
    ensures
        pieces(s, sep).len() > 0,
    decreases s.len(),
{
    if s.len() > 0 {
        lemma_pieces_nonempty(s.drop_last(), sep);
    }
}

/// What stands before a separator and what stands behind it are cut apart, and
/// nothing of either is lost.
pub proof fn law_pieces_part_at_separators(x: Seq<char>, y: Seq<char>, sep: char)
    ensures
        pieces(x + seq![sep] + y, sep) == pieces(x, sep) + pieces(y, sep),
    decreases y.len(),
{
    let s = x + seq![sep] + y;
    if y.len() == 0 {
        assert(s.drop_last() =~= x);
        assert(s.last() == sep);
        assert(pieces(x, sep).push(Seq::empty()) =~= pieces(x, sep) + pieces(y, sep));
    } else {
        let t = y.drop_last();
        law_pieces_part_at_separators(x, t, sep);
        lemma_pieces_nonempty(t, sep);
        assert(s.drop_last() =~= x + seq![sep] + t);
        assert(s.last() == y.last());
        assert(pieces(s, sep) =~= pieces(x, sep) + pieces(y, sep));
    }
}

/// A text without the separator is one piece.
pub proof fn law_text_without_separator_is_one_piece(s: Seq<char>, sep: char)
    requires
        !s.contains(sep),
    ensures
        pieces(s, sep).len() == 1,
        pieces(s, sep)[0] == s,
{
    lemma_pieces_of_one(s, sep);
}

/// A line that is ended and the lines behind it: the first is the text up to
/// its line feed, less a carriage return, and the rest are the lines of what
/// follows.
pub proof fn law_lines_end_at_line_feeds(line: Seq<char>, rest: Seq<char>)
    requires
        !line.contains('\n'),
    ensures
        ({
            let l = text_lines(line + seq!['\n'] + rest);
            &&& l.len() == text_lines(rest).len() + 1
            &&& l.drop_first() == text_lines(rest)
            &&& line.len() > 0 && line.last() == '\r' ==> l[0] == line.drop_last()
            &&& line.len() == 0 || line.last() != '\r' ==> l[0] == line
        }),
{
    let s = line + seq!['\n'] + rest;
    law_pieces_part_at_separators(line, rest, '\n');
    lemma_pieces_of_one(line, '\n');
    lemma_pieces_nonempty(rest, '\n');
    let p = pieces(s, '\n');
    let q = pieces(rest, '\n');
    assert(p =~= seq![line] + q);
    assert(p.drop_last() =~= seq![line] + q.drop_last());
    assert(p.last() == q.last());
    assert(text_lines(s).drop_first() =~= text_lines(rest));
}

/// A last line that is not ended is a line where it holds anything, and keeps a
/// carriage return.
pub proof fn law_last_line_needs_no_line_feed(line: Seq<char>)
    requires
        !line.contains('\n'),
    ensures
        line.len() > 0 ==> text_lines(line) == seq![line],
        line.len() == 0 ==> text_lines(line).len() == 0,
{
    lemma_pieces_of_one(line, '\n');
    assert(seq![line].drop_last() =~= Seq::empty());
    if line.len() > 0 {
        assert(text_lines(line) =~= seq![line]);
    }
}

/// The first word of a text, and the words of what follows it.
pub proof fn law_words_are_parted_by_blanks(word: Seq<char>, blank: char, rest: Seq<char>)
    requires
        word.len() > 0,
        forall|i: int| 0 <= i < word.len() ==> !is_space(#[trigger] word[i]),
        is_space(blank),
    ensures
        words(word + seq![blank] + rest) == seq![word] + words(rest),
        words(word) == seq![word],
        words(seq![blank] + rest) == words(rest),
{
    let s = word + seq![blank] + rest;
    lemma_word_len(s, word.len() as int);
    lemma_word_len(word, word.len() as int);
    assert(s[0] == word[0]);
    assert(s.take(word.len() as int) =~= word);
    assert(word.take(word.len() as int) =~= word);
    assert(word.skip(word.len() as int) =~= Seq::<char>::empty());
    assert(words(word.skip(word.len() as int)) =~= Seq::<Seq<char>>::empty());
    assert(words(word) =~= seq![word]);
    let t = s.skip(word.len() as int);
    assert(t =~= seq![blank] + rest);
    assert(t.skip(1) =~= rest);
    assert(t[0] == blank);
    assert(words(t) == words(rest));
    assert(!is_space(word[0]));
    assert(words(s) == seq![s.take(word_len(s) as int)] + words(s.skip(word_len(s) as int)));
}

proof fn lemma_word_len(s: Seq<char>, n: int)
    requires
        0 <= n <= s.len(),
        forall|i: int| 0 <= i < n ==> !is_space(#[trigger] s[i]),
        n < s.len() ==> is_space(s[n]),
    ensures
        word_len(s) == n,
    decreases s.len(),
{
    if n > 0 {
        assert(!is_space(s[0]));
        let t = s.skip(1);
        assert forall|i: int| 0 <= i < n - 1 implies !is_space(#[trigger] t[i]) by {
            assert(t[i] == s[i + 1]);
        }
        lemma_word_len(t, n - 1);
    }
}

/// What is replaced is each `from`, and nothing else.
pub proof fn law_only_one_character_is_replaced(s: Seq<char>, from: char, to: char, i: int)
    requires
        0 <= i < s.len(),
    ensures
        replaced(s, from, to).len() == s.len(),
        s[i] == from ==> replaced(s, from, to)[i] == to,
        s[i] != from ==> replaced(s, from, to)[i] == s[i],
{
}

/// A character is found where it first stands.
pub proof fn law_character_is_found_first(s: Seq<char>, c: char)
    ensures
        s.contains(c) ==> 0 <= index_of_char(s, c) < s.len() && s[index_of_char(s, c)] == c,
        !s.contains(c) ==> index_of_char(s, c) == s.len(),
        forall|i: int| 0 <= i < index_of_char(s, c) ==> #[trigger] s[i] != c,
    decreases s.len(),
{
    crate::text::lemma_index_of_char(s, c);
    if s.len() > 0 && s[0] != c {
        let t = s.drop_first();
        law_character_is_found_first(t, c);
        if s.contains(c) {
            let i = choose|i: int| 0 <= i < s.len() && s[i] == c;
            assert(t[i - 1] == c);
        }
        if t.contains(c) {
            let i = choose|i: int| 0 <= i < t.len() && t[i] == c;
            assert(s[i + 1] == c);
        }
    } else if s.len() > 0 {
        assert(s[0] == c);
    }
}

// ── Numbers ──────────────────────────────────────────────────────────────

proof fn lemma_decimal(n: nat)
    ensures
        decimal(n).len() > 0,
        forall|i: int| 0 <= i < decimal(n).len() ==> is_digit(#[trigger] decimal(n)[i]),
        digits_value(decimal(n)) == n,
        n > 0 ==> decimal(n)[0] != '0',
    decreases n,
{
    if n < 10 {
        assert(decimal(n) =~= seq![digit(n)]);
        assert(decimal(n).drop_last() =~= Seq::<char>::empty());
        assert(digits_value(decimal(n).drop_last()) == 0);
    } else {
        lemma_decimal(n / 10);
        assert(decimal(n).drop_last() =~= decimal(n / 10));
    }
}

/// A number that is written in decimal is read again as that number. It is
/// written in digits, the first of which is none of zero unless it is zero.
pub proof fn law_numbers_are_read_as_written(n: u32)
    ensures
        parsed_u32(decimal(n as nat)) == Some(n),
        forall|i: int|
            0 <= i < decimal(n as nat).len() ==> '0' <= #[trigger] decimal(n as nat)[i] <= '9',
        n > 0 ==> decimal(n as nat)[0] != '0',
{
    lemma_decimal(n as nat);
    let d = decimal(n as nat);
    assert(is_digit(d[0]));
    assert(number_digits(d) == d);
    assert forall|i: int| 0 <= i < d.len() implies '0' <= #[trigger] d[i] <= '9' by {
        assert(is_digit(d[i]));
    }
}

/// A text with anything but digits in it is no number, but for a plus sign in
/// front.
pub proof fn law_only_digits_are_numbers(s: Seq<char>, i: int)
    requires
        0 <= i < s.len(),
        !('0' <= s[i] <= '9'),
        i > 0 || s[i] != '+',
    ensures
        parsed_u32(s) is None,
        parsed_u32(Seq::<char>::empty()) is None,
{
    let d = number_digits(s);
    if s[0] == '+' {
        assert(d[i - 1] == s[i]);
    } else {
        assert(d[i] == s[i]);
    }
}

} // verus!
