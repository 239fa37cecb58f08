//! Character-level helpers over `String`/`&str`, each with a contract over
//! the string's view as a sequence of `char`s.

use vstd::prelude::*;

verus! {

/// True when `c` is an ASCII decimal digit.
pub open spec fn is_digit(c: char) -> bool {
    '0' <= c && c <= '9'
}

/// The value of a string of decimal digits, read left to right.
pub open spec fn digits_value(d: Seq<char>) -> nat
    decreases d.len(),
{
    if d.len() == 0 {
        0
    } else {
        digits_value(d.drop_last()) * 10 + ((d.last() as nat) - ('0' as nat)) as nat
    }
}

/// `s` without one leading `+` sign, if it has one.
pub open spec fn unsigned_part(s: Seq<char>) -> Seq<char> {
    if s.len() > 0 && s[0] == '+' {
        s.drop_first()
    } else {
        s
    }
}

/// Every character of `d` is a decimal digit.
pub open spec fn all_digits(d: Seq<char>) -> bool {
    forall|i: int| 0 <= i < d.len() ==> is_digit(#[trigger] d[i])
}

/// What `str::parse::<u32>` accepts: an optional `+` followed by at least one
/// decimal digit, whose value fits in a `u32`.
pub open spec fn decimal_u32(s: Seq<char>) -> Option<u32> {
    let d = unsigned_part(s);
    if d.len() > 0 && all_digits(d) && digits_value(d) <= u32::MAX {
        Some(digits_value(d) as u32)
    } else {
        None
    }
}

proof fn lemma_digits_value_grows(d: Seq<char>, c: char)
    requires
        is_digit(c),
    ensures
        digits_value(d.push(c)) >= digits_value(d),
        digits_value(d.push(c)) == digits_value(d) * 10 + ((c as nat) - ('0' as nat)),
{
    assert(d.push(c).drop_last() =~= d);
}

proof fn lemma_digits_value_prefix(d: Seq<char>, k: int)
    requires
        0 <= k <= d.len(),
        all_digits(d),
    ensures
        digits_value(d.take(k)) <= digits_value(d),
    decreases d.len() - k,
{
    if k == d.len() {
        assert(d.take(k) =~= d);
    } else {
        assert(d.take(k + 1) =~= d.take(k).push(d[k]));
        lemma_digits_value_grows(d.take(k), d[k]);
        lemma_digits_value_prefix(d, k + 1);
    }
}

/// The characters of `s`, in order.
pub fn chars_of(s: &str) -> (res: Vec<char>)
    ensures
        res@ == s@,
{
    let mut out: Vec<char> = Vec::new();
    for c in it: s.chars()
        invariant
            out@ =~= it.seq().take(it.index() as int),
    {
        out.push(c);
    }
    out
}

proof fn lemma_leading_zero_value(d: Seq<char>)
    ensures
        digits_value(seq!['0'] + d) == digits_value(d),
    decreases d.len(),
{
    let z = seq!['0'] + d;
    if d.len() > 0 {
        lemma_leading_zero_value(d.drop_last());
        assert(z.drop_last() =~= seq!['0'] + d.drop_last());
        assert(z.last() == d.last());
    } else {
        assert(z.drop_last() =~= Seq::<char>::empty());
        assert(digits_value(Seq::<char>::empty()) == 0);
        assert(z.last() == '0');
    }
}

/// How `parse_u32` reads numbers, digit by digit: a single digit is its
/// own value; appending a digit to a number multiplies it by ten and adds
/// the digit, as long as the result fits in a `u32`, and gives nothing once
/// it does not; a leading zero or a leading `+` changes nothing; and a text
/// holding any other character than digits after an optional leading `+` is
/// no number.
pub proof fn lemma_decimal_digit_by_digit(s: Seq<char>, c: char)
    ensures
        is_digit(c) ==> decimal_u32(seq![c]) == Some(((c as nat) - ('0' as nat)) as u32),
        decimal_u32(s) is Some && is_digit(c) && decimal_u32(s)->0 * 10 + ((c as nat) - ('0' as nat))
            <= u32::MAX ==> decimal_u32(s.push(c)) == Some(
            (decimal_u32(s)->0 * 10 + ((c as nat) - ('0' as nat))) as u32,
        ),
        decimal_u32(s) is Some && is_digit(c) && decimal_u32(s)->0 * 10 + ((c as nat) - ('0' as nat))
            > u32::MAX ==> decimal_u32(s.push(c)) is None,
        s.len() > 0 && s[0] != '+' ==> decimal_u32(seq!['0'] + s) == decimal_u32(s),
        s.len() > 0 && s[0] != '+' ==> decimal_u32(seq!['+'] + s) == decimal_u32(s),
        (exists|i: int| 0 <= i < s.len() && !is_digit(s[i]) && !(i == 0 && s[i] == '+'))
            ==> decimal_u32(s) is None,
        s.len() == 0 || s == seq!['+'] ==> decimal_u32(s) is None,
{
    assert(seq![c].drop_last() =~= Seq::<char>::empty());
    if is_digit(c) {
        assert(unsigned_part(seq![c]) =~= seq![c]);
        assert(digits_value(Seq::<char>::empty()) == 0);
        assert(digits_value(seq![c]) == (c as nat) - ('0' as nat));
        assert(all_digits(seq![c]));
    }
    if decimal_u32(s) is Some && is_digit(c) {
        let d = unsigned_part(s);
        assert(unsigned_part(s.push(c)) =~= d.push(c));
        lemma_digits_value_grows(d, c);
    }
    if s.len() > 0 && s[0] != '+' {
        lemma_leading_zero_value(s);
        assert(unsigned_part(seq!['0'] + s) =~= seq!['0'] + s);
        assert(unsigned_part(seq!['+'] + s) =~= s);
        assert(all_digits(seq!['0'] + s) == all_digits(s)) by {
            if all_digits(s) {
                assert forall|i: int| 0 <= i < (seq!['0'] + s).len() implies is_digit(
                    #[trigger] (seq!['0'] + s)[i],
                ) by {
                    if i > 0 {
                        assert((seq!['0'] + s)[i] == s[i - 1]);
                    }
                }
            }
            if all_digits(seq!['0'] + s) {
                assert forall|i: int| 0 <= i < s.len() implies is_digit(#[trigger] s[i]) by {
                    assert((seq!['0'] + s)[i + 1] == s[i]);
                }
            }
        }
    }
    if exists|i: int| 0 <= i < s.len() && !is_digit(s[i]) && !(i == 0 && s[i] == '+') {
        let i = choose|i: int| 0 <= i < s.len() && !is_digit(s[i]) && !(i == 0 && s[i] == '+');
        if s.len() > 0 && s[0] == '+' {
            assert(unsigned_part(s)[i - 1] == s[i]);
        } else {
            assert(unsigned_part(s)[i] == s[i]);
        }
    }
}

/// Reads `s` as an unsigned decimal number, as `s.parse::<u32>().ok()` does.
pub fn parse_u32(s: &str) -> (res: Option<u32>)
    ensures
        res == decimal_u32(s@),
{
    let cs = chars_of(s);
    let n = cs.len();
    let mut i: usize = 0;
    if n > 0 && cs[0] == '+' {
        i = 1;
    }
    let start = i;
    let ghost d = unsigned_part(s@);
    assert(d =~= s@.subrange(start as int, n as int));
    if i == n {
        return None;
    }
    let mut value: u64 = 0;
    while i < n
        invariant
            n == s@.len(),
            cs@ == s@,
            start <= i <= n,
            d =~= s@.subrange(start as int, n as int),
            d == unsigned_part(s@),
            forall|j: int| start <= j < i ==> is_digit(#[trigger] s@[j]),
            value == digits_value(s@.subrange(start as int, i as int)),
            value <= u32::MAX,
        decreases n - i,
    {
        let c = cs[i];
        proof {
            assert(s@.subrange(start as int, i + 1) =~= s@.subrange(start as int, i as int).push(c));
        }
        if !('0' <= c && c <= '9') {
            assert(!is_digit(d[i - start]));
            return None;
        }
        proof {
            lemma_digits_value_grows(s@.subrange(start as int, i as int), c);
        }
        let digit = (c as u32 - '0' as u32) as u64;
        value = value * 10 + digit;
        if value > 0xffff_ffffu64 {
            proof {
                if all_digits(d) {
                    assert(d.take(i + 1 - start) =~= s@.subrange(start as int, i + 1));
                    lemma_digits_value_prefix(d, i + 1 - start);
                }
            }
            return None;
        }
        i = i + 1;
    }
    assert(s@.subrange(start as int, n as int) =~= d);
    Some(value as u32)
}

/// True when `s` reads exactly `lit`.
pub fn text_is(s: &str, lit: &str) -> (res: bool)
    ensures
        res == (s@ == lit@),
{
    s.to_owned() == lit.to_owned()
}

/// The views of a sequence of strings.
pub open spec fn strings_view(v: Seq<String>) -> Seq<Seq<char>> {
    v.map_values(|w: String| w@)
}

/// The pieces of `s` between single spaces, as `str::split(" ")` yields
/// them: one more piece than there are spaces, empty pieces included.
pub open spec fn split_spaces(s: Seq<char>) -> Seq<Seq<char>>
    decreases s.len(),
{
    if s.len() == 0 {
        seq![Seq::<char>::empty()]
    } else {
        let pieces = split_spaces(s.drop_last());
        if s.last() == ' ' {
            pieces.push(Seq::<char>::empty())
        } else {
            pieces.update(pieces.len() - 1, pieces.last().push(s.last()))
        }
    }
}

proof fn lemma_split_spaces_nonempty(s: Seq<char>)
    ensures
        split_spaces(s).len() >= 1,
    decreases s.len(),
{
    if s.len() > 0 {
        lemma_split_spaces_nonempty(s.drop_last());
    }
}

/// The words joined with a single space between each two.
pub open spec fn join_spaces(words: Seq<Seq<char>>) -> Seq<char>
    decreases words.len(),
{
    if words.len() == 0 {
        Seq::empty()
    } else if words.len() == 1 {
        words[0]
    } else {
        join_spaces(words.drop_last()) + seq![' '] + words.last()
    }
}

proof fn lemma_join_extend_last(words: Seq<Seq<char>>, c: char)
    requires
        words.len() >= 1,
    ensures
        join_spaces(words.update(words.len() - 1, words.last().push(c))) == join_spaces(
            words,
        ).push(c),
{
    let updated = words.update(words.len() - 1, words.last().push(c));
    if words.len() >= 2 {
        assert(updated.drop_last() =~= words.drop_last());
    }
    assert(join_spaces(updated) =~= join_spaces(words).push(c));
}

/// Splitting at spaces loses nothing: no piece holds a space, and joining
/// the pieces with single spaces gives the text back. So the pieces are the
/// ones `str::split(" ")` yields.
pub proof fn lemma_split_spaces_join(s: Seq<char>)
    ensures
        join_spaces(split_spaces(s)) == s,
        forall|i: int, j: int|
            0 <= i < split_spaces(s).len() && 0 <= j < split_spaces(s)[i].len() ==> #[trigger] split_spaces(
                s,
            )[i][j] != ' ',
    decreases s.len(),
{
    if s.len() > 0 {
        let p = split_spaces(s.drop_last());
        lemma_split_spaces_join(s.drop_last());
        lemma_split_spaces_nonempty(s.drop_last());
        if s.last() == ' ' {
            assert(p.push(Seq::<char>::empty()).drop_last() =~= p);
            assert(join_spaces(split_spaces(s)) =~= s);
        } else {
            lemma_join_extend_last(p, s.last());
            assert(join_spaces(split_spaces(s)) =~= s);
            assert forall|i: int, j: int|
                0 <= i < split_spaces(s).len() && 0 <= j < split_spaces(s)[i].len() implies #[trigger] split_spaces(
                s,
            )[i][j] != ' ' by {
                if i == p.len() - 1 && j == p.last().len() {
                } else {
                    assert(split_spaces(s)[i][j] == p[i][j]);
                }
            }
        }
    }
}

/// Splits `s` at every space, as `s.split(" ")` does.
pub fn split_on_spaces(s: &str) -> (res: Vec<String>)
    ensures
        strings_view(res@) == split_spaces(s@),
{
    let cs = chars_of(s);
    let n = cs.len();
    let mut words: Vec<String> = Vec::new();
    let mut start: usize = 0;
    let mut i: usize = 0;
    assert(s@.take(0) =~= Seq::<char>::empty());
    assert(s@.subrange(0, 0) =~= Seq::<char>::empty());
    assert(strings_view(words@) =~= Seq::<Seq<char>>::empty());
    assert(split_spaces(s@.take(0)) =~= strings_view(words@).push(s@.subrange(0, 0)));
    while i < n
        invariant
            n == s@.len(),
            cs@ == s@,
            start <= i <= n,
            split_spaces(s@.take(i as int)) =~= strings_view(words@).push(
                s@.subrange(start as int, i as int),
            ),
        decreases n - i,
    {
        proof {
            assert(s@.take(i + 1).drop_last() =~= s@.take(i as int));
            lemma_split_spaces_nonempty(s@.take(i as int));
        }
        if cs[i] == ' ' {
            let w = s.substring_char(start, i).to_owned();
            let ghost prev = words@;
            let ghost prev_start = start;
            words.push(w);
            start = i + 1;
            assert(strings_view(words@) =~= strings_view(prev).push(w@));
            assert(s@.subrange(start as int, i + 1) =~= Seq::<char>::empty());
            assert(split_spaces(s@.take(i + 1)) =~= strings_view(prev).push(
                s@.subrange(prev_start as int, i as int),
            ).push(Seq::<char>::empty()));
        } else {
            assert(s@.subrange(start as int, i + 1) =~= s@.subrange(start as int, i as int).push(
                s@[i as int],
            ));
            assert(split_spaces(s@.take(i + 1)) =~= strings_view(words@).push(
                s@.subrange(start as int, i + 1),
            ));
        }
        i = i + 1;
    }
    let last = s.substring_char(start, n).to_owned();
    let ghost prev = words@;
    words.push(last);
    assert(strings_view(words@) =~= strings_view(prev).push(last@));
    assert(s@.take(n as int) =~= s@);
    assert(strings_view(words@) =~= split_spaces(s@));
    words
}

/// What `str::to_lowercase` returns for a string: its lowercase equivalent
/// under the Unicode `Lowercase` property, which takes Unicode's tables to
/// state, so it stays a name here.
pub uninterp spec fn lowercase(s: Seq<char>) -> Seq<char>;

/// Calls `str::to_lowercase`; claims only that the result is `lowercase`
/// of the argument, a function of the text alone.
#[verifier::external_body]
pub(crate) fn to_lowercase(s: &str) -> (res: String)
    ensures
        res@ == lowercase(s@),
{
    s.to_lowercase()
}

} // verus!
