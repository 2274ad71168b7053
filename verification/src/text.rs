//! Operations on text that the other modules share: comparing, searching,
//! cutting into lines and pieces, trimming, and writing integers in decimal.
//!
//! Every operation is stated over the sequence of characters that a string
//! holds, and the executable forms work on a `Vec<char>` with index ranges.

use vstd::prelude::*;

verus! {

/// Index of the first `c` in `s`, or the length of `s` where `s` holds none.
pub open spec fn first_at(s: Seq<char>, c: char) -> int
    decreases s.len(),
{
    if s.len() == 0 {
        0
    } else if s[0] == c {
        0
    } else {
        1 + first_at(s.drop_first(), c)
    }
}

/// Whether `s` begins with `prefix`.
pub open spec fn has_prefix(s: Seq<char>, prefix: Seq<char>) -> bool {
    prefix.len() <= s.len() && s.take(prefix.len() as int) == prefix
}

/// A character with the Unicode property White_Space.
pub open spec fn is_space(c: char) -> bool {
    let u = c as u32;
    ||| 0x09 <= u <= 0x0d
    ||| u == 0x20
    ||| u == 0x85
    ||| u == 0xa0
    ||| u == 0x1680
    ||| 0x2000 <= u <= 0x200a
    ||| u == 0x2028
    ||| u == 0x2029
    ||| u == 0x202f
    ||| u == 0x205f
    ||| u == 0x3000
}

/// `s` without the white space at its two ends.
pub open spec fn trimmed(s: Seq<char>) -> Seq<char>
    decreases s.len(),
{
    if s.len() == 0 {
        s
    } else if is_space(s[0]) {
        trimmed(s.drop_first())
    } else if is_space(s.last()) {
        trimmed(s.drop_last())
    } else {
        s
    }
}

/// A line without the carriage return that stood before its line feed.
pub open spec fn without_return(line: Seq<char>) -> Seq<char> {
    if line.len() > 0 && line.last() == '\r' {
        line.drop_last()
    } else {
        line
    }
}

/// The lines of a text. A line ends at a line feed, or at a carriage return
/// directly before one; neither belongs to the line. What follows the last
/// line feed is a line only where it is not empty, and keeps a carriage
/// return at its end.
pub open spec fn lines_of(text: Seq<char>) -> Seq<Seq<char>>
    decreases text.len(),
{
    let n = first_at(text, '\n');
    if text.len() == 0 {
        Seq::empty()
    } else if n < 0 || n >= text.len() {
        seq![text]
    } else {
        seq![without_return(text.take(n))] + lines_of(text.skip(n + 1))
    }
}

/// The pieces of `s` between the occurrences of `c`; one piece more than `s`
/// holds occurrences.
pub open spec fn pieces_of(s: Seq<char>, c: char) -> Seq<Seq<char>>
    decreases s.len(),
{
    let n = first_at(s, c);
    if n < 0 || n >= s.len() {
        seq![s]
    } else {
        seq![s.take(n)] + pieces_of(s.skip(n + 1), c)
    }
}

/// The character that writes the decimal digit `d`.
pub open spec fn digit_char(d: int) -> char {
    if d == 0 {
        '0'
    } else if d == 1 {
        '1'
    } else if d == 2 {
        '2'
    } else if d == 3 {
        '3'
    } else if d == 4 {
        '4'
    } else if d == 5 {
        '5'
    } else if d == 6 {
        '6'
    } else if d == 7 {
        '7'
    } else if d == 8 {
        '8'
    } else {
        '9'
    }
}

/// A natural number in decimal, without leading zeros.
pub open spec fn decimal_of_nat(n: nat) -> Seq<char>
    decreases n,
{
    if n < 10 {
        seq![digit_char(n as int)]
    } else {
        decimal_of_nat(n / 10).push(digit_char((n % 10) as int))
    }
}

/// An integer in decimal, with a minus sign where it is negative.
pub open spec fn decimal_of(i: int) -> Seq<char> {
    if i < 0 {
        seq!['-'] + decimal_of_nat((-i) as nat)
    } else {
        decimal_of_nat(i as nat)
    }
}

/// The texts of `parts` written one after another with `separator` between
/// each two.
pub open spec fn joined(parts: Seq<Seq<char>>, separator: Seq<char>) -> Seq<char>
    decreases parts.len(),
{
    if parts.len() == 0 {
        Seq::empty()
    } else if parts.len() == 1 {
        parts[0]
    } else {
        joined(parts.drop_last(), separator) + separator + parts.last()
    }
}

/// The character sequences that a list of strings holds.
pub open spec fn texts_of(strings: Seq<String>) -> Seq<Seq<char>> {
    Seq::new(strings.len(), |i: int| strings[i]@)
}

/// An index that lies within `s`, is at a `c` where it is inside, and has no
/// `c` before it is `first_at`.
pub proof fn lemma_first_at_unique(s: Seq<char>, c: char, k: int)
    requires
        0 <= k <= s.len(),
        k < s.len() ==> s[k] == c,
        forall|j: int| 0 <= j < k ==> s[j] != c,
    ensures
        first_at(s, c) == k,
    decreases s.len(),
{
    if s.len() > 0 && k > 0 {
        let rest = s.drop_first();
        assert(s[0] != c);
        assert(k - 1 < rest.len() ==> rest[k - 1] == c);
        assert forall|j: int| 0 <= j < k - 1 implies rest[j] != c by {
            assert(rest[j] == s[j + 1]);
        }
        lemma_first_at_unique(rest, c, k - 1);
    }
}

/// Whether two string slices hold the same characters.
pub fn same_text(a: &str, b: &str) -> (r: bool)
    ensures
        r == (a@ == b@),
{
    a.to_owned() == b.to_owned()
}

/// The characters of `s`, in order.
pub fn chars_of(s: &str) -> (r: Vec<char>)
    ensures
        r@ == s@,
{
    let mut out: Vec<char> = Vec::new();
    for c in it: s.chars()
        invariant
            it.seq() == s@,
            out@ == s@.take(it.index()),
    {
        out.push(c);
    }
    out
}

/// Whether the characters from `from` up to `to` are exactly `word`.
pub(crate) fn range_is(chars: &Vec<char>, from: usize, to: usize, word: &Vec<char>) -> (r: bool)
    requires
        from <= to <= chars.len(),
    ensures
        r == (chars@.subrange(from as int, to as int) == word@),
{
    if to - from != word.len() {
        return false;
    }
    let mut i: usize = 0;
    while i < word.len()
        invariant
            from <= to <= chars.len(),
            to - from == word.len(),
            i <= word.len(),
            forall|j: int| 0 <= j < i ==> chars@[from + j] == word@[j],
        decreases word.len() - i,
    {
        if chars[from + i] != word[i] {
            assert(chars@.subrange(from as int, to as int)[i as int] != word@[i as int]);
            return false;
        }
        i += 1;
    }
    assert(chars@.subrange(from as int, to as int) =~= word@);
    true
}

/// Whether the characters from `from` up to `to` begin with `word`.
pub(crate) fn range_has_prefix(chars: &Vec<char>, from: usize, to: usize, word: &Vec<char>) -> (r: bool)
    requires
        from <= to <= chars.len(),
    ensures
        r == has_prefix(chars@.subrange(from as int, to as int), word@),
{
    if to - from < word.len() {
        return false;
    }
    let r = range_is(chars, from, from + word.len(), word);
    proof {
        let s = chars@.subrange(from as int, to as int);
        assert(s.take(word.len() as int) =~= chars@.subrange(from as int, from + word.len()));
    }
    r
}

/// The index of the first `c` from `from` on, or `to` where there is none
/// before `to`.
pub(crate) fn find_char(chars: &Vec<char>, from: usize, to: usize, c: char) -> (r: usize)
    requires
        from <= to <= chars.len(),
    ensures
        from <= r <= to,
        r < to ==> chars@[r as int] == c,
        r == from + first_at(chars@.subrange(from as int, to as int), c),
{
    let mut i: usize = from;
    while i < to && chars[i] != c
        invariant
            from <= i <= to <= chars.len(),
            forall|j: int| from <= j < i ==> chars@[j] != c,
        decreases to - i,
    {
        i += 1;
    }
    proof {
        lemma_first_at_unique(chars@.subrange(from as int, to as int), c, i - from);
    }
    i
}

/// Whether `c` has the Unicode property White_Space.
pub fn is_space_char(c: char) -> (r: bool)
    ensures
        r == is_space(c),
{
    let u: u32 = c as u32;
    (0x09 <= u && u <= 0x0d) || u == 0x20 || u == 0x85 || u == 0xa0 || u == 0x1680 || (0x2000 <= u
        && u <= 0x200a) || u == 0x2028 || u == 0x2029 || u == 0x202f || u == 0x205f || u == 0x3000
}

/// The bounds of what is left of the range from `from` up to `to` once the
/// white space at both ends is taken away.
pub(crate) fn trim_range(chars: &Vec<char>, from: usize, to: usize) -> (r: (usize, usize))
    requires
        from <= to <= chars.len(),
    ensures
        from <= r.0 <= r.1 <= to,
        chars@.subrange(r.0 as int, r.1 as int) == trimmed(chars@.subrange(from as int, to as int)),
{
    let mut a: usize = from;
    while a < to && is_space_char(chars[a])
        invariant
            from <= a <= to <= chars.len(),
            trimmed(chars@.subrange(from as int, to as int)) == trimmed(
                chars@.subrange(a as int, to as int),
            ),
        decreases to - a,
    {
        assert(chars@.subrange(a as int, to as int).drop_first() =~= chars@.subrange(
            a + 1,
            to as int,
        ));
        a += 1;
    }
    let mut b: usize = to;
    while a < b && is_space_char(chars[b - 1])
        invariant
            a <= b <= to <= chars.len(),
            a < to ==> !is_space(chars@[a as int]),
            trimmed(chars@.subrange(from as int, to as int)) == trimmed(
                chars@.subrange(a as int, b as int),
            ),
        decreases b - a,
    {
        assert(chars@.subrange(a as int, b as int).drop_last() =~= chars@.subrange(
            a as int,
            b - 1,
        ));
        b -= 1;
    }
    (a, b)
}

/// Where the line that begins at `from` ends, and where the next one begins.
pub(crate) fn line_at(chars: &Vec<char>, from: usize) -> (r: (usize, usize))
    requires
        from < chars.len(),
    ensures
        from <= r.0 <= r.1 <= chars.len(),
        from < r.1,
        lines_of(chars@.skip(from as int)) == seq![chars@.subrange(from as int, r.0 as int)]
            + lines_of(chars@.skip(r.1 as int)),
{
    let n = chars.len();
    let feed = find_char(chars, from, n, '\n');
    proof {
        let rest = chars@.skip(from as int);
        assert(rest =~= chars@.subrange(from as int, n as int));
        assert(first_at(rest, '\n') == feed - from);
    }
    if feed == n {
        proof {
            let rest = chars@.skip(from as int);
            assert(chars@.skip(n as int) =~= Seq::<char>::empty());
            assert(chars@.subrange(from as int, n as int) =~= rest);
            assert(lines_of(chars@.skip(n as int)) =~= Seq::<Seq<char>>::empty());
            assert(lines_of(rest) =~= seq![rest] + Seq::<Seq<char>>::empty());
        }
        (n, n)
    } else {
        let end = if feed > from && chars[feed - 1] == '\r' {
            feed - 1
        } else {
            feed
        };
        proof {
            let rest = chars@.skip(from as int);
            let line = rest.take(feed - from);
            assert(line =~= chars@.subrange(from as int, feed as int));
            assert(without_return(line) =~= chars@.subrange(from as int, end as int));
            assert(rest.skip(feed - from + 1) =~= chars@.skip(feed + 1));
        }
        (end, feed + 1)
    }
}

/// The string that holds the characters of `s` from `from` up to `to`.
pub(crate) fn text_between(s: &str, from: usize, to: usize) -> (r: String)
    requires
        from <= to <= s@.len(),
    ensures
        r@ == s@.subrange(from as int, to as int),
{
    s.substring_char(from, to).to_owned()
}

/// The one-character text of a decimal digit.
fn digit_text(d: u64) -> (r: &'static str)
    requires
        d < 10,
    ensures
        r@ == seq![digit_char(d as int)],
{
    proof {
        reveal_strlit("0");
        reveal_strlit("1");
        reveal_strlit("2");
        reveal_strlit("3");
        reveal_strlit("4");
        reveal_strlit("5");
        reveal_strlit("6");
        reveal_strlit("7");
        reveal_strlit("8");
        reveal_strlit("9");
    }
    let r = if d == 0 {
        "0"
    } else if d == 1 {
        "1"
    } else if d == 2 {
        "2"
    } else if d == 3 {
        "3"
    } else if d == 4 {
        "4"
    } else if d == 5 {
        "5"
    } else if d == 6 {
        "6"
    } else if d == 7 {
        "7"
    } else if d == 8 {
        "8"
    } else {
        "9"
    };
    assert(r@ =~= seq![digit_char(d as int)]);
    r
}

/// Writes `n` in decimal at the end of `out`.
pub fn append_decimal_nat(out: &mut String, n: u64)
    ensures
        final(out)@ == old(out)@ + decimal_of_nat(n as nat),
    decreases n,
{
    if n >= 10 {
        append_decimal_nat(out, n / 10);
    }
    out.append(digit_text(n % 10));
    proof {
        if n >= 10 {
            assert(final(out)@ =~= old(out)@ + decimal_of_nat(n as nat));
        } else {
            assert(final(out)@ =~= old(out)@ + decimal_of_nat(n as nat));
        }
    }
}

/// Writes `i` in decimal at the end of `out`.
pub fn append_decimal(out: &mut String, i: i32)
    ensures
        final(out)@ == old(out)@ + decimal_of(i as int),
{
    let wide: i64 = i as i64;
    if wide < 0 {
        proof {
            reveal_strlit("-");
        }
        out.append("-");
        append_decimal_nat(out, (-wide) as u64);
        assert(final(out)@ =~= old(out)@ + decimal_of(i as int));
    } else {
        append_decimal_nat(out, wide as u64);
    }
}

/// The texts of `parts` written one after another with `separator` between
/// each two.
pub fn join_with(parts: &Vec<String>, separator: &str) -> (r: String)
    ensures
        r@ == joined(texts_of(parts@), separator@),
{
    let mut out = String::new();
    let mut i: usize = 0;
    while i < parts.len()
        invariant
            i <= parts.len(),
            out@ == joined(texts_of(parts@).take(i as int), separator@),
        decreases parts.len() - i,
    {
        proof {
            let next = texts_of(parts@).take(i + 1);
            assert(next.drop_last() =~= texts_of(parts@).take(i as int));
            assert(next.last() == parts@[i as int]@);
        }
        if i > 0 {
            out.append(separator);
        }
        out.append(parts[i].as_str());
        proof {
            let next = texts_of(parts@).take(i + 1);
            if i == 0 {
                assert(out@ =~= next[0]);
            }
        }
        i += 1;
    }
    proof {
        assert(texts_of(parts@).take(parts.len() as int) =~= texts_of(parts@));
    }
    out
}

} // verus!
