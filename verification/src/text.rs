//! Text helpers: splitting on a separator, trimming white space, and the
//! decimal form of integers.
use vstd::prelude::*;

verus! {

/// The characters `char::is_whitespace` accepts: Unicode `White_Space`.
pub open spec fn is_whitespace(c: char) -> bool {
    let n = c as u32;
    ||| 0x9 <= n <= 0xd
    ||| n == 0x20
    ||| n == 0x85
    ||| n == 0xa0
    ||| n == 0x1680
    ||| 0x2000 <= n <= 0x200a
    ||| n == 0x2028
    ||| n == 0x2029
    ||| n == 0x202f
    ||| n == 0x205f
    ||| n == 0x3000
}

/// Decides Unicode `White_Space`, as `char::is_whitespace` does.
pub fn char_is_whitespace(c: char) -> (b: bool)
    ensures
        b == is_whitespace(c),
{
    let n = c as u32;
    (0x9 <= n && n <= 0xd) || n == 0x20 || n == 0x85 || n == 0xa0 || n == 0x1680 || (0x2000 <= n
        && n <= 0x200a) || n == 0x2028 || n == 0x2029 || n == 0x202f || n == 0x205f || n == 0x3000
}

/// The pieces of `s` between occurrences of `sep`, as `str::split` yields
/// them: one more piece than there are separators, empty pieces included.
pub open spec fn split_on(s: Seq<char>, sep: char) -> Seq<Seq<char>>
    decreases s.len(),
{
    if s.len() == 0 {
        seq![Seq::empty()]
    } else {
        let pieces = split_on(s.drop_last(), sep);
        if s.last() == sep {
            pieces.push(Seq::empty())
        } else {
            pieces.update(pieces.len() - 1, pieces.last().push(s.last()))
        }
    }
}

/// `s` without its leading white space.
pub open spec fn trim_start(s: Seq<char>) -> Seq<char>
    decreases s.len(),
{
    if s.len() > 0 && is_whitespace(s[0]) {
        trim_start(s.drop_first())
    } else {
        s
    }
}

/// `s` without its trailing white space.
pub open spec fn trim_end(s: Seq<char>) -> Seq<char>
    decreases s.len(),
{
    if s.len() > 0 && is_whitespace(s.last()) {
        trim_end(s.drop_last())
    } else {
        s
    }
}

/// `s` without leading and trailing white space, as `str::trim` gives it.
pub open spec fn trim(s: Seq<char>) -> Seq<char> {
    trim_end(trim_start(s))
}

/// The number of occurrences of `c` in `s`.
pub open spec fn count_of(s: Seq<char>, c: char) -> nat
    decreases s.len(),
{
    if s.len() == 0 {
        0
    } else {
        count_of(s.drop_last(), c) + if s.last() == c { 1nat } else { 0nat }
    }
}

/// Splitting yields one piece more than there are separators, and no piece
/// holds a separator.
pub proof fn lemma_split_on_pieces(s: Seq<char>, sep: char)
    ensures
        split_on(s, sep).len() == count_of(s, sep) + 1,
        forall|i: int, j: int| 0 <= i < split_on(s, sep).len() && 0 <= j < split_on(s, sep)[i].len() ==> split_on(s, sep)[i][j] != sep,
    decreases s.len(),
{
    if s.len() > 0 {
        let rest = s.drop_last();
        lemma_split_on_pieces(rest, sep);
        let pieces = split_on(rest, sep);
        let out = split_on(s, sep);
        if s.last() != sep {
            assert forall|i: int, j: int| 0 <= i < out.len() && 0 <= j < out[i].len() implies out[i][j] != sep by {
                if i == pieces.len() - 1 {
                    if j < pieces.last().len() {
                        assert(out[i][j] == pieces[i][j]);
                    }
                } else {
                    assert(out[i] == pieces[i]);
                }
            }
        } else {
            assert forall|i: int, j: int| 0 <= i < out.len() && 0 <= j < out[i].len() implies out[i][j] != sep by {
                assert(out[i] == pieces[i]);
            }
        }
    }
}

proof fn lemma_trim_start_shape(s: Seq<char>)
    ensures
        trim_start(s).len() > 0 ==> !is_whitespace(trim_start(s)[0]),
    decreases s.len(),
{
    if s.len() > 0 && is_whitespace(s[0]) {
        lemma_trim_start_shape(s.drop_first());
    }
}

proof fn lemma_trim_end_shape(s: Seq<char>)
    ensures
        trim_end(s).len() <= s.len(),
        forall|i: int| 0 <= i < trim_end(s).len() ==> trim_end(s)[i] == s[i],
        trim_end(s).len() > 0 ==> !is_whitespace(trim_end(s).last()),
    decreases s.len(),
{
    if s.len() > 0 && is_whitespace(s.last()) {
        lemma_trim_end_shape(s.drop_last());
        assert forall|i: int| 0 <= i < trim_end(s).len() implies trim_end(s)[i] == s[i] by {
            assert(s.drop_last()[i] == s[i]);
        }
    }
}

/// A trimmed text neither starts nor ends with white space.
pub proof fn lemma_trim_has_no_outer_whitespace(s: Seq<char>)
    ensures
        trim(s).len() > 0 ==> !is_whitespace(trim(s)[0]) && !is_whitespace(trim(s).last()),
{
    lemma_trim_start_shape(s);
    lemma_trim_end_shape(trim_start(s));
}

/// The trimmed text of the characters `from..to` of `text`.
pub fn trimmed_substring(text: &str, from: usize, to: usize) -> (piece: String)
    requires
        from <= to <= text@.len(),
    ensures
        piece@ == trim(text@.subrange(from as int, to as int)),
{
    let mut lo = from;
    while lo < to && char_is_whitespace(text.get_char(lo))
        invariant
            from <= lo <= to <= text@.len(),
            trim_start(text@.subrange(from as int, to as int)) == trim_start(text@.subrange(lo as int, to as int)),
        decreases to - lo,
    {
        assert(text@.subrange(lo as int, to as int).drop_first() =~= text@.subrange(lo + 1, to as int));
        lo = lo + 1;
    }
    let mut hi = to;
    while hi > lo && char_is_whitespace(text.get_char(hi - 1))
        invariant
            lo <= hi <= to <= text@.len(),
            trim_end(text@.subrange(lo as int, to as int)) == trim_end(text@.subrange(lo as int, hi as int)),
        decreases hi - lo,
    {
        assert(text@.subrange(lo as int, hi as int).drop_last() =~= text@.subrange(lo as int, hi - 1));
        hi = hi - 1;
    }
    String::from_str(text.substring_char(lo, hi))
}

/// The decimal digits of a natural number, most significant first.
pub open spec fn decimal_digits(n: nat) -> Seq<char>
    decreases n,
{
    if n < 10 {
        seq![(48 + n) as char]
    } else {
        decimal_digits(n / 10).push((48 + n % 10) as char)
    }
}

/// The decimal form of an integer, with a leading `-` when it is negative.
pub open spec fn decimal_text(n: int) -> Seq<char> {
    if n < 0 {
        seq!['-'] + decimal_digits((-n) as nat)
    } else {
        decimal_digits(n as nat)
    }
}

/// Whether `c` is one of the digits `0` to `9`.
pub open spec fn is_decimal_digit(c: char) -> bool {
    '0' <= c <= '9'
}

/// The number a string of decimal digits denotes, read in base ten.
pub open spec fn digits_value(s: Seq<char>) -> int
    decreases s.len(),
{
    if s.len() == 0 {
        0
    } else {
        10 * digits_value(s.drop_last()) + (s.last() as int - '0' as int)
    }
}

/// The number a decimal text denotes: its digits read in base ten, negated
/// after a leading `-`.
pub open spec fn decimal_value(s: Seq<char>) -> int {
    if s.len() > 0 && s[0] == '-' {
        -digits_value(s.drop_first())
    } else {
        digits_value(s)
    }
}

/// The decimal digits of `n` are digits, read back to `n`, and start with a
/// `0` only when `n` is zero.
pub proof fn lemma_decimal_digits_read_back(n: nat)
    ensures
        decimal_digits(n).len() > 0,
        forall|i: int| 0 <= i < decimal_digits(n).len() ==> is_decimal_digit(#[trigger] decimal_digits(n)[i]),
        digits_value(decimal_digits(n)) == n,
        decimal_digits(n)[0] == '0' ==> n == 0,
    decreases n,
{
    assert('0' as int == 48);
    if n < 10 {
        let c = (48 + n) as char;
        assert(c as int == 48 + n);
        assert(decimal_digits(n).drop_last() =~= Seq::<char>::empty());
        assert(digits_value(decimal_digits(n)) == 10 * digits_value(Seq::<char>::empty()) + (c as int - '0' as int));
    } else {
        lemma_decimal_digits_read_back(n / 10);
        let c = (48 + n % 10) as char;
        assert(c as int == 48 + n % 10);
        let d = decimal_digits(n);
        assert(d.last() == c);
        assert(d.drop_last() =~= decimal_digits(n / 10));
        assert(digits_value(d) == 10 * digits_value(d.drop_last()) + (d.last() as int - '0' as int));
        assert(digits_value(d.drop_last()) == n / 10);
        assert(10 * (n / 10) + n % 10 == n);
        assert(d[0] == decimal_digits(n / 10)[0]);
        assert forall|i: int| 0 <= i < d.len() implies is_decimal_digit(#[trigger] d[i]) by {
            if i < d.len() - 1 {
                assert(d[i] == decimal_digits(n / 10)[i]);
            }
        }
    }
}

/// The decimal text of an integer reads back to that integer: writing a
/// number and reading it again gives the same number.
pub proof fn lemma_decimal_text_reads_back(n: int)
    ensures
        decimal_value(decimal_text(n)) == n,
        forall|i: int| 0 <= i < decimal_text(n).len() && !(i == 0 && n < 0) ==> is_decimal_digit(#[trigger] decimal_text(n)[i]),
{
    if n < 0 {
        lemma_decimal_digits_read_back((-n) as nat);
        let t = decimal_text(n);
        assert(t.drop_first() =~= decimal_digits((-n) as nat));
        assert forall|i: int| 0 <= i < t.len() && !(i == 0 && n < 0) implies is_decimal_digit(#[trigger] t[i]) by {
            assert(t[i] == decimal_digits((-n) as nat)[i - 1]);
        }
    } else {
        lemma_decimal_digits_read_back(n as nat);
    }
}

/// Appends the decimal digits of `n`, most significant first.
fn append_decimal_digits(text: &mut String, n: u32)
    ensures
        final(text)@ == old(text)@ + decimal_digits(n as nat),
    decreases n,
{
    if n >= 10 {
        append_decimal_digits(text, n / 10);
    }
    let digit = n % 10;
    let digits = "0123456789";
    proof {
        reveal_strlit("0123456789");
        assert(digits@ =~= seq!['0', '1', '2', '3', '4', '5', '6', '7', '8', '9']);
    }
    let d = digit as usize;
    let piece = digits.substring_char(d, d + 1);
    assert(piece@ =~= seq![(48 + n % 10) as char]);
    text.append(piece);
}

/// The decimal form of an `i32`, as its `Display` writes it: a leading `-`
/// for negative numbers, no leading zeros.
pub(crate) fn i32_to_string(n: i32) -> (text: String)
    ensures
        text@ == decimal_text(n as int),
{
    let mut text = String::new();
    let magnitude: u32 = if n < 0 {
        proof {
            reveal_strlit("-");
        }
        text.append("-");
        (-(n as i64)) as u32
    } else {
        n as u32
    };
    append_decimal_digits(&mut text, magnitude);
    text
}

} // verus!
