//! Small text helpers: decimal numbers, splitting, truncation.
use vstd::prelude::*;
use vstd::string::StrSliceExecFns;

verus! {

pub open spec fn is_digit(c: char) -> bool {
    '0' <= c && c <= '9'
}

pub open spec fn digit_value(c: char) -> int {
    (c as int) - ('0' as int)
}

/// The decimal value of a string of digits.
pub open spec fn decimal_value(s: Seq<char>) -> int
    decreases s.len(),
{
    if s.len() == 0 {
        0
    } else {
        10 * decimal_value(s.drop_last()) + digit_value(s.last())
    }
}

pub open spec fn all_digits(s: Seq<char>) -> bool {
    forall|i: int| 0 <= i < s.len() ==> #[trigger] is_digit(s[i])
}

/// How the standard library reads an unsigned number no larger than `max`:
/// an optional `+`, then at least one decimal digit and nothing else.
pub open spec fn parse_unsigned_spec(s: Seq<char>, max: int) -> Option<int> {
    let d = if s.len() > 0 && s[0] == '+' {
        s.drop_first()
    } else {
        s
    };
    if d.len() > 0 && all_digits(d) && decimal_value(d) <= max {
        Some(decimal_value(d))
    } else {
        None
    }
}

proof fn lemma_decimal_prefix_le(s: Seq<char>, k: int)
    requires
        0 <= k <= s.len(),
        all_digits(s),
    ensures
        0 <= decimal_value(s.subrange(0, k)) <= decimal_value(s),
    decreases s.len() - k,
{
    if k < s.len() {
        lemma_decimal_prefix_le(s, k + 1);
        assert(s.subrange(0, k + 1).drop_last() =~= s.subrange(0, k));
        lemma_decimal_nonneg(s.subrange(0, k));
        assert(is_digit(s[k]));
    } else {
        assert(s.subrange(0, k) =~= s);
        lemma_decimal_nonneg(s);
    }
}

proof fn lemma_decimal_nonneg(s: Seq<char>)
    requires
        all_digits(s),
    ensures
        decimal_value(s) >= 0,
    decreases s.len(),
{
    if s.len() > 0 {
        assert(all_digits(s.drop_last()));
        lemma_decimal_nonneg(s.drop_last());
        assert(is_digit(s[s.len() - 1]));
    }
}

/// Reads an unsigned decimal number no larger than `max` as the standard
/// library's `parse` does; `None` for anything else.
pub fn parse_unsigned(s: &str, max: u64) -> (r: Option<u64>)
    ensures
        match parse_unsigned_spec(s@, max as int) {
            Some(v) => 0 <= v <= max && r == Some(v as u64),
            None => r is None,
        },
{
    let n = s.unicode_len();
    let mut start: usize = 0;
    if n > 0 && s.get_char(0) == '+' {
        start = 1;
    }
    let ghost d = if s@.len() > 0 && s@[0] == '+' {
        s@.drop_first()
    } else {
        s@
    };
    assert(d =~= s@.subrange(start as int, n as int));
    if start >= n {
        return None;
    }
    let mut value: u64 = 0;
    let mut i: usize = start;
    while i < n
        invariant
            start <= i <= n,
            n == s@.len(),
            d =~= s@.subrange(start as int, n as int),
            d == (if s@.len() > 0 && s@[0] == '+' {
                s@.drop_first()
            } else {
                s@
            }),
            all_digits(s@.subrange(start as int, i as int)),
            value as int == decimal_value(s@.subrange(start as int, i as int)),
            value <= max,
        decreases n - i,
    {
        let c = s.get_char(i);
        if !('0' <= c && c <= '9') {
            assert(!is_digit(d[i - start]));
            return None;
        }
        let digit = (c as u64) - ('0' as u64);
        proof {
            assert(s@.subrange(start as int, i as int + 1).drop_last() =~= s@.subrange(
                start as int,
                i as int,
            ));
            assert(all_digits(s@.subrange(start as int, i as int + 1)));
        }
        if digit > max || value > (max - digit) / 10 {
            proof {
                assert(decimal_value(s@.subrange(start as int, i as int + 1)) > max);
                if all_digits(d) {
                    lemma_decimal_prefix_le(d, i + 1 - start);
                    assert(d.subrange(0, i + 1 - start) =~= s@.subrange(start as int, i as int + 1));
                }
            }
            return None;
        }
        value = value * 10 + digit;
        i += 1;
    }
    assert(s@.subrange(start as int, n as int) =~= d);
    proof {
        lemma_decimal_nonneg(d);
    }
    Some(value)
}

/// The first `length` characters of `s`, or all of `s` when it is shorter.
pub open spec fn truncated(s: Seq<char>, length: int) -> Seq<char> {
    if s.len() <= length {
        s
    } else {
        s.subrange(0, length)
    }
}

/// Truncates a string to at most `length` characters.
pub fn truncate_string(s: &str, length: usize) -> (r: &str)
    ensures
        r@ == truncated(s@, length as int),
{
    let n = s.unicode_len();
    if n <= length {
        s
    } else {
        s.substring_char(0, length)
    }
}

/// The positions of every occurrence of `sep` in `s`.
pub open spec fn separator_positions(s: Seq<char>, sep: char) -> Seq<int>
    decreases s.len(),
{
    if s.len() == 0 {
        seq![]
    } else {
        let rest = separator_positions(s.drop_last(), sep);
        if s.last() == sep {
            rest.push(s.len() - 1)
        } else {
            rest
        }
    }
}

/// The pieces of `s` between occurrences of `sep` (as `str::split` gives
/// them for a one-character separator).
pub open spec fn split_pieces(s: Seq<char>, sep: char) -> Seq<Seq<char>> {
    let p = separator_positions(s, sep);
    Seq::new(
        p.len() + 1,
        |k: int|
            s.subrange(
                if k == 0 { 0 } else { p[k - 1] + 1 },
                if k == p.len() { s.len() as int } else { p[k] },
            ),
    )
}

proof fn lemma_separator_positions_props(s: Seq<char>, sep: char)
    ensures
        forall|k: int|
            0 <= k < separator_positions(s, sep).len() ==> 0 <= #[trigger] separator_positions(
                s,
                sep,
            )[k] < s.len() && s[separator_positions(s, sep)[k]] == sep,
        forall|a: int, b: int|
            0 <= a < b < separator_positions(s, sep).len() ==> separator_positions(s, sep)[a]
                < separator_positions(s, sep)[b],
    decreases s.len(),
{
    if s.len() > 0 {
        let rest = separator_positions(s.drop_last(), sep);
        lemma_separator_positions_props(s.drop_last(), sep);
        assert forall|k: int| 0 <= k < rest.len() implies 0 <= #[trigger] rest[k] < s.len() && s[rest[k]]
            == sep by {
            assert(s.drop_last()[rest[k]] == s[rest[k]]);
        }
    }
}

/// Splits `s` at every occurrence of the character `sep`.
pub fn split_char(s: &str, sep: char) -> (r: Vec<String>)
    ensures
        r@.len() == split_pieces(s@, sep).len(),
        forall|k: int| 0 <= k < r@.len() ==> #[trigger] r@[k]@ == split_pieces(s@, sep)[k],
{
    proof {
        lemma_separator_positions_props(s@, sep);
    }
    let n = s.unicode_len();
    let mut pieces: Vec<String> = Vec::new();
    let mut piece_start: usize = 0;
    let mut i: usize = 0;
    let ghost mut seps: Seq<int> = seq![];
    while i < n
        invariant
            i <= n,
            n == s@.len(),
            piece_start <= i,
            seps == separator_positions(s@.subrange(0, i as int), sep),
            pieces@.len() == seps.len(),
            piece_start == if seps.len() == 0 { 0 } else { seps.last() + 1 },
            forall|k: int|
                0 <= k < seps.len() ==> #[trigger] pieces@[k]@ == s@.subrange(
                    if k == 0 { 0 } else { seps[k - 1] + 1 },
                    seps[k],
                ),
        decreases n - i,
    {
        proof {
            assert(s@.subrange(0, i as int + 1).drop_last() =~= s@.subrange(0, i as int));
        }
        if s.get_char(i) == sep {
            let piece = s.substring_char(piece_start, i).to_owned();
            pieces.push(piece);
            proof {
                seps = seps.push(i as int);
            }
            piece_start = i + 1;
        }
        i += 1;
    }
    let last = s.substring_char(piece_start, n).to_owned();
    pieces.push(last);
    proof {
        assert(s@.subrange(0, n as int) =~= s@);
    }
    pieces
}

} // verus!
