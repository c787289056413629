//! Verified building blocks for working with strings: character access,
//! line splitting, decimal numbers, and case-insensitive comparison.

use vstd::prelude::*;
use vstd::string::{StrSliceExecFns, StringExecFns};

verus! {

/// the characters of `s`, as a vector
pub fn chars_of(s: &str) -> (r: Vec<char>)
    ensures
        r@ == s@,
{
    let n: usize = s.unicode_len();
    let mut r: Vec<char> = Vec::new();
    let mut i: usize = 0;
    while i < n
        invariant
            i <= n,
            n == s@.len(),
            r@ == s@.subrange(0, i as int),
        decreases n - i,
    {
        r.push(s.get_char(i));
        proof {
            assert(s@.subrange(0, i + 1 as int) =~= s@.subrange(0, i as int).push(s@[i as int]));
        }
        i = i + 1;
    }
    proof {
        assert(r@ =~= s@);
    }
    r
}

/// character-for-character equality of two string slices
pub fn str_eq(a: &str, b: &str) -> (r: bool)
    ensures
        r == (a@ == b@),
{
    let an: usize = a.unicode_len();
    let bn: usize = b.unicode_len();
    if an != bn {
        proof {
            assert(a@ != b@);
        }
        return false;
    }
    let mut i: usize = 0;
    while i < an
        invariant
            i <= an,
            an == a@.len() == b@.len(),
            forall|j: int| 0 <= j < i ==> a@[j] == b@[j],
        decreases an - i,
    {
        if a.get_char(i) != b.get_char(i) {
            return false;
        }
        i = i + 1;
    }
    proof {
        assert(a@ =~= b@);
    }
    true
}

/// the lower-case form of an ASCII letter code; other codes are unchanged
pub open spec fn lower_u32(u: u32) -> u32 {
    if 65 <= u <= 90 {
        (u + 32) as u32
    } else {
        u
    }
}

/// equality of two character sequences up to ASCII case
pub open spec fn seq_ieq(a: Seq<char>, b: Seq<char>) -> bool {
    a.len() == b.len() && forall|i: int|
        0 <= i < a.len() ==> lower_u32(a[i] as u32) == lower_u32(b[i] as u32)
}

/// compares two string slices, ignoring ASCII case
pub fn str_ieq(a: &str, b: &str) -> (r: bool)
    ensures
        r == seq_ieq(a@, b@),
{
    let an: usize = a.unicode_len();
    let bn: usize = b.unicode_len();
    if an != bn {
        return false;
    }
    let mut i: usize = 0;
    while i < an
        invariant
            i <= an,
            an == a@.len() == b@.len(),
            forall|j: int| 0 <= j < i ==> lower_u32(a@[j] as u32) == lower_u32(b@[j] as u32),
        decreases an - i,
    {
        let ac: u32 = a.get_char(i) as u32;
        let bc: u32 = b.get_char(i) as u32;
        let al: u32 = if 65 <= ac && ac <= 90 {
            ac + 32
        } else {
            ac
        };
        let bl: u32 = if 65 <= bc && bc <= 90 {
            bc + 32
        } else {
            bc
        };
        if al != bl {
            return false;
        }
        i = i + 1;
    }
    true
}

/// the digit character for a value below ten
pub open spec fn spec_digit(d: int) -> char {
    if d == 0 {
        '0'
    } else if d == 1 {
        '1'
    } else if d == 2 {
        '2'
    } else if d == 3 {
        '3'
    } else if d == 4 {
        '4'
    } else if d == 5 {
        '5'
    } else if d == 6 {
        '6'
    } else if d == 7 {
        '7'
    } else if d == 8 {
        '8'
    } else {
        '9'
    }
}

/// the decimal rendering of a non-negative number
pub open spec fn spec_decimal(n: int) -> Seq<char>
    decreases n,
{
    if n < 10 {
        seq![spec_digit(n)]
    } else {
        spec_decimal(n / 10).push(spec_digit(n % 10))
    }
}

fn digit_str(d: u64) -> (s: &'static str)
    requires
        d < 10,
    ensures
        s@ =~= seq![spec_digit(d as int)],
{
    if d == 0 {
        proof {
            reveal_strlit("0");
        }
        "0"
    } else if d == 1 {
        proof {
            reveal_strlit("1");
        }
        "1"
    } else if d == 2 {
        proof {
            reveal_strlit("2");
        }
        "2"
    } else if d == 3 {
        proof {
            reveal_strlit("3");
        }
        "3"
    } else if d == 4 {
        proof {
            reveal_strlit("4");
        }
        "4"
    } else if d == 5 {
        proof {
            reveal_strlit("5");
        }
        "5"
    } else if d == 6 {
        proof {
            reveal_strlit("6");
        }
        "6"
    } else if d == 7 {
        proof {
            reveal_strlit("7");
        }
        "7"
    } else if d == 8 {
        proof {
            reveal_strlit("8");
        }
        "8"
    } else {
        proof {
            reveal_strlit("9");
        }
        "9"
    }
}

/// renders a number in decimal
pub fn decimal_string(n: u64) -> (r: String)
    ensures
        r@ == spec_decimal(n as int),
    decreases n,
{
    if n < 10 {
        let s = digit_str(n);
        let mut r = String::new();
        r.append(s);
        proof {
            assert(r@ =~= spec_decimal(n as int));
        }
        r
    } else {
        let mut r = decimal_string(n / 10);
        r.append(digit_str(n % 10));
        proof {
            assert(r@ =~= spec_decimal(n as int));
        }
        r
    }
}

/// whether a character is a decimal digit
pub open spec fn is_digit(c: char) -> bool {
    48 <= c as u32 <= 57
}

/// whether a character sequence is a non-empty run of decimal digits
pub open spec fn is_decimal_seq(s: Seq<char>) -> bool {
    s.len() > 0 && forall|i: int| 0 <= i < s.len() ==> is_digit(#[trigger] s[i])
}

/// the numeric value of a digit sequence
pub open spec fn decimal_val(s: Seq<char>) -> int
    decreases s.len(),
{
    if s.len() == 0 {
        0
    } else {
        decimal_val(s.drop_last()) * 10 + (s.last() as u32 - 48)
    }
}

proof fn lemma_decimal_val_grows(s: Seq<char>, i: int)
    requires
        0 <= i <= s.len(),
        forall|j: int| 0 <= j < s.len() ==> is_digit(#[trigger] s[j]),
    ensures
        decimal_val(s) >= decimal_val(s.subrange(0, i)),
    decreases s.len() - i,
{
    if i < s.len() {
        lemma_decimal_val_grows(s, i + 1);
        let a = s.subrange(0, i);
        let b = s.subrange(0, i + 1);
        assert(b.drop_last() =~= a);
        assert(decimal_val(a) >= 0) by {
            lemma_decimal_val_nonneg(a);
        }
        assert(decimal_val(b) == decimal_val(a) * 10 + (b.last() as u32 - 48));
        assert(decimal_val(b) >= decimal_val(a)) by (nonlinear_arith)
            requires
                decimal_val(b) == decimal_val(a) * 10 + (b.last() as u32 - 48),
                decimal_val(a) >= 0,
                b.last() as u32 >= 48,
        ;
    } else {
        assert(s.subrange(0, i) =~= s);
    }
}

proof fn lemma_decimal_val_nonneg(s: Seq<char>)
    requires
        forall|j: int| 0 <= j < s.len() ==> is_digit(#[trigger] s[j]),
    ensures
        decimal_val(s) >= 0,
    decreases s.len(),
{
    if s.len() > 0 {
        assert(forall|j: int|
            0 <= j < s.drop_last().len() ==> is_digit(#[trigger] s.drop_last()[j]));
        lemma_decimal_val_nonneg(s.drop_last());
        assert(decimal_val(s.drop_last()) * 10 >= 0) by (nonlinear_arith)
            requires
                decimal_val(s.drop_last()) >= 0,
        ;
    }
}

/// parses a non-empty run of decimal digits, rejecting values beyond `u32`
pub fn parse_u32(s: &str) -> (r: Option<u32>)
    ensures
        r is Some <==> is_decimal_seq(s@) && decimal_val(s@) <= u32::MAX,
        r is Some ==> r->0 == decimal_val(s@),
{
    let n: usize = s.unicode_len();
    if n == 0 {
        return None;
    }
    let mut acc: u64 = 0;
    let mut i: usize = 0;
    while i < n
        invariant
            0 < n == s@.len(),
            i <= n,
            forall|j: int| 0 <= j < i ==> is_digit(#[trigger] s@[j]),
            acc == decimal_val(s@.subrange(0, i as int)),
            acc <= u32::MAX,
        decreases n - i,
    {
        let c: u32 = s.get_char(i) as u32;
        if c < 48 || c > 57 {
            return None;
        }
        let d: u64 = (c - 48) as u64;
        let next: u64 = acc * 10 + d;
        proof {
            assert(s@.subrange(0, i + 1 as int).drop_last() =~= s@.subrange(0, i as int));
        }
        if next > 0xffff_ffff {
            proof {
                if is_decimal_seq(s@) {
                    lemma_decimal_val_grows(s@, i + 1 as int);
                }
            }
            return None;
        }
        acc = next;
        i = i + 1;
    }
    proof {
        assert(s@.subrange(0, n as int) =~= s@);
    }
    Some(acc as u32)
}

/// the position of the first newline at or after `i`, or the end of the text
pub open spec fn line_break(s: Seq<char>, i: int) -> int
    decreases s.len() - i when 0 <= i <= s.len()
{
    if i >= s.len() {
        i
    } else if s[i] == '\n' {
        i
    } else {
        line_break(s, i + 1)
    }
}

pub proof fn lemma_line_break_bounds(s: Seq<char>, i: int)
    requires
        0 <= i <= s.len(),
    ensures
        i <= line_break(s, i) <= s.len(),
    decreases s.len() - i,
{
    if i < s.len() && s[i] != '\n' {
        lemma_line_break_bounds(s, i + 1);
    }
}

pub proof fn lemma_line_break_at(s: Seq<char>, i: int, k: int)
    requires
        0 <= i <= k <= s.len(),
        forall|j: int| i <= j < k ==> s[j] != '\n',
        k == s.len() || s[k] == '\n',
    ensures
        line_break(s, i) == k,
    decreases k - i,
{
    if i < k {
        lemma_line_break_at(s, i + 1, k);
    }
}

/// the lines of a text, split on newline characters, starting at `i`
pub open spec fn spec_split_from(s: Seq<char>, i: int) -> Seq<Seq<char>>
    decreases s.len() - i when 0 <= i <= s.len() via spec_split_from_dec
{
    let j = line_break(s, i);
    if j >= s.len() {
        seq![s.subrange(i, j)]
    } else {
        seq![s.subrange(i, j)] + spec_split_from(s, j + 1)
    }
}

#[via_fn]
proof fn spec_split_from_dec(s: Seq<char>, i: int) {
    lemma_line_break_bounds(s, i);
}

/// the lines of a text, split on newline characters
pub open spec fn spec_split_lines(s: Seq<char>) -> Seq<Seq<char>> {
    spec_split_from(s, 0)
}

/// splits a text into its lines, as `str::split` on a newline does: the
/// result always holds at least one entry, and a trailing newline yields a
/// final empty entry
pub fn split_lines(text: &str) -> (r: Vec<String>)
    ensures
        r.deep_view() == spec_split_lines(text@),
{
    let n: usize = text.unicode_len();
    let mut r: Vec<String> = Vec::new();
    let mut start: usize = 0;
    let mut i: usize = 0;
    while i < n
        invariant
            start <= i <= n,
            n == text@.len(),
            forall|j: int| start <= j < i ==> text@[j] != '\n',
            r.deep_view() + spec_split_from(text@, start as int) =~= spec_split_lines(text@),
        decreases n - i,
    {
        if text.get_char(i) == '\n' {
            let ghost old_r = r.deep_view();
            let line = text.substring_char(start, i).to_owned();
            r.push(line);
            proof {
                lemma_line_break_at(text@, start as int, i as int);
                assert(spec_split_from(text@, start as int) == seq![
                    text@.subrange(start as int, i as int),
                ] + spec_split_from(text@, i + 1 as int));
                assert(r.deep_view() =~= old_r.push(line@));
                assert(r.deep_view() + spec_split_from(text@, i + 1 as int) =~= spec_split_lines(
                    text@,
                ));
            }
            start = i + 1;
        }
        i = i + 1;
    }
    let ghost old_r = r.deep_view();
    let line = text.substring_char(start, n).to_owned();
    r.push(line);
    proof {
        lemma_line_break_at(text@, start as int, n as int);
        assert(spec_split_from(text@, start as int) == seq![
            text@.subrange(start as int, n as int),
        ]);
        assert(r.deep_view() =~= old_r.push(line@));
        assert(r.deep_view() =~= spec_split_lines(text@));
    }
    r
}

} // verus!
