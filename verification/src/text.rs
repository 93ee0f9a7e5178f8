//! Character-level text utilities: trimming, splitting, line separation,
//! decimal parsing and rendering. These are the primitives the table loader
//! is built from, each specified against a `Seq<char>` model.

use vstd::prelude::*;

verus! {

use vstd::arithmetic::div_mod::lemma_fundamental_div_mod;
use vstd::arithmetic::mul::lemma_mul_inequality;
use vstd::arithmetic::mul::lemma_mul_is_commutative;

/// Whitespace as the `White_Space` Unicode property (the set `str::trim`
/// removes at either end).
pub open spec fn is_space_char(c: char) -> bool {
    c == ' ' || c == '\t' || c == '\n' || c == '\u{B}' || c == '\u{C}' || c == '\r'
        || c == '\u{85}' || c == '\u{A0}' || c == '\u{1680}'
        || ('\u{2000}' <= c && c <= '\u{200A}')
        || c == '\u{2028}' || c == '\u{2029}' || c == '\u{202F}' || c == '\u{205F}'
        || c == '\u{3000}'
}

/// Executable test for [`is_space_char`].
pub fn is_space(c: char) -> (r: bool)
    ensures
        r == is_space_char(c),
{
    c == ' ' || c == '\t' || c == '\n' || c == '\u{B}' || c == '\u{C}' || c == '\r'
        || c == '\u{85}' || c == '\u{A0}' || c == '\u{1680}'
        || ('\u{2000}' <= c && c <= '\u{200A}')
        || c == '\u{2028}' || c == '\u{2029}' || c == '\u{202F}' || c == '\u{205F}'
        || c == '\u{3000}'
}

/// Character-for-character equality of two string slices.
pub fn str_eq(a: &str, b: &str) -> (r: bool)
    ensures
        r == (a@ == b@),
{
    let na: usize = a.unicode_len();
    let nb: usize = b.unicode_len();
    if na != nb {
        return false;
    }
    let mut i: usize = 0;
    while i < na
        invariant
            i <= na,
            na == a@.len(),
            na == b@.len(),
            forall|k: int| 0 <= k < i ==> a@[k] == b@[k],
        decreases na - i,
    {
        if a.get_char(i) != b.get_char(i) {
            return false;
        }
        i = i + 1;
    }
    proof {
        assert(a@ =~= b@);
    }
    true
}

/// The given sequence with leading whitespace removed.
pub open spec fn drop_leading_spaces(s: Seq<char>) -> Seq<char>
    decreases s.len(),
{
    if s.len() > 0 && is_space_char(s[0]) {
        drop_leading_spaces(s.drop_first())
    } else {
        s
    }
}

/// The given sequence with trailing whitespace removed.
pub open spec fn drop_trailing_spaces(s: Seq<char>) -> Seq<char>
    decreases s.len(),
{
    if s.len() > 0 && is_space_char(s.last()) {
        drop_trailing_spaces(s.drop_last())
    } else {
        s
    }
}

/// The given sequence with whitespace removed from both ends.
pub open spec fn trim_spec(s: Seq<char>) -> Seq<char> {
    drop_trailing_spaces(drop_leading_spaces(s))
}

proof fn lemma_drop_leading_at(s: Seq<char>, i: int)
    requires
        0 <= i <= s.len(),
        forall|k: int| 0 <= k < i ==> is_space_char(s[k]),
        i < s.len() ==> !is_space_char(s[i]),
    ensures
        drop_leading_spaces(s) == s.subrange(i, s.len() as int),
    decreases i,
{
    if i == 0 {
        assert(s.subrange(0, s.len() as int) =~= s);
    } else {
        assert(is_space_char(s[0]));
        lemma_drop_leading_at(s.drop_first(), i - 1);
        assert(s.drop_first().subrange(i - 1, s.drop_first().len() as int) =~= s.subrange(
            i,
            s.len() as int,
        ));
    }
}

proof fn lemma_drop_trailing_at(s: Seq<char>, j: int)
    requires
        0 <= j <= s.len(),
        forall|k: int| j <= k < s.len() ==> is_space_char(s[k]),
        j > 0 ==> !is_space_char(s[j - 1]),
    ensures
        drop_trailing_spaces(s) == s.subrange(0, j),
    decreases s.len(),
{
    if j == s.len() {
        assert(s.subrange(0, j) =~= s);
    } else {
        assert(is_space_char(s.last()));
        lemma_drop_trailing_at(s.drop_last(), j);
        assert(s.drop_last().subrange(0, j) =~= s.subrange(0, j));
    }
}

/// Remove whitespace from both ends of a string slice, owning the result.
pub fn trim(s: &str) -> (r: String)
    ensures
        r@ == trim_spec(s@),
{
    let n: usize = s.unicode_len();
    let mut start: usize = 0;
    while start < n
        invariant
            start <= n,
            n == s@.len(),
            forall|k: int| 0 <= k < start ==> is_space_char(s@[k]),
        ensures
            start <= n,
            forall|k: int| 0 <= k < start ==> is_space_char(s@[k]),
            start < n ==> !is_space_char(s@[start as int]),
        decreases n - start,
    {
        if is_space(s.get_char(start)) {
            start = start + 1;
        } else {
            break ;
        }
    }
    let mut end: usize = n;
    while end > start
        invariant
            start <= end <= n,
            n == s@.len(),
            forall|k: int| end <= k < n ==> is_space_char(s@[k]),
        ensures
            start <= end <= n,
            forall|k: int| end <= k < n ==> is_space_char(s@[k]),
            end > start ==> !is_space_char(s@[end - 1]),
        decreases end,
    {
        if is_space(s.get_char(end - 1)) {
            end = end - 1;
        } else {
            break ;
        }
    }
    proof {
        lemma_drop_leading_at(s@, start as int);
        let mid = s@.subrange(start as int, n as int);
        lemma_drop_trailing_at(mid, end - start);
        assert(mid.subrange(0, end - start) =~= s@.subrange(start as int, end as int));
    }
    let t = s.substring_char(start, end);
    String::from_str(t)
}

/// The segments of `s` between occurrences of `sep`, in order. A sequence
/// with no separator yields itself as the single segment, so the result is
/// never empty.
pub open spec fn split_spec(s: Seq<char>, sep: char) -> Seq<Seq<char>>
    decreases s.len(),
{
    if s.len() == 0 {
        seq![Seq::<char>::empty()]
    } else if s[0] == sep {
        seq![Seq::<char>::empty()] + split_spec(s.drop_first(), sep)
    } else {
        let rest = split_spec(s.drop_first(), sep);
        seq![seq![s[0]] + rest[0]] + rest.drop_first()
    }
}

pub proof fn lemma_split_nonempty(s: Seq<char>, sep: char)
    ensures
        split_spec(s, sep).len() >= 1,
    decreases s.len(),
{
    if s.len() > 0 {
        lemma_split_nonempty(s.drop_first(), sep);
    }
}

/// Splitting reads up to the first separator: everything before it is the
/// first segment and the remainder splits on its own. With no separator at
/// all (`i == s.len()`), the whole of `s` is the single segment.
pub proof fn lemma_split_at_first_sep(s: Seq<char>, sep: char, i: int)
    requires
        0 <= i <= s.len(),
        forall|k: int| 0 <= k < i ==> s[k] != sep,
        i < s.len() ==> s[i] == sep,
    ensures
        i < s.len() ==> split_spec(s, sep) == seq![s.subrange(0, i)] + split_spec(
            s.subrange(i + 1, s.len() as int),
            sep,
        ),
        i == s.len() ==> split_spec(s, sep) == seq![s],
    decreases s.len(),
{
    lemma_split_nonempty(s, sep);
    if s.len() == 0 {
        assert(split_spec(s, sep) =~~= seq![s]);
    } else if i == 0 {
        if i < s.len() {
            assert(s.subrange(0, 0) =~= Seq::<char>::empty());
            assert(s.subrange(1, s.len() as int) =~= s.drop_first());
        }
    } else {
        let d = s.drop_first();
        lemma_split_at_first_sep(d, sep, i - 1);
        lemma_split_nonempty(d, sep);
        let rest = split_spec(d, sep);
        if i < s.len() {
            let tail = split_spec(d.subrange(i, d.len() as int), sep);
            assert(d.subrange(i - 1 + 1, d.len() as int) =~= s.subrange(i + 1, s.len() as int));
            assert(rest == seq![d.subrange(0, i - 1)] + tail);
            assert(rest.drop_first() =~= tail);
            assert(seq![s[0]] + rest[0] =~= s.subrange(0, i));
            assert(split_spec(s, sep) =~= seq![s.subrange(0, i)] + split_spec(
                s.subrange(i + 1, s.len() as int),
                sep,
            ));
        } else {
            assert(rest == seq![d]);
            assert(seq![s[0]] + rest[0] =~= s);
            assert(split_spec(s, sep) =~= seq![s]);
        }
    }
}

/// Split a string slice at every occurrence of `sep`.
pub fn split(s: &str, sep: char) -> (r: Vec<String>)
    ensures
        r.deep_view() == split_spec(s@, sep),
{
    let n: usize = s.unicode_len();
    let mut r: Vec<String> = Vec::new();
    proof {
        assert(s@.subrange(0, n as int) =~= s@);
        assert(r.deep_view() =~= Seq::<Seq<char>>::empty());
        assert(r.deep_view() + split_spec(s@, sep) =~= split_spec(s@, sep));
    }
    let mut start: usize = 0;
    let mut i: usize = 0;
    while i < n
        invariant
            start <= i <= n,
            n == s@.len(),
            forall|k: int| start <= k < i ==> s@[k] != sep,
            split_spec(s@, sep) =~= r.deep_view() + split_spec(
                s@.subrange(start as int, n as int),
                sep,
            ),
        decreases n - i,
    {
        if s.get_char(i) == sep {
            let ghost suffix = s@.subrange(start as int, n as int);
            proof {
                lemma_split_at_first_sep(suffix, sep, i - start);
                assert(suffix.subrange(0, i - start) =~= s@.subrange(start as int, i as int));
                assert(suffix.subrange(i - start + 1, suffix.len() as int) =~= s@.subrange(
                    i + 1,
                    n as int,
                ));
            }
            let ghost prev = r.deep_view();
            let piece = s.substring_char(start, i);
            r.push(String::from_str(piece));
            proof {
                assert(r.deep_view() =~= prev.push(s@.subrange(start as int, i as int)));
            }
            start = i + 1;
        }
        i = i + 1;
    }
    let ghost suffix = s@.subrange(start as int, n as int);
    proof {
        lemma_split_at_first_sep(suffix, sep, n - start);
    }
    let ghost prev = r.deep_view();
    let piece = s.substring_char(start, n);
    r.push(String::from_str(piece));
    proof {
        assert(r.deep_view() =~= prev.push(suffix));
        assert(r.deep_view() =~= split_spec(s@, sep));
    }
    r
}

/// A line with one trailing carriage return removed, as `str::lines` does.
pub open spec fn strip_cr(l: Seq<char>) -> Seq<char> {
    if l.len() > 0 && l.last() == '\r' {
        l.drop_last()
    } else {
        l
    }
}

/// The lines of `s`: segments between newlines, each stripped of one
/// trailing carriage return, without a final empty segment.
pub open spec fn lines_spec(s: Seq<char>) -> Seq<Seq<char>> {
    let parts = split_spec(s, '\n');
    let kept = if parts.last().len() == 0 {
        parts.drop_last()
    } else {
        parts
    };
    kept.map_values(|l: Seq<char>| strip_cr(l))
}

/// Split a string slice into its lines.
pub fn lines(s: &str) -> (r: Vec<String>)
    ensures
        r.deep_view() == lines_spec(s@),
{
    let parts = split(s, '\n');
    proof {
        lemma_split_nonempty(s@, '\n');
    }
    let last_len: usize = parts[parts.len() - 1].as_str().unicode_len();
    let keep: usize = if last_len == 0 {
        parts.len() - 1
    } else {
        parts.len()
    };
    let ghost kept = if split_spec(s@, '\n').last().len() == 0 {
        split_spec(s@, '\n').drop_last()
    } else {
        split_spec(s@, '\n')
    };
    let mut r: Vec<String> = Vec::new();
    let mut j: usize = 0;
    while j < keep
        invariant
            j <= keep,
            keep <= parts@.len(),
            parts.deep_view() == split_spec(s@, '\n'),
            kept =~= split_spec(s@, '\n').subrange(0, keep as int),
            r.deep_view().len() == j,
            forall|k: int| 0 <= k < j ==> r.deep_view()[k] == strip_cr(parts.deep_view()[k]),
        decreases keep - j,
    {
        let ghost prev = r.deep_view();
        let line = &parts[j];
        let m: usize = line.as_str().unicode_len();
        if m > 0 && line.as_str().get_char(m - 1) == '\r' {
            let t = line.as_str().substring_char(0, m - 1);
            r.push(String::from_str(t));
            proof {
                assert(t@ =~= strip_cr(parts.deep_view()[j as int]));
            }
        } else {
            r.push(line.clone());
        }
        proof {
            assert(r.deep_view() =~= prev.push(strip_cr(parts.deep_view()[j as int])));
        }
        j = j + 1;
    }
    proof {
        assert(r.deep_view() =~= kept.map_values(|l: Seq<char>| strip_cr(l)));
        assert(r.deep_view() =~= lines_spec(s@));
    }
    r
}

/// A decimal digit.
pub open spec fn is_digit_char(c: char) -> bool {
    '0' <= c && c <= '9'
}

/// The numeric value of a decimal digit (zero on other characters).
pub open spec fn digit_val(c: char) -> nat {
    if is_digit_char(c) {
        (c as u32 - 48) as nat
    } else {
        0
    }
}

/// A non-empty, all-digit sequence: the only shape accepted as a number.
pub open spec fn is_digits(s: Seq<char>) -> bool {
    s.len() > 0 && forall|i: int| 0 <= i < s.len() ==> is_digit_char(s[i])
}

/// The number denoted by a digit sequence, most significant digit first.
pub open spec fn digits_val(s: Seq<char>) -> nat
    decreases s.len(),
{
    if s.len() == 0 {
        0
    } else {
        digits_val(s.drop_last()) * 10 + digit_val(s.last())
    }
}

/// What parsing an unsigned number of at most `max` yields: the denoted
/// value when `s` is all digits and fits, nothing otherwise.
pub open spec fn parse_uint_spec(s: Seq<char>, max: nat) -> Option<nat> {
    if is_digits(s) && digits_val(s) <= max {
        Some(digits_val(s))
    } else {
        None
    }
}

proof fn lemma_digits_val_prefix_le(s: Seq<char>, j: int)
    requires
        0 <= j <= s.len(),
    ensures
        digits_val(s.subrange(0, j)) <= digits_val(s),
    decreases s.len(),
{
    if j == s.len() {
        assert(s.subrange(0, j) =~= s);
    } else {
        assert(s.drop_last().subrange(0, j) =~= s.subrange(0, j));
        lemma_digits_val_prefix_le(s.drop_last(), j);
    }
}

/// Parse a string slice as an unsigned 128-bit decimal number.
pub fn parse_u128(s: &str) -> (r: Option<u128>)
    ensures
        match r {
            Some(v) => parse_uint_spec(s@, u128::MAX as nat) == Some(v as nat),
            None => parse_uint_spec(s@, u128::MAX as nat) is None,
        },
{
    let n: usize = s.unicode_len();
    if n == 0 {
        return None;
    }
    let mut acc: u128 = 0;
    let mut i: usize = 0;
    while i < n
        invariant
            0 < n == s@.len(),
            i <= n,
            forall|k: int| 0 <= k < i ==> is_digit_char(s@[k]),
            acc as nat == digits_val(s@.subrange(0, i as int)),
        decreases n - i,
    {
        let c = s.get_char(i);
        let u: u32 = c as u32;
        if u < 48 || u > 57 {
            assert(!is_digit_char(s@[i as int]));
            return None;
        }
        let d: u128 = (u - 48) as u128;
        proof {
            assert(s@.subrange(0, i + 1).drop_last() =~= s@.subrange(0, i as int));
            assert(s@.subrange(0, i + 1).last() == s@[i as int]);
            assert(digit_val(s@[i as int]) == d as nat);
        }
        if acc > (u128::MAX - d) / 10 {
            proof {
                lemma_fundamental_div_mod((u128::MAX - d) as int, 10);
                lemma_mul_inequality(((u128::MAX - d) / 10 + 1) as int, acc as int, 10);
                assert(acc * 10 + d > u128::MAX);
                assert(digits_val(s@.subrange(0, i + 1)) > u128::MAX as nat);
                lemma_digits_val_prefix_le(s@, i + 1);
            }
            return None;
        }
        proof {
            lemma_fundamental_div_mod((u128::MAX - d) as int, 10);
            lemma_mul_inequality(acc as int, ((u128::MAX - d) / 10) as int, 10);
            assert(acc * 10 + d <= u128::MAX);
        }
        acc = acc * 10 + d;
        i = i + 1;
    }
    proof {
        assert(s@.subrange(0, n as int) =~= s@);
    }
    Some(acc)
}

/// Parse a string slice as an unsigned 32-bit decimal number.
pub fn parse_u32(s: &str) -> (r: Option<u32>)
    ensures
        match r {
            Some(v) => parse_uint_spec(s@, u32::MAX as nat) == Some(v as nat),
            None => parse_uint_spec(s@, u32::MAX as nat) is None,
        },
{
    match parse_u128(s) {
        Some(v) => if v <= u32::MAX as u128 {
            Some(v as u32)
        } else {
            None
        },
        None => None,
    }
}

/// Parse a string slice as an unsigned 8-bit decimal number.
pub fn parse_u8(s: &str) -> (r: Option<u8>)
    ensures
        match r {
            Some(v) => parse_uint_spec(s@, u8::MAX as nat) == Some(v as nat),
            None => parse_uint_spec(s@, u8::MAX as nat) is None,
        },
{
    match parse_u128(s) {
        Some(v) => if v <= u8::MAX as u128 {
            Some(v as u8)
        } else {
            None
        },
        None => None,
    }
}

/// The decimal digit for a value below ten.
pub open spec fn digit_char(d: int) -> char {
    if d == 0 {
        '0'
    } else if d == 1 {
        '1'
    } else if d == 2 {
        '2'
    } else if d == 3 {
        '3'
    } else if d == 4 {
        '4'
    } else if d == 5 {
        '5'
    } else if d == 6 {
        '6'
    } else if d == 7 {
        '7'
    } else if d == 8 {
        '8'
    } else {
        '9'
    }
}

/// The decimal representation of `n`, most significant digit first, with
/// no leading zeros.
pub open spec fn dec_rep(n: nat) -> Seq<char>
    decreases n,
{
    if n < 10 {
        seq![digit_char(n as int)]
    } else {
        dec_rep(n / 10) + seq![digit_char((n % 10) as int)]
    }
}

/// The decimal representation denotes the number it was made from.
pub proof fn lemma_dec_rep_val(n: nat)
    ensures
        is_digits(dec_rep(n)),
        digits_val(dec_rep(n)) == n,
    decreases n,
{
    if n < 10 {
        assert(dec_rep(n).drop_last() =~= Seq::<char>::empty());
        assert(dec_rep(n).last() == digit_char(n as int));
        assert(digit_val(digit_char(n as int)) == n);
        assert(digits_val(dec_rep(n)) == digits_val(Seq::<char>::empty()) * 10 + digit_val(
            digit_char(n as int),
        ));
    } else {
        lemma_dec_rep_val(n / 10);
        lemma_fundamental_div_mod(n as int, 10);
        lemma_mul_is_commutative((n / 10) as int, 10);
        assert(dec_rep(n).drop_last() =~= dec_rep(n / 10));
        assert(dec_rep(n).last() == digit_char((n % 10) as int));
        assert(digit_val(digit_char((n % 10) as int)) == n % 10);
        assert(digits_val(dec_rep(n)) == digits_val(dec_rep(n / 10)) * 10 + digit_val(
            dec_rep(n).last(),
        ));
    }
}

fn push_dec_digits(n: u128, out: &mut String)
    ensures
        final(out)@ == old(out)@ + dec_rep(n as nat),
    decreases n,
{
    let ghost entry = out@;
    if n >= 10 {
        push_dec_digits(n / 10, out);
    }
    let d: u128 = n % 10;
    let digit: &str = if d == 0 {
        "0"
    } else if d == 1 {
        "1"
    } else if d == 2 {
        "2"
    } else if d == 3 {
        "3"
    } else if d == 4 {
        "4"
    } else if d == 5 {
        "5"
    } else if d == 6 {
        "6"
    } else if d == 7 {
        "7"
    } else if d == 8 {
        "8"
    } else {
        "9"
    };
    proof {
        reveal_strlit("0");
        reveal_strlit("1");
        reveal_strlit("2");
        reveal_strlit("3");
        reveal_strlit("4");
        reveal_strlit("5");
        reveal_strlit("6");
        reveal_strlit("7");
        reveal_strlit("8");
        reveal_strlit("9");
        assert(digit@ =~= seq![digit_char(d as int)]);
    }
    out.append(digit);
    proof {
        if n >= 10 {
            assert(entry + dec_rep((n / 10) as nat) + seq![digit_char(d as int)] =~= entry
                + dec_rep(n as nat));
        } else {
            assert(entry + seq![digit_char(n as int)] =~= entry + dec_rep(n as nat));
        }
    }
}

/// The values of the digit literals the faking constructors fall back to.
pub proof fn lemma_small_digit_literals()
    ensures
        is_digits("0"@) && digits_val("0"@) == 0,
        is_digits("1"@) && digits_val("1"@) == 1,
        is_digits("2"@) && digits_val("2"@) == 2,
        is_digits("10"@) && digits_val("10"@) == 10,
{
    reveal_strlit("0");
    reveal_strlit("1");
    reveal_strlit("2");
    reveal_strlit("10");
    assert("0"@ =~= seq!['0']);
    assert("1"@ =~= seq!['1']);
    assert("2"@ =~= seq!['2']);
    assert("10"@ =~= seq!['1', '0']);
    assert(seq!['0'].drop_last() =~= Seq::<char>::empty());
    assert(seq!['1'].drop_last() =~= Seq::<char>::empty());
    assert(seq!['2'].drop_last() =~= Seq::<char>::empty());
    assert(seq!['1', '0'].drop_last() =~= seq!['1']);
    assert(is_digit_char('0') && digit_val('0') == 0);
    assert(is_digit_char('1') && digit_val('1') == 1);
    assert(is_digit_char('2') && digit_val('2') == 2);
    assert(digits_val(seq!['1']) == digits_val(Seq::<char>::empty()) * 10 + digit_val('1'));
    assert(digits_val(seq!['1']) == 1);
    assert(digits_val("10"@) == digits_val(seq!['1']) * 10 + digit_val('0'));
}

/// Render `n` in decimal, the form table keys are compared in.
pub fn to_dec(n: u128) -> (r: String)
    ensures
        r@ == dec_rep(n as nat),
{
    let mut s = String::new();
    push_dec_digits(n, &mut s);
    proof {
        assert(Seq::<char>::empty() + dec_rep(n as nat) =~= dec_rep(n as nat));
    }
    s
}

} // verus!
