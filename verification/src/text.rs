//! Character-level text handling: Unicode white space trimming, ASCII case
//! folding, searching, decimal integers.
use vstd::prelude::*;
use vstd::string::*;

verus! {

// ---------------------------------------------------------------------------
// Specifications
// ---------------------------------------------------------------------------

/// The Unicode `White_Space` property (what `char::is_whitespace` tests).
pub open spec fn is_white_space(c: char) -> bool {
    let v = c as int;
    ||| 0x9 <= v <= 0xD
    ||| v == 0x20
    ||| v == 0x85
    ||| v == 0xA0
    ||| v == 0x1680
    ||| 0x2000 <= v <= 0x200A
    ||| v == 0x2028
    ||| v == 0x2029
    ||| v == 0x202F
    ||| v == 0x205F
    ||| v == 0x3000
}

/// `s` without its leading white space.
pub open spec fn trim_start(s: Seq<char>) -> Seq<char>
    decreases s.len(),
{
    if s.len() > 0 && is_white_space(s[0]) {
        trim_start(s.drop_first())
    } else {
        s
    }
}

/// `s` without its trailing white space.
pub open spec fn trim_end(s: Seq<char>) -> Seq<char>
    decreases s.len(),
{
    if s.len() > 0 && is_white_space(s.last()) {
        trim_end(s.drop_last())
    } else {
        s
    }
}

/// `s` without leading and trailing white space (what `str::trim` returns).
pub open spec fn trim(s: Seq<char>) -> Seq<char> {
    trim_end(trim_start(s))
}

/// ASCII upper-case letters mapped to lower case, every other character kept.
pub open spec fn ascii_lower(c: char) -> char {
    if 'A' <= c && c <= 'Z' {
        ((c as int) + 32) as char
    } else {
        c
    }
}

/// What `str::to_ascii_lowercase` returns.
pub open spec fn lower(s: Seq<char>) -> Seq<char> {
    s.map_values(|c: char| ascii_lower(c))
}

/// The part of `s` before the first `c` (all of `s` when there is none).
pub open spec fn prefix_before(s: Seq<char>, c: char) -> Seq<char>
    decreases s.len(),
{
    if s.len() == 0 {
        s
    } else if s[0] == c {
        Seq::empty()
    } else {
        seq![s[0]] + prefix_before(s.drop_first(), c)
    }
}

pub open spec fn is_ascii_digit(c: char) -> bool {
    '0' <= c && c <= '9'
}

pub open spec fn all_ascii_digits(s: Seq<char>) -> bool {
    forall|i: int| 0 <= i < s.len() ==> is_ascii_digit(#[trigger] s[i])
}

/// The value of a string of decimal digits, most significant first.
pub open spec fn digits_value(s: Seq<char>) -> int
    decreases s.len(),
{
    if s.len() == 0 {
        0
    } else {
        digits_value(s.drop_last()) * 10 + (s.last() as int - '0' as int)
    }
}

/// What `str::parse::<u64>` accepts: an optional `+`, then one or more ASCII
/// digits whose value fits in a `u64`.
pub open spec fn spec_parse_u64(s: Seq<char>) -> Option<u64> {
    let d = if s.len() > 0 && s[0] == '+' {
        s.drop_first()
    } else {
        s
    };
    if d.len() > 0 && all_ascii_digits(d) && digits_value(d) <= u64::MAX {
        Some(digits_value(d) as u64)
    } else {
        None
    }
}

pub open spec fn digit_char(d: int) -> char {
    (d + '0' as int) as char
}

/// The decimal representation of `n`, without leading zeros.
pub open spec fn decimal_digits(n: nat) -> Seq<char>
    decreases n,
{
    if n < 10 {
        seq![digit_char(n as int)]
    } else {
        decimal_digits(n / 10).push(digit_char((n % 10) as int))
    }
}

/// Lines joined into a text, each followed by a newline.
pub open spec fn join_lines(lines: Seq<Seq<char>>) -> Seq<char>
    decreases lines.len(),
{
    if lines.len() == 0 {
        Seq::empty()
    } else {
        lines[0] + seq!['\n'] + join_lines(lines.drop_first())
    }
}

// ---------------------------------------------------------------------------
// Lemmas
// ---------------------------------------------------------------------------

/// `prefix_before(t, c)` is the first `k` characters when `k` is the position
/// of the first `c` in `t` (or its length).
pub proof fn lemma_prefix_before(t: Seq<char>, c: char, k: int)
    requires
        0 <= k <= t.len(),
        forall|i: int| 0 <= i < k ==> t[i] != c,
        k == t.len() || t[k] == c,
    ensures
        prefix_before(t, c) == t.take(k),
    decreases t.len(),
{
    if t.len() == 0 {
        assert(t.take(k) =~= t);
    } else if t[0] == c {
        assert(t.take(k) =~= Seq::<char>::empty());
    } else {
        let u = t.drop_first();
        assert forall|i: int| 0 <= i < k - 1 implies u[i] != c by {
            assert(u[i] == t[i + 1]);
        }
        if k - 1 < u.len() {
            assert(u[k - 1] == t[k]);
        }
        lemma_prefix_before(u, c, k - 1);
        assert(seq![t[0]] + u.take(k - 1) =~= t.take(k));
    }
}

pub proof fn lemma_digit_char(d: nat)
    requires
        d < 10,
    ensures
        digit_char(d as int) as int == d + '0' as int,
        is_ascii_digit(digit_char(d as int)),
{
    assert(((d + 48) as char) as int == d + 48);
}

/// Rendering a number in decimal and parsing it back gives the number.
pub proof fn lemma_decimal_roundtrip(n: nat)
    ensures
        all_ascii_digits(decimal_digits(n)),
        decimal_digits(n).len() > 0,
        digits_value(decimal_digits(n)) == n,
        decimal_digits(n)[0] != '+',
    decreases n,
{
    lemma_digit_char(n % 10);
    if n < 10 {
        let d = decimal_digits(n);
        assert(n % 10 == n);
        assert(d == seq![digit_char(n as int)]);
        assert(d.drop_last() =~= Seq::<char>::empty());
        assert(digits_value(d) == digits_value(d.drop_last()) * 10 + (d.last() as int - '0' as int));
    } else {
        lemma_decimal_roundtrip(n / 10);
        let d = decimal_digits(n);
        assert(d.drop_last() =~= decimal_digits(n / 10));
        assert(n == (n / 10) * 10 + n % 10) by (nonlinear_arith);
        assert forall|i: int| 0 <= i < d.len() implies is_ascii_digit(#[trigger] d[i]) by {
            if i < d.len() - 1 {
                assert(d[i] == decimal_digits(n / 10)[i]);
            }
        }
        assert(d[0] == decimal_digits(n / 10)[0]);
        assert(digits_value(d) == digits_value(d.drop_last()) * 10 + (d.last() as int - '0' as int));
    }
}

/// Every `u64` survives the trip through its decimal text and
/// `str::parse::<u64>`.
pub proof fn lemma_u64_decimal_parse_roundtrip(n: u64)
    ensures
        spec_parse_u64(decimal_digits(n as nat)) == Some(n),
{
    lemma_decimal_roundtrip(n as nat);
}

// ---------------------------------------------------------------------------
// Executable functions
// ---------------------------------------------------------------------------

/// Collects the characters of `s` in order.
pub fn str_to_chars(s: &str) -> (v: Vec<char>)
    ensures
        v@ == s@,
{
    broadcast use vstd::string::group_string_axioms;

    let mut v: Vec<char> = Vec::new();
    for c in it: s.chars()
        invariant
            it.seq() == s@,
            v@ == it.seq().take(it.index() as int),
    {
        v.push(c);
    }
    v
}

/// Whether `c` is Unicode white space.
pub fn is_white_space_char(c: char) -> (b: bool)
    ensures
        b == is_white_space(c),
{
    let v = c as u32;
    (0x9 <= v && v <= 0xD) || v == 0x20 || v == 0x85 || v == 0xA0 || v == 0x1680 || (0x2000
        <= v && v <= 0x200A) || v == 0x2028 || v == 0x2029 || v == 0x202F || v == 0x205F || v
        == 0x3000
}

/// `c` with an ASCII upper-case letter turned to lower case.
pub fn ascii_lower_char(c: char) -> (r: char)
    ensures
        r == ascii_lower(c),
{
    if 'A' <= c && c <= 'Z' {
        let b: u8 = c as u8;
        ((b + 32) as u8) as char
    } else {
        c
    }
}

/// The bounds of `v[start..end]` with its white space trimmed at both ends.
pub fn trim_range(v: &Vec<char>, start: usize, end: usize) -> (r: (usize, usize))
    requires
        start <= end <= v.len(),
    ensures
        start <= r.0 <= r.1 <= end,
        v@.subrange(r.0 as int, r.1 as int) == trim(v@.subrange(start as int, end as int)),
{
    let mut i = start;
    while i < end && is_white_space_char(v[i])
        invariant
            start <= i <= end <= v.len(),
            trim_start(v@.subrange(start as int, end as int)) == trim_start(
                v@.subrange(i as int, end as int),
            ),
        decreases end - i,
    {
        assert(v@.subrange(i as int, end as int).drop_first() =~= v@.subrange(
            i as int + 1,
            end as int,
        ));
        i = i + 1;
    }
    let ghost t = v@.subrange(i as int, end as int);
    assert(trim_start(t) == t);
    let mut j = end;
    while j > i && is_white_space_char(v[j - 1])
        invariant
            start <= i <= j <= end <= v.len(),
            trim_end(t) == trim_end(v@.subrange(i as int, j as int)),
        decreases j - i,
    {
        assert(v@.subrange(i as int, j as int).drop_last() =~= v@.subrange(
            i as int,
            j as int - 1,
        ));
        j = j - 1;
    }
    (i, j)
}

/// `v[start..end]` with ASCII letters in lower case.
pub fn lower_range(v: &Vec<char>, start: usize, end: usize) -> (r: Vec<char>)
    requires
        start <= end <= v.len(),
    ensures
        r@ == lower(v@.subrange(start as int, end as int)),
{
    let mut r: Vec<char> = Vec::new();
    let mut i = start;
    while i < end
        invariant
            start <= i <= end <= v.len(),
            r@ == lower(v@.subrange(start as int, i as int)),
        decreases end - i,
    {
        let c = ascii_lower_char(v[i]);
        r.push(c);
        assert(lower(v@.subrange(start as int, i + 1)) =~= lower(
            v@.subrange(start as int, i as int),
        ).push(c));
        i = i + 1;
    }
    r
}

/// The position of the first `c` in `v[start..end]`, or `end`.
pub fn find_char(v: &Vec<char>, start: usize, end: usize, c: char) -> (r: usize)
    requires
        start <= end <= v.len(),
    ensures
        start <= r <= end,
        forall|i: int| start <= i < r ==> v@[i] != c,
        r < end ==> v@[r as int] == c,
        prefix_before(v@.subrange(start as int, end as int), c) == v@.subrange(
            start as int,
            r as int,
        ),
{
    let mut i = start;
    while i < end && v[i] != c
        invariant
            start <= i <= end <= v.len(),
            forall|k: int| start <= k < i ==> v@[k] != c,
        decreases end - i,
    {
        i = i + 1;
    }
    proof {
        let t = v@.subrange(start as int, end as int);
        lemma_prefix_before(t, c, i - start);
        assert(t.take(i - start) =~= v@.subrange(start as int, i as int));
    }
    i
}

/// Whether the characters of `v` are those of `lit`.
pub fn chars_eq_str(v: &Vec<char>, lit: &str) -> (b: bool)
    ensures
        b == (v@ == lit@),
{
    let n = lit.unicode_len();
    if v.len() != n {
        return false;
    }
    let mut i: usize = 0;
    while i < n
        invariant
            n == v.len(),
            n == lit@.len(),
            i <= n,
            forall|k: int| 0 <= k < i ==> v@[k] == lit@[k],
        decreases n - i,
    {
        if v[i] != lit.get_char(i) {
            return false;
        }
        i = i + 1;
    }
    assert(v@ =~= lit@);
    true
}

/// `str::parse::<u64>` on `v[start..end]`.
pub fn parse_u64_range(v: &Vec<char>, start: usize, end: usize) -> (r: Option<u64>)
    requires
        start <= end <= v.len(),
    ensures
        r == spec_parse_u64(v@.subrange(start as int, end as int)),
{
    let ghost s = v@.subrange(start as int, end as int);
    let mut i = start;
    if i < end && v[i] == '+' {
        i = i + 1;
    }
    let ghost d = v@.subrange(i as int, end as int);
    assert(d =~= (if s.len() > 0 && s[0] == '+' {
        s.drop_first()
    } else {
        s
    }));
    let first = i;
    if first == end {
        return None;
    }
    let mut acc: u64 = 0;
    let mut overflow = false;
    while i < end
        invariant
            start <= first <= i <= end <= v.len(),
            d == v@.subrange(first as int, end as int),
            s == v@.subrange(start as int, end as int),
            d == (if s.len() > 0 && s[0] == '+' {
                s.drop_first()
            } else {
                s
            }),
            all_ascii_digits(v@.subrange(first as int, i as int)),
            !overflow ==> acc as int == digits_value(v@.subrange(first as int, i as int)),
            overflow ==> digits_value(v@.subrange(first as int, i as int)) > u64::MAX,
            digits_value(v@.subrange(first as int, i as int)) >= 0,
        decreases end - i,
    {
        let c = v[i];
        if !('0' <= c && c <= '9') {
            assert(d[i - first] == c);
            assert(!is_ascii_digit(d[i - first]));
            assert(!all_ascii_digits(d));
            return None;
        }
        let ghost prev = v@.subrange(first as int, i as int);
        let ghost next = v@.subrange(first as int, i + 1);
        assert(next.drop_last() =~= prev);
        assert(next.last() == c);
        let digit: u64 = (c as u32 - '0' as u32) as u64;
        assert(digits_value(next) == digits_value(prev) * 10 + digit);
        assert(digits_value(prev) * 10 + digit >= digits_value(prev)) by (nonlinear_arith)
            requires
                digits_value(prev) >= 0,
                digit >= 0,
        ;
        if !overflow {
            if acc > (u64::MAX - digit) / 10 {
                assert(acc * 10 + digit > u64::MAX) by (nonlinear_arith)
                    requires
                        acc > (u64::MAX - digit) / 10,
                        digit <= 9,
                ;
                overflow = true;
            } else {
                assert(acc * 10 + digit <= u64::MAX) by (nonlinear_arith)
                    requires
                        acc <= (u64::MAX - digit) / 10,
                        digit <= 9,
                ;
                acc = acc * 10 + digit;
            }
        }
        assert forall|k: int| 0 <= k < next.len() implies is_ascii_digit(#[trigger] next[k]) by {
            if k < prev.len() {
                assert(next[k] == prev[k]);
            }
        }
        i = i + 1;
    }
    assert(v@.subrange(first as int, i as int) =~= d);
    if overflow {
        None
    } else {
        Some(acc)
    }
}

/// Appends the decimal representation of `n` to `out`.
pub fn push_decimal(n: u64, out: &mut Vec<char>)
    ensures
        final(out)@ == old(out)@ + decimal_digits(n as nat),
    decreases n,
{
    if n >= 10 {
        push_decimal(n / 10, out);
    }
    let d: u8 = (n % 10) as u8;
    let c: char = (d + 48) as char;
    assert(c == digit_char((n % 10) as int));
    out.push(c);
    proof {
        if n >= 10 {
            assert(decimal_digits(n as nat) == decimal_digits((n / 10) as nat).push(
                digit_char((n % 10) as int),
            ));
        }
    }
    assert(final(out)@ =~= old(out)@ + decimal_digits(n as nat));
}

/// Appends the characters of `s` to `out`.
pub fn push_str(s: &str, out: &mut Vec<char>)
    ensures
        final(out)@ == old(out)@ + s@,
{
    let cs = str_to_chars(s);
    let mut i: usize = 0;
    while i < cs.len()
        invariant
            i <= cs.len(),
            cs@ == s@,
            out@ == old(out)@ + cs@.take(i as int),
        decreases cs.len() - i,
    {
        out.push(cs[i]);
        assert(cs@.take(i + 1) =~= cs@.take(i as int).push(cs@[i as int]));
        i = i + 1;
    }
    assert(cs@.take(i as int) =~= cs@);
}

/// The views of a vector of lines.
pub open spec fn lines_view(lines: Seq<Vec<char>>) -> Seq<Seq<char>> {
    lines.map_values(|l: Vec<char>| l@)
}

/// Joining one more line appends it and its newline.
pub proof fn lemma_join_lines_push(lines: Seq<Seq<char>>, l: Seq<char>)
    ensures
        join_lines(lines.push(l)) == join_lines(lines) + l + seq!['\n'],
    decreases lines.len(),
{
    if lines.len() == 0 {
        assert(lines.push(l).drop_first() =~= Seq::<Seq<char>>::empty());
        assert(join_lines(Seq::<Seq<char>>::empty()) == Seq::<char>::empty());
        assert(lines.push(l)[0] == l);
        assert(join_lines(lines.push(l)) =~= join_lines(lines) + l + seq!['\n']);
    } else {
        lemma_join_lines_push(lines.drop_first(), l);
        assert(lines.push(l).drop_first() =~= lines.drop_first().push(l));
        assert(join_lines(lines.push(l)) =~= join_lines(lines) + l + seq!['\n']);
    }
}

/// The lines joined, each followed by a newline.
pub fn join_line_chars(lines: &Vec<Vec<char>>) -> (r: Vec<char>)
    ensures
        r@ == join_lines(lines_view(lines@)),
{
    let mut out: Vec<char> = Vec::new();
    let mut i: usize = 0;
    while i < lines.len()
        invariant
            i <= lines.len(),
            out@ == join_lines(lines_view(lines@).take(i as int)),
        decreases lines.len() - i,
    {
        let line = &lines[i];
        let mut j: usize = 0;
        let ghost before = out@;
        while j < line.len()
            invariant
                j <= line.len(),
                out@ == before + line@.take(j as int),
            decreases line.len() - j,
        {
            out.push(line[j]);
            assert(line@.take(j + 1) =~= line@.take(j as int).push(line@[j as int]));
            j = j + 1;
        }
        out.push('\n');
        proof {
            let lv = lines_view(lines@);
            lemma_join_lines_push(lv.take(i as int), line@);
            assert(lv.take(i + 1) =~= lv.take(i as int).push(line@));
            assert(line@.take(j as int) =~= line@);
        }
        assert(out@ =~= join_lines(lines_view(lines@).take(i + 1)));
        i = i + 1;
    }
    assert(lines_view(lines@).take(i as int) =~= lines_view(lines@));
    out
}

/// std's `String::from_iter` over the characters of `v`: a `String` that
/// holds exactly those characters, in order.
#[verifier::external_body]
pub(crate) fn string_from_chars(v: &Vec<char>) -> (s: String)
    ensures
        s@ == v@,
{
    String::from_iter(v.iter())
}

} // verus!
