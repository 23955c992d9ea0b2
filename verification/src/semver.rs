//! `vMAJOR.MINOR.PATCH[-prerelease]` version strings and the minimum-version
//! floor that the bundled CLI has to meet.

use vstd::prelude::*;
use vstd::string::*;
use crate::text::{chars_of, decimal, digit_char};
use crate::splitting::{find_char_from, find_first, lemma_find_first, lemma_find_first_at, lemma_split_on_nonempty, split_on, split_once};

verus! {

pub open spec fn is_ascii_digit(c: char) -> bool {
    '0' as u32 <= c as u32 <= '9' as u32
}

pub open spec fn digit_value(c: char) -> nat {
    (c as u32 - '0' as u32) as nat
}

/// The number that a string of decimal digits denotes.
pub open spec fn digits_value(s: Seq<char>) -> nat
    decreases s.len(),
{
    if s.len() == 0 {
        0
    } else {
        digits_value(s.drop_last()) * 10 + digit_value(s.last())
    }
}

pub open spec fn all_digits(s: Seq<char>) -> bool {
    forall|k: int| 0 <= k < s.len() ==> is_ascii_digit(#[trigger] s[k])
}

/// A run of one or more ASCII digits read as a `u64`, `None` when it is
/// empty, holds a non-digit or overflows.
pub open spec fn parse_digits(d: Seq<char>) -> Option<u64> {
    if d.len() > 0 && all_digits(d) && digits_value(d) <= u64::MAX {
        Some(digits_value(d) as u64)
    } else {
        None
    }
}

/// What `str::parse::<u64>` accepts: an optional `+`, then one or more ASCII
/// digits whose value fits in a `u64`.
pub open spec fn parse_u64(s: Seq<char>) -> Option<u64> {
    if s.len() > 0 && s[0] == '+' {
        parse_digits(s.drop_first())
    } else {
        parse_digits(s)
    }
}

/// `s` without one leading `v`.
pub open spec fn strip_v(s: Seq<char>) -> Seq<char> {
    if s.len() > 0 && s[0] == 'v' {
        s.drop_first()
    } else {
        s
    }
}

/// The parts of a `vMAJOR.MINOR.PATCH[-prerelease]` string: the `v` is
/// optional, the prerelease is whatever follows the first `-`, and the core
/// must be exactly three `.`-separated numbers.
pub open spec fn parsed_version(version: Seq<char>) -> Option<(u64, u64, u64, Option<Seq<char>>)> {
    let (core, pre) = split_once(strip_v(version), '-');
    let parts = split_on(core, '.');
    if parts.len() == 3 && parse_u64(parts[0]) is Some && parse_u64(parts[1]) is Some && parse_u64(
        parts[2],
    ) is Some {
        Some((parse_u64(parts[0])->0, parse_u64(parts[1])->0, parse_u64(parts[2])->0, pre))
    } else {
        None
    }
}

/// Lexicographic order on characters, which is the order of `str`'s `>=`
/// (UTF-8 byte order agrees with code point order).
pub open spec fn lex_le(a: Seq<char>, b: Seq<char>) -> bool
    decreases a.len(),
{
    if a.len() == 0 {
        true
    } else if b.len() == 0 {
        false
    } else if (a[0] as u32) < (b[0] as u32) {
        true
    } else if (a[0] as u32) > (b[0] as u32) {
        false
    } else {
        lex_le(a.drop_first(), b.drop_first())
    }
}

pub open spec fn core_less(a: (u64, u64, u64), b: (u64, u64, u64)) -> bool {
    a.0 < b.0 || (a.0 == b.0 && (a.1 < b.1 || (a.1 == b.1 && a.2 < b.2)))
}

/// `version >= minimum`: a greater `major.minor.patch` passes, a smaller one
/// fails; at an equal core a plain release passes, a prerelease fails against
/// a plain release and is compared lexicographically against a prerelease.
/// A string that does not parse never passes.
pub open spec fn meets_minimum(version: Seq<char>, minimum: Seq<char>) -> bool {
    match (parsed_version(version), parsed_version(minimum)) {
        (Some(v), Some(m)) => {
            if core_less((m.0, m.1, m.2), (v.0, v.1, v.2)) {
                true
            } else if core_less((v.0, v.1, v.2), (m.0, m.1, m.2)) {
                false
            } else {
                match (v.3, m.3) {
                    (None, _) => true,
                    (Some(_), None) => false,
                    (Some(p), Some(q)) => lex_le(q, p),
                }
            }
        },
        _ => false,
    }
}

proof fn lemma_digits_value_step(d: Seq<char>, k: int)
    requires
        0 <= k < d.len(),
    ensures
        digits_value(d.take(k + 1)) == digits_value(d.take(k)) * 10 + digit_value(d[k]),
{
    assert(d.take(k + 1).drop_last() =~= d.take(k));
}

proof fn lemma_digits_prefix_le(d: Seq<char>, k: int)
    requires
        0 <= k <= d.len(),
    ensures
        digits_value(d.take(k)) <= digits_value(d),
    decreases d.len() - k,
{
    if k == d.len() {
        assert(d.take(k) =~= d);
    } else {
        lemma_digits_value_step(d, k);
        lemma_digits_prefix_le(d, k + 1);
    }
}

fn digit_of(c: char) -> (r: Option<u64>)
    ensures
        r is Some <==> is_ascii_digit(c),
        r matches Some(d) ==> d == digit_value(c) && d < 10,
{
    let u = c as u32;
    if 48 <= u && u <= 57 {
        Some((u - 48) as u64)
    } else {
        None
    }
}

/// `parse_u64` of a string that starts with digits `d.take(k)` and whose
/// next character is no digit.
proof fn lemma_parse_u64_bad_digit(d: Seq<char>, k: int)
    requires
        0 <= k < d.len(),
        !is_ascii_digit(d[k]),
    ensures
        !all_digits(d),
{
}

/// `v[from..to]` read as a number, as `str::parse::<u64>` does.
fn parse_u64_range(v: &Vec<char>, from: usize, to: usize) -> (r: Option<u64>)
    requires
        from <= to <= v@.len(),
    ensures
        r == parse_u64(v@.subrange(from as int, to as int)),
{
    let ghost s = v@.subrange(from as int, to as int);
    let start = if from < to && v[from] == '+' {
        from + 1
    } else {
        from
    };
    let ghost d = v@.subrange(start as int, to as int);
    proof {
        if from < to {
            assert(s[0] == v@[from as int]);
        }
        if from < to && v@[from as int] == '+' {
            assert(d =~= s.drop_first());
        } else {
            assert(d =~= s);
        }
    }
    if start == to {
        assert(d.len() == 0);
        return None;
    }
    let mut acc: u64 = 0;
    let mut i = start;
    while i < to
        invariant
            from <= start <= i <= to <= v@.len(),
            d == v@.subrange(start as int, to as int),
            d.len() > 0,
            parse_u64(v@.subrange(from as int, to as int)) == parse_digits(d),
            forall|k: int| 0 <= k < i - start ==> is_ascii_digit(#[trigger] d[k]),
            acc as nat == digits_value(d.take(i - start)),
        decreases to - i,
    {
        let c = v[i];
        assert(d[i - start] == c);
        let dv = match digit_of(c) {
            Some(x) => x,
            None => {
                proof {
                    lemma_parse_u64_bad_digit(d, i - start);
                }
                return None;
            },
        };
        proof {
            lemma_digits_value_step(d, i - start);
        }
        let next = match acc.checked_mul(10) {
            Some(m) => m.checked_add(dv),
            None => None,
        };
        match next {
            Some(n) => {
                acc = n;
            },
            None => {
                proof {
                    lemma_digits_prefix_le(d, i - start + 1);
                }
                return None;
            },
        }
        i = i + 1;
    }
    proof {
        assert(d.take(to - start) =~= d);
        assert(all_digits(d));
    }
    Some(acc)
}

/// The parts of `version`, as `parsed_version` states them.
pub fn parse_semver(version: &str) -> (r: Option<(u64, u64, u64, Option<String>)>)
    ensures
        match (r, parsed_version(version@)) {
            (Some(a), Some(b)) => a.0 == b.0 && a.1 == b.1 && a.2 == b.2 && match (a.3, b.3) {
                (Some(p), Some(q)) => p@ == q,
                (None, None) => true,
                _ => false,
            },
            (None, None) => true,
            _ => false,
        },
{
    let v = chars_of(version);
    let n = v.len();
    let off: usize = if n > 0 && v[0] == 'v' {
        1
    } else {
        0
    };
    let ghost stripped = v@.skip(off as int);
    assert(stripped =~= strip_v(version@));
    let dash = find_char_from(&v, off, '-');
    let (core_end, pre) = match dash {
        Some(i) => (i, Some(String::from_str(version.substring_char(i + 1, n)))),
        None => (n, None),
    };
    let ghost core = v@.subrange(off as int, core_end as int);
    proof {
        match dash {
            Some(i) => {
                assert(stripped.take(i - off) =~= core);
                assert(stripped.skip(i - off + 1) =~= version@.subrange(i + 1, n as int));
            },
            None => {
                assert(stripped =~= core);
            },
        }
    }
    // The core must hold exactly two dots.
    let first = find_char_from(&v, off, '.');
    let d1 = match first {
        Some(i) if i < core_end => i,
        _ => {
            proof {
                lemma_not_three_parts_when_no_dot(v@, off as int, core_end as int, first);
            }
            return None;
        },
    };
    let second = find_char_from(&v, d1 + 1, '.');
    let d2 = match second {
        Some(i) if i < core_end => i,
        _ => {
            proof {
                lemma_parts_after_one_dot(v@, off as int, core_end as int, d1 as int, second);
            }
            return None;
        },
    };
    let third = find_char_from(&v, d2 + 1, '.');
    proof {
        lemma_parts_after_two_dots(v@, off as int, core_end as int, d1 as int, d2 as int, third);
    }
    if has_third_dot(third, core_end) {
        return None;
    }
    let major = parse_u64_range(&v, off, d1);
    let minor = parse_u64_range(&v, d1 + 1, d2);
    let patch = parse_u64_range(&v, d2 + 1, core_end);
    match (major, minor, patch) {
        (Some(a), Some(b), Some(c)) => Some((a, b, c, pre)),
        _ => None,
    }
}

fn has_third_dot(third: Option<usize>, core_end: usize) -> (r: bool)
    ensures
        r == match third {
            Some(i) => i < core_end,
            None => false,
        },
{
    match third {
        Some(i) => i < core_end,
        None => false,
    }
}

proof fn lemma_not_three_parts_when_no_dot(v: Seq<char>, off: int, end: int, first: Option<usize>)
    requires
        0 <= off <= end <= v.len(),
        match first {
            Some(i) => off <= i < v.len() && find_first(v.skip(off), '.') == Some((i - off) as nat),
            None => find_first(v.skip(off), '.') == None::<nat>,
        },
        match first {
            Some(i) => i >= end,
            None => true,
        },
    ensures
        split_on(v.subrange(off, end), '.').len() == 1,
{
    let core = v.subrange(off, end);
    lemma_find_first(v.skip(off), '.');
    assert forall|k: int| 0 <= k < core.len() implies core[k] != '.' by {
        assert(core[k] == v.skip(off)[k]);
    }
    lemma_find_first_at(core, '.', core.len() as int);
}

proof fn lemma_parts_after_one_dot(
    v: Seq<char>,
    off: int,
    end: int,
    d1: int,
    second: Option<usize>,
)
    requires
        0 <= off <= d1 < end <= v.len(),
        find_first(v.skip(off), '.') == Some((d1 - off) as nat),
        match second {
            Some(i) => d1 + 1 <= i < v.len() && find_first(v.skip(d1 + 1), '.') == Some(
                (i - d1 - 1) as nat,
            ),
            None => find_first(v.skip(d1 + 1), '.') == None::<nat>,
        },
        match second {
            Some(i) => i >= end,
            None => true,
        },
    ensures
        split_on(v.subrange(off, end), '.').len() == 2,
{
    let core = v.subrange(off, end);
    lemma_find_first(v.skip(off), '.');
    lemma_find_first(v.skip(d1 + 1), '.');
    assert forall|k: int| 0 <= k < d1 - off implies core[k] != '.' by {
        assert(core[k] == v.skip(off)[k]);
    }
    assert(core[d1 - off] == v.skip(off)[d1 - off]);
    lemma_find_first_at(core, '.', d1 - off);
    let rest = core.skip(d1 - off + 1);
    assert(rest =~= v.subrange(d1 + 1, end));
    assert forall|k: int| 0 <= k < rest.len() implies rest[k] != '.' by {
        assert(rest[k] == v.skip(d1 + 1)[k]);
    }
    lemma_find_first_at(rest, '.', rest.len() as int);
    assert(split_on(rest, '.') == seq![rest]);
    assert(split_on(core, '.') == seq![core.take(d1 - off)] + split_on(rest, '.'));
}

proof fn lemma_parts_after_two_dots(
    v: Seq<char>,
    off: int,
    end: int,
    d1: int,
    d2: int,
    third: Option<usize>,
)
    requires
        0 <= off <= d1 < d2 < end <= v.len(),
        find_first(v.skip(off), '.') == Some((d1 - off) as nat),
        find_first(v.skip(d1 + 1), '.') == Some((d2 - d1 - 1) as nat),
        match third {
            Some(i) => d2 + 1 <= i < v.len() && find_first(v.skip(d2 + 1), '.') == Some(
                (i - d2 - 1) as nat,
            ),
            None => find_first(v.skip(d2 + 1), '.') == None::<nat>,
        },
    ensures
        ({
            let parts = split_on(v.subrange(off, end), '.');
            match third {
                Some(i) if i < end => parts.len() > 3,
                _ => parts.len() == 3 && parts[0] == v.subrange(off, d1) && parts[1]
                    == v.subrange(d1 + 1, d2) && parts[2] == v.subrange(d2 + 1, end),
            }
        }),
{
    let core = v.subrange(off, end);
    lemma_find_first(v.skip(off), '.');
    lemma_find_first(v.skip(d1 + 1), '.');
    lemma_find_first(v.skip(d2 + 1), '.');
    assert forall|k: int| 0 <= k < d1 - off implies core[k] != '.' by {
        assert(core[k] == v.skip(off)[k]);
    }
    assert(core[d1 - off] == v.skip(off)[d1 - off]);
    lemma_find_first_at(core, '.', d1 - off);
    let rest1 = core.skip(d1 - off + 1);
    assert(rest1 =~= v.subrange(d1 + 1, end));
    assert forall|k: int| 0 <= k < d2 - d1 - 1 implies rest1[k] != '.' by {
        assert(rest1[k] == v.skip(d1 + 1)[k]);
    }
    assert(rest1[d2 - d1 - 1] == v.skip(d1 + 1)[d2 - d1 - 1]);
    lemma_find_first_at(rest1, '.', d2 - d1 - 1);
    let rest2 = rest1.skip(d2 - d1);
    assert(rest2 =~= v.subrange(d2 + 1, end));
    assert(core.take(d1 - off) =~= v.subrange(off, d1));
    assert(rest1.take(d2 - d1 - 1) =~= v.subrange(d1 + 1, d2));
    match third {
        Some(i) if i < end => {
            assert forall|k: int| 0 <= k < i - d2 - 1 implies rest2[k] != '.' by {
                assert(rest2[k] == v.skip(d2 + 1)[k]);
            }
            assert(rest2[i - d2 - 1] == v.skip(d2 + 1)[i - d2 - 1]);
            lemma_find_first_at(rest2, '.', i - d2 - 1);
            lemma_split_on_nonempty(rest2.skip(i - d2), '.');
            assert(split_on(rest2, '.') == seq![rest2.take(i - d2 - 1)] + split_on(
                rest2.skip(i - d2),
                '.',
            ));
            assert(split_on(rest1, '.') == seq![rest1.take(d2 - d1 - 1)] + split_on(rest2, '.'));
            assert(split_on(core, '.') == seq![core.take(d1 - off)] + split_on(rest1, '.'));
        },
        _ => {
            assert forall|k: int| 0 <= k < rest2.len() implies rest2[k] != '.' by {
                assert(rest2[k] == v.skip(d2 + 1)[k]);
                if let Some(i) = third {
                    assert(i >= end);
                }
            }
            lemma_find_first_at(rest2, '.', rest2.len() as int);
            assert(split_on(rest2, '.') == seq![rest2]);
            assert(split_on(rest1, '.') == seq![rest1.take(d2 - d1 - 1)] + split_on(rest2, '.'));
            assert(split_on(core, '.') == seq![core.take(d1 - off)] + split_on(rest1, '.'));
        },
    }
}

/// `a <= b` in the order of `lex_le`, by characters.
fn lex_le_chars(a: &Vec<char>, b: &Vec<char>) -> (r: bool)
    ensures
        r == lex_le(a@, b@),
{
    let mut i: usize = 0;
    assert(a@.skip(0) =~= a@ && b@.skip(0) =~= b@);
    while i < a.len() && i < b.len()
        invariant
            i <= a@.len(),
            i <= b@.len(),
            lex_le(a@, b@) == lex_le(a@.skip(i as int), b@.skip(i as int)),
        decreases a@.len() - i,
    {
        let x = a[i];
        let y = b[i];
        assert(a@.skip(i as int)[0] == x && b@.skip(i as int)[0] == y);
        if (x as u32) < (y as u32) {
            return true;
        }
        if (x as u32) > (y as u32) {
            return false;
        }
        assert(a@.skip(i as int).drop_first() =~= a@.skip(i + 1));
        assert(b@.skip(i as int).drop_first() =~= b@.skip(i + 1));
        i = i + 1;
    }
    i == a.len()
}

/// Whether `version >= minimum` in the sense of `meets_minimum`.
pub fn meets_minimum_version(version: &str, minimum: &str) -> (r: bool)
    ensures
        r == meets_minimum(version@, minimum@),
{
    let (major, minor, patch, prerelease) = match parse_semver(version) {
        Some(parts) => parts,
        None => return false,
    };
    let (min_major, min_minor, min_patch, min_prerelease) = match parse_semver(minimum) {
        Some(parts) => parts,
        None => return false,
    };
    if min_major < major || (min_major == major && (min_minor < minor || (min_minor == minor
        && min_patch < patch))) {
        return true;
    }
    if major < min_major || (major == min_major && (minor < min_minor || (minor == min_minor
        && patch < min_patch))) {
        return false;
    }
    match (prerelease, min_prerelease) {
        (None, _) => true,
        (Some(_), None) => false,
        (Some(pre), Some(min_pre)) => lex_le_chars(&chars_of(min_pre.as_str()), &chars_of(pre.as_str())),
    }
}

pub proof fn lemma_lex_le_reflexive(a: Seq<char>)
    ensures
        lex_le(a, a),
    decreases a.len(),
{
    if a.len() > 0 {
        lemma_lex_le_reflexive(a.drop_first());
    }
}

pub proof fn lemma_lex_le_transitive(a: Seq<char>, b: Seq<char>, c: Seq<char>)
    requires
        lex_le(a, b),
        lex_le(b, c),
    ensures
        lex_le(a, c),
    decreases a.len(),
{
    if a.len() > 0 && b.len() > 0 && c.len() > 0 && (a[0] as u32) == (b[0] as u32) && (b[0] as u32)
        == (c[0] as u32) {
        lemma_lex_le_transitive(a.drop_first(), b.drop_first(), c.drop_first());
    }
}

pub proof fn lemma_lex_le_total(a: Seq<char>, b: Seq<char>)
    ensures
        lex_le(a, b) || lex_le(b, a),
    decreases a.len(),
{
    if a.len() > 0 && b.len() > 0 && (a[0] as u32) == (b[0] as u32) {
        lemma_lex_le_total(a.drop_first(), b.drop_first());
    }
}

/// The minimum-version check is a floor: every well-formed version meets
/// itself, the relation is transitive, any two well-formed versions are
/// comparable, and a string that does not parse meets nothing and is met by
/// nothing.
pub proof fn minimum_version_is_a_floor(a: Seq<char>, b: Seq<char>, c: Seq<char>)
    ensures
        parsed_version(a) is Some ==> meets_minimum(a, a),
        meets_minimum(a, b) && meets_minimum(b, c) ==> meets_minimum(a, c),
        parsed_version(a) is Some && parsed_version(b) is Some ==> meets_minimum(a, b)
            || meets_minimum(b, a),
        parsed_version(a) is None ==> !meets_minimum(a, b) && !meets_minimum(b, a),
{
    if let Some(v) = parsed_version(a) {
        if let Some(p) = v.3 {
            lemma_lex_le_reflexive(p);
        }
        if let Some(w) = parsed_version(b) {
            if let (Some(p), Some(q)) = (v.3, w.3) {
                lemma_lex_le_total(p, q);
            }
        }
    }
    if meets_minimum(a, b) && meets_minimum(b, c) {
        let v = parsed_version(a)->0;
        let w = parsed_version(b)->0;
        let x = parsed_version(c)->0;
        if let (Some(p), Some(q), Some(r)) = (v.3, w.3, x.3) {
            if lex_le(q, p) && lex_le(r, q) {
                lemma_lex_le_transitive(r, q, p);
            }
        }
    }
}

/// A prerelease ranks below the plain release of the same
/// `major.minor.patch`, which in turn meets it.
pub proof fn prerelease_ranks_below_its_release(pre: Seq<char>, release: Seq<char>)
    requires
        parsed_version(pre) matches Some(p) && parsed_version(release) matches Some(r) && p.3 is Some
            && r.3 is None && p.0 == r.0 && p.1 == r.1 && p.2 == r.2,
    ensures
        !meets_minimum(pre, release),
        meets_minimum(release, pre),
{
}

proof fn lemma_digit_char(d: nat)
    requires
        d < 10,
    ensures
        is_ascii_digit(digit_char(d)),
        digit_value(digit_char(d)) == d,
{
    let t = seq!['0', '1', '2', '3', '4', '5', '6', '7', '8', '9'];
    assert(t[0] == '0' && t[1] == '1' && t[2] == '2' && t[3] == '3' && t[4] == '4');
    assert(t[5] == '5' && t[6] == '6' && t[7] == '7' && t[8] == '8' && t[9] == '9');
}

/// `decimal(n)` is a non-empty run of digits that denotes `n`.
proof fn lemma_decimal_digits(n: nat)
    ensures
        decimal(n).len() > 0,
        all_digits(decimal(n)),
        digits_value(decimal(n)) == n,
    decreases n,
{
    if n < 10 {
        lemma_digit_char(n);
        assert(decimal(n) =~= seq![digit_char(n)]);
        assert(decimal(n).drop_last() =~= Seq::<char>::empty());
        assert(digits_value(decimal(n)) == digits_value(Seq::<char>::empty()) * 10 + digit_value(
            digit_char(n),
        ));
    } else {
        lemma_decimal_digits(n / 10);
        lemma_digit_char(n % 10);
        let d = decimal(n);
        assert(d.drop_last() =~= decimal(n / 10));
        assert(d.last() == digit_char(n % 10));
        assert(digits_value(d) == digits_value(decimal(n / 10)) * 10 + digit_value(
            digit_char(n % 10),
        ));
        assert((n / 10) * 10 + n % 10 == n) by (nonlinear_arith);
        assert forall|k: int| 0 <= k < d.len() implies is_ascii_digit(#[trigger] d[k]) by {
            if k < d.len() - 1 {
                assert(d[k] == decimal(n / 10)[k]);
            }
        }
    }
}

/// A number printed in decimal reads back as itself.
proof fn lemma_decimal_parses(n: u64)
    ensures
        parse_u64(decimal(n as nat)) == Some(n),
        forall|k: int| 0 <= k < decimal(n as nat).len() ==> is_ascii_digit(
            #[trigger] decimal(n as nat)[k],
        ),
{
    lemma_decimal_digits(n as nat);
    let d = decimal(n as nat);
    assert(is_ascii_digit(d[0]));
}

/// `major.minor.patch` printed in decimal.
pub open spec fn version_core_text(major: u64, minor: u64, patch: u64) -> Seq<char> {
    decimal(major as nat) + seq!['.'] + decimal(minor as nat) + seq!['.'] + decimal(patch as nat)
}

proof fn lemma_core_parts(major: u64, minor: u64, patch: u64)
    ensures
        split_on(version_core_text(major, minor, patch), '.') == seq![
            decimal(major as nat),
            decimal(minor as nat),
            decimal(patch as nat),
        ],
        forall|k: int| 0 <= k < version_core_text(major, minor, patch).len() ==> {
            let c = #[trigger] version_core_text(major, minor, patch)[k];
            c != '-' && c != 'v'
        },
{
    let (a, b, c) = (decimal(major as nat), decimal(minor as nat), decimal(patch as nat));
    lemma_decimal_parses(major);
    lemma_decimal_parses(minor);
    lemma_decimal_parses(patch);
    let core = version_core_text(major, minor, patch);
    let rest = b + seq!['.'] + c;
    assert(core =~= a + seq!['.'] + rest);
    assert forall|k: int| 0 <= k < a.len() implies core[k] != '.' by {
        assert(core[k] == a[k]);
    }
    assert(core[a.len() as int] == '.');
    lemma_find_first_at(core, '.', a.len() as int);
    assert(core.take(a.len() as int) =~= a);
    assert(core.skip(a.len() + 1int) =~= rest);
    assert forall|k: int| 0 <= k < b.len() implies rest[k] != '.' by {
        assert(rest[k] == b[k]);
    }
    assert(rest[b.len() as int] == '.');
    lemma_find_first_at(rest, '.', b.len() as int);
    assert(rest.take(b.len() as int) =~= b);
    assert(rest.skip(b.len() + 1int) =~= c);
    assert forall|k: int| 0 <= k < c.len() implies c[k] != '.' by {}
    lemma_find_first_at(c, '.', c.len() as int);
    assert(split_on(c, '.') == seq![c]);
    assert(split_on(rest, '.') =~= seq![b, c]);
    assert(split_on(core, '.') =~= seq![a, b, c]);
    assert forall|k: int| 0 <= k < core.len() implies {
        let x = #[trigger] core[k];
        x != '-' && x != 'v'
    } by {
        if k < a.len() {
            assert(core[k] == a[k]);
        } else if k == a.len() {
        } else if k < a.len() + 1 + b.len() {
            assert(core[k] == b[k - a.len() - 1]);
        } else if k == a.len() + 1 + b.len() {
        } else {
            assert(core[k] == c[k - a.len() - 2 - b.len()]);
        }
    }
}

/// Printing a version as `major.minor.patch`, with or without a leading `v`
/// and with or without `-prerelease` after it, and parsing the text gives
/// the parts back, whatever the prerelease text holds.
pub proof fn printed_versions_parse_back(major: u64, minor: u64, patch: u64, pre: Seq<char>)
    ensures
        parsed_version(version_core_text(major, minor, patch)) == Some(
            (major, minor, patch, None::<Seq<char>>),
        ),
        parsed_version(seq!['v'] + version_core_text(major, minor, patch)) == Some(
            (major, minor, patch, None::<Seq<char>>),
        ),
        parsed_version(version_core_text(major, minor, patch) + seq!['-'] + pre) == Some(
            (major, minor, patch, Some(pre)),
        ),
        parsed_version(seq!['v'] + version_core_text(major, minor, patch) + seq!['-'] + pre)
            == Some((major, minor, patch, Some(pre))),
{
    let core = version_core_text(major, minor, patch);
    lemma_core_parts(major, minor, patch);
    lemma_decimal_parses(major);
    lemma_decimal_parses(minor);
    lemma_decimal_parses(patch);
    lemma_decimal_digits(major as nat);
    assert(core[0] == decimal(major as nat)[0]);
    lemma_find_first_at(core, '-', core.len() as int);
    let with_pre = core + seq!['-'] + pre;
    assert forall|k: int| 0 <= k < core.len() implies with_pre[k] != '-' by {
        assert(with_pre[k] == core[k]);
    }
    lemma_find_first_at(with_pre, '-', core.len() as int);
    assert(with_pre.take(core.len() as int) =~= core);
    assert(with_pre.skip(core.len() + 1int) =~= pre);
    assert(with_pre[0] == core[0]);
    assert(strip_v(core) == core);
    assert(strip_v(with_pre) == with_pre);
    assert(strip_v(seq!['v'] + core) =~= core);
    assert(strip_v(seq!['v'] + core + seq!['-'] + pre) =~= with_pre);
}

/// How a version meets a floor, stated on the parsed numbers: a version
/// whose `(major, minor, patch)` is smaller than the floor's never meets
/// it, a greater one always does, and at equal numbers a plain release
/// meets any floor while a prerelease never meets a plain release. A
/// version or floor that does not parse never passes.
pub proof fn versions_meet_the_floor_by_their_numbers(version: Seq<char>, minimum: Seq<char>)
    ensures
        parsed_version(version) is None || parsed_version(minimum) is None ==> !meets_minimum(
            version,
            minimum,
        ),
        parsed_version(version) matches Some(v) ==> parsed_version(minimum) matches Some(m) ==> {
            &&& (v.0 < m.0 || (v.0 == m.0 && v.1 < m.1) || (v.0 == m.0 && v.1 == m.1 && v.2
                < m.2)) ==> !meets_minimum(version, minimum)
            &&& (v.0 > m.0 || (v.0 == m.0 && v.1 > m.1) || (v.0 == m.0 && v.1 == m.1 && v.2
                > m.2)) ==> meets_minimum(version, minimum)
            &&& (v.0 == m.0 && v.1 == m.1 && v.2 == m.2 && v.3 is None) ==> meets_minimum(
                version,
                minimum,
            )
            &&& (v.0 == m.0 && v.1 == m.1 && v.2 == m.2 && v.3 is Some && m.3 is None)
                ==> !meets_minimum(version, minimum)
        },
{
}

/// Between printed releases, `v<a>.<b>.<c>` meets the floor `v<x>.<y>.<z>`
/// exactly when `(a, b, c)` is at least `(x, y, z)` in lexicographic order.
pub proof fn printed_releases_meet_the_floor_by_their_numbers(
    a: u64,
    b: u64,
    c: u64,
    x: u64,
    y: u64,
    z: u64,
)
    ensures
        meets_minimum(
            seq!['v'] + version_core_text(a, b, c),
            seq!['v'] + version_core_text(x, y, z),
        ) <==> (a > x || (a == x && (b > y || (b == y && c >= z)))),
{
    printed_versions_parse_back(a, b, c, Seq::empty());
    printed_versions_parse_back(x, y, z, Seq::empty());
}

} // verus!
