//! Text helpers shared by the CLI bridge and the onboarding states: Unicode
//! whitespace trimming, decimal rendering, lossy UTF-8 decoding.

use vstd::prelude::*;
use vstd::string::*;
use vstd::utf8::*;

verus! {

/// The Unicode `White_Space` property, which is what `str::trim` strips.
pub open spec fn is_white_space(c: char) -> bool {
    let u = c as u32;
    ||| 0x09 <= u <= 0x0d
    ||| u == 0x20
    ||| u == 0x85
    ||| u == 0xa0
    ||| u == 0x1680
    ||| 0x2000 <= u <= 0x200a
    ||| u == 0x2028
    ||| u == 0x2029
    ||| u == 0x202f
    ||| u == 0x205f
    ||| u == 0x3000
}

/// Number of whitespace characters at the start of `s`.
pub open spec fn leading_white_space(s: Seq<char>) -> nat
    decreases s.len(),
{
    if s.len() > 0 && is_white_space(s[0]) {
        1 + leading_white_space(s.drop_first())
    } else {
        0
    }
}

/// Number of whitespace characters at the end of `s`.
pub open spec fn trailing_white_space(s: Seq<char>) -> nat
    decreases s.len(),
{
    if s.len() > 0 && is_white_space(s.last()) {
        1 + trailing_white_space(s.drop_last())
    } else {
        0
    }
}

/// `s` without its leading and trailing whitespace.
pub open spec fn trimmed(s: Seq<char>) -> Seq<char> {
    let rest = s.skip(leading_white_space(s) as int);
    rest.take(rest.len() - trailing_white_space(rest))
}

proof fn lemma_leading_white_space(s: Seq<char>, n: int)
    requires
        0 <= n <= s.len(),
        forall|k: int| 0 <= k < n ==> is_white_space(#[trigger] s[k]),
        n == s.len() || !is_white_space(s[n]),
    ensures
        leading_white_space(s) == n,
    decreases n,
{
    if n > 0 {
        let t = s.drop_first();
        assert forall|k: int| 0 <= k < n - 1 implies is_white_space(#[trigger] t[k]) by {
            assert(t[k] == s[k + 1]);
        }
        if n < s.len() {
            assert(t[n - 1] == s[n]);
        }
        lemma_leading_white_space(t, n - 1);
    }
}

proof fn lemma_trailing_white_space(s: Seq<char>, n: int)
    requires
        0 <= n <= s.len(),
        forall|k: int| s.len() - n <= k < s.len() ==> is_white_space(#[trigger] s[k]),
        n == s.len() || !is_white_space(s[s.len() - n - 1]),
    ensures
        trailing_white_space(s) == n,
    decreases n,
{
    if n > 0 {
        let t = s.drop_last();
        assert(is_white_space(s.last())) by {
            assert(s[s.len() - 1] == s.last());
        }
        assert forall|k: int| t.len() - (n - 1) <= k < t.len() implies is_white_space(
            #[trigger] t[k],
        ) by {
            assert(t[k] == s[k]);
        }
        if n < s.len() {
            assert(t[t.len() - (n - 1) - 1] == s[s.len() - n - 1]);
        }
        lemma_trailing_white_space(t, n - 1);
    } else if s.len() > 0 {
        assert(s.last() == s[s.len() - 1]);
    }
}

/// Whether `c` has the Unicode `White_Space` property.
pub fn is_white_space_char(c: char) -> (b: bool)
    ensures
        b == is_white_space(c),
{
    let u = c as u32;
    (0x09 <= u && u <= 0x0d) || u == 0x20 || u == 0x85 || u == 0xa0 || u == 0x1680 || (0x2000 <= u
        && u <= 0x200a) || u == 0x2028 || u == 0x2029 || u == 0x202f || u == 0x205f || u == 0x3000
}

/// The characters of `s`, in one pass.
pub fn chars_of(s: &str) -> (v: Vec<char>)
    ensures
        v@ == s@,
{
    broadcast use vstd::string::group_string_axioms;

    let mut v: Vec<char> = Vec::new();
    for c in it: s.chars()
        invariant
            v@ == it.seq().take(it.index()),
            it.seq() == s@,
    {
        proof {
            assert(it.seq().take(it.index() + 1) =~= it.seq().take(it.index()).push(c));
        }
        v.push(c);
    }
    proof {
        assert(s@.take(s@.len() as int) =~= s@);
    }
    v
}

/// `s` with leading and trailing whitespace removed, as `str::trim` does.
pub fn trim_text(s: &str) -> (r: String)
    ensures
        r@ == trimmed(s@),
{
    let chars = chars_of(s);
    let len = chars.len();
    let mut i: usize = 0;
    while i < len && is_white_space_char(chars[i])
        invariant
            len == s@.len(),
            chars@ == s@,
            i <= len,
            forall|k: int| 0 <= k < i ==> is_white_space(#[trigger] s@[k]),
        decreases len - i,
    {
        i = i + 1;
    }
    let mut j: usize = len;
    while j > i && is_white_space_char(chars[j - 1])
        invariant
            len == s@.len(),
            chars@ == s@,
            i <= j <= len,
            forall|k: int| j <= k < len ==> is_white_space(#[trigger] s@[k]),
        decreases j,
    {
        j = j - 1;
    }
    proof {
        lemma_leading_white_space(s@, i as int);
        let rest = s@.skip(i as int);
        assert forall|k: int| rest.len() - (len - j) <= k < rest.len() implies is_white_space(
            #[trigger] rest[k],
        ) by {
            assert(rest[k] == s@[k + i]);
        }
        if j > i {
            assert(rest[rest.len() - (len - j) - 1] == s@[j - 1]);
        }
        lemma_trailing_white_space(rest, (len - j) as int);
        assert(rest.take(rest.len() - (len - j)) =~= s@.subrange(i as int, j as int));
    }
    String::from_str(s.substring_char(i, j))
}

/// Whether two string slices hold the same characters.
pub fn str_equals(a: &str, b: &str) -> (r: bool)
    ensures
        r == (a@ == b@),
{
    a.to_owned() == b.to_owned()
}

/// The decimal digit `d` (for `d < 10`) as a character.
pub open spec fn digit_char(d: nat) -> char {
    seq!['0', '1', '2', '3', '4', '5', '6', '7', '8', '9'][d as int]
}

/// The decimal representation of `n`, without sign or leading zeros.
pub open spec fn decimal(n: nat) -> Seq<char>
    decreases n,
{
    if n < 10 {
        seq![digit_char(n)]
    } else {
        decimal(n / 10) + seq![digit_char(n % 10)]
    }
}

fn digit_string(d: u64) -> (r: String)
    requires
        d < 10,
    ensures
        r@ == seq![digit_char(d as nat)],
{
    let digits = "0123456789";
    proof {
        reveal_strlit("0123456789");
    }
    let r = String::from_str(digits.substring_char(d as usize, d as usize + 1));
    assert(r@ =~= seq![digit_char(d as nat)]);
    r
}

/// `n` written in decimal, as `u64::to_string` renders it.
pub fn decimal_string(n: u64) -> (r: String)
    ensures
        r@ == decimal(n as nat),
    decreases n,
{
    if n < 10 {
        digit_string(n)
    } else {
        let mut r = decimal_string(n / 10);
        let last = digit_string(n % 10);
        r.append(last.as_str());
        r
    }
}

/// What `String::from_utf8_lossy` makes of `bytes`.
pub uninterp spec fn utf8_lossy(bytes: Seq<u8>) -> Seq<char>;

/// The text `String::from_utf8_lossy` gives for `bytes`: their plain
/// decoding when they are valid UTF-8.
pub open spec fn lossy_text(bytes: Seq<u8>) -> Seq<char> {
    if valid_utf8(bytes) {
        decode_utf8(bytes)
    } else {
        utf8_lossy(bytes)
    }
}

/// Calls `String::from_utf8_lossy`: decodes `bytes` as UTF-8, each invalid
/// sequence becoming U+FFFD. Trusted to return the named result, and, as its
/// documentation states, the plain decoding when `bytes` is valid UTF-8.
#[verifier::external_body]
pub(crate) fn decode_utf8_lossy(bytes: &[u8]) -> (text: String)
    ensures
        text@ == utf8_lossy(bytes@),
        valid_utf8(bytes@) ==> text@ == decode_utf8(bytes@),
{
    String::from_utf8_lossy(bytes).into_owned()
}

} // verus!
