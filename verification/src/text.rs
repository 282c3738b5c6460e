//! Text handling for subprocess output: best-effort decoding of captured
//! bytes and trimming of the newline runs that enclose an output block.

use vstd::prelude::*;
use vstd::utf8::decode_utf8;
use vstd::utf8::valid_utf8;

verus! {

/// The prefix put in front of output whose bytes were not valid UTF-8, so an
/// operator can tell clean output from output that may have been mangled.
pub open spec fn lossy_marker() -> Seq<char> {
    "<Best Effort Decoding> "@
}

/// What `String::from_utf8_lossy` returns for the given bytes; it depends on
/// the bytes alone.
pub uninterp spec fn lossy_decode(bytes: Seq<u8>) -> Seq<char>;

/// Relies on `String::from_utf8`: it succeeds exactly on valid UTF-8 input,
/// and then returns the decoded characters of those bytes.
#[verifier::external_body]
fn utf8_to_string(bytes: &Vec<u8>) -> (r: Option<String>)
    ensures
        r is Some <==> valid_utf8(bytes@),
        r matches Some(s) ==> s@ == decode_utf8(bytes@),
{
    String::from_utf8(bytes.clone()).ok()
}

/// Relies on `String::from_utf8_lossy`: the result is a function of the bytes
/// alone, and valid UTF-8 input is decoded without any replacement.
#[verifier::external_body]
fn lossy_to_string(bytes: &Vec<u8>) -> (r: String)
    ensures
        r@ == lossy_decode(bytes@),
        valid_utf8(bytes@) ==> r@ == decode_utf8(bytes@),
{
    String::from_utf8_lossy(bytes).into_owned()
}

/// Decode captured subprocess output without ever failing: valid UTF-8 comes
/// back exactly as decoded, anything else is decoded lossily and marked.
pub fn best_effort_decode_to_string(bytes: Vec<u8>) -> (r: String)
    ensures
        valid_utf8(bytes@) ==> r@ == decode_utf8(bytes@),
        !valid_utf8(bytes@) ==> r@ == lossy_marker() + lossy_decode(bytes@),
{
    match utf8_to_string(&bytes) {
        Some(s) => s,
        None => {
            let lossy = lossy_to_string(&bytes);
            let out = String::from_str("<Best Effort Decoding> ");
            out.concat(lossy.as_str())
        },
    }
}

/// A carriage return or line feed: the characters stripped from the two ends
/// of a decoded output block before it is logged or returned.
pub open spec fn is_newline_char(c: char) -> bool {
    c == '\n' || c == '\r'
}

/// The sequence with its leading run of newline characters removed.
pub open spec fn drop_leading_newlines(s: Seq<char>) -> Seq<char>
    decreases s.len(),
{
    if s.len() > 0 && is_newline_char(s[0]) {
        drop_leading_newlines(s.drop_first())
    } else {
        s
    }
}

/// The sequence with its trailing run of newline characters removed.
pub open spec fn drop_trailing_newlines(s: Seq<char>) -> Seq<char>
    decreases s.len(),
{
    if s.len() > 0 && is_newline_char(s[s.len() - 1]) {
        drop_trailing_newlines(s.drop_last())
    } else {
        s
    }
}

/// Both enclosing newline runs removed; interior characters are untouched.
pub open spec fn trim_newlines(s: Seq<char>) -> Seq<char> {
    drop_trailing_newlines(drop_leading_newlines(s))
}

/// The index just past the leading newline run of `s`.
spec fn leading_newlines_end(s: Seq<char>) -> int
    decreases s.len(),
{
    if s.len() > 0 && is_newline_char(s[0]) {
        1 + leading_newlines_end(s.drop_first())
    } else {
        0
    }
}

proof fn lemma_leading_newlines_end(s: Seq<char>)
    ensures
        0 <= leading_newlines_end(s) <= s.len(),
        forall|i: int| 0 <= i < leading_newlines_end(s) ==> is_newline_char(#[trigger] s[i]),
        leading_newlines_end(s) < s.len() ==> !is_newline_char(s[leading_newlines_end(s)]),
    decreases s.len(),
{
    if s.len() > 0 && is_newline_char(s[0]) {
        lemma_leading_newlines_end(s.drop_first());
        let k = leading_newlines_end(s.drop_first());
        assert forall|i: int| 0 <= i < k + 1 implies is_newline_char(#[trigger] s[i]) by {
            if i > 0 {
                assert(s.drop_first()[i - 1] == s[i]);
            }
        }
        if k + 1 < s.len() {
            assert(s.drop_first()[k] == s[k + 1]);
        }
    }
}

/// If the first `k` characters are newlines and the character at `k` (when
/// there is one) is not, dropping the leading run keeps exactly the suffix
/// from `k`.
proof fn lemma_drop_leading_at(s: Seq<char>, k: int)
    requires
        0 <= k <= s.len(),
        forall|i: int| 0 <= i < k ==> is_newline_char(s[i]),
        k < s.len() ==> !is_newline_char(s[k]),
    ensures
        drop_leading_newlines(s) == s.subrange(k, s.len() as int),
    decreases s.len(),
{
    if k == 0 {
        if s.len() > 0 && is_newline_char(s[0]) {
            assert(false);
        }
        assert(s.subrange(0, s.len() as int) =~= s);
    } else {
        assert(is_newline_char(s[0]));
        assert(forall|i: int| 0 <= i < k - 1 ==> is_newline_char(s.drop_first()[i]));
        assert(k - 1 < s.drop_first().len() ==> !is_newline_char(s.drop_first()[k - 1]));
        lemma_drop_leading_at(s.drop_first(), k - 1);
        assert(s.drop_first().subrange(k - 1, s.drop_first().len() as int) =~= s.subrange(
            k,
            s.len() as int,
        ));
    }
}

/// The mirror image of `lemma_drop_leading_at` for the trailing run.
proof fn lemma_drop_trailing_at(s: Seq<char>, k: int)
    requires
        0 <= k <= s.len(),
        forall|i: int| k <= i < s.len() ==> is_newline_char(s[i]),
        k > 0 ==> !is_newline_char(s[k - 1]),
    ensures
        drop_trailing_newlines(s) == s.subrange(0, k),
    decreases s.len(),
{
    if k == s.len() {
        if s.len() > 0 && is_newline_char(s[s.len() - 1]) {
            assert(false);
        }
        assert(s.subrange(0, s.len() as int) =~= s);
    } else {
        assert(is_newline_char(s[s.len() - 1]));
        assert(forall|i: int| k <= i < s.drop_last().len() ==> is_newline_char(s.drop_last()[i]));
        lemma_drop_trailing_at(s.drop_last(), k);
        assert(s.drop_last().subrange(0, k) =~= s.subrange(0, k));
    }
}

/// A sequence that neither starts nor ends with a newline character is left
/// unchanged by trimming.
proof fn lemma_trim_noop(s: Seq<char>)
    requires
        s.len() > 0 ==> !is_newline_char(s[0]),
        s.len() > 0 ==> !is_newline_char(s[s.len() - 1]),
    ensures
        trim_newlines(s) == s,
{
    lemma_drop_leading_at(s, 0);
    assert(s.subrange(0, s.len() as int) =~= s);
    lemma_drop_trailing_at(s, s.len() as int);
}

/// Trimming the enclosing newline runs is idempotent: a second trim returns
/// the first trim's result unchanged.
pub proof fn lemma_trim_newlines_idempotent(s: Seq<char>)
    ensures
        trim_newlines(trim_newlines(s)) == trim_newlines(s),
{
    lemma_leading_newlines_end(s);
    let k = leading_newlines_end(s);
    lemma_drop_leading_at(s, k);
    let led = s.subrange(k, s.len() as int);
    // Find where the trailing run of `led` starts.
    let m = drop_trailing_newlines_start(led);
    lemma_drop_trailing_start(led);
    lemma_drop_trailing_at(led, m);
    let t = led.subrange(0, m);
    assert(trim_newlines(s) == t);
    if t.len() > 0 {
        assert(!is_newline_char(t[0]));
        assert(!is_newline_char(t[t.len() - 1]));
    }
    lemma_trim_noop(t);
}

/// Trimming removes characters only at the two ends, and only newline
/// characters: the result is one contiguous piece of the input, so no
/// interior character — newline or otherwise — is ever removed.
pub proof fn lemma_trim_removes_enclosing_only(s: Seq<char>)
    ensures
        exists|i: int, j: int|
            {
                &&& 0 <= i <= j <= s.len()
                &&& #[trigger] s.subrange(i, j) == trim_newlines(s)
                &&& (forall|k: int| 0 <= k < i ==> is_newline_char(s[k]))
                &&& (forall|k: int| j <= k < s.len() ==> is_newline_char(s[k]))
            },
{
    lemma_leading_newlines_end(s);
    let i = leading_newlines_end(s);
    lemma_drop_leading_at(s, i);
    let led = s.subrange(i, s.len() as int);
    let m = drop_trailing_newlines_start(led);
    lemma_drop_trailing_start(led);
    lemma_drop_trailing_at(led, m);
    let j = i + m;
    assert(s.subrange(i, j) =~= led.subrange(0, m));
    assert forall|k: int| j <= k < s.len() implies is_newline_char(s[k]) by {
        assert(led[k - i] == s[k]);
    }
    assert(0 <= i <= j <= s.len() && s.subrange(i, j) == trim_newlines(s) && (forall|k: int|
        0 <= k < i ==> is_newline_char(s[k])) && (forall|k: int|
        j <= k < s.len() ==> is_newline_char(s[k])));
}

/// The index where the trailing newline run of `s` begins.
spec fn drop_trailing_newlines_start(s: Seq<char>) -> int
    decreases s.len(),
{
    if s.len() > 0 && is_newline_char(s[s.len() - 1]) {
        drop_trailing_newlines_start(s.drop_last())
    } else {
        s.len() as int
    }
}

proof fn lemma_drop_trailing_start(s: Seq<char>)
    ensures
        0 <= drop_trailing_newlines_start(s) <= s.len(),
        forall|i: int|
            drop_trailing_newlines_start(s) <= i < s.len() ==> is_newline_char(#[trigger] s[i]),
        drop_trailing_newlines_start(s) > 0 ==> !is_newline_char(
            s[drop_trailing_newlines_start(s) - 1],
        ),
    decreases s.len(),
{
    if s.len() > 0 && is_newline_char(s[s.len() - 1]) {
        lemma_drop_trailing_start(s.drop_last());
        let m = drop_trailing_newlines_start(s.drop_last());
        assert forall|i: int| m <= i < s.len() implies is_newline_char(#[trigger] s[i]) by {
            if i < s.len() - 1 {
                assert(s.drop_last()[i] == s[i]);
            }
        }
        if m > 0 {
            assert(s.drop_last()[m - 1] == s[m - 1]);
        }
    }
}

/// Two characters are equal up to ASCII case: identical, or the same letter
/// in the two cases.
pub open spec fn char_eq_caseless(a: char, b: char) -> bool {
    a == b || (65 <= a as u32 <= 90 && b as u32 == a as u32 + 32) || (65 <= b as u32 <= 90
        && a as u32 == b as u32 + 32)
}

/// Two character sequences are equal up to ASCII case.
pub open spec fn str_eq_caseless(a: Seq<char>, b: Seq<char>) -> bool {
    a.len() == b.len() && forall|i: int| 0 <= i < a.len() ==> char_eq_caseless(a[i], b[i])
}

/// Compare two strings ignoring ASCII case.
pub fn eq_ignore_ascii_case(a: &str, b: &str) -> (r: bool)
    ensures
        r == str_eq_caseless(a@, b@),
{
    let alen = a.unicode_len();
    let blen = b.unicode_len();
    if alen != blen {
        return false;
    }
    let mut i: usize = 0;
    while i < alen
        invariant
            0 <= i <= alen,
            alen == a@.len(),
            alen == b@.len(),
            forall|j: int| 0 <= j < i ==> char_eq_caseless(a@[j], b@[j]),
        decreases alen - i,
    {
        let ca = a.get_char(i) as u32;
        let cb = b.get_char(i) as u32;
        let eq = ca == cb || (65 <= ca && ca <= 90 && cb == ca + 32) || (65 <= cb && cb <= 90 && ca
            == cb + 32);
        if !eq {
            return false;
        }
        i = i + 1;
    }
    true
}

/// The decimal digit character for a value below ten.
pub open spec fn digit_char(d: int) -> char {
    if d == 0 {
        '0'
    } else if d == 1 {
        '1'
    } else if d == 2 {
        '2'
    } else if d == 3 {
        '3'
    } else if d == 4 {
        '4'
    } else if d == 5 {
        '5'
    } else if d == 6 {
        '6'
    } else if d == 7 {
        '7'
    } else if d == 8 {
        '8'
    } else {
        '9'
    }
}

/// The decimal digit characters of `n`, most significant first.
pub open spec fn decimal_chars(n: nat) -> Seq<char>
    decreases n,
{
    if n < 10 {
        seq![digit_char(n as int)]
    } else {
        decimal_chars(n / 10) + seq![digit_char((n % 10) as int)]
    }
}

/// The digit characters of `n` padded on the left with one zero when `n` has
/// a single digit: the shape of a per-source transaction index.
pub open spec fn two_digit_chars(n: nat) -> Seq<char> {
    if n < 10 {
        seq!['0'] + decimal_chars(n)
    } else {
        decimal_chars(n)
    }
}

/// The one-character string for a decimal digit.
fn digit_str(d: usize) -> (r: &'static str)
    requires
        d < 10,
    ensures
        r@ == seq![digit_char(d as int)],
{
    proof {
        reveal_strlit("0");
        reveal_strlit("1");
        reveal_strlit("2");
        reveal_strlit("3");
        reveal_strlit("4");
        reveal_strlit("5");
        reveal_strlit("6");
        reveal_strlit("7");
        reveal_strlit("8");
        reveal_strlit("9");
    }
    let r = match d {
        0 => "0",
        1 => "1",
        2 => "2",
        3 => "3",
        4 => "4",
        5 => "5",
        6 => "6",
        7 => "7",
        8 => "8",
        _ => "9",
    };
    proof {
        assert(r@ =~= seq![digit_char(d as int)]);
    }
    r
}

/// Render `n` in decimal, most significant digit first.
pub fn decimal_string(n: usize) -> (r: String)
    ensures
        r@ == decimal_chars(n as nat),
    decreases n,
{
    if n < 10 {
        digit_str(n).to_owned()
    } else {
        let hi = decimal_string(n / 10);
        let r = hi.concat(digit_str(n % 10));
        proof {
            assert(r@ =~= decimal_chars(n as nat));
        }
        r
    }
}

/// Whether `c` is a decimal digit.
pub open spec fn is_digit_char(c: char) -> bool {
    48 <= c as u32 <= 57
}

/// The numeric value of a digit character.
pub open spec fn digit_val(c: char) -> int {
    c as u32 - 48
}

/// A non-empty, all-digit character sequence: the only shape that parses.
pub open spec fn is_digits(s: Seq<char>) -> bool {
    s.len() > 0 && forall|i: int| 0 <= i < s.len() ==> is_digit_char(#[trigger] s[i])
}

/// The value of a digit sequence read in decimal.
pub open spec fn digits_val(s: Seq<char>) -> int
    decreases s.len(),
{
    if s.len() == 0 {
        0
    } else {
        digits_val(s.drop_last()) * 10 + digit_val(s.last())
    }
}

/// A longer digit prefix never has a smaller value.
proof fn lemma_digits_val_monotone(s: Seq<char>, i: int, j: int)
    requires
        0 <= i <= j <= s.len(),
        forall|k: int| 0 <= k < s.len() ==> is_digit_char(#[trigger] s[k]),
    ensures
        0 <= digits_val(s.subrange(0, i)) <= digits_val(s.subrange(0, j)),
    decreases j - i,
{
    if i == j {
        lemma_digits_val_nonneg(s.subrange(0, i));
    } else {
        lemma_digits_val_monotone(s, i, j - 1);
        let p = s.subrange(0, j);
        assert(p.drop_last() =~= s.subrange(0, j - 1));
        assert(digits_val(p) == digits_val(p.drop_last()) * 10 + digit_val(p.last()));
        assert(0 <= digit_val(s[j - 1]) <= 9);
    }
}

proof fn lemma_digits_val_nonneg(s: Seq<char>)
    requires
        forall|k: int| 0 <= k < s.len() ==> is_digit_char(#[trigger] s[k]),
    ensures
        digits_val(s) >= 0,
    decreases s.len(),
{
    if s.len() > 0 {
        assert(forall|k: int|
            0 <= k < s.drop_last().len() ==> is_digit_char(#[trigger] s.drop_last()[k]));
        lemma_digits_val_nonneg(s.drop_last());
    }
}

/// Parse a non-empty run of decimal digits. `None` exactly when the string is
/// empty, holds a non-digit, or the value does not fit.
pub fn parse_decimal(s: &str) -> (r: Option<u64>)
    ensures
        r is Some <==> is_digits(s@) && digits_val(s@) <= u64::MAX,
        r matches Some(v) ==> v == digits_val(s@),
{
    let len = s.unicode_len();
    if len == 0 {
        return None;
    }
    let mut acc: u64 = 0;
    let mut i: usize = 0;
    while i < len
        invariant
            0 <= i <= len,
            len == s@.len(),
            forall|j: int| 0 <= j < i ==> is_digit_char(#[trigger] s@[j]),
            acc == digits_val(s@.subrange(0, i as int)),
        decreases len - i,
    {
        let c = s.get_char(i) as u32;
        if c < 48 || c > 57 {
            return None;
        }
        let d = (c - 48) as u64;
        proof {
            assert(s@.subrange(0, i + 1).drop_last() =~= s@.subrange(0, i as int));
        }
        let next = match acc.checked_mul(10) {
            Some(m) => m.checked_add(d),
            None => None,
        };
        match next {
            Some(v) => {
                acc = v;
            },
            None => {
                proof {
                    assert(digits_val(s@.subrange(0, i + 1)) > u64::MAX);
                    if is_digits(s@) {
                        lemma_digits_val_monotone(s@, i + 1, s@.len() as int);
                        assert(s@.subrange(0, s@.len() as int) =~= s@);
                    }
                }
                return None;
            },
        }
        i = i + 1;
    }
    proof {
        assert(s@.subrange(0, len as int) =~= s@);
    }
    Some(acc)
}

/// Whether `c` is one of the characters a trim removes.
fn is_newline(c: char) -> (r: bool)
    ensures
        r == is_newline_char(c),
{
    c == '\n' || c == '\r'
}

/// Strip the newline runs that enclose a decoded output block. Interior
/// newlines, and all other interior characters, are kept exactly.
pub fn drop_enclosing_new_lines(s: String) -> (r: String)
    ensures
        r@ == trim_newlines(s@),
{
    let st = s.as_str();
    let len = st.unicode_len();
    let mut start: usize = 0;
    while start < len && is_newline(st.get_char(start))
        invariant
            0 <= start <= len,
            len == st@.len(),
            forall|i: int| 0 <= i < start ==> is_newline_char(st@[i]),
        decreases len - start,
    {
        start = start + 1;
    }
    let mut end: usize = len;
    while end > start && is_newline(st.get_char(end - 1))
        invariant
            start <= end <= len,
            len == st@.len(),
            forall|i: int| 0 <= i < start ==> is_newline_char(st@[i]),
            start < len ==> !is_newline_char(st@[start as int]),
            forall|i: int| end <= i < len ==> is_newline_char(st@[i]),
        decreases end,
    {
        end = end - 1;
    }
    let out = st.substring_char(start, end);
    proof {
        lemma_drop_leading_at(st@, start as int);
        let led = st@.subrange(start as int, len as int);
        assert(forall|i: int|
            end - start <= i < led.len() ==> is_newline_char(#[trigger] led[i]));
        assert(end > start ==> !is_newline_char(led[end - start - 1]));
        lemma_drop_trailing_at(led, end - start);
        assert(led.subrange(0, end - start) =~= st@.subrange(start as int, end as int));
    }
    out.to_owned()
}

} // verus!
