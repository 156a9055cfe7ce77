//! Character-level string operations with a specification over `Seq<char>`.
//!
//! Everything that inspects text in the library (trimming, case folding,
//! substring search, decimal rendering) goes through this module so that the
//! contracts of the higher layers can speak of exact character sequences.

use vstd::prelude::*;

verus! {

/// Unicode `White_Space`, the set `str::trim` and `char::is_whitespace` use.
pub open spec fn is_ws(c: char) -> bool {
    let v = c as u32;
    ||| (9 <= v && v <= 13)
    ||| v == 32
    ||| v == 0x85
    ||| v == 0xa0
    ||| v == 0x1680
    ||| (0x2000 <= v && v <= 0x200a)
    ||| v == 0x2028
    ||| v == 0x2029
    ||| v == 0x202f
    ||| v == 0x205f
    ||| v == 0x3000
}

pub fn is_whitespace_char(c: char) -> (res: bool)
    ensures
        res == is_ws(c),
{
    let v: u32 = c as u32;
    (9 <= v && v <= 13) || v == 32 || v == 0x85 || v == 0xa0 || v == 0x1680 || (0x2000 <= v
        && v <= 0x200a) || v == 0x2028 || v == 0x2029 || v == 0x202f || v == 0x205f || v == 0x3000
}

/// The sequence without its leading white space.
pub open spec fn trim_start_seq(s: Seq<char>) -> Seq<char>
    decreases s.len(),
{
    if s.len() > 0 && is_ws(s[0]) {
        trim_start_seq(s.drop_first())
    } else {
        s
    }
}

/// The sequence without its trailing white space.
pub open spec fn trim_end_seq(s: Seq<char>) -> Seq<char>
    decreases s.len(),
{
    if s.len() > 0 && is_ws(s.last()) {
        trim_end_seq(s.drop_last())
    } else {
        s
    }
}

/// What `str::trim` leaves of a sequence.
pub open spec fn trim_seq(s: Seq<char>) -> Seq<char> {
    trim_end_seq(trim_start_seq(s))
}

/// A text is blank when nothing but white space is in it.
pub open spec fn is_blank(s: Seq<char>) -> bool {
    forall|i: int| 0 <= i < s.len() ==> is_ws(#[trigger] s[i])
}

proof fn lemma_trim_start_skip(s: Seq<char>, i: int)
    requires
        0 <= i <= s.len(),
        forall|j: int| 0 <= j < i ==> is_ws(#[trigger] s[j]),
    ensures
        trim_start_seq(s) == trim_start_seq(s.subrange(i, s.len() as int)),
    decreases i,
{
    if i > 0 {
        assert(s.drop_first() =~= s.subrange(1, s.len() as int));
        lemma_trim_start_skip(s.drop_first(), i - 1);
        assert(s.drop_first().subrange(i - 1, s.drop_first().len() as int) =~= s.subrange(
            i,
            s.len() as int,
        ));
    } else {
        assert(s.subrange(0, s.len() as int) =~= s);
    }
}

proof fn lemma_trim_end_skip(s: Seq<char>, e: int)
    requires
        0 <= e <= s.len(),
        forall|j: int| e <= j < s.len() ==> is_ws(#[trigger] s[j]),
    ensures
        trim_end_seq(s) == trim_end_seq(s.subrange(0, e)),
    decreases s.len() - e,
{
    if e < s.len() {
        assert(s.drop_last() =~= s.subrange(0, s.len() - 1));
        lemma_trim_end_skip(s.drop_last(), e);
        assert(s.drop_last().subrange(0, e) =~= s.subrange(0, e));
    } else {
        assert(s.subrange(0, e) =~= s);
    }
}

/// `trim` is blank-free at both ends: the result is empty exactly when the
/// text is blank.
pub proof fn lemma_trim_empty_iff_blank(s: Seq<char>)
    ensures
        trim_seq(s).len() == 0 <==> is_blank(s),
        trim_start_seq(s).len() == 0 <==> is_blank(s),
    decreases s.len(),
{
    if s.len() > 0 {
        if is_ws(s[0]) {
            lemma_trim_empty_iff_blank(s.drop_first());
            if is_blank(s.drop_first()) {
                assert forall|i: int| 0 <= i < s.len() implies is_ws(#[trigger] s[i]) by {
                    if i > 0 {
                        assert(s[i] == s.drop_first()[i - 1]);
                    }
                }
            }
            if is_blank(s) {
                assert forall|i: int| 0 <= i < s.drop_first().len() implies is_ws(
                    #[trigger] s.drop_first()[i],
                ) by {
                    assert(s.drop_first()[i] == s[i + 1]);
                }
            }
        } else {
            assert(!is_blank(s));
            lemma_trim_end_first_kept(s);
        }
    }
}

proof fn lemma_trim_end_first_kept(s: Seq<char>)
    requires
        s.len() > 0,
        !is_ws(s[0]),
    ensures
        trim_end_seq(s).len() > 0,
    decreases s.len(),
{
    if is_ws(s.last()) {
        assert(s.len() > 1);
        assert(s.drop_last()[0] == s[0]);
        lemma_trim_end_first_kept(s.drop_last());
    }
}

/// `str::trim`.
pub fn trim(s: &str) -> (res: String)
    ensures
        res@ == trim_seq(s@),
{
    let n: usize = s.unicode_len();
    let mut start: usize = 0;
    while start < n && is_whitespace_char(s.get_char(start))
        invariant
            n == s@.len(),
            start <= n,
            forall|j: int| 0 <= j < start ==> is_ws(#[trigger] s@[j]),
        decreases n - start,
    {
        start = start + 1;
    }
    proof {
        lemma_trim_start_skip(s@, start as int);
    }
    let mut end: usize = n;
    while end > start && is_whitespace_char(s.get_char(end - 1))
        invariant
            n == s@.len(),
            start <= end <= n,
            forall|j: int| end <= j < n ==> is_ws(#[trigger] s@[j]),
        decreases end,
    {
        end = end - 1;
    }
    let ghost rest = s@.subrange(start as int, n as int);
    proof {
        assert(start == n || !is_ws(s@[start as int]));
        assert(trim_start_seq(rest) == rest);
        assert forall|j: int| end - start <= j < rest.len() implies is_ws(#[trigger] rest[j]) by {
            assert(rest[j] == s@[start + j]);
        }
        lemma_trim_end_skip(rest, end - start);
        assert(rest.subrange(0, end - start) =~= s@.subrange(start as int, end as int));
    }
    s.substring_char(start, end).to_owned()
}

/// Whether the text is blank (`s.trim().is_empty()`).
pub fn is_blank_str(s: &str) -> (res: bool)
    ensures
        res == is_blank(s@),
{
    let n: usize = s.unicode_len();
    let mut i: usize = 0;
    while i < n
        invariant
            n == s@.len(),
            i <= n,
            forall|j: int| 0 <= j < i ==> is_ws(#[trigger] s@[j]),
        decreases n - i,
    {
        if !is_whitespace_char(s.get_char(i)) {
            return false;
        }
        i = i + 1;
    }
    true
}


/// ASCII case folding of one character (`char::to_ascii_lowercase`).
pub open spec fn ascii_lower(c: char) -> char {
    if 65 <= (c as u32) && (c as u32) <= 90 {
        ((c as u32) + 32) as char
    } else {
        c
    }
}

/// `str::to_ascii_lowercase` on a character sequence.
pub open spec fn lower_seq(s: Seq<char>) -> Seq<char> {
    Seq::new(s.len(), |i: int| ascii_lower(s[i]))
}

/// `str::eq_ignore_ascii_case`.
pub open spec fn eq_ignore_case(a: Seq<char>, b: Seq<char>) -> bool {
    lower_seq(a) == lower_seq(b)
}

pub fn ascii_lower_char(c: char) -> (res: char)
    ensures
        res == ascii_lower(c),
{
    let v: u32 = c as u32;
    if 65 <= v && v <= 90 {
        let b: u8 = (v + 32) as u8;
        proof {
            assert(b as u32 == v + 32);
        }
        let r: char = b as char;
        r
    } else {
        c
    }
}

/// Appends one character (`String::push`).
#[verifier::external_body]
pub(crate) fn push_char(s: &mut String, c: char)
    ensures
        final(s)@ == old(s)@.push(c),
{
    s.push(c)
}

/// `str::to_ascii_lowercase`.
pub fn to_ascii_lowercase(s: &str) -> (res: String)
    ensures
        res@ == lower_seq(s@),
{
    let n: usize = s.unicode_len();
    let mut out = String::new();
    let mut i: usize = 0;
    while i < n
        invariant
            n == s@.len(),
            i <= n,
            out@ =~= lower_seq(s@).subrange(0, i as int),
        decreases n - i,
    {
        let c = ascii_lower_char(s.get_char(i));
        push_char(&mut out, c);
        i = i + 1;
    }
    proof {
        assert(lower_seq(s@).subrange(0, n as int) =~= lower_seq(s@));
    }
    out
}

/// ASCII upper-casing of one character (`char::to_ascii_uppercase`).
pub open spec fn ascii_upper(c: char) -> char {
    if 97 <= (c as u32) && (c as u32) <= 122 {
        ((c as u32) - 32) as char
    } else {
        c
    }
}

/// `str::to_ascii_uppercase` on a character sequence.
pub open spec fn upper_seq(s: Seq<char>) -> Seq<char> {
    Seq::new(s.len(), |i: int| ascii_upper(s[i]))
}

fn ascii_upper_char(c: char) -> (res: char)
    ensures
        res == ascii_upper(c),
{
    let v: u32 = c as u32;
    if 97 <= v && v <= 122 {
        let b: u8 = (v - 32) as u8;
        proof {
            assert(b as u32 == v - 32);
        }
        let r: char = b as char;
        r
    } else {
        c
    }
}

/// `str::to_ascii_uppercase`.
pub fn to_ascii_uppercase(s: &str) -> (res: String)
    ensures
        res@ == upper_seq(s@),
{
    let n: usize = s.unicode_len();
    let mut out = String::new();
    let mut i: usize = 0;
    while i < n
        invariant
            n == s@.len(),
            i <= n,
            out@ =~= upper_seq(s@).subrange(0, i as int),
        decreases n - i,
    {
        let c = ascii_upper_char(s.get_char(i));
        push_char(&mut out, c);
        i = i + 1;
    }
    proof {
        assert(upper_seq(s@).subrange(0, n as int) =~= upper_seq(s@));
    }
    out
}

/// `str::eq_ignore_ascii_case`.
pub fn eq_ignore_ascii_case(a: &str, b: &str) -> (res: bool)
    ensures
        res == eq_ignore_case(a@, b@),
{
    let n: usize = a.unicode_len();
    let m: usize = b.unicode_len();
    if n != m {
        proof {
            assert(lower_seq(a@).len() != lower_seq(b@).len());
        }
        return false;
    }
    let mut i: usize = 0;
    while i < n
        invariant
            n == a@.len(),
            n == b@.len(),
            i <= n,
            forall|j: int| 0 <= j < i ==> ascii_lower(#[trigger] a@[j]) == ascii_lower(b@[j]),
        decreases n - i,
    {
        if ascii_lower_char(a.get_char(i)) != ascii_lower_char(b.get_char(i)) {
            proof {
                assert(lower_seq(a@)[i as int] != lower_seq(b@)[i as int]);
            }
            return false;
        }
        i = i + 1;
    }
    proof {
        assert(lower_seq(a@) =~= lower_seq(b@));
    }
    true
}

/// `str::starts_with` for a string pattern.
pub open spec fn starts_with_seq(s: Seq<char>, p: Seq<char>) -> bool {
    p.len() <= s.len() && s.subrange(0, p.len() as int) == p
}

/// `str::ends_with` for a string pattern.
pub open spec fn ends_with_seq(s: Seq<char>, p: Seq<char>) -> bool {
    p.len() <= s.len() && s.subrange(s.len() - p.len(), s.len() as int) == p
}

/// `p` occurs in `s` starting at character index `i`.
pub open spec fn occurs_at(s: Seq<char>, p: Seq<char>, i: int) -> bool {
    0 <= i && i + p.len() <= s.len() && s.subrange(i, i + p.len()) == p
}

/// `str::contains` for a string pattern.
pub open spec fn contains_seq(s: Seq<char>, p: Seq<char>) -> bool {
    exists|i: int| occurs_at(s, p, i)
}

fn occurs_at_exec(s: &str, n: usize, p: &str, m: usize, i: usize) -> (res: bool)
    requires
        n == s@.len(),
        m == p@.len(),
        i + m <= n,
    ensures
        res == occurs_at(s@, p@, i as int),
{
    let mut k: usize = 0;
    while k < m
        invariant
            n == s@.len(),
            m == p@.len(),
            i + m <= n,
            k <= m,
            forall|j: int| 0 <= j < k ==> s@[i + j] == #[trigger] p@[j],
        decreases m - k,
    {
        if s.get_char(i + k) != p.get_char(k) {
            proof {
                assert(s@.subrange(i as int, i + m)[k as int] != p@[k as int]);
            }
            return false;
        }
        k = k + 1;
    }
    proof {
        assert(s@.subrange(i as int, i + m) =~= p@);
    }
    true
}

/// The first character index at which `p` occurs in `s` (`str::find`,
/// counted in characters rather than bytes).
pub fn find_str(s: &str, p: &str) -> (res: Option<usize>)
    ensures
        match res {
            Some(i) => occurs_at(s@, p@, i as int) && forall|j: int|
                0 <= j < i ==> !occurs_at(s@, p@, j),
            None => !contains_seq(s@, p@),
        },
{
    let n: usize = s.unicode_len();
    let m: usize = p.unicode_len();
    if m > n {
        return None;
    }
    let mut i: usize = 0;
    while i <= n - m
        invariant
            n == s@.len(),
            m == p@.len(),
            m <= n,
            i <= n - m + 1,
            forall|j: int| 0 <= j < i ==> !occurs_at(s@, p@, j),
        decreases n - m + 1 - i,
    {
        if occurs_at_exec(s, n, p, m, i) {
            return Some(i);
        }
        if i == n - m {
            return None;
        }
        i = i + 1;
    }
    None
}

/// `str::contains` for a string pattern.
pub fn contains_str(s: &str, p: &str) -> (res: bool)
    ensures
        res == contains_seq(s@, p@),
{
    match find_str(s, p) {
        Some(_) => true,
        None => false,
    }
}

/// `str::starts_with` for a string pattern.
pub fn starts_with_str(s: &str, p: &str) -> (res: bool)
    ensures
        res == starts_with_seq(s@, p@),
{
    let n: usize = s.unicode_len();
    let m: usize = p.unicode_len();
    if m > n {
        return false;
    }
    let r = occurs_at_exec(s, n, p, m, 0);
    r
}

/// One decimal digit.
pub open spec fn digit_char(d: nat) -> char {
    (48 + d) as char
}

/// The decimal rendering of a natural number (`u64::to_string`).
pub open spec fn decimal(n: nat) -> Seq<char>
    decreases n,
{
    if n < 10 {
        seq![digit_char(n)]
    } else {
        decimal(n / 10).push(digit_char(n % 10))
    }
}

pub proof fn lemma_decimal_len(n: nat)
    ensures
        decimal(n).len() >= 1,
        n >= 10 ==> decimal(n).len() >= 2,
    decreases n,
{
    if n >= 10 {
        lemma_decimal_len(n / 10);
    }
}

/// Distinct numbers render as distinct decimals.
pub proof fn lemma_decimal_injective(a: nat, b: nat)
    requires
        decimal(a) == decimal(b),
    ensures
        a == b,
    decreases a,
{
    lemma_decimal_len(a);
    lemma_decimal_len(b);
    if a < 10 && b < 10 {
        assert(decimal(a)[0] == digit_char(a));
        assert(decimal(b)[0] == digit_char(b));
        assert((digit_char(a) as int) == 48 + a);
        assert((digit_char(b) as int) == 48 + b);
        assert(a == b);
    } else if a >= 10 && b >= 10 {
        assert(decimal(a).last() == digit_char(a % 10));
        assert(decimal(b).last() == digit_char(b % 10));
        assert(decimal(a).last() == decimal(b).last());
        assert((digit_char(a % 10) as int) == 48 + a % 10);
        assert((digit_char(b % 10) as int) == 48 + b % 10);
        assert(decimal(a).drop_last() =~= decimal(a / 10));
        assert(decimal(b).drop_last() =~= decimal(b / 10));
        lemma_decimal_injective(a / 10, b / 10);
        assert(a % 10 == b % 10);
        assert(a == 10 * (a / 10) + a % 10);
        assert(b == 10 * (b / 10) + b % 10);
        assert(a == b);
    } else {
        assert(decimal(a).len() != decimal(b).len());
    }
}

/// The decimal rendering of an integer (`i64::to_string`).
pub open spec fn signed_decimal(n: int) -> Seq<char> {
    if n < 0 {
        seq!['-'] + decimal((-n) as nat)
    } else {
        decimal(n as nat)
    }
}

/// Appends the decimal rendering of `n`.
pub fn append_decimal(out: &mut String, n: u64)
    ensures
        final(out)@ == old(out)@ + decimal(n as nat),
    decreases n,
{
    if n >= 10 {
        append_decimal(out, n / 10);
    }
    let d: u8 = (n % 10) as u8;
    let c: char = (48u8 + d) as char;
    proof {
        assert(c == digit_char((n % 10) as nat));
    }
    push_char(out, c);
    proof {
        if n >= 10 {
            assert(decimal(n as nat) == decimal((n / 10) as nat).push(digit_char((n % 10) as nat)));
        }
    }
    assert(final(out)@ =~= old(out)@ + decimal(n as nat));
}

/// Appends the decimal rendering of a signed integer.
pub fn append_signed_decimal(out: &mut String, n: i64)
    ensures
        final(out)@ == old(out)@ + signed_decimal(n as int),
{
    if n < 0 {
        out.append("-");
        let m: u64 = (0i128 - n as i128) as u64;
        proof {
            reveal_strlit("-");
        }
        append_decimal(out, m);
        assert(final(out)@ =~= old(out)@ + signed_decimal(n as int));
    } else {
        append_decimal(out, n as u64);
    }
}

/// `u64::to_string`.
pub fn u64_to_string(n: u64) -> (res: String)
    ensures
        res@ == decimal(n as nat),
{
    let mut out = String::new();
    append_decimal(&mut out, n);
    assert(out@ =~= decimal(n as nat));
    out
}


/// The number of bytes UTF-8 uses for one character.
pub open spec fn utf8_width(c: char) -> nat {
    let v = c as u32;
    if v < 0x80 {
        1
    } else if v < 0x800 {
        2
    } else if v < 0x10000 {
        3
    } else {
        4
    }
}

/// The UTF-8 byte length of a character sequence (`str::len`).
pub open spec fn utf8_len(s: Seq<char>) -> nat
    decreases s.len(),
{
    if s.len() == 0 {
        0
    } else {
        utf8_len(s.drop_last()) + utf8_width(s.last())
    }
}

pub fn utf8_width_exec(c: char) -> (res: usize)
    ensures
        res == utf8_width(c),
        1 <= res <= 4,
{
    let v: u32 = c as u32;
    if v < 0x80 {
        1
    } else if v < 0x800 {
        2
    } else if v < 0x10000 {
        3
    } else {
        4
    }
}

/// The byte length of a prefix never exceeds that of the whole.
pub proof fn lemma_utf8_len_prefix(s: Seq<char>, i: int)
    requires
        0 <= i <= s.len(),
    ensures
        utf8_len(s.subrange(0, i)) <= utf8_len(s),
    decreases s.len() - i,
{
    if i < s.len() {
        lemma_utf8_len_prefix(s, i + 1);
        assert(s.subrange(0, i + 1).drop_last() =~= s.subrange(0, i));
    } else {
        assert(s.subrange(0, i) =~= s);
    }
}

/// Whether the UTF-8 encoding of `s` is longer than `max` bytes.
pub fn exceeds_utf8_bytes(s: &str, max: usize) -> (res: bool)
    ensures
        res == (utf8_len(s@) > max),
{
    let n: usize = s.unicode_len();
    let mut i: usize = 0;
    let mut total: usize = 0;
    while i < n
        invariant
            n == s@.len(),
            i <= n,
            total == utf8_len(s@.subrange(0, i as int)),
            total <= max,
        decreases n - i,
    {
        let w: usize = utf8_width_exec(s.get_char(i));
        proof {
            assert(s@.subrange(0, i + 1).drop_last() =~= s@.subrange(0, i as int));
        }
        if w > max - total {
            proof {
                lemma_utf8_len_prefix(s@, i + 1);
            }
            return true;
        }
        total = total + w;
        i = i + 1;
    }
    proof {
        assert(s@.subrange(0, n as int) =~= s@);
    }
    false
}


/// The longest prefix of `s` whose UTF-8 encoding fits in `max` bytes.
pub open spec fn truncate_utf8_spec(s: Seq<char>, max: nat) -> Seq<char>
    decreases s.len(),
{
    if utf8_len(s) <= max || s.len() == 0 {
        s
    } else {
        truncate_utf8_spec(s.drop_last(), max)
    }
}

proof fn lemma_truncate_prefix(s: Seq<char>, max: nat, k: int, j: int)
    requires
        0 <= k < s.len(),
        k <= j <= s.len(),
        utf8_len(s.subrange(0, k)) <= max,
        utf8_len(s.subrange(0, k + 1)) > max,
    ensures
        truncate_utf8_spec(s.subrange(0, j), max) == s.subrange(0, k),
    decreases j - k,
{
    if j > k {
        lemma_utf8_len_prefix(s.subrange(0, j), k + 1);
        assert(s.subrange(0, j).subrange(0, k + 1) =~= s.subrange(0, k + 1));
        assert(s.subrange(0, j).drop_last() =~= s.subrange(0, j - 1));
        lemma_truncate_prefix(s, max, k, j - 1);
    }
}

/// Cut `s` to at most `max` UTF-8 bytes without splitting a character.
pub fn truncate_utf8_bytes(s: &str, max: usize) -> (res: String)
    ensures
        res@ == truncate_utf8_spec(s@, max as nat),
{
    let n: usize = s.unicode_len();
    let mut i: usize = 0;
    let mut total: usize = 0;
    while i < n
        invariant
            n == s@.len(),
            i <= n,
            total == utf8_len(s@.subrange(0, i as int)),
            total <= max,
        decreases n - i,
    {
        let w: usize = utf8_width_exec(s.get_char(i));
        proof {
            assert(s@.subrange(0, i + 1).drop_last() =~= s@.subrange(0, i as int));
        }
        if w > max - total {
            proof {
                lemma_truncate_prefix(s@, max as nat, i as int, n as int);
                assert(s@.subrange(0, n as int) =~= s@);
            }
            return s.substring_char(0, i).to_owned();
        }
        total = total + w;
        i = i + 1;
    }
    proof {
        assert(s@.subrange(0, n as int) =~= s@);
    }
    s.to_owned()
}


/// `==` on string slices.
pub fn str_eq(a: &str, b: &str) -> (res: bool)
    ensures
        res == (a@ == b@),
{
    let n: usize = a.unicode_len();
    let m: usize = b.unicode_len();
    if n != m {
        return false;
    }
    let mut i: usize = 0;
    while i < n
        invariant
            n == a@.len(),
            n == b@.len(),
            i <= n,
            forall|j: int| 0 <= j < i ==> a@[j] == #[trigger] b@[j],
        decreases n - i,
    {
        if a.get_char(i) != b.get_char(i) {
            return false;
        }
        i = i + 1;
    }
    proof {
        assert(a@ =~= b@);
    }
    true
}


/// The length of the run of non-white-space characters `s` starts with.
pub open spec fn word_len(s: Seq<char>) -> nat
    decreases s.len(),
{
    if s.len() == 0 || is_ws(s[0]) {
        0
    } else {
        1 + word_len(s.drop_first())
    }
}

proof fn lemma_word_len_bound(s: Seq<char>)
    ensures
        word_len(s) <= s.len(),
        forall|j: int| 0 <= j < word_len(s) ==> !is_ws(#[trigger] s[j]),
        word_len(s) < s.len() ==> is_ws(s[word_len(s) as int]),
    decreases s.len(),
{
    if s.len() > 0 && !is_ws(s[0]) {
        lemma_word_len_bound(s.drop_first());
        assert forall|j: int| 0 <= j < word_len(s) implies !is_ws(#[trigger] s[j]) by {
            if j > 0 {
                assert(s[j] == s.drop_first()[j - 1]);
            }
        }
        if word_len(s) < s.len() {
            assert(s[word_len(s) as int] == s.drop_first()[word_len(s) - 1]);
        }
    }
}

/// `str::split_whitespace`: the maximal runs of non-white-space.
pub open spec fn words(s: Seq<char>) -> Seq<Seq<char>>
    decreases s.len(),
{
    if s.len() == 0 {
        Seq::empty()
    } else if is_ws(s[0]) {
        words(s.drop_first())
    } else {
        let k = word_len(s);
        if 0 < k <= s.len() {
            seq![s.take(k as int)] + words(s.skip(k as int))
        } else {
            Seq::empty()
        }
    }
}

/// `a.join(sep)` of character sequences.
pub open spec fn join_seqs(items: Seq<Seq<char>>, sep: Seq<char>) -> Seq<char>
    decreases items.len(),
{
    if items.len() == 0 {
        Seq::empty()
    } else if items.len() == 1 {
        items[0]
    } else {
        items[0] + sep + join_seqs(items.drop_first(), sep)
    }
}

/// Runs of white space collapsed to one space, ends trimmed.
pub open spec fn normalize_ws_spec(s: Seq<char>) -> Seq<char> {
    join_seqs(words(s), " "@)
}

/// Collapse white-space runs to single spaces and trim the ends.
pub fn normalize_whitespace(s: &str) -> (res: String)
    ensures
        res@ == normalize_ws_spec(s@),
{
    let n: usize = s.unicode_len();
    let mut out = String::new();
    let mut i: usize = 0;
    let mut first = true;
    assert(s@.subrange(0, n as int) =~= s@);
    while i < n
        invariant
            n == s@.len(),
            i <= n,
            first ==> out@.len() == 0,
            normalize_ws_spec(s@) == if first {
                join_seqs(words(s@.subrange(i as int, n as int)), " "@)
            } else {
                if words(s@.subrange(i as int, n as int)).len() == 0 {
                    out@
                } else {
                    out@ + " "@ + join_seqs(words(s@.subrange(i as int, n as int)), " "@)
                }
            },
        decreases n - i,
    {
        let ghost rest = s@.subrange(i as int, n as int);
        let c = s.get_char(i);
        if is_whitespace_char(c) {
            proof {
                assert(rest.drop_first() =~= s@.subrange(i + 1, n as int));
            }
            i = i + 1;
        } else {
            // take the whole word
            let start: usize = i;
            let ghost k = word_len(rest);
            proof {
                lemma_word_len_bound(rest);
            }
            let mut j: usize = i;
            while j < n && !is_whitespace_char(s.get_char(j))
                invariant
                    n == s@.len(),
                    start <= j <= n,
                    rest == s@.subrange(start as int, n as int),
                    k == word_len(rest),
                    k <= rest.len(),
                    forall|t: int| 0 <= t < k ==> !is_ws(#[trigger] rest[t]),
                    k < rest.len() ==> is_ws(rest[k as int]),
                    j - start <= k,
                decreases n - j,
            {
                proof {
                    if j - start == k {
                        assert(rest[k as int] == s@[j as int]);
                    }
                }
                j = j + 1;
            }
            proof {
                if j < n {
                    assert(rest[(j - start) as int] == s@[j as int]);
                }
                assert(j - start == k);
                assert(rest.take(k as int) =~= s@.subrange(start as int, j as int));
                assert(rest.skip(k as int) =~= s@.subrange(j as int, n as int));
            }
            let ghost w = s@.subrange(start as int, j as int);
            let ghost later = words(s@.subrange(j as int, n as int));
            assert(words(rest) == seq![w] + later);
            let ghost old_out = out@;
            if !first {
                push_char(&mut out, ' ');
            }
            out.append(s.substring_char(start, j));
            proof {
                reveal_strlit(" ");
                let ws = seq![w] + later;
                assert(ws[0] == w);
                assert(ws.drop_first() =~= later);
                let jl = join_seqs(later, " "@);
                if later.len() == 0 {
                    assert(join_seqs(ws, " "@) == w);
                } else {
                    assert(join_seqs(ws, " "@) == w + " "@ + jl);
                }
                if first {
                    assert(out@ =~= w);
                    if later.len() > 0 {
                        assert(normalize_ws_spec(s@) == out@ + " "@ + jl);
                    }
                } else {
                    assert(out@ =~= old_out + " "@ + w);
                    if later.len() > 0 {
                        assert(old_out + " "@ + (w + " "@ + jl) =~= out@ + " "@ + jl);
                    } else {
                        assert(old_out + " "@ + w =~= out@);
                    }
                }
            }
            first = false;
            i = j;
        }
    }
    proof {
        assert(s@.subrange(n as int, n as int) =~= Seq::<char>::empty());
    }
    out
}


/// `str::trim_start`.
pub fn trim_start(s: &str) -> (res: String)
    ensures
        res@ == trim_start_seq(s@),
{
    let n: usize = s.unicode_len();
    let mut start: usize = 0;
    while start < n && is_whitespace_char(s.get_char(start))
        invariant
            n == s@.len(),
            start <= n,
            forall|j: int| 0 <= j < start ==> is_ws(#[trigger] s@[j]),
        decreases n - start,
    {
        start = start + 1;
    }
    proof {
        lemma_trim_start_skip(s@, start as int);
        let rest = s@.subrange(start as int, n as int);
        assert(start == n || !is_ws(s@[start as int]));
        assert(trim_start_seq(rest) == rest);
    }
    s.substring_char(start, n).to_owned()
}

/// `str::split_whitespace`, collected.
pub fn split_words(s: &str) -> (res: Vec<String>)
    ensures
        res@.map_values(|w: String| w@) == words(s@),
{
    let n: usize = s.unicode_len();
    let mut out: Vec<String> = Vec::new();
    let mut i: usize = 0;
    assert(s@.subrange(0, n as int) =~= s@);
    while i < n
        invariant
            n == s@.len(),
            i <= n,
            out@.map_values(|w: String| w@) + words(s@.subrange(i as int, n as int)) == words(s@),
        decreases n - i,
    {
        let ghost rest = s@.subrange(i as int, n as int);
        if is_whitespace_char(s.get_char(i)) {
            proof {
                assert(rest.drop_first() =~= s@.subrange(i + 1, n as int));
            }
            i = i + 1;
        } else {
            let start: usize = i;
            let ghost k = word_len(rest);
            proof {
                lemma_word_len_bound(rest);
            }
            let mut j: usize = i;
            while j < n && !is_whitespace_char(s.get_char(j))
                invariant
                    n == s@.len(),
                    start <= j <= n,
                    rest == s@.subrange(start as int, n as int),
                    k == word_len(rest),
                    k <= rest.len(),
                    forall|t: int| 0 <= t < k ==> !is_ws(#[trigger] rest[t]),
                    k < rest.len() ==> is_ws(rest[k as int]),
                    j - start <= k,
                decreases n - j,
            {
                proof {
                    if j - start == k {
                        assert(rest[k as int] == s@[j as int]);
                    }
                }
                j = j + 1;
            }
            proof {
                if j < n {
                    assert(rest[(j - start) as int] == s@[j as int]);
                }
                assert(rest.take(k as int) =~= s@.subrange(start as int, j as int));
                assert(rest.skip(k as int) =~= s@.subrange(j as int, n as int));
            }
            let ghost before = out@.map_values(|w: String| w@);
            let word = s.substring_char(start, j).to_owned();
            out.push(word);
            proof {
                let w = s@.subrange(start as int, j as int);
                assert(out@.map_values(|w: String| w@) =~= before.push(w));
                assert(before.push(w) + words(s@.subrange(j as int, n as int)) =~= before + (seq![w]
                    + words(s@.subrange(j as int, n as int))));
            }
            i = j;
        }
    }
    proof {
        assert(words(s@.subrange(n as int, n as int)) =~= Seq::<Seq<char>>::empty());
        assert(out@.map_values(|w: String| w@) + Seq::<Seq<char>>::empty() =~= out@.map_values(
            |w: String| w@,
        ));
    }
    out
}

pub open spec fn is_digit(c: char) -> bool {
    48 <= (c as u32) && (c as u32) <= 57
}

pub open spec fn digit_value(c: char) -> nat {
    ((c as u32) - 48) as nat
}

pub open spec fn all_digits(s: Seq<char>) -> bool {
    forall|i: int| 0 <= i < s.len() ==> is_digit(#[trigger] s[i])
}

/// The value of a run of decimal digits.
pub open spec fn digits_value(s: Seq<char>) -> nat
    decreases s.len(),
{
    if s.len() == 0 {
        0
    } else {
        digits_value(s.drop_last()) * 10 + digit_value(s.last())
    }
}

/// What follows an optional leading `+` (a lone `+` stays).
pub open spec fn unsigned_digits(s: Seq<char>) -> Seq<char> {
    if s.len() > 1 && s[0] == '+' {
        s.drop_first()
    } else {
        s
    }
}

/// `str::parse` of an unsigned integer type whose largest value is `max`.
pub open spec fn parse_unsigned_spec(s: Seq<char>, max: nat) -> Option<nat> {
    let d = unsigned_digits(s);
    if d.len() > 0 && all_digits(d) && digits_value(d) <= max {
        Some(digits_value(d))
    } else {
        None
    }
}

proof fn lemma_digits_value_prefix(s: Seq<char>, i: int)
    requires
        0 <= i <= s.len(),
        all_digits(s),
    ensures
        digits_value(s.subrange(0, i)) <= digits_value(s),
    decreases s.len() - i,
{
    if i < s.len() {
        lemma_digits_value_prefix(s, i + 1);
        assert(s.subrange(0, i + 1).drop_last() =~= s.subrange(0, i));
        assert(is_digit(s[i]));
    } else {
        assert(s.subrange(0, i) =~= s);
    }
}

/// `str::parse::<u64>` restricted to values up to `max`: `None` for
/// anything that is not an optional `+` followed by digits, or is larger.
pub fn parse_unsigned(s: &str, max: u64) -> (res: Option<u64>)
    ensures
        match res {
            Some(v) => parse_unsigned_spec(s@, max as nat) == Some(v as nat),
            None => parse_unsigned_spec(s@, max as nat) is None,
        },
{
    let n: usize = s.unicode_len();
    let start: usize = if n > 1 && s.get_char(0) == '+' {
        1
    } else {
        0
    };
    let ghost d = unsigned_digits(s@);
    proof {
        assert(d =~= s@.subrange(start as int, n as int));
    }
    if start == n {
        return None;
    }
    let mut value: u64 = 0;
    let mut i: usize = start;
    while i < n
        invariant
            n == s@.len(),
            start <= i <= n,
            d == s@.subrange(start as int, n as int),
            d == unsigned_digits(s@),
            value as nat == digits_value(d.subrange(0, i - start)),
            value <= max,
            all_digits(d.subrange(0, i - start)),
        decreases n - i,
    {
        let c = s.get_char(i);
        let v: u32 = c as u32;
        proof {
            assert(d.subrange(0, i + 1 - start).drop_last() =~= d.subrange(0, i - start));
            assert(d.subrange(0, i + 1 - start).last() == c);
        }
        if !(48 <= v && v <= 57) {
            proof {
                assert(!is_digit(d[i - start]));
            }
            return None;
        }
        let digit: u64 = (v - 48) as u64;
        let next: u128 = (value as u128) * 10 + digit as u128;
        if next > max as u128 {
            proof {
                assert(all_digits(d.subrange(0, i + 1 - start)));
                if all_digits(d) {
                    lemma_digits_value_prefix(d, i + 1 - start);
                }
            }
            return None;
        }
        value = next as u64;
        i = i + 1;
        proof {
            assert(all_digits(d.subrange(0, i - start)));
        }
    }
    proof {
        assert(d.subrange(0, n - start) =~= d);
    }
    Some(value)
}

/// The index of the first occurrence of `c`, or the length.
pub open spec fn char_index(s: Seq<char>, c: char) -> nat
    decreases s.len(),
{
    if s.len() == 0 || s[0] == c {
        0
    } else {
        1 + char_index(s.drop_first(), c)
    }
}

pub proof fn lemma_char_index(s: Seq<char>, c: char)
    ensures
        char_index(s, c) <= s.len(),
        forall|j: int| 0 <= j < char_index(s, c) ==> #[trigger] s[j] != c,
        char_index(s, c) < s.len() ==> s[char_index(s, c) as int] == c,
    decreases s.len(),
{
    if s.len() > 0 && s[0] != c {
        lemma_char_index(s.drop_first(), c);
        assert forall|j: int| 0 <= j < char_index(s, c) implies #[trigger] s[j] != c by {
            if j > 0 {
                assert(s[j] == s.drop_first()[j - 1]);
            }
        }
        if char_index(s, c) < s.len() {
            assert(s[char_index(s, c) as int] == s.drop_first()[char_index(s, c) - 1]);
        }
    }
}

pub proof fn lemma_char_index_unique(s: Seq<char>, c: char, k: int)
    requires
        0 <= k <= s.len(),
        forall|j: int| 0 <= j < k ==> #[trigger] s[j] != c,
        k < s.len() ==> s[k] == c,
    ensures
        char_index(s, c) == k,
    decreases s.len(),
{
    if s.len() > 0 && s[0] != c {
        assert forall|j: int| 0 <= j < k - 1 implies #[trigger] s.drop_first()[j] != c by {
            assert(s.drop_first()[j] == s[j + 1]);
        }
        if k - 1 < s.drop_first().len() {
            assert(s.drop_first()[k - 1] == s[k]);
        }
        lemma_char_index_unique(s.drop_first(), c, k - 1);
    }
}

/// The index of the first `c` in `s` from `from` on, or the length.
pub fn find_char_from(s: &str, n: usize, from: usize, c: char) -> (res: usize)
    requires
        n == s@.len(),
        from <= n,
    ensures
        res == from + char_index(s@.subrange(from as int, n as int), c),
{
    let mut k: usize = from;
    while k < n && s.get_char(k) != c
        invariant
            n == s@.len(),
            from <= k <= n,
            forall|j: int| from <= j < k ==> #[trigger] s@[j] != c,
        decreases n - k,
    {
        k = k + 1;
    }
    proof {
        let sub = s@.subrange(from as int, n as int);
        assert forall|j: int| 0 <= j < k - from implies #[trigger] sub[j] != c by {
            assert(sub[j] == s@[from + j]);
        }
        if k < n {
            assert(sub[k - from] == s@[k as int]);
        }
        lemma_char_index_unique(sub, c, k - from);
    }
    k
}

/// A line without the `\r` of a `\r\n` ending.
pub open spec fn strip_cr(l: Seq<char>) -> Seq<char> {
    if l.len() > 0 && l.last() == '\r' {
        l.drop_last()
    } else {
        l
    }
}

/// `str::lines`: split at `\n` (and `\r\n`); the final line ending is
/// optional and a final empty line is not produced.
pub open spec fn lines_spec(s: Seq<char>) -> Seq<Seq<char>>
    decreases s.len(),
{
    if s.len() == 0 {
        Seq::empty()
    } else {
        let k = char_index(s, '\n');
        if k < s.len() {
            seq![strip_cr(s.take(k as int))] + lines_spec(s.skip(k + 1 as int))
        } else {
            seq![s]
        }
    }
}

/// `str::lines`, collected.
pub fn split_lines(s: &str) -> (res: Vec<String>)
    ensures
        res@.map_values(|w: String| w@) == lines_spec(s@),
{
    let n: usize = s.unicode_len();
    let mut out: Vec<String> = Vec::new();
    let mut i: usize = 0;
    assert(s@.subrange(0, n as int) =~= s@);
    while i < n
        invariant
            n == s@.len(),
            i <= n,
            out@.map_values(|w: String| w@) + lines_spec(s@.subrange(i as int, n as int))
                == lines_spec(s@),
        decreases n - i,
    {
        let ghost rest = s@.subrange(i as int, n as int);
        let k: usize = find_char_from(s, n, i, '\n');
        proof {
            lemma_char_index(rest, '\n');
        }
        let ghost before = out@.map_values(|w: String| w@);
        if k < n {
            let mut end: usize = k;
            if end > i && s.get_char(end - 1) == '\r' {
                end = end - 1;
            }
            let line = s.substring_char(i, end).to_owned();
            out.push(line);
            proof {
                let l = rest.take((k - i) as int);
                assert(l =~= s@.subrange(i as int, k as int));
                assert(strip_cr(l) =~= s@.subrange(i as int, end as int));
                assert(rest.skip((k - i) + 1 as int) =~= s@.subrange(k + 1, n as int));
                assert(out@.map_values(|w: String| w@) =~= before.push(strip_cr(l)));
                assert(before.push(strip_cr(l)) + lines_spec(s@.subrange(k + 1, n as int))
                    =~= before + (seq![strip_cr(l)] + lines_spec(s@.subrange(k + 1, n as int))));
            }
            i = k + 1;
        } else {
            let line = s.substring_char(i, n).to_owned();
            out.push(line);
            proof {
                assert(out@.map_values(|w: String| w@) =~= before.push(rest));
                assert(lines_spec(s@.subrange(n as int, n as int)) =~= Seq::<Seq<char>>::empty());
                assert(before.push(rest) + Seq::<Seq<char>>::empty() =~= before + seq![rest]);
            }
            i = n;
        }
    }
    proof {
        assert(lines_spec(s@.subrange(n as int, n as int)) =~= Seq::<Seq<char>>::empty());
        assert(out@.map_values(|w: String| w@) + Seq::<Seq<char>>::empty() =~= out@.map_values(
            |w: String| w@,
        ));
    }
    out
}

} // verus!
