//! Text utilities over character sequences: substring search, whitespace
//! trimming, decimal rendering and decimal parsing.

use vstd::prelude::*;
use vstd::string::StrSliceExecFns;
use vstd::string::StringExecFns;

verus! {

/// The characters of `s`, in order.
pub fn chars_of(s: &str) -> (v: Vec<char>)
    ensures
        v@ == s@,
{
    let mut out: Vec<char> = Vec::new();
    for c in it: s.chars()
        invariant
            it.seq() == s@,
            out@ == s@.subrange(0, it.index() as int),
    {
        out.push(c);
    }
    assert(out@ == s@);
    out
}

/// `needle` stands in `hay` at position `i`.
pub open spec fn occurs_at(hay: Seq<char>, needle: Seq<char>, i: int) -> bool {
    &&& 0 <= i
    &&& i + needle.len() <= hay.len()
    &&& hay.subrange(i, i + needle.len()) == needle
}

/// The text of an optional string.
pub open spec fn text_of(s: Option<String>) -> Option<Seq<char>> {
    match s {
        Some(t) => Some(t@),
        None => None,
    }
}

/// `s` begins with `p`.
pub open spec fn has_prefix(s: Seq<char>, p: Seq<char>) -> bool {
    p.len() <= s.len() && s.subrange(0, p.len() as int) == p
}

/// A text begins with itself, and with each text that it continues.
pub proof fn lemma_has_prefix(p: Seq<char>, rest: Seq<char>)
    ensures
        has_prefix(p + rest, p),
        has_prefix(p, p),
{
    assert((p + rest).subrange(0, p.len() as int) =~= p);
    assert(p.subrange(0, p.len() as int) =~= p);
}

/// `needle` stands somewhere in `hay`.
pub open spec fn contains_text(hay: Seq<char>, needle: Seq<char>) -> bool {
    exists|i: int| #[trigger] occurs_at(hay, needle, i)
}

/// The least position at or after `from` where `needle` stands in `hay`.
pub open spec fn first_occurrence(hay: Seq<char>, needle: Seq<char>, from: int) -> Option<int>
    decreases hay.len() - from + 1,
{
    if from < 0 || from + needle.len() > hay.len() {
        None
    } else if occurs_at(hay, needle, from) {
        Some(from)
    } else {
        first_occurrence(hay, needle, from + 1)
    }
}

/// `first_occurrence` finds an occurrence whenever one exists at or after
/// `from`, and the one it finds is the least.
pub proof fn lemma_first_occurrence(hay: Seq<char>, needle: Seq<char>, from: int)
    requires
        0 <= from,
    ensures
        match first_occurrence(hay, needle, from) {
            Some(i) => from <= i && occurs_at(hay, needle, i) && forall|j: int|
                from <= j < i ==> !#[trigger] occurs_at(hay, needle, j),
            None => forall|j: int| from <= j ==> !#[trigger] occurs_at(hay, needle, j),
        },
    decreases hay.len() - from + 1,
{
    if from + needle.len() > hay.len() {
    } else if occurs_at(hay, needle, from) {
    } else {
        lemma_first_occurrence(hay, needle, from + 1);
    }
}

/// Searching from the start decides containment.
pub proof fn lemma_contains_iff_found(hay: Seq<char>, needle: Seq<char>)
    ensures
        contains_text(hay, needle) <==> first_occurrence(hay, needle, 0) is Some,
{
    lemma_first_occurrence(hay, needle, 0);
}

fn matches_at(hay: &[char], needle: &[char], i: usize) -> (b: bool)
    requires
        i + needle@.len() <= hay@.len(),
    ensures
        b == occurs_at(hay@, needle@, i as int),
{
    let n = needle.len();
    let h = hay.len();
    let mut k: usize = 0;
    while k < n
        invariant
            n == needle@.len(),
            h == hay@.len(),
            k <= n,
            i + n <= h,
            forall|j: int| 0 <= j < k ==> hay@[i + j] == needle@[j],
        decreases n - k,
    {
        if hay[i + k] != needle[k] {
            assert(hay@.subrange(i as int, i + n)[k as int] == hay@[i + k]);
            return false;
        }
        k += 1;
    }
    assert(hay@.subrange(i as int, i + n) =~= needle@);
    true
}

/// The position of the first occurrence of `needle` in `hay`.
pub fn find_text(hay: &[char], needle: &[char]) -> (r: Option<usize>)
    ensures
        match r {
            Some(i) => first_occurrence(hay@, needle@, 0) == Some(i as int),
            None => first_occurrence(hay@, needle@, 0) is None,
        },
{
    let h = hay.len();
    let n = needle.len();
    if n > h {
        return None;
    }
    let last = h - n;
    let mut i: usize = 0;
    loop
        invariant
            h == hay@.len(),
            n == needle@.len(),
            n <= h,
            last == h - n,
            i <= last,
            first_occurrence(hay@, needle@, 0) == first_occurrence(hay@, needle@, i as int),
        decreases last - i,
    {
        if matches_at(hay, needle, i) {
            return Some(i);
        }
        if i == last {
            return None;
        }
        i += 1;
    }
}

/// Whether `needle` stands somewhere in `hay`.
pub fn contains(hay: &str, needle: &str) -> (b: bool)
    ensures
        b == contains_text(hay@, needle@),
{
    let h = chars_of(hay);
    let n = chars_of(needle);
    proof {
        lemma_contains_iff_found(hay@, needle@);
    }
    find_text(h.as_slice(), n.as_slice()).is_some()
}

/// The characters with the Unicode property White_Space.
pub open spec fn is_whitespace(c: char) -> bool {
    let u = c as u32;
    ||| 0x09 <= u <= 0x0D
    ||| u == 0x20
    ||| u == 0x85
    ||| u == 0xA0
    ||| u == 0x1680
    ||| 0x2000 <= u <= 0x200A
    ||| u == 0x2028
    ||| u == 0x2029
    ||| u == 0x202F
    ||| u == 0x205F
    ||| u == 0x3000
}

/// Whether `c` has the Unicode property White_Space.
pub fn char_is_whitespace(c: char) -> (b: bool)
    ensures
        b == is_whitespace(c),
{
    let u: u32 = c as u32;
    (0x09 <= u && u <= 0x0D) || u == 0x20 || u == 0x85 || u == 0xA0 || u == 0x1680 || (0x2000 <= u
        && u <= 0x200A) || u == 0x2028 || u == 0x2029 || u == 0x202F || u == 0x205F || u == 0x3000
}

/// The first position at or after `from` that holds no whitespace, or the
/// length of `s` if there is none.
pub open spec fn skip_whitespace(s: Seq<char>, from: int) -> int
    decreases s.len() - from,
{
    if 0 <= from < s.len() && is_whitespace(s[from]) {
        skip_whitespace(s, from + 1)
    } else {
        from
    }
}

/// The end of the last run of non-whitespace that ends at or before `to`.
pub open spec fn skip_whitespace_back(s: Seq<char>, to: int) -> int
    decreases to,
{
    if 0 < to <= s.len() && is_whitespace(s[to - 1]) {
        skip_whitespace_back(s, to - 1)
    } else {
        to
    }
}

/// `s` without its leading and trailing whitespace.
pub open spec fn trimmed(s: Seq<char>) -> Seq<char> {
    let a = skip_whitespace(s, 0);
    let b = skip_whitespace_back(s, s.len() as int);
    if a >= b {
        Seq::empty()
    } else {
        s.subrange(a, b)
    }
}

/// `s` is empty or holds whitespace only.
pub open spec fn is_blank(s: Seq<char>) -> bool {
    trimmed(s).len() == 0
}

/// What `trimmed` keeps starts and ends with a character that is no
/// whitespace, and all that it drops is whitespace.
pub proof fn lemma_trimmed(s: Seq<char>)
    ensures
        ({
            let a = skip_whitespace(s, 0);
            let b = skip_whitespace_back(s, s.len() as int);
            &&& 0 <= a <= s.len()
            &&& 0 <= b <= s.len()
            &&& forall|i: int| 0 <= i < a ==> is_whitespace(#[trigger] s[i])
            &&& forall|i: int| b <= i < s.len() ==> is_whitespace(#[trigger] s[i])
            &&& a < s.len() ==> !is_whitespace(s[a]) && a < b
            &&& 0 < b ==> !is_whitespace(s[b - 1])
            &&& a == s.len() <==> b == 0
        }),
{
    lemma_skip_forward(s, 0);
    lemma_skip_backward(s, s.len() as int);
}

proof fn lemma_skip_forward(s: Seq<char>, from: int)
    requires
        0 <= from <= s.len(),
    ensures
        from <= skip_whitespace(s, from) <= s.len(),
        forall|i: int| from <= i < skip_whitespace(s, from) ==> is_whitespace(#[trigger] s[i]),
        skip_whitespace(s, from) < s.len() ==> !is_whitespace(s[skip_whitespace(s, from)]),
    decreases s.len() - from,
{
    if from < s.len() && is_whitespace(s[from]) {
        lemma_skip_forward(s, from + 1);
    }
}

proof fn lemma_skip_backward(s: Seq<char>, to: int)
    requires
        0 <= to <= s.len(),
    ensures
        0 <= skip_whitespace_back(s, to) <= to,
        forall|i: int| skip_whitespace_back(s, to) <= i < to ==> is_whitespace(#[trigger] s[i]),
        0 < skip_whitespace_back(s, to) ==> !is_whitespace(s[skip_whitespace_back(s, to) - 1]),
    decreases to,
{
    if 0 < to && is_whitespace(s[to - 1]) {
        lemma_skip_backward(s, to - 1);
    }
}

/// `s` without its leading and trailing whitespace.
pub fn trim(s: &str) -> (r: String)
    ensures
        r@ == trimmed(s@),
{
    let v = chars_of(s);
    let n = v.len();
    let mut a: usize = 0;
    while a < n && char_is_whitespace(v[a])
        invariant
            n == v@.len(),
            a <= n,
            skip_whitespace(v@, 0) == skip_whitespace(v@, a as int),
        decreases n - a,
    {
        a += 1;
    }
    let mut b: usize = n;
    while b > 0 && char_is_whitespace(v[b - 1])
        invariant
            n == v@.len(),
            b <= n,
            skip_whitespace_back(v@, n as int) == skip_whitespace_back(v@, b as int),
        decreases b,
    {
        b -= 1;
    }
    if a >= b {
        let e = String::new();
        assert(e@ =~= trimmed(s@));
        e
    } else {
        s.substring_char(a, b).to_owned()
    }
}

/// Whether `s` is empty or holds whitespace only.
pub fn blank(s: &str) -> (b: bool)
    ensures
        b == is_blank(s@),
{
    let v = chars_of(s);
    let n = v.len();
    let mut a: usize = 0;
    while a < n && char_is_whitespace(v[a])
        invariant
            n == v@.len(),
            a <= n,
            skip_whitespace(v@, 0) == skip_whitespace(v@, a as int),
        decreases n - a,
    {
        a += 1;
    }
    proof {
        lemma_trimmed(s@);
    }
    a == n
}

/// The character of the hexadecimal digit `d`, in lower case.
pub open spec fn hex_digit_char(d: int) -> char {
    if d < 10 {
        ((48 + d) as u8) as char
    } else {
        ((87 + d) as u8) as char
    }
}

/// The one-character string of the hexadecimal digit `d`.
pub fn hex_digit_str(d: u8) -> (r: &'static str)
    requires
        d < 16,
    ensures
        r@ == seq![hex_digit_char(d as int)],
{
    proof {
        reveal_strlit("0");
        reveal_strlit("1");
        reveal_strlit("2");
        reveal_strlit("3");
        reveal_strlit("4");
        reveal_strlit("5");
        reveal_strlit("6");
        reveal_strlit("7");
        reveal_strlit("8");
        reveal_strlit("9");
        reveal_strlit("a");
        reveal_strlit("b");
        reveal_strlit("c");
        reveal_strlit("d");
        reveal_strlit("e");
        reveal_strlit("f");
    }
    let r = match d {
        0 => "0",
        1 => "1",
        2 => "2",
        3 => "3",
        4 => "4",
        5 => "5",
        6 => "6",
        7 => "7",
        8 => "8",
        9 => "9",
        10 => "a",
        11 => "b",
        12 => "c",
        13 => "d",
        14 => "e",
        _ => "f",
    };
    assert(r@ =~= seq![hex_digit_char(d as int)]);
    r
}

/// The decimal digits of `n`, most significant first, without leading zeros.
pub open spec fn decimal_digits(n: nat) -> Seq<char>
    decreases n,
{
    if n < 10 {
        seq![hex_digit_char(n as int)]
    } else {
        decimal_digits(n / 10).push(hex_digit_char((n % 10) as int))
    }
}

/// The decimal form of an integer: a minus sign for a negative one, then the
/// digits of its magnitude.
pub open spec fn decimal(v: int) -> Seq<char> {
    if v < 0 {
        seq!['-'] + decimal_digits((-v) as nat)
    } else {
        decimal_digits(v as nat)
    }
}

/// Appends the decimal digits of `n` to `out`.
pub fn append_decimal(out: &mut String, n: u64)
    ensures
        final(out)@ == old(out)@ + decimal_digits(n as nat),
    decreases n,
{
    if n >= 10 {
        append_decimal(out, n / 10);
    }
    let d: u8 = (n % 10) as u8;
    out.append(hex_digit_str(d));
    assert(out@ =~= old(out)@ + decimal_digits(n as nat));
}

/// The decimal form of `n`.
pub fn u64_to_string(n: u64) -> (r: String)
    ensures
        r@ == decimal(n as int),
{
    let mut out = String::new();
    append_decimal(&mut out, n);
    assert(out@ =~= decimal_digits(n as nat));
    out
}

/// The decimal form of `v`.
pub fn i64_to_string(v: i64) -> (r: String)
    ensures
        r@ == decimal(v as int),
{
    if v < 0 {
        let magnitude: u64 = ((-(v + 1)) as u64) + 1;
        let mut out = String::from_str("-");
        proof {
            reveal_strlit("-");
        }
        append_decimal(&mut out, magnitude);
        assert(out@ =~= decimal(v as int));
        out
    } else {
        u64_to_string(v as u64)
    }
}

/// The decimal digits of `n`, with zeros in front up to `width` characters.
pub open spec fn zero_padded(n: nat, width: nat) -> Seq<char> {
    let digits = decimal_digits(n);
    if digits.len() >= width {
        digits
    } else {
        Seq::new((width - digits.len()) as nat, |i: int| '0') + digits
    }
}

/// A number has as many decimal digits as its size tells.
pub proof fn lemma_decimal_digits_len(n: nat)
    ensures
        decimal_digits(n).len() >= 1,
        n < 10 ==> decimal_digits(n).len() == 1,
        10 <= n < 100 ==> decimal_digits(n).len() == 2,
        100 <= n < 1000 ==> decimal_digits(n).len() == 3,
        1000 <= n ==> decimal_digits(n).len() >= 4,
    decreases n,
{
    if n >= 10 {
        lemma_decimal_digits_len(n / 10);
    }
}

/// The decimal form of `n` in at least four characters, zeros in front.
pub fn four_digits(n: u64) -> (r: String)
    ensures
        r@ == zero_padded(n as nat, 4),
{
    proof {
        lemma_decimal_digits_len(n as nat);
        reveal_strlit("");
        reveal_strlit("0");
        reveal_strlit("00");
        reveal_strlit("000");
    }
    let mut out = String::from_str(
        if n < 10 {
            "000"
        } else if n < 100 {
            "00"
        } else if n < 1000 {
            "0"
        } else {
            ""
        },
    );
    append_decimal(&mut out, n);
    assert(out@ =~= zero_padded(n as nat, 4));
    out
}

/// `c` is one of the digits `0` to `9`.
pub open spec fn is_digit(c: char) -> bool {
    48 <= c as u32 <= 57
}

/// The number that a sequence of decimal digits writes.
pub open spec fn digits_value(s: Seq<char>) -> nat
    decreases s.len(),
{
    if s.len() == 0 {
        0
    } else {
        digits_value(s.drop_last()) * 10 + ((s.last() as u32 - 48) as nat)
    }
}

/// `s` holds decimal digits only.
pub open spec fn all_digits(s: Seq<char>) -> bool {
    forall|i: int| 0 <= i < s.len() ==> is_digit(#[trigger] s[i])
}

/// The integer that `s` writes: an optional sign, then at least one decimal
/// digit and nothing else. `None` for any other text.
pub open spec fn parse_decimal(s: Seq<char>) -> Option<int> {
    let negative = s.len() > 0 && s[0] == '-';
    let signed = s.len() > 0 && (s[0] == '-' || s[0] == '+');
    let body = if signed {
        s.subrange(1, s.len() as int)
    } else {
        s
    };
    if body.len() == 0 || !all_digits(body) {
        None
    } else if negative {
        Some(-(digits_value(body) as int))
    } else {
        Some(digits_value(body) as int)
    }
}

/// The `i64` that `s` writes in decimal, if it writes one.
pub open spec fn parse_i64_spec(s: Seq<char>) -> Option<i64> {
    match parse_decimal(s) {
        Some(v) => if i64::MIN <= v <= i64::MAX {
            Some(v as i64)
        } else {
            None
        },
        None => None,
    }
}

/// The `usize` that `s` writes in decimal, if it writes one. A minus sign is
/// not accepted, not even before zero.
pub open spec fn parse_usize_spec(s: Seq<char>) -> Option<usize> {
    match parse_decimal(s) {
        Some(v) => if (s.len() > 0 && s[0] == '-') || v > usize::MAX {
            None
        } else {
            Some(v as usize)
        },
        None => None,
    }
}

proof fn lemma_digits_value_prefix(s: Seq<char>, k: int)
    requires
        0 <= k <= s.len(),
    ensures
        digits_value(s.subrange(0, k)) <= digits_value(s),
    decreases s.len() - k,
{
    if k < s.len() {
        lemma_digits_value_prefix(s, k + 1);
        assert(s.subrange(0, k + 1).drop_last() =~= s.subrange(0, k));
    } else {
        assert(s.subrange(0, k) =~= s);
    }
}

/// The value of the digits `v[from..]`, if they are digits, there is at least
/// one, and the value is at most `limit`.
fn parse_magnitude(v: &[char], from: usize, limit: u64) -> (r: Option<u64>)
    requires
        from <= v@.len(),
    ensures
        ({
            let body = v@.subrange(from as int, v@.len() as int);
            match r {
                Some(m) => body.len() > 0 && all_digits(body) && digits_value(body) == m && m
                    <= limit,
                None => body.len() == 0 || !all_digits(body) || digits_value(body) > limit,
            }
        }),
{
    let n = v.len();
    if from == n {
        return None;
    }
    let ghost body = v@.subrange(from as int, n as int);
    let mut acc: u64 = 0;
    let mut i: usize = from;
    while i < n
        invariant
            n == v@.len(),
            from <= i <= n,
            body == v@.subrange(from as int, n as int),
            all_digits(body.subrange(0, i - from)),
            acc == digits_value(body.subrange(0, i - from)),
            acc <= limit,
        decreases n - i,
    {
        let c = v[i];
        let u: u32 = c as u32;
        assert(body[i - from] == c);
        if u < 48 || u > 57 {
            return None;
        }
        let d: u64 = (u - 48) as u64;
        proof {
            assert(body.subrange(0, i - from + 1).drop_last() =~= body.subrange(0, i - from));
            assert(body.subrange(0, i - from + 1).last() == c);
            lemma_digits_value_prefix(body, i - from + 1);
        }
        if limit < d || acc > (limit - d) / 10 {
            return None;
        }
        acc = acc * 10 + d;
        i += 1;
    }
    assert(body.subrange(0, i - from) =~= body);
    Some(acc)
}

/// Reads a decimal `i64` from characters: an optional `+` or `-`, then
/// digits only.
pub fn parse_i64_chars(v: &[char]) -> (r: Option<i64>)
    ensures
        r == parse_i64_spec(v@),
{
    let n = v.len();
    if n == 0 {
        return None;
    }
    let first = v[0];
    if first == '-' {
        match parse_magnitude(v, 1, 0x8000_0000_0000_0000) {
            Some(m) => {
                if m == 0x8000_0000_0000_0000 {
                    Some(i64::MIN)
                } else {
                    Some(-(m as i64))
                }
            },
            None => None,
        }
    } else if first == '+' {
        match parse_magnitude(v, 1, 0x7fff_ffff_ffff_ffff) {
            Some(m) => Some(m as i64),
            None => None,
        }
    } else {
        assert(v@.subrange(0, n as int) =~= v@);
        match parse_magnitude(v, 0, 0x7fff_ffff_ffff_ffff) {
            Some(m) => Some(m as i64),
            None => None,
        }
    }
}

/// Reads a decimal `i64`: an optional `+` or `-`, then digits only.
pub fn parse_i64(s: &str) -> (r: Option<i64>)
    ensures
        r == parse_i64_spec(s@),
{
    let v = chars_of(s);
    parse_i64_chars(v.as_slice())
}

/// Reads a decimal `usize`: an optional `+`, then digits only.
pub fn parse_usize(s: &str) -> (r: Option<usize>)
    ensures
        r == parse_usize_spec(s@),
{
    let v = chars_of(s);
    let n = v.len();
    if n == 0 {
        return None;
    }
    let first = v[0];
    if first == '-' {
        None
    } else if first == '+' {
        match parse_magnitude(v.as_slice(), 1, usize::MAX as u64) {
            Some(m) => Some(m as usize),
            None => None,
        }
    } else {
        assert(v@.subrange(0, n as int) =~= v@);
        match parse_magnitude(v.as_slice(), 0, usize::MAX as u64) {
            Some(m) => Some(m as usize),
            None => None,
        }
    }
}

/// `a` followed by `b`.
pub fn join2(a: &str, b: &str) -> (r: String)
    ensures
        r@ == a@ + b@,
{
    let mut r = String::from_str(a);
    r.append(b);
    r
}

/// `a` followed by `b` and by `c`.
pub fn join3(a: &str, b: &str, c: &str) -> (r: String)
    ensures
        r@ == a@ + b@ + c@,
{
    let mut r = String::from_str(a);
    r.append(b);
    r.append(c);
    r
}

/// `a` followed by `b`, by `c` and by `d`.
pub fn join4(a: &str, b: &str, c: &str, d: &str) -> (r: String)
    ensures
        r@ == a@ + b@ + c@ + d@,
{
    let mut r = String::from_str(a);
    r.append(b);
    r.append(c);
    r.append(d);
    r
}

/// `s` with every character in lower case, as Unicode defines it.
pub uninterp spec fn lowercased(s: Seq<char>) -> Seq<char>;

/// `str::to_lowercase`. The contract names the result: what the lower case
/// of a text is, Unicode says on many pages.
#[verifier::external_body]
pub(crate) fn to_lowercase(s: &str) -> (r: String)
    ensures
        r@ == lowercased(s@),
{
    s.to_lowercase()
}

} // verus!
