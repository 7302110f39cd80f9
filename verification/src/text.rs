//! Text helpers shared by the gateway's rules: character access, splitting at
//! a separator, decimal numbers, and comparison without regard to case.

use vstd::prelude::*;
use vstd::string::*;

verus! {

/// The characters of `s`, in order.
pub fn chars_of(s: &str) -> (v: Vec<char>)
    ensures
        v@ == s@,
{
    let mut v: Vec<char> = Vec::new();
    for c in it: s.chars()
        invariant
            it.seq() == s@,
            v@ == it.seq().take(it.index() as int),
    {
        v.push(c);
    }
    assert(v@ =~= s@);
    v
}

/// The two parts of `s` around its first `sep`, if it holds one.
pub open spec fn split_first(s: Seq<char>, sep: char) -> Option<(Seq<char>, Seq<char>)> {
    match s.index_of_first(sep) {
        Some(i) => Some((s.subrange(0, i), s.subrange(i + 1, s.len() as int))),
        None => None,
    }
}

/// Position of the first `c` in `v`.
pub fn find_char(v: &Vec<char>, c: char) -> (r: Option<usize>)
    ensures
        match r {
            Some(i) => v@.index_of_first(c) == Some(i as int),
            None => v@.index_of_first(c) is None,
        },
{
    let n: usize = v.len();
    let mut i: usize = 0;
    while i < n
        invariant
            n == v@.len(),
            i <= n,
            forall|j: int| 0 <= j < i ==> v@[j] != c,
        decreases n - i,
    {
        if v[i] == c {
            proof {
                assert(v@.contains(c));
                v@.index_of_first_ensures(c);
            }
            return Some(i);
        }
        i = i + 1;
    }
    proof {
        v@.index_of_first_ensures(c);
    }
    None
}

/// Splits `s` at its first `sep`; `None` where `s` holds no `sep`.
pub fn split_once<'a>(s: &'a str, sep: char) -> (r: Option<(&'a str, &'a str)>)
    ensures
        match r {
            Some((head, tail)) => split_first(s@, sep) == Some((head@, tail@)),
            None => split_first(s@, sep) is None,
        },
{
    let v = chars_of(s);
    proof {
        s@.index_of_first_ensures(sep);
    }
    match find_char(&v, sep) {
        Some(i) => {
            let n: usize = v.len();
            assert(i < n);
            let head = s.substring_char(0, i);
            let tail = s.substring_char(i + 1, n);
            Some((head, tail))
        },
        None => None,
    }
}

/// Whether `c` is one of the ten decimal digits.
pub open spec fn is_digit(c: char) -> bool {
    48 <= c as u32 <= 57
}

/// The number that the digit `c` stands for.
pub open spec fn digit_value(c: char) -> int {
    c as u32 - 48
}

/// Whether `s` holds decimal digits only.
pub open spec fn all_digits(s: Seq<char>) -> bool {
    forall|i: int| 0 <= i < s.len() ==> is_digit(#[trigger] s[i])
}

/// The number written by the digits `s`, most significant first.
pub open spec fn digits_value(s: Seq<char>) -> int
    decreases s.len(),
{
    if s.len() == 0 {
        0
    } else {
        digits_value(s.drop_last()) * 10 + digit_value(s.last())
    }
}

/// The number written by `d`, where `d` is a non-empty run of digits whose
/// number is at most `limit`.
pub open spec fn bounded_digits(d: Seq<char>, limit: int) -> Option<int> {
    if d.len() > 0 && all_digits(d) && digits_value(d) <= limit {
        Some(digits_value(d))
    } else {
        None
    }
}

/// The number that `s` denotes as a signed decimal: an optional `+` or `-`,
/// then at least one digit and nothing else.
pub open spec fn signed_decimal(s: Seq<char>) -> Option<int> {
    if s.len() > 0 && s[0] == '-' {
        let d = s.subrange(1, s.len() as int);
        if d.len() > 0 && all_digits(d) {
            Some(-digits_value(d))
        } else {
            None
        }
    } else {
        unsigned_decimal(s)
    }
}

/// The number that `s` denotes as an unsigned decimal: an optional `+`, then
/// at least one digit and nothing else.
pub open spec fn unsigned_decimal(s: Seq<char>) -> Option<int> {
    let d = if s.len() > 0 && s[0] == '+' {
        s.subrange(1, s.len() as int)
    } else {
        s
    };
    if d.len() > 0 && all_digits(d) {
        Some(digits_value(d))
    } else {
        None
    }
}

/// The signed 64-bit number that `s` denotes, if it denotes one.
pub open spec fn i64_of(s: Seq<char>) -> Option<i64> {
    match signed_decimal(s) {
        Some(x) => if i64::MIN <= x <= i64::MAX {
            Some(x as i64)
        } else {
            None
        },
        None => None,
    }
}

/// The unsigned number of at most `limit` that `s` denotes, if it denotes
/// one.
pub open spec fn unsigned_of(s: Seq<char>, limit: int) -> Option<int> {
    match unsigned_decimal(s) {
        Some(x) => if x <= limit {
            Some(x)
        } else {
            None
        },
        None => None,
    }
}

/// The unsigned 32-bit number that `s` denotes, if it denotes one.
pub open spec fn u32_of(s: Seq<char>) -> Option<u32> {
    match unsigned_of(s, u32::MAX as int) {
        Some(x) => Some(x as u32),
        None => None,
    }
}

/// The unsigned 16-bit number that `s` denotes, if it denotes one.
pub open spec fn u16_of(s: Seq<char>) -> Option<u16> {
    match unsigned_of(s, u16::MAX as int) {
        Some(x) => Some(x as u16),
        None => None,
    }
}

/// The unsigned 8-bit number that `s` denotes, if it denotes one.
pub open spec fn u8_of(s: Seq<char>) -> Option<u8> {
    match unsigned_of(s, u8::MAX as int) {
        Some(x) => Some(x as u8),
        None => None,
    }
}

/// One more digit multiplies the number by ten and adds the digit.
pub proof fn lemma_digits_step(d: Seq<char>, k: int)
    requires
        0 <= k < d.len(),
    ensures
        digits_value(d.take(k + 1)) == digits_value(d.take(k)) * 10 + digit_value(d[k]),
{
    assert(d.take(k + 1).drop_last() =~= d.take(k));
    assert(d.take(k + 1).last() == d[k]);
}

/// A run of digits writes a number that is not negative.
pub proof fn lemma_digits_nonnegative(d: Seq<char>)
    requires
        all_digits(d),
    ensures
        digits_value(d) >= 0,
    decreases d.len(),
{
    if d.len() > 0 {
        assert(is_digit(d[d.len() - 1]));
        lemma_digits_nonnegative(d.drop_last());
    }
}

/// An unsigned decimal denotes a number that is not negative.
pub proof fn lemma_unsigned_decimal_nonnegative(s: Seq<char>)
    ensures
        unsigned_decimal(s) matches Some(x) ==> x >= 0,
{
    let d = if s.len() > 0 && s[0] == '+' {
        s.subrange(1, s.len() as int)
    } else {
        s
    };
    if all_digits(d) {
        lemma_digits_nonnegative(d);
    }
}

/// Reads the digits of `v` from `start` to its end as a number of at most
/// `limit`.
fn parse_digits(v: &Vec<char>, start: usize, limit: u64) -> (r: Option<u64>)
    requires
        start <= v.len(),
        limit >= 9,
    ensures
        match bounded_digits(v@.subrange(start as int, v@.len() as int), limit as int) {
            Some(x) => r == Some(x as u64),
            None => r is None,
        },
{
    let n: usize = v.len();
    let ghost d = v@.subrange(start as int, n as int);
    if start >= n {
        return None;
    }
    let mut acc: u64 = 0;
    let mut over: bool = false;
    let mut i: usize = start;
    while i < n
        invariant
            n == v@.len(),
            d == v@.subrange(start as int, n as int),
            start <= i <= n,
            limit >= 9,
            all_digits(d.take(i - start)),
            !over ==> acc == digits_value(d.take(i - start)) && acc <= limit,
            over ==> digits_value(d.take(i - start)) > limit,
        decreases n - i,
    {
        let x: u32 = v[i] as u32;
        let ghost k = i - start;
        assert(d[k] == v@[i as int]);
        if x < 48 || x > 57 {
            assert(!is_digit(d[k]));
            return None;
        }
        proof {
            lemma_digits_step(d, k);
            lemma_digits_nonnegative(d.take(k));
            assert forall|j: int| 0 <= j < k + 1 implies is_digit(#[trigger] d.take(k + 1)[j]) by {
                if j < k {
                    assert(d.take(k + 1)[j] == d.take(k)[j]);
                }
            }
        }
        if !over {
            let digit: u64 = (x - 48) as u64;
            if acc > (limit - digit) / 10 {
                over = true;
            } else {
                acc = acc * 10 + digit;
            }
        }
        i = i + 1;
    }
    proof {
        assert(d.take(n - start) =~= d);
    }
    if over {
        None
    } else {
        Some(acc)
    }
}

/// Reads `s` as a signed decimal number that fits 64 bits.
pub fn parse_i64(s: &str) -> (r: Option<i64>)
    ensures
        r == i64_of(s@),
{
    let v = chars_of(s);
    if v.len() > 0 && v[0] == '-' {
        proof {
            let d = v@.subrange(1, v@.len() as int);
            if all_digits(d) {
                lemma_digits_nonnegative(d);
            }
        }
        match parse_digits(&v, 1, 0x8000_0000_0000_0000u64) {
            Some(m) => {
                if m == 0x8000_0000_0000_0000u64 {
                    Some(i64::MIN)
                } else {
                    Some(-(m as i64))
                }
            },
            None => None,
        }
    } else {
        proof {
            lemma_unsigned_decimal_nonnegative(v@);
        }
        match parse_u64_limited(&v, 0x7fff_ffff_ffff_ffffu64) {
            Some(m) => Some(m as i64),
            None => None,
        }
    }
}

/// Reads `v` as an unsigned decimal number of at most `limit`.
fn parse_u64_limited(v: &Vec<char>, limit: u64) -> (r: Option<u64>)
    requires
        limit >= 9,
    ensures
        match unsigned_decimal(v@) {
            Some(x) => if x <= limit {
                r == Some(x as u64)
            } else {
                r is None
            },
            None => r is None,
        },
{
    proof {
        assert(v@.subrange(0, v@.len() as int) =~= v@);
        let d = if v@.len() > 0 && v@[0] == '+' {
            v@.subrange(1, v@.len() as int)
        } else {
            v@
        };
        if all_digits(d) {
            lemma_digits_nonnegative(d);
        }
    }
    if v.len() > 0 && v[0] == '+' {
        parse_digits(v, 1, limit)
    } else {
        parse_digits(v, 0, limit)
    }
}

/// Reads `s` as an unsigned decimal number that fits 32 bits.
pub fn parse_u32(s: &str) -> (r: Option<u32>)
    ensures
        r == u32_of(s@),
{
    let v = chars_of(s);
    proof {
        lemma_unsigned_decimal_nonnegative(v@);
    }
    match parse_u64_limited(&v, 0xffff_ffffu64) {
        Some(m) => Some(m as u32),
        None => None,
    }
}

/// Reads `s` as an unsigned decimal number that fits 16 bits.
pub fn parse_u16(s: &str) -> (r: Option<u16>)
    ensures
        r == u16_of(s@),
{
    let v = chars_of(s);
    proof {
        lemma_unsigned_decimal_nonnegative(v@);
    }
    match parse_u64_limited(&v, 0xffffu64) {
        Some(m) => Some(m as u16),
        None => None,
    }
}

/// Reads `s` as an unsigned decimal number that fits 8 bits.
pub fn parse_u8(s: &str) -> (r: Option<u8>)
    ensures
        r == u8_of(s@),
{
    let v = chars_of(s);
    proof {
        lemma_unsigned_decimal_nonnegative(v@);
    }
    match parse_u64_limited(&v, 0xffu64) {
        Some(m) => Some(m as u8),
        None => None,
    }
}

/// `c` with an upper-case Latin letter replaced by its lower-case form.
pub open spec fn ascii_lower(c: char) -> char {
    if 65 <= c as u32 <= 90 {
        ((c as u32 + 32) as u8) as char
    } else {
        c
    }
}

/// Whether `a` and `b` are the same text but for the case of Latin letters.
pub open spec fn same_ignoring_ascii_case(a: Seq<char>, b: Seq<char>) -> bool {
    &&& a.len() == b.len()
    &&& forall|i: int| 0 <= i < a.len() ==> ascii_lower(#[trigger] a[i]) == ascii_lower(b[i])
}

/// Lower-case form of a Latin letter; any other character unchanged.
pub fn to_ascii_lower(c: char) -> (r: char)
    ensures
        r == ascii_lower(c),
{
    let x: u32 = c as u32;
    if x >= 65 && x <= 90 {
        ((x + 32) as u8) as char
    } else {
        c
    }
}

/// Compares two texts without regard to the case of Latin letters.
pub fn eq_ignore_ascii_case(a: &str, b: &str) -> (r: bool)
    ensures
        r == same_ignoring_ascii_case(a@, b@),
{
    let x = chars_of(a);
    let y = chars_of(b);
    if x.len() != y.len() {
        return false;
    }
    let n: usize = x.len();
    let mut i: usize = 0;
    while i < n
        invariant
            n == x@.len(),
            n == y@.len(),
            x@ == a@,
            y@ == b@,
            i <= n,
            forall|j: int| 0 <= j < i ==> ascii_lower(#[trigger] x@[j]) == ascii_lower(y@[j]),
        decreases n - i,
    {
        if to_ascii_lower(x[i]) != to_ascii_lower(y[i]) {
            assert(ascii_lower(a@[i as int]) != ascii_lower(b@[i as int]));
            return false;
        }
        i = i + 1;
    }
    true
}

/// Whether `needle` occurs in `hay` as a run of neighbouring characters.
pub open spec fn contains_text(hay: Seq<char>, needle: Seq<char>) -> bool {
    exists|i: int| occurs_at(hay, needle, i)
}

/// Whether `needle` stands in `hay` at position `i`.
pub open spec fn occurs_at(hay: Seq<char>, needle: Seq<char>, i: int) -> bool {
    0 <= i && i + needle.len() <= hay.len() && hay.subrange(i, i + needle.len()) == needle
}

/// Whether `needle` stands in `hay` at position `at`.
fn matches_at(hay: &Vec<char>, needle: &Vec<char>, at: usize) -> (r: bool)
    requires
        at + needle.len() <= hay.len(),
    ensures
        r == occurs_at(hay@, needle@, at as int),
{
    let m: usize = needle.len();
    let mut j: usize = 0;
    while j < m
        invariant
            m == needle@.len(),
            at + m <= hay@.len() <= usize::MAX,
            j <= m,
            forall|k: int| 0 <= k < j ==> hay@[at + k] == needle@[k],
        decreases m - j,
    {
        if hay[at + j] != needle[j] {
            assert(hay@.subrange(at as int, at + m)[j as int] != needle@[j as int]);
            return false;
        }
        j = j + 1;
    }
    assert(hay@.subrange(at as int, at + m) =~= needle@);
    true
}

/// Searches `hay` for `needle`.
pub fn contains(hay: &str, needle: &str) -> (r: bool)
    ensures
        r == contains_text(hay@, needle@),
{
    let h = chars_of(hay);
    let p = chars_of(needle);
    if p.len() > h.len() {
        return false;
    }
    let last: usize = h.len() - p.len();
    let mut i: usize = 0;
    loop
        invariant
            h@ == hay@,
            p@ == needle@,
            last + p@.len() == h@.len(),
            i <= last,
            forall|k: int| 0 <= k < i ==> !occurs_at(h@, p@, k),
        decreases last - i,
    {
        if matches_at(&h, &p, i) {
            assert(occurs_at(hay@, needle@, i as int));
            return true;
        }
        if i == last {
            return false;
        }
        i = i + 1;
    }
}


/// The text of an optional string.
pub open spec fn opt_text(o: Option<String>) -> Option<Seq<char>> {
    match o {
        Some(s) => Some(s@),
        None => None,
    }
}

/// The texts of a list of strings.
pub open spec fn texts(v: Seq<String>) -> Seq<Seq<char>> {
    v.map_values(|s: String| s@)
}

/// A copy of an optional string.
pub fn copy_opt(o: &Option<String>) -> (r: Option<String>)
    ensures
        r == *o,
{
    match o {
        Some(s) => Some(s.clone()),
        None => None,
    }
}

/// A copy of a list of strings.
pub fn copy_strings(v: &Vec<String>) -> (r: Vec<String>)
    ensures
        r@ == v@,
{
    let mut r: Vec<String> = Vec::new();
    let n: usize = v.len();
    let mut i: usize = 0;
    while i < n
        invariant
            n == v@.len(),
            i <= n,
            r@ == v@.take(i as int),
        decreases n - i,
    {
        r.push(v[i].clone());
        i = i + 1;
        assert(r@ =~= v@.take(i as int));
    }
    assert(v@.take(n as int) =~= v@);
    r
}

/// Whether `s` begins with `prefix`.
pub fn starts_with(s: &str, prefix: &str) -> (r: bool)
    ensures
        r == prefix@.is_prefix_of(s@),
{
    let h = chars_of(s);
    let p = chars_of(prefix);
    if p.len() > h.len() {
        return false;
    }
    let r = matches_at(&h, &p, 0);
    proof {
        if r {
            assert(s@.subrange(0, p@.len() as int) =~= prefix@);
        }
    }
    r
}

/// Whether one of the strings in `v` reads `s`.
pub fn contains_string(v: &Vec<String>, s: &str) -> (r: bool)
    ensures
        r == texts(v@).contains(s@),
{
    let n: usize = v.len();
    let mut i: usize = 0;
    while i < n
        invariant
            n == v@.len(),
            i <= n,
            forall|j: int| 0 <= j < i ==> texts(v@)[j] != s@,
        decreases n - i,
    {
        if str_eq(v[i].as_str(), s) {
            assert(texts(v@)[i as int] == s@);
            return true;
        }
        i = i + 1;
    }
    false
}

/// Whether two texts are the same.
pub fn str_eq(a: &str, b: &str) -> (r: bool)
    ensures
        r == (a@ == b@),
{
    let x = chars_of(a);
    let y = chars_of(b);
    if x.len() != y.len() {
        return false;
    }
    let n: usize = x.len();
    let mut i: usize = 0;
    while i < n
        invariant
            n == x@.len(),
            n == y@.len(),
            x@ == a@,
            y@ == b@,
            i <= n,
            forall|j: int| 0 <= j < i ==> x@[j] == y@[j],
        decreases n - i,
    {
        if x[i] != y[i] {
            return false;
        }
        i = i + 1;
    }
    assert(x@ =~= y@);
    true
}

/// What is left of `s` once every leading repetition of `prefix` is taken
/// off. An empty prefix takes nothing off.
pub open spec fn trimmed_start(s: Seq<char>, prefix: Seq<char>) -> Seq<char>
    decreases s.len(),
{
    if prefix.len() > 0 && prefix.is_prefix_of(s) {
        trimmed_start(s.skip(prefix.len() as int), prefix)
    } else {
        s
    }
}

/// Takes every leading repetition of `prefix` off `s`.
pub fn trim_start_matches<'a>(s: &'a str, prefix: &str) -> (r: &'a str)
    ensures
        r@ == trimmed_start(s@, prefix@),
{
    let h = chars_of(s);
    let p = chars_of(prefix);
    let n: usize = h.len();
    let m: usize = p.len();
    if m == 0 {
        return s;
    }
    let mut at: usize = 0;
    assert(s@.skip(0) =~= s@);
    loop
        invariant
            h@ == s@,
            p@ == prefix@,
            n == h@.len(),
            m == p@.len(),
            m > 0,
            at <= n,
            trimmed_start(s@, prefix@) == trimmed_start(s@.skip(at as int), prefix@),
        decreases n - at,
    {
        let ghost rest = s@.skip(at as int);
        if n - at < m {
            assert(rest =~= s@.subrange(at as int, n as int));
            return s.substring_char(at, n);
        }
        let found = matches_at(&h, &p, at);
        proof {
            assert(rest.subrange(0, m as int) =~= s@.subrange(at as int, at + m));
            assert(rest.skip(m as int) =~= s@.skip(at + m));
        }
        if !found {
            assert(rest =~= s@.subrange(at as int, n as int));
            return s.substring_char(at, n);
        }
        at = at + m;
    }
}

/// The character that writes the digit `d`.
pub open spec fn digit_char(d: int) -> char {
    ((d + 48) as u8) as char
}

/// The decimal digits that write `n`, most significant first, without
/// leading zeros.
pub open spec fn decimal_text(n: nat) -> Seq<char>
    decreases n,
{
    if n < 10 {
        seq![digit_char(n as int)]
    } else {
        decimal_text(n / 10).push(digit_char((n % 10) as int))
    }
}

/// The text that writes the whole number `v`: a minus sign where it is
/// negative, then its digits.
pub open spec fn signed_text(v: int) -> Seq<char> {
    if v < 0 {
        seq!['-'] + decimal_text((-v) as nat)
    } else {
        decimal_text(v as nat)
    }
}

/// The text of one digit.
fn digit_str(d: u64) -> (r: &'static str)
    requires
        d < 10,
    ensures
        r@ == seq![digit_char(d as int)],
{
    proof {
        reveal_strlit("0");
        reveal_strlit("1");
        reveal_strlit("2");
        reveal_strlit("3");
        reveal_strlit("4");
        reveal_strlit("5");
        reveal_strlit("6");
        reveal_strlit("7");
        reveal_strlit("8");
        reveal_strlit("9");
    }
    let r = if d == 0 {
        "0"
    } else if d == 1 {
        "1"
    } else if d == 2 {
        "2"
    } else if d == 3 {
        "3"
    } else if d == 4 {
        "4"
    } else if d == 5 {
        "5"
    } else if d == 6 {
        "6"
    } else if d == 7 {
        "7"
    } else if d == 8 {
        "8"
    } else {
        "9"
    };
    assert(r@ =~= seq![digit_char(d as int)]);
    r
}

/// Appends the digits of `n` to `out`.
fn push_decimal(out: &mut String, n: u64)
    ensures
        final(out)@ == old(out)@ + decimal_text(n as nat),
    decreases n,
{
    if n >= 10 {
        push_decimal(out, n / 10);
    }
    let ghost before = out@;
    out.append(digit_str(n % 10));
    assert(out@ =~= old(out)@ + decimal_text(n as nat));
}

/// Writes `n` in decimal digits.
pub fn u64_to_string(n: u64) -> (r: String)
    ensures
        r@ == decimal_text(n as nat),
{
    let mut r = String::new();
    push_decimal(&mut r, n);
    assert(r@ =~= decimal_text(n as nat));
    r
}

/// Writes `v` in decimal digits, with a minus sign where it is negative.
pub fn i64_to_string(v: i64) -> (r: String)
    ensures
        r@ == signed_text(v as int),
{
    if v < 0 {
        let mut r = String::from_str("-");
        proof {
            reveal_strlit("-");
            assert("-"@ =~= seq!['-']);
        }
        let magnitude: u64 = (-(v as i128)) as u64;
        push_decimal(&mut r, magnitude);
        r
    } else {
        u64_to_string(v as u64)
    }
}

/// The digits that write a number are digits, and they write that number.
pub proof fn lemma_decimal_text_digits(n: nat)
    ensures
        decimal_text(n).len() > 0,
        all_digits(decimal_text(n)),
        digits_value(decimal_text(n)) == n,
    decreases n,
{
    if n < 10 {
        let s = decimal_text(n);
        assert(s.drop_last() =~= Seq::<char>::empty());
        assert(digits_value(s.drop_last()) == 0);
        assert(digit_value(s.last()) == n);
    } else {
        lemma_decimal_text_digits(n / 10);
        let s = decimal_text(n);
        let d = digit_char((n % 10) as int);
        assert(s.drop_last() =~= decimal_text(n / 10));
        assert(s.last() == d);
        assert(is_digit(d));
        assert forall|i: int| 0 <= i < s.len() implies is_digit(#[trigger] s[i]) by {
            if i < s.len() - 1 {
                assert(s[i] == decimal_text(n / 10)[i]);
            }
        }
    }
}

/// Reading what was written gives the number back: the text of a whole
/// number denotes that number.
pub proof fn lemma_signed_text_round_trip(v: int)
    ensures
        signed_decimal(signed_text(v)) == Some(v),
{
    if v < 0 {
        let m = (-v) as nat;
        lemma_decimal_text_digits(m);
        let s = signed_text(v);
        assert(s[0] == '-');
        assert(s.subrange(1, s.len() as int) =~= decimal_text(m));
    } else {
        lemma_decimal_text_digits(v as nat);
        let s = decimal_text(v as nat);
        assert(is_digit(s[0]));
        assert(s[0] != '-' && s[0] != '+');
    }
}

/// The lower-case form that the standard library gives a text.
pub uninterp spec fn lowercase_of(s: Seq<char>) -> Seq<char>;

/// Lower-case form of `s`.
///
/// Calls `str::to_lowercase`, whose result depends on the text alone. The
/// contract gives that result a name and claims nothing else of it.
#[verifier::external_body]
pub(crate) fn to_lowercase(s: &str) -> (r: String)
    ensures
        r@ == lowercase_of(s@),
{
    s.to_lowercase()
}

} // verus!
