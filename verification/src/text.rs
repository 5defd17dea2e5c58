//! Character-level text handling shared by the parsers of command output,
//! the builders of command scripts and the translation lookup.
use vstd::prelude::*;

verus! {

broadcast use vstd::string::group_string_axioms;

// ---------------------------------------------------------------------------
// Specifications
// ---------------------------------------------------------------------------

/// `c` is one of the characters that Unicode gives the White_Space property
/// (the set that `char::is_whitespace` accepts).
pub open spec fn is_space(c: char) -> bool {
    ||| ('\u{9}' <= c && c <= '\u{d}')
    ||| c == ' '
    ||| c == '\u{85}'
    ||| c == '\u{a0}'
    ||| c == '\u{1680}'
    ||| ('\u{2000}' <= c && c <= '\u{200a}')
    ||| c == '\u{2028}'
    ||| c == '\u{2029}'
    ||| c == '\u{202f}'
    ||| c == '\u{205f}'
    ||| c == '\u{3000}'
}

/// `[a, b)` is the part of `s` that remains once leading and trailing white
/// space are removed.
pub open spec fn trim_bounds(s: Seq<char>, a: int, b: int) -> bool {
    &&& 0 <= a <= b <= s.len()
    &&& forall|i: int| 0 <= i < a ==> is_space(#[trigger] s[i])
    &&& forall|i: int| b <= i < s.len() ==> is_space(#[trigger] s[i])
    &&& a < b ==> !is_space(s[a]) && !is_space(s[b - 1])
    &&& a == b ==> b == s.len()
}

/// `s` without its leading and trailing white space (as `str::trim`).
pub open spec fn trimmed(s: Seq<char>) -> Seq<char> {
    let (a, b) = choose|a: int, b: int| trim_bounds(s, a, b);
    s.subrange(a, b)
}

/// `pat` occurs in `s` starting at position `i`.
pub open spec fn occurs_at(s: Seq<char>, pat: Seq<char>, i: int) -> bool {
    0 <= i && i + pat.len() <= s.len() && s.subrange(i, i + pat.len()) == pat
}

/// `pat` occurs somewhere in `s`.
pub open spec fn contains(s: Seq<char>, pat: Seq<char>) -> bool {
    exists|i: int| occurs_at(s, pat, i)
}

/// `i` is the first position where `pat` occurs in `s`.
pub open spec fn is_first_occurrence(s: Seq<char>, pat: Seq<char>, i: int) -> bool {
    occurs_at(s, pat, i) && forall|j: int| 0 <= j < i ==> !occurs_at(s, pat, j)
}

/// `s` begins with `p`.
pub open spec fn starts_with(s: Seq<char>, p: Seq<char>) -> bool {
    p.len() <= s.len() && s.subrange(0, p.len() as int) == p
}

/// `s` ends with `p`.
pub open spec fn ends_with(s: Seq<char>, p: Seq<char>) -> bool {
    p.len() <= s.len() && s.subrange(s.len() - p.len(), s.len() as int) == p
}

/// Splits `s` at every `'\n'`: the finished pieces (without the newline) and
/// the piece still open at the end.
pub open spec fn split_newlines(s: Seq<char>) -> (Seq<Seq<char>>, Seq<char>)
    decreases s.len(),
{
    if s.len() == 0 {
        (seq![], seq![])
    } else {
        let (done, cur) = split_newlines(s.drop_last());
        if s.last() == '\n' {
            (done.push(cur), seq![])
        } else {
            (done, cur.push(s.last()))
        }
    }
}

/// A line that ended with `"\r\n"` loses its `'\r'`.
pub open spec fn strip_cr(l: Seq<char>) -> Seq<char> {
    if l.len() > 0 && l.last() == '\r' {
        l.drop_last()
    } else {
        l
    }
}

/// The lines of a text, as `str::lines` yields them: split at `'\n'`, a
/// `'\r'` right before a `'\n'` removed, and no empty line after a final
/// newline.
pub open spec fn text_lines(s: Seq<char>) -> Seq<Seq<char>> {
    let (done, cur) = split_newlines(s);
    done.map_values(|l: Seq<char>| strip_cr(l)) + if cur.len() > 0 {
        seq![cur]
    } else {
        seq![]
    }
}

pub open spec fn is_ascii_digit(c: char) -> bool {
    '0' <= c && c <= '9'
}

pub open spec fn all_digits(d: Seq<char>) -> bool {
    forall|i: int| 0 <= i < d.len() ==> is_ascii_digit(#[trigger] d[i])
}

/// The number that a run of decimal digits denotes.
pub open spec fn digits_value(d: Seq<char>) -> nat
    decreases d.len(),
{
    if d.len() == 0 {
        0
    } else {
        digits_value(d.drop_last()) * 10 + ((d.last() as int - '0' as int) as nat)
    }
}

/// The digits that an unsigned number in text has after an optional `'+'`.
pub open spec fn unsigned_body(s: Seq<char>) -> Seq<char> {
    if s.len() > 0 && s[0] == '+' {
        s.skip(1)
    } else {
        s
    }
}

/// What `str::parse` gives for an unsigned integer type whose largest
/// value is `max`: an optional `'+'`, then at least one decimal digit and
/// nothing else, of a value that fits.
pub open spec fn parse_unsigned(s: Seq<char>, max: int) -> Option<nat> {
    let d = unsigned_body(s);
    if d.len() > 0 && all_digits(d) && digits_value(d) <= max {
        Some(digits_value(d))
    } else {
        None
    }
}

/// What `str::parse` gives for a signed integer type with range
/// `[min, max]`: an optional sign, then at least one decimal digit.
pub open spec fn parse_signed(s: Seq<char>, min: int, max: int) -> Option<int> {
    if s.len() > 0 && s[0] == '-' {
        let d = s.skip(1);
        if d.len() > 0 && all_digits(d) && -(digits_value(d) as int) >= min {
            Some(-(digits_value(d) as int))
        } else {
            None
        }
    } else {
        match parse_unsigned(s, max) {
            Some(v) => Some(v as int),
            None => None,
        }
    }
}

/// The character of a decimal digit.
pub open spec fn digit_char(n: nat) -> char {
    (n + '0' as nat) as char
}

/// The decimal notation of `n`, as `format!("{}", n)` writes it.
pub open spec fn decimal(n: nat) -> Seq<char>
    decreases n,
{
    if n < 10 {
        seq![digit_char(n)]
    } else {
        decimal(n / 10).push(digit_char(n % 10))
    }
}

/// `c` with an ASCII lower-case letter turned into its upper-case form.
pub open spec fn ascii_upper(c: char) -> char {
    if 'a' <= c && c <= 'z' {
        ((c as u32) - 32) as char
    } else {
        c
    }
}

/// `c` with an ASCII upper-case letter turned into its lower-case form.
pub open spec fn ascii_lower(c: char) -> char {
    if 'A' <= c && c <= 'Z' {
        ((c as u32) + 32) as char
    } else {
        c
    }
}

pub open spec fn ascii_upper_all(s: Seq<char>) -> Seq<char> {
    s.map_values(|c: char| ascii_upper(c))
}

pub open spec fn ascii_lower_all(s: Seq<char>) -> Seq<char> {
    s.map_values(|c: char| ascii_lower(c))
}

/// `s` with every trailing `c` removed (as `str::trim_end_matches`).
pub open spec fn trim_end_char(s: Seq<char>, c: char) -> Seq<char>
    decreases s.len(),
{
    if s.len() > 0 && s.last() == c {
        trim_end_char(s.drop_last(), c)
    } else {
        s
    }
}

// ---------------------------------------------------------------------------
// Calls into std
// ---------------------------------------------------------------------------

/// `<str as PartialEq>::eq`: two string slices are equal exactly when they
/// hold the same characters.
#[verifier::external_body]
pub(crate) fn str_eq(a: &str, b: &str) -> (r: bool)
    ensures
        r == (a@ == b@),
{
    a == b
}

/// `String::push`: appends one character.
#[verifier::external_body]
pub(crate) fn push_char(s: &mut String, c: char)
    ensures
        final(s)@ == old(s)@.push(c),
{
    s.push(c)
}

/// `char::to_ascii_uppercase`: maps 'a'..='z' to 'A'..='Z' and leaves
/// every other character as it is.
#[verifier::external_body]
pub(crate) fn char_to_ascii_uppercase(c: char) -> (r: char)
    ensures
        r == ascii_upper(c),
{
    c.to_ascii_uppercase()
}

/// `char::to_ascii_lowercase`: maps 'A'..='Z' to 'a'..='z' and leaves
/// every other character as it is.
#[verifier::external_body]
pub(crate) fn char_to_ascii_lowercase(c: char) -> (r: char)
    ensures
        r == ascii_lower(c),
{
    c.to_ascii_lowercase()
}

// ---------------------------------------------------------------------------
// Verified operations
// ---------------------------------------------------------------------------

/// The characters of `s`.
pub fn chars_of(s: &str) -> (v: Vec<char>)
    ensures
        v@ == s@,
{
    let mut v: Vec<char> = Vec::new();
    for c in it: s.chars()
        invariant
            v@ == it.seq().take(it.index() as int),
            it.seq() == s@,
    {
        v.push(c);
    }
    v
}

/// A `String` holding `cs[from..to]`.
pub fn string_of(cs: &[char], from: usize, to: usize) -> (r: String)
    requires
        from <= to <= cs@.len(),
    ensures
        r@ == cs@.subrange(from as int, to as int),
{
    let mut r = String::new();
    let mut i = from;
    while i < to
        invariant
            from <= i <= to <= cs@.len(),
            r@ == cs@.subrange(from as int, i as int),
        decreases to - i,
    {
        push_char(&mut r, cs[i]);
        assert(cs@.subrange(from as int, i + 1) == cs@.subrange(from as int, i as int).push(
            cs@[i as int],
        ));
        i += 1;
    }
    r
}

/// Appends the characters `cs[from..to]` to `out`.
pub fn push_chars(out: &mut String, cs: &[char], from: usize, to: usize)
    requires
        from <= to <= cs@.len(),
    ensures
        final(out)@ == old(out)@ + cs@.subrange(from as int, to as int),
{
    let mut i = from;
    while i < to
        invariant
            from <= i <= to <= cs@.len(),
            out@ == old(out)@ + cs@.subrange(from as int, i as int),
        decreases to - i,
    {
        push_char(out, cs[i]);
        assert(cs@.subrange(from as int, i + 1) == cs@.subrange(from as int, i as int).push(
            cs@[i as int],
        ));
        i += 1;
    }
}

/// `a` followed by `b`.
pub fn concat(a: &str, b: &str) -> (r: String)
    ensures
        r@ == a@ + b@,
{
    let mut r = String::from_str(a);
    r.append(b);
    r
}

/// The white space character test of `char::is_whitespace`.
pub fn char_is_space(c: char) -> (r: bool)
    ensures
        r == is_space(c),
{
    ('\u{9}' <= c && c <= '\u{d}') || c == ' ' || c == '\u{85}' || c == '\u{a0}' || c
        == '\u{1680}' || ('\u{2000}' <= c && c <= '\u{200a}') || c == '\u{2028}' || c
        == '\u{2029}' || c == '\u{202f}' || c == '\u{205f}' || c == '\u{3000}'
}

/// Any two pairs of trim bounds of one text are the same pair.
pub proof fn lemma_trim_bounds_unique(s: Seq<char>, a: int, b: int, a2: int, b2: int)
    requires
        trim_bounds(s, a, b),
        trim_bounds(s, a2, b2),
    ensures
        a == a2 && b == b2,
{
    if a < b {
        if a2 < a {
            assert(is_space(s[a2]));
        }
        if a < a2 {
            assert(is_space(s[a]));
        }
        if b2 > b {
            assert(is_space(s[b2 - 1]));
        }
        if b2 < b {
            assert(is_space(s[b - 1]));
        }
    } else {
        if a2 < b2 {
            assert(is_space(s[a2]));
        }
    }
}

/// The positions `[a, b)` of `cs` that `str::trim` keeps.
pub fn trim_range(cs: &[char]) -> (r: (usize, usize))
    ensures
        trim_bounds(cs@, r.0 as int, r.1 as int),
        cs@.subrange(r.0 as int, r.1 as int) == trimmed(cs@),
{
    let n = cs.len();
    let mut a: usize = 0;
    while a < n && char_is_space(cs[a])
        invariant
            a <= n == cs@.len(),
            forall|i: int| 0 <= i < a ==> is_space(#[trigger] cs@[i]),
        decreases n - a,
    {
        a += 1;
    }
    let mut b: usize = n;
    while b > a && char_is_space(cs[b - 1])
        invariant
            a <= b <= n == cs@.len(),
            forall|i: int| b <= i < n ==> is_space(#[trigger] cs@[i]),
        decreases b - a,
    {
        b -= 1;
    }
    proof {
        if a == b && b < n {
            assert(a == n || !is_space(cs@[a as int]));
            assert(is_space(cs@[b as int]));
        }
        assert(trim_bounds(cs@, a as int, b as int));
        let (a2, b2) = choose|a2: int, b2: int| trim_bounds(cs@, a2, b2);
        lemma_trim_bounds_unique(cs@, a as int, b as int, a2, b2);
    }
    (a, b)
}

/// `s` without leading and trailing white space (as `str::trim`).
pub fn trim(s: &str) -> (r: String)
    ensures
        r@ == trimmed(s@),
{
    let cs = chars_of(s);
    let (a, b) = trim_range(cs.as_slice());
    string_of(cs.as_slice(), a, b)
}

/// Whether `pat` occurs in `cs` at position `i`.
pub fn matches_at(cs: &[char], pat: &[char], i: usize) -> (r: bool)
    ensures
        r == occurs_at(cs@, pat@, i as int),
{
    if i > cs.len() || pat.len() > cs.len() - i {
        return false;
    }
    let mut k: usize = 0;
    while k < pat.len()
        invariant
            i + pat@.len() <= cs@.len(),
            cs@.len() <= usize::MAX,
            k <= pat@.len(),
            forall|j: int| 0 <= j < k ==> cs@[i + j] == pat@[j],
        decreases pat.len() - k,
    {
        if cs[i + k] != pat[k] {
            assert(cs@.subrange(i as int, i + pat@.len())[k as int] != pat@[k as int]);
            return false;
        }
        k += 1;
    }
    assert(cs@.subrange(i as int, i + pat@.len()) =~= pat@);
    true
}

/// The first position where `pat` occurs in `cs` (as `str::find`, counted
/// in characters).
pub fn find(cs: &[char], pat: &[char]) -> (r: Option<usize>)
    ensures
        match r {
            Some(i) => is_first_occurrence(cs@, pat@, i as int),
            None => !contains(cs@, pat@),
        },
{
    let mut i: usize = 0;
    while i < cs.len()
        invariant
            i <= cs@.len(),
            forall|j: int| 0 <= j < i ==> !occurs_at(cs@, pat@, j),
        decreases cs@.len() - i,
    {
        if matches_at(cs, pat, i) {
            return Some(i);
        }
        i += 1;
    }
    if matches_at(cs, pat, i) {
        return Some(i);
    }
    assert forall|j: int| !occurs_at(cs@, pat@, j) by {
        if 0 <= j <= i {
        }
    }
    None
}

/// Whether `cs` begins with `p`.
pub fn has_prefix(cs: &[char], p: &[char]) -> (r: bool)
    ensures
        r == starts_with(cs@, p@),
{
    matches_at(cs, p, 0)
}

/// Whether `cs` ends with `p`.
pub fn has_suffix(cs: &[char], p: &[char]) -> (r: bool)
    ensures
        r == ends_with(cs@, p@),
{
    if p.len() > cs.len() {
        false
    } else {
        matches_at(cs, p, cs.len() - p.len())
    }
}

/// The lines of `cs` (as `str::lines`).
pub fn lines(cs: &[char]) -> (r: Vec<Vec<char>>)
    ensures
        r@.len() == text_lines(cs@).len(),
        forall|i: int| 0 <= i < r@.len() ==> #[trigger] r@[i]@ == text_lines(cs@)[i],
{
    let mut done: Vec<Vec<char>> = Vec::new();
    let mut cur: Vec<char> = Vec::new();
    let mut i: usize = 0;
    while i < cs.len()
        invariant
            i <= cs@.len(),
            ({
                let (d, c) = split_newlines(cs@.take(i as int));
                &&& c == cur@
                &&& done@.len() == d.len()
                &&& forall|k: int| 0 <= k < d.len() ==> #[trigger] done@[k]@ == strip_cr(d[k])
            }),
        decreases cs.len() - i,
    {
        assert(cs@.take(i + 1).drop_last() == cs@.take(i as int));
        if cs[i] == '\n' {
            let mut line = cur;
            if line.len() > 0 && line[line.len() - 1] == '\r' {
                line.pop();
            }
            done.push(line);
            cur = Vec::new();
        } else {
            cur.push(cs[i]);
        }
        i += 1;
    }
    assert(cs@.take(cs@.len() as int) == cs@);
    if cur.len() > 0 {
        done.push(cur);
    }
    done
}

/// The number that the digits `cs[from..to]` denote, or `None` when it is
/// larger than `max`.
fn digits_to_u64(cs: &[char], from: usize, to: usize, max: u64) -> (r: Option<u64>)
    requires
        from <= to <= cs@.len(),
        all_digits(cs@.subrange(from as int, to as int)),
    ensures
        match r {
            Some(v) => v == digits_value(cs@.subrange(from as int, to as int)) && v <= max,
            None => digits_value(cs@.subrange(from as int, to as int)) > max,
        },
{
    let mut acc: u64 = 0;
    let mut i = from;
    while i < to
        invariant
            from <= i <= to <= cs@.len(),
            all_digits(cs@.subrange(from as int, to as int)),
            acc == digits_value(cs@.subrange(from as int, i as int)),
            acc <= max,
        decreases to - i,
    {
        assert(cs@.subrange(from as int, i + 1).drop_last() == cs@.subrange(from as int, i as int));
        assert(is_ascii_digit(cs@.subrange(from as int, to as int)[i - from]));
        let d: u64 = (cs[i] as u32 - '0' as u32) as u64;
        let next = acc.checked_mul(10);
        match next {
            None => {
                proof {
                    lemma_digits_value_monotone(cs@.subrange(from as int, to as int), (i + 1 - from) as nat);
                    assert(cs@.subrange(from as int, to as int).take(i + 1 - from) == cs@.subrange(from as int, i + 1));
                }
                return None;
            },
            Some(m) => {
                if m > max || d > max - m {
                    proof {
                        lemma_digits_value_monotone(cs@.subrange(from as int, to as int), (i + 1 - from) as nat);
                        assert(cs@.subrange(from as int, to as int).take(i + 1 - from) == cs@.subrange(from as int, i + 1));
                    }
                    return None;
                }
                acc = m + d;
            },
        }
        i += 1;
    }
    Some(acc)
}

/// A longer run of digits never denotes a smaller number than its prefix.
proof fn lemma_digits_value_monotone(d: Seq<char>, k: nat)
    requires
        k <= d.len(),
        all_digits(d),
    ensures
        digits_value(d.take(k as int)) <= digits_value(d),
    decreases d.len() - k,
{
    if k < d.len() {
        lemma_digits_value_monotone(d, k + 1);
        assert(d.take(k + 1 as int).drop_last() == d.take(k as int));
        assert(is_ascii_digit(d[k as int]));
    }
    assert(d.take(d.len() as int) == d);
}

/// `cs` read as an unsigned integer no larger than `max` (as `str::parse`).
pub fn parse_unsigned_chars(cs: &[char], max: u64) -> (r: Option<u64>)
    ensures
        r == match parse_unsigned(cs@, max as int) {
            Some(v) => Some(v as u64),
            None => None::<u64>,
        },
{
    let from: usize = if cs.len() > 0 && cs[0] == '+' { 1 } else { 0 };
    assert(cs@.subrange(from as int, cs@.len() as int) == unsigned_body(cs@));
    if from == cs.len() {
        return None;
    }
    let mut i = from;
    while i < cs.len()
        invariant
            from <= i <= cs@.len(),
            unsigned_body(cs@) == cs@.subrange(from as int, cs@.len() as int),
            forall|j: int| from <= j < i ==> is_ascii_digit(#[trigger] cs@[j]),
        decreases cs.len() - i,
    {
        if !('0' <= cs[i] && cs[i] <= '9') {
            assert(unsigned_body(cs@) == cs@.subrange(from as int, cs@.len() as int));
            assert(!is_ascii_digit(unsigned_body(cs@)[i - from]));
            return None;
        }
        i += 1;
    }
    assert(unsigned_body(cs@) == cs@.subrange(from as int, cs@.len() as int));
    assert(all_digits(unsigned_body(cs@)));
    digits_to_u64(cs, from, cs.len(), max)
}

/// `cs` read as a signed integer in `[-neg_max, max]` (as `str::parse`).
pub fn parse_signed_chars(cs: &[char], neg_max: u64, max: u64) -> (r: Option<i64>)
    requires
        neg_max <= 0x8000_0000_0000_0000,
        max <= 0x7fff_ffff_ffff_ffff,
    ensures
        r == match parse_signed(cs@, -(neg_max as int), max as int) {
            Some(v) => Some(v as i64),
            None => None::<i64>,
        },
{
    if cs.len() > 0 && cs[0] == '-' {
        assert(cs@.subrange(1, cs@.len() as int) == cs@.skip(1));
        if cs.len() == 1 {
            return None;
        }
        let mut i: usize = 1;
        while i < cs.len()
            invariant
                1 <= i <= cs@.len(),
                forall|j: int| 1 <= j < i ==> is_ascii_digit(#[trigger] cs@[j]),
            decreases cs.len() - i,
        {
            if !('0' <= cs[i] && cs[i] <= '9') {
                assert(!is_ascii_digit(cs@.skip(1)[i - 1]));
                return None;
            }
            i += 1;
        }
        assert(all_digits(cs@.skip(1)));
        match digits_to_u64(cs, 1, cs.len(), neg_max) {
            Some(m) => {
                if m == 0x8000_0000_0000_0000 {
                    Some(i64::MIN)
                } else {
                    Some(-(m as i64))
                }
            },
            None => None,
        }
    } else {
        match parse_unsigned_chars(cs, max) {
            Some(v) => Some(v as i64),
            None => None,
        }
    }
}

/// The decimal digits of `n` (as `format!("{}", n)`).
pub fn decimal_chars(n: u64) -> (r: Vec<char>)
    ensures
        r@ == decimal(n as nat),
    decreases n,
{
    let d: u32 = (n % 10) as u32;
    let c: char = ((d + '0' as u32) as u8) as char;
    assert(c == digit_char((n % 10) as nat));
    if n < 10 {
        let mut v = Vec::new();
        v.push(c);
        assert(v@ == seq![c]);
        v
    } else {
        let mut v = decimal_chars(n / 10);
        v.push(c);
        v
    }
}

/// Appends the decimal digits of `n` to `out`.
pub fn push_decimal(out: &mut String, n: u64)
    ensures
        final(out)@ == old(out)@ + decimal(n as nat),
{
    let ds = decimal_chars(n);
    push_chars(out, ds.as_slice(), 0, ds.len());
    assert(ds@.subrange(0, ds@.len() as int) == ds@);
}

// ---------------------------------------------------------------------------
// Values between tags in line-oriented output
// ---------------------------------------------------------------------------

/// The first position of `pat` in `s` (meaningful when `contains(s, pat)`).
pub open spec fn first_index(s: Seq<char>, pat: Seq<char>) -> int {
    choose|i: int| is_first_occurrence(s, pat, i)
}

/// A line that mentions `key` and holds both `open` and `close`.
pub open spec fn tagged_line(l: Seq<char>, key: Seq<char>, open: Seq<char>, close: Seq<char>) -> bool {
    contains(l, key) && contains(l, open) && contains(l, close)
}

/// `i` is the first of `ls` that is a tagged line.
pub open spec fn first_tagged_line(
    ls: Seq<Seq<char>>,
    key: Seq<char>,
    open: Seq<char>,
    close: Seq<char>,
    i: int,
) -> bool {
    &&& 0 <= i < ls.len()
    &&& tagged_line(ls[i], key, open, close)
    &&& forall|j: int| 0 <= j < i ==> !tagged_line(#[trigger] ls[j], key, open, close)
}

/// In `l`, the first `close` does not begin before the first `open` ends.
pub open spec fn tags_in_order(l: Seq<char>, open: Seq<char>, close: Seq<char>) -> bool {
    first_index(l, open) + open.len() <= first_index(l, close)
}

/// What lies in `l` between the end of the first `open` and the start of
/// the first `close`.
pub open spec fn tag_content(l: Seq<char>, open: Seq<char>, close: Seq<char>) -> Seq<char> {
    l.subrange(first_index(l, open) + open.len(), first_index(l, close))
}

/// The first tagged line of the text `s` (if there is one) has its tags in
/// order.
pub open spec fn first_tagged_in_order(
    s: Seq<char>,
    key: Seq<char>,
    open: Seq<char>,
    close: Seq<char>,
) -> bool {
    forall|i: int|
        first_tagged_line(text_lines(s), key, open, close, i) ==> tags_in_order(
            #[trigger] text_lines(s)[i],
            open,
            close,
        )
}

/// The value between the tags on the first tagged line of `s`, if any.
pub open spec fn tagged_value_of(
    s: Seq<char>,
    key: Seq<char>,
    open: Seq<char>,
    close: Seq<char>,
) -> Option<Seq<char>> {
    let ls = text_lines(s);
    if exists|i: int| first_tagged_line(ls, key, open, close, i) {
        let i = choose|i: int| first_tagged_line(ls, key, open, close, i);
        Some(tag_content(ls[i], open, close))
    } else {
        None
    }
}

/// There is at most one first tagged line.
proof fn lemma_first_tagged_unique(
    ls: Seq<Seq<char>>,
    key: Seq<char>,
    open: Seq<char>,
    close: Seq<char>,
    i: int,
    j: int,
)
    requires
        first_tagged_line(ls, key, open, close, i),
        first_tagged_line(ls, key, open, close, j),
    ensures
        i == j,
{
    if i < j {
        assert(!tagged_line(ls[i], key, open, close));
    }
    if j < i {
        assert(!tagged_line(ls[j], key, open, close));
    }
}

/// There is at most one first occurrence.
proof fn lemma_first_occurrence_unique(s: Seq<char>, pat: Seq<char>, i: int, j: int)
    requires
        is_first_occurrence(s, pat, i),
        is_first_occurrence(s, pat, j),
    ensures
        i == j,
{
}

/// Finds, line by line, the first line of `text` that mentions `key` and
/// holds both `open` and `close`, and reads what lies between them.
fn tagged_value_scan(text: &str, key: &str, open: &str, close: &str, check_only: bool) -> (r: (
    bool,
    Option<Vec<char>>,
))
    requires
        !check_only ==> first_tagged_in_order(text@, key@, open@, close@),
    ensures
        r.0 == first_tagged_in_order(text@, key@, open@, close@),
        !check_only ==> match r.1 {
            Some(v) => tagged_value_of(text@, key@, open@, close@) == Some(v@),
            None => tagged_value_of(text@, key@, open@, close@) is None,
        },
{
    let cs = chars_of(text);
    let ks = chars_of(key);
    let os = chars_of(open);
    let cls = chars_of(close);
    let ls = lines(cs.as_slice());
    let ghost tl = text_lines(text@);
    let mut i: usize = 0;
    while i < ls.len()
        invariant
            i <= ls@.len() == tl.len(),
            tl == text_lines(text@),
            cs@ == text@,
            ks@ == key@,
            os@ == open@,
            cls@ == close@,
            forall|k: int| 0 <= k < ls@.len() ==> #[trigger] ls@[k]@ == tl[k],
            forall|j: int| 0 <= j < i ==> !tagged_line(#[trigger] tl[j], key@, open@, close@),
            !check_only ==> first_tagged_in_order(text@, key@, open@, close@),
        decreases ls.len() - i,
    {
        let line = ls[i].as_slice();
        assert(line@ == tl[i as int]);
        if find(line, ks.as_slice()).is_some() {
            let o = find(line, os.as_slice());
            let c = find(line, cls.as_slice());
            if let (Some(a), Some(b)) = (o, c) {
                proof {
                    assert(first_tagged_line(tl, key@, open@, close@, i as int));
                    let fa = choose|x: int| is_first_occurrence(tl[i as int], open@, x);
                    lemma_first_occurrence_unique(tl[i as int], open@, a as int, fa);
                    let fb = choose|x: int| is_first_occurrence(tl[i as int], close@, x);
                    lemma_first_occurrence_unique(tl[i as int], close@, b as int, fb);
                    assert forall|j: int| first_tagged_line(tl, key@, open@, close@, j) implies j
                        == i by {
                        lemma_first_tagged_unique(tl, key@, open@, close@, i as int, j);
                    }
                    let ci = choose|j: int| first_tagged_line(tl, key@, open@, close@, j);
                    assert(ci == i);
                }
                let in_order = a <= b && os.len() <= b - a;
                if check_only || !in_order {
                    return (in_order, None);
                }
                let mut v: Vec<char> = Vec::new();
                let mut k = a + os.len();
                while k < b
                    invariant
                        a + os@.len() <= k <= b <= line@.len(),
                        v@ == line@.subrange(a + os@.len(), k as int),
                    decreases b - k,
                {
                    v.push(line[k]);
                    assert(line@.subrange(a + os@.len(), k + 1) == line@.subrange(
                        a + os@.len(),
                        k as int,
                    ).push(line@[k as int]));
                    k += 1;
                }
                return (true, Some(v));
            }
        }
        i += 1;
    }
    (true, None)
}

/// Whether the first line of `text` that mentions `key` and holds both
/// `open` and `close` has them in order (slicing between them would fail
/// otherwise).
pub fn tags_well_ordered(text: &str, key: &str, open: &str, close: &str) -> (r: bool)
    ensures
        r == first_tagged_in_order(text@, key@, open@, close@),
{
    tagged_value_scan(text, key, open, close, true).0
}

/// What lies between `open` and `close` on the first line of `text` that
/// mentions `key` and holds both.
pub fn tagged_value(text: &str, key: &str, open: &str, close: &str) -> (r: Option<Vec<char>>)
    requires
        first_tagged_in_order(text@, key@, open@, close@),
    ensures
        match r {
            Some(v) => tagged_value_of(text@, key@, open@, close@) == Some(v@),
            None => tagged_value_of(text@, key@, open@, close@) is None,
        },
{
    tagged_value_scan(text, key, open, close, false).1
}

/// How many characters of `cs` remain once every trailing `c` is removed.
pub fn trim_end_len(cs: &[char], c: char) -> (r: usize)
    ensures
        r <= cs@.len(),
        cs@.subrange(0, r as int) == trim_end_char(cs@, c),
{
    let mut end = cs.len();
    assert(cs@.subrange(0, cs@.len() as int) == cs@);
    while end > 0 && cs[end - 1] == c
        invariant
            end <= cs@.len(),
            trim_end_char(cs@, c) == trim_end_char(cs@.subrange(0, end as int), c),
        decreases end,
    {
        assert(cs@.subrange(0, end as int).drop_last() == cs@.subrange(0, end - 1));
        end -= 1;
    }
    end
}

/// The number of characters that the decimal form of `n` takes.
pub proof fn lemma_decimal_nonempty(n: nat)
    ensures
        decimal(n).len() >= 1,
    decreases n,
{
    if n >= 10 {
        lemma_decimal_nonempty(n / 10);
    }
}

} // verus!
