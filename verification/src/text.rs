//! Character-level string operations with exact specifications.
//!
//! Positions are counted in characters (Unicode scalar values), which is
//! how the specifications of `str` and `String` in vstd view text.
use vstd::prelude::*;
use vstd::string::*;

verus! {

/// The Unicode `White_Space` property, which `str::trim` strips.
pub open spec fn is_white_space(c: char) -> bool {
    let n: int = c as int;
    ||| 9 <= n <= 13
    ||| n == 32
    ||| n == 0x85
    ||| n == 0xa0
    ||| n == 0x1680
    ||| 0x2000 <= n <= 0x200a
    ||| n == 0x2028
    ||| n == 0x2029
    ||| n == 0x202f
    ||| n == 0x205f
    ||| n == 0x3000
}

pub fn is_white_space_char(c: char) -> (b: bool)
    ensures
        b == is_white_space(c),
{
    let n: u32 = c as u32;
    (9 <= n && n <= 13) || n == 32 || n == 0x85 || n == 0xa0 || n == 0x1680 || (0x2000 <= n
        && n <= 0x200a) || n == 0x2028 || n == 0x2029 || n == 0x202f || n == 0x205f || n
        == 0x3000
}

/// Index of the first non-white-space character at or after `i`.
pub open spec fn skip_white_space(s: Seq<char>, i: int) -> int
    decreases s.len() - i,
{
    if 0 <= i < s.len() && is_white_space(s[i]) {
        skip_white_space(s, i + 1)
    } else {
        i
    }
}

/// End of the text before `j` once trailing white space down to `lo` is dropped.
pub open spec fn drop_white_space_back(s: Seq<char>, lo: int, j: int) -> int
    decreases j - lo,
{
    if lo < j && j <= s.len() && is_white_space(s[j - 1]) {
        drop_white_space_back(s, lo, j - 1)
    } else {
        j
    }
}

/// `s` without leading and trailing white space.
pub open spec fn trim(s: Seq<char>) -> Seq<char> {
    let lo = skip_white_space(s, 0);
    s.subrange(lo, drop_white_space_back(s, lo, s.len() as int))
}

pub proof fn lemma_skip_white_space_bounds(s: Seq<char>, i: int)
    requires
        0 <= i <= s.len(),
    ensures
        i <= skip_white_space(s, i) <= s.len(),
        forall|k: int| i <= k < skip_white_space(s, i) ==> is_white_space(#[trigger] s[k]),
        skip_white_space(s, i) < s.len() ==> !is_white_space(s[skip_white_space(s, i)]),
    decreases s.len() - i,
{
    if i < s.len() && is_white_space(s[i]) {
        lemma_skip_white_space_bounds(s, i + 1);
    }
}

pub proof fn lemma_drop_white_space_back_bounds(s: Seq<char>, lo: int, j: int)
    requires
        0 <= lo <= j <= s.len(),
    ensures
        lo <= drop_white_space_back(s, lo, j) <= j,
        forall|k: int|
            drop_white_space_back(s, lo, j) <= k < j ==> is_white_space(#[trigger] s[k]),
        lo < drop_white_space_back(s, lo, j) ==> !is_white_space(
            s[drop_white_space_back(s, lo, j) - 1],
        ),
    decreases j - lo,
{
    if lo < j && is_white_space(s[j - 1]) {
        lemma_drop_white_space_back_bounds(s, lo, j - 1);
    }
}

/// The text of `s` between character positions `from` and `to`.
pub fn slice_chars(s: &str, from: usize, to: usize) -> (r: String)
    requires
        from <= to <= s@.len(),
    ensures
        r@ == s@.subrange(from as int, to as int),
{
    String::from_str(s.substring_char(from, to))
}

/// Same as `str::trim`: the text without leading and trailing white space.
pub fn trim_text(s: &str) -> (r: String)
    ensures
        r@ == trim(s@),
{
    let n = s.unicode_len();
    let mut i: usize = 0;
    while i < n && is_white_space_char(s.get_char(i))
        invariant
            n == s@.len(),
            0 <= i <= n,
            skip_white_space(s@, i as int) == skip_white_space(s@, 0),
        decreases n - i,
    {
        i = i + 1;
    }
    let mut j: usize = n;
    while j > i && is_white_space_char(s.get_char(j - 1))
        invariant
            n == s@.len(),
            0 <= i <= j <= n,
            i == skip_white_space(s@, 0),
            drop_white_space_back(s@, i as int, j as int) == drop_white_space_back(
                s@,
                i as int,
                n as int,
            ),
        decreases j,
    {
        j = j - 1;
    }
    slice_chars(s, i, j)
}

/// Whether `p` occurs in `s` at character position `i`.
pub open spec fn occurs_at(s: Seq<char>, p: Seq<char>, i: int) -> bool {
    0 <= i && i + p.len() <= s.len() && s.subrange(i, i + p.len()) == p
}

/// First position at or after `i` where `p` occurs in `s`.
pub open spec fn find_from(s: Seq<char>, p: Seq<char>, i: int) -> Option<int>
    decreases s.len() + 1 - i,
{
    if i < 0 || i + p.len() > s.len() {
        None
    } else if occurs_at(s, p, i) {
        Some(i)
    } else {
        find_from(s, p, i + 1)
    }
}

/// First position where `p` occurs in `s`, as `str::find` reports it (in characters).
pub open spec fn find(s: Seq<char>, p: Seq<char>) -> Option<int> {
    find_from(s, p, 0)
}

pub open spec fn contains(s: Seq<char>, p: Seq<char>) -> bool {
    find(s, p) is Some
}

pub proof fn lemma_find_from(s: Seq<char>, p: Seq<char>, i: int)
    requires
        0 <= i,
    ensures
        find_from(s, p, i) matches Some(k) ==> i <= k && occurs_at(s, p, k) && forall|m: int|
            i <= m < k ==> !occurs_at(s, p, m),
        find_from(s, p, i) is None ==> forall|m: int| i <= m ==> !occurs_at(s, p, m),
    decreases s.len() + 1 - i,
{
    if i + p.len() > s.len() {
    } else if occurs_at(s, p, i) {
    } else {
        lemma_find_from(s, p, i + 1);
    }
}

/// A separator placed after a text that holds none of its first character is
/// found right there.
pub proof fn lemma_split_once_after(a: Seq<char>, sep: Seq<char>, b: Seq<char>)
    requires
        sep.len() > 0,
        forall|k: int| 0 <= k < a.len() ==> a[k] != sep[0],
    ensures
        split_once(a + sep + b, sep) == Some((a, b)),
{
    let s = a + sep + b;
    assert(s.subrange(a.len() as int, (a.len() + sep.len()) as int) =~= sep);
    assert(occurs_at(s, sep, a.len() as int));
    assert forall|m: int| 0 <= m < a.len() implies !occurs_at(s, sep, m) by {
        if occurs_at(s, sep, m) {
            assert(s.subrange(m, m + sep.len())[0] == s[m]);
        }
    }
    lemma_find_from(s, sep, 0);
    assert(find(s, sep) == Some(a.len() as int));
    assert(s.subrange(0, a.len() as int) =~= a);
    assert(s.subrange((a.len() + sep.len()) as int, s.len() as int) =~= b);
}

/// Whether the character `c` occurs in `s`.
pub open spec fn has_char(s: Seq<char>, c: char) -> bool {
    exists|k: int| 0 <= k < s.len() && s[k] == c
}

/// Character-wise equality of two texts.
pub fn text_eq(a: &str, b: &str) -> (r: bool)
    ensures
        r == (a@ == b@),
{
    let n = a.unicode_len();
    if n != b.unicode_len() {
        return false;
    }
    let mut i: usize = 0;
    while i < n
        invariant
            n == a@.len(),
            n == b@.len(),
            0 <= i <= n,
            forall|k: int| 0 <= k < i ==> a@[k] == b@[k],
        decreases n - i,
    {
        if a.get_char(i) != b.get_char(i) {
            return false;
        }
        i = i + 1;
    }
    assert(a@ =~= b@);
    true
}

/// Whether `p` occurs in `s` at character position `i`.
pub fn occurs_at_exec(s: &str, p: &str, i: usize) -> (r: bool)
    ensures
        r == occurs_at(s@, p@, i as int),
{
    let n = s.unicode_len();
    let m = p.unicode_len();
    if i > n || m > n - i {
        return false;
    }
    let mut k: usize = 0;
    while k < m
        invariant
            n == s@.len(),
            m == p@.len(),
            i + m <= n,
            0 <= k <= m,
            forall|t: int| 0 <= t < k ==> s@[i + t] == p@[t],
        decreases m - k,
    {
        if s.get_char(i + k) != p.get_char(k) {
            assert(s@.subrange(i as int, i + m)[k as int] != p@[k as int]);
            return false;
        }
        k = k + 1;
    }
    assert(s@.subrange(i as int, i + m) =~= p@);
    true
}

/// Same as `str::find`, with the position counted in characters.
pub fn find_text(s: &str, p: &str) -> (r: Option<usize>)
    ensures
        r matches Some(k) ==> find(s@, p@) == Some(k as int),
        r is None ==> find(s@, p@) is None,
{
    let n = s.unicode_len();
    let m = p.unicode_len();
    if m > n {
        return None;
    }
    let mut i: usize = 0;
    while i <= n - m
        invariant
            n == s@.len(),
            m == p@.len(),
            m <= n,
            0 <= i <= n - m + 1,
            find_from(s@, p@, i as int) == find_from(s@, p@, 0),
        decreases n - m + 1 - i,
    {
        if occurs_at_exec(s, p, i) {
            return Some(i);
        }
        if i == n - m {
            assert(find_from(s@, p@, i + 1) is None);
            return None;
        }
        i = i + 1;
    }
    None
}

/// Same as `str::contains` with a text pattern.
pub fn contains_text(s: &str, p: &str) -> (r: bool)
    ensures
        r == contains(s@, p@),
{
    find_text(s, p).is_some()
}

pub open spec fn starts_with(s: Seq<char>, p: Seq<char>) -> bool {
    occurs_at(s, p, 0)
}

pub open spec fn ends_with(s: Seq<char>, p: Seq<char>) -> bool {
    p.len() <= s.len() && occurs_at(s, p, s.len() - p.len())
}

pub fn starts_with_text(s: &str, p: &str) -> (r: bool)
    ensures
        r == starts_with(s@, p@),
{
    occurs_at_exec(s, p, 0)
}

pub fn ends_with_text(s: &str, p: &str) -> (r: bool)
    ensures
        r == ends_with(s@, p@),
{
    let n = s.unicode_len();
    let m = p.unicode_len();
    if m > n {
        false
    } else {
        occurs_at_exec(s, p, n - m)
    }
}

/// Same as `str::strip_prefix`.
pub fn strip_prefix_text(s: &str, p: &str) -> (r: Option<String>)
    ensures
        r matches Some(rest) ==> starts_with(s@, p@) && rest@ == s@.subrange(
            p@.len() as int,
            s@.len() as int,
        ),
        r is None ==> !starts_with(s@, p@),
{
    if starts_with_text(s, p) {
        Some(slice_chars(s, p.unicode_len(), s.unicode_len()))
    } else {
        None
    }
}

/// The text before the first occurrence of `sep`, and the text after it.
pub open spec fn split_once(s: Seq<char>, sep: Seq<char>) -> Option<(Seq<char>, Seq<char>)> {
    match find(s, sep) {
        Some(i) => Some((s.subrange(0, i), s.subrange(i + sep.len(), s.len() as int))),
        None => None,
    }
}

/// Same as `str::split_once` with a text separator.
pub fn split_once_text(s: &str, sep: &str) -> (r: Option<(String, String)>)
    ensures
        r matches Some(parts) ==> split_once(s@, sep@) == Some((parts.0@, parts.1@)),
        r is None ==> split_once(s@, sep@) is None,
{
    let n = s.unicode_len();
    let m = sep.unicode_len();
    match find_text(s, sep) {
        Some(i) => {
            proof {
                lemma_find_from(s@, sep@, 0);
                assert(occurs_at(s@, sep@, i as int));
            }
            let before = slice_chars(s, 0, i);
            let after = slice_chars(s, i + m, n);
            Some((before, after))
        },
        None => None,
    }
}

/// First piece and remainder as `splitn` yields them: the remainder is
/// empty when `sep` does not occur.
pub open spec fn head_piece(s: Seq<char>, sep: Seq<char>) -> Seq<char> {
    match split_once(s, sep) {
        Some(parts) => parts.0,
        None => s,
    }
}

pub open spec fn tail_piece(s: Seq<char>, sep: Seq<char>) -> Seq<char> {
    match split_once(s, sep) {
        Some(parts) => parts.1,
        None => Seq::empty(),
    }
}

/// Splits off the first piece: `(head_piece, tail_piece)`.
pub fn split_head(s: &str, sep: &str) -> (r: (String, String))
    ensures
        r.0@ == head_piece(s@, sep@),
        r.1@ == tail_piece(s@, sep@),
{
    match split_once_text(s, sep) {
        Some(parts) => parts,
        None => (String::from_str(s), String::new()),
    }
}

/// Position where the last segment starts: just after the last character of `s`
/// that belongs to `seps`, or 0 when there is none.
pub open spec fn last_segment_start(s: Seq<char>, seps: Seq<char>, j: int) -> int
    decreases j,
{
    if j <= 0 {
        0
    } else if seps.contains(s[j - 1]) {
        j
    } else {
        last_segment_start(s, seps, j - 1)
    }
}

/// The text after the last separator, as `rsplit(seps).next()` yields it.
pub open spec fn last_segment(s: Seq<char>, seps: Seq<char>) -> Seq<char> {
    s.subrange(last_segment_start(s, seps, s.len() as int), s.len() as int)
}

pub proof fn lemma_last_segment_start(s: Seq<char>, seps: Seq<char>, j: int)
    requires
        0 <= j <= s.len(),
    ensures
        0 <= last_segment_start(s, seps, j) <= j,
        forall|k: int|
            last_segment_start(s, seps, j) <= k < j ==> !seps.contains(#[trigger] s[k]),
        last_segment_start(s, seps, j) > 0 ==> seps.contains(s[last_segment_start(s, seps, j) - 1]),
    decreases j,
{
    if j > 0 && !seps.contains(s[j - 1]) {
        lemma_last_segment_start(s, seps, j - 1);
    }
}

pub fn char_in(c: char, seps: &str) -> (r: bool)
    ensures
        r == seps@.contains(c),
{
    let n = seps.unicode_len();
    let mut i: usize = 0;
    while i < n
        invariant
            n == seps@.len(),
            0 <= i <= n,
            forall|k: int| 0 <= k < i ==> seps@[k] != c,
        decreases n - i,
    {
        if seps.get_char(i) == c {
            return true;
        }
        i = i + 1;
    }
    false
}

/// The text after the last character that belongs to `seps`.
pub fn last_segment_text(s: &str, seps: &str) -> (r: String)
    ensures
        r@ == last_segment(s@, seps@),
{
    let n = s.unicode_len();
    let mut j: usize = n;
    while j > 0 && !char_in(s.get_char(j - 1), seps)
        invariant
            n == s@.len(),
            0 <= j <= n,
            last_segment_start(s@, seps@, j as int) == last_segment_start(s@, seps@, n as int),
        decreases j,
    {
        j = j - 1;
    }
    slice_chars(s, j, n)
}

/// ASCII lower-case mapping of one character, as `char::to_ascii_lowercase`.
pub open spec fn ascii_lower(c: char) -> char {
    if 'A' <= c <= 'Z' {
        ((c as int) + 32) as char
    } else {
        c
    }
}

/// ASCII upper-case mapping of one character, as `char::to_ascii_uppercase`.
pub open spec fn ascii_upper(c: char) -> char {
    if 'a' <= c <= 'z' {
        ((c as int) - 32) as char
    } else {
        c
    }
}

pub fn ascii_lower_char(c: char) -> (r: char)
    ensures
        r == ascii_lower(c),
{
    if 'A' <= c && c <= 'Z' {
        let b: u8 = c as u8;
        (b + 32) as char
    } else {
        c
    }
}

pub fn ascii_upper_char(c: char) -> (r: char)
    ensures
        r == ascii_upper(c),
{
    if 'a' <= c && c <= 'z' {
        let b: u8 = c as u8;
        (b - 32) as char
    } else {
        c
    }
}

pub open spec fn lower_text(s: Seq<char>) -> Seq<char> {
    Seq::new(s.len(), |i: int| ascii_lower(s[i]))
}

/// Same as `str::eq_ignore_ascii_case`.
pub fn eq_ignore_ascii_case_text(a: &str, b: &str) -> (r: bool)
    ensures
        r == (lower_text(a@) == lower_text(b@)),
{
    let n = a.unicode_len();
    if n != b.unicode_len() {
        assert(lower_text(a@).len() != lower_text(b@).len());
        return false;
    }
    let mut i: usize = 0;
    while i < n
        invariant
            n == a@.len(),
            n == b@.len(),
            0 <= i <= n,
            forall|k: int| 0 <= k < i ==> ascii_lower(a@[k]) == ascii_lower(b@[k]),
        decreases n - i,
    {
        if ascii_lower_char(a.get_char(i)) != ascii_lower_char(b.get_char(i)) {
            assert(lower_text(a@)[i as int] != lower_text(b@)[i as int]);
            return false;
        }
        i = i + 1;
    }
    assert(lower_text(a@) =~= lower_text(b@));
    true
}

/// Appends one character; `String::push`.
#[verifier::external_body]
pub(crate) fn push_char(s: &mut String, c: char)
    ensures
        final(s)@ == old(s)@.push(c),
{
    s.push(c);
}

/// Same as `str::to_ascii_lowercase`.
pub fn lower_text_exec(s: &str) -> (r: String)
    ensures
        r@ == lower_text(s@),
{
    let n = s.unicode_len();
    let mut out = String::new();
    let mut i: usize = 0;
    while i < n
        invariant
            n == s@.len(),
            0 <= i <= n,
            out@ =~= lower_text(s@).subrange(0, i as int),
        decreases n - i,
    {
        push_char(&mut out, ascii_lower_char(s.get_char(i)));
        i = i + 1;
    }
    out
}

pub open spec fn upper_text(s: Seq<char>) -> Seq<char> {
    Seq::new(s.len(), |i: int| ascii_upper(s[i]))
}

/// Same as `str::to_ascii_uppercase`.
pub fn upper_text_exec(s: &str) -> (r: String)
    ensures
        r@ == upper_text(s@),
{
    let n = s.unicode_len();
    let mut out = String::new();
    let mut i: usize = 0;
    while i < n
        invariant
            n == s@.len(),
            0 <= i <= n,
            out@ =~= upper_text(s@).subrange(0, i as int),
        decreases n - i,
    {
        push_char(&mut out, ascii_upper_char(s.get_char(i)));
        i = i + 1;
    }
    out
}

/// The first `n` characters of `s`, or all of it when it is shorter.
pub open spec fn take_chars(s: Seq<char>, n: nat) -> Seq<char> {
    if s.len() <= n {
        s
    } else {
        s.subrange(0, n as int)
    }
}

/// Same as `s.chars().take(n).collect::<String>()`.
pub fn take_chars_text(s: &str, n: usize) -> (r: String)
    ensures
        r@ == take_chars(s@, n as nat),
{
    let len = s.unicode_len();
    if len <= n {
        String::from_str(s)
    } else {
        slice_chars(s, 0, n)
    }
}

/// Number of characters of a text, as `str::chars().count()`.
pub fn char_count(s: &str) -> (n: usize)
    ensures
        n == s@.len(),
{
    s.unicode_len()
}

/// Concatenation of two texts.
pub fn concat2(a: &str, b: &str) -> (r: String)
    ensures
        r@ == a@ + b@,
{
    let mut r = String::from_str(a);
    r.append(b);
    r
}

/// Concatenation of three texts.
pub fn concat3(a: &str, b: &str, c: &str) -> (r: String)
    ensures
        r@ == a@ + b@ + c@,
{
    let mut r = String::from_str(a);
    r.append(b);
    r.append(c);
    r
}

/// Concatenation of four texts.
pub fn concat4(a: &str, b: &str, c: &str, d: &str) -> (r: String)
    ensures
        r@ == a@ + b@ + c@ + d@,
{
    let mut r = String::from_str(a);
    r.append(b);
    r.append(c);
    r.append(d);
    r
}

/// Concatenation of five texts.
pub fn concat5(a: &str, b: &str, c: &str, d: &str, e: &str) -> (r: String)
    ensures
        r@ == a@ + b@ + c@ + d@ + e@,
{
    let mut r = String::from_str(a);
    r.append(b);
    r.append(c);
    r.append(d);
    r.append(e);
    r
}

/// The decimal digits of a natural number, as `Display` writes it.
pub open spec fn digits_of(n: nat) -> Seq<char>
    decreases n,
{
    if n < 10 {
        seq![((n as int) + ('0' as int)) as char]
    } else {
        digits_of(n / 10).push((((n % 10) as int) + ('0' as int)) as char)
    }
}

/// An integer as `Display` writes it: a minus sign for negative numbers, then its digits.
pub open spec fn decimal(n: int) -> Seq<char> {
    if n < 0 {
        seq!['-'].add(digits_of((-n) as nat))
    } else {
        digits_of(n as nat)
    }
}

fn digit_char(d: u64) -> (c: char)
    requires
        d < 10,
    ensures
        c == ((d as int) + ('0' as int)) as char,
{
    let b: u8 = d as u8;
    (b + 48) as char
}

/// The digits of `n`, as `u64::to_string` writes them.
pub fn nat_text(n: u64) -> (r: String)
    ensures
        r@ == digits_of(n as nat),
    decreases n,
{
    if n < 10 {
        let mut r = String::new();
        push_char(&mut r, digit_char(n));
        assert(r@ =~= digits_of(n as nat));
        r
    } else {
        let mut r = nat_text(n / 10);
        push_char(&mut r, digit_char(n % 10));
        r
    }
}

/// An integer as `i64::to_string` writes it.
pub fn int_text(n: i64) -> (r: String)
    ensures
        r@ == decimal(n as int),
{
    if n < 0 {
        let magnitude: u64 = if n == i64::MIN {
            9223372036854775808u64
        } else {
            (-n) as u64
        };
        let mut r = String::new();
        push_char(&mut r, '-');
        let digits = nat_text(magnitude);
        r.append(digits.as_str());
        assert(r@ =~= seq!['-'].add(digits_of((-(n as int)) as nat)));
        r
    } else {
        nat_text(n as u64)
    }
}

} // verus!
