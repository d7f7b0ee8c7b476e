//! Text as sequences of characters.
//!
//! Every string in this crate is modelled by its view, a `Seq<char>`. The
//! functions here turn strings into character vectors and back, and provide
//! the searching, splitting and number formatting the other modules build on,
//! each with a contract over `Seq<char>`.

use vstd::prelude::*;

verus! {

/// `String::push` appends one character to the string.
pub assume_specification[ String::push ](s: &mut String, c: char)
    ensures
        final(s)@ == old(s)@.push(c),
;

/// The characters of a string slice, in order.
pub fn to_chars(s: &str) -> (v: Vec<char>)
    ensures
        v@ == s@,
{
    let mut v: Vec<char> = Vec::new();
    for c in it: s.chars()
        invariant
            v@ == it.seq().take(it.index() as int),
            it.seq() == s@,
    {
        v.push(c);
    }
    v
}

/// The string made of the characters of `v`, in order.
pub fn from_chars(v: &[char]) -> (s: String)
    ensures
        s@ == v@,
{
    let mut s = String::new();
    let mut i: usize = 0;
    while i < v.len()
        invariant
            i <= v.len(),
            s@ == v@.take(i as int),
        decreases v.len() - i,
    {
        s.push(v[i]);
        i += 1;
        assert(v@.take(i as int) =~= v@.take(i - 1).push(v@[i - 1]));
    }
    assert(v@.take(v.len() as int) =~= v@);
    s
}

/// Whether `c` has the Unicode `White_Space` property.
pub open spec fn is_whitespace(c: char) -> bool {
    let u = c as u32;
    ||| 0x09 <= u <= 0x0D
    ||| u == 0x20
    ||| u == 0x85
    ||| u == 0xA0
    ||| u == 0x1680
    ||| 0x2000 <= u <= 0x200A
    ||| u == 0x2028
    ||| u == 0x2029
    ||| u == 0x202F
    ||| u == 0x205F
    ||| u == 0x3000
}

/// Executable form of [`is_whitespace`].
pub fn char_is_whitespace(c: char) -> (r: bool)
    ensures
        r == is_whitespace(c),
{
    let u: u32 = c as u32;
    (0x09 <= u && u <= 0x0D) || u == 0x20 || u == 0x85 || u == 0xA0 || u == 0x1680 || (0x2000 <= u
        && u <= 0x200A) || u == 0x2028 || u == 0x2029 || u == 0x202F || u == 0x205F || u == 0x3000
}

/// Whether `c` is an ASCII decimal digit.
pub open spec fn is_digit(c: char) -> bool {
    '0' <= c <= '9'
}

/// The ASCII lower-case form of `c`; characters other than `A`..`Z` are kept.
pub open spec fn lower_char(c: char) -> char {
    if 'A' <= c <= 'Z' {
        ((c as u8) + 32) as char
    } else {
        c
    }
}

/// Executable form of [`lower_char`].
pub fn char_to_lower(c: char) -> (r: char)
    ensures
        r == lower_char(c),
{
    if 'A' <= c && c <= 'Z' {
        ((c as u8) + 32) as char
    } else {
        c
    }
}

/// `s` with every ASCII upper-case letter replaced by its lower-case form.
pub open spec fn lower(s: Seq<char>) -> Seq<char> {
    Seq::new(s.len(), |i: int| lower_char(s[i]))
}

/// Executable form of [`lower`].
pub fn to_lower(s: &[char]) -> (r: Vec<char>)
    ensures
        r@ == lower(s@),
{
    let mut r: Vec<char> = Vec::new();
    let mut i: usize = 0;
    while i < s.len()
        invariant
            i <= s.len(),
            r@.len() == i,
            forall|j: int| 0 <= j < i ==> r@[j] == lower_char(s@[j]),
        decreases s.len() - i,
    {
        r.push(char_to_lower(s[i]));
        i += 1;
    }
    assert(r@ =~= lower(s@));
    r
}

/// Whether `needle` occurs in `s` starting at index `i`.
pub open spec fn occurs_at(s: Seq<char>, needle: Seq<char>, i: int) -> bool {
    &&& 0 <= i
    &&& i + needle.len() <= s.len()
    &&& s.subrange(i, i + needle.len()) == needle
}

/// Whether `s` begins with `prefix`.
pub open spec fn starts_with(s: Seq<char>, prefix: Seq<char>) -> bool {
    occurs_at(s, prefix, 0)
}

/// Whether `s` ends with `suffix`.
pub open spec fn ends_with(s: Seq<char>, suffix: Seq<char>) -> bool {
    occurs_at(s, suffix, s.len() - suffix.len())
}

/// Whether `needle` occurs somewhere in `s`.
pub open spec fn contains(s: Seq<char>, needle: Seq<char>) -> bool {
    exists|i: int| occurs_at(s, needle, i)
}

/// Whether `needle` occurs in `s` at index `i`.
pub fn matches_at(s: &[char], needle: &[char], i: usize) -> (r: bool)
    ensures
        r == occurs_at(s@, needle@, i as int),
{
    if needle.len() > s.len() || i > s.len() - needle.len() {
        return false;
    }
    let mut k: usize = 0;
    while k < needle.len()
        invariant
            k <= needle.len(),
            i + needle.len() <= s.len(),
            forall|j: int| 0 <= j < k ==> s@[i + j] == needle@[j],
        decreases needle.len() - k,
    {
        if s[i + k] != needle[k] {
            assert(s@.subrange(i as int, i + needle.len())[k as int] != needle@[k as int]);
            return false;
        }
        k += 1;
    }
    assert(s@.subrange(i as int, i + needle.len()) =~= needle@);
    true
}

/// Whether `s` begins with `prefix`.
pub fn has_prefix(s: &[char], prefix: &[char]) -> (r: bool)
    ensures
        r == starts_with(s@, prefix@),
{
    matches_at(s, prefix, 0)
}

/// Whether `s` ends with `suffix`.
pub fn has_suffix(s: &[char], suffix: &[char]) -> (r: bool)
    ensures
        r == ends_with(s@, suffix@),
{
    if suffix.len() > s.len() {
        return false;
    }
    matches_at(s, suffix, s.len() - suffix.len())
}

/// The first index at which `needle` occurs in `s`.
pub fn find(s: &[char], needle: &[char]) -> (r: Option<usize>)
    ensures
        match r {
            Some(i) => occurs_at(s@, needle@, i as int) && forall|j: int|
                0 <= j < i ==> !occurs_at(s@, needle@, j),
            None => !contains(s@, needle@),
        },
{
    if needle.len() > s.len() {
        return None;
    }
    if needle.len() == 0 {
        assert(s@.subrange(0, 0) =~= needle@);
        return Some(0);
    }
    let last: usize = s.len() - needle.len();
    let mut i: usize = 0;
    while i <= last
        invariant
            i <= last + 1,
            last == s.len() - needle.len(),
            0 < needle.len() <= s.len(),
            forall|j: int| 0 <= j < i ==> !occurs_at(s@, needle@, j),
        decreases last + 1 - i,
    {
        if matches_at(s, needle, i) {
            return Some(i);
        }
        i += 1;
    }
    None
}

/// Whether `needle` occurs somewhere in `s`.
pub fn has_substring(s: &[char], needle: &[char]) -> (r: bool)
    ensures
        r == contains(s@, needle@),
{
    find(s, needle).is_some()
}

/// Whether the string `s` contains the string `needle`.
pub fn str_contains(s: &str, needle: &str) -> (r: bool)
    ensures
        r == contains(s@, needle@),
{
    let a = to_chars(s);
    let b = to_chars(needle);
    has_substring(a.as_slice(), b.as_slice())
}

/// Whether two character slices hold the same characters.
pub fn chars_eq(a: &[char], b: &[char]) -> (r: bool)
    ensures
        r == (a@ == b@),
{
    if a.len() != b.len() {
        return false;
    }
    let r = matches_at(a, b, 0);
    assert(a@.subrange(0, a@.len() as int) =~= a@);
    r
}

/// Whether two strings hold the same characters.
pub fn str_eq(a: &str, b: &str) -> (r: bool)
    ensures
        r == (a@ == b@),
{
    let x = to_chars(a);
    let y = to_chars(b);
    chars_eq(x.as_slice(), y.as_slice())
}

/// Whether `i` is the first index at or after `from` at which `s` holds `c`.
pub open spec fn is_first_at(s: Seq<char>, c: char, from: int, i: int) -> bool {
    &&& from <= i < s.len()
    &&& s[i] == c
    &&& forall|j: int| from <= j < i ==> s[j] != c
}

/// The first index at or after `from` at which `s` holds `c`.
pub open spec fn first_index_from(s: Seq<char>, c: char, from: int) -> Option<int> {
    if exists|i: int| is_first_at(s, c, from, i) {
        Some(choose|i: int| is_first_at(s, c, from, i))
    } else {
        None
    }
}

/// The first index at which `s` holds `c`.
pub open spec fn first_index(s: Seq<char>, c: char) -> Option<int> {
    first_index_from(s, c, 0)
}

/// The first index at or after `from` whose character is `c`.
pub fn find_char(s: &[char], c: char, from: usize) -> (r: Option<usize>)
    ensures
        match r {
            Some(i) => first_index_from(s@, c, from as int) == Some(i as int) && is_first_at(
                s@,
                c,
                from as int,
                i as int,
            ) && i < usize::MAX,
            None => first_index_from(s@, c, from as int) is None && forall|j: int|
                from <= j < s@.len() ==> s@[j] != c,
        },
{
    let mut i: usize = from;
    while i < s.len()
        invariant
            from <= i,
            forall|j: int| from <= j < i && j < s@.len() ==> s@[j] != c,
        decreases s.len() - i,
    {
        if s[i] == c {
            proof {
                assert(is_first_at(s@, c, from as int, i as int));
                let k = choose|k: int| is_first_at(s@, c, from as int, k);
                assert(is_first_at(s@, c, from as int, k));
                assert(k == i);
            }
            return Some(i);
        }
        i += 1;
    }
    assert forall|k: int| !is_first_at(s@, c, from as int, k) by {}
    None
}

/// The characters of `s` from index `from` up to, not including, index `to`.
pub fn slice_chars(s: &[char], from: usize, to: usize) -> (r: Vec<char>)
    requires
        from <= to <= s@.len(),
    ensures
        r@ == s@.subrange(from as int, to as int),
{
    let mut r: Vec<char> = Vec::new();
    let mut i: usize = from;
    while i < to
        invariant
            from <= i <= to,
            to <= s@.len(),
            r@ == s@.subrange(from as int, i as int),
        decreases to - i,
    {
        r.push(s[i]);
        i += 1;
        assert(s@.subrange(from as int, i as int) =~= s@.subrange(from as int, i - 1).push(
            s@[i - 1],
        ));
    }
    r
}

/// Appends the characters of `tail` to `v`.
pub fn push_chars(v: &mut Vec<char>, tail: &[char])
    ensures
        final(v)@ == old(v)@ + tail@,
{
    let mut i: usize = 0;
    while i < tail.len()
        invariant
            i <= tail.len(),
            v@ == old(v)@ + tail@.take(i as int),
        decreases tail.len() - i,
    {
        v.push(tail[i]);
        i += 1;
        assert(tail@.take(i as int) =~= tail@.take(i - 1).push(tail@[i - 1]));
        assert(v@ =~= old(v)@ + tail@.take(i as int));
    }
    assert(tail@.take(tail.len() as int) =~= tail@);
}

/// Appends the characters of the string `tail` to `v`.
pub fn push_str(v: &mut Vec<char>, tail: &str)
    ensures
        final(v)@ == old(v)@ + tail@,
{
    let t = to_chars(tail);
    push_chars(v, t.as_slice());
}

/// The views of a sequence of strings.
pub open spec fn texts(v: Seq<String>) -> Seq<Seq<char>> {
    Seq::new(v.len(), |i: int| v[i]@)
}

/// The views of a sequence of character vectors.
pub open spec fn rows(v: Seq<Vec<char>>) -> Seq<Seq<char>> {
    Seq::new(v.len(), |i: int| v[i]@)
}

/// The character of a decimal digit.
pub open spec fn digit_char(d: int) -> char
    recommends
        0 <= d < 10,
{
    ((d + 48) as u8) as char
}

/// The value of a decimal digit character.
pub open spec fn digit_value(c: char) -> int
    recommends
        is_digit(c),
{
    c as int - 48
}

/// The decimal numeral of `n`, without sign or leading zeros.
pub open spec fn decimal(n: nat) -> Seq<char>
    decreases n,
{
    if n < 10 {
        seq![digit_char(n as int)]
    } else {
        decimal(n / 10).push(digit_char((n % 10) as int))
    }
}

/// Appends the decimal numeral of `n` to `out`.
pub fn push_decimal(out: &mut Vec<char>, n: u128)
    ensures
        final(out)@ == old(out)@ + decimal(n as nat),
{
    // Least significant digit first.
    let mut digits: Vec<char> = Vec::new();
    let mut rest: u128 = n;
    while rest >= 10
        invariant
            decimal(n as nat) == decimal(rest as nat) + digits@.reverse(),
        decreases rest,
    {
        let d: u8 = (rest % 10) as u8;
        let ghost before = digits@;
        let ghost rest_before = rest;
        digits.push((d + 48) as char);
        rest = rest / 10;
        proof {
            let c = digit_char((rest_before % 10) as int);
            assert(digits@.reverse() =~= seq![c] + before.reverse());
            assert(decimal(rest_before as nat) == decimal(rest as nat).push(c));
            assert(decimal(rest as nat) + digits@.reverse() =~= decimal(rest_before as nat)
                + before.reverse());
        }
    }
    let first: u8 = rest as u8;
    out.push((first + 48) as char);
    let mut i: usize = digits.len();
    let ghost base = old(out)@ + decimal(rest as nat);
    assert(out@ =~= base);
    while i > 0
        invariant
            i <= digits.len(),
            out@ == base + digits@.reverse().take(digits.len() - i),
        decreases i,
    {
        i -= 1;
        out.push(digits[i]);
        proof {
            let r = digits@.reverse();
            let k = digits.len() - i;
            assert(r.take(k as int) =~= r.take(k - 1).push(r[k - 1]));
            assert(r[k - 1] == digits@[i as int]);
        }
    }
    proof {
        let r = digits@.reverse();
        assert(r.take(digits.len() as int) =~= r);
        assert(out@ =~= old(out)@ + (decimal(rest as nat) + r));
    }
}

/// The decimal numeral of `n` as a string.
pub fn decimal_string(n: u128) -> (r: String)
    ensures
        r@ == decimal(n as nat),
{
    let mut out: Vec<char> = Vec::new();
    push_decimal(&mut out, n);
    assert(out@ =~= decimal(n as nat));
    from_chars(out.as_slice())
}

/// The views of a sequence of string slices.
pub open spec fn slices(v: Seq<&str>) -> Seq<Seq<char>> {
    Seq::new(v.len(), |i: int| v[i]@)
}

/// Whether `item` is one of the strings of `list`.
pub fn list_contains(list: &[&str], item: &[char]) -> (r: bool)
    ensures
        r == slices(list@).contains(item@),
{
    let mut i: usize = 0;
    while i < list.len()
        invariant
            i <= list.len(),
            forall|j: int| 0 <= j < i ==> slices(list@)[j] != item@,
        decreases list.len() - i,
    {
        let entry = to_chars(list[i]);
        if chars_eq(entry.as_slice(), item) {
            assert(slices(list@)[i as int] == item@);
            return true;
        }
        i += 1;
    }
    false
}

/// Whether `item` is one of the strings of `list`.
pub fn strings_contain(list: &[String], item: &[char]) -> (r: bool)
    ensures
        r == texts(list@).contains(item@),
{
    let mut i: usize = 0;
    while i < list.len()
        invariant
            i <= list.len(),
            forall|j: int| 0 <= j < i ==> texts(list@)[j] != item@,
        decreases list.len() - i,
    {
        let entry = to_chars(list[i].as_str());
        if chars_eq(entry.as_slice(), item) {
            assert(texts(list@)[i as int] == item@);
            return true;
        }
        i += 1;
    }
    false
}

/// Owned copies of the strings of `list`.
pub fn to_strings(list: &[&str]) -> (r: Vec<String>)
    ensures
        texts(r@) == slices(list@),
{
    let mut r: Vec<String> = Vec::new();
    let mut i: usize = 0;
    while i < list.len()
        invariant
            i <= list.len(),
            r@.len() == i,
            forall|j: int| 0 <= j < i ==> r@[j]@ == list@[j]@,
        decreases list.len() - i,
    {
        r.push(list[i].to_string());
        i += 1;
    }
    assert(texts(r@) =~= slices(list@));
    r
}

/// The index of the first character of `s`, at or after `i`, that is not
/// white space; the length of `s` where there is none.
pub open spec fn skip_space(s: Seq<char>, i: int) -> int
    decreases s.len() - i,
{
    if i < 0 || i >= s.len() || !is_whitespace(s[i]) {
        i
    } else {
        skip_space(s, i + 1)
    }
}

/// The index of the first white space character of `s` at or after `i`; the
/// length of `s` where there is none.
pub open spec fn word_end(s: Seq<char>, i: int) -> int
    decreases s.len() - i,
{
    if i < 0 || i >= s.len() || is_whitespace(s[i]) {
        i
    } else {
        word_end(s, i + 1)
    }
}

/// The index just after the last character of `s`, before `end`, that is not
/// white space; 0 where there is none.
pub open spec fn trim_end_index(s: Seq<char>, end: int) -> int
    decreases end,
{
    if end <= 0 || end > s.len() || !is_whitespace(s[end - 1]) {
        end
    } else {
        trim_end_index(s, end - 1)
    }
}

/// `s` without the white space at its two ends.
pub open spec fn trimmed(s: Seq<char>) -> Seq<char> {
    let start = skip_space(s, 0);
    if start >= s.len() {
        Seq::empty()
    } else {
        s.subrange(start, trim_end_index(s, s.len() as int))
    }
}

/// Skipping white space stays within the text, passes over white space
/// only and stops at the first character that is none.
pub proof fn lemma_skip_space_bounds(s: Seq<char>, i: int)
    requires
        0 <= i <= s.len(),
    ensures
        i <= skip_space(s, i) <= s.len(),
        forall|j: int| i <= j < skip_space(s, i) ==> is_whitespace(#[trigger] s[j]),
        skip_space(s, i) < s.len() ==> !is_whitespace(s[skip_space(s, i)]),
    decreases s.len() - i,
{
    if i < s.len() && is_whitespace(s[i]) {
        lemma_skip_space_bounds(s, i + 1);
    }
}

/// A word ends within the text, holds no white space and is followed by
/// white space or nothing.
pub proof fn lemma_word_end_bounds(s: Seq<char>, i: int)
    requires
        0 <= i <= s.len(),
    ensures
        i <= word_end(s, i) <= s.len(),
        forall|j: int| i <= j < word_end(s, i) ==> !is_whitespace(#[trigger] s[j]),
        word_end(s, i) < s.len() ==> is_whitespace(s[word_end(s, i)]),
        i < s.len() && !is_whitespace(s[i]) ==> word_end(s, i) > i,
    decreases s.len() - i,
{
    if i < s.len() && !is_whitespace(s[i]) {
        lemma_word_end_bounds(s, i + 1);
    }
}

/// Trimming from the end stays within the text and stops behind a
/// character that is no white space.
pub proof fn lemma_trim_end_bounds(s: Seq<char>, end: int)
    requires
        0 <= end <= s.len(),
    ensures
        0 <= trim_end_index(s, end) <= end,
        trim_end_index(s, end) > 0 ==> !is_whitespace(s[trim_end_index(s, end) - 1]),
    decreases end,
{
    if end > 0 && is_whitespace(s[end - 1]) {
        lemma_trim_end_bounds(s, end - 1);
    }
}

/// What is left after trimming neither begins nor ends with white space.
pub proof fn lemma_trimmed_has_no_space_at_ends(s: Seq<char>)
    ensures
        trimmed(s).len() > 0 ==> !is_whitespace(trimmed(s).first()) && !is_whitespace(
            trimmed(s).last(),
        ),
{
    lemma_skip_space_bounds(s, 0);
    lemma_trim_end_bounds(s, s.len() as int);
    let start = skip_space(s, 0);
    if start < s.len() {
        lemma_trim_end_reaches(s, start, s.len() as int);
    }
}

/// Executable form of [`skip_space`].
pub fn skip_whitespace(s: &[char], from: usize) -> (r: usize)
    requires
        from <= s@.len(),
    ensures
        r == skip_space(s@, from as int),
        from <= r <= s@.len(),
{
    let mut i: usize = from;
    while i < s.len() && char_is_whitespace(s[i])
        invariant
            from <= i <= s.len(),
            skip_space(s@, from as int) == skip_space(s@, i as int),
        decreases s.len() - i,
    {
        i += 1;
    }
    i
}

/// Executable form of [`word_end`].
pub fn find_word_end(s: &[char], from: usize) -> (r: usize)
    requires
        from <= s@.len(),
    ensures
        r == word_end(s@, from as int),
        from <= r <= s@.len(),
{
    let mut i: usize = from;
    while i < s.len() && !char_is_whitespace(s[i])
        invariant
            from <= i <= s.len(),
            word_end(s@, from as int) == word_end(s@, i as int),
        decreases s.len() - i,
    {
        i += 1;
    }
    i
}

/// `s` without the white space at its two ends.
pub fn trim(s: &[char]) -> (r: Vec<char>)
    ensures
        r@ == trimmed(s@),
{
    let start = skip_whitespace(s, 0);
    if start >= s.len() {
        return Vec::new();
    }
    let mut end: usize = s.len();
    while end > 0 && char_is_whitespace(s[end - 1])
        invariant
            end <= s.len(),
            trim_end_index(s@, s@.len() as int) == trim_end_index(s@, end as int),
        decreases end,
    {
        end -= 1;
    }
    proof {
        lemma_skip_space_bounds(s@, 0);
        // The character at `start` is no white space, so trimming from the
        // end stops after it.
        if end <= start {
            assert(end == 0 || !is_whitespace(s@[end - 1]));
            assert(forall|j: int| 0 <= j < start ==> is_whitespace(#[trigger] s@[j]));
            lemma_trim_end_reaches(s@, start as int, s@.len() as int);
        }
    }
    slice_chars(s, start, end)
}

/// Trimming from the end never goes below a character that is no white
/// space.
pub proof fn lemma_trim_end_reaches(s: Seq<char>, keep: int, end: int)
    requires
        0 <= keep < end <= s.len(),
        !is_whitespace(s[keep]),
    ensures
        trim_end_index(s, end) > keep,
    decreases end,
{
    if is_whitespace(s[end - 1]) {
        lemma_trim_end_reaches(s, keep, end - 1);
    }
}

/// The words of `s` from index `i` on: the maximal runs of characters that
/// are not white space.
pub open spec fn words_from(s: Seq<char>, i: int) -> Seq<Seq<char>>
    decreases s.len() - i,
{
    let start = skip_space(s, i);
    if i < 0 || start >= s.len() || start < i {
        Seq::empty()
    } else {
        let end = word_end(s, start);
        if end <= start || end > s.len() {
            Seq::empty()
        } else {
            seq![s.subrange(start, end)] + words_from(s, end)
        }
    }
}

/// The words of `s`.
pub open spec fn words(s: Seq<char>) -> Seq<Seq<char>> {
    words_from(s, 0)
}

/// Every word has at least one character and none that is white space.
pub proof fn lemma_words_hold_no_space(s: Seq<char>, i: int)
    requires
        0 <= i <= s.len(),
    ensures
        forall|k: int|
            0 <= k < words_from(s, i).len() ==> (#[trigger] words_from(s, i)[k]).len() > 0
                && forall|j: int|
                0 <= j < words_from(s, i)[k].len() ==> !is_whitespace(
                    #[trigger] words_from(s, i)[k][j],
                ),
    decreases s.len() - i,
{
    lemma_skip_space_bounds(s, i);
    let start = skip_space(s, i);
    if start < s.len() {
        lemma_word_end_bounds(s, start);
        let end = word_end(s, start);
        lemma_words_hold_no_space(s, end);
        let all = words_from(s, i);
        let rest = words_from(s, end);
        assert(all == seq![s.subrange(start, end)] + rest);
        assert forall|k: int| 0 <= k < all.len() implies (#[trigger] all[k]).len() > 0 && forall|
            j: int,
        |
            0 <= j < all[k].len() ==> !is_whitespace(#[trigger] all[k][j]) by {
            if k == 0 {
                assert(all[0] == s.subrange(start, end));
                assert forall|j: int| 0 <= j < all[0].len() implies !is_whitespace(
                    #[trigger] all[0][j],
                ) by {
                    assert(all[0][j] == s[start + j]);
                }
            } else {
                assert(all[k] == rest[k - 1]);
            }
        }
    }
}

/// Splits `s` into its words.
pub fn split_whitespace(s: &[char]) -> (r: Vec<Vec<char>>)
    ensures
        rows(r@) == words(s@),
{
    let mut r: Vec<Vec<char>> = Vec::new();
    let mut i: usize = 0;
    assert(rows(r@) + words_from(s@, 0) =~= words(s@));
    loop
        invariant
            i <= s@.len(),
            rows(r@) + words_from(s@, i as int) == words(s@),
        decreases s@.len() - i,
    {
        let start = skip_whitespace(s, i);
        if start >= s.len() {
            assert(words_from(s@, i as int) =~= Seq::<Seq<char>>::empty());
            assert(rows(r@) + Seq::<Seq<char>>::empty() =~= rows(r@));
            return r;
        }
        let end = find_word_end(s, start);
        proof {
            lemma_skip_space_bounds(s@, i as int);
            lemma_word_end_bounds(s@, start as int);
        }
        let ghost before = rows(r@);
        r.push(slice_chars(s, start, end));
        proof {
            assert(rows(r@) =~= before.push(s@.subrange(start as int, end as int)));
            assert(words_from(s@, i as int) == seq![s@.subrange(start as int, end as int)]
                + words_from(s@, end as int));
            assert(rows(r@) + words_from(s@, end as int) =~= before + words_from(s@, i as int));
        }
        i = end;
    }
}

/// The strings of `parts`, each but the last followed by `separator`.
pub open spec fn joined_with(parts: Seq<Seq<char>>, separator: Seq<char>) -> Seq<char>
    decreases parts.len(),
{
    if parts.len() == 0 {
        Seq::empty()
    } else if parts.len() == 1 {
        parts[0]
    } else {
        joined_with(parts.drop_last(), separator) + separator + parts.last()
    }
}

/// Joins `parts` with `separator` between them.
pub fn join_rows(parts: &[Vec<char>], separator: &[char]) -> (r: Vec<char>)
    ensures
        r@ == joined_with(rows(parts@), separator@),
{
    let mut r: Vec<char> = Vec::new();
    let mut i: usize = 0;
    while i < parts.len()
        invariant
            i <= parts.len(),
            r@ == joined_with(rows(parts@).take(i as int), separator@),
        decreases parts.len() - i,
    {
        let ghost upto = rows(parts@).take(i + 1);
        assert(upto.drop_last() =~= rows(parts@).take(i as int));
        assert(upto.last() == parts@[i as int]@);
        if i > 0 {
            push_chars(&mut r, separator);
        }
        push_chars(&mut r, parts[i].as_slice());
        i += 1;
    }
    assert(rows(parts@).take(parts.len() as int) =~= rows(parts@));
    r
}

/// `s` from index `i` on, with every occurrence of `from` replaced by
/// `to`. Occurrences are taken from left to right and do not overlap. An
/// empty `from` occurs nowhere.
pub open spec fn replaced_from(s: Seq<char>, from: Seq<char>, to: Seq<char>, i: int) -> Seq<char>
    decreases s.len() - i,
{
    if i < 0 || i >= s.len() {
        Seq::empty()
    } else if from.len() > 0 && occurs_at(s, from, i) {
        to + replaced_from(s, from, to, i + from.len())
    } else {
        seq![s[i]] + replaced_from(s, from, to, i + 1)
    }
}

/// `s` with every occurrence of `from` replaced by `to`.
pub open spec fn replaced(s: Seq<char>, from: Seq<char>, to: Seq<char>) -> Seq<char> {
    replaced_from(s, from, to, 0)
}

/// Replaces every occurrence of `from` in `s` by `to`.
pub fn replace(s: &[char], from: &[char], to: &[char]) -> (r: Vec<char>)
    ensures
        r@ == replaced(s@, from@, to@),
{
    let mut r: Vec<char> = Vec::new();
    let mut i: usize = 0;
    assert(r@ + replaced_from(s@, from@, to@, 0) =~= replaced(s@, from@, to@));
    while i < s.len()
        invariant
            i <= s.len(),
            r@ + replaced_from(s@, from@, to@, i as int) == replaced(s@, from@, to@),
        decreases s.len() - i,
    {
        let ghost before = r@;
        if from.len() > 0 && matches_at(s, from, i) {
            push_chars(&mut r, to);
            assert(r@ + replaced_from(s@, from@, to@, i + from.len()) =~= before + replaced_from(
                s@,
                from@,
                to@,
                i as int,
            ));
            i += from.len();
        } else {
            r.push(s[i]);
            assert(r@ + replaced_from(s@, from@, to@, i + 1) =~= before + replaced_from(
                s@,
                from@,
                to@,
                i as int,
            ));
            i += 1;
        }
    }
    assert(replaced_from(s@, from@, to@, i as int) =~= Seq::<char>::empty());
    assert(r@ + Seq::<char>::empty() =~= r@);
    r
}

/// The text that `String::from_utf8_lossy` makes of `bytes`: valid UTF-8 is
/// decoded, and every ill-formed part gives one replacement character.
pub uninterp spec fn utf8_lossy(bytes: Seq<u8>) -> Seq<char>;

/// Calls `String::from_utf8_lossy`. The result is named [`utf8_lossy`].
#[verifier::external_body]
pub(crate) fn lossy_text(bytes: &[u8]) -> (r: String)
    ensures
        r@ == utf8_lossy(bytes@),
{
    String::from_utf8_lossy(bytes).into_owned()
}

/// The index of the first line feed of `s` at or after `i`; the length of
/// `s` where there is none.
pub open spec fn line_end(s: Seq<char>, i: int) -> int
    decreases s.len() - i,
{
    if i < 0 || i >= s.len() || s[i] == '\n' {
        i
    } else {
        line_end(s, i + 1)
    }
}

/// The line that stands in `s` from `start` to `end`: where a line feed
/// ends it, a carriage return before the line feed is no part of it.
pub open spec fn line_between(s: Seq<char>, start: int, end: int) -> Seq<char> {
    if end < s.len() && start < end && s[end - 1] == '\r' {
        s.subrange(start, end - 1)
    } else {
        s.subrange(start, end)
    }
}

/// The lines of `s` from index `i` on. A line ends at a line feed or at
/// the end of `s`; nothing follows a final line feed.
pub open spec fn lines_from(s: Seq<char>, i: int) -> Seq<Seq<char>>
    decreases s.len() - i,
{
    if i < 0 || i >= s.len() {
        Seq::empty()
    } else {
        let end = line_end(s, i);
        if end < i || end > s.len() {
            Seq::empty()
        } else if end == s.len() {
            seq![line_between(s, i, end)]
        } else {
            seq![line_between(s, i, end)] + lines_from(s, end + 1)
        }
    }
}

/// The lines of `s`.
pub open spec fn lines(s: Seq<char>) -> Seq<Seq<char>> {
    lines_from(s, 0)
}

/// A line ends within the text.
pub proof fn lemma_line_end_bounds(s: Seq<char>, i: int)
    requires
        0 <= i <= s.len(),
    ensures
        i <= line_end(s, i) <= s.len(),
    decreases s.len() - i,
{
    if i < s.len() && s[i] != '\n' {
        lemma_line_end_bounds(s, i + 1);
    }
}

/// No line holds a line feed.
pub proof fn lemma_lines_hold_no_line_feed(s: Seq<char>, i: int)
    requires
        0 <= i <= s.len(),
    ensures
        forall|k: int, j: int|
            0 <= k < lines_from(s, i).len() && 0 <= j < lines_from(s, i)[k].len() ==> (
            #[trigger] lines_from(s, i)[k][j]) != '\n',
    decreases s.len() - i,
{
    if i < s.len() {
        lemma_line_end_bounds(s, i);
        lemma_no_line_feed_before_end(s, i);
        let end = line_end(s, i);
        let all = lines_from(s, i);
        let first = line_between(s, i, end);
        assert forall|j: int| 0 <= j < first.len() implies first[j] != '\n' by {
            assert(first[j] == s[i + j]);
        }
        if end < s.len() {
            lemma_lines_hold_no_line_feed(s, end + 1);
            let rest = lines_from(s, end + 1);
            assert(all == seq![first] + rest);
            assert forall|k: int, j: int|
                0 <= k < all.len() && 0 <= j < all[k].len() implies (#[trigger] all[k][j])
                != '\n' by {
                if k > 0 {
                    assert(all[k] == rest[k - 1]);
                }
            }
        } else {
            assert(all == seq![first]);
        }
    }
}

/// No line feed stands before the end of a line.
pub proof fn lemma_no_line_feed_before_end(s: Seq<char>, i: int)
    requires
        0 <= i <= s.len(),
    ensures
        forall|j: int| i <= j < line_end(s, i) ==> #[trigger] s[j] != '\n',
    decreases s.len() - i,
{
    if i < s.len() && s[i] != '\n' {
        lemma_no_line_feed_before_end(s, i + 1);
    }
}

/// Splits `s` into its lines.
pub fn split_lines(s: &[char]) -> (r: Vec<Vec<char>>)
    ensures
        rows(r@) == lines(s@),
{
    let mut r: Vec<Vec<char>> = Vec::new();
    let mut i: usize = 0;
    assert(rows(r@) + lines_from(s@, 0) =~= lines(s@));
    while i < s.len()
        invariant
            i <= s.len(),
            rows(r@) + lines_from(s@, i as int) == lines(s@),
        decreases s.len() - i,
    {
        let mut end: usize = i;
        while end < s.len() && s[end] != '\n'
            invariant
                i <= end <= s.len(),
                line_end(s@, i as int) == line_end(s@, end as int),
            decreases s.len() - end,
        {
            end += 1;
        }
        let stop: usize = if end < s.len() && i < end && s[end - 1] == '\r' {
            end - 1
        } else {
            end
        };
        let ghost before = rows(r@);
        r.push(slice_chars(s, i, stop));
        assert(rows(r@) =~= before.push(line_between(s@, i as int, end as int)));
        if end == s.len() {
            assert(rows(r@) =~= before + lines_from(s@, i as int));
            return r;
        }
        assert(rows(r@) + lines_from(s@, end + 1) =~= before + lines_from(s@, i as int));
        i = end + 1;
    }
    assert(lines_from(s@, i as int) =~= Seq::<Seq<char>>::empty());
    assert(rows(r@) + Seq::<Seq<char>>::empty() =~= rows(r@));
    r
}

/// Why a text is no number.
#[derive(Debug, Clone, Copy, PartialEq, Eq, Structural)]
pub enum ParseFailure {
    /// The text is empty.
    Empty,
    /// The text holds something other than decimal digits after an optional
    /// `+`, or nothing after it.
    InvalidDigit,
    /// The number is larger than the largest allowed.
    TooLarge,
}

/// The index of the first character of `s` that is no digit; the length of
/// `s` where all are digits.
pub open spec fn digits_end(s: Seq<char>, i: int) -> int
    decreases s.len() - i,
{
    if i < 0 || i >= s.len() || !is_digit(s[i]) {
        i
    } else {
        digits_end(s, i + 1)
    }
}

/// The number that the decimal digits of `s` stand for.
pub open spec fn digits_value(s: Seq<char>) -> nat
    decreases s.len(),
{
    if s.len() == 0 {
        0
    } else {
        (digits_value(s.drop_last()) * 10 + digit_value(s.last())) as nat
    }
}

/// The digits of a numeral: the text without a leading `+`.
pub open spec fn numeral_digits(s: Seq<char>) -> Seq<char> {
    if s.len() > 0 && s[0] == '+' {
        s.skip(1)
    } else {
        s
    }
}

/// The number, at most `max`, that `s` stands for: decimal digits after an
/// optional `+`.
pub open spec fn parsed_number(s: Seq<char>, max: nat) -> Result<nat, ParseFailure> {
    let digits = numeral_digits(s);
    if s.len() == 0 {
        Err(ParseFailure::Empty)
    } else if digits.len() == 0 || digits_end(digits, 0) < digits.len() {
        Err(ParseFailure::InvalidDigit)
    } else if digits_value(digits) > max {
        Err(ParseFailure::TooLarge)
    } else {
        Ok(digits_value(digits))
    }
}

/// How the failure to read a number is worded.
pub open spec fn parse_failure_text(failure: ParseFailure) -> Seq<char> {
    match failure {
        ParseFailure::Empty => "cannot parse integer from empty string"@,
        ParseFailure::InvalidDigit => "invalid digit found in string"@,
        ParseFailure::TooLarge => "number too large to fit in target type"@,
    }
}

/// How the failure to read a number is worded.
pub fn parse_failure_message(failure: ParseFailure) -> (r: &'static str)
    ensures
        r@ == parse_failure_text(failure),
{
    match failure {
        ParseFailure::Empty => "cannot parse integer from empty string",
        ParseFailure::InvalidDigit => "invalid digit found in string",
        ParseFailure::TooLarge => "number too large to fit in target type",
    }
}

proof fn lemma_digits_value_grows(s: Seq<char>, n: int)
    requires
        0 <= n < s.len(),
        forall|j: int| 0 <= j < s.len() ==> is_digit(#[trigger] s[j]),
    ensures
        digits_value(s.take(n)) <= digits_value(s.take(n + 1)),
        digits_value(s.take(n + 1)) == digits_value(s.take(n)) * 10 + digit_value(s[n]),
{
    assert(s.take(n + 1).drop_last() =~= s.take(n));
}

proof fn lemma_digits_value_monotonic(s: Seq<char>, n: int)
    requires
        0 <= n <= s.len(),
        forall|j: int| 0 <= j < s.len() ==> is_digit(#[trigger] s[j]),
    ensures
        digits_value(s.take(n)) <= digits_value(s),
    decreases s.len() - n,
{
    if n < s.len() {
        lemma_digits_value_grows(s, n);
        lemma_digits_value_monotonic(s, n + 1);
    } else {
        assert(s.take(n) =~= s);
    }
}

/// A numeral is made of digits, and they stand for the number it was made
/// of.
pub proof fn lemma_decimal_is_numeral(n: nat)
    ensures
        decimal(n).len() > 0,
        forall|i: int| 0 <= i < decimal(n).len() ==> is_digit(#[trigger] decimal(n)[i]),
        digits_value(decimal(n)) == n,
    decreases n,
{
    if n < 10 {
        let s = decimal(n);
        assert(s.drop_last() =~= Seq::<char>::empty());
        assert(digits_value(s.drop_last()) == 0);
    } else {
        lemma_decimal_is_numeral(n / 10);
        let head = decimal(n / 10);
        let s = decimal(n);
        assert(s.drop_last() =~= head);
    }
}

/// Where every character from `i` on is a digit, the digits end with the
/// text.
pub proof fn lemma_digits_end_at_len(s: Seq<char>, i: int)
    requires
        0 <= i <= s.len(),
        forall|j: int| i <= j < s.len() ==> is_digit(#[trigger] s[j]),
    ensures
        digits_end(s, i) == s.len(),
    decreases s.len() - i,
{
    if i < s.len() {
        lemma_digits_end_at_len(s, i + 1);
    }
}

/// Writing a number and reading it back gives the number, provided it is
/// not above the largest allowed. White space around the numeral does no
/// harm, for reading begins with trimming.
pub proof fn lemma_number_round_trip(n: nat, max: nat)
    requires
        n <= max,
    ensures
        parsed_number(decimal(n), max) == Ok::<nat, ParseFailure>(n),
        trimmed(decimal(n)) == decimal(n),
{
    lemma_decimal_is_numeral(n);
    let s = decimal(n);
    lemma_digits_end_at_len(s, 0);
    assert(is_digit(s[0]));
    assert(numeral_digits(s) == s);
    assert(is_digit(s[s.len() - 1]));
    assert(s.subrange(0, s.len() as int) =~= s);
}

/// Reads a number, at most `max`, from `s`.
pub fn parse_number(s: &[char], max: u64) -> (r: Result<u64, ParseFailure>)
    ensures
        match r {
            Ok(n) => parsed_number(s@, max as nat) == Ok::<nat, ParseFailure>(n as nat),
            Err(e) => parsed_number(s@, max as nat) == Err::<nat, ParseFailure>(e),
        },
{
    if s.len() == 0 {
        return Err(ParseFailure::Empty);
    }
    let start: usize = if s[0] == '+' {
        1
    } else {
        0
    };
    let digits = slice_chars(s, start, s.len());
    assert(digits@ =~= numeral_digits(s@));
    if digits.len() == 0 {
        return Err(ParseFailure::InvalidDigit);
    }
    // All characters must be digits before the size of the number counts.
    let mut k: usize = 0;
    while k < digits.len()
        invariant
            k <= digits.len(),
            s@.len() > 0,
            digits@.len() > 0,
            digits@ == numeral_digits(s@),
            digits_end(digits@, 0) == digits_end(digits@, k as int),
            forall|j: int| 0 <= j < k ==> is_digit(#[trigger] digits@[j]),
        decreases digits.len() - k,
    {
        let c = digits[k];
        if !('0' <= c && c <= '9') {
            assert(digits_end(digits@, k as int) == k);
            return Err(ParseFailure::InvalidDigit);
        }
        k += 1;
    }
    assert(digits_end(digits@, k as int) == k);
    let mut value: u64 = 0;
    let mut i: usize = 0;
    assert(digits@.take(0) =~= Seq::<char>::empty());
    while i < digits.len()
        invariant
            i <= digits.len(),
            s@.len() > 0,
            digits@.len() > 0,
            digits@ == numeral_digits(s@),
            digits_end(digits@, 0) == digits@.len(),
            forall|j: int| 0 <= j < digits@.len() ==> is_digit(#[trigger] digits@[j]),
            value == digits_value(digits@.take(i as int)),
            value <= max,
        decreases digits.len() - i,
    {
        let d: u64 = (digits[i] as u8 - 48) as u64;
        proof {
            lemma_digits_value_grows(digits@, i as int);
            lemma_digits_value_monotonic(digits@, i + 1);
        }
        let next: u128 = (value as u128) * 10 + (d as u128);
        if next > max as u128 {
            return Err(ParseFailure::TooLarge);
        }
        value = next as u64;
        i += 1;
    }
    assert(digits@.take(digits.len() as int) =~= digits@);
    Ok(value)
}

/// The index of the first `sep` of `s` at or after `i`; the length of `s`
/// where there is none.
pub open spec fn field_end(s: Seq<char>, sep: char, i: int) -> int
    decreases s.len() - i,
{
    if i < 0 || i >= s.len() || s[i] == sep {
        i
    } else {
        field_end(s, sep, i + 1)
    }
}

/// The fields of `s` from index `i` on: what stands between one `sep` and
/// the next. A `sep` at the end is followed by an empty field.
pub open spec fn fields_from(s: Seq<char>, sep: char, i: int) -> Seq<Seq<char>>
    decreases s.len() - i,
{
    if i < 0 || i > s.len() {
        Seq::empty()
    } else {
        let end = field_end(s, sep, i);
        if end < i || end >= s.len() {
            seq![s.skip(i)]
        } else {
            seq![s.subrange(i, end)] + fields_from(s, sep, end + 1)
        }
    }
}

/// The fields of `s`: there is always at least one.
pub open spec fn fields(s: Seq<char>, sep: char) -> Seq<Seq<char>> {
    fields_from(s, sep, 0)
}

/// Splits `s` at every `sep`.
pub fn split_on(s: &[char], sep: char) -> (r: Vec<Vec<char>>)
    ensures
        rows(r@) == fields(s@, sep),
{
    let mut r: Vec<Vec<char>> = Vec::new();
    let mut i: usize = 0;
    assert(rows(r@) + fields_from(s@, sep, 0) =~= fields(s@, sep));
    loop
        invariant
            i <= s.len(),
            rows(r@) + fields_from(s@, sep, i as int) == fields(s@, sep),
        decreases s.len() - i,
    {
        let mut end: usize = i;
        while end < s.len() && s[end] != sep
            invariant
                i <= end <= s.len(),
                field_end(s@, sep, i as int) == field_end(s@, sep, end as int),
            decreases s.len() - end,
        {
            end += 1;
        }
        let ghost before = rows(r@);
        r.push(slice_chars(s, i, end));
        if end >= s.len() {
            assert(s@.subrange(i as int, end as int) =~= s@.skip(i as int));
            assert(rows(r@) =~= before + fields_from(s@, sep, i as int));
            return r;
        }
        assert(rows(r@) =~= before.push(s@.subrange(i as int, end as int)));
        assert(rows(r@) + fields_from(s@, sep, end + 1) =~= before + fields_from(
            s@,
            sep,
            i as int,
        ));
        i = end + 1;
    }
}

} // verus!
