//! Small text helpers shared by the rest of the crate: moving between `&str`,
//! `String` and sequences of characters, and writing and reading numbers.
//!
//! Every contract is stated over `Seq<char>`, the view of `str` and `String`.

use vstd::prelude::*;

verus! {

/// `String::push` appends exactly one character to the end of the string.
pub assume_specification[ String::push ](s: &mut String, c: char)
    ensures
        final(s)@ == old(s)@.push(c),
;

/// The character for a decimal digit `d` in `0..=9`.
pub open spec fn digit_char(d: int) -> char
    recommends
        0 <= d <= 9,
{
    ((48 + d) as u8) as char
}

/// The character for a hexadecimal digit `d` in `0..=15`, in lower case.
pub open spec fn hex_digit_char(d: int) -> char
    recommends
        0 <= d <= 15,
{
    if d < 10 {
        ((48 + d) as u8) as char
    } else {
        ((87 + d) as u8) as char
    }
}

/// The shortest decimal rendering of `n`: no sign, no leading zero but for `0`.
pub open spec fn decimal(n: nat) -> Seq<char>
    decreases n,
{
    if n < 10 {
        seq![digit_char(n as int)]
    } else {
        decimal(n / 10).push(digit_char((n % 10) as int))
    }
}

/// `count` copies of `fill`.
pub open spec fn repeated(fill: char, count: nat) -> Seq<char> {
    Seq::new(count, |i: int| fill)
}

/// `s` with copies of `fill` in front until it is `width` characters long.
pub open spec fn pad_left(s: Seq<char>, width: nat, fill: char) -> Seq<char> {
    if s.len() >= width {
        s
    } else {
        repeated(fill, (width - s.len()) as nat) + s
    }
}

/// The four lower-case hexadecimal digits of `v`, most significant first.
pub open spec fn hex4(v: u16) -> Seq<char> {
    seq![
        hex_digit_char((v as int / 4096) % 16),
        hex_digit_char((v as int / 256) % 16),
        hex_digit_char((v as int / 16) % 16),
        hex_digit_char(v as int % 16),
    ]
}

/// Whether `c` is one of `0` to `9`.
pub open spec fn is_digit(c: char) -> bool {
    '0' <= c <= '9'
}

/// Whether every character of `s` is a decimal digit.
pub open spec fn all_digits(s: Seq<char>) -> bool {
    forall|i: int| 0 <= i < s.len() ==> is_digit(#[trigger] s[i])
}

/// The number that the digit string `s` writes; leading zeros count for nothing.
pub open spec fn digits_value(s: Seq<char>) -> nat
    decreases s.len(),
{
    if s.len() == 0 {
        0
    } else {
        digits_value(s.drop_last()) * 10 + (s.last() as nat - 48) as nat
    }
}

/// `s` without one leading plus sign, if it has one.
pub open spec fn without_plus(s: Seq<char>) -> Seq<char> {
    if s.len() > 0 && s[0] == '+' {
        s.subrange(1, s.len() as int)
    } else {
        s
    }
}

/// Reads an unsigned number no larger than `max`: an optional `+`, then one or
/// more decimal digits and nothing else. Anything else, or a larger number,
/// gives `None`.
pub open spec fn parse_unsigned(s: Seq<char>, max: nat) -> Option<nat> {
    let body = without_plus(s);
    if body.len() > 0 && all_digits(body) && digits_value(body) <= max {
        Some(digits_value(body))
    } else {
        None
    }
}

/// Whether `c` is white space: the characters that `char::is_whitespace` accepts.
pub open spec fn is_whitespace(c: char) -> bool {
    let u = c as u32;
    ||| 0x09 <= u <= 0x0d
    ||| u == 0x20
    ||| u == 0x85
    ||| u == 0xa0
    ||| u == 0x1680
    ||| 0x2000 <= u <= 0x200a
    ||| u == 0x2028
    ||| u == 0x2029
    ||| u == 0x202f
    ||| u == 0x205f
    ||| u == 0x3000
}

/// The number of white-space characters at the front of `s`.
pub open spec fn leading_space(s: Seq<char>) -> nat
    decreases s.len(),
{
    if s.len() > 0 && is_whitespace(s[0]) {
        1 + leading_space(s.drop_first())
    } else {
        0
    }
}

/// The number of white-space characters at the back of `s`.
pub open spec fn trailing_space(s: Seq<char>) -> nat
    decreases s.len(),
{
    if s.len() > 0 && is_whitespace(s.last()) {
        1 + trailing_space(s.drop_last())
    } else {
        0
    }
}

/// `s` without the white space at its back.
pub open spec fn trim_end(s: Seq<char>) -> Seq<char> {
    s.take(s.len() - trailing_space(s))
}

/// `s` without the white space at its front and at its back.
pub open spec fn trim(s: Seq<char>) -> Seq<char> {
    let t = trim_end(s);
    t.skip(leading_space(t) as int)
}

/// The number of copies of `c` at the back of `s`.
pub open spec fn trailing_run(s: Seq<char>, c: char) -> nat
    decreases s.len(),
{
    if s.len() > 0 && s.last() == c {
        1 + trailing_run(s.drop_last(), c)
    } else {
        0
    }
}

/// `s` without the copies of `c` at its back.
pub open spec fn trim_end_matches(s: Seq<char>, c: char) -> Seq<char> {
    s.take(s.len() - trailing_run(s, c))
}

/// The first index at which `c` stands in `s`, or the length of `s`.
pub open spec fn index_of(s: Seq<char>, c: char) -> nat
    decreases s.len(),
{
    if s.len() == 0 || s[0] == c {
        0
    } else {
        1 + index_of(s.drop_first(), c)
    }
}

/// The pieces of `s` between occurrences of `sep`. There is always one piece
/// more than there are separators, so an empty `s` gives one empty piece.
pub open spec fn split(s: Seq<char>, sep: char) -> Seq<Seq<char>>
    decreases s.len(),
{
    let k = index_of(s, sep);
    if k >= s.len() {
        seq![s]
    } else {
        seq![s.take(k as int)] + split(s.skip(k as int + 1), sep)
    }
}

/// Whether `needle` stands in `s` at index `at`.
pub open spec fn occurs_at(s: Seq<char>, needle: Seq<char>, at: int) -> bool {
    &&& 0 <= at
    &&& at + needle.len() <= s.len()
    &&& s.subrange(at, at + needle.len()) == needle
}

/// Whether `needle` stands somewhere in `s`.
pub open spec fn contains(s: Seq<char>, needle: Seq<char>) -> bool {
    exists|at: int| occurs_at(s, needle, at)
}

/// The count of white space at the back of `s` is the largest `k` such that
/// the last `k` characters are white space.
pub proof fn lemma_trailing_space_is(s: Seq<char>, k: nat)
    requires
        k <= s.len(),
        forall|i: int| s.len() - k <= i < s.len() ==> is_whitespace(#[trigger] s[i]),
        k < s.len() ==> !is_whitespace(s[s.len() - k - 1]),
    ensures
        trailing_space(s) == k,
    decreases s.len(),
{
    if k > 0 {
        assert(is_whitespace(s[s.len() - 1]));
        lemma_trailing_space_is(s.drop_last(), (k - 1) as nat);
    }
}

/// The count of white space at the front of `s` is the largest `k` such that
/// the first `k` characters are white space.
pub proof fn lemma_leading_space_is(s: Seq<char>, k: nat)
    requires
        k <= s.len(),
        forall|i: int| 0 <= i < k ==> is_whitespace(#[trigger] s[i]),
        k < s.len() ==> !is_whitespace(s[k as int]),
    ensures
        leading_space(s) == k,
    decreases s.len(),
{
    if k > 0 {
        assert(is_whitespace(s[0]));
        let t = s.drop_first();
        assert forall|i: int| 0 <= i < k - 1 implies is_whitespace(#[trigger] t[i]) by {
            assert(t[i] == s[i + 1]);
        }
        lemma_leading_space_is(t, (k - 1) as nat);
    }
}

/// The run of `c` at the back of `s` is the largest `k` such that the last
/// `k` characters are `c`.
pub proof fn lemma_trailing_run_is(s: Seq<char>, c: char, k: nat)
    requires
        k <= s.len(),
        forall|i: int| s.len() - k <= i < s.len() ==> #[trigger] s[i] == c,
        k < s.len() ==> s[s.len() - k - 1] != c,
    ensures
        trailing_run(s, c) == k,
    decreases s.len(),
{
    if k > 0 {
        assert(s[s.len() - 1] == c);
        lemma_trailing_run_is(s.drop_last(), c, (k - 1) as nat);
    }
}

/// The first index of `c` in `s` is the `k` in front of which no `c` stands
/// and at which one does, or the length of `s`.
pub proof fn lemma_index_of_is(s: Seq<char>, c: char, k: nat)
    requires
        k <= s.len(),
        forall|i: int| 0 <= i < k ==> #[trigger] s[i] != c,
        k < s.len() ==> s[k as int] == c,
    ensures
        index_of(s, c) == k,
    decreases s.len(),
{
    if k > 0 {
        assert(s[0] != c);
        let t = s.drop_first();
        assert forall|i: int| 0 <= i < k - 1 implies #[trigger] t[i] != c by {
            assert(t[i] == s[i + 1]);
        }
        lemma_index_of_is(t, c, (k - 1) as nat);
    }
}


/// The characters of `s`, in order.
pub fn chars_of(s: &str) -> (out: Vec<char>)
    ensures
        out@ == s@,
{
    let mut out: Vec<char> = Vec::new();
    for c in it: s.chars()
        invariant
            out@ == it.seq().take(it.index()),
            it.seq() == s@,
    {
        out.push(c);
    }
    out
}

/// A string holding exactly the characters of `chars`.
pub fn string_of(chars: &[char]) -> (out: String)
    ensures
        out@ == chars@,
{
    let mut out = String::new();
    let mut i: usize = 0;
    while i < chars.len()
        invariant
            i <= chars.len(),
            out@ == chars@.take(i as int),
        decreases chars.len() - i,
    {
        out.push(chars[i]);
        i = i + 1;
    }
    out
}

/// A copy of the characters of `s` from index `from` up to, not including, `to`.
pub fn slice_of(s: &[char], from: usize, to: usize) -> (out: Vec<char>)
    requires
        from <= to <= s.len(),
    ensures
        out@ == s@.subrange(from as int, to as int),
{
    let mut out: Vec<char> = Vec::new();
    let mut i: usize = from;
    while i < to
        invariant
            from <= i <= to <= s.len(),
            out@ == s@.subrange(from as int, i as int),
        decreases to - i,
    {
        out.push(s[i]);
        i = i + 1;
    }
    out
}

/// Appends the characters of `s` to `out`.
pub fn push_chars(out: &mut String, s: &[char])
    ensures
        final(out)@ == old(out)@ + s@,
{
    let mut i: usize = 0;
    while i < s.len()
        invariant
            i <= s.len(),
            out@ == old(out)@ + s@.take(i as int),
        decreases s.len() - i,
    {
        out.push(s[i]);
        i = i + 1;
    }
    assert(s@.take(s.len() as int) == s@);
}

/// Appends `count` copies of `fill` to `out`.
pub fn push_fill(out: &mut String, count: usize, fill: char)
    ensures
        final(out)@ == old(out)@ + repeated(fill, count as nat),
{
    let mut i: usize = 0;
    while i < count
        invariant
            i <= count,
            out@ == old(out)@ + repeated(fill, i as nat),
        decreases count - i,
    {
        out.push(fill);
        i = i + 1;
    }
}

/// Appends the decimal rendering of `n` to `out`.
pub fn push_decimal(out: &mut String, n: u64)
    ensures
        final(out)@ == old(out)@ + decimal(n as nat),
    decreases n,
{
    if n >= 10 {
        push_decimal(out, n / 10);
    }
    let d: u8 = (n % 10) as u8;
    out.push((48u8 + d) as char);
}

/// The number of characters in the decimal rendering of `n`.
pub fn decimal_len(n: u64) -> (len: usize)
    ensures
        len == decimal(n as nat).len(),
        1 <= len <= 20,
    decreases n,
{
    if n >= 10 {
        let rest: usize = decimal_len(n / 10);
        proof {
            lemma_decimal_len_bound(n as nat);
        }
        rest + 1
    } else {
        1
    }
}

/// A number below `10^k` has at most `k` decimal digits.
pub proof fn lemma_decimal_len_bound(n: nat)
    ensures
        n < 10 ==> decimal(n).len() == 1,
        n <= 0xffff_ffff_ffff_ffff ==> decimal(n).len() <= 20,
    decreases n,
{
    reveal_with_fuel(decimal, 21);
}

/// Appends the decimal rendering of `n` to `out`, with `fill` in front of it
/// where it has fewer than `width` characters.
pub fn push_decimal_padded(out: &mut String, n: u64, width: usize, fill: char)
    ensures
        final(out)@ == old(out)@ + pad_left(decimal(n as nat), width as nat, fill),
{
    let len: usize = decimal_len(n);
    if len < width {
        push_fill(out, width - len, fill);
    }
    push_decimal(out, n);
}

/// The lower-case hexadecimal digit for `d`.
pub fn hex_digit(d: u8) -> (c: char)
    requires
        d < 16,
    ensures
        c == hex_digit_char(d as int),
{
    if d < 10 {
        (48u8 + d) as char
    } else {
        (87u8 + d) as char
    }
}

/// Appends the four lower-case hexadecimal digits of `v` to `out`.
pub fn push_hex4(out: &mut String, v: u16)
    ensures
        final(out)@ == old(out)@ + hex4(v),
{
    out.push(hex_digit(((v / 4096) % 16) as u8));
    out.push(hex_digit(((v / 256) % 16) as u8));
    out.push(hex_digit(((v / 16) % 16) as u8));
    out.push(hex_digit((v % 16) as u8));
}


/// Whether `c` is white space.
pub fn char_is_whitespace(c: char) -> (b: bool)
    ensures
        b == is_whitespace(c),
{
    let u: u32 = c as u32;
    (0x09 <= u && u <= 0x0d) || u == 0x20 || u == 0x85 || u == 0xa0 || u == 0x1680 || (0x2000 <= u
        && u <= 0x200a) || u == 0x2028 || u == 0x2029 || u == 0x202f || u == 0x205f || u == 0x3000
}

/// The first index at which `c` stands in `s`, or the length of `s`.
pub fn find_char(s: &[char], c: char) -> (k: usize)
    ensures
        k == index_of(s@, c),
        k <= s.len(),
{
    let mut k: usize = 0;
    while k < s.len() && s[k] != c
        invariant
            k <= s.len(),
            forall|i: int| 0 <= i < k ==> #[trigger] s@[i] != c,
        decreases s.len() - k,
    {
        k = k + 1;
    }
    proof {
        lemma_index_of_is(s@, c, k as nat);
    }
    k
}

/// A copy of `s` without the white space at its front and at its back.
pub fn trim_chars(s: &[char]) -> (out: Vec<char>)
    ensures
        out@ == trim(s@),
{
    let mut end: usize = s.len();
    while end > 0 && char_is_whitespace(s[end - 1])
        invariant
            end <= s.len(),
            forall|i: int| end <= i < s.len() ==> is_whitespace(#[trigger] s@[i]),
        decreases end,
    {
        end = end - 1;
    }
    proof {
        lemma_trailing_space_is(s@, (s.len() - end) as nat);
    }
    let ghost t = s@.take(end as int);
    let mut start: usize = 0;
    while start < end && char_is_whitespace(s[start])
        invariant
            start <= end <= s.len(),
            t == s@.take(end as int),
            forall|i: int| 0 <= i < start ==> is_whitespace(#[trigger] t[i]),
        decreases end - start,
    {
        start = start + 1;
    }
    proof {
        lemma_leading_space_is(t, start as nat);
        assert(s@.subrange(start as int, end as int) == t.skip(start as int));
    }
    slice_of(s, start, end)
}

/// A copy of `s` without the copies of `c` at its back.
pub fn trim_end_matches_chars(s: &[char], c: char) -> (out: Vec<char>)
    ensures
        out@ == trim_end_matches(s@, c),
{
    let mut end: usize = s.len();
    while end > 0 && s[end - 1] == c
        invariant
            end <= s.len(),
            forall|i: int| end <= i < s.len() ==> #[trigger] s@[i] == c,
        decreases end,
    {
        end = end - 1;
    }
    proof {
        lemma_trailing_run_is(s@, c, (s.len() - end) as nat);
    }
    slice_of(s, 0, end)
}

/// The views of the pieces held by `parts`.
pub open spec fn views(parts: Seq<Vec<char>>) -> Seq<Seq<char>> {
    parts.map_values(|p: Vec<char>| p@)
}

/// The pieces of `s` between occurrences of `sep`.
pub fn split_chars(s: &[char], sep: char) -> (parts: Vec<Vec<char>>)
    ensures
        views(parts@) == split(s@, sep),
{
    let mut parts: Vec<Vec<char>> = Vec::new();
    let mut start: usize = 0;
    proof {
        assert(s@.skip(0) == s@);
        assert(views(parts@) + split(s@, sep) == split(s@, sep));
    }
    loop
        invariant_except_break
            start <= s.len(),
            split(s@, sep) == views(parts@) + split(s@.skip(start as int), sep),
        ensures
            views(parts@) == split(s@, sep),
        decreases s.len() - start,
    {
        let ghost rest = s@.skip(start as int);
        let mut k: usize = start;
        while k < s.len() && s[k] != sep
            invariant
                start <= k <= s.len(),
                rest == s@.skip(start as int),
                forall|i: int| 0 <= i < k - start ==> #[trigger] rest[i] != sep,
            decreases s.len() - k,
        {
            k = k + 1;
        }
        proof {
            lemma_index_of_is(rest, sep, (k - start) as nat);
        }
        let piece: Vec<char> = slice_of(s, start, k);
        let ghost before = views(parts@);
        parts.push(piece);
        proof {
            assert(views(parts@) == before.push(piece@));
            assert(piece@ == rest.take(k - start));
        }
        if k >= s.len() {
            proof {
                assert(rest.take(k - start) == rest);
                assert(before + seq![rest] == before.push(rest));
            }
            break;
        }
        proof {
            assert(rest.skip(k - start + 1) == s@.skip(k + 1));
            assert(before + (seq![piece@] + split(s@.skip(k + 1), sep)) == before.push(piece@)
                + split(s@.skip(k + 1), sep));
        }
        start = k + 1;
    }
    parts
}

/// Reads an unsigned number no larger than `max`, as `parse_unsigned` defines it.
pub fn parse_unsigned_chars(s: &[char], max: u64) -> (r: Option<u64>)
    ensures
        r matches Some(v) ==> parse_unsigned(s@, max as nat) == Some(v as nat),
        r is None ==> parse_unsigned(s@, max as nat) is None,
{
    let start: usize = if s.len() > 0 && s[0] == '+' {
        1
    } else {
        0
    };
    let ghost body = without_plus(s@);
    if start >= s.len() {
        return None;
    }
    let mut value: u64 = 0;
    let mut i: usize = start;
    proof {
        assert(body =~= s@.subrange(start as int, s.len() as int));
    }
    while i < s.len()
        invariant
            start <= i <= s.len(),
            body == without_plus(s@),
            body == s@.subrange(start as int, s.len() as int),
            all_digits(body.take(i - start)),
            value == digits_value(body.take(i - start)),
            value <= max,
        decreases s.len() - i,
    {
        let c: char = s[i];
        let ghost prefix = body.take(i - start + 1);
        proof {
            assert(prefix.drop_last() == body.take(i - start));
            assert(prefix.last() == c);
        }
        if !('0' <= c && c <= '9') {
            proof {
                assert(body[i - start] == c);
                assert(!is_digit(body[i - start]));
            }
            return None;
        }
        let d: u64 = (c as u32 - 48) as u64;
        let next: u128 = value as u128 * 10 + d as u128;
        if next > max as u128 {
            proof {
                assert(digits_value(prefix) == next);
                lemma_digits_value_grows(body, i - start + 1);
            }
            return None;
        }
        value = next as u64;
        proof {
            assert forall|j: int| 0 <= j < prefix.len() implies is_digit(#[trigger] prefix[j]) by {
                if j < i - start {
                    assert(prefix[j] == body.take(i - start)[j]);
                }
            }
        }
        i = i + 1;
    }
    proof {
        assert(body.take(s.len() - start) == body);
    }
    Some(value)
}

/// A digit string writes a number no smaller than any of its prefixes does.
pub proof fn lemma_digits_value_grows(s: Seq<char>, k: int)
    requires
        0 <= k <= s.len(),
    ensures
        digits_value(s.take(k)) <= digits_value(s),
    decreases s.len() - k,
{
    if k < s.len() {
        lemma_digits_value_grows(s, k + 1);
        assert(s.take(k + 1).drop_last() == s.take(k));
        assert(digits_value(s.take(k)) <= digits_value(s.take(k + 1))) by (nonlinear_arith)
            requires
                digits_value(s.take(k + 1)) == digits_value(s.take(k)) * 10 + (s.take(k + 1).last() as nat
                    - 48) as nat,
        ;
    } else {
        assert(s.take(k) == s);
    }
}

/// Whether `needle` stands somewhere in `s`.
pub fn contains_chars(s: &[char], needle: &[char]) -> (b: bool)
    ensures
        b == contains(s@, needle@),
{
    if needle.len() > s.len() {
        assert(!contains(s@, needle@));
        return false;
    }
    let last: usize = s.len() - needle.len();
    let mut at: usize = 0;
    while at <= last
        invariant
            last == s.len() - needle.len(),
            at <= last + 1,
            forall|a: int| 0 <= a < at ==> !occurs_at(s@, needle@, a),
        decreases last + 1 - at,
    {
        let mut j: usize = 0;
        while j < needle.len() && s[at + j] == needle[j]
            invariant
                at <= last,
                last == s.len() - needle.len(),
                j <= needle.len(),
                forall|i: int| 0 <= i < j ==> s@[at + i] == #[trigger] needle@[i],
            decreases needle.len() - j,
        {
            j = j + 1;
        }
        if j == needle.len() {
            proof {
                assert(s@.subrange(at as int, at + needle.len()) =~= needle@);
                assert(occurs_at(s@, needle@, at as int));
            }
            return true;
        }
        proof {
            assert(s@.subrange(at as int, at + needle.len())[j as int] != needle@[j as int]);
        }
        at = at + 1;
    }
    false
}


/// `line` without one carriage return at its end, if it has one.
pub open spec fn without_return(line: Seq<char>) -> Seq<char> {
    if line.len() > 0 && line.last() == '\r' {
        line.drop_last()
    } else {
        line
    }
}

/// The lines of `text`. A line ends at a newline, and a carriage return just
/// in front of that newline does not belong to the line. What stands behind
/// the last newline is a line too, unless it is empty, and it keeps a
/// carriage return at its end.
pub open spec fn lines(text: Seq<char>) -> Seq<Seq<char>>
    decreases text.len(),
{
    let k = index_of(text, '\n');
    if text.len() == 0 {
        Seq::empty()
    } else if k >= text.len() {
        seq![text]
    } else {
        seq![without_return(text.take(k as int))] + lines(text.skip(k as int + 1))
    }
}

/// The lines of `text`.
pub fn lines_of(text: &[char]) -> (out: Vec<Vec<char>>)
    ensures
        views(out@) == lines(text@),
{
    let mut out: Vec<Vec<char>> = Vec::new();
    let mut start: usize = 0;
    proof {
        assert(text@.skip(0) == text@);
        assert(views(out@) + lines(text@) == lines(text@));
    }
    while start < text.len()
        invariant
            start <= text.len(),
            lines(text@) == views(out@) + lines(text@.skip(start as int)),
        decreases text.len() - start,
    {
        let ghost rest = text@.skip(start as int);
        let mut k: usize = start;
        while k < text.len() && text[k] != '\n'
            invariant
                start <= k <= text.len(),
                rest == text@.skip(start as int),
                forall|i: int| 0 <= i < k - start ==> #[trigger] rest[i] != '\n',
            decreases text.len() - k,
        {
            k = k + 1;
        }
        proof {
            lemma_index_of_is(rest, '\n', (k - start) as nat);
        }
        let ghost before = views(out@);
        if k >= text.len() {
            let piece: Vec<char> = slice_of(text, start, k);
            out.push(piece);
            proof {
                assert(piece@ == rest);
                assert(views(out@) == before.push(rest));
                assert(text@.skip(text.len() as int) == Seq::<char>::empty());
                assert(before + seq![rest] == before.push(rest) + lines(Seq::<char>::empty()));
            }
            start = text.len();
        } else {
            let end: usize = if k > start && text[k - 1] == '\r' {
                k - 1
            } else {
                k
            };
            let piece: Vec<char> = slice_of(text, start, end);
            out.push(piece);
            proof {
                assert(text@.subrange(start as int, k as int) == rest.take(k - start));
                assert(piece@ == without_return(rest.take(k - start)));
                assert(views(out@) == before.push(piece@));
                assert(rest.skip(k - start + 1) == text@.skip(k + 1));
                assert(before + (seq![piece@] + lines(text@.skip(k + 1))) == before.push(piece@)
                    + lines(text@.skip(k + 1)));
            }
            start = k + 1;
        }
    }
    proof {
        assert(text@.skip(start as int).len() == 0);
        assert(views(out@) + Seq::<Seq<char>>::empty() == views(out@));
    }
    out
}

/// Whether two texts hold the same characters.
pub fn chars_equal(a: &[char], b: &[char]) -> (same: bool)
    ensures
        same == (a@ == b@),
{
    if a.len() != b.len() {
        return false;
    }
    let mut i: usize = 0;
    while i < a.len()
        invariant
            i <= a.len(),
            a.len() == b.len(),
            a@.take(i as int) == b@.take(i as int),
        decreases a.len() - i,
    {
        if a[i] != b[i] {
            return false;
        }
        proof {
            assert(a@.take(i + 1) == a@.take(i as int).push(a@[i as int]));
            assert(b@.take(i + 1) == b@.take(i as int).push(b@[i as int]));
        }
        i = i + 1;
    }
    proof {
        assert(a@.take(a.len() as int) == a@);
        assert(b@.take(b.len() as int) == b@);
    }
    true
}

/// A copy of `s` without the white space at its back.
pub fn trim_end_chars(s: &[char]) -> (out: Vec<char>)
    ensures
        out@ == trim_end(s@),
{
    let mut end: usize = s.len();
    while end > 0 && char_is_whitespace(s[end - 1])
        invariant
            end <= s.len(),
            forall|i: int| end <= i < s.len() ==> is_whitespace(#[trigger] s@[i]),
        decreases end,
    {
        end = end - 1;
    }
    proof {
        lemma_trailing_space_is(s@, (s.len() - end) as nat);
    }
    slice_of(s, 0, end)
}

} // verus!
