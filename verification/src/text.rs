//! Character-sequence operations used by the subtitle parser.
//!
//! Text is handled as a vector of characters. Each operation has a spec
//! function over `Seq<char>` that says what it computes.

use vstd::prelude::*;
use vstd::string::*;

verus! {

/// `String::push` appends one character to the end of the string.
pub assume_specification[ String::push ](s: &mut String, c: char)
    ensures
        final(s)@ == old(s)@.push(c),
;

/// The views of a sequence of character vectors.
pub open spec fn texts(parts: Seq<Vec<char>>) -> Seq<Seq<char>> {
    parts.map_values(|p: Vec<char>| p@)
}

/// Whether a character has the Unicode property White_Space.
pub open spec fn is_whitespace(c: char) -> bool {
    let n = c as u32;
    ||| 0x09 <= n <= 0x0D
    ||| n == 0x20
    ||| n == 0x85
    ||| n == 0xA0
    ||| n == 0x1680
    ||| 0x2000 <= n <= 0x200A
    ||| n == 0x2028
    ||| n == 0x2029
    ||| n == 0x202F
    ||| n == 0x205F
    ||| n == 0x3000
}

/// The text without its leading white space.
pub open spec fn trimmed_start(s: Seq<char>) -> Seq<char>
    decreases s.len(),
{
    if s.len() > 0 && is_whitespace(s.first()) {
        trimmed_start(s.drop_first())
    } else {
        s
    }
}

/// The text without its trailing white space.
pub open spec fn trimmed_end(s: Seq<char>) -> Seq<char>
    decreases s.len(),
{
    if s.len() > 0 && is_whitespace(s.last()) {
        trimmed_end(s.drop_last())
    } else {
        s
    }
}

/// The text without its leading and trailing white space.
pub open spec fn trimmed(s: Seq<char>) -> Seq<char> {
    trimmed_end(trimmed_start(s))
}

/// Whether the text holds nothing but white space.
pub open spec fn is_blank(s: Seq<char>) -> bool {
    trimmed(s).len() == 0
}

/// Whether `pat` stands in `s` at index `i`.
pub open spec fn matches_at(s: Seq<char>, i: int, pat: Seq<char>) -> bool {
    &&& 0 <= i
    &&& i + pat.len() <= s.len()
    &&& s.subrange(i, i + pat.len()) == pat
}

/// Whether `s` begins with `pat`.
pub open spec fn has_prefix(s: Seq<char>, pat: Seq<char>) -> bool {
    matches_at(s, 0, pat)
}

/// Whether `pat` stands somewhere in `s`.
pub open spec fn has_infix(s: Seq<char>, pat: Seq<char>) -> bool {
    exists|i: int| matches_at(s, i, pat)
}

/// The pieces of `s` from index `start` on, where no separator begins in
/// `start..i`: the text is cut at each occurrence of `pat`, found from left to
/// right, and an occurrence that was cut out is not searched again.
pub open spec fn split_from(s: Seq<char>, pat: Seq<char>, start: int, i: int) -> Seq<Seq<char>>
    decreases s.len() - i,
{
    if pat.len() == 0 || start < 0 || i < start || i + pat.len() > s.len() {
        seq![s.subrange(start, s.len() as int)]
    } else if matches_at(s, i, pat) {
        seq![s.subrange(start, i)] + split_from(s, pat, i + pat.len(), i + pat.len())
    } else {
        split_from(s, pat, start, i + 1)
    }
}

/// The pieces of `s` between the occurrences of the separator `pat`. There is
/// always at least one piece. An empty separator occurs nowhere.
pub open spec fn split_on(s: Seq<char>, pat: Seq<char>) -> Seq<Seq<char>> {
    split_from(s, pat, 0, 0)
}

/// A line without the carriage return that ends it, if there is one.
pub open spec fn without_cr(line: Seq<char>) -> Seq<char> {
    if line.len() > 0 && line.last() == '\r' {
        line.drop_last()
    } else {
        line
    }
}

/// The lines of a text. A line ends with a line feed, or with a carriage
/// return and a line feed; neither belongs to the line. The last line need not
/// be ended, and an empty rest after the last line feed is no line.
pub open spec fn lines_of(s: Seq<char>) -> Seq<Seq<char>> {
    let pieces = split_on(s, seq!['\n']);
    let ended = pieces.drop_last().map_values(|p: Seq<char>| without_cr(p));
    if pieces.last().len() == 0 {
        ended
    } else {
        ended.push(pieces.last())
    }
}

/// The parts in order with `sep` between each two neighbours.
pub open spec fn joined(parts: Seq<Seq<char>>, sep: Seq<char>) -> Seq<char>
    decreases parts.len(),
{
    if parts.len() == 0 {
        Seq::empty()
    } else if parts.len() == 1 {
        parts[0]
    } else {
        joined(parts.drop_last(), sep) + sep + parts.last()
    }
}

/// The text with every `from` replaced by `to`.
pub open spec fn replaced(s: Seq<char>, from: char, to: char) -> Seq<char> {
    s.map_values(
        |c: char|
            if c == from {
                to
            } else {
                c
            },
    )
}

/// Whether a character is one of the ten ASCII digits.
pub open spec fn is_digit(c: char) -> bool {
    0x30 <= c as u32 <= 0x39
}

/// The number that an ASCII digit stands for.
pub open spec fn digit_value(c: char) -> nat {
    if is_digit(c) {
        (c as u32 - 0x30) as nat
    } else {
        0
    }
}

/// Whether all characters are ASCII digits.
pub open spec fn all_digits(s: Seq<char>) -> bool {
    forall|i: int| 0 <= i < s.len() ==> is_digit(#[trigger] s[i])
}

/// The number written by a sequence of decimal digits.
pub open spec fn digits_value(s: Seq<char>) -> nat
    decreases s.len(),
{
    if s.len() == 0 {
        0
    } else {
        digits_value(s.drop_last()) * 10 + digit_value(s.last())
    }
}

/// The digits of an unsigned decimal numeral: the text without one leading
/// plus sign.
pub open spec fn unsigned_digits(s: Seq<char>) -> Seq<char> {
    if s.len() > 0 && s.first() == '+' {
        s.drop_first()
    } else {
        s
    }
}

/// The number that the text writes in decimal, where it is an optional plus
/// sign followed by at least one digit and the number fits in 64 bits.
pub open spec fn parsed_u64(s: Seq<char>) -> Option<u64> {
    let digits = unsigned_digits(s);
    if digits.len() > 0 && all_digits(digits) && digits_value(digits) <= u64::MAX {
        Some(digits_value(digits) as u64)
    } else {
        None
    }
}

/// The character that writes a number below ten.
pub open spec fn digit_char(d: nat) -> char
    recommends
        d < 10,
{
    ((0x30 + d) as u8) as char
}

/// The decimal numeral of a number, without leading zeros.
pub open spec fn decimal(n: nat) -> Seq<char>
    decreases n,
{
    if n < 10 {
        seq![digit_char(n)]
    } else {
        decimal(n / 10).push(digit_char(n % 10))
    }
}

/// The characters of a string slice, in order.
pub fn chars_of(s: &str) -> (v: Vec<char>)
    ensures
        v@ == s@,
{
    let mut v: Vec<char> = Vec::new();
    for c in it: s.chars()
        invariant
            v@ == it.seq().take(it.index() as int),
    {
        v.push(c);
    }
    v
}

/// The string made of the given characters, in order.
pub fn string_of(chars: &Vec<char>) -> (s: String)
    ensures
        s@ == chars@,
{
    let mut s = String::new();
    let mut i: usize = 0;
    while i < chars.len()
        invariant
            i <= chars.len(),
            s@ == chars@.take(i as int),
        decreases chars.len() - i,
    {
        s.push(chars[i]);
        i += 1;
    }
    s
}

/// Tells whether a character is white space.
pub fn is_whitespace_char(c: char) -> (b: bool)
    ensures
        b == is_whitespace(c),
{
    let n: u32 = c as u32;
    (0x09 <= n && n <= 0x0D) || n == 0x20 || n == 0x85 || n == 0xA0 || n == 0x1680 || (0x2000 <= n
        && n <= 0x200A) || n == 0x2028 || n == 0x2029 || n == 0x202F || n == 0x205F || n == 0x3000
}

/// Copies the characters of `s` in `from..to`.
pub fn slice_of(s: &Vec<char>, from: usize, to: usize) -> (r: Vec<char>)
    requires
        from <= to <= s.len(),
    ensures
        r@ == s@.subrange(from as int, to as int),
{
    let mut r: Vec<char> = Vec::new();
    let mut i: usize = from;
    while i < to
        invariant
            from <= i <= to <= s.len(),
            r@ == s@.subrange(from as int, i as int),
        decreases to - i,
    {
        r.push(s[i]);
        i += 1;
    }
    r
}


/// Appends the characters of `other` to `r`.
pub fn append(r: &mut Vec<char>, other: &Vec<char>)
    ensures
        final(r)@ == old(r)@ + other@,
{
    let mut i: usize = 0;
    while i < other.len()
        invariant
            i <= other.len(),
            r@ == old(r)@ + other@.take(i as int),
        decreases other.len() - i,
    {
        r.push(other[i]);
        i += 1;
    }
}

/// Removes leading and trailing white space.
pub fn trim(s: &Vec<char>) -> (r: Vec<char>)
    ensures
        r@ == trimmed(s@),
{
    let n = s.len();
    let mut i: usize = 0;
    assert(s@.subrange(0, n as int) == s@);
    while i < n && is_whitespace_char(s[i])
        invariant
            i <= n == s.len(),
            trimmed_start(s@) == trimmed_start(s@.subrange(i as int, n as int)),
        decreases n - i,
    {
        assert(s@.subrange(i as int, n as int).drop_first() == s@.subrange(i + 1, n as int));
        i += 1;
    }
    let mut j: usize = n;
    while j > i && is_whitespace_char(s[j - 1])
        invariant
            i <= j <= n == s.len(),
            trimmed(s@) == trimmed_end(s@.subrange(i as int, j as int)),
        decreases j,
    {
        assert(s@.subrange(i as int, j as int).drop_last() == s@.subrange(i as int, j - 1));
        j -= 1;
    }
    slice_of(s, i, j)
}

/// Tells whether `pat` stands in `s` at index `i`.
pub fn occurs_at(s: &Vec<char>, i: usize, pat: &Vec<char>) -> (b: bool)
    ensures
        b == matches_at(s@, i as int, pat@),
{
    let n = s.len();
    let k = pat.len();
    if i > n || k > n - i {
        return false;
    }
    let mut j: usize = 0;
    while j < k
        invariant
            j <= k == pat.len(),
            i + k <= n == s.len(),
            forall|t: int| 0 <= t < j ==> s@[i + t] == pat@[t],
        decreases k - j,
    {
        if s[i + j] != pat[j] {
            return false;
        }
        j += 1;
    }
    assert(s@.subrange(i as int, i + k) =~= pat@);
    true
}

/// Tells whether `s` begins with `pat`.
pub fn starts_with(s: &Vec<char>, pat: &Vec<char>) -> (b: bool)
    ensures
        b == has_prefix(s@, pat@),
{
    occurs_at(s, 0, pat)
}

/// Tells whether `pat` stands somewhere in `s`.
pub fn contains(s: &Vec<char>, pat: &Vec<char>) -> (b: bool)
    ensures
        b == has_infix(s@, pat@),
{
    let n = s.len();
    let mut i: usize = 0;
    while i <= n
        invariant
            i <= n + 1,
            n == s.len(),
            forall|t: int| 0 <= t < i ==> !matches_at(s@, t, pat@),
        decreases n + 1 - i,
    {
        if occurs_at(s, i, pat) {
            return true;
        }
        if i == n {
            return false;
        }
        i += 1;
    }
    false
}

/// Every split has at least one piece.
pub proof fn lemma_split_has_piece(s: Seq<char>, pat: Seq<char>, start: int, i: int)
    ensures
        split_from(s, pat, start, i).len() >= 1,
    decreases s.len() - i,
{
    if pat.len() == 0 || start < 0 || i < start || i + pat.len() > s.len() {
    } else if matches_at(s, i, pat) {
        lemma_split_has_piece(s, pat, i + pat.len(), i + pat.len());
    } else {
        lemma_split_has_piece(s, pat, start, i + 1);
    }
}

/// Cuts `s` at each occurrence of the separator `pat`.
pub fn split(s: &Vec<char>, pat: &Vec<char>) -> (pieces: Vec<Vec<char>>)
    ensures
        texts(pieces@) == split_on(s@, pat@),
        pieces.len() >= 1,
{
    let n = s.len();
    let k = pat.len();
    let mut pieces: Vec<Vec<char>> = Vec::new();
    proof {
        lemma_split_has_piece(s@, pat@, 0, 0);
    }
    if k == 0 || k > n {
        pieces.push(slice_of(s, 0, n));
        return pieces;
    }
    let mut start: usize = 0;
    let mut i: usize = 0;
    while i <= n - k
        invariant
            start <= i <= n == s.len(),
            1 <= k <= n,
            k == pat.len(),
            split_on(s@, pat@) == texts(pieces@) + split_from(s@, pat@, start as int, i as int),
        decreases n - i,
    {
        if occurs_at(s, i, pat) {
            pieces.push(slice_of(s, start, i));
            i += k;
            start = i;
        } else {
            i += 1;
        }
    }
    pieces.push(slice_of(s, start, n));
    pieces
}

/// Cuts a text into its lines.
pub fn lines(s: &Vec<char>) -> (r: Vec<Vec<char>>)
    ensures
        texts(r@) == lines_of(s@),
{
    let mut line_feed: Vec<char> = Vec::new();
    line_feed.push('\n');
    let pieces = split(s, &line_feed);
    let last = pieces.len() - 1;
    let mut r: Vec<Vec<char>> = Vec::new();
    let mut i: usize = 0;
    while i < last
        invariant
            i <= last == pieces.len() - 1,
            texts(r@) == texts(pieces@).take(i as int).map_values(|p: Seq<char>| without_cr(p)),
        decreases last - i,
    {
        let piece = &pieces[i];
        let m = piece.len();
        let ghost before = texts(r@);
        if m > 0 && piece[m - 1] == '\r' {
            r.push(slice_of(piece, 0, m - 1));
        } else {
            r.push(slice_of(piece, 0, m));
        }
        assert(texts(r@) =~= before.push(without_cr(piece@))) by {
            assert(piece@.subrange(0, m as int) == piece@);
        }
        i += 1;
    }
    let tail = &pieces[last];
    if tail.len() > 0 {
        r.push(slice_of(tail, 0, tail.len()));
        assert(tail@.subrange(0, tail.len() as int) == tail@);
    }
    r
}

/// Joins the parts from index `from` on, with `sep` between neighbours.
pub fn join(parts: &Vec<Vec<char>>, from: usize, sep: &Vec<char>) -> (r: Vec<char>)
    requires
        from <= parts.len(),
    ensures
        r@ == joined(texts(parts@).subrange(from as int, parts.len() as int), sep@),
{
    let mut r: Vec<char> = Vec::new();
    let mut i: usize = from;
    let n = parts.len();
    while i < n
        invariant
            from <= i <= n == parts.len(),
            r@ == joined(texts(parts@).subrange(from as int, i as int), sep@),
        decreases n - i,
    {
        if i > from {
            append(&mut r, sep);
        }
        append(&mut r, &parts[i]);
        proof {
            let next = texts(parts@).subrange(from as int, i + 1);
            assert(next.drop_last() == texts(parts@).subrange(from as int, i as int));
        }
        i += 1;
    }
    r
}

/// Replaces every `from` by `to`.
pub fn replace(s: &Vec<char>, from: char, to: char) -> (r: Vec<char>)
    ensures
        r@ == replaced(s@, from, to),
{
    let mut r: Vec<char> = Vec::new();
    let mut i: usize = 0;
    while i < s.len()
        invariant
            i <= s.len(),
            r@ == replaced(s@.take(i as int), from, to),
        decreases s.len() - i,
    {
        let c = s[i];
        if c == from {
            r.push(to);
        } else {
            r.push(c);
        }
        i += 1;
    }
    r
}

/// A numeral is worth at least as much as each of its beginnings.
pub proof fn lemma_digits_value_grows(s: Seq<char>, k: int)
    requires
        0 <= k <= s.len(),
    ensures
        digits_value(s.take(k)) <= digits_value(s),
    decreases s.len(),
{
    if k == s.len() {
        assert(s.take(k) == s);
    } else {
        lemma_digits_value_grows(s.drop_last(), k);
        assert(s.drop_last().take(k) == s.take(k));
    }
}

/// Reads an unsigned decimal numeral of at most 64 bits.
pub fn parse_u64(s: &Vec<char>) -> (r: Option<u64>)
    ensures
        r == parsed_u64(s@),
{
    let n = s.len();
    let start: usize = if n > 0 && s[0] == '+' {
        1
    } else {
        0
    };
    let ghost digits = unsigned_digits(s@);
    if start == n {
        return None;
    }
    let mut value: u64 = 0;
    let mut i: usize = start;
    while i < n
        invariant
            start <= i <= n == s.len(),
            digits == unsigned_digits(s@),
            digits == s@.subrange(start as int, n as int),
            all_digits(digits.take(i - start)),
            value == digits_value(digits.take(i - start)),
        decreases n - i,
    {
        let c = s[i];
        let code: u32 = c as u32;
        let ghost next = digits.take(i + 1 - start);
        assert(next.drop_last() == digits.take(i - start));
        if code < 0x30 || code > 0x39 {
            assert(!is_digit(digits[i - start]));
            return None;
        }
        let d: u64 = (code - 0x30) as u64;
        proof {
            lemma_digits_value_grows(digits, i + 1 - start);
        }
        if value > (u64::MAX - d) / 10 {
            return None;
        }
        value = value * 10 + d;
        i += 1;
    }
    assert(digits.take(n - start) == digits);
    Some(value)
}

/// Appends the decimal numeral of `n` to `out`.
pub fn append_decimal(out: &mut Vec<char>, n: usize)
    ensures
        final(out)@ == old(out)@ + decimal(n as nat),
    decreases n,
{
    if n >= 10 {
        append_decimal(out, n / 10);
    }
    let d: u8 = (n % 10) as u8;
    out.push((0x30u8 + d) as char);
}

/// The decimal numeral of `n`.
pub fn to_decimal(n: usize) -> (r: Vec<char>)
    ensures
        r@ == decimal(n as nat),
{
    let mut r: Vec<char> = Vec::new();
    append_decimal(&mut r, n);
    r
}

} // verus!
