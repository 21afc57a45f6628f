//! Text primitives: UTF-8 byte bounds, decimal and hexadecimal rendering,
//! and concatenation.

use vstd::prelude::*;
use vstd::string::*;
use vstd::utf8::*;

verus! {

/// Number of bytes `s` occupies in UTF-8.
pub open spec fn utf8_len(s: Seq<char>) -> nat {
    encode_utf8(s).len()
}

/// How many leading characters of `s` fit in `limit` UTF-8 bytes.
pub open spec fn fitting_chars(s: Seq<char>, limit: int) -> nat
    decreases s.len(),
{
    if s.len() == 0 || encode_scalar(s[0] as u32).len() > limit {
        0
    } else {
        1 + fitting_chars(s.drop_first(), limit - encode_scalar(s[0] as u32).len())
    }
}

/// The longest prefix of `s` that occupies at most `limit` UTF-8 bytes. A
/// character occupies at most four, so that short texts are kept at once.
pub open spec fn bounded(s: Seq<char>, limit: nat) -> Seq<char> {
    if 4 * s.len() <= limit || utf8_len(s) <= limit {
        s
    } else {
        s.take(fitting_chars(s, limit as int) as int)
    }
}

/// UTF-8 encoding distributes over concatenation.
pub proof fn lemma_encode_concat(a: Seq<char>, b: Seq<char>)
    ensures
        encode_utf8(a + b) == encode_utf8(a) + encode_utf8(b),
    decreases a.len(),
{
    if a.len() == 0 {
        assert(a + b =~= b);
        assert(encode_utf8(a) + encode_utf8(b) =~= encode_utf8(b));
    } else {
        assert((a + b).drop_first() =~= a.drop_first() + b);
        lemma_encode_concat(a.drop_first(), b);
        assert(encode_utf8(a + b) =~= encode_utf8(a) + encode_utf8(b));
    }
}

/// A character takes between one and four bytes.
pub proof fn lemma_encode_scalar_len(c: char)
    ensures
        1 <= encode_scalar(c as u32).len() <= 4,
{
    char_is_scalar(c);
}

/// A text of `n` characters takes at least `n` and at most `4 * n` bytes.
pub proof fn lemma_utf8_len_range(s: Seq<char>)
    ensures
        s.len() <= utf8_len(s) <= 4 * s.len(),
    decreases s.len(),
{
    if s.len() > 0 {
        lemma_encode_scalar_len(s[0]);
        lemma_utf8_len_range(s.drop_first());
    }
}

/// The byte position behind every character is a character boundary.
proof fn lemma_prefix_is_boundary(s: Seq<char>, n: int)
    requires
        0 <= n <= s.len(),
    ensures
        is_char_boundary(encode_utf8(s), utf8_len(s.take(n)) as int),
        utf8_len(s.take(n)) <= utf8_len(s),
        encode_utf8(s).take(utf8_len(s.take(n)) as int) == encode_utf8(s.take(n)),
    decreases n,
{
    let bytes = encode_utf8(s);
    encode_utf8_valid_utf8(s);
    assert(s.take(n) + s.skip(n) =~= s);
    lemma_encode_concat(s.take(n), s.skip(n));
    assert(bytes.take(utf8_len(s.take(n)) as int) =~= encode_utf8(s.take(n)));
    if n == 0 {
        assert(s.take(0).len() == 0);
    } else {
        let rest = s.drop_first();
        encode_utf8_first_scalar(s);
        assert(pop_first_scalar(bytes) =~= encode_utf8(rest));
        assert(s.take(n).drop_first() =~= rest.take(n - 1));
        lemma_prefix_is_boundary(rest, n - 1);
        lemma_encode_scalar_len(s[0]);
    }
}

/// `fitting_chars` is the greatest prefix length whose encoding fits.
proof fn lemma_fitting_chars(s: Seq<char>, limit: int)
    requires
        limit >= 0,
    ensures
        fitting_chars(s, limit) <= s.len(),
        utf8_len(s.take(fitting_chars(s, limit) as int)) <= limit,
        fitting_chars(s, limit) < s.len() ==> utf8_len(
            s.take(fitting_chars(s, limit) as int + 1),
        ) > limit,
    decreases s.len(),
{
    let k = fitting_chars(s, limit);
    if s.len() == 0 {
        assert(s.take(0).len() == 0);
    } else if encode_scalar(s[0] as u32).len() > limit {
        assert(s.take(0).len() == 0);
        lemma_utf8_len_range(s.take(1).drop_first());
        assert(s.take(1)[0] == s[0]);
    } else {
        let rest = s.drop_first();
        lemma_fitting_chars(rest, limit - encode_scalar(s[0] as u32).len());
        assert(s.take(k as int).drop_first() =~= rest.take(k - 1));
        if k < s.len() {
            assert(s.take(k as int + 1).drop_first() =~= rest.take(k as int));
        }
    }
}

/// Prefixes grow in bytes with their number of characters.
proof fn lemma_utf8_len_monotone(s: Seq<char>, i: int, j: int)
    requires
        0 <= i <= j <= s.len(),
    ensures
        utf8_len(s.take(i)) <= utf8_len(s.take(j)),
        i < j ==> utf8_len(s.take(i)) < utf8_len(s.take(j)),
{
    assert(s.take(i) + s.subrange(i, j) =~= s.take(j));
    lemma_encode_concat(s.take(i), s.subrange(i, j));
    lemma_utf8_len_range(s.subrange(i, j));
}

/// Bounding yields a prefix that fits; it cannot be extended by another
/// character, and it changes nothing that already fits.
pub proof fn lemma_bounded(s: Seq<char>, limit: nat)
    ensures
        utf8_len(bounded(s, limit)) <= limit,
        bounded(s, limit).is_prefix_of(s),
        bounded(s, limit) != s ==> utf8_len(s.take(bounded(s, limit).len() as int + 1)) > limit,
        utf8_len(s) <= limit ==> bounded(s, limit) == s,
        4 * s.len() <= limit ==> bounded(s, limit) == s,
{
    lemma_fitting_chars(s, limit as int);
    lemma_utf8_len_range(s);
    assert(s.take(s.len() as int) =~= s);
}

/// Bounding a text twice is bounding it once.
pub proof fn lemma_bounded_idempotent(s: Seq<char>, limit: nat)
    ensures
        bounded(bounded(s, limit), limit) == bounded(s, limit),
{
    lemma_bounded(s, limit);
}

/// Cuts `s` to at most `limit` bytes, at a character boundary.
pub fn truncate_utf8(s: String, limit: usize) -> (r: String)
    ensures
        r@ == bounded(s@, limit as nat),
        utf8_len(r@) <= limit,
        4 * s@.len() <= limit ==> r@ == s@,
{
    proof {
        lemma_bounded(s@, limit as nat);
        lemma_utf8_len_range(s@);
    }
    let text: &str = s.as_str();
    let bytes: &[u8] = text.as_bytes();
    if bytes.len() <= limit {
        return s;
    }
    let mut cut: usize = limit;
    proof {
        encode_utf8_valid_utf8(s@);
        is_char_boundary_start_end_of_seq(encode_utf8(s@));
    }
    while cut > 0 && !text.is_char_boundary(cut)
        invariant
            cut <= limit < bytes@.len(),
            text@ == s@,
            bytes@ == encode_utf8(s@),
            forall|j: int| cut < j <= limit ==> !is_char_boundary(encode_utf8(s@), j),
        decreases cut,
    {
        cut = cut - 1;
    }
    let (head, _tail) = text.split_at(cut);
    proof {
        let n = head@.len() as int;
        let all = encode_utf8(s@);
        decode_utf8_split(all, cut as int);
        encode_utf8_decode_utf8(s@);
        encode_utf8_decode_utf8(head@);
        assert(head@ =~= s@.take(n));
        lemma_fitting_chars(s@, limit as int);
        let k = fitting_chars(s@, limit as int) as int;
        lemma_prefix_is_boundary(s@, k);
        lemma_prefix_is_boundary(s@, n);
        if n < k {
            lemma_utf8_len_monotone(s@, n, k);
        } else if k < n {
            lemma_utf8_len_monotone(s@, k + 1, n);
        }
        assert(n == k);
    }
    head.to_owned()
}

/// The character for the digit `d`, decimal or hexadecimal.
pub open spec fn digit_char(d: nat) -> char {
    if d < 10 {
        ('0' as u32 + d) as char
    } else {
        ('a' as u32 + (d - 10)) as char
    }
}

/// The decimal rendering of `n`, without leading zeros.
pub open spec fn decimal(n: nat) -> Seq<char>
    decreases n,
{
    if n < 10 {
        seq![digit_char(n)]
    } else {
        decimal(n / 10).push(digit_char(n % 10))
    }
}

/// The lower-case hexadecimal digits of `n`, without leading zeros.
pub open spec fn hex_digits(n: nat) -> Seq<char>
    decreases n,
{
    if n < 16 {
        seq![digit_char(n)]
    } else {
        hex_digits(n / 16).push(digit_char(n % 16))
    }
}

/// The rendering of `n` in lower-case hexadecimal with its `0x` prefix.
pub open spec fn hex(n: nat) -> Seq<char> {
    "0x"@ + hex_digits(n)
}

/// The digit `d` as text.
fn digit_str(d: u32) -> (r: &'static str)
    requires
        d < 16,
    ensures
        r@ == seq![digit_char(d as nat)],
{
    proof {
        reveal_strlit("0");
        reveal_strlit("1");
        reveal_strlit("2");
        reveal_strlit("3");
        reveal_strlit("4");
        reveal_strlit("5");
        reveal_strlit("6");
        reveal_strlit("7");
        reveal_strlit("8");
        reveal_strlit("9");
        reveal_strlit("a");
        reveal_strlit("b");
        reveal_strlit("c");
        reveal_strlit("d");
        reveal_strlit("e");
        reveal_strlit("f");
    }
    let r: &'static str = match d {
        0 => "0",
        1 => "1",
        2 => "2",
        3 => "3",
        4 => "4",
        5 => "5",
        6 => "6",
        7 => "7",
        8 => "8",
        9 => "9",
        10 => "a",
        11 => "b",
        12 => "c",
        13 => "d",
        14 => "e",
        _ => "f",
    };
    assert(r@ =~= seq![digit_char(d as nat)]);
    r
}

/// Renders `n` in decimal.
pub fn decimal_string(n: u64) -> (r: String)
    ensures
        r@ == decimal(n as nat),
    decreases n,
{
    let last: &'static str = digit_str((n % 10) as u32);
    if n < 10 {
        last.to_owned()
    } else {
        let mut r: String = decimal_string(n / 10);
        r.append(last);
        assert(r@ =~= decimal(n as nat));
        r
    }
}

/// Renders the digits of `n` in lower-case hexadecimal.
fn hex_digits_string(n: u32) -> (r: String)
    ensures
        r@ == hex_digits(n as nat),
    decreases n,
{
    let last: &'static str = digit_str(n % 16);
    if n < 16 {
        last.to_owned()
    } else {
        let mut r: String = hex_digits_string(n / 16);
        r.append(last);
        assert(r@ =~= hex_digits(n as nat));
        r
    }
}

/// Renders `n` in lower-case hexadecimal with its `0x` prefix.
pub fn hex_string(n: u32) -> (r: String)
    ensures
        r@ == hex(n as nat),
{
    cat2("0x", hex_digits_string(n).as_str())
}

/// Joins two pieces of text.
pub fn cat2(a: &str, b: &str) -> (r: String)
    ensures
        r@ == a@ + b@,
{
    let mut r: String = a.to_owned();
    r.append(b);
    r
}

/// Joins three pieces of text.
pub fn cat3(a: &str, b: &str, c: &str) -> (r: String)
    ensures
        r@ == a@ + b@ + c@,
{
    let mut r: String = cat2(a, b);
    r.append(c);
    r
}

/// Joins four pieces of text.
pub fn cat4(a: &str, b: &str, c: &str, d: &str) -> (r: String)
    ensures
        r@ == a@ + b@ + c@ + d@,
{
    let mut r: String = cat3(a, b, c);
    r.append(d);
    r
}

/// Joins five pieces of text.
pub fn cat5(a: &str, b: &str, c: &str, d: &str, e: &str) -> (r: String)
    ensures
        r@ == a@ + b@ + c@ + d@ + e@,
{
    let mut r: String = cat4(a, b, c, d);
    r.append(e);
    r
}

/// Joins six pieces of text.
pub fn cat6(a: &str, b: &str, c: &str, d: &str, e: &str, f: &str) -> (r: String)
    ensures
        r@ == a@ + b@ + c@ + d@ + e@ + f@,
{
    let mut r: String = cat5(a, b, c, d, e);
    r.append(f);
    r
}

/// Joins seven pieces of text.
pub fn cat7(a: &str, b: &str, c: &str, d: &str, e: &str, f: &str, g: &str) -> (r: String)
    ensures
        r@ == a@ + b@ + c@ + d@ + e@ + f@ + g@,
{
    let mut r: String = cat6(a, b, c, d, e, f);
    r.append(g);
    r
}

/// `String::push` appends the character to the end of the string.
pub assume_specification[ String::push ](s: &mut String, ch: char)
    ensures
        final(s)@ == old(s)@.push(ch),
;

/// The characters of `s`, in order.
pub fn chars_of(s: &str) -> (r: Vec<char>)
    ensures
        r@ == s@,
{
    let mut r: Vec<char> = Vec::new();
    for ch in it: s.chars()
        invariant
            r@ == it.seq().take(it.index() as int),
            it.seq() == s@,
    {
        r.push(ch);
        assert(r@ =~= it.seq().take(it.index() as int + 1));
    }
    assert(r@ =~= s@);
    r
}

/// The text made of `chars[from..to]`.
pub fn text_between(chars: &Vec<char>, from: usize, to: usize) -> (r: String)
    requires
        from <= to <= chars@.len(),
    ensures
        r@ == chars@.subrange(from as int, to as int),
{
    let mut r: String = String::new();
    let mut i: usize = from;
    assert(r@ =~= chars@.subrange(from as int, from as int));
    while i < to
        invariant
            from <= i <= to <= chars@.len(),
            r@ == chars@.subrange(from as int, i as int),
        decreases to - i,
    {
        r.push(chars[i]);
        i = i + 1;
        assert(r@ =~= chars@.subrange(from as int, i as int));
    }
    r
}

/// Texts with equal UTF-8 encodings are equal.
pub proof fn lemma_encode_injective(a: Seq<char>, b: Seq<char>)
    requires
        encode_utf8(a) == encode_utf8(b),
    ensures
        a == b,
{
    encode_utf8_decode_utf8(a);
    encode_utf8_decode_utf8(b);
}

/// Whether the two texts are equal.
pub fn same_text(a: &str, b: &str) -> (r: bool)
    ensures
        r == (a@ == b@),
{
    let x: &[u8] = a.as_bytes();
    let y: &[u8] = b.as_bytes();
    if x.len() != y.len() {
        return false;
    }
    let mut i: usize = 0;
    while i < x.len()
        invariant
            i <= x@.len(),
            x@.len() == y@.len(),
            x@ == encode_utf8(a@),
            y@ == encode_utf8(b@),
            forall|j: int| 0 <= j < i ==> x@[j] == y@[j],
        decreases x@.len() - i,
    {
        if x[i] != y[i] {
            return false;
        }
        i = i + 1;
    }
    proof {
        assert(x@ =~= y@);
        lemma_encode_injective(a@, b@);
    }
    true
}

/// Whether `s` starts with `prefix`.
pub fn starts_with(s: &str, prefix: &str) -> (r: bool)
    ensures
        r == prefix@.is_prefix_of(s@),
{
    let cs: Vec<char> = chars_of(s);
    let ps: Vec<char> = chars_of(prefix);
    if ps.len() > cs.len() {
        return false;
    }
    let mut i: usize = 0;
    while i < ps.len()
        invariant
            i <= ps@.len() <= cs@.len(),
            cs@ == s@,
            ps@ == prefix@,
            forall|j: int| 0 <= j < i ==> cs@[j] == ps@[j],
        decreases ps@.len() - i,
    {
        if cs[i] != ps[i] {
            return false;
        }
        i = i + 1;
    }
    assert(ps@ =~= cs@.take(ps@.len() as int));
    true
}

/// The contents of a sequence of owned texts.
pub open spec fn texts(v: Seq<String>) -> Seq<Seq<char>> {
    Seq::new(v.len(), |i: int| v[i]@)
}

/// The pieces of `s` between occurrences of `separator`: one more than there
/// are separators, in order.
pub open spec fn split_on(s: Seq<char>, separator: char) -> Seq<Seq<char>>
    decreases s.len(),
{
    if s.len() == 0 {
        seq![Seq::empty()]
    } else {
        let before = split_on(s.drop_last(), separator);
        if s.last() == separator {
            before.push(Seq::empty())
        } else {
            before.drop_last().push(before.last().push(s.last()))
        }
    }
}

/// Splitting yields at least one piece.
pub proof fn lemma_split_nonempty(s: Seq<char>, separator: char)
    ensures
        split_on(s, separator).len() >= 1,
    decreases s.len(),
{
    if s.len() > 0 {
        lemma_split_nonempty(s.drop_last(), separator);
    }
}

/// Splits `s` at every occurrence of `separator`.
pub fn split_text(s: &str, separator: char) -> (r: Vec<String>)
    ensures
        texts(r@) == split_on(s@, separator),
        r@.len() >= 1,
{
    let chars: Vec<char> = chars_of(s);
    let mut done: Vec<String> = Vec::new();
    let mut current: String = String::new();
    let mut i: usize = 0;
    assert(chars@.take(0) =~= Seq::<char>::empty());
    assert(texts(done@).push(current@) =~= split_on(chars@.take(0), separator));
    while i < chars.len()
        invariant
            i <= chars@.len(),
            chars@ == s@,
            texts(done@).push(current@) == split_on(chars@.take(i as int), separator),
        decreases chars@.len() - i,
    {
        let ch: char = chars[i];
        let ghost before = texts(done@).push(current@);
        proof {
            assert(chars@.take(i as int + 1).drop_last() =~= chars@.take(i as int));
            assert(chars@.take(i as int + 1).last() == ch);
            assert(before.drop_last() =~= texts(done@));
        }
        if ch == separator {
            done.push(current);
            current = String::new();
            assert(texts(done@) =~= before);
        } else {
            current.push(ch);
        }
        i = i + 1;
        assert(texts(done@).push(current@) =~= split_on(chars@.take(i as int), separator));
    }
    let ghost pieces = texts(done@).push(current@);
    done.push(current);
    assert(texts(done@) =~= pieces);
    assert(chars@.take(chars@.len() as int) =~= s@);
    done
}

/// The content of an optional text.
pub open spec fn optional_text(s: Option<String>) -> Option<Seq<char>> {
    match s {
        Some(text) => Some(text@),
        None => None,
    }
}

/// Whether Unicode counts `ch` as white space.
pub open spec fn white_space(ch: char) -> bool {
    ||| '\u{9}' <= ch <= '\u{d}'
    ||| ch == ' '
    ||| ch == '\u{85}'
    ||| ch == '\u{a0}'
    ||| ch == '\u{1680}'
    ||| '\u{2000}' <= ch <= '\u{200a}'
    ||| ch == '\u{2028}'
    ||| ch == '\u{2029}'
    ||| ch == '\u{202f}'
    ||| ch == '\u{205f}'
    ||| ch == '\u{3000}'
}

fn is_white_space(ch: char) -> (r: bool)
    ensures
        r == white_space(ch),
{
    ('\u{9}' <= ch && ch <= '\u{d}') || ch == ' ' || ch == '\u{85}' || ch == '\u{a0}' || ch
        == '\u{1680}' || ('\u{2000}' <= ch && ch <= '\u{200a}') || ch == '\u{2028}' || ch
        == '\u{2029}' || ch == '\u{202f}' || ch == '\u{205f}' || ch == '\u{3000}'
}

/// `s` without the white space at its start and at its end.
pub open spec fn trimmed(s: Seq<char>) -> Seq<char>
    decreases s.len(),
{
    if s.len() > 0 && white_space(s[0]) {
        trimmed(s.drop_first())
    } else if s.len() > 0 && white_space(s.last()) {
        trimmed(s.drop_last())
    } else {
        s
    }
}

/// The characters of `s` without the white space at its start and at its end.
fn trimmed_chars(s: &str) -> (r: Vec<char>)
    ensures
        r@ == trimmed(s@),
{
    let chars: Vec<char> = chars_of(s);
    let mut from: usize = 0;
    let mut to: usize = chars.len();
    assert(chars@.subrange(0, to as int) =~= s@);
    while from < to && is_white_space(chars[from])
        invariant
            from <= to == chars@.len(),
            trimmed(s@) == trimmed(chars@.subrange(from as int, to as int)),
        decreases to - from,
    {
        assert(chars@.subrange(from as int, to as int).drop_first() =~= chars@.subrange(
            from as int + 1,
            to as int,
        ));
        from = from + 1;
    }
    while from < to && is_white_space(chars[to - 1])
        invariant
            from <= to <= chars@.len(),
            from < to ==> !white_space(chars@[from as int]),
            trimmed(s@) == trimmed(chars@.subrange(from as int, to as int)),
        decreases to - from,
    {
        assert(chars@.subrange(from as int, to as int).drop_last() =~= chars@.subrange(
            from as int,
            to as int - 1,
        ));
        to = to - 1;
    }
    let mut r: Vec<char> = Vec::new();
    let mut i: usize = from;
    assert(r@ =~= chars@.subrange(from as int, from as int));
    while i < to
        invariant
            from <= i <= to <= chars@.len(),
            r@ == chars@.subrange(from as int, i as int),
        decreases to - i,
    {
        r.push(chars[i]);
        i = i + 1;
        assert(r@ =~= chars@.subrange(from as int, i as int));
    }
    assert(trimmed(r@) == r@);
    r
}

/// The number that a sequence of decimal digits stands for.
pub open spec fn digits_value(s: Seq<char>) -> int
    decreases s.len(),
{
    if s.len() == 0 {
        0
    } else {
        digits_value(s.drop_last()) * 10 + (s.last() as u32 - '0' as u32)
    }
}

/// Whether every character of `s` is a decimal digit.
pub open spec fn all_digits(s: Seq<char>) -> bool {
    forall|i: int| 0 <= i < s.len() ==> '0' <= #[trigger] s[i] <= '9'
}

/// `s` without a plus sign in front.
pub open spec fn unsigned_part(s: Seq<char>) -> Seq<char> {
    if s.len() > 0 && s[0] == '+' {
        s.drop_first()
    } else {
        s
    }
}

/// The `u32` that `s` denotes in decimal: an optional plus sign and at least
/// one digit.
pub open spec fn parsed_u32(s: Seq<char>) -> Option<u32> {
    let digits = unsigned_part(s);
    if digits.len() > 0 && all_digits(digits) && digits_value(digits) <= u32::MAX {
        Some(digits_value(digits) as u32)
    } else {
        None
    }
}

proof fn lemma_digits_value_grows(s: Seq<char>, n: int)
    requires
        all_digits(s),
        0 <= n <= s.len(),
    ensures
        0 <= digits_value(s.take(n)) <= digits_value(s),
    decreases s.len(),
{
    if n < s.len() {
        assert(s.drop_last().take(n) =~= s.take(n));
        lemma_digits_value_grows(s.drop_last(), n);
        assert('0' <= s[s.len() - 1] <= '9');
    } else {
        assert(s.take(n) =~= s);
        if s.len() > 0 {
            lemma_digits_value_grows(s.drop_last(), s.len() - 1);
            assert(s.drop_last().take(s.len() - 1) =~= s.drop_last());
            assert('0' <= s[s.len() - 1] <= '9');
        }
    }
}

/// Reads a `u32` in decimal, with white space around it and an optional plus
/// sign in front.
pub fn parse_u32(s: &str) -> (r: Option<u32>)
    ensures
        r == parsed_u32(trimmed(s@)),
{
    let chars: Vec<char> = trimmed_chars(s);
    let start: usize = if chars.len() > 0 && chars[0] == '+' {
        1
    } else {
        0
    };
    let ghost digits = unsigned_part(chars@);
    assert(digits =~= chars@.skip(start as int));
    if start == chars.len() {
        return None;
    }
    let mut value: u64 = 0;
    let mut i: usize = start;
    assert(digits.take(0).len() == 0);
    while i < chars.len()
        invariant
            start <= i <= chars@.len(),
            start < chars@.len(),
            chars@ == trimmed(s@),
            digits == unsigned_part(chars@),
            digits == chars@.skip(start as int),
            forall|j: int| 0 <= j < i - start ==> '0' <= #[trigger] digits[j] <= '9',
            value == digits_value(digits.take(i - start)),
            value <= u32::MAX,
        decreases chars@.len() - i,
    {
        let ch: char = chars[i];
        assert(digits[i - start] == ch);
        if !('0' <= ch && ch <= '9') {
            return None;
        }
        proof {
            assert(digits.take(i - start + 1).drop_last() =~= digits.take(i - start));
            assert(digits.take(i - start + 1).last() == ch);
        }
        value = value * 10 + ((ch as u32) - ('0' as u32)) as u64;
        i = i + 1;
        if value > u32::MAX as u64 {
            proof {
                if all_digits(digits) {
                    lemma_digits_value_grows(digits, i - start);
                }
            }
            return None;
        }
    }
    assert(digits.take(digits.len() as int) =~= digits);
    Some(value as u32)
}

/// Texts are compared by their characters: a list of strings is viewed string by
/// string, and an optional string through its string.
pub proof fn texts_are_viewed_one_by_one(v: Seq<String>, s: String)
    ensures
        texts(v).len() == v.len(),
        forall|i: int| 0 <= i < v.len() ==> #[trigger] texts(v)[i] == v[i]@,
        optional_text(Some(s)) == Some(s@),
        optional_text(None) is None,
{
}

/// A text without the separator is its only piece.
pub proof fn text_without_separator_is_one_piece(s: Seq<char>, separator: char)
    requires
        forall|i: int| 0 <= i < s.len() ==> #[trigger] s[i] != separator,
    ensures
        split_on(s, separator) == seq![s],
    decreases s.len(),
{
    if s.len() > 0 {
        let front = s.drop_last();
        assert forall|i: int| 0 <= i < front.len() implies #[trigger] front[i] != separator by {
            assert(front[i] == s[i]);
        }
        text_without_separator_is_one_piece(front, separator);
        assert(s[s.len() - 1] != separator);
        assert(front.push(s.last()) =~= s);
        assert(split_on(s, separator) =~= seq![s]);
    } else {
        assert(s =~= Seq::empty());
        assert(split_on(s, separator) =~= seq![s]);
    }
}

/// A separator parts the pieces on its two sides: the pieces of two texts with a
/// separator between them are the pieces of the first followed by the pieces of the
/// second.
pub proof fn separator_parts_the_pieces(a: Seq<char>, b: Seq<char>, separator: char)
    ensures
        split_on(a + seq![separator] + b, separator) == split_on(a, separator) + split_on(
            b,
            separator,
        ),
    decreases b.len(),
{
    let whole = a + seq![separator] + b;
    let head = split_on(a, separator);
    lemma_split_nonempty(b, separator);
    if b.len() == 0 {
        assert(whole =~= a.push(separator));
        assert(whole.drop_last() =~= a);
        assert(split_on(whole, separator) =~= head + split_on(b, separator));
    } else {
        let front = b.drop_last();
        let rest = split_on(front, separator);
        separator_parts_the_pieces(a, front, separator);
        lemma_split_nonempty(front, separator);
        assert(whole.drop_last() =~= a + seq![separator] + front);
        assert((head + rest).last() == rest.last());
        assert((head + rest).drop_last() =~= head + rest.drop_last());
        assert(split_on(whole, separator) =~= head + split_on(b, separator));
    }
}

/// A digit is shown by the character of that value: `0` to `9`, and `a` to `f` above
/// them.
pub proof fn digits_are_shown_by_their_characters(d: nat)
    requires
        d < 16,
    ensures
        d < 10 ==> digit_char(d) as int == '0' as int + d,
        d >= 10 ==> digit_char(d) as int == 'a' as int + (d - 10),
{
}

/// Decimal renderings are positional: a number below ten is its digit, and another
/// digit behind the rendering of a positive number shows ten times the number plus
/// that digit.
pub proof fn decimal_is_positional(n: nat, d: nat)
    requires
        d < 10,
    ensures
        decimal(d).len() == 1 && decimal(d)[0] as int == '0' as int + d,
        n > 0 ==> decimal(n * 10 + d).drop_last() == decimal(n) && decimal(n * 10 + d).last() as int
            == '0' as int + d,
{
    if n > 0 {
        assert((n * 10 + d) / 10 == n && (n * 10 + d) % 10 == d);
        assert(decimal(n).push(digit_char(d)).drop_last() =~= decimal(n));
    }
}

/// Hexadecimal renderings are positional behind their `0x`.
pub proof fn hex_is_positional(n: nat, d: nat)
    requires
        d < 16,
    ensures
        hex(d).len() == 3 && hex(d)[0] == '0' && hex(d)[1] == 'x' && hex(d)[2] == digit_char(d),
        n > 0 ==> hex(n * 16 + d).drop_last() == hex(n) && hex(n * 16 + d).last() == digit_char(d),
{
    reveal_strlit("0x");
    if n > 0 {
        assert((n * 16 + d) / 16 == n && (n * 16 + d) % 16 == d);
        assert(hex(n * 16 + d) =~= hex(n).push(digit_char(d)));
        assert(hex(n).push(digit_char(d)).drop_last() =~= hex(n));
    }
}

/// Reading decimal digits gives back the number that was rendered, and one digit
/// more makes it ten times as much plus that digit.
pub proof fn decimal_reads_back(n: nat)
    ensures
        decimal(n).len() > 0,
        forall|i: int| 0 <= i < decimal(n).len() ==> '0' <= #[trigger] decimal(n)[i] <= '9',
        digits_value(decimal(n)) == n,
    decreases n,
{
    if n >= 10 {
        decimal_reads_back(n / 10);
        let front = decimal(n / 10);
        assert(decimal(n).drop_last() =~= front);
        assert forall|i: int| 0 <= i < decimal(n).len() implies '0' <= #[trigger] decimal(n)[i]
            <= '9' by {
            if i < front.len() {
                assert(decimal(n)[i] == front[i]);
            }
        }
    } else {
        assert(decimal(n).drop_last().len() == 0);
        assert(digits_value(decimal(n).drop_last()) == 0);
    }
}

/// The value of decimal digits is positional.
pub proof fn digit_values_are_positional(s: Seq<char>, ch: char)
    ensures
        digits_value(s.push(ch)) == 10 * digits_value(s) + (ch as int - '0' as int),
        digits_value(Seq::empty()) == 0,
{
    assert(s.push(ch).drop_last() =~= s);
}

/// Every rendered number that fits is read back, with or without a plus sign in
/// front; a number that does not fit is refused.
pub proof fn rendered_numbers_are_parsed(n: nat)
    ensures
        n <= u32::MAX ==> parsed_u32(decimal(n)) == Some(n as u32) && parsed_u32(
            seq!['+'] + decimal(n),
        ) == Some(n as u32),
        n > u32::MAX ==> parsed_u32(decimal(n)) is None && parsed_u32(seq!['+'] + decimal(n)) is None,
{
    decimal_reads_back(n);
    assert(decimal(n)[0] <= '9');
    assert((seq!['+'] + decimal(n)).drop_first() =~= decimal(n));
}

/// A text that holds anything but decimal digits behind an optional plus sign, or
/// no digit at all, is no number.
pub proof fn only_digits_are_parsed(s: Seq<char>, i: int)
    requires
        0 <= i < s.len(),
        s[i] < '0' || s[i] > '9',
        i > 0 || s[i] != '+',
    ensures
        parsed_u32(s) is None,
        parsed_u32(Seq::empty()) is None,
        parsed_u32(seq!['+']) is None,
{
    let digits = unsigned_part(s);
    if s[0] == '+' {
        assert(digits[i - 1] == s[i]);
    } else {
        assert(digits[i] == s[i]);
    }
    assert(seq!['+'].drop_first().len() == 0);
}

/// Zeros in front of a number do not change it.
pub proof fn leading_zeros_are_ignored(s: Seq<char>)
    requires
        s.len() > 0,
        forall|i: int| 0 <= i < s.len() ==> '0' <= #[trigger] s[i] <= '9',
    ensures
        parsed_u32(seq!['0'] + s) == parsed_u32(s),
{
    let longer = seq!['0'] + s;
    assert(longer[0] == '0');
    assert(s[0] <= '9');
    assert(all_digits(longer)) by {
        assert forall|i: int| 0 <= i < longer.len() implies '0' <= #[trigger] longer[i] <= '9' by {
            if i > 0 {
                assert(longer[i] == s[i - 1]);
            }
        }
    }
    lemma_leading_zero(s);
}

proof fn lemma_leading_zero(s: Seq<char>)
    ensures
        digits_value(seq!['0'] + s) == digits_value(s),
    decreases s.len(),
{
    let longer = seq!['0'] + s;
    if s.len() > 0 {
        assert(longer.drop_last() =~= seq!['0'] + s.drop_last());
        lemma_leading_zero(s.drop_last());
    } else {
        assert(longer.drop_last() =~= s);
        assert(digits_value(longer.drop_last()) == 0);
    }
}

/// The code points of the characters that Unicode counts as white space.
pub open spec fn white_space_code(code: int) -> bool {
    ||| 0x9 <= code <= 0xd
    ||| code == 0x20
    ||| code == 0x85
    ||| code == 0xa0
    ||| code == 0x1680
    ||| 0x2000 <= code <= 0x200a
    ||| code == 0x2028
    ||| code == 0x2029
    ||| code == 0x202f
    ||| code == 0x205f
    ||| code == 0x3000
}

/// Trimming drops Unicode's white space at the two ends of a text and nothing else:
/// one such character more at either end makes no difference, and a text with other
/// characters at its two ends is kept as it is.
pub proof fn trimming_drops_white_space_at_the_ends(s: Seq<char>, ch: char)
    ensures
        white_space_code(ch as int) ==> trimmed(seq![ch] + s) == trimmed(s) && trimmed(
            s + seq![ch],
        ) == trimmed(s) && trimmed(seq![ch]).len() == 0,
        !white_space_code(ch as int) ==> trimmed(seq![ch] + s + seq![ch]) == seq![ch] + s
            + seq![ch] && trimmed(seq![ch]) == seq![ch],
{
    assert((seq![ch] + s).drop_first() =~= s);
    assert(seq![ch].drop_first().len() == 0);
    assert(trimmed(seq![ch].drop_first()).len() == 0);
    if white_space(ch) {
        lemma_trimmed_behind(s, ch);
    }
}

proof fn lemma_trimmed_behind(s: Seq<char>, ch: char)
    requires
        white_space(ch),
    ensures
        trimmed(s + seq![ch]) == trimmed(s),
    decreases s.len(),
{
    let longer = s + seq![ch];
    if s.len() == 0 {
        assert(longer.drop_first() =~= s);
    } else if white_space(s[0]) {
        assert(longer.drop_first() =~= s.drop_first() + seq![ch]);
        lemma_trimmed_behind(s.drop_first(), ch);
    } else {
        assert(longer.drop_last() =~= s);
    }
}

/// Bounding keeps as many whole characters as the limit has bytes for in UTF-8: the
/// result is a prefix within the limit, and one character more would be beyond it.
pub proof fn bounding_keeps_the_longest_prefix(s: Seq<char>, limit: nat)
    ensures
        exists|n: int|
            0 <= n <= s.len() && #[trigger] s.take(n) == bounded(s, limit) && encode_utf8(
                s.take(n),
            ).len() <= limit && (n < s.len() ==> encode_utf8(s.take(n + 1)).len() > limit),
{
    lemma_bounded(s, limit);
    let n = bounded(s, limit).len() as int;
    assert(s.take(n) =~= bounded(s, limit));
    assert(s.take(s.len() as int) =~= s);
}

} // verus!
