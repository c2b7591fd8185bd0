use vstd::prelude::*;

verus! {

/// Appends one character to a string.
///
/// Trusted: wraps `String::push`, which std documents as appending the
/// given `char` to the end of the string.
#[verifier::external_body]
pub(crate) fn push_char(s: &mut String, c: char)
    ensures
        final(s)@ == old(s)@.push(c),
{
    s.push(c);
}

/// The characters of a string, in order.
pub fn chars_of(s: &str) -> (v: Vec<char>)
    ensures
        v@ == s@,
{
    let n = s.unicode_len();
    let mut v: Vec<char> = Vec::new();
    let mut i: usize = 0;
    while i < n
        invariant
            n == s@.len(),
            i <= n,
            v@ == s@.take(i as int),
        decreases n - i,
    {
        v.push(s.get_char(i));
        i = i + 1;
        assert(v@ =~= s@.take(i as int));
    }
    assert(v@ =~= s@);
    v
}

/// Does `s` begin with `prefix`?
pub open spec fn has_prefix(s: Seq<char>, prefix: Seq<char>) -> bool {
    prefix.len() <= s.len() && s.take(prefix.len() as int) == prefix
}

/// Does `needle` occur in `s` at some position?
pub open spec fn contains_seq(s: Seq<char>, needle: Seq<char>) -> bool {
    exists|i: int| 0 <= i && i + needle.len() <= s.len() && #[trigger] s.subrange(i, i + needle.len()) == needle
}

/// Executable prefix test on character vectors.
pub fn starts_with_chars(s: &Vec<char>, prefix: &Vec<char>) -> (r: bool)
    ensures
        r == has_prefix(s@, prefix@),
{
    if prefix.len() > s.len() {
        return false;
    }
    let mut i: usize = 0;
    while i < prefix.len()
        invariant
            prefix@.len() <= s@.len(),
            i <= prefix@.len(),
            forall|j: int| 0 <= j < i ==> s@[j] == prefix@[j],
        decreases prefix@.len() - i,
    {
        if s[i] != prefix[i] {
            assert(s@.take(prefix@.len() as int)[i as int] != prefix@[i as int]);
            return false;
        }
        i = i + 1;
    }
    assert(s@.take(prefix@.len() as int) =~= prefix@);
    true
}

/// Does `needle` occur in `s` starting at `at`?
fn matches_at(s: &Vec<char>, needle: &Vec<char>, at: usize) -> (r: bool)
    requires
        at + needle@.len() <= s@.len(),
    ensures
        r == (s@.subrange(at as int, at + needle@.len()) == needle@),
{
    let mut i: usize = 0;
    while i < needle.len()
        invariant
            at + needle@.len() <= s.len(),
            i <= needle@.len(),
            forall|j: int| 0 <= j < i ==> s@[at + j] == needle@[j],
        decreases needle@.len() - i,
    {
        if s[at + i] != needle[i] {
            assert(s@.subrange(at as int, at + needle@.len())[i as int] != needle@[i as int]);
            return false;
        }
        i = i + 1;
    }
    assert(s@.subrange(at as int, at + needle@.len()) =~= needle@);
    true
}

/// Executable substring test on character vectors.
pub fn contains_chars(s: &Vec<char>, needle: &Vec<char>) -> (r: bool)
    ensures
        r == contains_seq(s@, needle@),
{
    if needle.len() > s.len() {
        return false;
    }
    let last = s.len() - needle.len();
    let mut at: usize = 0;
    loop
        invariant
            last + needle@.len() == s@.len(),
            at <= last,
            forall|k: int| 0 <= k < at ==> #[trigger] s@.subrange(k, k + needle@.len()) != needle@,
        ensures
            forall|k: int|
                0 <= k < last + 1 ==> #[trigger] s@.subrange(k, k + needle@.len()) != needle@,
        decreases last - at,
    {
        if matches_at(s, needle, at) {
            return true;
        }
        if at == last {
            break;
        }
        at = at + 1;
    }
    proof {
        true_is_absent(s@, needle@, last as int);
    }
    false
}

proof fn true_is_absent(s: Seq<char>, needle: Seq<char>, last: int)
    requires
        last + needle.len() == s.len(),
        forall|k: int| 0 <= k < last + 1 ==> #[trigger] s.subrange(k, k + needle.len()) != needle,
    ensures
        !contains_seq(s, needle),
{
}

/// An owned copy of a string.
pub fn owned(s: &str) -> (r: String)
    ensures
        r@ == s@,
{
    String::from_str(s)
}

/// The characters with the Unicode property White_Space.
pub open spec fn unicode_white_space(c: char) -> bool {
    ||| ('\u{9}' <= c && c <= '\u{d}')
    ||| c == ' '
    ||| c == '\u{85}'
    ||| c == '\u{a0}'
    ||| c == '\u{1680}'
    ||| ('\u{2000}' <= c && c <= '\u{200a}')
    ||| c == '\u{2028}'
    ||| c == '\u{2029}'
    ||| c == '\u{202f}'
    ||| c == '\u{205f}'
    ||| c == '\u{3000}'
}

/// Is `c` whitespace in the sense of `char::is_whitespace`: one of the
/// characters with the Unicode property White_Space?
pub(crate) fn is_whitespace(c: char) -> (r: bool)
    ensures
        r == unicode_white_space(c),
{
    ('\u{9}' <= c && c <= '\u{d}') || c == ' ' || c == '\u{85}' || c == '\u{a0}'
        || c == '\u{1680}' || ('\u{2000}' <= c && c <= '\u{200a}') || c == '\u{2028}'
        || c == '\u{2029}' || c == '\u{202f}' || c == '\u{205f}' || c == '\u{3000}'
}

/// Does trimming whitespace change the text, or is it empty? (`str::trim`
/// removes whitespace from both ends, so it changes a text exactly when the
/// first or the last character is whitespace.)
pub open spec fn blank_or_padded(s: Seq<char>) -> bool {
    s.len() == 0 || unicode_white_space(s[0]) || unicode_white_space(s.last())
}

pub fn is_blank_or_padded(s: &Vec<char>) -> (r: bool)
    ensures
        r == blank_or_padded(s@),
{
    if s.len() == 0 {
        return true;
    }
    is_whitespace(s[0]) || is_whitespace(s[s.len() - 1])
}

/// The lowercase hexadecimal digit for a value below 16.
pub open spec fn hex_digit(d: int) -> char {
    if d < 10 {
        (('0' as int) + d) as char
    } else {
        (('a' as int) + d - 10) as char
    }
}

pub fn hex_char(d: u8) -> (c: char)
    requires
        d < 16,
    ensures
        c == hex_digit(d as int),
{
    if d < 10 {
        (48u8 + d) as char
    } else {
        (87u8 + d) as char
    }
}

/// Two lowercase hexadecimal digits per byte, high digit first.
pub open spec fn hex_bytes(b: Seq<u8>) -> Seq<char> {
    Seq::new(
        2 * b.len(),
        |i: int|
            if i % 2 == 0 {
                hex_digit(b[i / 2] as int / 16)
            } else {
                hex_digit(b[i / 2] as int % 16)
            },
    )
}

pub fn hex_of_bytes(b: &[u8]) -> (s: String)
    ensures
        s@ == hex_bytes(b@),
{
    let mut s = String::new();
    let mut i: usize = 0;
    while i < b.len()
        invariant
            i <= b@.len(),
            s@ == hex_bytes(b@).take(2 * i),
        decreases b@.len() - i,
    {
        let x = b[i];
        let hi = hex_char(x / 16);
        let lo = hex_char(x % 16);
        push_char(&mut s, hi);
        push_char(&mut s, lo);
        i = i + 1;
        assert(hex_bytes(b@).take(2 * i) =~= hex_bytes(b@).take(2 * (i - 1)).push(hi).push(lo));
    }
    assert(hex_bytes(b@).take(2 * i) =~= hex_bytes(b@));
    s
}

/// The words joined with `sep` between each two of them.
pub open spec fn join(words: Seq<Seq<char>>, sep: Seq<char>) -> Seq<char>
    decreases words.len(),
{
    if words.len() == 0 {
        Seq::empty()
    } else if words.len() == 1 {
        words[0]
    } else {
        join(words.drop_last(), sep) + sep + words.last()
    }
}

/// The texts of a sequence of strings.
pub open spec fn texts(v: Seq<String>) -> Seq<Seq<char>> {
    v.map_values(|s: String| s@)
}

/// Appends a string to a list of strings.
pub fn push_text(words: &mut Vec<String>, s: String)
    ensures
        texts(final(words)@) == texts(old(words)@).push(s@),
{
    assert(texts(words@.push(s)) =~= texts(words@).push(s@));
    words.push(s);
}

pub fn join_strings(words: &Vec<String>, sep: &str) -> (r: String)
    ensures
        r@ == join(texts(words@), sep@),
{
    let mut r = String::new();
    let mut i: usize = 0;
    while i < words.len()
        invariant
            i <= words@.len(),
            r@ == join(texts(words@).take(i as int), sep@),
        decreases words@.len() - i,
    {
        assert(texts(words@).take(i + 1).drop_last() =~= texts(words@).take(i as int));
        if i > 0 {
            r.append(sep);
        } else {
            assert(texts(words@).take(0) =~= Seq::<Seq<char>>::empty());
        }
        r.append(words[i].as_str());
        i = i + 1;
    }
    assert(texts(words@).take(i as int) =~= texts(words@));
    r
}

/// The decimal digits of `n`, without leading zeros.
pub open spec fn decimal(n: nat) -> Seq<char>
    decreases n,
{
    if n < 10 {
        seq![(('0' as int) + n) as char]
    } else {
        decimal(n / 10) + seq![(('0' as int) + n % 10) as char]
    }
}

pub fn decimal_text(n: u128) -> (s: String)
    ensures
        s@ == decimal(n as nat),
    decreases n,
{
    if n < 10 {
        let mut s = String::new();
        push_char(&mut s, ((48 + n) as u8) as char);
        assert(s@ =~= decimal(n as nat));
        s
    } else {
        let mut s = decimal_text(n / 10);
        push_char(&mut s, ((48 + n % 10) as u8) as char);
        assert(s@ =~= decimal(n as nat));
        s
    }
}

/// The decimal digits of `n`, after a `-` when it is negative.
pub open spec fn signed_decimal(n: int) -> Seq<char> {
    if n < 0 {
        seq!['-'] + decimal((-n) as nat)
    } else {
        decimal(n as nat)
    }
}

pub fn signed_decimal_text(n: i128) -> (s: String)
    ensures
        s@ == signed_decimal(n as int),
{
    if n < 0 {
        let magnitude: u128 = (-(n + 1)) as u128 + 1;
        let mut s = String::new();
        push_char(&mut s, '-');
        s.append(decimal_text(magnitude).as_str());
        assert(s@ =~= signed_decimal(n as int));
        s
    } else {
        decimal_text(n as u128)
    }
}

} // verus!
