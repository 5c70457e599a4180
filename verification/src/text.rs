//! Identifier text: the raw-identifier prefix, capitalised labels, decimal
//! field indices and concatenation. Everything here is stated over
//! `Seq<char>`, the view of `str` and `String`.

use vstd::prelude::*;

verus! {

/// The expansion of a character to upper case, one character or more.
/// Stands for the result of `char::to_uppercase`.
pub uninterp spec fn uppercase_of(c: char) -> Seq<char>;

/// Calls `char::to_uppercase` and collects what it yields. Nothing is
/// claimed of the expansion but that it is the one named `uppercase_of`:
/// the mapping is Unicode's, a function of the character alone.
#[verifier::external_body]
fn uppercase(c: char) -> (r: String)
    ensures
        r@ == uppercase_of(c),
{
    c.to_uppercase().collect()
}

/// `String::push` appends the given character to the end of the string.
pub assume_specification[ String::push ](s: &mut String, ch: char)
    ensures
        final(s)@ == old(s)@.push(ch),
;

/// Whether `s` begins with the raw-identifier prefix `r#`.
pub open spec fn has_raw_prefix(s: Seq<char>) -> bool {
    s.len() >= 2 && s[0] == 'r' && s[1] == '#'
}

/// `s` without one leading `r#`, if it has one: the form in which an
/// identifier enters a longer identifier.
pub open spec fn bare(s: Seq<char>) -> Seq<char> {
    if has_raw_prefix(s) {
        s.skip(2)
    } else {
        s
    }
}

/// `s` without any leading run of `r#`.
#[verifier::opaque]
pub open spec fn unprefixed(s: Seq<char>) -> Seq<char>
    decreases s.len(),
{
    if has_raw_prefix(s) {
        unprefixed(s.skip(2))
    } else {
        s
    }
}

/// `ident` without its raw prefixes and with `initial` in place of its
/// first character; empty where nothing is left of `ident`.
pub open spec fn with_initial(initial: Seq<char>, ident: Seq<char>) -> Seq<char> {
    let rest = unprefixed(ident);
    if rest.len() == 0 {
        Seq::empty()
    } else {
        initial + rest.skip(1)
    }
}

/// The capitalised label of an identifier: raw prefixes dropped, the first
/// character in upper case, the others as they are.
pub open spec fn capitalized(ident: Seq<char>) -> Seq<char> {
    let rest = unprefixed(ident);
    if rest.len() == 0 {
        Seq::empty()
    } else {
        with_initial(uppercase_of(rest[0]), ident)
    }
}

/// The character of one decimal digit.
pub open spec fn digit(d: nat) -> char
    recommends
        d < 10,
{
    seq!['0', '1', '2', '3', '4', '5', '6', '7', '8', '9'][d as int]
}

/// `n` in decimal, without sign or leading zeros.
pub open spec fn decimal(n: nat) -> Seq<char>
    decreases n,
{
    if n < 10 {
        seq![digit(n)]
    } else {
        decimal(n / 10).push(digit(n % 10))
    }
}

/// The two texts one after the other.
pub fn join(a: &str, b: &str) -> (r: String)
    ensures
        r@ == a@ + b@,
{
    String::from_str(a).concat(b)
}

/// The number of leading characters of `s` that make up its run of `r#`.
fn raw_prefix_len(s: &str) -> (n: usize)
    ensures
        n <= s@.len(),
        unprefixed(s@) == s@.skip(n as int),
{
    let len = s.unicode_len();
    let mut n: usize = 0;
    assert(s@.skip(0) =~= s@);
    while len - n >= 2 && s.get_char(n) == 'r' && s.get_char(n + 1) == '#'
        invariant
            len == s@.len(),
            n <= len,
            unprefixed(s@) == unprefixed(s@.skip(n as int)),
        decreases len - n,
    {
        proof {
            let t = s@.skip(n as int);
            assert(has_raw_prefix(t));
            assert(t.skip(2) =~= s@.skip(n + 2));
            reveal(unprefixed);
        }
        n = n + 2;
    }
    proof {
        let t = s@.skip(n as int);
        assert(!has_raw_prefix(t));
        reveal(unprefixed);
    }
    n
}

/// `ident` without one leading `r#`.
pub fn bare_name(ident: &str) -> (r: String)
    ensures
        r@ == bare(ident@),
{
    let len = ident.unicode_len();
    if len >= 2 && ident.get_char(0) == 'r' && ident.get_char(1) == '#' {
        let rest = ident.substring_char(2, len);
        assert(ident@.subrange(2, len as int) =~= ident@.skip(2));
        String::from_str(rest)
    } else {
        String::from_str(ident)
    }
}

/// Puts `initial` in place of the first character of `ident`, whose raw
/// prefixes are dropped.
pub fn replace_initial(initial: &str, ident: &str) -> (r: String)
    ensures
        r@ == with_initial(initial@, ident@),
{
    let len = ident.unicode_len();
    let start = raw_prefix_len(ident);
    if start == len {
        String::new()
    } else {
        let tail = ident.substring_char(start + 1, len);
        assert(ident@.subrange(start + 1, len as int) =~= ident@.skip(start as int).skip(1));
        join(initial, tail)
    }
}

/// The capitalised label of `ident`.
pub fn capitalize(ident: &str) -> (r: String)
    ensures
        r@ == capitalized(ident@),
{
    let len = ident.unicode_len();
    let start = raw_prefix_len(ident);
    if start == len {
        String::new()
    } else {
        let upper = uppercase(ident.get_char(start));
        replace_initial(upper.as_str(), ident)
    }
}

fn digit_char(d: usize) -> (c: char)
    requires
        d < 10,
    ensures
        c == digit(d as nat),
{
    match d {
        0 => '0',
        1 => '1',
        2 => '2',
        3 => '3',
        4 => '4',
        5 => '5',
        6 => '6',
        7 => '7',
        8 => '8',
        _ => '9',
    }
}

/// `n` written in decimal.
pub fn decimal_text(n: usize) -> (r: String)
    ensures
        r@ == decimal(n as nat),
    decreases n,
{
    if n < 10 {
        let mut r = String::new();
        r.push(digit_char(n));
        r
    } else {
        let mut r = decimal_text(n / 10);
        r.push(digit_char(n % 10));
        r
    }
}

} // verus!
