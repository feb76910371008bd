//! Small operations on text that requests are put together from.

use vstd::prelude::*;
use vstd::std_specs::iter::IteratorSpec;
use vstd::string::StringExecFns;
use vstd::utf8::encode_utf8;
use vstd::utf8::encode_utf8_decode_utf8;

verus! {

/// Whether `c` is a blank that a coordinate may carry: a space, a tab or a line break.
pub open spec fn is_blank(c: char) -> bool {
    c == ' ' || c == '\t' || c == '\n' || c == '\r'
}

/// `s` without its blanks.
pub open spec fn without_blanks(s: Seq<char>) -> Seq<char> {
    s.filter(|c: char| !is_blank(c))
}

/// `String::push` appends one character.
pub assume_specification[ String::push ](s: &mut String, c: char)
    ensures
        final(s)@ == old(s)@.push(c),
;

fn blank(c: char) -> (r: bool)
    ensures
        r == is_blank(c),
{
    c == ' ' || c == '\t' || c == '\n' || c == '\r'
}

proof fn lemma_without_blanks_step(s: Seq<char>, i: int)
    requires
        0 <= i < s.len(),
    ensures
        without_blanks(s.take(i + 1)) == if is_blank(s[i]) {
            without_blanks(s.take(i))
        } else {
            without_blanks(s.take(i)).push(s[i])
        },
{
    reveal(Seq::filter);
    assert(s.take(i + 1).drop_last() =~= s.take(i));
}

/// Removes the blanks from `s` and leaves every other character where it was.
pub fn strip_blanks(s: &str) -> (r: String)
    ensures
        r@ == without_blanks(s@),
{
    let mut out = String::new();
    proof {
        reveal(Seq::filter);
    }
    for c in it: s.chars()
        invariant
            it.seq() == s@,
            out@ == without_blanks(s@.take(it.index())),
    {
        proof {
            lemma_without_blanks_step(s@, it.index());
        }
        if !blank(c) {
            out.push(c);
        }
    }
    proof {
        assert(s@.take(s@.len() as int) =~= s@);
    }
    out
}

/// Whether `text` ends in the character `c`.
pub open spec fn ends_in(text: Seq<char>, c: char) -> bool {
    text.len() > 0 && text.last() == c
}

/// Tells whether `text` ends in the character `c`.
pub fn ends_with(text: &str, c: char) -> (r: bool)
    ensures
        r == ends_in(text@, c),
{
    let mut last: Option<char> = None;
    for d in it: text.chars()
        invariant
            it.seq() == text@,
            last == if it.index() == 0 {
                None
            } else {
                Some(text@[it.index() - 1])
            },
    {
        last = Some(d);
    }
    match last {
        Some(d) => d == c,
        None => false,
    }
}

/// The character that stands for the decimal digit `d`.
pub open spec fn digit_char(d: nat) -> char
    recommends
        d < 10,
{
    ('0' as nat + d) as char
}

/// `n` written in decimal, without a sign and without leading zeros.
pub open spec fn decimal_text(n: nat) -> Seq<char>
    decreases n,
{
    if n < 10 {
        seq![digit_char(n)]
    } else {
        decimal_text(n / 10).push(digit_char(n % 10))
    }
}

fn digit(d: u8) -> (c: char)
    requires
        d < 10,
    ensures
        c == digit_char(d as nat),
{
    (48u8 + d) as char
}

/// Writes `n` in decimal.
pub fn decimal(n: u8) -> (r: String)
    ensures
        r@ == decimal_text(n as nat),
{
    let mut out = String::new();
    if n >= 100 {
        out.push(digit(n / 100));
    }
    if n >= 10 {
        out.push(digit((n / 10) % 10));
    }
    out.push(digit(n % 10));
    proof {
        reveal_with_fuel(decimal_text, 3);
    }
    out
}

/// The members of `items`, in order, with `separator` between each two.
pub open spec fn joined_with(items: Seq<Seq<char>>, separator: Seq<char>) -> Seq<char>
    decreases items.len(),
{
    if items.len() == 0 {
        Seq::empty()
    } else if items.len() == 1 {
        items[0]
    } else {
        joined_with(items.drop_last(), separator) + separator + items.last()
    }
}

/// The texts that `items` holds.
pub open spec fn texts(items: Seq<&str>) -> Seq<Seq<char>> {
    items.map_values(|item: &str| item@)
}

/// Joins `items` with `separator` between each two.
pub fn join_with(items: &Vec<&str>, separator: &str) -> (r: String)
    ensures
        r@ == joined_with(texts(items@), separator@),
{
    let mut out = String::new();
    let mut i: usize = 0;
    while i < items.len()
        invariant
            i <= items.len(),
            out@ == joined_with(texts(items@).take(i as int), separator@),
        decreases items.len() - i,
    {
        proof {
            let all = texts(items@);
            assert(all.take(i + 1).drop_last() =~= all.take(i as int));
        }
        if i > 0 {
            out.append(separator);
        }
        out.append(items[i]);
        i += 1;
    }
    proof {
        assert(texts(items@).take(items.len() as int) =~= texts(items@));
    }
    out
}

/// Whether two texts hold the same characters.
pub fn same_text(a: &str, b: &str) -> (r: bool)
    ensures
        r == (a@ == b@),
{
    let x = a.as_bytes();
    let y = b.as_bytes();
    proof {
        encode_utf8_decode_utf8(a@);
        encode_utf8_decode_utf8(b@);
    }
    if x.len() != y.len() {
        return false;
    }
    let mut i: usize = 0;
    while i < x.len()
        invariant
            i <= x.len(),
            x.len() == y.len(),
            x@ == encode_utf8(a@),
            y@ == encode_utf8(b@),
            forall|k: int| 0 <= k < i ==> x@[k] == y@[k],
        decreases x.len() - i,
    {
        if x[i] != y[i] {
            return false;
        }
        i += 1;
    }
    proof {
        assert(x@ =~= y@);
    }
    true
}

} // verus!
