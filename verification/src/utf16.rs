//! Text that the system hands over in UTF-16.
use vstd::prelude::*;
use vstd::string::*;

verus! {

/// Whether a unit begins a surrogate pair.
pub open spec fn leads(u: u16) -> bool {
    0xd800 <= u < 0xdc00
}

/// Whether a unit ends a surrogate pair.
pub open spec fn trails(u: u16) -> bool {
    0xdc00 <= u < 0xe000
}

/// The text of a run of UTF-16 units, with U+FFFD for every surrogate that is not
/// part of a pair.
pub open spec fn utf16_text(s: Seq<u16>) -> Seq<char>
    decreases s.len(),
{
    if s.len() == 0 {
        Seq::empty()
    } else if !leads(s[0]) && !trails(s[0]) {
        seq![s[0] as char] + utf16_text(s.skip(1))
    } else if leads(s[0]) && s.len() > 1 && trails(s[1]) {
        seq![(0x10000 + (s[0] - 0xd800) * 0x400 + (s[1] - 0xdc00)) as char] + utf16_text(s.skip(2))
    } else {
        seq!['\u{fffd}'] + utf16_text(s.skip(1))
    }
}

/// Decodes by `String::from_utf16_lossy`. Claims that every unit outside the
/// surrogates is its own character, that a pair of surrogates is the character it
/// encodes, and that every other surrogate becomes U+FFFD.
#[verifier::external_body]
fn decode(v: &[u16]) -> (r: String)
    ensures
        r@ == utf16_text(v@),
{
    String::from_utf16_lossy(v)
}

/// The units before the first zero, or all of them.
pub open spec fn before_nul(s: Seq<u16>) -> Seq<u16>
    decreases s.len(),
{
    if s.len() == 0 || s[0] == 0 {
        Seq::empty()
    } else {
        seq![s[0]] + before_nul(s.skip(1))
    }
}

proof fn lemma_before_nul(s: Seq<u16>, n: int)
    requires
        0 <= n <= s.len(),
        forall|i: int| 0 <= i < n ==> s[i] != 0,
        n == s.len() || s[n] == 0,
    ensures
        before_nul(s) == s.take(n),
    decreases n,
{
    if n > 0 {
        lemma_before_nul(s.skip(1), n - 1);
        assert(seq![s[0]] + s.skip(1).take(n - 1) =~= s.take(n));
    } else {
        assert(s.take(0) =~= Seq::<u16>::empty());
    }
}

/// The text in a buffer that a zero ends early.
pub fn widestr_to_string(buf: &[u16]) -> (r: String)
    ensures
        r@ == utf16_text(before_nul(buf@)),
{
    let mut n: usize = 0;
    while n < buf.len() && buf[n] != 0
        invariant
            n <= buf@.len(),
            forall|i: int| 0 <= i < n ==> buf@[i] != 0,
        decreases buf@.len() - n,
    {
        n = n + 1;
    }
    proof {
        lemma_before_nul(buf@, n as int);
    }
    decode(vstd::slice::slice_subrange(buf, 0, n))
}

/// Whether the first `n` units of a buffer spell this title; nothing is spelled by
/// fewer than one.
pub fn title_matches(buf: &[u16], n: i32, title: &str) -> (r: bool)
    requires
        n <= buf@.len(),
    ensures
        r == (utf16_text(
            buf@.take(
                if n < 0 {
                    0
                } else {
                    n as int
                },
            ),
        ) == title@),
{
    let len: usize = if n < 0 {
        0
    } else {
        n as usize
    };
    let text = decode(vstd::slice::slice_subrange(buf, 0, len));
    crate::text::same(text.as_str(), title)
}

/// Plain text comes over as it is: units below the surrogates are their own
/// characters.
pub proof fn plain_units_are_their_own_characters(s: Seq<u16>)
    requires
        forall|i: int| 0 <= i < s.len() ==> s[i] < 0xd800,
    ensures
        utf16_text(s) == s.map_values(|u: u16| u as char),
    decreases s.len(),
{
    if s.len() > 0 {
        plain_units_are_their_own_characters(s.skip(1));
        assert(utf16_text(s) =~= s.map_values(|u: u16| u as char));
    } else {
        assert(utf16_text(s) =~= s.map_values(|u: u16| u as char));
    }
}

} // verus!
