//! The byte-level substitution rule and the facts that hold of it.

use vstd::prelude::*;

verus! {

/// The byte that is replaced.
pub const SEMICOLON: u8 = 0x3B;

/// The byte it is replaced with.
pub const COLON: u8 = 0x3A;

/// The substitution rule on one byte: `;` becomes `:`, every other byte stays.
pub open spec fn substitute_byte(b: u8) -> u8 {
    if b == SEMICOLON {
        COLON
    } else {
        b
    }
}

/// The rule applied to every byte of a sequence, each independently of the others.
pub open spec fn substituted(s: Seq<u8>) -> Seq<u8> {
    s.map_values(|b: u8| substitute_byte(b))
}

/// Rewrites one byte in place by the substitution rule.
pub fn substitute_in_place(b: &mut u8)
    ensures
        *final(b) == substitute_byte(*old(b)),
{
    if *b == SEMICOLON {
        *b = COLON;
    }
}

/// Position by position: a `;` becomes `:`, and every other byte is kept.
pub proof fn lemma_substitution_pointwise(s: Seq<u8>)
    ensures
        substituted(s).len() == s.len(),
        forall|i: int|
            0 <= i < s.len() ==> (s[i] == SEMICOLON ==> #[trigger] substituted(s)[i] == COLON) && (
            s[i] != SEMICOLON ==> substituted(s)[i] == s[i]),
{
}

/// On input that holds no `:`, a byte of the result is `:` exactly where the
/// input holds `;`. (An input `:` stays `:`, so without that condition the
/// converse fails.)
pub proof fn lemma_colon_exactly_where_semicolon(s: Seq<u8>)
    requires
        !s.contains(COLON),
    ensures
        forall|i: int|
            0 <= i < s.len() ==> (#[trigger] substituted(s)[i] == COLON <==> s[i] == SEMICOLON),
{
    assert forall|i: int| 0 <= i < s.len() implies (#[trigger] substituted(s)[i] == COLON
        <==> s[i] == SEMICOLON) by {
        if s[i] == COLON {
            assert(s.contains(COLON));
        }
    }
}

/// Applying the substitution a second time changes nothing.
pub proof fn lemma_substitution_idempotent(s: Seq<u8>)
    ensures
        substituted(substituted(s)) == substituted(s),
{
    assert(substituted(substituted(s)) =~= substituted(s));
}

/// The substitution never changes the length.
pub proof fn lemma_substitution_keeps_length(s: Seq<u8>)
    ensures
        substituted(s).len() == s.len(),
{
}

/// A sequence without `;` is left exactly as it is.
pub proof fn lemma_substitution_identity_without_semicolon(s: Seq<u8>)
    requires
        !s.contains(SEMICOLON),
    ensures
        substituted(s) == s,
{
    assert forall|i: int| 0 <= i < s.len() implies #[trigger] substituted(s)[i] == s[i] by {
        if s[i] == SEMICOLON {
            assert(s.contains(SEMICOLON));
        }
    }
    assert(substituted(s) =~= s);
}

} // verus!
