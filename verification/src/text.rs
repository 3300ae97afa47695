//! Text ordering helpers: the case folding behind the case-insensitive
//! member sort, and the byte-wise lexicographic order both sort policies
//! compare with.

use vstd::prelude::*;
use vstd::slice::slice_subrange;

verus! {

/// The lowercase form of a character sequence, as `str::to_lowercase`
/// computes it.
pub uninterp spec fn lower_of(s: Seq<char>) -> Seq<char>;

/// Relies on `str::to_lowercase`: the result depends on the characters
/// alone.
#[verifier::external_body]
pub fn lowercase(s: &str) -> (r: String)
    ensures
        r@ == lower_of(s@),
{
    s.to_lowercase()
}

/// Byte-wise lexicographic order, with a prefix ordered before every
/// extension of it; ties both sort policies are decided by.
pub open spec fn lex_leq(a: Seq<u8>, b: Seq<u8>) -> bool
    decreases a.len(),
{
    if a.len() == 0 {
        true
    } else if b.len() == 0 {
        false
    } else if a[0] < b[0] {
        true
    } else if a[0] > b[0] {
        false
    } else {
        lex_leq(a.drop_first(), b.drop_first())
    }
}

/// The order is total: of any two byte strings, one sorts no later than
/// the other.
pub proof fn lemma_lex_leq_total(a: Seq<u8>, b: Seq<u8>)
    ensures
        lex_leq(a, b) || lex_leq(b, a),
    decreases a.len(),
{
    if a.len() > 0 && b.len() > 0 && a[0] == b[0] {
        lemma_lex_leq_total(a.drop_first(), b.drop_first());
    }
}

/// The order is reflexive.
pub proof fn lemma_lex_leq_refl(a: Seq<u8>)
    ensures
        lex_leq(a, a),
    decreases a.len(),
{
    if a.len() > 0 {
        lemma_lex_leq_refl(a.drop_first());
    }
}

/// The order is transitive.
pub proof fn lemma_lex_leq_trans(a: Seq<u8>, b: Seq<u8>, c: Seq<u8>)
    requires
        lex_leq(a, b),
        lex_leq(b, c),
    ensures
        lex_leq(a, c),
    decreases a.len(),
{
    if a.len() > 0 && b.len() > 0 && c.len() > 0 && a[0] == b[0] && b[0] == c[0] {
        lemma_lex_leq_trans(a.drop_first(), b.drop_first(), c.drop_first());
    }
}

/// Decides `lex_leq` on real byte strings.
pub fn lex_leq_bytes(a: &[u8], b: &[u8]) -> (r: bool)
    ensures
        r == lex_leq(a@, b@),
    decreases a@.len(),
{
    if a.len() == 0 {
        true
    } else if b.len() == 0 {
        false
    } else {
        let x = *vstd::slice::slice_index_get(a, 0);
        let y = *vstd::slice::slice_index_get(b, 0);
        if x < y {
            true
        } else if x > y {
            false
        } else {
            let ta = slice_subrange(a, 1, a.len());
            let tb = slice_subrange(b, 1, b.len());
            proof {
                assert(ta@ =~= a@.drop_first());
                assert(tb@ =~= b@.drop_first());
            }
            lex_leq_bytes(ta, tb)
        }
    }
}

} // verus!
