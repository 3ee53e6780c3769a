//! Laws that relate the registration operations and the width of a text.

use vstd::prelude::*;

use crate::metrics::{advance_sum, kerning_sum, printable, visible, width_of, FontModel};
use crate::store::{store_with_advances, store_with_pairs};

verus! {

/// The empty text has width zero in every font.
pub proof fn lemma_empty_text_width(m: FontModel)
    ensures
        width_of(m, Seq::empty()) == 0,
{
}

/// A single printable character measures exactly its registered advance,
/// whatever kerning pairs the font has.
pub proof fn lemma_single_char_width(m: FontModel, c: char)
    requires
        printable(c),
    ensures
        width_of(m, seq![c]) == m.advance(c as u32 as u8),
{
    assert(seq![c].drop_last() =~= Seq::<char>::empty());
    assert(visible(Seq::<char>::empty()) =~= Seq::<u8>::empty());
    assert(seq![c].last() == c);
    assert(visible(seq![c]) =~= seq![c as u32 as u8]);
    assert(visible(seq![c]).drop_last() =~= Seq::<u8>::empty());
    assert(visible(seq![c]).last() == c as u32 as u8);
    assert(advance_sum(m, Seq::<u8>::empty()) == 0);
    assert(advance_sum(m, visible(seq![c])) == m.advance(c as u32 as u8));
}

/// Two printable characters that form a registered kerning pair measure the
/// sum of their advances less the pair's adjustment.
pub proof fn lemma_kerned_pair_width(m: FontModel, a: char, b: char)
    requires
        printable(a),
        printable(b),
        m.kerning.contains_key((a as u32 as u8, b as u32 as u8)),
    ensures
        width_of(m, seq![a, b]) == m.advance(a as u32 as u8) + m.advance(b as u32 as u8)
            - m.kerning[(a as u32 as u8, b as u32 as u8)],
{
    let s = seq![a, b];
    let ca = a as u32 as u8;
    let cb = b as u32 as u8;
    assert(s.drop_last() =~= seq![a]);
    assert(seq![a].drop_last() =~= Seq::<char>::empty());
    assert(visible(Seq::<char>::empty()) =~= Seq::<u8>::empty());
    assert(seq![a].last() == a);
    assert(s.last() == b);
    assert(visible(seq![a]) =~= seq![ca]);
    assert(visible(s) =~= seq![ca, cb]);
    assert(seq![ca, cb].drop_last() =~= seq![ca]);
    assert(seq![ca].drop_last() =~= Seq::<u8>::empty());
    assert(seq![ca].last() == ca);
    assert(advance_sum(m, Seq::<u8>::empty()) == 0);
    assert(kerning_sum(m, seq![ca]) == 0);
    assert(seq![ca, cb].last() == cb);
    assert(seq![ca, cb][0] == ca);
    assert(advance_sum(m, seq![ca]) == m.advance(ca));
    assert(advance_sum(m, seq![ca, cb]) == m.advance(ca) + m.advance(cb));
    assert(kerning_sum(m, seq![ca, cb]) == m.kern(ca, cb));
}

/// Registering the same advance table twice leaves the store as registering
/// it once does.
pub proof fn lemma_advances_idempotent(
    store: Map<Seq<char>, FontModel>,
    font: Seq<char>,
    widths: Seq<i32>,
)
    ensures
        store_with_advances(store_with_advances(store, font, widths), font, widths)
            == store_with_advances(store, font, widths),
{
    let once = store_with_advances(store, font, widths);
    assert(store_with_advances(once, font, widths) =~= once);
}

/// Adding kerning pairs never changes a font's advances.
pub proof fn lemma_pairs_keep_advances(m: FontModel, keys: Seq<u8>, adjustments: Seq<i32>, n: nat)
    ensures
        m.with_pairs(keys, adjustments, n).advances == m.advances,
    decreases n,
{
    if n > 0 {
        lemma_pairs_keep_advances(m, keys, adjustments, (n - 1) as nat);
    }
}

/// Registering kerning pairs after an advance table keeps that table, and
/// registering an advance table after kerning pairs keeps those pairs.
pub proof fn lemma_registrations_independent(
    store: Map<Seq<char>, FontModel>,
    font: Seq<char>,
    widths: Seq<i32>,
    keys: Seq<u8>,
    adjustments: Seq<i32>,
)
    ensures
        store_with_pairs(store_with_advances(store, font, widths), font, keys, adjustments)[font].advances
            == widths,
        store_with_advances(store_with_pairs(store, font, keys, adjustments), font, widths)[font].kerning
            == store_with_pairs(store, font, keys, adjustments)[font].kerning,
{
    let with_widths = store_with_advances(store, font, widths);
    lemma_pairs_keep_advances(with_widths[font], keys, adjustments, adjustments.len());
}

} // verus!
