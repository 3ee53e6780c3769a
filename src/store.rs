//! The store of font metrics, keyed by font name, and the width queries
//! made against it.

use vstd::prelude::*;

use crate::metrics::{width_of, FontMap, FontModel};
use crate::tables::{font_entries, FontTable};
use crate::transliterate::{all_ascii, unidecode_of};

verus! {

/// Why a registration was refused. A refused registration changes nothing.
#[derive(Debug, Clone, Copy, PartialEq, Eq, Structural)]
pub enum FontError {
    /// The payload is malformed: an advance table without exactly 95 entries,
    /// or kerning keys that are not two per adjustment.
    InvalidInput,
}

/// The metrics that a store holds for a font, or blank metrics where it
/// holds none.
pub open spec fn entry_or_blank(store: Map<Seq<char>, FontModel>, font: Seq<char>) -> FontModel {
    if store.contains_key(font) {
        store[font]
    } else {
        FontModel::blank()
    }
}

/// The store after a font's advance table is registered.
pub open spec fn store_with_advances(
    store: Map<Seq<char>, FontModel>,
    font: Seq<char>,
    widths: Seq<i32>,
) -> Map<Seq<char>, FontModel> {
    store.insert(font, entry_or_blank(store, font).with_advances(widths))
}

/// The store after kerning pairs are registered for a font.
pub open spec fn store_with_pairs(
    store: Map<Seq<char>, FontModel>,
    font: Seq<char>,
    keys: Seq<u8>,
    adjustments: Seq<i32>,
) -> Map<Seq<char>, FontModel> {
    store.insert(font, entry_or_blank(store, font).with_pairs(keys, adjustments, adjustments.len()))
}

/// Whether kerning keys hold exactly two codes per adjustment.
pub open spec fn pairs_well_formed(keys: Seq<u8>, adjustments: Seq<i32>) -> bool {
    keys.len() == 2 * adjustments.len()
}

/// The widths of a batch of texts in a font whose metrics the store holds,
/// or no widths at all where it holds none.
pub open spec fn batch_widths(
    store: Map<Seq<char>, FontModel>,
    font: Seq<char>,
    texts: Seq<Seq<char>>,
) -> Seq<int> {
    if store.contains_key(font) {
        texts.map_values(|t: Seq<char>| width_of(store[font], unidecode_of(t)))
    } else {
        Seq::empty()
    }
}

/// Font metrics keyed by font name. Each name has at most one entry; a
/// registration under a name already present updates that entry.
pub struct FontWidths {
    font_maps: FontTable,
}

impl View for FontWidths {
    type V = Map<Seq<char>, FontModel>;

    closed spec fn view(&self) -> Map<Seq<char>, FontModel> {
        font_entries(self.font_maps).map_values(|f: FontMap| f@)
    }
}

impl FontWidths {
    /// An empty store.
    pub fn new() -> (r: FontWidths)
        ensures
            r@ == Map::<Seq<char>, FontModel>::empty(),
    {
        let r = FontWidths { font_maps: FontTable::new() };
        assert(r@ =~= Map::<Seq<char>, FontModel>::empty());
        r
    }

    /// Takes the entry of a font out of the store, or blank metrics where
    /// there is none.
    fn take_entry(&mut self, font: &String) -> (r: FontMap)
        ensures
            r@ == entry_or_blank(old(self)@, font@),
            final(self)@ == old(self)@.remove(font@),
    {
        let r = match self.font_maps.remove(font) {
            Some(f) => f,
            None => FontMap::new(),
        };
        assert(self@ =~= old(self)@.remove(font@));
        r
    }

    /// Puts the entry of a font into the store.
    fn put_entry(&mut self, font: String, entry: FontMap)
        ensures
            final(self)@ == old(self)@.insert(font@, entry@),
    {
        let ghost k = font@;
        self.font_maps.insert(font, entry);
        assert(self@ =~= old(self)@.insert(k, entry@));
    }

    /// Registers the advance table of a font: `widths` holds the advances of
    /// the characters with codes 32 through 126, in order. The font's kerning
    /// pairs are kept.
    pub fn create_ascii_map(&mut self, font: String, widths: Vec<i32>) -> (r: Result<(), FontError>)
        ensures
            r is Ok <==> widths@.len() == 95,
            r is Ok ==> final(self)@ == store_with_advances(old(self)@, font@, widths@),
            r is Err ==> r == Err::<(), FontError>(FontError::InvalidInput) && final(self)@ == old(
                self,
            )@,
    {
        if widths.len() != 95 {
            return Err(FontError::InvalidInput);
        }
        let ghost store = self@;
        let mut entry = self.take_entry(&font);
        entry.set_advances(&widths);
        self.put_entry(font, entry);
        assert(self@ =~= store_with_advances(store, font@, widths@));
        Ok(())
    }

    /// Registers kerning pairs for a font: pair `i` is made of the codes at
    /// `2 * i` and `2 * i + 1` of `key_map` and adjusts by the value at `i`
    /// of `diff_map`. Pairs are added in order and overwrite earlier ones
    /// with the same codes; the font's advances are kept.
    pub fn create_kerning_map(&mut self, font: String, key_map: Vec<u8>, diff_map: Vec<i32>) -> (r:
        Result<(), FontError>)
        ensures
            r is Ok <==> pairs_well_formed(key_map@, diff_map@),
            r is Ok ==> final(self)@ == store_with_pairs(old(self)@, font@, key_map@, diff_map@),
            r is Err ==> r == Err::<(), FontError>(FontError::InvalidInput) && final(self)@ == old(
                self,
            )@,
    {
        if key_map.len() % 2 != 0 || key_map.len() / 2 != diff_map.len() {
            return Err(FontError::InvalidInput);
        }
        let ghost store = self@;
        let mut entry = self.take_entry(&font);
        entry.add_kerning_pairs(&key_map, &diff_map);
        self.put_entry(font, entry);
        assert(self@ =~= store_with_pairs(store, font@, key_map@, diff_map@));
        Ok(())
    }

    /// The metrics registered for a font, if any.
    pub fn get(&self, font: &String) -> (r: Option<&FontMap>)
        ensures
            r is Some <==> self@.contains_key(font@),
            r is Some ==> r->0@ == self@[font@],
    {
        self.font_maps.get(font)
    }

    /// The width of a text in a font; zero where the font is not registered.
    pub fn text_width(&self, font: String, text: String) -> (r: i128)
        ensures
            self@.contains_key(font@) ==> r == width_of(self@[font@], unidecode_of(text@)),
            self@.contains_key(font@) && all_ascii(text@) ==> r == width_of(self@[font@], text@),
            !self@.contains_key(font@) ==> r == 0,
    {
        match self.get(&font) {
            Some(font_map) => font_map.text_width(&text),
            None => 0,
        }
    }

    /// The widths of a batch of texts in a font, in order; no widths at all
    /// where the font is not registered.
    pub fn text_widths(&self, font: String, texts: Vec<String>) -> (r: Vec<i128>)
        ensures
            r@.map_values(|w: i128| w as int) == batch_widths(
                self@,
                font@,
                texts@.map_values(|t: String| t@),
            ),
    {
        let ghost batch = texts@.map_values(|t: String| t@);
        match self.get(&font) {
            Some(font_map) => {
                let mut results: Vec<i128> = Vec::new();
                let mut i: usize = 0;
                while i < texts.len()
                    invariant
                        0 <= i <= texts@.len(),
                        self@.contains_key(font@),
                        font_map@ == self@[font@],
                        batch == texts@.map_values(|t: String| t@),
                        results@.len() == i,
                        forall|j: int|
                            0 <= j < i ==> results@[j] as int == width_of(
                                font_map@,
                                unidecode_of(#[trigger] batch[j]),
                            ),
                    decreases texts@.len() - i,
                {
                    let w = font_map.text_width(&texts[i]);
                    results.push(w);
                    i = i + 1;
                }
                assert(results@.map_values(|w: i128| w as int) =~= batch_widths(
                    self@,
                    font@,
                    batch,
                ));
                results
            },
            None => {
                assert(Seq::<i128>::empty().map_values(|w: i128| w as int) =~= batch_widths(
                    self@,
                    font@,
                    batch,
                ));
                Vec::new()
            },
        }
    }
}

} // verus!
