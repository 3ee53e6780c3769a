//! The hash tables that hold kerning pairs and fonts, kept behind a small
//! trusted interface over `hashbrown::HashMap`.

use vstd::prelude::*;

use crate::metrics::FontMap;

verus! {

/// Kerning adjustments keyed by an ordered pair of character codes.
#[verifier::external_body]
pub struct KerningTable {
    map: hashbrown::HashMap<(u8, u8), i32>,
}

/// What a kerning table holds.
pub uninterp spec fn kerning_entries(t: KerningTable) -> Map<(u8, u8), i32>;

impl View for KerningTable {
    type V = Map<(u8, u8), i32>;

    open spec fn view(&self) -> Map<(u8, u8), i32> {
        kerning_entries(*self)
    }
}

impl KerningTable {
    /// Relies on hashbrown::HashMap::new: the new map is empty.
    #[verifier::external_body]
    pub(crate) fn new() -> (r: KerningTable)
        ensures
            kerning_entries(r) =~= Map::empty(),
    {
        KerningTable { map: hashbrown::HashMap::new() }
    }

    /// Relies on hashbrown::HashMap::get: the value stored under the key, if any.
    #[verifier::external_body]
    pub(crate) fn get(&self, key: (u8, u8)) -> (r: Option<i32>)
        ensures
            r == kerning_entries(*self).get(key),
    {
        self.map.get(&key).copied()
    }

    /// Relies on hashbrown::HashMap::insert: the key now maps to the value,
    /// whatever it held before; other keys keep theirs.
    #[verifier::external_body]
    pub(crate) fn insert(&mut self, key: (u8, u8), value: i32)
        ensures
            kerning_entries(*final(self)) == kerning_entries(*old(self)).insert(key, value),
    {
        self.map.insert(key, value);
    }
}

/// Font metrics keyed by font name.
#[verifier::external_body]
pub struct FontTable {
    map: hashbrown::HashMap<String, FontMap>,
}

/// What a font table holds, keyed by the characters of each font name.
pub uninterp spec fn font_entries(t: FontTable) -> Map<Seq<char>, FontMap>;

impl FontTable {
    /// Relies on hashbrown::HashMap::new: the new map is empty.
    #[verifier::external_body]
    pub(crate) fn new() -> (r: FontTable)
        ensures
            font_entries(r) =~= Map::empty(),
    {
        FontTable { map: hashbrown::HashMap::new() }
    }

    /// Relies on hashbrown::HashMap::get: a reference to the value stored under
    /// the key, if any. `String` keys compare by their characters.
    #[verifier::external_body]
    pub(crate) fn get(&self, key: &String) -> (r: Option<&FontMap>)
        ensures
            font_entries(*self).contains_key(key@) ==> r == Some(&font_entries(*self)[key@]),
            !font_entries(*self).contains_key(key@) ==> r is None,
    {
        self.map.get(key)
    }

    /// Relies on hashbrown::HashMap::remove: hands back the value stored under
    /// the key, if any, and leaves the key absent.
    #[verifier::external_body]
    pub(crate) fn remove(&mut self, key: &String) -> (r: Option<FontMap>)
        ensures
            r == font_entries(*old(self)).get(key@),
            font_entries(*final(self)) == font_entries(*old(self)).remove(key@),
    {
        self.map.remove(key)
    }

    /// Relies on hashbrown::HashMap::insert: the key now maps to the value,
    /// whatever it held before; other keys keep theirs.
    #[verifier::external_body]
    pub(crate) fn insert(&mut self, key: String, value: FontMap)
        ensures
            font_entries(*final(self)) == font_entries(*old(self)).insert(key@, value),
    {
        self.map.insert(key, value);
    }
}

} // verus!
