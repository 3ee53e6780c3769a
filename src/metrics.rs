//! The metrics of one font and the width of a text set in it.

use vstd::prelude::*;

use crate::tables::KerningTable;
use crate::transliterate::{all_ascii, to_ascii, unidecode_of};

verus! {

/// The number of printable ASCII characters, codes 32 through 126.
pub const ADVANCE_COUNT: usize = 95;

/// The code of the first printable ASCII character, the space.
pub const FIRST_PRINTABLE: u32 = 32;

/// The code of the last printable ASCII character, the tilde.
pub const LAST_PRINTABLE: u32 = 126;

/// The metrics of a font as plain values: one advance per printable ASCII
/// character, indexed by its code minus 32, and the kerning adjustment of
/// each registered ordered pair of character codes.
pub struct FontModel {
    pub advances: Seq<i32>,
    pub kerning: Map<(u8, u8), i32>,
}

impl FontModel {
    /// The metrics of a font that nothing has been registered for.
    pub open spec fn blank() -> FontModel {
        FontModel { advances: Seq::new(95, |i: int| 0i32), kerning: Map::empty() }
    }

    pub open spec fn wf(self) -> bool {
        self.advances.len() == 95
    }

    /// The advance of the printable character with the given code.
    pub open spec fn advance(self, code: u8) -> int {
        self.advances[code - 32] as int
    }

    /// The adjustment of an ordered pair; an absent pair adjusts by zero.
    pub open spec fn kern(self, left: u8, right: u8) -> int {
        if self.kerning.contains_key((left, right)) {
            self.kerning[(left, right)] as int
        } else {
            0
        }
    }

    /// The same metrics with a new advance table.
    pub open spec fn with_advances(self, advances: Seq<i32>) -> FontModel {
        FontModel { advances, kerning: self.kerning }
    }

    /// The same metrics with the first `n` pairs of a registration added in
    /// order: pair `i` has the codes at `2 * i` and `2 * i + 1` of `keys` and
    /// the adjustment at `i` of `adjustments`; a later pair overwrites an
    /// earlier one with the same codes.
    pub open spec fn with_pairs(self, keys: Seq<u8>, adjustments: Seq<i32>, n: nat) -> FontModel
        decreases n,
    {
        if n == 0 {
            self
        } else {
            let prev = self.with_pairs(keys, adjustments, (n - 1) as nat);
            let i = n - 1;
            FontModel {
                advances: prev.advances,
                kerning: prev.kerning.insert((keys[2 * i], keys[2 * i + 1]), adjustments[i]),
            }
        }
    }
}

/// Whether a character is printable ASCII, the range the advance table covers.
pub open spec fn printable(c: char) -> bool {
    32 <= c as u32 <= 126
}

/// The codes of the printable characters of a text, in order; the others
/// are skipped.
pub open spec fn visible(s: Seq<char>) -> Seq<u8>
    decreases s.len(),
{
    if s.len() == 0 {
        Seq::empty()
    } else {
        let v = visible(s.drop_last());
        if printable(s.last()) {
            v.push(s.last() as u32 as u8)
        } else {
            v
        }
    }
}

/// The sum of the advances of a sequence of codes.
pub open spec fn advance_sum(m: FontModel, v: Seq<u8>) -> int
    decreases v.len(),
{
    if v.len() == 0 {
        0
    } else {
        advance_sum(m, v.drop_last()) + m.advance(v.last())
    }
}

/// The sum of the adjustments of each adjacent pair of a sequence of codes.
pub open spec fn kerning_sum(m: FontModel, v: Seq<u8>) -> int
    decreases v.len(),
{
    if v.len() < 2 {
        0
    } else {
        kerning_sum(m, v.drop_last()) + m.kern(v[v.len() - 2], v.last())
    }
}

/// The width of a text, taken as is: the advances of its printable
/// characters, less the adjustments of the pairs they form.
pub open spec fn width_of(m: FontModel, s: Seq<char>) -> int {
    advance_sum(m, visible(s)) - kerning_sum(m, visible(s))
}

/// The metrics of one font.
pub struct FontMap {
    ascii_map: [i32; 95],
    kerning_pair_map: KerningTable,
}

impl View for FontMap {
    type V = FontModel;

    closed spec fn view(&self) -> FontModel {
        FontModel { advances: self.ascii_map@, kerning: self.kerning_pair_map@ }
    }
}

impl FontMap {
    /// Metrics with every advance zero and no kerning pairs.
    pub fn new() -> (r: FontMap)
        ensures
            r@ == FontModel::blank(),
    {
        let r = FontMap { ascii_map: [0i32; 95], kerning_pair_map: KerningTable::new() };
        assert(r@.advances =~= FontModel::blank().advances);
        r
    }

    /// The advance registered for the printable character with the given code.
    pub fn advance(&self, code: u8) -> (r: i32)
        requires
            32 <= code <= 126,
        ensures
            r == self@.advance(code),
    {
        self.ascii_map[(code - 32) as usize]
    }

    /// The adjustment registered for an ordered pair of codes, if any.
    pub fn kerning(&self, left: u8, right: u8) -> (r: Option<i32>)
        ensures
            r == self@.kerning.get((left, right)),
    {
        self.kerning_pair_map.get((left, right))
    }

    /// Replaces the whole advance table, keeping the kerning pairs.
    pub(crate) fn set_advances(&mut self, widths: &Vec<i32>)
        requires
            widths@.len() == 95,
        ensures
            final(self)@ == old(self)@.with_advances(widths@),
    {
        let mut i: usize = 0;
        while i < ADVANCE_COUNT
            invariant
                widths@.len() == 95,
                0 <= i <= 95,
                self.kerning_pair_map@ == old(self).kerning_pair_map@,
                forall|j: int| 0 <= j < i ==> self.ascii_map@[j] == widths@[j],
            decreases 95 - i,
        {
            self.ascii_map[i] = widths[i];
            i = i + 1;
        }
        assert(self.ascii_map@ =~= widths@);
    }

    /// Adds kerning pairs in order: pair `i` has the codes at `2 * i` and
    /// `2 * i + 1` of `keys` and the adjustment at `i` of `adjustments`.
    pub(crate) fn add_kerning_pairs(&mut self, keys: &Vec<u8>, adjustments: &Vec<i32>)
        requires
            keys@.len() == 2 * adjustments@.len(),
        ensures
            final(self)@ == old(self)@.with_pairs(keys@, adjustments@, adjustments@.len()),
    {
        let key_count = keys.len();
        let mut i: usize = 0;
        while i < adjustments.len()
            invariant
                key_count == keys@.len(),
                keys@.len() == 2 * adjustments@.len(),
                0 <= i <= adjustments@.len(),
                self@ == old(self)@.with_pairs(keys@, adjustments@, i as nat),
            decreases adjustments@.len() - i,
        {
            let left = keys[2 * i];
            let right = keys[2 * i + 1];
            self.kerning_pair_map.insert((left, right), adjustments[i]);
            i = i + 1;
        }
    }

    /// The width of a text taken as is, without transliteration.
    pub fn ascii_text_width(&self, chars: &Vec<char>) -> (r: i128)
        ensures
            r == width_of(self@, chars@),
    {
        let ghost m = self@;
        let ghost s = chars@;
        let mut char_width: i128 = 0;
        let mut kerning_width: i128 = 0;
        let mut prev: Option<u8> = None;
        let mut i: usize = 0;
        while i < chars.len()
            invariant
                m == self@,
                s == chars@,
                m.wf(),
                0 <= i <= s.len(),
                visible(s.take(i as int)).len() <= i,
                char_width == advance_sum(m, visible(s.take(i as int))),
                kerning_width == kerning_sum(m, visible(s.take(i as int))),
                -2147483648 * i <= char_width <= 2147483648 * i,
                -2147483648 * i <= kerning_width <= 2147483648 * i,
                visible(s.take(i as int)).len() == 0 ==> prev is None,
                visible(s.take(i as int)).len() > 0 ==> prev == Some(
                    visible(s.take(i as int)).last(),
                ),
            decreases s.len() - i,
        {
            let c = chars[i];
            let code = c as u32;
            proof {
                assert(s.take(i + 1).drop_last() =~= s.take(i as int));
                assert(s.take(i + 1).last() == c);
            }
            if FIRST_PRINTABLE <= code && code <= LAST_PRINTABLE {
                let b = code as u8;
                let adv = self.ascii_map[(b - 32) as usize];
                char_width = char_width + adv as i128;
                match prev {
                    Some(p) => {
                        match self.kerning_pair_map.get((p, b)) {
                            Some(k) => {
                                kerning_width = kerning_width + k as i128;
                            },
                            None => {},
                        }
                    },
                    None => {},
                }
                prev = Some(b);
                proof {
                    let v = visible(s.take(i + 1));
                    assert(v.drop_last() =~= visible(s.take(i as int)));
                }
            }
            i = i + 1;
        }
        assert(s.take(i as int) =~= s);
        char_width - kerning_width
    }

    /// The width of a text: it is transliterated to ASCII, then measured.
    pub fn text_width(&self, text: &String) -> (r: i128)
        ensures
            r == width_of(self@, unidecode_of(text@)),
            all_ascii(text@) ==> r == width_of(self@, text@),
    {
        let chars = to_ascii(text);
        self.ascii_text_width(&chars)
    }
}

} // verus!
