//! Lookup tables that map an 8-bit channel value to the intensity that the
//! bit planes are generated from.

use crate::color::Rgb888;
use core::marker::PhantomData;
use vstd::prelude::*;

verus! {

/// Maps a colour to the three intensities that are written to the panel.
pub trait Lut {
    /// The intensities of `color`, red first.
    spec fn lookup_spec(&self, color: Rgb888) -> (u16, u16, u16);

    fn lookup(&self, color: Rgb888) -> (out: (u16, u16, u16))
        ensures
            out == self.lookup_spec(color),
    ;
}

/// Marks the two phases of a `GammaLut`.
pub trait LutState {

}

/// Phase of a table that has not been filled yet.
pub struct Uninit;

/// Phase of a table that is filled and can be read.
pub struct Init;

impl LutState for Uninit {

}

impl LutState for Init {

}

/// Three tables, one per channel. A table in phase `Uninit` holds zeroes and
/// cannot be read; `init` turns it into one in phase `Init`.
pub struct GammaLut<S> {
    r: [u16; 256],
    g: [u16; 256],
    b: [u16; 256],
    _state: PhantomData<S>,
}

/// What a `GammaLut` holds: the three tables as sequences of 256 entries.
pub ghost struct LutTables {
    pub r: Seq<u16>,
    pub g: Seq<u16>,
    pub b: Seq<u16>,
}

impl<S> View for GammaLut<S> {
    type V = LutTables;

    closed spec fn view(&self) -> LutTables {
        LutTables { r: self.r@, g: self.g@, b: self.b@ }
    }
}

/// The table entry for a corrected level: the level itself where it fits the
/// 16-bit output, and 0 where it does not.
pub open spec fn narrow_level_spec(value: u32) -> u16 {
    if value <= u16::MAX {
        value as u16
    } else {
        0
    }
}

/// Narrows a corrected level to the output width. A level that does not fit
/// becomes 0.
pub fn narrow_level(value: u32) -> (out: u16)
    ensures
        out == narrow_level_spec(value),
{
    if value <= 65535 {
        value as u16
    } else {
        0
    }
}

/// The table made of the narrowed entries of `levels`.
pub open spec fn narrowed(levels: Seq<u32>) -> Seq<u16> {
    Seq::new(levels.len(), |i: int| narrow_level_spec(levels[i]))
}

/// True if the corrected levels `levels` never decrease from one input
/// level to the next, and all fit the output width.
pub open spec fn rising(levels: Seq<u32>) -> bool {
    &&& forall|i: int, j: int| 0 <= i <= j < levels.len() ==> levels[i] <= levels[j]
    &&& forall|i: int| 0 <= i < levels.len() ==> levels[i] <= u16::MAX
}

fn narrow_table(levels: &[u32; 256]) -> (table: [u16; 256])
    ensures
        table@ == narrowed(levels@),
{
    let mut table: [u16; 256] = [0u16; 256];
    let mut i: usize = 0;
    while i < 256
        invariant
            i <= 256,
            forall|k: int| 0 <= k < i ==> table@[k] == narrow_level_spec(#[trigger] levels@[k]),
        decreases 256 - i,
    {
        table[i] = narrow_level(levels[i]);
        i += 1;
    }
    assert(table@ =~= narrowed(levels@));
    table
}

impl GammaLut<Uninit> {
    /// A table in phase `Uninit`: every entry is 0.
    pub fn new() -> (lut: Self)
        ensures
            lut@.r == Seq::new(256, |i: int| 0u16),
            lut@.g == Seq::new(256, |i: int| 0u16),
            lut@.b == Seq::new(256, |i: int| 0u16),
    {
        let lut = GammaLut { r: [0u16; 256], g: [0u16; 256], b: [0u16; 256], _state: PhantomData };
        assert(lut.r@ =~= Seq::new(256, |i: int| 0u16));
        assert(lut.g@ =~= Seq::new(256, |i: int| 0u16));
        assert(lut.b@ =~= Seq::new(256, |i: int| 0u16));
        lut
    }

    /// Fills the tables from the corrected levels of each channel and hands
    /// back a table that can be read. `red[i]` is the corrected intensity of
    /// input level `i`, before it is narrowed to the output width.
    pub fn init(self, red: &[u32; 256], green: &[u32; 256], blue: &[u32; 256]) -> (lut: GammaLut<
        Init,
    >)
        ensures
            lut@.r == narrowed(red@),
            lut@.g == narrowed(green@),
            lut@.b == narrowed(blue@),
    {
        GammaLut {
            r: narrow_table(red),
            g: narrow_table(green),
            b: narrow_table(blue),
            _state: PhantomData,
        }
    }
}

impl Lut for GammaLut<Init> {
    open spec fn lookup_spec(&self, color: Rgb888) -> (u16, u16, u16) {
        (self@.r[color.r as int], self@.g[color.g as int], self@.b[color.b as int])
    }

    fn lookup(&self, color: Rgb888) -> (out: (u16, u16, u16)) {
        let r = self.r[color.r() as usize];
        let g = self.g[color.g() as usize];
        let b = self.b[color.b() as usize];
        (r, g, b)
    }
}

/// The table without correction: every channel passes through unchanged.
pub struct Identity;

impl Lut for Identity {
    open spec fn lookup_spec(&self, color: Rgb888) -> (u16, u16, u16) {
        (color.r as u16, color.g as u16, color.b as u16)
    }

    fn lookup(&self, color: Rgb888) -> (out: (u16, u16, u16)) {
        (color.r() as u16, color.g() as u16, color.b() as u16)
    }
}

/// The corrected levels of a gamma of one: level `i` stays `i`.
pub open spec fn identity_levels() -> Seq<u32> {
    Seq::new(256, |i: int| i as u32)
}

/// A table filled from levels that leave every input unchanged looks up
/// every colour as its own channel values, as `Identity` does.
pub proof fn lemma_identity_levels_reproduce_color(lut: GammaLut<Init>, color: Rgb888)
    requires
        lut@.r == narrowed(identity_levels()),
        lut@.g == narrowed(identity_levels()),
        lut@.b == narrowed(identity_levels()),
    ensures
        lut.lookup_spec(color) == (color.r as u16, color.g as u16, color.b as u16),
        lut.lookup_spec(color) == Identity.lookup_spec(color),
{
}

/// In a table filled from corrected levels that never decrease and all fit
/// the output width, a brighter input of a channel is never looked up as a
/// darker output of that channel.
pub proof fn lemma_lookup_non_decreasing(
    lut: GammaLut<Init>,
    red: Seq<u32>,
    green: Seq<u32>,
    blue: Seq<u32>,
    darker: Rgb888,
    brighter: Rgb888,
)
    requires
        red.len() == 256,
        green.len() == 256,
        blue.len() == 256,
        lut@.r == narrowed(red),
        lut@.g == narrowed(green),
        lut@.b == narrowed(blue),
        rising(red),
        rising(green),
        rising(blue),
    ensures
        darker.r <= brighter.r ==> lut.lookup_spec(darker).0 <= lut.lookup_spec(brighter).0,
        darker.g <= brighter.g ==> lut.lookup_spec(darker).1 <= lut.lookup_spec(brighter).1,
        darker.b <= brighter.b ==> lut.lookup_spec(darker).2 <= lut.lookup_spec(brighter).2,
{
}

} // verus!
