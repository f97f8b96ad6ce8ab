//! The properties of track features.

use vstd::prelude::*;
use crate::symbols::SymbolSet;
use crate::class::{Railway, Gauge, Category, GaugeGroup, railway_rest};
use crate::import::load::Failed;

verus! {

//------------ Neighbor ------------------------------------------------------

/// What is next to a track.
#[derive(Clone, Copy, Debug, PartialEq, Eq, Structural)]
pub enum Neighbor {
    /// There is no neighbor at all.
    NoNeighbor,
    /// The neighboring track is part of the same line.
    Same,
    /// The neighboring track is part of a different line.
    Other,
}

impl Default for Neighbor {
    fn default() -> (res: Self)
        ensures
            res == Neighbor::NoNeighbor,
    {
        Neighbor::NoNeighbor
    }
}

/// The neighbor that the symbols `n` name with `same` and `other`; tight
/// track always has another line next to it.
pub open spec fn neighbor_of(n: Set<Seq<char>>, tight: bool, same: Seq<char>, other: Seq<char>) -> Neighbor {
    if tight {
        Neighbor::Other
    } else if n.contains(same) {
        Neighbor::Same
    } else if n.contains(other) {
        Neighbor::Other
    } else {
        Neighbor::NoNeighbor
    }
}

/// The symbols left after the neighbor was taken.
pub open spec fn neighbor_rest(n: Set<Seq<char>>, tight: bool, same: Seq<char>, other: Seq<char>) -> Set<Seq<char>> {
    if tight {
        n
    } else if n.contains(same) {
        n.remove(same)
    } else if n.contains(other) {
        n.remove(other)
    } else {
        n
    }
}

impl Neighbor {
    /// Takes the left neighbor out of the symbols.
    pub fn left_from_symbols(symbols: &mut SymbolSet, tight: bool) -> (res: Self)
        requires
            old(symbols).wf(),
        ensures
            final(symbols).wf(),
            res == neighbor_of(old(symbols)@, tight, "leftsame"@, "leftother"@),
            final(symbols)@ == neighbor_rest(old(symbols)@, tight, "leftsame"@, "leftother"@),
    {
        if tight {
            Neighbor::Other
        } else if symbols.take("leftsame") {
            Neighbor::Same
        } else if symbols.take("leftother") {
            Neighbor::Other
        } else {
            Neighbor::NoNeighbor
        }
    }

    /// Takes the right neighbor out of the symbols.
    pub fn right_from_symbols(symbols: &mut SymbolSet, tight: bool) -> (res: Self)
        requires
            old(symbols).wf(),
        ensures
            final(symbols).wf(),
            res == neighbor_of(old(symbols)@, tight, "rightsame"@, "rightother"@),
            final(symbols)@ == neighbor_rest(old(symbols)@, tight, "rightsame"@, "rightother"@),
    {
        if tight {
            Neighbor::Other
        } else if symbols.take("rightsame") {
            Neighbor::Same
        } else if symbols.take("rightother") {
            Neighbor::Other
        } else {
            Neighbor::NoNeighbor
        }
    }
}

//------------ TrackClass ----------------------------------------------------

/// The properties of a track.
#[derive(Clone, Copy, Debug)]
pub struct TrackClass {
    /// The feature class.
    class: Railway,
    /// The gauge of the track.
    gauge: Gauge,
    /// Is this double tracked?
    double: bool,
    /// What is to our left?
    left: Neighbor,
    /// What is to our right?
    right: Neighbor,
    /// Should this track be combined with the underlying track?
    combined: bool,
    /// Is this station track?
    station: bool,
}

/// The parts of a [`TrackClass`] other than its railway class.
pub struct TrackParts {
    pub gauge: Gauge,
    pub double: bool,
    pub left: Neighbor,
    pub right: Neighbor,
    pub combined: bool,
    pub station: bool,
}

/// The symbols that the railway class of a track is read from: all but
/// `tight`, `flip` and `double`.
pub open spec fn track_railway_symbols(n: Set<Seq<char>>) -> Set<Seq<char>> {
    n.remove("tight"@).remove("flip"@).remove("double"@)
}

/// The symbols left after the gauge of a track was taken.
pub open spec fn track_after_gauge(n: Set<Seq<char>>) -> Set<Seq<char>> {
    Gauge::spec_rest(railway_rest(track_railway_symbols(n)))
}

/// The symbols left after the left neighbor of a track was taken.
pub open spec fn track_after_left(n: Set<Seq<char>>) -> Set<Seq<char>> {
    neighbor_rest(track_after_gauge(n), n.contains("tight"@), "leftsame"@, "leftother"@)
}

/// The symbols left after the right neighbor of a track was taken.
pub open spec fn track_after_right(n: Set<Seq<char>>) -> Set<Seq<char>> {
    neighbor_rest(track_after_left(n), n.contains("tight"@), "rightsame"@, "rightother"@)
}

/// The symbols left after a track class was taken.
pub open spec fn track_rest(n: Set<Seq<char>>) -> Set<Seq<char>> {
    track_after_right(n).remove("combined"@).remove("station"@)
}

/// The parts of the track class that the symbols `n` describe.
///
/// The symbols are taken in turn: `tight`, `flip` and `double`, the railway
/// class, the gauge (standard gauge if none is left), the neighbors, and
/// `combined` and `station`.
pub open spec fn track_parts_of(n: Set<Seq<char>>) -> TrackParts {
    let tight = n.contains("tight"@);
    let g = railway_rest(track_railway_symbols(n));
    TrackParts {
        gauge: match Gauge::spec_from(g) {
            Some(gauge) => gauge,
            None => Gauge::standard(),
        },
        double: n.remove("tight"@).remove("flip"@).contains("double"@),
        left: neighbor_of(track_after_gauge(n), tight, "leftsame"@, "leftother"@),
        right: neighbor_of(track_after_left(n), tight, "rightsame"@, "rightother"@),
        combined: track_after_right(n).contains("combined"@),
        station: track_after_right(n).remove("combined"@).contains("station"@),
    }
}

impl TrackClass {
    /// The railway class of the track.
    pub closed spec fn spec_class(&self) -> Railway {
        self.class
    }

    /// The other parts of the track class.
    pub closed spec fn parts(&self) -> TrackParts {
        TrackParts {
            gauge: self.gauge,
            double: self.double,
            left: self.left,
            right: self.right,
            combined: self.combined,
            station: self.station,
        }
    }

    /// Takes a track class out of the symbols.
    pub fn from_symbols(symbols: &mut SymbolSet) -> (res: Self)
        requires
            old(symbols).wf(),
        ensures
            final(symbols).wf(),
            Railway::is_applied(res.spec_class(), Railway::unset(), track_railway_symbols(old(symbols)@)),
            res.parts() == track_parts_of(old(symbols)@),
            final(symbols)@ == track_rest(old(symbols)@),
    {
        let tight = symbols.take("tight");
        let _ = symbols.take("flip");
        let double = symbols.take("double");
        let class = Railway::from_symbols(symbols, &Railway::empty());
        let gauge = match Gauge::from_symbols(symbols) {
            Some(gauge) => gauge,
            None => Gauge::default(),
        };
        let left = Neighbor::left_from_symbols(symbols, tight);
        let right = Neighbor::right_from_symbols(symbols, tight);
        let combined = symbols.take("combined");
        let station = symbols.take("station");
        TrackClass { class, gauge, double, left, right, combined, station }
    }

    /// Creates a track class from the symbols of its argument, which must
    /// all be used.
    pub fn from_arg(symbols: SymbolSet) -> (res: Result<Self, Failed>)
        requires
            symbols.wf(),
        ensures
            res is Ok <==> track_rest(symbols@) == Set::<Seq<char>>::empty(),
            res matches Ok(t) ==> (Railway::is_applied(t.spec_class(), Railway::unset(), track_railway_symbols(symbols@))
                && t.parts() == track_parts_of(symbols@)),
    {
        let mut symbols = symbols;
        let class = Self::from_symbols(&mut symbols);
        match symbols.check_exhausted() {
            Ok(()) => Ok(class),
            Err(err) => Err(err),
        }
    }

    /// Returns whether the track needs property markings: it belongs to a
    /// second or third class line, or its gauge is not of the standard
    /// group.
    pub fn has_property(&self) -> (res: bool)
        ensures
            res == ((self.spec_class().opt_category() == Some(Category::Second)
                || self.spec_class().opt_category() == Some(Category::Third))
                || (self.spec_class().opt_gauge_group() is Some
                    && self.spec_class().opt_gauge_group() != Some(GaugeGroup::Standard))),
    {
        matches!(self.class.category(), Category::Second | Category::Third)
            || !matches!(self.class.gauge_group(), GaugeGroup::Standard)
    }

    /// Returns whether the track is double track.
    pub fn double(&self) -> (res: bool)
        ensures
            res == self.parts().double,
    {
        self.double
    }

    /// Returns the railway class of the track.
    pub fn class(&self) -> (res: &Railway)
        ensures
            *res == self.spec_class(),
    {
        &self.class
    }
}

//------------ Laws ------------------------------------------------------------

/// A neighbor is another line on a tight track; otherwise the `same` symbol
/// names the same line and the `other` symbol another one, and without
/// either there is no neighbor.
pub proof fn law_neighbor_symbols(n: Set<Seq<char>>, tight: bool, same: Seq<char>, other: Seq<char>)
    ensures
        tight ==> neighbor_of(n, tight, same, other) == Neighbor::Other && neighbor_rest(n, tight, same, other) == n,
        (!tight && n.contains(same)) ==> neighbor_of(n, tight, same, other) == Neighbor::Same,
        (!tight && n.contains(other) && !n.contains(same)) ==> neighbor_of(n, tight, same, other) == Neighbor::Other,
        (!tight && !n.contains(same) && !n.contains(other)) ==> neighbor_of(n, tight, same, other) == Neighbor::NoNeighbor,
{
}

/// A track is double exactly when its symbols say `double`; tight track has
/// another line on both sides; `combined` and `station` mark combined and
/// station track.
pub proof fn law_track_parts(n: Set<Seq<char>>)
    ensures
        track_parts_of(n).double == n.contains("double"@),
        n.contains("tight"@) ==> track_parts_of(n).left == Neighbor::Other && track_parts_of(n).right == Neighbor::Other,
        !track_railway_symbols(n).contains("double"@),
        !track_railway_symbols(n).contains("tight"@),
{
    reveal_strlit("double");
    reveal_strlit("tight");
    reveal_strlit("flip");
    assert("double"@.len() != "tight"@.len());
    assert("double"@.len() != "flip"@.len());
}

} // verus!
