//! Track rendering rules of the library.

use vstd::prelude::*;
use crate::symbols::SymbolSet;
use crate::library::class::{Class, ClassParts, class_of};

verus! {

//------------ TrackShading --------------------------------------------------

/// The rendering rule for track shading.
pub struct TrackShading {
    /// The feature class.
    class: Class,
    /// Is this double track?
    double: bool,
}

impl TrackShading {
    /// The class of the shaded track.
    pub closed spec fn spec_class(&self) -> ClassParts {
        self.class@
    }

    /// Whether the shaded track is double track.
    pub closed spec fn spec_double(&self) -> bool {
        self.double
    }

    /// Creates the shading rule for the track that the symbols describe.
    pub fn new(symbols: &SymbolSet) -> (res: Self)
        ensures
            res.spec_class() == class_of(symbols@),
            res.spec_double() == symbols@.contains("double"@),
    {
        TrackShading { class: Class::from_symbols(symbols), double: symbols.contains("double") }
    }
}

//------------ Category ------------------------------------------------------

/// The category of a track.
#[derive(Clone, Copy, Debug, PartialEq, Eq, Structural)]
pub enum Category {
    /// The track has no category and no base.
    NoCategory,
    First,
    Second,
    Third,
    Tram,
    Private,
    Station,
    Guide,
}

/// The category that the symbols `n` describe; station track unless they
/// say otherwise.
pub open spec fn category_of(n: Set<Seq<char>>) -> Category {
    if n.contains("none"@) {
        Category::NoCategory
    } else if n.contains("first"@) {
        Category::First
    } else if n.contains("second"@) {
        Category::Second
    } else if n.contains("third"@) {
        Category::Third
    } else if n.contains("tram"@) {
        Category::Tram
    } else if n.contains("private"@) {
        Category::Private
    } else if n.contains("guide"@) {
        Category::Guide
    } else {
        Category::Station
    }
}

impl Category {
    /// Reads the category off a symbol set.
    pub fn from_symbols(symbols: &SymbolSet) -> (res: Self)
        ensures
            res == category_of(symbols@),
    {
        if symbols.contains("none") {
            Category::NoCategory
        } else if symbols.contains("first") {
            Category::First
        } else if symbols.contains("second") {
            Category::Second
        } else if symbols.contains("third") {
            Category::Third
        } else if symbols.contains("tram") {
            Category::Tram
        } else if symbols.contains("private") {
            Category::Private
        } else if symbols.contains("guide") {
            Category::Guide
        } else {
            Category::Station
        }
    }

    /// Whether this is a first or second class line.
    pub fn is_main_line(self) -> (res: bool)
        ensures
            res == (self == Category::First || self == Category::Second),
    {
        match self {
            Category::First | Category::Second => true,
            _ => false,
        }
    }

    /// Whether this is a guide.
    pub fn is_guide(self) -> (res: bool)
        ensures
            res == (self == Category::Guide),
    {
        match self {
            Category::Guide => true,
            _ => false,
        }
    }

    /// Whether the track has a base.
    pub fn has_base(self) -> (res: bool)
        ensures
            res == (self != Category::NoCategory),
    {
        match self {
            Category::NoCategory => false,
            _ => true,
        }
    }
}

//------------ Status --------------------------------------------------------

/// Whether a track exists.
#[derive(Clone, Copy, Debug, PartialEq, Eq, Structural)]
pub enum Status {
    Active,
    Ex,
    Never,
}

impl Status {
    /// Whether the track exists or existed.
    pub fn present(self) -> (res: bool)
        ensures
            res == (self != Status::Never),
    {
        match self {
            Status::Active => true,
            Status::Ex => true,
            Status::Never => false,
        }
    }
}

//------------ Laws of the symbols --------------------------------------------

/// Each track category symbol on its own selects its category; without one the track is station track.
pub proof fn law_category_symbols(n: Set<Seq<char>>)
    ensures
        (n.contains("none"@) && !n.contains("first"@) && !n.contains("second"@) && !n.contains("third"@) && !n.contains("tram"@) && !n.contains("private"@) && !n.contains("guide"@)) ==> category_of(n) == Category::NoCategory,
        (n.contains("first"@) && !n.contains("none"@) && !n.contains("second"@) && !n.contains("third"@) && !n.contains("tram"@) && !n.contains("private"@) && !n.contains("guide"@)) ==> category_of(n) == Category::First,
        (n.contains("second"@) && !n.contains("none"@) && !n.contains("first"@) && !n.contains("third"@) && !n.contains("tram"@) && !n.contains("private"@) && !n.contains("guide"@)) ==> category_of(n) == Category::Second,
        (n.contains("third"@) && !n.contains("none"@) && !n.contains("first"@) && !n.contains("second"@) && !n.contains("tram"@) && !n.contains("private"@) && !n.contains("guide"@)) ==> category_of(n) == Category::Third,
        (n.contains("tram"@) && !n.contains("none"@) && !n.contains("first"@) && !n.contains("second"@) && !n.contains("third"@) && !n.contains("private"@) && !n.contains("guide"@)) ==> category_of(n) == Category::Tram,
        (n.contains("private"@) && !n.contains("none"@) && !n.contains("first"@) && !n.contains("second"@) && !n.contains("third"@) && !n.contains("tram"@) && !n.contains("guide"@)) ==> category_of(n) == Category::Private,
        (n.contains("guide"@) && !n.contains("none"@) && !n.contains("first"@) && !n.contains("second"@) && !n.contains("third"@) && !n.contains("tram"@) && !n.contains("private"@)) ==> category_of(n) == Category::Guide,
        (!n.contains("none"@) && !n.contains("first"@) && !n.contains("second"@) && !n.contains("third"@) && !n.contains("tram"@) && !n.contains("private"@) && !n.contains("guide"@)) ==> category_of(n) == Category::Station,
{
}

} // verus!
