//! Classes of library features.
//!
//! A class helps determine how to draw something and applies to all types
//! of features. It is read off the symbols of a feature, which stay where
//! they are: each part looks for its own symbols in turn.

use vstd::prelude::*;
use crate::symbols::SymbolSet;

verus! {

//------------ Class ---------------------------------------------------------

/// The class of a library feature.
#[derive(Clone, Copy, Debug)]
pub struct Class {
    status: Status,
    electrification: Electrification,
    speed: Speed,
    pax: Pax,
    tram: bool,
}

/// The parts of a [`Class`].
pub struct ClassParts {
    pub status: Status,
    pub electrification: Electrification,
    pub speed: Speed,
    pub pax: Pax,
    pub tram: bool,
}

impl View for Class {
    type V = ClassParts;

    closed spec fn view(&self) -> ClassParts {
        ClassParts {
            status: self.status,
            electrification: self.electrification,
            speed: self.speed,
            pax: self.pax,
            tram: self.tram,
        }
    }
}

/// The class that the symbols `n` describe.
pub open spec fn class_of(n: Set<Seq<char>>) -> ClassParts {
    ClassParts {
        status: status_of(n),
        electrification: electrification_of(n),
        speed: speed_of(n),
        pax: pax_of(n),
        tram: n.contains("tram"@),
    }
}

impl Class {
    /// Reads the class off a symbol set.
    pub fn from_symbols(symbols: &SymbolSet) -> (res: Self)
        ensures
            res@ == class_of(symbols@),
    {
        Class {
            status: Status::from_symbols(symbols),
            electrification: Electrification::from_symbols(symbols),
            speed: Speed::from_symbols(symbols),
            pax: Pax::from_symbols(symbols),
            tram: symbols.contains("tram"),
        }
    }

    pub fn status(self) -> (res: Status)
        ensures
            res == self@.status,
    {
        self.status
    }

    pub fn electrification(self) -> (res: Electrification)
        ensures
            res == self@.electrification,
    {
        self.electrification
    }

    pub fn speed(self) -> (res: Speed)
        ensures
            res == self@.speed,
    {
        self.speed
    }

    pub fn pax(self) -> (res: Pax)
        ensures
            res == self@.pax,
    {
        self.pax
    }

    pub fn tram(self) -> (res: bool)
        ensures
            res == self@.tram,
    {
        self.tram
    }
}

//------------ OptClass ------------------------------------------------------

/// A class whose parts may be missing.
#[derive(Clone, Copy, Debug)]
pub struct OptClass {
    status: Option<Status>,
    electrification: Option<Electrification>,
    pax: bool,
    tram: bool,
}

/// The parts of an [`OptClass`].
pub struct OptClassParts {
    pub status: Option<Status>,
    pub electrification: Option<Electrification>,
    pub pax: bool,
    pub tram: bool,
}

impl View for OptClass {
    type V = OptClassParts;

    closed spec fn view(&self) -> OptClassParts {
        OptClassParts {
            status: self.status,
            electrification: self.electrification,
            pax: self.pax,
            tram: self.tram,
        }
    }
}

/// The optional class that the symbols `n` describe.
///
/// A tram has a status only; passenger track has a status and an
/// electrification; anything else has what its symbols name.
pub open spec fn opt_class_of(n: Set<Seq<char>>) -> OptClassParts {
    if n.contains("tram"@) {
        OptClassParts { status: Some(status_of(n)), electrification: None, pax: false, tram: true }
    } else if n.contains("pax"@) {
        OptClassParts {
            status: Some(status_of(n)),
            electrification: Some(electrification_of(n)),
            pax: true,
            tram: false,
        }
    } else {
        OptClassParts {
            status: opt_status_of(n),
            electrification: opt_electrification_of(n),
            pax: false,
            tram: false,
        }
    }
}

impl OptClass {
    /// Reads the optional class off a symbol set.
    pub fn from_symbols(symbols: &SymbolSet) -> (res: Self)
        ensures
            res@ == opt_class_of(symbols@),
    {
        if symbols.contains("tram") {
            OptClass {
                status: Some(Status::from_symbols(symbols)),
                electrification: None,
                pax: false,
                tram: true,
            }
        } else if symbols.contains("pax") {
            OptClass {
                status: Some(Status::from_symbols(symbols)),
                electrification: Some(Electrification::from_symbols(symbols)),
                pax: true,
                tram: false,
            }
        } else {
            OptClass {
                status: Status::opt_from_symbols(symbols),
                electrification: Electrification::opt_from_symbols(symbols),
                pax: false,
                tram: false,
            }
        }
    }
}

//------------ Status --------------------------------------------------------

/// Whether a feature is still there.
#[derive(Clone, Copy, Debug, PartialEq, Eq, Structural)]
pub enum Status {
    Open,
    Closed,
    Removed,
    Gone,
}

/// The status that the symbols `n` describe; open unless they say
/// otherwise. A feature both closed and removed is removed.
pub open spec fn status_of(n: Set<Seq<char>>) -> Status {
    if n.contains("removed"@) {
        Status::Removed
    } else if n.contains("closed"@) {
        Status::Closed
    } else if n.contains("gone"@) {
        Status::Gone
    } else {
        Status::Open
    }
}

/// The status that the symbols `n` name, if any.
pub open spec fn opt_status_of(n: Set<Seq<char>>) -> Option<Status> {
    if n.contains("removed"@) {
        Some(Status::Removed)
    } else if n.contains("closed"@) {
        Some(Status::Closed)
    } else if n.contains("gone"@) || n.contains("former"@) {
        Some(Status::Gone)
    } else if n.contains("open"@) {
        Some(Status::Open)
    } else {
        None
    }
}

impl Status {
    fn from_symbols(symbols: &SymbolSet) -> (res: Self)
        ensures
            res == status_of(symbols@),
    {
        if symbols.contains("removed") {
            Status::Removed
        } else if symbols.contains("closed") {
            Status::Closed
        } else if symbols.contains("gone") {
            Status::Gone
        } else {
            Status::Open
        }
    }

    fn opt_from_symbols(symbols: &SymbolSet) -> (res: Option<Self>)
        ensures
            res == opt_status_of(symbols@),
    {
        if symbols.contains("removed") {
            Some(Status::Removed)
        } else if symbols.contains("closed") {
            Some(Status::Closed)
        } else if symbols.contains("gone") || symbols.contains("former") {
            Some(Status::Gone)
        } else if symbols.contains("open") {
            Some(Status::Open)
        } else {
            None
        }
    }
}

//------------ Electrification -----------------------------------------------

/// The electrification of a feature.
#[derive(Clone, Copy, Debug, PartialEq, Eq, Structural)]
pub enum Electrification {
    /// Not electrified.
    Unelectrified,
    OleAcHigh,
    OleAcLow,
    OleDcHigh,
    OleDcLow,
    OleUnknown,
    RailHigh,
    RailLow,
    RailUnknown,
}

/// The electrification that the symbols `n` describe.
///
/// Overhead line (`:cat`) comes before a power rail (`:rail`); the system
/// symbols are looked for in the order given here.
pub open spec fn electrification_of(n: Set<Seq<char>>) -> Electrification {
    if n.contains("cat"@) {
        if n.contains("ac6k6"@) {
            Electrification::OleAcLow
        } else if n.contains("ac15"@) {
            Electrification::OleAcLow
        } else if n.contains("ac25"@) {
            Electrification::OleAcHigh
        } else if n.contains("dc30"@) {
            Electrification::OleDcHigh
        } else if n.contains("dc15"@) {
            Electrification::OleDcLow
        } else if n.contains("dc75"@) {
            Electrification::OleDcLow
        } else if n.contains("dc6"@) {
            Electrification::OleDcLow
        } else {
            Electrification::OleUnknown
        }
    } else if n.contains("rail"@) {
        if n.contains("dc12"@) {
            Electrification::RailHigh
        } else if n.contains("dc75"@) {
            Electrification::RailLow
        } else {
            Electrification::RailUnknown
        }
    } else {
        Electrification::Unelectrified
    }
}

/// The electrification that the symbols `n` name, if it is electrified.
pub open spec fn opt_electrification_of(n: Set<Seq<char>>) -> Option<Electrification> {
    if electrification_of(n) == Electrification::Unelectrified {
        None
    } else {
        Some(electrification_of(n))
    }
}

impl Electrification {
    fn from_symbols(symbols: &SymbolSet) -> (res: Self)
        ensures
            res == electrification_of(symbols@),
    {
        if symbols.contains("cat") {
            if symbols.contains("ac6k6") {
                // 6600 V AC 25 Hz
                Electrification::OleAcLow
            } else if symbols.contains("ac15") {
                Electrification::OleAcLow
            } else if symbols.contains("ac25") {
                Electrification::OleAcHigh
            } else if symbols.contains("dc30") {
                Electrification::OleDcHigh
            } else if symbols.contains("dc15") {
                Electrification::OleDcLow
            } else if symbols.contains("dc75") {
                Electrification::OleDcLow
            } else if symbols.contains("dc6") {
                Electrification::OleDcLow
            } else {
                Electrification::OleUnknown
            }
        } else if symbols.contains("rail") {
            if symbols.contains("dc12") {
                Electrification::RailHigh
            } else if symbols.contains("dc75") {
                Electrification::RailLow
            } else {
                Electrification::RailUnknown
            }
        } else {
            Electrification::Unelectrified
        }
    }

    fn opt_from_symbols(symbols: &SymbolSet) -> (res: Option<Self>)
        ensures
            res == opt_electrification_of(symbols@),
    {
        match Self::from_symbols(symbols) {
            Electrification::Unelectrified => None,
            other => Some(other),
        }
    }

    /// Whether this is a known overhead line system.
    pub fn is_ole(self) -> (res: bool)
        ensures
            res == (self == Electrification::OleAcHigh || self == Electrification::OleAcLow
                || self == Electrification::OleDcHigh || self == Electrification::OleDcLow),
    {
        matches!(self,
            Electrification::OleAcHigh | Electrification::OleAcLow
            | Electrification::OleDcHigh | Electrification::OleDcLow
        )
    }

    /// Whether this is a known power rail system.
    pub fn is_rail(self) -> (res: bool)
        ensures
            res == (self == Electrification::RailHigh || self == Electrification::RailLow),
    {
        matches!(self, Electrification::RailHigh | Electrification::RailLow)
    }
}

//------------ Pax -----------------------------------------------------------

/// The passenger service of a feature.
#[derive(Clone, Copy, Debug, PartialEq, Eq, Structural)]
pub enum Pax {
    /// No passenger service.
    NoPax,
    Limited,
    Full,
}

/// The passenger service that the symbols `n` describe.
pub open spec fn pax_of(n: Set<Seq<char>>) -> Pax {
    if n.contains("pax"@) {
        Pax::Full
    } else if n.contains("museum"@) {
        Pax::Limited
    } else {
        Pax::NoPax
    }
}

impl Pax {
    fn from_symbols(symbols: &SymbolSet) -> (res: Self)
        ensures
            res == pax_of(symbols@),
    {
        if symbols.contains("pax") {
            Pax::Full
        } else if symbols.contains("museum") {
            Pax::Limited
        } else {
            Pax::NoPax
        }
    }

    /// Whether there is full passenger service.
    pub fn is_full(self) -> (res: bool)
        ensures
            res == (self == Pax::Full),
    {
        matches!(self, Pax::Full)
    }
}

//------------ Speed ---------------------------------------------------------

/// The line speed of a feature.
#[derive(Clone, Copy, Debug, PartialEq, Eq, Structural)]
pub enum Speed {
    Normal,
    V200,
    V250,
    V300,
}

/// The speed that the symbols `n` describe.
pub open spec fn speed_of(n: Set<Seq<char>>) -> Speed {
    if n.contains("v200"@) {
        Speed::V200
    } else if n.contains("v250"@) {
        Speed::V250
    } else if n.contains("v300"@) {
        Speed::V300
    } else {
        Speed::Normal
    }
}

impl Speed {
    fn from_symbols(symbols: &SymbolSet) -> (res: Self)
        ensures
            res == speed_of(symbols@),
    {
        if symbols.contains("v200") {
            Speed::V200
        } else if symbols.contains("v250") {
            Speed::V250
        } else if symbols.contains("v300") {
            Speed::V300
        } else {
            Speed::Normal
        }
    }

    /// Whether this is a high speed line.
    pub fn is_hsl(self) -> (res: bool)
        ensures
            res == (self != Speed::Normal),
    {
        !matches!(self, Speed::Normal)
    }
}

//------------ Laws of the symbols --------------------------------------------

/// Each status symbol on its own selects its status; without one the feature is open.
pub proof fn law_status_symbols(n: Set<Seq<char>>)
    ensures
        (n.contains("removed"@) && !n.contains("closed"@) && !n.contains("gone"@)) ==> status_of(n) == Status::Removed,
        (n.contains("closed"@) && !n.contains("removed"@) && !n.contains("gone"@)) ==> status_of(n) == Status::Closed,
        (n.contains("gone"@) && !n.contains("removed"@) && !n.contains("closed"@)) ==> status_of(n) == Status::Gone,
        (!n.contains("removed"@) && !n.contains("closed"@) && !n.contains("gone"@)) ==> status_of(n) == Status::Open,
{
}

/// Each status symbol on its own names its status, `former` naming a gone one; without one there is none.
pub proof fn law_opt_status_symbols(n: Set<Seq<char>>)
    ensures
        (n.contains("removed"@) && !n.contains("closed"@) && !n.contains("gone"@) && !n.contains("former"@) && !n.contains("open"@)) ==> opt_status_of(n) == Some(Status::Removed),
        (n.contains("closed"@) && !n.contains("removed"@) && !n.contains("gone"@) && !n.contains("former"@) && !n.contains("open"@)) ==> opt_status_of(n) == Some(Status::Closed),
        (n.contains("gone"@) && !n.contains("removed"@) && !n.contains("closed"@) && !n.contains("former"@) && !n.contains("open"@)) ==> opt_status_of(n) == Some(Status::Gone),
        (n.contains("former"@) && !n.contains("removed"@) && !n.contains("closed"@) && !n.contains("gone"@) && !n.contains("open"@)) ==> opt_status_of(n) == Some(Status::Gone),
        (n.contains("open"@) && !n.contains("removed"@) && !n.contains("closed"@) && !n.contains("gone"@) && !n.contains("former"@)) ==> opt_status_of(n) == Some(Status::Open),
        (!n.contains("removed"@) && !n.contains("closed"@) && !n.contains("gone"@) && !n.contains("former"@) && !n.contains("open"@)) ==> opt_status_of(n) is None,
{
}

/// Each passenger service symbol on its own selects its service; without one there is none.
pub proof fn law_pax_symbols(n: Set<Seq<char>>)
    ensures
        (n.contains("pax"@) && !n.contains("museum"@)) ==> pax_of(n) == Pax::Full,
        (n.contains("museum"@) && !n.contains("pax"@)) ==> pax_of(n) == Pax::Limited,
        (!n.contains("pax"@) && !n.contains("museum"@)) ==> pax_of(n) == Pax::NoPax,
{
}

/// Each speed symbol on its own selects its speed; without one the speed is normal.
pub proof fn law_speed_symbols(n: Set<Seq<char>>)
    ensures
        (n.contains("v200"@) && !n.contains("v250"@) && !n.contains("v300"@)) ==> speed_of(n) == Speed::V200,
        (n.contains("v250"@) && !n.contains("v200"@) && !n.contains("v300"@)) ==> speed_of(n) == Speed::V250,
        (n.contains("v300"@) && !n.contains("v200"@) && !n.contains("v250"@)) ==> speed_of(n) == Speed::V300,
        (!n.contains("v200"@) && !n.contains("v250"@) && !n.contains("v300"@)) ==> speed_of(n) == Speed::Normal,
{
}

/// An overhead line (`:cat`) takes its class from its one named system:
/// 6.6 kV and 15 kV AC are low AC, 25 kV AC is high AC, 3 kV DC is high DC,
/// and 1.5 kV, 750 V and 600 V DC are low DC; without a system it is
/// unknown. A power rail (`:rail`) at 1.2 kV is high and at 750 V low. A
/// feature with neither is not electrified.
pub proof fn law_electrification_symbols(n: Set<Seq<char>>)
    ensures
        (n.contains("cat"@) && n.contains("ac6k6"@) && !n.contains("ac15"@) && !n.contains("ac25"@) && !n.contains("dc30"@) && !n.contains("dc15"@) && !n.contains("dc75"@) && !n.contains("dc6"@)) ==> electrification_of(n) == Electrification::OleAcLow,
        (n.contains("cat"@) && n.contains("ac15"@) && !n.contains("ac6k6"@) && !n.contains("ac25"@) && !n.contains("dc30"@) && !n.contains("dc15"@) && !n.contains("dc75"@) && !n.contains("dc6"@)) ==> electrification_of(n) == Electrification::OleAcLow,
        (n.contains("cat"@) && n.contains("ac25"@) && !n.contains("ac6k6"@) && !n.contains("ac15"@) && !n.contains("dc30"@) && !n.contains("dc15"@) && !n.contains("dc75"@) && !n.contains("dc6"@)) ==> electrification_of(n) == Electrification::OleAcHigh,
        (n.contains("cat"@) && n.contains("dc30"@) && !n.contains("ac6k6"@) && !n.contains("ac15"@) && !n.contains("ac25"@) && !n.contains("dc15"@) && !n.contains("dc75"@) && !n.contains("dc6"@)) ==> electrification_of(n) == Electrification::OleDcHigh,
        (n.contains("cat"@) && n.contains("dc15"@) && !n.contains("ac6k6"@) && !n.contains("ac15"@) && !n.contains("ac25"@) && !n.contains("dc30"@) && !n.contains("dc75"@) && !n.contains("dc6"@)) ==> electrification_of(n) == Electrification::OleDcLow,
        (n.contains("cat"@) && n.contains("dc75"@) && !n.contains("ac6k6"@) && !n.contains("ac15"@) && !n.contains("ac25"@) && !n.contains("dc30"@) && !n.contains("dc15"@) && !n.contains("dc6"@)) ==> electrification_of(n) == Electrification::OleDcLow,
        (n.contains("cat"@) && n.contains("dc6"@) && !n.contains("ac6k6"@) && !n.contains("ac15"@) && !n.contains("ac25"@) && !n.contains("dc30"@) && !n.contains("dc15"@) && !n.contains("dc75"@)) ==> electrification_of(n) == Electrification::OleDcLow,
        (n.contains("cat"@) && !n.contains("ac6k6"@) && !n.contains("ac15"@) && !n.contains("ac25"@) && !n.contains("dc30"@) && !n.contains("dc15"@) && !n.contains("dc75"@) && !n.contains("dc6"@)) ==> electrification_of(n) == Electrification::OleUnknown,
        (!n.contains("cat"@) && n.contains("rail"@) && n.contains("dc12"@) && !n.contains("dc75"@)) ==> electrification_of(n) == Electrification::RailHigh,
        (!n.contains("cat"@) && n.contains("rail"@) && n.contains("dc75"@) && !n.contains("dc12"@)) ==> electrification_of(n) == Electrification::RailLow,
        (!n.contains("cat"@) && n.contains("rail"@) && !n.contains("dc12"@) && !n.contains("dc75"@)) ==> electrification_of(n) == Electrification::RailUnknown,
        (!n.contains("cat"@) && !n.contains("rail"@)) ==> electrification_of(n) == Electrification::Unelectrified,
        opt_electrification_of(n) is None <==> electrification_of(n) == Electrification::Unelectrified,
        opt_electrification_of(n) matches Some(e) ==> e == electrification_of(n),
{
}

/// A feature both closed and removed is removed.
pub proof fn law_closed_and_removed(n: Set<Seq<char>>)
    ensures
        n.contains("removed"@) ==> status_of(n) == Status::Removed && opt_status_of(n) == Some(Status::Removed),
{
}

/// The class of a feature consists of the parts its symbols select, and a
/// feature is a tram exactly when it has the symbol `tram`.
pub proof fn law_class_parts(n: Set<Seq<char>>)
    ensures
        class_of(n).status == status_of(n),
        class_of(n).electrification == electrification_of(n),
        class_of(n).speed == speed_of(n),
        class_of(n).pax == pax_of(n),
        class_of(n).tram == n.contains("tram"@),
        n.contains("tram"@) ==> opt_class_of(n).tram && !opt_class_of(n).pax
            && opt_class_of(n).status == Some(status_of(n)) && opt_class_of(n).electrification is None,
        (n.contains("pax"@) && !n.contains("tram"@)) ==> opt_class_of(n).pax && !opt_class_of(n).tram
            && opt_class_of(n).status == Some(status_of(n))
            && opt_class_of(n).electrification == Some(electrification_of(n)),
        (!n.contains("pax"@) && !n.contains("tram"@)) ==> !opt_class_of(n).pax && !opt_class_of(n).tram
            && opt_class_of(n).status == opt_status_of(n)
            && opt_class_of(n).electrification == opt_electrification_of(n),
{
}

} // verus!
