//! Classification of railway features.
//!
//! In order to be able to draw features differently for different styles,
//! they are described in an abstract fashion by a [`Railway`] class. A class
//! is assembled from the symbols attached to a feature, such as
//! `:second:closed:cat:ac15`.
//!
//! Every part of the class is optional. A class given for a feature is
//! completed from the class of its surrounding scope via
//! [`Railway::update`], and the getters fall back to a default for parts
//! that remain unset.

use vstd::prelude::*;
use crate::symbols::SymbolSet;
use crate::import::load::Failed;

verus! {

/// The first of two options that is present.
pub open spec fn or_else<T>(first: Option<T>, second: Option<T>) -> Option<T> {
    if first is Some { first } else { second }
}

/// An option replaced by a newly found value, if one was found.
pub open spec fn replace_with<T>(old: Option<T>, found: Option<T>) -> Option<T> {
    if found is Some { found } else { old }
}

//------------ Railway -------------------------------------------------------

/// The class of a railway feature.
#[derive(Clone, Copy, Debug)]
pub struct Railway {
    category: Option<Category>,
    status: Option<Status>,
    surface: Option<Surface>,
    cat: Option<ElectricCat>,
    rail: Option<ElectricRail>,
    speed: Option<Speed>,
    pax: Option<Pax>,
    gauge_group: Option<GaugeGroup>,
    gauge: Option<Gauge>,
    double: Option<bool>,
}

/// The symbols left after the category was taken.
pub open spec fn after_category(n: Set<Seq<char>>) -> Set<Seq<char>> {
    Category::spec_rest(n)
}

/// The symbols left after the status was taken.
pub open spec fn after_status(n: Set<Seq<char>>) -> Set<Seq<char>> {
    Status::spec_rest(after_category(n))
}

/// The symbols left after the overhead electrification was taken.
pub open spec fn after_cat(n: Set<Seq<char>>) -> Set<Seq<char>> {
    ElectricCat::spec_rest(after_status(n))
}

/// The symbols left after the power rail electrification was taken.
pub open spec fn after_rail(n: Set<Seq<char>>) -> Set<Seq<char>> {
    ElectricRail::spec_rest(after_cat(n))
}

/// The symbols left after the speed class was taken.
pub open spec fn after_speed(n: Set<Seq<char>>) -> Set<Seq<char>> {
    Speed::spec_rest(after_rail(n))
}

/// The symbols left after the passenger service was taken.
pub open spec fn after_pax(n: Set<Seq<char>>) -> Set<Seq<char>> {
    Pax::spec_rest(after_speed(n))
}

/// The symbols left after the gauge was taken.
pub open spec fn after_gauge(n: Set<Seq<char>>) -> Set<Seq<char>> {
    Gauge::spec_rest(after_pax(n))
}

/// The symbols left after the gauge group was taken.
pub open spec fn after_gauge_group(n: Set<Seq<char>>) -> Set<Seq<char>> {
    GaugeGroup::spec_rest(after_gauge(n))
}

/// Whether the symbols in `n` mark double or single track.
#[verifier::opaque]
pub open spec fn double_from(n: Set<Seq<char>>) -> Option<bool> {
    if n.contains("double"@) {
        Some(true)
    } else if n.contains("single"@) {
        Some(false)
    } else {
        None
    }
}

/// The symbols left after double or single track was taken.
#[verifier::opaque]
pub open spec fn double_rest(n: Set<Seq<char>>) -> Set<Seq<char>> {
    if n.contains("double"@) {
        n.remove("double"@)
    } else if n.contains("single"@) {
        n.remove("single"@)
    } else {
        n
    }
}

/// The symbols a railway class leaves untouched in `n`.
pub open spec fn railway_rest(n: Set<Seq<char>>) -> Set<Seq<char>> {
    double_rest(after_gauge_group(n))
}

impl Railway {
    /// The category, if one is set.
    pub closed spec fn opt_category(self) -> Option<Category> {
        self.category
    }

    /// The status, if one is set.
    pub closed spec fn opt_status(self) -> Option<Status> {
        self.status
    }

    /// The surface, if one is set.
    pub closed spec fn opt_surface(self) -> Option<Surface> {
        self.surface
    }

    /// The overhead electrification, if one is set.
    pub closed spec fn opt_cat(self) -> Option<ElectricCat> {
        self.cat
    }

    /// The power rail electrification, if one is set.
    pub closed spec fn opt_rail(self) -> Option<ElectricRail> {
        self.rail
    }

    /// The speed class, if one is set.
    pub closed spec fn opt_speed(self) -> Option<Speed> {
        self.speed
    }

    /// The passenger service, if one is set.
    pub closed spec fn opt_pax(self) -> Option<Pax> {
        self.pax
    }

    /// The gauge group, if one is set.
    pub closed spec fn opt_gauge_group(self) -> Option<GaugeGroup> {
        self.gauge_group
    }

    /// The gauge, if one is set.
    pub closed spec fn opt_gauge(self) -> Option<Gauge> {
        self.gauge
    }

    /// Whether the track is double track, if this is set.
    pub closed spec fn opt_double(self) -> Option<bool> {
        self.double
    }

    /// Two classes agree in all their parts.
    pub open spec fn same_as(self, other: Railway) -> bool {
        &&& self.opt_category() == other.opt_category()
        &&& self.opt_status() == other.opt_status()
        &&& self.opt_surface() == other.opt_surface()
        &&& self.opt_cat() == other.opt_cat()
        &&& self.opt_rail() == other.opt_rail()
        &&& self.opt_speed() == other.opt_speed()
        &&& self.opt_pax() == other.opt_pax()
        &&& self.opt_gauge_group() == other.opt_gauge_group()
        &&& self.opt_gauge() == other.opt_gauge()
        &&& self.opt_double() == other.opt_double()
    }

    /// Whether `res` is `this` with every unset part taken from `base`.
    pub open spec fn is_update_of(res: Railway, this: Railway, base: Railway) -> bool {
        &&& res.opt_category() == or_else(this.opt_category(), base.opt_category())
        &&& res.opt_status() == or_else(this.opt_status(), base.opt_status())
        &&& res.opt_surface() == or_else(this.opt_surface(), base.opt_surface())
        &&& res.opt_cat() == or_else(this.opt_cat(), base.opt_cat())
        &&& res.opt_rail() == or_else(this.opt_rail(), base.opt_rail())
        &&& res.opt_speed() == or_else(this.opt_speed(), base.opt_speed())
        &&& res.opt_pax() == or_else(this.opt_pax(), base.opt_pax())
        &&& res.opt_gauge_group() == or_else(this.opt_gauge_group(), base.opt_gauge_group())
        &&& res.opt_gauge() == or_else(this.opt_gauge(), base.opt_gauge())
        &&& res.opt_double() == or_else(this.opt_double(), base.opt_double())
    }

    /// Whether `res` is `this` with the parts selected by the symbols in `n`
    /// replaced.
    ///
    /// The surface is not selected by symbols.
    pub open spec fn is_applied(res: Railway, this: Railway, n: Set<Seq<char>>) -> bool {
        &&& res.opt_category() == replace_with(this.opt_category(), Category::spec_from(n))
        &&& res.opt_status() == replace_with(this.opt_status(), Status::spec_from(after_category(n)))
        &&& res.opt_surface() == this.opt_surface()
        &&& res.opt_cat() == replace_with(this.opt_cat(), ElectricCat::spec_from(after_status(n)))
        &&& res.opt_rail() == replace_with(this.opt_rail(), ElectricRail::spec_from(after_cat(n)))
        &&& res.opt_speed() == replace_with(this.opt_speed(), Speed::spec_from(after_rail(n)))
        &&& res.opt_pax() == replace_with(this.opt_pax(), Pax::spec_from(after_speed(n)))
        &&& res.opt_gauge() == replace_with(this.opt_gauge(), Gauge::spec_from(after_pax(n)))
        &&& res.opt_gauge_group() == replace_with(this.opt_gauge_group(), GaugeGroup::spec_from(after_gauge(n)))
        &&& res.opt_double() == replace_with(this.opt_double(), double_from(after_gauge_group(n)))
    }

    /// The class with no part set.
    pub closed spec fn unset() -> Railway {
        Railway {
            category: None,
            status: None,
            surface: None,
            cat: None,
            rail: None,
            speed: None,
            pax: None,
            gauge_group: None,
            gauge: None,
            double: None,
        }
    }

    /// No part of the unset class is set.
    pub proof fn lemma_unset_parts()
        ensures
            Railway::unset().opt_category() is None,
            Railway::unset().opt_status() is None,
            Railway::unset().opt_surface() is None,
            Railway::unset().opt_cat() is None,
            Railway::unset().opt_rail() is None,
            Railway::unset().opt_speed() is None,
            Railway::unset().opt_pax() is None,
            Railway::unset().opt_gauge_group() is None,
            Railway::unset().opt_gauge() is None,
            Railway::unset().opt_double() is None,
    {
    }

    /// Creates a class with no part set.
    pub fn empty() -> (res: Self)
        ensures
            res == Railway::unset(),
            res.opt_category() is None,
            res.opt_status() is None,
            res.opt_surface() is None,
            res.opt_cat() is None,
            res.opt_rail() is None,
            res.opt_speed() is None,
            res.opt_pax() is None,
            res.opt_gauge_group() is None,
            res.opt_gauge() is None,
            res.opt_double() is None,
    {
        Railway {
            category: None,
            status: None,
            surface: None,
            cat: None,
            rail: None,
            speed: None,
            pax: None,
            gauge_group: None,
            gauge: None,
            double: None,
        }
    }

    /// Creates a class from the symbols of an argument alone.
    ///
    /// Every symbol must select a part of the class.
    pub fn from_arg_only(symbols: SymbolSet) -> (res: Result<Self, Failed>)
        requires
            symbols.wf(),
        ensures
            res is Ok <==> railway_rest(symbols@) == Set::<Seq<char>>::empty(),
            res matches Ok(class) ==> Railway::is_applied(class, Railway::unset(), symbols@),
    {
        let mut symbols = symbols;
        let mut class = Railway::empty();
        class.apply_symbols(&mut symbols);
        match symbols.check_exhausted() {
            Ok(()) => Ok(class),
            Err(err) => Err(err),
        }
    }

    /// Creates a class from the symbols of an argument atop the class of
    /// the scope.
    ///
    /// Every symbol must select a part of the class.
    pub fn from_arg(symbols: SymbolSet, base: &Railway) -> (res: Result<Self, Failed>)
        requires
            symbols.wf(),
        ensures
            res is Ok <==> railway_rest(symbols@) == Set::<Seq<char>>::empty(),
            res matches Ok(class) ==> Railway::is_applied(class, *base, symbols@),
    {
        let mut symbols = symbols;
        let mut class = *base;
        class.apply_symbols(&mut symbols);
        match symbols.check_exhausted() {
            Ok(()) => Ok(class),
            Err(err) => Err(err),
        }
    }

    /// Creates a class from the symbols atop the class of the scope.
    ///
    /// The parts that the symbols select replace those of `base`. All
    /// symbols that select a part of the class are taken out of `symbols`.
    pub fn from_symbols(symbols: &mut SymbolSet, base: &Railway) -> (res: Self)
        requires
            old(symbols).wf(),
        ensures
            final(symbols).wf(),
            Railway::is_applied(res, *base, old(symbols)@),
            final(symbols)@ == railway_rest(old(symbols)@),
    {
        let mut class = *base;
        class.apply_symbols(symbols);
        class
    }

    /// Replaces the parts selected by the symbols.
    fn apply_symbols(&mut self, symbols: &mut SymbolSet)
        requires
            old(symbols).wf(),
        ensures
            final(symbols).wf(),
            Railway::is_applied(*final(self), *old(self), old(symbols)@),
            final(symbols)@ == railway_rest(old(symbols)@),
    {
        proof {
            reveal(double_from);
            reveal(double_rest);
        }
        if let Some(category) = Category::from_symbols(symbols) {
            self.category = Some(category)
        }
        if let Some(status) = Status::from_symbols(symbols) {
            self.status = Some(status)
        }
        if let Some(cat) = ElectricCat::from_symbols(symbols) {
            self.cat = Some(cat)
        }
        if let Some(rail) = ElectricRail::from_symbols(symbols) {
            self.rail = Some(rail)
        }
        if let Some(speed) = Speed::from_symbols(symbols) {
            self.speed = Some(speed)
        }
        if let Some(pax) = Pax::from_symbols(symbols) {
            self.pax = Some(pax)
        }
        if let Some(gauge) = Gauge::from_symbols(symbols) {
            self.gauge = Some(gauge)
        }
        if let Some(gauge_group) = GaugeGroup::from_symbols(symbols) {
            self.gauge_group = Some(gauge_group)
        }
        if symbols.take("double") {
            self.double = Some(true)
        } else if symbols.take("single") {
            self.double = Some(false)
        }
    }

    /// Completes the class: every part not set in `self` is taken from
    /// `class`.
    pub fn update(&mut self, class: &Self)
        ensures
            Railway::is_update_of(*final(self), *old(self), *class),
    {
        if self.category.is_none() {
            self.category = class.category
        }
        if self.status.is_none() {
            self.status = class.status
        }
        if self.surface.is_none() {
            self.surface = class.surface
        }
        if self.cat.is_none() {
            self.cat = class.cat
        }
        if self.rail.is_none() {
            self.rail = class.rail
        }
        if self.speed.is_none() {
            self.speed = class.speed
        }
        if self.pax.is_none() {
            self.pax = class.pax
        }
        if self.gauge.is_none() {
            self.gauge = class.gauge
        }
        if self.gauge_group.is_none() {
            self.gauge_group = class.gauge_group
        }
        if self.double.is_none() {
            self.double = class.double
        }
    }

    /// The category, [`Category::Siding`] if none is set.
    pub fn category(&self) -> (res: Category)
        ensures
            res == (match self.opt_category() {
                Some(c) => c,
                None => Category::Siding,
            }),
    {
        match self.category {
            Some(c) => c,
            None => Category::Siding,
        }
    }

    /// The status, [`Status::Open`] if none is set.
    pub fn status(&self) -> (res: Status)
        ensures
            res == (match self.opt_status() {
                Some(s) => s,
                None => Status::Open,
            }),
    {
        match self.status {
            Some(s) => s,
            None => Status::Open,
        }
    }

    /// Sets the status.
    pub fn set_status(&mut self, status: Status)
        ensures
            final(self).opt_status() == Some(status),
            final(self).opt_category() == old(self).opt_category(),
            final(self).opt_surface() == old(self).opt_surface(),
            final(self).opt_cat() == old(self).opt_cat(),
            final(self).opt_rail() == old(self).opt_rail(),
            final(self).opt_speed() == old(self).opt_speed(),
            final(self).opt_pax() == old(self).opt_pax(),
            final(self).opt_gauge_group() == old(self).opt_gauge_group(),
            final(self).opt_gauge() == old(self).opt_gauge(),
            final(self).opt_double() == old(self).opt_double(),
    {
        self.status = Some(status);
    }

    /// Returns whether the railway is open.
    pub fn is_open(&self) -> (res: bool)
        ensures
            res == (self.opt_status() is None || self.opt_status() == Some(Status::Open)),
    {
        match self.status() {
            Status::Open => true,
            _ => false,
        }
    }

    /// Returns whether the railway is open but without full passenger
    /// service.
    pub fn is_open_no_pax(&self) -> (res: bool)
        ensures
            res == ((self.opt_status() is None || self.opt_status() == Some(Status::Open))
                && self.opt_pax() != Some(Pax::Full)),
    {
        self.is_open() && !matches!(self.pax(), Pax::Full)
    }

    /// The surface, [`Surface::Ground`] if none is set.
    pub fn surface(&self) -> (res: Surface)
        ensures
            res == (match self.opt_surface() {
                Some(s) => s,
                None => Surface::Ground,
            }),
    {
        match self.surface {
            Some(s) => s,
            None => Surface::Ground,
        }
    }

    /// The overhead electrification, if any.
    pub fn cat(&self) -> (res: Option<ElectricCat>)
        ensures
            res == self.opt_cat(),
    {
        self.cat
    }

    /// Returns whether an overhead electrification is set and in use.
    pub fn has_active_cat(&self) -> (res: bool)
        ensures
            res == (self.opt_cat() matches Some(c) && c.status == ElectricStatus::Open),
    {
        if let Some(cat) = self.cat {
            matches!(cat.status, ElectricStatus::Open)
        } else {
            false
        }
    }

    /// The overhead electrification if it is in use.
    pub fn active_cat(&self) -> (res: Option<ElectricCat>)
        ensures
            res == (if self.opt_cat() matches Some(c) && c.status == ElectricStatus::Open {
                self.opt_cat()
            } else {
                None
            }),
    {
        if let Some(cat) = self.cat {
            if matches!(cat.status, ElectricStatus::Open) {
                return Some(cat)
            }
        }
        None
    }

    /// The power rail electrification, if any.
    pub fn rail(&self) -> (res: Option<ElectricRail>)
        ensures
            res == self.opt_rail(),
    {
        self.rail
    }

    /// Returns whether a power rail electrification is set and in use.
    pub fn has_active_rail(&self) -> (res: bool)
        ensures
            res == (self.opt_rail() matches Some(r) && r.status == ElectricStatus::Open),
    {
        if let Some(rail) = self.rail {
            matches!(rail.status, ElectricStatus::Open)
        } else {
            false
        }
    }

    /// The power rail electrification if it is in use.
    pub fn active_rail(&self) -> (res: Option<ElectricRail>)
        ensures
            res == (if self.opt_rail() matches Some(r) && r.status == ElectricStatus::Open {
                self.opt_rail()
            } else {
                None
            }),
    {
        if let Some(rail) = self.rail {
            if matches!(rail.status, ElectricStatus::Open) {
                return Some(rail)
            }
        }
        None
    }

    /// The speed class, [`Speed::V160`] if none is set.
    pub fn speed(&self) -> (res: Speed)
        ensures
            res == (match self.opt_speed() {
                Some(s) => s,
                None => Speed::V160,
            }),
    {
        match self.speed {
            Some(s) => s,
            None => Speed::V160,
        }
    }

    /// The passenger service, [`Pax::NoPax`] if none is set.
    pub fn pax(&self) -> (res: Pax)
        ensures
            res == (match self.opt_pax() {
                Some(p) => p,
                None => Pax::NoPax,
            }),
    {
        match self.pax {
            Some(p) => p,
            None => Pax::NoPax,
        }
    }

    /// The gauge, standard gauge if none is set.
    pub fn gauge(&self) -> (res: Gauge)
        ensures
            res == (match self.opt_gauge() {
                Some(g) => g,
                None => Gauge::standard(),
            }),
    {
        match self.gauge {
            Some(g) => g,
            None => Gauge::default(),
        }
    }

    /// The gauge group, [`GaugeGroup::Standard`] if none is set.
    pub fn gauge_group(&self) -> (res: GaugeGroup)
        ensures
            res == (match self.opt_gauge_group() {
                Some(g) => g,
                None => GaugeGroup::Standard,
            }),
    {
        match self.gauge_group {
            Some(g) => g,
            None => GaugeGroup::Standard,
        }
    }

    /// Whether the track is double track, `false` if this is not set.
    pub fn double(&self) -> (res: bool)
        ensures
            res == (self.opt_double() == Some(true)),
    {
        match self.double {
            Some(d) => d,
            None => false,
        }
    }
}

//------------ Laws of completing a class -------------------------------------

/// Completing a class from the class with no part set leaves it as it is.
pub proof fn law_update_with_unset(this: Railway, res: Railway)
    requires
        Railway::is_update_of(res, this, Railway::unset()),
    ensures
        res == this,
{
}

/// Completing the class with no part set from a base gives the base.
pub proof fn law_update_of_unset(base: Railway, res: Railway)
    requires
        Railway::is_update_of(res, Railway::unset(), base),
    ensures
        res == base,
{
}

/// Completing a class twice from the same base changes nothing the second
/// time.
pub proof fn law_update_idempotent(this: Railway, base: Railway, once: Railway, twice: Railway)
    requires
        Railway::is_update_of(once, this, base),
        Railway::is_update_of(twice, once, base),
    ensures
        twice == once,
{
}

/// Completing a class from `b` and then from `c` is completing it from `b`
/// completed from `c`.
pub proof fn law_update_associative(
    a: Railway,
    b: Railway,
    c: Railway,
    ab: Railway,
    ab_c: Railway,
    bc: Railway,
    a_bc: Railway,
)
    requires
        Railway::is_update_of(ab, a, b),
        Railway::is_update_of(ab_c, ab, c),
        Railway::is_update_of(bc, b, c),
        Railway::is_update_of(a_bc, a, bc),
    ensures
        ab_c == a_bc,
{
}

/// Reading a class from symbols atop a base is reading it from the symbols
/// alone and completing it from the base.
pub proof fn law_symbols_atop_base(
    n: Set<Seq<char>>,
    base: Railway,
    atop: Railway,
    alone: Railway,
    completed: Railway,
)
    requires
        Railway::is_applied(atop, base, n),
        Railway::is_applied(alone, Railway::unset(), n),
        Railway::is_update_of(completed, alone, base),
    ensures
        atop == completed,
{
}

impl Default for Railway {
    fn default() -> (res: Self)
        ensures
            res.opt_category() is None,
            res.opt_status() is None,
            res.opt_surface() is None,
            res.opt_cat() is None,
            res.opt_rail() is None,
            res.opt_speed() is None,
            res.opt_pax() is None,
            res.opt_gauge_group() is None,
            res.opt_gauge() is None,
            res.opt_double() is None,
    {
        Railway::empty()
    }
}

//------------ Category ------------------------------------------------------

/// The category of railway this feature is for.
#[derive(Clone, Copy, Debug, PartialEq, Eq, Structural)]
pub enum Category {
    /// First-class public railway.
    First,
    /// Second-class public railway.
    Second,
    /// Third-class public railway.
    Third,
    /// Tram.
    Tram,
    /// A non-public railway.
    Private,
    /// Sidings tracks.
    ///
    /// For historical reasons, this is the default category.
    Siding,
}

impl Category {
    /// The value the symbols in `n` select, if any.
    #[verifier::opaque]
    pub open spec fn spec_from(n: Set<Seq<char>>) -> Option<Category> {
        if n.contains("first"@) {
            Some(Category::First)
        } else if n.contains("second"@) {
            Some(Category::Second)
        } else if n.contains("third"@) {
            Some(Category::Third)
        } else if n.contains("tram"@) {
            Some(Category::Tram)
        } else if n.contains("private"@) {
            Some(Category::Private)
        } else {
            None
        }
    }

    /// The symbols left after taking out the one that selected the value.
    #[verifier::opaque]
    pub open spec fn spec_rest(n: Set<Seq<char>>) -> Set<Seq<char>> {
        if n.contains("first"@) {
            n.remove("first"@)
        } else if n.contains("second"@) {
            n.remove("second"@)
        } else if n.contains("third"@) {
            n.remove("third"@)
        } else if n.contains("tram"@) {
            n.remove("tram"@)
        } else if n.contains("private"@) {
            n.remove("private"@)
        } else {
            n
        }
    }

    /// Takes the symbol selecting the category out of `symbols`.
    ///
    /// The candidates are tried in order and the first one present wins.
    pub(crate) fn from_symbols(symbols: &mut SymbolSet) -> (res: Option<Category>)
        requires
            old(symbols).wf(),
        ensures
            final(symbols).wf(),
            res == Category::spec_from(old(symbols)@),
            final(symbols)@ == Category::spec_rest(old(symbols)@),
    {
        proof {
            reveal(Category::spec_from);
            reveal(Category::spec_rest);
        }
        if symbols.take("first") {
            Some(Category::First)
        } else if symbols.take("second") {
            Some(Category::Second)
        } else if symbols.take("third") {
            Some(Category::Third)
        } else if symbols.take("tram") {
            Some(Category::Tram)
        } else if symbols.take("private") {
            Some(Category::Private)
        } else {
            None
        }
    }

    /// Returns whether the category is a first or second class.
    pub fn is_main(self) -> (res: bool)
        ensures
            res == (self == Category::First || self == Category::Second),
    {
        match self {
            Category::First | Category::Second => true,
            _ => false,
        }
    }

    /// Returns whether the category is a tram.
    pub fn is_tram(self) -> (res: bool)
        ensures
            res == (self == Category::Tram),
    {
        matches!(self, Category::Tram)
    }
}

impl Default for Category {
    fn default() -> (res: Self)
        ensures
            res == Category::Siding,
    {
        Category::Siding
    }
}

//------------ Status --------------------------------------------------------

/// The status of the feature.
///
/// The variants are ordered for drawing with the one drawn atop everything
/// else last.
#[derive(Clone, Copy, Debug, PartialEq, Eq, PartialOrd, Ord, Structural)]
pub enum Status {
    /// The feature has been removed a long time ago.
    Gone,
    /// The feature was planned but abandoned.
    Explanned,
    /// The feature has been removed.
    Removed,
    /// The feature is closed but still present.
    Closed,
    /// The feature is planned or under construction.
    Planned,
    /// The feature is open and in use.
    ///
    /// This is the default if the status is not explicitly given.
    Open,
}

impl Status {
    /// The status the symbols in `n` select, if any.
    #[verifier::opaque]
    pub open spec fn spec_from(n: Set<Seq<char>>) -> Option<Status> {
        if n.contains("exproject"@) {
            Some(Status::Explanned)
        } else if n.contains("project"@) {
            if n.remove("project"@).contains("removed"@) {
                Some(Status::Explanned)
            } else {
                Some(Status::Planned)
            }
        } else if n.contains("open"@) {
            Some(Status::Open)
        } else if n.contains("closed"@) {
            Some(Status::Closed)
        } else if n.contains("removed"@) {
            Some(Status::Removed)
        } else if n.contains("gone"@) {
            Some(Status::Gone)
        } else {
            None
        }
    }

    /// The symbols left after taking out those that selected the status.
    #[verifier::opaque]
    pub open spec fn spec_rest(n: Set<Seq<char>>) -> Set<Seq<char>> {
        if n.contains("exproject"@) {
            n.remove("exproject"@)
        } else if n.contains("project"@) {
            n.remove("project"@).remove("removed"@)
        } else if n.contains("open"@) {
            n.remove("open"@)
        } else if n.contains("closed"@) {
            n.remove("closed"@)
        } else if n.contains("removed"@) {
            n.remove("removed"@)
        } else if n.contains("gone"@) {
            n.remove("gone"@)
        } else {
            n
        }
    }

    /// Takes the symbols selecting the status out of `symbols`.
    ///
    /// A project that has been removed is an abandoned project.
    pub(crate) fn from_symbols(symbols: &mut SymbolSet) -> (res: Option<Status>)
        requires
            old(symbols).wf(),
        ensures
            final(symbols).wf(),
            res == Status::spec_from(old(symbols)@),
            final(symbols)@ == Status::spec_rest(old(symbols)@),
    {
        proof {
            reveal(Status::spec_from);
            reveal(Status::spec_rest);
        }
        if symbols.take("exproject") {
            Some(Status::Explanned)
        } else if symbols.take("project") {
            if symbols.take("removed") {
                Some(Status::Explanned)
            } else {
                Some(Status::Planned)
            }
        } else if symbols.take("open") {
            Some(Status::Open)
        } else if symbols.take("closed") {
            Some(Status::Closed)
        } else if symbols.take("removed") {
            Some(Status::Removed)
        } else if symbols.take("gone") {
            Some(Status::Gone)
        } else {
            None
        }
    }

    /// Returns whether the status is open.
    pub fn is_open(self) -> (res: bool)
        ensures
            res == (self == Status::Open),
    {
        matches!(self, Status::Open)
    }

    /// Returns whether the status is a current or abandoned project.
    pub fn is_project(self) -> (res: bool)
        ensures
            res == (self == Status::Explanned || self == Status::Planned),
    {
        matches!(self, Status::Explanned | Status::Planned)
    }

    /// The offset to the drawing layer for features of this status.
    pub open spec fn spec_layer_offset(self) -> i16 {
        match self {
            Status::Open => 0i16,
            Status::Closed => -10i16,
            Status::Removed => -20i16,
            Status::Gone => -30i16,
            _ => -40i16,
        }
    }

    /// Returns the offset to the drawing layer for features of this status.
    pub fn layer_offset(self) -> (res: i16)
        ensures
            res == self.spec_layer_offset(),
    {
        match self {
            Status::Open => 0,
            Status::Closed => -10,
            Status::Removed => -20,
            Status::Gone => -30,
            _ => -40,
        }
    }
}

impl Default for Status {
    fn default() -> (res: Self)
        ensures
            res == Status::Open,
    {
        Status::Open
    }
}

//------------ Surface -------------------------------------------------------

/// The surface type the track is laid on.
#[derive(Clone, Copy, Debug, PartialEq, Eq, Structural)]
pub enum Surface {
    /// The track sits on regular ground.
    ///
    /// This is the default.
    Ground,
    /// The track is on a bridge.
    Bridge,
    /// The track is in a tunnel.
    Tunnel,
}

impl Default for Surface {
    fn default() -> (res: Self)
        ensures
            res == Surface::Ground,
    {
        Surface::Ground
    }
}

impl Surface {
    /// The value the symbols in `n` select, if any.
    #[verifier::opaque]
    pub open spec fn spec_from(n: Set<Seq<char>>) -> Option<Surface> {
        if n.contains("ground"@) {
            Some(Surface::Ground)
        } else if n.contains("bridge"@) {
            Some(Surface::Bridge)
        } else if n.contains("tunnel"@) {
            Some(Surface::Tunnel)
        } else {
            None
        }
    }

    /// The symbols left after taking out the one that selected the value.
    #[verifier::opaque]
    pub open spec fn spec_rest(n: Set<Seq<char>>) -> Set<Seq<char>> {
        if n.contains("ground"@) {
            n.remove("ground"@)
        } else if n.contains("bridge"@) {
            n.remove("bridge"@)
        } else if n.contains("tunnel"@) {
            n.remove("tunnel"@)
        } else {
            n
        }
    }

    /// Takes the symbol selecting the surface out of `symbols`.
    ///
    /// The candidates are tried in order and the first one present wins.
    pub(crate) fn from_symbols(symbols: &mut SymbolSet) -> (res: Option<Surface>)
        requires
            old(symbols).wf(),
        ensures
            final(symbols).wf(),
            res == Surface::spec_from(old(symbols)@),
            final(symbols)@ == Surface::spec_rest(old(symbols)@),
    {
        proof {
            reveal(Surface::spec_from);
            reveal(Surface::spec_rest);
        }
        if symbols.take("ground") {
            Some(Surface::Ground)
        } else if symbols.take("bridge") {
            Some(Surface::Bridge)
        } else if symbols.take("tunnel") {
            Some(Surface::Tunnel)
        } else {
            None
        }
    }

    /// Returns whether the track is in a tunnel.
    pub fn is_tunnel(self) -> (res: bool)
        ensures
            res == (self == Surface::Tunnel),
    {
        matches!(self, Surface::Tunnel)
    }
}

//------------ System tables -------------------------------------------------

/// The voltage and current of an overhead line system named in `n`.
#[verifier::opaque]
pub open spec fn cat_system(n: Set<Seq<char>>) -> Option<(u16, ElectricSystem)> {
    if n.contains("ac0k725"@) {
        Some((725u16, ElectricSystem::Ac))
    } else if n.contains("ac6k6"@) {
        Some((6600u16, ElectricSystem::Ac))
    } else if n.contains("ac65"@) {
        Some((6500u16, ElectricSystem::Ac))
    } else if n.contains("ac15"@) {
        Some((15000u16, ElectricSystem::Ac))
    } else if n.contains("ac11"@) {
        Some((11000u16, ElectricSystem::Ac))
    } else if n.contains("ac25"@) {
        Some((25000u16, ElectricSystem::Ac))
    } else if n.contains("dc30"@) {
        Some((3000u16, ElectricSystem::Dc))
    } else if n.contains("dc3"@) {
        Some((3000u16, ElectricSystem::Dc))
    } else if n.contains("dc18"@) {
        Some((1800u16, ElectricSystem::Dc))
    } else if n.contains("dc15"@) {
        Some((1500u16, ElectricSystem::Dc))
    } else if n.contains("dc12"@) {
        Some((1200u16, ElectricSystem::Dc))
    } else if n.contains("dc10"@) {
        Some((1000u16, ElectricSystem::Dc))
    } else if n.contains("dc9"@) {
        Some((900u16, ElectricSystem::Dc))
    } else if n.contains("dc85"@) {
        Some((850u16, ElectricSystem::Dc))
    } else if n.contains("dc8"@) {
        Some((800u16, ElectricSystem::Dc))
    } else if n.contains("dc75"@) {
        Some((750u16, ElectricSystem::Dc))
    } else if n.contains("dc7"@) {
        Some((700u16, ElectricSystem::Dc))
    } else if n.contains("dc6"@) {
        Some((600u16, ElectricSystem::Dc))
    } else if n.contains("dc55"@) {
        Some((550u16, ElectricSystem::Dc))
    } else {
        None
    }
}

/// The symbols left after taking out the one cat_system found.
#[verifier::opaque]
pub open spec fn cat_system_rest(n: Set<Seq<char>>) -> Set<Seq<char>> {
    if n.contains("ac0k725"@) {
        n.remove("ac0k725"@)
    } else if n.contains("ac6k6"@) {
        n.remove("ac6k6"@)
    } else if n.contains("ac65"@) {
        n.remove("ac65"@)
    } else if n.contains("ac15"@) {
        n.remove("ac15"@)
    } else if n.contains("ac11"@) {
        n.remove("ac11"@)
    } else if n.contains("ac25"@) {
        n.remove("ac25"@)
    } else if n.contains("dc30"@) {
        n.remove("dc30"@)
    } else if n.contains("dc3"@) {
        n.remove("dc3"@)
    } else if n.contains("dc18"@) {
        n.remove("dc18"@)
    } else if n.contains("dc15"@) {
        n.remove("dc15"@)
    } else if n.contains("dc12"@) {
        n.remove("dc12"@)
    } else if n.contains("dc10"@) {
        n.remove("dc10"@)
    } else if n.contains("dc9"@) {
        n.remove("dc9"@)
    } else if n.contains("dc85"@) {
        n.remove("dc85"@)
    } else if n.contains("dc8"@) {
        n.remove("dc8"@)
    } else if n.contains("dc75"@) {
        n.remove("dc75"@)
    } else if n.contains("dc7"@) {
        n.remove("dc7"@)
    } else if n.contains("dc6"@) {
        n.remove("dc6"@)
    } else if n.contains("dc55"@) {
        n.remove("dc55"@)
    } else {
        n
    }
}

/// Takes the first symbol that cat_system looks for out of `symbols`.
fn take_cat_system(symbols: &mut SymbolSet) -> (res: Option<(u16, ElectricSystem)>)
    requires
        old(symbols).wf(),
    ensures
        final(symbols).wf(),
        res == cat_system(old(symbols)@),
        final(symbols)@ == cat_system_rest(old(symbols)@),
{
    proof {
        reveal(cat_system);
        reveal(cat_system_rest);
    }
    if symbols.take("ac0k725") {
        Some((725u16, ElectricSystem::Ac))
    } else if symbols.take("ac6k6") {
        Some((6600u16, ElectricSystem::Ac))
    } else if symbols.take("ac65") {
        Some((6500u16, ElectricSystem::Ac))
    } else if symbols.take("ac15") {
        Some((15000u16, ElectricSystem::Ac))
    } else if symbols.take("ac11") {
        Some((11000u16, ElectricSystem::Ac))
    } else if symbols.take("ac25") {
        Some((25000u16, ElectricSystem::Ac))
    } else if symbols.take("dc30") {
        Some((3000u16, ElectricSystem::Dc))
    } else if symbols.take("dc3") {
        Some((3000u16, ElectricSystem::Dc))
    } else if symbols.take("dc18") {
        Some((1800u16, ElectricSystem::Dc))
    } else if symbols.take("dc15") {
        Some((1500u16, ElectricSystem::Dc))
    } else if symbols.take("dc12") {
        Some((1200u16, ElectricSystem::Dc))
    } else if symbols.take("dc10") {
        Some((1000u16, ElectricSystem::Dc))
    } else if symbols.take("dc9") {
        Some((900u16, ElectricSystem::Dc))
    } else if symbols.take("dc85") {
        Some((850u16, ElectricSystem::Dc))
    } else if symbols.take("dc8") {
        Some((800u16, ElectricSystem::Dc))
    } else if symbols.take("dc75") {
        Some((750u16, ElectricSystem::Dc))
    } else if symbols.take("dc7") {
        Some((700u16, ElectricSystem::Dc))
    } else if symbols.take("dc6") {
        Some((600u16, ElectricSystem::Dc))
    } else if symbols.take("dc55") {
        Some((550u16, ElectricSystem::Dc))
    } else {
        None
    }
}

/// The voltage of a power rail system named in `n`.
#[verifier::opaque]
pub open spec fn rail_system(n: Set<Seq<char>>) -> Option<u16> {
    if n.contains("rc12"@) {
        Some(1200u16)
    } else if n.contains("rc85"@) {
        Some(850u16)
    } else if n.contains("rc75"@) {
        Some(750u16)
    } else if n.contains("rc63"@) {
        Some(630u16)
    } else {
        None
    }
}

/// The symbols left after taking out the one rail_system found.
#[verifier::opaque]
pub open spec fn rail_system_rest(n: Set<Seq<char>>) -> Set<Seq<char>> {
    if n.contains("rc12"@) {
        n.remove("rc12"@)
    } else if n.contains("rc85"@) {
        n.remove("rc85"@)
    } else if n.contains("rc75"@) {
        n.remove("rc75"@)
    } else if n.contains("rc63"@) {
        n.remove("rc63"@)
    } else {
        n
    }
}

/// Takes the first symbol that rail_system looks for out of `symbols`.
fn take_rail_system(symbols: &mut SymbolSet) -> (res: Option<u16>)
    requires
        old(symbols).wf(),
    ensures
        final(symbols).wf(),
        res == rail_system(old(symbols)@),
        final(symbols)@ == rail_system_rest(old(symbols)@),
{
    proof {
        reveal(rail_system);
        reveal(rail_system_rest);
    }
    if symbols.take("rc12") {
        Some(1200u16)
    } else if symbols.take("rc85") {
        Some(850u16)
    } else if symbols.take("rc75") {
        Some(750u16)
    } else if symbols.take("rc63") {
        Some(630u16)
    } else {
        None
    }
}

/// The main gauge named in `n`, in millimetres.
#[verifier::opaque]
pub open spec fn main_gauge(n: Set<Seq<char>>) -> Option<u16> {
    if n.contains("g600"@) {
        Some(600u16)
    } else if n.contains("g750"@) {
        Some(750u16)
    } else if n.contains("g760"@) {
        Some(760u16)
    } else if n.contains("g785"@) {
        Some(785u16)
    } else if n.contains("g800"@) {
        Some(800u16)
    } else if n.contains("g900"@) {
        Some(900u16)
    } else if n.contains("g950"@) {
        Some(950u16)
    } else if n.contains("g1000"@) {
        Some(1000u16)
    } else if n.contains("g1100"@) {
        Some(1100u16)
    } else if n.contains("g1200"@) {
        Some(1200u16)
    } else if n.contains("g1435"@) {
        Some(1435u16)
    } else if n.contains("g1520"@) {
        Some(1520u16)
    } else if n.contains("g1524"@) {
        Some(1524u16)
    } else {
        None
    }
}

/// The symbols left after taking out the one main_gauge found.
#[verifier::opaque]
pub open spec fn main_gauge_rest(n: Set<Seq<char>>) -> Set<Seq<char>> {
    if n.contains("g600"@) {
        n.remove("g600"@)
    } else if n.contains("g750"@) {
        n.remove("g750"@)
    } else if n.contains("g760"@) {
        n.remove("g760"@)
    } else if n.contains("g785"@) {
        n.remove("g785"@)
    } else if n.contains("g800"@) {
        n.remove("g800"@)
    } else if n.contains("g900"@) {
        n.remove("g900"@)
    } else if n.contains("g950"@) {
        n.remove("g950"@)
    } else if n.contains("g1000"@) {
        n.remove("g1000"@)
    } else if n.contains("g1100"@) {
        n.remove("g1100"@)
    } else if n.contains("g1200"@) {
        n.remove("g1200"@)
    } else if n.contains("g1435"@) {
        n.remove("g1435"@)
    } else if n.contains("g1520"@) {
        n.remove("g1520"@)
    } else if n.contains("g1524"@) {
        n.remove("g1524"@)
    } else {
        n
    }
}

/// Takes the first symbol that main_gauge looks for out of `symbols`.
fn take_main_gauge(symbols: &mut SymbolSet) -> (res: Option<u16>)
    requires
        old(symbols).wf(),
    ensures
        final(symbols).wf(),
        res == main_gauge(old(symbols)@),
        final(symbols)@ == main_gauge_rest(old(symbols)@),
{
    proof {
        reveal(main_gauge);
        reveal(main_gauge_rest);
    }
    if symbols.take("g600") {
        Some(600u16)
    } else if symbols.take("g750") {
        Some(750u16)
    } else if symbols.take("g760") {
        Some(760u16)
    } else if symbols.take("g785") {
        Some(785u16)
    } else if symbols.take("g800") {
        Some(800u16)
    } else if symbols.take("g900") {
        Some(900u16)
    } else if symbols.take("g950") {
        Some(950u16)
    } else if symbols.take("g1000") {
        Some(1000u16)
    } else if symbols.take("g1100") {
        Some(1100u16)
    } else if symbols.take("g1200") {
        Some(1200u16)
    } else if symbols.take("g1435") {
        Some(1435u16)
    } else if symbols.take("g1520") {
        Some(1520u16)
    } else if symbols.take("g1524") {
        Some(1524u16)
    } else {
        None
    }
}

/// The secondary gauge named in `n`, in millimetres.
#[verifier::opaque]
pub open spec fn secondary_gauge(n: Set<Seq<char>>) -> Option<u16> {
    if n.contains("gg750"@) {
        Some(750u16)
    } else if n.contains("gg1000"@) {
        Some(1000u16)
    } else if n.contains("gg1435"@) {
        Some(1435u16)
    } else {
        None
    }
}

/// The symbols left after taking out the one secondary_gauge found.
#[verifier::opaque]
pub open spec fn secondary_gauge_rest(n: Set<Seq<char>>) -> Set<Seq<char>> {
    if n.contains("gg750"@) {
        n.remove("gg750"@)
    } else if n.contains("gg1000"@) {
        n.remove("gg1000"@)
    } else if n.contains("gg1435"@) {
        n.remove("gg1435"@)
    } else {
        n
    }
}

/// Takes the first symbol that secondary_gauge looks for out of `symbols`.
fn take_secondary_gauge(symbols: &mut SymbolSet) -> (res: Option<u16>)
    requires
        old(symbols).wf(),
    ensures
        final(symbols).wf(),
        res == secondary_gauge(old(symbols)@),
        final(symbols)@ == secondary_gauge_rest(old(symbols)@),
{
    proof {
        reveal(secondary_gauge);
        reveal(secondary_gauge_rest);
    }
    if symbols.take("gg750") {
        Some(750u16)
    } else if symbols.take("gg1000") {
        Some(1000u16)
    } else if symbols.take("gg1435") {
        Some(1435u16)
    } else {
        None
    }
}

//------------ ElectricCat ---------------------------------------------------

/// The electrification system for overhead line electrification.
#[derive(Clone, Copy, Debug, PartialEq, Eq, Structural)]
pub struct ElectricCat {
    /// The status of the system.
    pub status: ElectricStatus,
    /// The nominal voltage of the system.
    pub voltage: Option<u16>,
    /// The type of current in use.
    pub system: Option<ElectricSystem>,
}

impl ElectricCat {
    /// The overhead electrification with the given status whose system is
    /// named in `n`.
    pub open spec fn with_system(status: ElectricStatus, n: Set<Seq<char>>) -> ElectricCat {
        match cat_system(n) {
            Some((voltage, system)) => ElectricCat {
                status,
                voltage: Some(voltage),
                system: Some(system),
            },
            None => ElectricCat { status, voltage: None, system: None },
        }
    }

    /// The overhead electrification the symbols in `n` select, if any.
    #[verifier::opaque]
    pub open spec fn spec_from(n: Set<Seq<char>>) -> Option<ElectricCat> {
        if n.contains("cat"@) {
            Some(ElectricCat::with_system(ElectricStatus::Open, n.remove("cat"@)))
        } else if n.contains("excat"@) {
            Some(ElectricCat::with_system(ElectricStatus::Removed, n.remove("excat"@)))
        } else {
            None
        }
    }

    /// The symbols left after taking out those that selected the overhead
    /// electrification.
    #[verifier::opaque]
    pub open spec fn spec_rest(n: Set<Seq<char>>) -> Set<Seq<char>> {
        if n.contains("cat"@) {
            cat_system_rest(n.remove("cat"@))
        } else if n.contains("excat"@) {
            cat_system_rest(n.remove("excat"@))
        } else {
            n
        }
    }

    /// Takes the symbols selecting an overhead electrification out of
    /// `symbols`.
    ///
    /// The system is only looked for if `:cat` or `:excat` is present.
    pub(crate) fn from_symbols(symbols: &mut SymbolSet) -> (res: Option<ElectricCat>)
        requires
            old(symbols).wf(),
        ensures
            final(symbols).wf(),
            res == ElectricCat::spec_from(old(symbols)@),
            final(symbols)@ == ElectricCat::spec_rest(old(symbols)@),
    {
        proof {
            reveal(ElectricCat::spec_from);
            reveal(ElectricCat::spec_rest);
        }
        let mut res = if symbols.take("cat") {
            ElectricCat { status: ElectricStatus::Open, voltage: None, system: None }
        } else if symbols.take("excat") {
            ElectricCat { status: ElectricStatus::Removed, voltage: None, system: None }
        } else {
            return None
        };
        if let Some((voltage, system)) = take_cat_system(symbols) {
            res.voltage = Some(voltage);
            res.system = Some(system);
        }
        Some(res)
    }

    /// The voltage group of a system.
    pub open spec fn spec_voltage_group(self) -> VoltageGroup {
        match (self.voltage, self.system) {
            (Some(voltage), Some(ElectricSystem::Ac)) => {
                if voltage >= 20000 {
                    VoltageGroup::High
                } else {
                    VoltageGroup::Low
                }
            },
            (Some(voltage), Some(ElectricSystem::Dc)) => {
                if voltage >= 2000 {
                    VoltageGroup::High
                } else {
                    VoltageGroup::Low
                }
            },
            _ => VoltageGroup::Unknown,
        }
    }

    /// Returns the voltage group of the system.
    ///
    /// Alternating current from 20 kV and direct current from 2 kV is high
    /// voltage. Without both voltage and current, the group is unknown.
    pub fn voltage_group(self) -> (res: VoltageGroup)
        ensures
            res == self.spec_voltage_group(),
    {
        let (voltage, system) = match (self.voltage, self.system) {
            (Some(voltage), Some(system)) => (voltage, system),
            _ => return VoltageGroup::Unknown,
        };
        match system {
            ElectricSystem::Ac => {
                if voltage >= 20000 {
                    VoltageGroup::High
                } else {
                    VoltageGroup::Low
                }
            },
            ElectricSystem::Dc => {
                if voltage >= 2000 {
                    VoltageGroup::High
                } else {
                    VoltageGroup::Low
                }
            },
        }
    }
}

//------------ ElectricRail --------------------------------------------------

/// The electrification system for third and fourth rail electrification.
#[derive(Clone, Copy, Debug, PartialEq, Eq, Structural)]
pub struct ElectricRail {
    /// The status of the system.
    pub status: ElectricStatus,
    /// The nominal voltage of the system.
    pub voltage: Option<u16>,
    /// Is the system a fourth rail system using two power rails?
    pub fourth: bool,
}

impl ElectricRail {
    /// The power rail system with the given status and kind whose voltage is
    /// named in `n`.
    pub open spec fn with_system(status: ElectricStatus, fourth: bool, n: Set<Seq<char>>) -> ElectricRail {
        ElectricRail { status, voltage: rail_system(n), fourth }
    }

    /// The power rail electrification the symbols in `n` select, if any.
    #[verifier::opaque]
    pub open spec fn spec_from(n: Set<Seq<char>>) -> Option<ElectricRail> {
        if n.contains("rail"@) {
            Some(ElectricRail::with_system(ElectricStatus::Open, false, n.remove("rail"@)))
        } else if n.contains("exrail"@) {
            Some(ElectricRail::with_system(ElectricStatus::Removed, false, n.remove("exrail"@)))
        } else if n.contains("rail4"@) {
            Some(ElectricRail::with_system(ElectricStatus::Open, true, n.remove("rail4"@)))
        } else if n.contains("exrail4"@) {
            Some(ElectricRail::with_system(ElectricStatus::Removed, true, n.remove("exrail4"@)))
        } else {
            None
        }
    }

    /// The symbols left after taking out those that selected the power rail
    /// electrification.
    #[verifier::opaque]
    pub open spec fn spec_rest(n: Set<Seq<char>>) -> Set<Seq<char>> {
        if n.contains("rail"@) {
            rail_system_rest(n.remove("rail"@))
        } else if n.contains("exrail"@) {
            rail_system_rest(n.remove("exrail"@))
        } else if n.contains("rail4"@) {
            rail_system_rest(n.remove("rail4"@))
        } else if n.contains("exrail4"@) {
            rail_system_rest(n.remove("exrail4"@))
        } else {
            n
        }
    }

    /// Takes the symbols selecting a power rail electrification out of
    /// `symbols`.
    pub(crate) fn from_symbols(symbols: &mut SymbolSet) -> (res: Option<ElectricRail>)
        requires
            old(symbols).wf(),
        ensures
            final(symbols).wf(),
            res == ElectricRail::spec_from(old(symbols)@),
            final(symbols)@ == ElectricRail::spec_rest(old(symbols)@),
    {
        proof {
            reveal(ElectricRail::spec_from);
            reveal(ElectricRail::spec_rest);
        }
        let mut res = if symbols.take("rail") {
            ElectricRail { status: ElectricStatus::Open, voltage: None, fourth: false }
        } else if symbols.take("exrail") {
            ElectricRail { status: ElectricStatus::Removed, voltage: None, fourth: false }
        } else if symbols.take("rail4") {
            ElectricRail { status: ElectricStatus::Open, voltage: None, fourth: true }
        } else if symbols.take("exrail4") {
            ElectricRail { status: ElectricStatus::Removed, voltage: None, fourth: true }
        } else {
            return None
        };
        if let Some(voltage) = take_rail_system(symbols) {
            res.voltage = Some(voltage);
        }
        Some(res)
    }

    /// The voltage group of a system.
    pub open spec fn spec_voltage_group(self) -> VoltageGroup {
        match self.voltage {
            Some(voltage) => if voltage >= 1000 {
                VoltageGroup::High
            } else {
                VoltageGroup::Low
            },
            None => VoltageGroup::Unknown,
        }
    }

    /// Returns the voltage group of the system.
    ///
    /// From 1 kV a power rail is high voltage.
    pub fn voltage_group(self) -> (res: VoltageGroup)
        ensures
            res == self.spec_voltage_group(),
    {
        match self.voltage {
            Some(voltage) => {
                if voltage >= 1000 {
                    VoltageGroup::High
                } else {
                    VoltageGroup::Low
                }
            },
            None => VoltageGroup::Unknown,
        }
    }
}

//------------ ElectricStatus ------------------------------------------------

/// The status of an electrification.
#[derive(Clone, Copy, Debug, PartialEq, Eq, Structural)]
pub enum ElectricStatus {
    Open,
    Removed,
}

//------------ ElectricSystem ------------------------------------------------

/// The kind of current of an overhead line.
#[derive(Clone, Copy, Debug, PartialEq, Eq, Structural)]
pub enum ElectricSystem {
    Ac,
    Dc,
}

//------------ VoltageGroup --------------------------------------------------

/// A coarse grouping of electrification voltages.
#[derive(Clone, Copy, Debug, PartialEq, Eq, Structural)]
pub enum VoltageGroup {
    Low,
    High,
    Unknown,
}

//------------ Speed ---------------------------------------------------------

/// The speed class of a line.
#[derive(Clone, Copy, Debug, PartialEq, Eq, Structural)]
pub enum Speed {
    V160,
    V200,
    V250,
    V300,
}

impl Speed {
    /// The value the symbols in `n` select, if any.
    #[verifier::opaque]
    pub open spec fn spec_from(n: Set<Seq<char>>) -> Option<Speed> {
        if n.contains("v160"@) {
            Some(Speed::V160)
        } else if n.contains("v200"@) {
            Some(Speed::V200)
        } else if n.contains("v250"@) {
            Some(Speed::V250)
        } else if n.contains("v300"@) {
            Some(Speed::V300)
        } else {
            None
        }
    }

    /// The symbols left after taking out the one that selected the value.
    #[verifier::opaque]
    pub open spec fn spec_rest(n: Set<Seq<char>>) -> Set<Seq<char>> {
        if n.contains("v160"@) {
            n.remove("v160"@)
        } else if n.contains("v200"@) {
            n.remove("v200"@)
        } else if n.contains("v250"@) {
            n.remove("v250"@)
        } else if n.contains("v300"@) {
            n.remove("v300"@)
        } else {
            n
        }
    }

    /// Takes the symbol selecting the speed class out of `symbols`.
    ///
    /// The candidates are tried in order and the first one present wins.
    pub(crate) fn from_symbols(symbols: &mut SymbolSet) -> (res: Option<Speed>)
        requires
            old(symbols).wf(),
        ensures
            final(symbols).wf(),
            res == Speed::spec_from(old(symbols)@),
            final(symbols)@ == Speed::spec_rest(old(symbols)@),
    {
        proof {
            reveal(Speed::spec_from);
            reveal(Speed::spec_rest);
        }
        if symbols.take("v160") {
            Some(Speed::V160)
        } else if symbols.take("v200") {
            Some(Speed::V200)
        } else if symbols.take("v250") {
            Some(Speed::V250)
        } else if symbols.take("v300") {
            Some(Speed::V300)
        } else {
            None
        }
    }

    /// Returns whether this is a high speed line.
    pub fn is_hsl(self) -> (res: bool)
        ensures
            res == (self != Speed::V160),
    {
        !matches!(self, Speed::V160)
    }
}

impl Default for Speed {
    fn default() -> (res: Self)
        ensures
            res == Speed::V160,
    {
        Speed::V160
    }
}

//------------ Pax -----------------------------------------------------------

/// The passenger service on a line.
#[derive(Clone, Copy, Debug, PartialEq, Eq, PartialOrd, Ord, Structural)]
pub enum Pax {
    /// There is no passenger service.
    NoPax,
    /// There is heritage passenger service.
    Heritage,
    /// Passenger service is either seasonal or not all week.
    Seasonal,
    /// Scheduled, daily passenger service.
    Full,
}

impl Pax {
    /// The passenger service the symbols in `n` select, if any.
    #[verifier::opaque]
    pub open spec fn spec_from(n: Set<Seq<char>>) -> Option<Pax> {
        if n.contains("nopax"@) {
            Some(Pax::NoPax)
        } else if n.contains("pax"@) {
            Some(Pax::Full)
        } else if n.contains("heritage"@) || n.contains("museum"@) || n.contains("tourist"@) {
            Some(Pax::Heritage)
        } else if n.contains("seasonal"@) {
            Some(Pax::Seasonal)
        } else {
            None
        }
    }

    /// The symbols left after taking out the one that selected the service.
    ///
    /// Of the heritage symbols only the first present one is taken.
    #[verifier::opaque]
    pub open spec fn spec_rest(n: Set<Seq<char>>) -> Set<Seq<char>> {
        if n.contains("nopax"@) {
            n.remove("nopax"@)
        } else if n.contains("pax"@) {
            n.remove("pax"@)
        } else if n.contains("heritage"@) {
            n.remove("heritage"@)
        } else if n.contains("museum"@) {
            n.remove("museum"@)
        } else if n.contains("tourist"@) {
            n.remove("tourist"@)
        } else if n.contains("seasonal"@) {
            n.remove("seasonal"@)
        } else {
            n
        }
    }

    /// Takes the symbol selecting the passenger service out of `symbols`.
    pub(crate) fn from_symbols(symbols: &mut SymbolSet) -> (res: Option<Pax>)
        requires
            old(symbols).wf(),
        ensures
            final(symbols).wf(),
            res == Pax::spec_from(old(symbols)@),
            final(symbols)@ == Pax::spec_rest(old(symbols)@),
    {
        proof {
            reveal(Pax::spec_from);
            reveal(Pax::spec_rest);
        }
        if symbols.take("nopax") {
            Some(Pax::NoPax)
        } else if symbols.take("pax") {
            Some(Pax::Full)
        } else if symbols.take("heritage") || symbols.take("museum") || symbols.take("tourist") {
            Some(Pax::Heritage)
        } else if symbols.take("seasonal") {
            Some(Pax::Seasonal)
        } else {
            None
        }
    }

    /// Returns whether there is scheduled, daily passenger service.
    pub fn is_full(self) -> (res: bool)
        ensures
            res == (self == Pax::Full),
    {
        matches!(self, Pax::Full)
    }
}

impl Default for Pax {
    fn default() -> (res: Self)
        ensures
            res == Pax::NoPax,
    {
        Pax::NoPax
    }
}

//------------ Gauge ---------------------------------------------------------

/// The track gauge.
#[derive(Clone, Copy, Debug, PartialEq, Eq, Structural)]
pub struct Gauge {
    /// The main gauge in mm.
    main: u16,
    /// The secondary gauge in mm if present.
    ///
    /// This is only present for three or four rail track.
    secondary: Option<u16>,
}

impl Gauge {
    /// The main gauge in millimetres.
    pub closed spec fn spec_main(self) -> u16 {
        self.main
    }

    /// The secondary gauge in millimetres, if there is one.
    pub closed spec fn spec_secondary(self) -> Option<u16> {
        self.secondary
    }

    /// Standard gauge without a secondary gauge.
    pub open spec fn standard() -> Gauge {
        Gauge::new_spec(1435, None)
    }

    /// The gauge with the given main and secondary gauge.
    pub closed spec fn new_spec(main: u16, secondary: Option<u16>) -> Gauge {
        Gauge { main, secondary }
    }

    /// Creates a gauge.
    pub fn new(main: u16, secondary: Option<u16>) -> (res: Gauge)
        ensures
            res == Gauge::new_spec(main, secondary),
            res.spec_main() == main,
            res.spec_secondary() == secondary,
    {
        Gauge { main, secondary }
    }

    /// The gauge the symbols in `n` select, if any.
    #[verifier::opaque]
    pub open spec fn spec_from(n: Set<Seq<char>>) -> Option<Gauge> {
        match main_gauge(n) {
            Some(main) => Some(Gauge::new_spec(main, secondary_gauge(main_gauge_rest(n)))),
            None => None,
        }
    }

    /// The symbols left after taking out those that selected the gauge.
    #[verifier::opaque]
    pub open spec fn spec_rest(n: Set<Seq<char>>) -> Set<Seq<char>> {
        match main_gauge(n) {
            Some(_) => secondary_gauge_rest(main_gauge_rest(n)),
            None => n,
        }
    }

    /// Takes the symbols selecting a gauge out of `symbols`.
    ///
    /// Without a main gauge there is no gauge and the secondary gauge is not
    /// looked for.
    pub fn from_symbols(symbols: &mut SymbolSet) -> (res: Option<Gauge>)
        requires
            old(symbols).wf(),
        ensures
            final(symbols).wf(),
            res == Gauge::spec_from(old(symbols)@),
            final(symbols)@ == Gauge::spec_rest(old(symbols)@),
    {
        proof {
            reveal(Gauge::spec_from);
            reveal(Gauge::spec_rest);
            reveal(main_gauge);
            reveal(main_gauge_rest);
        }
        let main = match take_main_gauge(symbols) {
            Some(main) => main,
            None => return None,
        };
        let secondary = take_secondary_gauge(symbols);
        Some(Gauge { main, secondary })
    }

    /// Returns the main gauge in millimetres.
    pub fn main(self) -> (res: u16)
        ensures
            res == self.spec_main(),
    {
        self.main
    }

    /// Returns the secondary gauge in millimetres, if there is one.
    pub fn secondary(self) -> (res: Option<u16>)
        ensures
            res == self.spec_secondary(),
    {
        self.secondary
    }
}

/// A gauge made of a main and a secondary gauge has exactly these parts,
/// and a gauge is determined by its parts.
pub proof fn lemma_gauge_parts(main: u16, secondary: Option<u16>, a: Gauge, b: Gauge)
    ensures
        Gauge::new_spec(main, secondary).spec_main() == main,
        Gauge::new_spec(main, secondary).spec_secondary() == secondary,
        (a.spec_main() == b.spec_main() && a.spec_secondary() == b.spec_secondary()) ==> a == b,
        a == Gauge::new_spec(a.spec_main(), a.spec_secondary()),
{
}

impl Default for Gauge {
    fn default() -> (res: Self)
        ensures
            res == Gauge::standard(),
    {
        Gauge { main: 1435, secondary: None }
    }
}

//------------ GaugeGroup ----------------------------------------------------

/// A coarse grouping of gauges.
#[derive(Clone, Copy, Debug, PartialEq, Eq, Structural)]
pub enum GaugeGroup {
    Narrower,
    Narrow,
    Standard,
    Broad,
    Broader,
}

impl GaugeGroup {
    /// The value the symbols in `n` select, if any.
    #[verifier::opaque]
    pub open spec fn spec_from(n: Set<Seq<char>>) -> Option<GaugeGroup> {
        if n.contains("narrower"@) {
            Some(GaugeGroup::Narrower)
        } else if n.contains("narrow"@) {
            Some(GaugeGroup::Narrow)
        } else if n.contains("standard"@) {
            Some(GaugeGroup::Standard)
        } else if n.contains("broad"@) {
            Some(GaugeGroup::Broad)
        } else if n.contains("broader"@) {
            Some(GaugeGroup::Broader)
        } else {
            None
        }
    }

    /// The symbols left after taking out the one that selected the value.
    #[verifier::opaque]
    pub open spec fn spec_rest(n: Set<Seq<char>>) -> Set<Seq<char>> {
        if n.contains("narrower"@) {
            n.remove("narrower"@)
        } else if n.contains("narrow"@) {
            n.remove("narrow"@)
        } else if n.contains("standard"@) {
            n.remove("standard"@)
        } else if n.contains("broad"@) {
            n.remove("broad"@)
        } else if n.contains("broader"@) {
            n.remove("broader"@)
        } else {
            n
        }
    }

    /// Takes the symbol selecting the gauge group out of `symbols`.
    ///
    /// The candidates are tried in order and the first one present wins.
    pub fn from_symbols(symbols: &mut SymbolSet) -> (res: Option<GaugeGroup>)
        requires
            old(symbols).wf(),
        ensures
            final(symbols).wf(),
            res == GaugeGroup::spec_from(old(symbols)@),
            final(symbols)@ == GaugeGroup::spec_rest(old(symbols)@),
    {
        proof {
            reveal(GaugeGroup::spec_from);
            reveal(GaugeGroup::spec_rest);
        }
        if symbols.take("narrower") {
            Some(GaugeGroup::Narrower)
        } else if symbols.take("narrow") {
            Some(GaugeGroup::Narrow)
        } else if symbols.take("standard") {
            Some(GaugeGroup::Standard)
        } else if symbols.take("broad") {
            Some(GaugeGroup::Broad)
        } else if symbols.take("broader") {
            Some(GaugeGroup::Broader)
        } else {
            None
        }
    }

}

impl Default for GaugeGroup {
    fn default() -> (res: Self)
        ensures
            res == GaugeGroup::Standard,
    {
        GaugeGroup::Standard
    }
}

//------------ Laws of the symbols --------------------------------------------

/// Each category symbol on its own selects its category; without one there is none.
pub proof fn law_category_symbols(n: Set<Seq<char>>)
    ensures
        (n.contains("first"@) && !n.contains("second"@) && !n.contains("third"@) && !n.contains("tram"@) && !n.contains("private"@)) ==> Category::spec_from(n) == Some(Category::First),
        (n.contains("second"@) && !n.contains("first"@) && !n.contains("third"@) && !n.contains("tram"@) && !n.contains("private"@)) ==> Category::spec_from(n) == Some(Category::Second),
        (n.contains("third"@) && !n.contains("first"@) && !n.contains("second"@) && !n.contains("tram"@) && !n.contains("private"@)) ==> Category::spec_from(n) == Some(Category::Third),
        (n.contains("tram"@) && !n.contains("first"@) && !n.contains("second"@) && !n.contains("third"@) && !n.contains("private"@)) ==> Category::spec_from(n) == Some(Category::Tram),
        (n.contains("private"@) && !n.contains("first"@) && !n.contains("second"@) && !n.contains("third"@) && !n.contains("tram"@)) ==> Category::spec_from(n) == Some(Category::Private),
        (!n.contains("first"@) && !n.contains("second"@) && !n.contains("third"@) && !n.contains("tram"@) && !n.contains("private"@)) ==> Category::spec_from(n) is None,
{
    reveal(Category::spec_from);
}

/// Each surface symbol on its own selects its surface; without one there is none.
pub proof fn law_surface_symbols(n: Set<Seq<char>>)
    ensures
        (n.contains("ground"@) && !n.contains("bridge"@) && !n.contains("tunnel"@)) ==> Surface::spec_from(n) == Some(Surface::Ground),
        (n.contains("bridge"@) && !n.contains("ground"@) && !n.contains("tunnel"@)) ==> Surface::spec_from(n) == Some(Surface::Bridge),
        (n.contains("tunnel"@) && !n.contains("ground"@) && !n.contains("bridge"@)) ==> Surface::spec_from(n) == Some(Surface::Tunnel),
        (!n.contains("ground"@) && !n.contains("bridge"@) && !n.contains("tunnel"@)) ==> Surface::spec_from(n) is None,
{
    reveal(Surface::spec_from);
}

/// Each speed symbol on its own selects its speed; without one there is none.
pub proof fn law_speed_symbols(n: Set<Seq<char>>)
    ensures
        (n.contains("v160"@) && !n.contains("v200"@) && !n.contains("v250"@) && !n.contains("v300"@)) ==> Speed::spec_from(n) == Some(Speed::V160),
        (n.contains("v200"@) && !n.contains("v160"@) && !n.contains("v250"@) && !n.contains("v300"@)) ==> Speed::spec_from(n) == Some(Speed::V200),
        (n.contains("v250"@) && !n.contains("v160"@) && !n.contains("v200"@) && !n.contains("v300"@)) ==> Speed::spec_from(n) == Some(Speed::V250),
        (n.contains("v300"@) && !n.contains("v160"@) && !n.contains("v200"@) && !n.contains("v250"@)) ==> Speed::spec_from(n) == Some(Speed::V300),
        (!n.contains("v160"@) && !n.contains("v200"@) && !n.contains("v250"@) && !n.contains("v300"@)) ==> Speed::spec_from(n) is None,
{
    reveal(Speed::spec_from);
}

/// Each passenger service symbol on its own selects its service; `heritage`, `museum` and `tourist` all select heritage service.
pub proof fn law_pax_symbols(n: Set<Seq<char>>)
    ensures
        (n.contains("nopax"@) && !n.contains("pax"@) && !n.contains("heritage"@) && !n.contains("museum"@) && !n.contains("tourist"@) && !n.contains("seasonal"@)) ==> Pax::spec_from(n) == Some(Pax::NoPax),
        (n.contains("pax"@) && !n.contains("nopax"@) && !n.contains("heritage"@) && !n.contains("museum"@) && !n.contains("tourist"@) && !n.contains("seasonal"@)) ==> Pax::spec_from(n) == Some(Pax::Full),
        (n.contains("heritage"@) && !n.contains("nopax"@) && !n.contains("pax"@) && !n.contains("museum"@) && !n.contains("tourist"@) && !n.contains("seasonal"@)) ==> Pax::spec_from(n) == Some(Pax::Heritage),
        (n.contains("museum"@) && !n.contains("nopax"@) && !n.contains("pax"@) && !n.contains("heritage"@) && !n.contains("tourist"@) && !n.contains("seasonal"@)) ==> Pax::spec_from(n) == Some(Pax::Heritage),
        (n.contains("tourist"@) && !n.contains("nopax"@) && !n.contains("pax"@) && !n.contains("heritage"@) && !n.contains("museum"@) && !n.contains("seasonal"@)) ==> Pax::spec_from(n) == Some(Pax::Heritage),
        (n.contains("seasonal"@) && !n.contains("nopax"@) && !n.contains("pax"@) && !n.contains("heritage"@) && !n.contains("museum"@) && !n.contains("tourist"@)) ==> Pax::spec_from(n) == Some(Pax::Seasonal),
        (!n.contains("nopax"@) && !n.contains("pax"@) && !n.contains("heritage"@) && !n.contains("museum"@) && !n.contains("tourist"@) && !n.contains("seasonal"@)) ==> Pax::spec_from(n) is None,
{
    reveal(Pax::spec_from);
}

/// Each gauge group symbol on its own selects its group; without one there is none.
pub proof fn law_gauge_group_symbols(n: Set<Seq<char>>)
    ensures
        (n.contains("narrower"@) && !n.contains("narrow"@) && !n.contains("standard"@) && !n.contains("broad"@) && !n.contains("broader"@)) ==> GaugeGroup::spec_from(n) == Some(GaugeGroup::Narrower),
        (n.contains("narrow"@) && !n.contains("narrower"@) && !n.contains("standard"@) && !n.contains("broad"@) && !n.contains("broader"@)) ==> GaugeGroup::spec_from(n) == Some(GaugeGroup::Narrow),
        (n.contains("standard"@) && !n.contains("narrower"@) && !n.contains("narrow"@) && !n.contains("broad"@) && !n.contains("broader"@)) ==> GaugeGroup::spec_from(n) == Some(GaugeGroup::Standard),
        (n.contains("broad"@) && !n.contains("narrower"@) && !n.contains("narrow"@) && !n.contains("standard"@) && !n.contains("broader"@)) ==> GaugeGroup::spec_from(n) == Some(GaugeGroup::Broad),
        (n.contains("broader"@) && !n.contains("narrower"@) && !n.contains("narrow"@) && !n.contains("standard"@) && !n.contains("broad"@)) ==> GaugeGroup::spec_from(n) == Some(GaugeGroup::Broader),
        (!n.contains("narrower"@) && !n.contains("narrow"@) && !n.contains("standard"@) && !n.contains("broad"@) && !n.contains("broader"@)) ==> GaugeGroup::spec_from(n) is None,
{
    reveal(GaugeGroup::spec_from);
}

/// Each overhead line system symbol on its own names its voltage in volts and its current.
pub proof fn law_cat_system_symbols(n: Set<Seq<char>>)
    ensures
        (n.contains("ac0k725"@) && !n.contains("ac6k6"@) && !n.contains("ac65"@) && !n.contains("ac15"@) && !n.contains("ac11"@) && !n.contains("ac25"@) && !n.contains("dc30"@) && !n.contains("dc3"@) && !n.contains("dc18"@) && !n.contains("dc15"@) && !n.contains("dc12"@) && !n.contains("dc10"@) && !n.contains("dc9"@) && !n.contains("dc85"@) && !n.contains("dc8"@) && !n.contains("dc75"@) && !n.contains("dc7"@) && !n.contains("dc6"@) && !n.contains("dc55"@)) ==> cat_system(n) == Some((725u16, ElectricSystem::Ac)),
        (n.contains("ac6k6"@) && !n.contains("ac0k725"@) && !n.contains("ac65"@) && !n.contains("ac15"@) && !n.contains("ac11"@) && !n.contains("ac25"@) && !n.contains("dc30"@) && !n.contains("dc3"@) && !n.contains("dc18"@) && !n.contains("dc15"@) && !n.contains("dc12"@) && !n.contains("dc10"@) && !n.contains("dc9"@) && !n.contains("dc85"@) && !n.contains("dc8"@) && !n.contains("dc75"@) && !n.contains("dc7"@) && !n.contains("dc6"@) && !n.contains("dc55"@)) ==> cat_system(n) == Some((6600u16, ElectricSystem::Ac)),
        (n.contains("ac65"@) && !n.contains("ac0k725"@) && !n.contains("ac6k6"@) && !n.contains("ac15"@) && !n.contains("ac11"@) && !n.contains("ac25"@) && !n.contains("dc30"@) && !n.contains("dc3"@) && !n.contains("dc18"@) && !n.contains("dc15"@) && !n.contains("dc12"@) && !n.contains("dc10"@) && !n.contains("dc9"@) && !n.contains("dc85"@) && !n.contains("dc8"@) && !n.contains("dc75"@) && !n.contains("dc7"@) && !n.contains("dc6"@) && !n.contains("dc55"@)) ==> cat_system(n) == Some((6500u16, ElectricSystem::Ac)),
        (n.contains("ac15"@) && !n.contains("ac0k725"@) && !n.contains("ac6k6"@) && !n.contains("ac65"@) && !n.contains("ac11"@) && !n.contains("ac25"@) && !n.contains("dc30"@) && !n.contains("dc3"@) && !n.contains("dc18"@) && !n.contains("dc15"@) && !n.contains("dc12"@) && !n.contains("dc10"@) && !n.contains("dc9"@) && !n.contains("dc85"@) && !n.contains("dc8"@) && !n.contains("dc75"@) && !n.contains("dc7"@) && !n.contains("dc6"@) && !n.contains("dc55"@)) ==> cat_system(n) == Some((15000u16, ElectricSystem::Ac)),
        (n.contains("ac11"@) && !n.contains("ac0k725"@) && !n.contains("ac6k6"@) && !n.contains("ac65"@) && !n.contains("ac15"@) && !n.contains("ac25"@) && !n.contains("dc30"@) && !n.contains("dc3"@) && !n.contains("dc18"@) && !n.contains("dc15"@) && !n.contains("dc12"@) && !n.contains("dc10"@) && !n.contains("dc9"@) && !n.contains("dc85"@) && !n.contains("dc8"@) && !n.contains("dc75"@) && !n.contains("dc7"@) && !n.contains("dc6"@) && !n.contains("dc55"@)) ==> cat_system(n) == Some((11000u16, ElectricSystem::Ac)),
        (n.contains("ac25"@) && !n.contains("ac0k725"@) && !n.contains("ac6k6"@) && !n.contains("ac65"@) && !n.contains("ac15"@) && !n.contains("ac11"@) && !n.contains("dc30"@) && !n.contains("dc3"@) && !n.contains("dc18"@) && !n.contains("dc15"@) && !n.contains("dc12"@) && !n.contains("dc10"@) && !n.contains("dc9"@) && !n.contains("dc85"@) && !n.contains("dc8"@) && !n.contains("dc75"@) && !n.contains("dc7"@) && !n.contains("dc6"@) && !n.contains("dc55"@)) ==> cat_system(n) == Some((25000u16, ElectricSystem::Ac)),
        (n.contains("dc30"@) && !n.contains("ac0k725"@) && !n.contains("ac6k6"@) && !n.contains("ac65"@) && !n.contains("ac15"@) && !n.contains("ac11"@) && !n.contains("ac25"@) && !n.contains("dc3"@) && !n.contains("dc18"@) && !n.contains("dc15"@) && !n.contains("dc12"@) && !n.contains("dc10"@) && !n.contains("dc9"@) && !n.contains("dc85"@) && !n.contains("dc8"@) && !n.contains("dc75"@) && !n.contains("dc7"@) && !n.contains("dc6"@) && !n.contains("dc55"@)) ==> cat_system(n) == Some((3000u16, ElectricSystem::Dc)),
        (n.contains("dc3"@) && !n.contains("ac0k725"@) && !n.contains("ac6k6"@) && !n.contains("ac65"@) && !n.contains("ac15"@) && !n.contains("ac11"@) && !n.contains("ac25"@) && !n.contains("dc30"@) && !n.contains("dc18"@) && !n.contains("dc15"@) && !n.contains("dc12"@) && !n.contains("dc10"@) && !n.contains("dc9"@) && !n.contains("dc85"@) && !n.contains("dc8"@) && !n.contains("dc75"@) && !n.contains("dc7"@) && !n.contains("dc6"@) && !n.contains("dc55"@)) ==> cat_system(n) == Some((3000u16, ElectricSystem::Dc)),
        (n.contains("dc18"@) && !n.contains("ac0k725"@) && !n.contains("ac6k6"@) && !n.contains("ac65"@) && !n.contains("ac15"@) && !n.contains("ac11"@) && !n.contains("ac25"@) && !n.contains("dc30"@) && !n.contains("dc3"@) && !n.contains("dc15"@) && !n.contains("dc12"@) && !n.contains("dc10"@) && !n.contains("dc9"@) && !n.contains("dc85"@) && !n.contains("dc8"@) && !n.contains("dc75"@) && !n.contains("dc7"@) && !n.contains("dc6"@) && !n.contains("dc55"@)) ==> cat_system(n) == Some((1800u16, ElectricSystem::Dc)),
        (n.contains("dc15"@) && !n.contains("ac0k725"@) && !n.contains("ac6k6"@) && !n.contains("ac65"@) && !n.contains("ac15"@) && !n.contains("ac11"@) && !n.contains("ac25"@) && !n.contains("dc30"@) && !n.contains("dc3"@) && !n.contains("dc18"@) && !n.contains("dc12"@) && !n.contains("dc10"@) && !n.contains("dc9"@) && !n.contains("dc85"@) && !n.contains("dc8"@) && !n.contains("dc75"@) && !n.contains("dc7"@) && !n.contains("dc6"@) && !n.contains("dc55"@)) ==> cat_system(n) == Some((1500u16, ElectricSystem::Dc)),
        (n.contains("dc12"@) && !n.contains("ac0k725"@) && !n.contains("ac6k6"@) && !n.contains("ac65"@) && !n.contains("ac15"@) && !n.contains("ac11"@) && !n.contains("ac25"@) && !n.contains("dc30"@) && !n.contains("dc3"@) && !n.contains("dc18"@) && !n.contains("dc15"@) && !n.contains("dc10"@) && !n.contains("dc9"@) && !n.contains("dc85"@) && !n.contains("dc8"@) && !n.contains("dc75"@) && !n.contains("dc7"@) && !n.contains("dc6"@) && !n.contains("dc55"@)) ==> cat_system(n) == Some((1200u16, ElectricSystem::Dc)),
        (n.contains("dc10"@) && !n.contains("ac0k725"@) && !n.contains("ac6k6"@) && !n.contains("ac65"@) && !n.contains("ac15"@) && !n.contains("ac11"@) && !n.contains("ac25"@) && !n.contains("dc30"@) && !n.contains("dc3"@) && !n.contains("dc18"@) && !n.contains("dc15"@) && !n.contains("dc12"@) && !n.contains("dc9"@) && !n.contains("dc85"@) && !n.contains("dc8"@) && !n.contains("dc75"@) && !n.contains("dc7"@) && !n.contains("dc6"@) && !n.contains("dc55"@)) ==> cat_system(n) == Some((1000u16, ElectricSystem::Dc)),
        (n.contains("dc9"@) && !n.contains("ac0k725"@) && !n.contains("ac6k6"@) && !n.contains("ac65"@) && !n.contains("ac15"@) && !n.contains("ac11"@) && !n.contains("ac25"@) && !n.contains("dc30"@) && !n.contains("dc3"@) && !n.contains("dc18"@) && !n.contains("dc15"@) && !n.contains("dc12"@) && !n.contains("dc10"@) && !n.contains("dc85"@) && !n.contains("dc8"@) && !n.contains("dc75"@) && !n.contains("dc7"@) && !n.contains("dc6"@) && !n.contains("dc55"@)) ==> cat_system(n) == Some((900u16, ElectricSystem::Dc)),
        (n.contains("dc85"@) && !n.contains("ac0k725"@) && !n.contains("ac6k6"@) && !n.contains("ac65"@) && !n.contains("ac15"@) && !n.contains("ac11"@) && !n.contains("ac25"@) && !n.contains("dc30"@) && !n.contains("dc3"@) && !n.contains("dc18"@) && !n.contains("dc15"@) && !n.contains("dc12"@) && !n.contains("dc10"@) && !n.contains("dc9"@) && !n.contains("dc8"@) && !n.contains("dc75"@) && !n.contains("dc7"@) && !n.contains("dc6"@) && !n.contains("dc55"@)) ==> cat_system(n) == Some((850u16, ElectricSystem::Dc)),
        (n.contains("dc8"@) && !n.contains("ac0k725"@) && !n.contains("ac6k6"@) && !n.contains("ac65"@) && !n.contains("ac15"@) && !n.contains("ac11"@) && !n.contains("ac25"@) && !n.contains("dc30"@) && !n.contains("dc3"@) && !n.contains("dc18"@) && !n.contains("dc15"@) && !n.contains("dc12"@) && !n.contains("dc10"@) && !n.contains("dc9"@) && !n.contains("dc85"@) && !n.contains("dc75"@) && !n.contains("dc7"@) && !n.contains("dc6"@) && !n.contains("dc55"@)) ==> cat_system(n) == Some((800u16, ElectricSystem::Dc)),
        (n.contains("dc75"@) && !n.contains("ac0k725"@) && !n.contains("ac6k6"@) && !n.contains("ac65"@) && !n.contains("ac15"@) && !n.contains("ac11"@) && !n.contains("ac25"@) && !n.contains("dc30"@) && !n.contains("dc3"@) && !n.contains("dc18"@) && !n.contains("dc15"@) && !n.contains("dc12"@) && !n.contains("dc10"@) && !n.contains("dc9"@) && !n.contains("dc85"@) && !n.contains("dc8"@) && !n.contains("dc7"@) && !n.contains("dc6"@) && !n.contains("dc55"@)) ==> cat_system(n) == Some((750u16, ElectricSystem::Dc)),
        (n.contains("dc7"@) && !n.contains("ac0k725"@) && !n.contains("ac6k6"@) && !n.contains("ac65"@) && !n.contains("ac15"@) && !n.contains("ac11"@) && !n.contains("ac25"@) && !n.contains("dc30"@) && !n.contains("dc3"@) && !n.contains("dc18"@) && !n.contains("dc15"@) && !n.contains("dc12"@) && !n.contains("dc10"@) && !n.contains("dc9"@) && !n.contains("dc85"@) && !n.contains("dc8"@) && !n.contains("dc75"@) && !n.contains("dc6"@) && !n.contains("dc55"@)) ==> cat_system(n) == Some((700u16, ElectricSystem::Dc)),
        (n.contains("dc6"@) && !n.contains("ac0k725"@) && !n.contains("ac6k6"@) && !n.contains("ac65"@) && !n.contains("ac15"@) && !n.contains("ac11"@) && !n.contains("ac25"@) && !n.contains("dc30"@) && !n.contains("dc3"@) && !n.contains("dc18"@) && !n.contains("dc15"@) && !n.contains("dc12"@) && !n.contains("dc10"@) && !n.contains("dc9"@) && !n.contains("dc85"@) && !n.contains("dc8"@) && !n.contains("dc75"@) && !n.contains("dc7"@) && !n.contains("dc55"@)) ==> cat_system(n) == Some((600u16, ElectricSystem::Dc)),
        (n.contains("dc55"@) && !n.contains("ac0k725"@) && !n.contains("ac6k6"@) && !n.contains("ac65"@) && !n.contains("ac15"@) && !n.contains("ac11"@) && !n.contains("ac25"@) && !n.contains("dc30"@) && !n.contains("dc3"@) && !n.contains("dc18"@) && !n.contains("dc15"@) && !n.contains("dc12"@) && !n.contains("dc10"@) && !n.contains("dc9"@) && !n.contains("dc85"@) && !n.contains("dc8"@) && !n.contains("dc75"@) && !n.contains("dc7"@) && !n.contains("dc6"@)) ==> cat_system(n) == Some((550u16, ElectricSystem::Dc)),
        (!n.contains("ac0k725"@) && !n.contains("ac6k6"@) && !n.contains("ac65"@) && !n.contains("ac15"@) && !n.contains("ac11"@) && !n.contains("ac25"@) && !n.contains("dc30"@) && !n.contains("dc3"@) && !n.contains("dc18"@) && !n.contains("dc15"@) && !n.contains("dc12"@) && !n.contains("dc10"@) && !n.contains("dc9"@) && !n.contains("dc85"@) && !n.contains("dc8"@) && !n.contains("dc75"@) && !n.contains("dc7"@) && !n.contains("dc6"@) && !n.contains("dc55"@)) ==> cat_system(n) is None,
{
    reveal(cat_system);
}

/// Each power rail system symbol on its own names its voltage in volts.
pub proof fn law_rail_system_symbols(n: Set<Seq<char>>)
    ensures
        (n.contains("rc12"@) && !n.contains("rc85"@) && !n.contains("rc75"@) && !n.contains("rc63"@)) ==> rail_system(n) == Some(1200u16),
        (n.contains("rc85"@) && !n.contains("rc12"@) && !n.contains("rc75"@) && !n.contains("rc63"@)) ==> rail_system(n) == Some(850u16),
        (n.contains("rc75"@) && !n.contains("rc12"@) && !n.contains("rc85"@) && !n.contains("rc63"@)) ==> rail_system(n) == Some(750u16),
        (n.contains("rc63"@) && !n.contains("rc12"@) && !n.contains("rc85"@) && !n.contains("rc75"@)) ==> rail_system(n) == Some(630u16),
        (!n.contains("rc12"@) && !n.contains("rc85"@) && !n.contains("rc75"@) && !n.contains("rc63"@)) ==> rail_system(n) is None,
{
    reveal(rail_system);
}

/// Each main gauge symbol on its own names its gauge in millimetres.
pub proof fn law_main_gauge_symbols(n: Set<Seq<char>>)
    ensures
        (n.contains("g600"@) && !n.contains("g750"@) && !n.contains("g760"@) && !n.contains("g785"@) && !n.contains("g800"@) && !n.contains("g900"@) && !n.contains("g950"@) && !n.contains("g1000"@) && !n.contains("g1100"@) && !n.contains("g1200"@) && !n.contains("g1435"@) && !n.contains("g1520"@) && !n.contains("g1524"@)) ==> main_gauge(n) == Some(600u16),
        (n.contains("g750"@) && !n.contains("g600"@) && !n.contains("g760"@) && !n.contains("g785"@) && !n.contains("g800"@) && !n.contains("g900"@) && !n.contains("g950"@) && !n.contains("g1000"@) && !n.contains("g1100"@) && !n.contains("g1200"@) && !n.contains("g1435"@) && !n.contains("g1520"@) && !n.contains("g1524"@)) ==> main_gauge(n) == Some(750u16),
        (n.contains("g760"@) && !n.contains("g600"@) && !n.contains("g750"@) && !n.contains("g785"@) && !n.contains("g800"@) && !n.contains("g900"@) && !n.contains("g950"@) && !n.contains("g1000"@) && !n.contains("g1100"@) && !n.contains("g1200"@) && !n.contains("g1435"@) && !n.contains("g1520"@) && !n.contains("g1524"@)) ==> main_gauge(n) == Some(760u16),
        (n.contains("g785"@) && !n.contains("g600"@) && !n.contains("g750"@) && !n.contains("g760"@) && !n.contains("g800"@) && !n.contains("g900"@) && !n.contains("g950"@) && !n.contains("g1000"@) && !n.contains("g1100"@) && !n.contains("g1200"@) && !n.contains("g1435"@) && !n.contains("g1520"@) && !n.contains("g1524"@)) ==> main_gauge(n) == Some(785u16),
        (n.contains("g800"@) && !n.contains("g600"@) && !n.contains("g750"@) && !n.contains("g760"@) && !n.contains("g785"@) && !n.contains("g900"@) && !n.contains("g950"@) && !n.contains("g1000"@) && !n.contains("g1100"@) && !n.contains("g1200"@) && !n.contains("g1435"@) && !n.contains("g1520"@) && !n.contains("g1524"@)) ==> main_gauge(n) == Some(800u16),
        (n.contains("g900"@) && !n.contains("g600"@) && !n.contains("g750"@) && !n.contains("g760"@) && !n.contains("g785"@) && !n.contains("g800"@) && !n.contains("g950"@) && !n.contains("g1000"@) && !n.contains("g1100"@) && !n.contains("g1200"@) && !n.contains("g1435"@) && !n.contains("g1520"@) && !n.contains("g1524"@)) ==> main_gauge(n) == Some(900u16),
        (n.contains("g950"@) && !n.contains("g600"@) && !n.contains("g750"@) && !n.contains("g760"@) && !n.contains("g785"@) && !n.contains("g800"@) && !n.contains("g900"@) && !n.contains("g1000"@) && !n.contains("g1100"@) && !n.contains("g1200"@) && !n.contains("g1435"@) && !n.contains("g1520"@) && !n.contains("g1524"@)) ==> main_gauge(n) == Some(950u16),
        (n.contains("g1000"@) && !n.contains("g600"@) && !n.contains("g750"@) && !n.contains("g760"@) && !n.contains("g785"@) && !n.contains("g800"@) && !n.contains("g900"@) && !n.contains("g950"@) && !n.contains("g1100"@) && !n.contains("g1200"@) && !n.contains("g1435"@) && !n.contains("g1520"@) && !n.contains("g1524"@)) ==> main_gauge(n) == Some(1000u16),
        (n.contains("g1100"@) && !n.contains("g600"@) && !n.contains("g750"@) && !n.contains("g760"@) && !n.contains("g785"@) && !n.contains("g800"@) && !n.contains("g900"@) && !n.contains("g950"@) && !n.contains("g1000"@) && !n.contains("g1200"@) && !n.contains("g1435"@) && !n.contains("g1520"@) && !n.contains("g1524"@)) ==> main_gauge(n) == Some(1100u16),
        (n.contains("g1200"@) && !n.contains("g600"@) && !n.contains("g750"@) && !n.contains("g760"@) && !n.contains("g785"@) && !n.contains("g800"@) && !n.contains("g900"@) && !n.contains("g950"@) && !n.contains("g1000"@) && !n.contains("g1100"@) && !n.contains("g1435"@) && !n.contains("g1520"@) && !n.contains("g1524"@)) ==> main_gauge(n) == Some(1200u16),
        (n.contains("g1435"@) && !n.contains("g600"@) && !n.contains("g750"@) && !n.contains("g760"@) && !n.contains("g785"@) && !n.contains("g800"@) && !n.contains("g900"@) && !n.contains("g950"@) && !n.contains("g1000"@) && !n.contains("g1100"@) && !n.contains("g1200"@) && !n.contains("g1520"@) && !n.contains("g1524"@)) ==> main_gauge(n) == Some(1435u16),
        (n.contains("g1520"@) && !n.contains("g600"@) && !n.contains("g750"@) && !n.contains("g760"@) && !n.contains("g785"@) && !n.contains("g800"@) && !n.contains("g900"@) && !n.contains("g950"@) && !n.contains("g1000"@) && !n.contains("g1100"@) && !n.contains("g1200"@) && !n.contains("g1435"@) && !n.contains("g1524"@)) ==> main_gauge(n) == Some(1520u16),
        (n.contains("g1524"@) && !n.contains("g600"@) && !n.contains("g750"@) && !n.contains("g760"@) && !n.contains("g785"@) && !n.contains("g800"@) && !n.contains("g900"@) && !n.contains("g950"@) && !n.contains("g1000"@) && !n.contains("g1100"@) && !n.contains("g1200"@) && !n.contains("g1435"@) && !n.contains("g1520"@)) ==> main_gauge(n) == Some(1524u16),
        (!n.contains("g600"@) && !n.contains("g750"@) && !n.contains("g760"@) && !n.contains("g785"@) && !n.contains("g800"@) && !n.contains("g900"@) && !n.contains("g950"@) && !n.contains("g1000"@) && !n.contains("g1100"@) && !n.contains("g1200"@) && !n.contains("g1435"@) && !n.contains("g1520"@) && !n.contains("g1524"@)) ==> main_gauge(n) is None,
{
    reveal(main_gauge);
}

/// Each secondary gauge symbol on its own names its gauge in millimetres.
pub proof fn law_secondary_gauge_symbols(n: Set<Seq<char>>)
    ensures
        (n.contains("gg750"@) && !n.contains("gg1000"@) && !n.contains("gg1435"@)) ==> secondary_gauge(n) == Some(750u16),
        (n.contains("gg1000"@) && !n.contains("gg750"@) && !n.contains("gg1435"@)) ==> secondary_gauge(n) == Some(1000u16),
        (n.contains("gg1435"@) && !n.contains("gg750"@) && !n.contains("gg1000"@)) ==> secondary_gauge(n) == Some(1435u16),
        (!n.contains("gg750"@) && !n.contains("gg1000"@) && !n.contains("gg1435"@)) ==> secondary_gauge(n) is None,
{
    reveal(secondary_gauge);
}

/// An overhead line is in use with `:cat` and removed with `:excat`, and
/// has the voltage and current of its one named system, or none if no
/// system is named.
pub proof fn law_cat_symbols(n: Set<Seq<char>>)
    ensures
        n.contains("cat"@) ==> (ElectricCat::spec_from(n) matches Some(c) && c.status == ElectricStatus::Open),
        (n.contains("excat"@) && !n.contains("cat"@)) ==> (ElectricCat::spec_from(n) matches Some(c) && c.status == ElectricStatus::Removed),
        (!n.contains("cat"@) && !n.contains("excat"@)) ==> ElectricCat::spec_from(n) is None,
        (n.contains("cat"@) && n.remove("cat"@).contains("ac0k725"@) && !n.remove("cat"@).contains("ac6k6"@) && !n.remove("cat"@).contains("ac65"@) && !n.remove("cat"@).contains("ac15"@) && !n.remove("cat"@).contains("ac11"@) && !n.remove("cat"@).contains("ac25"@) && !n.remove("cat"@).contains("dc30"@) && !n.remove("cat"@).contains("dc3"@) && !n.remove("cat"@).contains("dc18"@) && !n.remove("cat"@).contains("dc15"@) && !n.remove("cat"@).contains("dc12"@) && !n.remove("cat"@).contains("dc10"@) && !n.remove("cat"@).contains("dc9"@) && !n.remove("cat"@).contains("dc85"@) && !n.remove("cat"@).contains("dc8"@) && !n.remove("cat"@).contains("dc75"@) && !n.remove("cat"@).contains("dc7"@) && !n.remove("cat"@).contains("dc6"@) && !n.remove("cat"@).contains("dc55"@)) ==> ElectricCat::spec_from(n) == Some(ElectricCat { status: ElectricStatus::Open, voltage: Some(725u16), system: Some(ElectricSystem::Ac) }),
        (n.contains("cat"@) && n.remove("cat"@).contains("ac6k6"@) && !n.remove("cat"@).contains("ac0k725"@) && !n.remove("cat"@).contains("ac65"@) && !n.remove("cat"@).contains("ac15"@) && !n.remove("cat"@).contains("ac11"@) && !n.remove("cat"@).contains("ac25"@) && !n.remove("cat"@).contains("dc30"@) && !n.remove("cat"@).contains("dc3"@) && !n.remove("cat"@).contains("dc18"@) && !n.remove("cat"@).contains("dc15"@) && !n.remove("cat"@).contains("dc12"@) && !n.remove("cat"@).contains("dc10"@) && !n.remove("cat"@).contains("dc9"@) && !n.remove("cat"@).contains("dc85"@) && !n.remove("cat"@).contains("dc8"@) && !n.remove("cat"@).contains("dc75"@) && !n.remove("cat"@).contains("dc7"@) && !n.remove("cat"@).contains("dc6"@) && !n.remove("cat"@).contains("dc55"@)) ==> ElectricCat::spec_from(n) == Some(ElectricCat { status: ElectricStatus::Open, voltage: Some(6600u16), system: Some(ElectricSystem::Ac) }),
        (n.contains("cat"@) && n.remove("cat"@).contains("ac65"@) && !n.remove("cat"@).contains("ac0k725"@) && !n.remove("cat"@).contains("ac6k6"@) && !n.remove("cat"@).contains("ac15"@) && !n.remove("cat"@).contains("ac11"@) && !n.remove("cat"@).contains("ac25"@) && !n.remove("cat"@).contains("dc30"@) && !n.remove("cat"@).contains("dc3"@) && !n.remove("cat"@).contains("dc18"@) && !n.remove("cat"@).contains("dc15"@) && !n.remove("cat"@).contains("dc12"@) && !n.remove("cat"@).contains("dc10"@) && !n.remove("cat"@).contains("dc9"@) && !n.remove("cat"@).contains("dc85"@) && !n.remove("cat"@).contains("dc8"@) && !n.remove("cat"@).contains("dc75"@) && !n.remove("cat"@).contains("dc7"@) && !n.remove("cat"@).contains("dc6"@) && !n.remove("cat"@).contains("dc55"@)) ==> ElectricCat::spec_from(n) == Some(ElectricCat { status: ElectricStatus::Open, voltage: Some(6500u16), system: Some(ElectricSystem::Ac) }),
        (n.contains("cat"@) && n.remove("cat"@).contains("ac15"@) && !n.remove("cat"@).contains("ac0k725"@) && !n.remove("cat"@).contains("ac6k6"@) && !n.remove("cat"@).contains("ac65"@) && !n.remove("cat"@).contains("ac11"@) && !n.remove("cat"@).contains("ac25"@) && !n.remove("cat"@).contains("dc30"@) && !n.remove("cat"@).contains("dc3"@) && !n.remove("cat"@).contains("dc18"@) && !n.remove("cat"@).contains("dc15"@) && !n.remove("cat"@).contains("dc12"@) && !n.remove("cat"@).contains("dc10"@) && !n.remove("cat"@).contains("dc9"@) && !n.remove("cat"@).contains("dc85"@) && !n.remove("cat"@).contains("dc8"@) && !n.remove("cat"@).contains("dc75"@) && !n.remove("cat"@).contains("dc7"@) && !n.remove("cat"@).contains("dc6"@) && !n.remove("cat"@).contains("dc55"@)) ==> ElectricCat::spec_from(n) == Some(ElectricCat { status: ElectricStatus::Open, voltage: Some(15000u16), system: Some(ElectricSystem::Ac) }),
        (n.contains("cat"@) && n.remove("cat"@).contains("ac11"@) && !n.remove("cat"@).contains("ac0k725"@) && !n.remove("cat"@).contains("ac6k6"@) && !n.remove("cat"@).contains("ac65"@) && !n.remove("cat"@).contains("ac15"@) && !n.remove("cat"@).contains("ac25"@) && !n.remove("cat"@).contains("dc30"@) && !n.remove("cat"@).contains("dc3"@) && !n.remove("cat"@).contains("dc18"@) && !n.remove("cat"@).contains("dc15"@) && !n.remove("cat"@).contains("dc12"@) && !n.remove("cat"@).contains("dc10"@) && !n.remove("cat"@).contains("dc9"@) && !n.remove("cat"@).contains("dc85"@) && !n.remove("cat"@).contains("dc8"@) && !n.remove("cat"@).contains("dc75"@) && !n.remove("cat"@).contains("dc7"@) && !n.remove("cat"@).contains("dc6"@) && !n.remove("cat"@).contains("dc55"@)) ==> ElectricCat::spec_from(n) == Some(ElectricCat { status: ElectricStatus::Open, voltage: Some(11000u16), system: Some(ElectricSystem::Ac) }),
        (n.contains("cat"@) && n.remove("cat"@).contains("ac25"@) && !n.remove("cat"@).contains("ac0k725"@) && !n.remove("cat"@).contains("ac6k6"@) && !n.remove("cat"@).contains("ac65"@) && !n.remove("cat"@).contains("ac15"@) && !n.remove("cat"@).contains("ac11"@) && !n.remove("cat"@).contains("dc30"@) && !n.remove("cat"@).contains("dc3"@) && !n.remove("cat"@).contains("dc18"@) && !n.remove("cat"@).contains("dc15"@) && !n.remove("cat"@).contains("dc12"@) && !n.remove("cat"@).contains("dc10"@) && !n.remove("cat"@).contains("dc9"@) && !n.remove("cat"@).contains("dc85"@) && !n.remove("cat"@).contains("dc8"@) && !n.remove("cat"@).contains("dc75"@) && !n.remove("cat"@).contains("dc7"@) && !n.remove("cat"@).contains("dc6"@) && !n.remove("cat"@).contains("dc55"@)) ==> ElectricCat::spec_from(n) == Some(ElectricCat { status: ElectricStatus::Open, voltage: Some(25000u16), system: Some(ElectricSystem::Ac) }),
        (n.contains("cat"@) && n.remove("cat"@).contains("dc30"@) && !n.remove("cat"@).contains("ac0k725"@) && !n.remove("cat"@).contains("ac6k6"@) && !n.remove("cat"@).contains("ac65"@) && !n.remove("cat"@).contains("ac15"@) && !n.remove("cat"@).contains("ac11"@) && !n.remove("cat"@).contains("ac25"@) && !n.remove("cat"@).contains("dc3"@) && !n.remove("cat"@).contains("dc18"@) && !n.remove("cat"@).contains("dc15"@) && !n.remove("cat"@).contains("dc12"@) && !n.remove("cat"@).contains("dc10"@) && !n.remove("cat"@).contains("dc9"@) && !n.remove("cat"@).contains("dc85"@) && !n.remove("cat"@).contains("dc8"@) && !n.remove("cat"@).contains("dc75"@) && !n.remove("cat"@).contains("dc7"@) && !n.remove("cat"@).contains("dc6"@) && !n.remove("cat"@).contains("dc55"@)) ==> ElectricCat::spec_from(n) == Some(ElectricCat { status: ElectricStatus::Open, voltage: Some(3000u16), system: Some(ElectricSystem::Dc) }),
        (n.contains("cat"@) && n.remove("cat"@).contains("dc3"@) && !n.remove("cat"@).contains("ac0k725"@) && !n.remove("cat"@).contains("ac6k6"@) && !n.remove("cat"@).contains("ac65"@) && !n.remove("cat"@).contains("ac15"@) && !n.remove("cat"@).contains("ac11"@) && !n.remove("cat"@).contains("ac25"@) && !n.remove("cat"@).contains("dc30"@) && !n.remove("cat"@).contains("dc18"@) && !n.remove("cat"@).contains("dc15"@) && !n.remove("cat"@).contains("dc12"@) && !n.remove("cat"@).contains("dc10"@) && !n.remove("cat"@).contains("dc9"@) && !n.remove("cat"@).contains("dc85"@) && !n.remove("cat"@).contains("dc8"@) && !n.remove("cat"@).contains("dc75"@) && !n.remove("cat"@).contains("dc7"@) && !n.remove("cat"@).contains("dc6"@) && !n.remove("cat"@).contains("dc55"@)) ==> ElectricCat::spec_from(n) == Some(ElectricCat { status: ElectricStatus::Open, voltage: Some(3000u16), system: Some(ElectricSystem::Dc) }),
        (n.contains("cat"@) && n.remove("cat"@).contains("dc18"@) && !n.remove("cat"@).contains("ac0k725"@) && !n.remove("cat"@).contains("ac6k6"@) && !n.remove("cat"@).contains("ac65"@) && !n.remove("cat"@).contains("ac15"@) && !n.remove("cat"@).contains("ac11"@) && !n.remove("cat"@).contains("ac25"@) && !n.remove("cat"@).contains("dc30"@) && !n.remove("cat"@).contains("dc3"@) && !n.remove("cat"@).contains("dc15"@) && !n.remove("cat"@).contains("dc12"@) && !n.remove("cat"@).contains("dc10"@) && !n.remove("cat"@).contains("dc9"@) && !n.remove("cat"@).contains("dc85"@) && !n.remove("cat"@).contains("dc8"@) && !n.remove("cat"@).contains("dc75"@) && !n.remove("cat"@).contains("dc7"@) && !n.remove("cat"@).contains("dc6"@) && !n.remove("cat"@).contains("dc55"@)) ==> ElectricCat::spec_from(n) == Some(ElectricCat { status: ElectricStatus::Open, voltage: Some(1800u16), system: Some(ElectricSystem::Dc) }),
        (n.contains("cat"@) && n.remove("cat"@).contains("dc15"@) && !n.remove("cat"@).contains("ac0k725"@) && !n.remove("cat"@).contains("ac6k6"@) && !n.remove("cat"@).contains("ac65"@) && !n.remove("cat"@).contains("ac15"@) && !n.remove("cat"@).contains("ac11"@) && !n.remove("cat"@).contains("ac25"@) && !n.remove("cat"@).contains("dc30"@) && !n.remove("cat"@).contains("dc3"@) && !n.remove("cat"@).contains("dc18"@) && !n.remove("cat"@).contains("dc12"@) && !n.remove("cat"@).contains("dc10"@) && !n.remove("cat"@).contains("dc9"@) && !n.remove("cat"@).contains("dc85"@) && !n.remove("cat"@).contains("dc8"@) && !n.remove("cat"@).contains("dc75"@) && !n.remove("cat"@).contains("dc7"@) && !n.remove("cat"@).contains("dc6"@) && !n.remove("cat"@).contains("dc55"@)) ==> ElectricCat::spec_from(n) == Some(ElectricCat { status: ElectricStatus::Open, voltage: Some(1500u16), system: Some(ElectricSystem::Dc) }),
        (n.contains("cat"@) && n.remove("cat"@).contains("dc12"@) && !n.remove("cat"@).contains("ac0k725"@) && !n.remove("cat"@).contains("ac6k6"@) && !n.remove("cat"@).contains("ac65"@) && !n.remove("cat"@).contains("ac15"@) && !n.remove("cat"@).contains("ac11"@) && !n.remove("cat"@).contains("ac25"@) && !n.remove("cat"@).contains("dc30"@) && !n.remove("cat"@).contains("dc3"@) && !n.remove("cat"@).contains("dc18"@) && !n.remove("cat"@).contains("dc15"@) && !n.remove("cat"@).contains("dc10"@) && !n.remove("cat"@).contains("dc9"@) && !n.remove("cat"@).contains("dc85"@) && !n.remove("cat"@).contains("dc8"@) && !n.remove("cat"@).contains("dc75"@) && !n.remove("cat"@).contains("dc7"@) && !n.remove("cat"@).contains("dc6"@) && !n.remove("cat"@).contains("dc55"@)) ==> ElectricCat::spec_from(n) == Some(ElectricCat { status: ElectricStatus::Open, voltage: Some(1200u16), system: Some(ElectricSystem::Dc) }),
        (n.contains("cat"@) && n.remove("cat"@).contains("dc10"@) && !n.remove("cat"@).contains("ac0k725"@) && !n.remove("cat"@).contains("ac6k6"@) && !n.remove("cat"@).contains("ac65"@) && !n.remove("cat"@).contains("ac15"@) && !n.remove("cat"@).contains("ac11"@) && !n.remove("cat"@).contains("ac25"@) && !n.remove("cat"@).contains("dc30"@) && !n.remove("cat"@).contains("dc3"@) && !n.remove("cat"@).contains("dc18"@) && !n.remove("cat"@).contains("dc15"@) && !n.remove("cat"@).contains("dc12"@) && !n.remove("cat"@).contains("dc9"@) && !n.remove("cat"@).contains("dc85"@) && !n.remove("cat"@).contains("dc8"@) && !n.remove("cat"@).contains("dc75"@) && !n.remove("cat"@).contains("dc7"@) && !n.remove("cat"@).contains("dc6"@) && !n.remove("cat"@).contains("dc55"@)) ==> ElectricCat::spec_from(n) == Some(ElectricCat { status: ElectricStatus::Open, voltage: Some(1000u16), system: Some(ElectricSystem::Dc) }),
        (n.contains("cat"@) && n.remove("cat"@).contains("dc9"@) && !n.remove("cat"@).contains("ac0k725"@) && !n.remove("cat"@).contains("ac6k6"@) && !n.remove("cat"@).contains("ac65"@) && !n.remove("cat"@).contains("ac15"@) && !n.remove("cat"@).contains("ac11"@) && !n.remove("cat"@).contains("ac25"@) && !n.remove("cat"@).contains("dc30"@) && !n.remove("cat"@).contains("dc3"@) && !n.remove("cat"@).contains("dc18"@) && !n.remove("cat"@).contains("dc15"@) && !n.remove("cat"@).contains("dc12"@) && !n.remove("cat"@).contains("dc10"@) && !n.remove("cat"@).contains("dc85"@) && !n.remove("cat"@).contains("dc8"@) && !n.remove("cat"@).contains("dc75"@) && !n.remove("cat"@).contains("dc7"@) && !n.remove("cat"@).contains("dc6"@) && !n.remove("cat"@).contains("dc55"@)) ==> ElectricCat::spec_from(n) == Some(ElectricCat { status: ElectricStatus::Open, voltage: Some(900u16), system: Some(ElectricSystem::Dc) }),
        (n.contains("cat"@) && n.remove("cat"@).contains("dc85"@) && !n.remove("cat"@).contains("ac0k725"@) && !n.remove("cat"@).contains("ac6k6"@) && !n.remove("cat"@).contains("ac65"@) && !n.remove("cat"@).contains("ac15"@) && !n.remove("cat"@).contains("ac11"@) && !n.remove("cat"@).contains("ac25"@) && !n.remove("cat"@).contains("dc30"@) && !n.remove("cat"@).contains("dc3"@) && !n.remove("cat"@).contains("dc18"@) && !n.remove("cat"@).contains("dc15"@) && !n.remove("cat"@).contains("dc12"@) && !n.remove("cat"@).contains("dc10"@) && !n.remove("cat"@).contains("dc9"@) && !n.remove("cat"@).contains("dc8"@) && !n.remove("cat"@).contains("dc75"@) && !n.remove("cat"@).contains("dc7"@) && !n.remove("cat"@).contains("dc6"@) && !n.remove("cat"@).contains("dc55"@)) ==> ElectricCat::spec_from(n) == Some(ElectricCat { status: ElectricStatus::Open, voltage: Some(850u16), system: Some(ElectricSystem::Dc) }),
        (n.contains("cat"@) && n.remove("cat"@).contains("dc8"@) && !n.remove("cat"@).contains("ac0k725"@) && !n.remove("cat"@).contains("ac6k6"@) && !n.remove("cat"@).contains("ac65"@) && !n.remove("cat"@).contains("ac15"@) && !n.remove("cat"@).contains("ac11"@) && !n.remove("cat"@).contains("ac25"@) && !n.remove("cat"@).contains("dc30"@) && !n.remove("cat"@).contains("dc3"@) && !n.remove("cat"@).contains("dc18"@) && !n.remove("cat"@).contains("dc15"@) && !n.remove("cat"@).contains("dc12"@) && !n.remove("cat"@).contains("dc10"@) && !n.remove("cat"@).contains("dc9"@) && !n.remove("cat"@).contains("dc85"@) && !n.remove("cat"@).contains("dc75"@) && !n.remove("cat"@).contains("dc7"@) && !n.remove("cat"@).contains("dc6"@) && !n.remove("cat"@).contains("dc55"@)) ==> ElectricCat::spec_from(n) == Some(ElectricCat { status: ElectricStatus::Open, voltage: Some(800u16), system: Some(ElectricSystem::Dc) }),
        (n.contains("cat"@) && n.remove("cat"@).contains("dc75"@) && !n.remove("cat"@).contains("ac0k725"@) && !n.remove("cat"@).contains("ac6k6"@) && !n.remove("cat"@).contains("ac65"@) && !n.remove("cat"@).contains("ac15"@) && !n.remove("cat"@).contains("ac11"@) && !n.remove("cat"@).contains("ac25"@) && !n.remove("cat"@).contains("dc30"@) && !n.remove("cat"@).contains("dc3"@) && !n.remove("cat"@).contains("dc18"@) && !n.remove("cat"@).contains("dc15"@) && !n.remove("cat"@).contains("dc12"@) && !n.remove("cat"@).contains("dc10"@) && !n.remove("cat"@).contains("dc9"@) && !n.remove("cat"@).contains("dc85"@) && !n.remove("cat"@).contains("dc8"@) && !n.remove("cat"@).contains("dc7"@) && !n.remove("cat"@).contains("dc6"@) && !n.remove("cat"@).contains("dc55"@)) ==> ElectricCat::spec_from(n) == Some(ElectricCat { status: ElectricStatus::Open, voltage: Some(750u16), system: Some(ElectricSystem::Dc) }),
        (n.contains("cat"@) && n.remove("cat"@).contains("dc7"@) && !n.remove("cat"@).contains("ac0k725"@) && !n.remove("cat"@).contains("ac6k6"@) && !n.remove("cat"@).contains("ac65"@) && !n.remove("cat"@).contains("ac15"@) && !n.remove("cat"@).contains("ac11"@) && !n.remove("cat"@).contains("ac25"@) && !n.remove("cat"@).contains("dc30"@) && !n.remove("cat"@).contains("dc3"@) && !n.remove("cat"@).contains("dc18"@) && !n.remove("cat"@).contains("dc15"@) && !n.remove("cat"@).contains("dc12"@) && !n.remove("cat"@).contains("dc10"@) && !n.remove("cat"@).contains("dc9"@) && !n.remove("cat"@).contains("dc85"@) && !n.remove("cat"@).contains("dc8"@) && !n.remove("cat"@).contains("dc75"@) && !n.remove("cat"@).contains("dc6"@) && !n.remove("cat"@).contains("dc55"@)) ==> ElectricCat::spec_from(n) == Some(ElectricCat { status: ElectricStatus::Open, voltage: Some(700u16), system: Some(ElectricSystem::Dc) }),
        (n.contains("cat"@) && n.remove("cat"@).contains("dc6"@) && !n.remove("cat"@).contains("ac0k725"@) && !n.remove("cat"@).contains("ac6k6"@) && !n.remove("cat"@).contains("ac65"@) && !n.remove("cat"@).contains("ac15"@) && !n.remove("cat"@).contains("ac11"@) && !n.remove("cat"@).contains("ac25"@) && !n.remove("cat"@).contains("dc30"@) && !n.remove("cat"@).contains("dc3"@) && !n.remove("cat"@).contains("dc18"@) && !n.remove("cat"@).contains("dc15"@) && !n.remove("cat"@).contains("dc12"@) && !n.remove("cat"@).contains("dc10"@) && !n.remove("cat"@).contains("dc9"@) && !n.remove("cat"@).contains("dc85"@) && !n.remove("cat"@).contains("dc8"@) && !n.remove("cat"@).contains("dc75"@) && !n.remove("cat"@).contains("dc7"@) && !n.remove("cat"@).contains("dc55"@)) ==> ElectricCat::spec_from(n) == Some(ElectricCat { status: ElectricStatus::Open, voltage: Some(600u16), system: Some(ElectricSystem::Dc) }),
        (n.contains("cat"@) && n.remove("cat"@).contains("dc55"@) && !n.remove("cat"@).contains("ac0k725"@) && !n.remove("cat"@).contains("ac6k6"@) && !n.remove("cat"@).contains("ac65"@) && !n.remove("cat"@).contains("ac15"@) && !n.remove("cat"@).contains("ac11"@) && !n.remove("cat"@).contains("ac25"@) && !n.remove("cat"@).contains("dc30"@) && !n.remove("cat"@).contains("dc3"@) && !n.remove("cat"@).contains("dc18"@) && !n.remove("cat"@).contains("dc15"@) && !n.remove("cat"@).contains("dc12"@) && !n.remove("cat"@).contains("dc10"@) && !n.remove("cat"@).contains("dc9"@) && !n.remove("cat"@).contains("dc85"@) && !n.remove("cat"@).contains("dc8"@) && !n.remove("cat"@).contains("dc75"@) && !n.remove("cat"@).contains("dc7"@) && !n.remove("cat"@).contains("dc6"@)) ==> ElectricCat::spec_from(n) == Some(ElectricCat { status: ElectricStatus::Open, voltage: Some(550u16), system: Some(ElectricSystem::Dc) }),
        (n.contains("cat"@) && !n.remove("cat"@).contains("ac0k725"@) && !n.remove("cat"@).contains("ac6k6"@) && !n.remove("cat"@).contains("ac65"@) && !n.remove("cat"@).contains("ac15"@) && !n.remove("cat"@).contains("ac11"@) && !n.remove("cat"@).contains("ac25"@) && !n.remove("cat"@).contains("dc30"@) && !n.remove("cat"@).contains("dc3"@) && !n.remove("cat"@).contains("dc18"@) && !n.remove("cat"@).contains("dc15"@) && !n.remove("cat"@).contains("dc12"@) && !n.remove("cat"@).contains("dc10"@) && !n.remove("cat"@).contains("dc9"@) && !n.remove("cat"@).contains("dc85"@) && !n.remove("cat"@).contains("dc8"@) && !n.remove("cat"@).contains("dc75"@) && !n.remove("cat"@).contains("dc7"@) && !n.remove("cat"@).contains("dc6"@) && !n.remove("cat"@).contains("dc55"@)) ==> ElectricCat::spec_from(n) == Some(ElectricCat { status: ElectricStatus::Open, voltage: None, system: None }),
{
    reveal(ElectricCat::spec_from);
    law_cat_system_symbols(n.remove("cat"@));
}

/// A power rail is in use with `:rail` or `:rail4` and removed with
/// `:exrail` or `:exrail4`, the latter two being fourth rail systems, and
/// has the voltage of its one named system.
pub proof fn law_rail_symbols(n: Set<Seq<char>>)
    ensures
        (n.contains("rail"@)) ==> (ElectricRail::spec_from(n) matches Some(r) && r.status == ElectricStatus::Open && r.fourth == false),
        (n.contains("exrail"@) && !n.contains("rail"@)) ==> (ElectricRail::spec_from(n) matches Some(r) && r.status == ElectricStatus::Removed && r.fourth == false),
        (n.contains("rail4"@) && !n.contains("rail"@) && !n.contains("exrail"@)) ==> (ElectricRail::spec_from(n) matches Some(r) && r.status == ElectricStatus::Open && r.fourth == true),
        (n.contains("exrail4"@) && !n.contains("rail"@) && !n.contains("exrail"@) && !n.contains("rail4"@)) ==> (ElectricRail::spec_from(n) matches Some(r) && r.status == ElectricStatus::Removed && r.fourth == true),
        (!n.contains("rail"@) && !n.contains("exrail"@) && !n.contains("rail4"@) && !n.contains("exrail4"@)) ==> ElectricRail::spec_from(n) is None,
        (n.contains("rail"@) && n.remove("rail"@).contains("rc12"@) && !n.remove("rail"@).contains("rc85"@) && !n.remove("rail"@).contains("rc75"@) && !n.remove("rail"@).contains("rc63"@)) ==> ElectricRail::spec_from(n) == Some(ElectricRail { status: ElectricStatus::Open, voltage: Some(1200u16), fourth: false }),
        (n.contains("rail"@) && n.remove("rail"@).contains("rc85"@) && !n.remove("rail"@).contains("rc12"@) && !n.remove("rail"@).contains("rc75"@) && !n.remove("rail"@).contains("rc63"@)) ==> ElectricRail::spec_from(n) == Some(ElectricRail { status: ElectricStatus::Open, voltage: Some(850u16), fourth: false }),
        (n.contains("rail"@) && n.remove("rail"@).contains("rc75"@) && !n.remove("rail"@).contains("rc12"@) && !n.remove("rail"@).contains("rc85"@) && !n.remove("rail"@).contains("rc63"@)) ==> ElectricRail::spec_from(n) == Some(ElectricRail { status: ElectricStatus::Open, voltage: Some(750u16), fourth: false }),
        (n.contains("rail"@) && n.remove("rail"@).contains("rc63"@) && !n.remove("rail"@).contains("rc12"@) && !n.remove("rail"@).contains("rc85"@) && !n.remove("rail"@).contains("rc75"@)) ==> ElectricRail::spec_from(n) == Some(ElectricRail { status: ElectricStatus::Open, voltage: Some(630u16), fourth: false }),
{
    reveal(ElectricRail::spec_from);
    law_rail_system_symbols(n.remove("rail"@));
}

/// Each status symbol on its own selects its status: `exproject` an
/// abandoned project, `project` a planned one, or an abandoned one together
/// with `removed`; then `open`, `closed`, `removed` and `gone`.
pub proof fn law_status_symbols(n: Set<Seq<char>>)
    ensures
        n.contains("exproject"@) ==> Status::spec_from(n) == Some(Status::Explanned),
        (n.contains("project"@) && !n.contains("exproject"@) && !n.contains("removed"@)) ==> Status::spec_from(n) == Some(Status::Planned),
        (n.contains("project"@) && !n.contains("exproject"@) && n.contains("removed"@)) ==> Status::spec_from(n) == Some(Status::Explanned),
        (n.contains("open"@) && !n.contains("exproject"@) && !n.contains("project"@) && !n.contains("closed"@) && !n.contains("removed"@) && !n.contains("gone"@)) ==> Status::spec_from(n) == Some(Status::Open),
        (n.contains("closed"@) && !n.contains("exproject"@) && !n.contains("project"@) && !n.contains("open"@) && !n.contains("removed"@) && !n.contains("gone"@)) ==> Status::spec_from(n) == Some(Status::Closed),
        (n.contains("removed"@) && !n.contains("exproject"@) && !n.contains("project"@) && !n.contains("open"@) && !n.contains("closed"@) && !n.contains("gone"@)) ==> Status::spec_from(n) == Some(Status::Removed),
        (n.contains("gone"@) && !n.contains("exproject"@) && !n.contains("project"@) && !n.contains("open"@) && !n.contains("closed"@) && !n.contains("removed"@)) ==> Status::spec_from(n) == Some(Status::Gone),
        (!n.contains("exproject"@) && !n.contains("project"@) && !n.contains("open"@) && !n.contains("closed"@) && !n.contains("removed"@) && !n.contains("gone"@)) ==> Status::spec_from(n) is None,
{
    reveal(Status::spec_from);
    reveal_strlit("project");
    reveal_strlit("removed");
    assert("project"@[0] != "removed"@[0]);
}

/// `double` marks double track and `single` single track.
pub proof fn law_double_symbols(n: Set<Seq<char>>)
    ensures
        n.contains("double"@) ==> double_from(n) == Some(true),
        (n.contains("single"@) && !n.contains("double"@)) ==> double_from(n) == Some(false),
        (!n.contains("single"@) && !n.contains("double"@)) ==> double_from(n) is None,
{
    reveal(double_from);
}

/// A gauge needs a main gauge; it then has that main gauge and the
/// secondary gauge named by the remaining symbols.
pub proof fn law_gauge_symbols(n: Set<Seq<char>>)
    ensures
        main_gauge(n) is None ==> Gauge::spec_from(n) is None,
        main_gauge(n) matches Some(m) ==> (Gauge::spec_from(n) matches Some(g) && g.spec_main() == m
            && g.spec_secondary() == secondary_gauge(main_gauge_rest(n))),
{
    reveal(Gauge::spec_from);
}

} // verus!
