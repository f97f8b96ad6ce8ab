//! The properties of dot markers.

use vstd::prelude::*;
use crate::symbols::SymbolSet;
use crate::class::{Railway, Status, Pax, railway_rest};
use crate::import::load::Failed;

verus! {

//------------ Size ----------------------------------------------------------

/// The size of a dot.
#[derive(Clone, Copy, Debug, PartialEq, Eq, Structural)]
pub enum Size {
    Small,
    Medium,
    Large,
}

/// The size that the symbols `n` select; medium unless they say otherwise.
pub open spec fn size_of(n: Set<Seq<char>>) -> Size {
    if n.contains("small"@) {
        Size::Small
    } else if n.contains("large"@) {
        Size::Large
    } else {
        Size::Medium
    }
}

/// The symbols left after the size was taken.
pub open spec fn size_rest(n: Set<Seq<char>>) -> Set<Seq<char>> {
    if n.contains("small"@) {
        n.remove("small"@)
    } else if n.contains("large"@) {
        n.remove("large"@)
    } else {
        n.remove("medium"@)
    }
}

impl Size {
    /// Takes the size of a dot out of the symbols.
    pub fn from_symbols(symbols: &mut SymbolSet) -> (res: Self)
        requires
            old(symbols).wf(),
        ensures
            final(symbols).wf(),
            res == size_of(old(symbols)@),
            final(symbols)@ == size_rest(old(symbols)@),
    {
        if symbols.take("small") {
            Size::Small
        } else if symbols.take("large") {
            Size::Large
        } else if symbols.take("medium") {
            Size::Medium
        } else {
            Size::Medium
        }
    }
}

//------------ Inner ---------------------------------------------------------

/// How the inside of a dot is drawn.
#[derive(Clone, Copy, Debug, PartialEq, Eq, Structural)]
pub enum Inner {
    /// The inside is not drawn.
    NoInner,
    Fill,
    Stroke,
}

impl Default for Inner {
    fn default() -> (res: Self)
        ensures
            res == Inner::Fill,
    {
        Inner::Fill
    }
}

/// The inside that the symbols `n` select for a dot of the given class.
///
/// Without a symbol, the dots of open lines without full passenger service
/// are stroked and all others filled.
pub open spec fn inner_of(class: Railway, n: Set<Seq<char>>) -> Inner {
    if n.contains("filled"@) {
        Inner::Fill
    } else if n.contains("open"@) {
        Inner::Stroke
    } else if n.contains("casing"@) {
        Inner::NoInner
    } else if (class.opt_status() is None || class.opt_status() == Some(Status::Open))
        && class.opt_pax() != Some(Pax::Full) {
        Inner::Stroke
    } else {
        Inner::Fill
    }
}

/// The symbols left after the inside was taken; `casing` stays.
pub open spec fn inner_rest(n: Set<Seq<char>>) -> Set<Seq<char>> {
    if n.contains("filled"@) {
        n.remove("filled"@)
    } else {
        n.remove("open"@)
    }
}

impl Inner {
    /// Takes the inside of a dot out of the symbols.
    pub fn from_symbols(class: &Railway, symbols: &mut SymbolSet) -> (res: Self)
        requires
            old(symbols).wf(),
        ensures
            final(symbols).wf(),
            res == inner_of(*class, old(symbols)@),
            final(symbols)@ == inner_rest(old(symbols)@),
    {
        if symbols.take("filled") {
            Inner::Fill
        } else if symbols.take("open") {
            Inner::Stroke
        } else if symbols.contains("casing") {
            Inner::NoInner
        } else if class.is_open_no_pax() {
            Inner::Stroke
        } else {
            Inner::Fill
        }
    }
}

//------------ DotMarker -----------------------------------------------------

/// Whether the symbols `n` ask for casing around a dot: yes unless they say
/// `over`.
pub open spec fn casing_of(n: Set<Seq<char>>) -> bool {
    n.contains("casing"@) || !n.contains("over"@)
}

/// The symbols left after the casing was taken.
pub open spec fn casing_rest(n: Set<Seq<char>>) -> Set<Seq<char>> {
    if n.contains("casing"@) {
        n.remove("casing"@)
    } else {
        n.remove("over"@)
    }
}

/// The kind of a station dot that the symbols `n` name, as its size,
/// inside and casing.
pub open spec fn dot_kind_of(n: Set<Seq<char>>) -> Option<(Size, Inner, bool)> {
    if n.contains("statdot"@) {
        Some((Size::Medium, Inner::Fill, true))
    } else if n.contains("dot.filled"@) {
        Some((Size::Medium, Inner::Fill, false))
    } else if n.contains("dot.casing"@) {
        Some((Size::Medium, Inner::NoInner, true))
    } else {
        None
    }
}

/// The symbols left after the kind of a station dot was taken.
pub open spec fn dot_kind_rest(n: Set<Seq<char>>) -> Set<Seq<char>> {
    if n.contains("statdot"@) {
        n.remove("statdot"@)
    } else if n.contains("dot.filled"@) {
        n.remove("dot.filled"@)
    } else {
        n.remove("dot.casing"@)
    }
}

/// The symbols left after the size, class, inside and casing of a dot
/// were taken.
pub open spec fn dot_rest(n: Set<Seq<char>>) -> Set<Seq<char>> {
    casing_rest(inner_rest(railway_rest(size_rest(n))))
}

/// The rendering rule for a dot marker attached to a position of type `P`.
#[derive(Clone, Copy, Debug)]
pub struct DotMarker<P> {
    /// The position the marker is attached to.
    position: P,
    /// The feature class.
    class: Railway,
    /// The size of the dot.
    size: Size,
    /// Is the dot filled or what?
    inner: Inner,
    /// Is there casing around the dot?
    casing: bool,
}

impl<P> DotMarker<P> {
    /// The position of the marker.
    pub closed spec fn spec_position(&self) -> P {
        self.position
    }

    /// The class of the marker.
    pub closed spec fn spec_class(&self) -> Railway {
        self.class
    }

    /// The size, inside and casing of the marker.
    pub closed spec fn look(&self) -> (Size, Inner, bool) {
        (self.size, self.inner, self.casing)
    }

    /// A small filled dot for a guide.
    pub fn guide(class: Railway, position: P) -> (res: Self)
        ensures
            res.spec_class() == class,
            res.spec_position() == position,
            res.look() == (Size::Small, Inner::Fill, false),
    {
        DotMarker { position, class, size: Size::Small, inner: Inner::Fill, casing: false }
    }

    /// Creates a station dot if the symbols name one.
    ///
    /// The symbols left after its kind must describe a railway class and
    /// nothing else.
    pub fn try_from_arg(arg: &mut SymbolSet, position: P) -> (res: Result<Option<Self>, Failed>)
        requires
            old(arg).wf(),
        ensures
            final(arg).wf(),
            dot_kind_of(old(arg)@) is None ==> res == Ok::<Option<Self>, Failed>(None) && final(arg)@ == old(arg)@,
            dot_kind_of(old(arg)@) is Some ==> {
                &&& final(arg)@ == railway_rest(dot_kind_rest(old(arg)@))
                &&& (res is Ok <==> final(arg)@ == Set::<Seq<char>>::empty())
                &&& res matches Ok(d) ==> (d matches Some(d) && d.spec_position() == position
                    && Some(d.look()) == dot_kind_of(old(arg)@)
                    && Railway::is_applied(d.spec_class(), Railway::unset(), dot_kind_rest(old(arg)@)))
            },
    {
        let (size, inner, casing) = if arg.take("statdot") {
            (Size::Medium, Inner::Fill, true)
        } else if arg.take("dot.filled") {
            (Size::Medium, Inner::Fill, false)
        } else if arg.take("dot.casing") {
            (Size::Medium, Inner::NoInner, true)
        } else {
            assert(arg@ =~= old(arg)@);
            return Ok(None);
        };
        let class = Railway::from_symbols(arg, &Railway::empty());
        match arg.check_exhausted() {
            Ok(()) => Ok(Some(DotMarker { position, class, size, inner, casing })),
            Err(err) => Err(err),
        }
    }

    /// Creates a dot marker from the symbols of its argument.
    ///
    /// The symbols may select the size, a railway class, the inside and the
    /// casing of the dot, and nothing else.
    pub fn from_arg(arg: SymbolSet, position: P) -> (res: Result<Self, Failed>)
        requires
            arg.wf(),
        ensures
            res is Ok <==> dot_rest(arg@) == Set::<Seq<char>>::empty(),
            res matches Ok(d) ==> {
                let class_symbols = size_rest(arg@);
                &&& d.spec_position() == position
                &&& Railway::is_applied(d.spec_class(), Railway::unset(), class_symbols)
                &&& d.look() == (
                    size_of(arg@),
                    inner_of(d.spec_class(), railway_rest(class_symbols)),
                    casing_of(inner_rest(railway_rest(class_symbols))),
                )
            },
    {
        let mut arg = arg;
        let size = Size::from_symbols(&mut arg);
        let class = Railway::from_symbols(&mut arg, &Railway::empty());
        let inner = Inner::from_symbols(&class, &mut arg);
        let casing = Self::casing_from_symbols(&mut arg);
        match arg.check_exhausted() {
            Ok(()) => Ok(DotMarker { position, class, size, inner, casing }),
            Err(err) => Err(err),
        }
    }

    /// Takes the casing of a dot out of the symbols.
    pub fn casing_from_symbols(symbols: &mut SymbolSet) -> (res: bool)
        requires
            old(symbols).wf(),
        ensures
            final(symbols).wf(),
            res == casing_of(old(symbols)@),
            final(symbols)@ == casing_rest(old(symbols)@),
    {
        if symbols.take("casing") {
            true
        } else if symbols.take("over") {
            false
        } else {
            true
        }
    }

    /// Returns the class of the marker.
    pub fn class(&self) -> (res: &Railway)
        ensures
            *res == self.spec_class(),
    {
        &self.class
    }
}

//------------ Laws of the symbols --------------------------------------------

/// Each dot size symbol on its own selects its size; without one the dot is medium.
pub proof fn law_size_symbols(n: Set<Seq<char>>)
    ensures
        (n.contains("small"@) && !n.contains("large"@)) ==> size_of(n) == Size::Small,
        (n.contains("large"@) && !n.contains("small"@)) ==> size_of(n) == Size::Large,
        (!n.contains("small"@) && !n.contains("large"@)) ==> size_of(n) == Size::Medium,
{
}

//------------ Laws ------------------------------------------------------------

/// `filled` fills a dot and `open` strokes it; `casing` alone draws no
/// inside; without any of them, dots of open lines without full passenger
/// service are stroked and all others filled.
pub proof fn law_inner_symbols(class: Railway, n: Set<Seq<char>>)
    ensures
        n.contains("filled"@) ==> inner_of(class, n) == Inner::Fill,
        (n.contains("open"@) && !n.contains("filled"@)) ==> inner_of(class, n) == Inner::Stroke,
        (n.contains("casing"@) && !n.contains("open"@) && !n.contains("filled"@)) ==> inner_of(class, n) == Inner::NoInner,
        (!n.contains("casing"@) && !n.contains("open"@) && !n.contains("filled"@)) ==> (
            inner_of(class, n) == Inner::Stroke <==> ((class.opt_status() is None || class.opt_status() == Some(Status::Open))
                && class.opt_pax() != Some(Pax::Full))),
        (!n.contains("casing"@) && !n.contains("open"@) && !n.contains("filled"@)) ==> (
            inner_of(class, n) == Inner::Stroke || inner_of(class, n) == Inner::Fill),
{
}

/// A dot has casing unless it says `over` without `casing`.
pub proof fn law_casing_symbols(n: Set<Seq<char>>)
    ensures
        n.contains("casing"@) ==> casing_of(n),
        (n.contains("over"@) && !n.contains("casing"@)) ==> !casing_of(n),
        (!n.contains("over"@) && !n.contains("casing"@)) ==> casing_of(n),
{
}

/// `statdot` is a filled medium dot with casing, `dot.filled` one without
/// casing, and `dot.casing` an empty one with casing; other symbols name no
/// station dot.
pub proof fn law_dot_kind_symbols(n: Set<Seq<char>>)
    ensures
        n.contains("statdot"@) ==> dot_kind_of(n) == Some((Size::Medium, Inner::Fill, true)),
        (n.contains("dot.filled"@) && !n.contains("statdot"@)) ==> dot_kind_of(n) == Some((Size::Medium, Inner::Fill, false)),
        (n.contains("dot.casing"@) && !n.contains("statdot"@) && !n.contains("dot.filled"@)) ==> dot_kind_of(n) == Some((Size::Medium, Inner::NoInner, true)),
        (!n.contains("dot.casing"@) && !n.contains("statdot"@) && !n.contains("dot.filled"@)) ==> dot_kind_of(n) is None,
{
}

} // verus!
