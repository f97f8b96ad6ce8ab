//! The properties of dot markers on the map.

use vstd::prelude::*;
use crate::symbols::SymbolSet;
pub use crate::feature::dot::{Size, size_of, size_rest};

verus! {

/// How the inside of a dot is drawn.
#[derive(Clone, Copy, Debug, PartialEq, Eq, Structural)]
pub enum Inner {
    /// The inside is not drawn.
    NoInner,
    Fill,
    Stroke,
}

/// The inside that the symbols `n` select; filled unless they say
/// otherwise.
pub open spec fn inner_of(n: Set<Seq<char>>) -> Inner {
    if n.contains("filled"@) {
        Inner::Fill
    } else if n.contains("open"@) {
        Inner::Stroke
    } else if n.contains("casing"@) {
        Inner::NoInner
    } else {
        Inner::Fill
    }
}

impl Inner {
    /// Takes the inside of a dot out of the symbols.
    ///
    /// `casing` stays in the set.
    pub fn from_symbols(symbols: &mut SymbolSet) -> (res: Self)
        requires
            old(symbols).wf(),
        ensures
            final(symbols).wf(),
            res == inner_of(old(symbols)@),
            final(symbols)@ == crate::feature::dot::inner_rest(old(symbols)@),
    {
        if symbols.take("filled") {
            Inner::Fill
        } else if symbols.take("open") {
            Inner::Stroke
        } else if symbols.contains("casing") {
            Inner::NoInner
        } else {
            Inner::Fill
        }
    }
}

} // verus!
