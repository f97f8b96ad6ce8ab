//! Borders in the library.

use vstd::prelude::*;
use crate::symbols::SymbolSet;

verus! {

/// The category of a border.
#[derive(Clone, Copy, Debug, PartialEq, Eq, Structural)]
pub enum Category {
    National,
    State,
}

/// The border category that the symbols `n` describe; national unless they
/// say otherwise.
pub open spec fn border_category_of(n: Set<Seq<char>>) -> Category {
    if n.contains("national"@) {
        Category::National
    } else if n.contains("state"@) {
        Category::State
    } else {
        Category::National
    }
}

impl Category {
    /// Reads the border category off the symbols.
    pub fn from_symbols(symbols: &SymbolSet) -> (res: Self)
        ensures
            res == border_category_of(symbols@),
    {
        if symbols.contains("national") {
            Category::National
        } else if symbols.contains("state") {
            Category::State
        } else {
            Category::National
        }
    }
}

//------------ Laws of the symbols --------------------------------------------

/// Each border category symbol on its own selects its category; without one the border is national.
pub proof fn law_border_category_symbols(n: Set<Seq<char>>)
    ensures
        (n.contains("national"@) && !n.contains("state"@)) ==> border_category_of(n) == Category::National,
        (n.contains("state"@) && !n.contains("national"@)) ==> border_category_of(n) == Category::State,
        (!n.contains("national"@) && !n.contains("state"@)) ==> border_category_of(n) == Category::National,
{
}

} // verus!
