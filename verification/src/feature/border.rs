//! The properties of borders.

use vstd::prelude::*;
use crate::symbols::SymbolSet;
use crate::import::load::Failed;

verus! {

/// The category of a border.
#[derive(Clone, Copy, Debug, PartialEq, Eq, Structural)]
pub enum Category {
    National,
    State,
}

/// The border category that the symbols `n` name; there must be one.
pub open spec fn border_category_of(n: Set<Seq<char>>) -> Result<Category, Failed> {
    if n.contains("national"@) {
        Ok(Category::National)
    } else if n.contains("state"@) {
        Ok(Category::State)
    } else {
        Err(Failed)
    }
}

/// The symbols left after the border category was taken.
pub open spec fn border_category_rest(n: Set<Seq<char>>) -> Set<Seq<char>> {
    if n.contains("national"@) {
        n.remove("national"@)
    } else {
        n.remove("state"@)
    }
}

impl Category {
    /// Takes the border category out of the symbols.
    pub fn from_symbols(symbols: &mut SymbolSet) -> (res: Result<Self, Failed>)
        requires
            old(symbols).wf(),
        ensures
            final(symbols).wf(),
            res == border_category_of(old(symbols)@),
            final(symbols)@ == border_category_rest(old(symbols)@),
    {
        if symbols.take("national") {
            Ok(Category::National)
        } else if symbols.take("state") {
            Ok(Category::State)
        } else {
            Err(Failed)
        }
    }
}

/// The contour of a border along a trace of type `T`.
#[derive(Clone, Copy, Debug)]
pub struct BorderContour<T> {
    category: Category,
    former: bool,
    trace: T,
}

impl<T> BorderContour<T> {
    /// The category of the border.
    pub closed spec fn spec_category(&self) -> Category {
        self.category
    }

    /// Whether the border is a former one.
    pub closed spec fn spec_former(&self) -> bool {
        self.former
    }

    /// The trace of the border.
    pub closed spec fn spec_trace(&self) -> T {
        self.trace
    }

    /// Creates a border from the symbols of its argument.
    ///
    /// The symbols must name a category and may say `former`, and nothing
    /// else.
    pub fn from_arg(symbols: SymbolSet, trace: T) -> (res: Result<Self, Failed>)
        requires
            symbols.wf(),
        ensures
            res is Ok <==> (border_category_of(symbols@) is Ok
                && border_category_rest(symbols@).remove("former"@) == Set::<Seq<char>>::empty()),
            res matches Ok(b) ==> (border_category_of(symbols@) == Ok::<Category, Failed>(b.spec_category())
                && b.spec_former() == border_category_rest(symbols@).contains("former"@)
                && b.spec_trace() == trace),
    {
        let mut symbols = symbols;
        let category = match Category::from_symbols(&mut symbols) {
            Ok(category) => category,
            Err(err) => return Err(err),
        };
        let former = symbols.take("former");
        match symbols.check_exhausted() {
            Ok(()) => Ok(BorderContour { category, former, trace }),
            Err(err) => Err(err),
        }
    }

    /// Returns the category of the border.
    pub fn category(&self) -> (res: Category)
        ensures
            res == self.spec_category(),
    {
        self.category
    }

    /// Returns whether the border is a former one.
    pub fn former(&self) -> (res: bool)
        ensures
            res == self.spec_former(),
    {
        self.former
    }
}

//------------ Laws of the symbols --------------------------------------------

/// Each border category symbol on its own selects its category; without one there is an error.
pub proof fn law_border_category_symbols(n: Set<Seq<char>>)
    ensures
        (n.contains("national"@) && !n.contains("state"@)) ==> border_category_of(n) == Ok::<Category, Failed>(Category::National),
        (n.contains("state"@) && !n.contains("national"@)) ==> border_category_of(n) == Ok::<Category, Failed>(Category::State),
        (!n.contains("national"@) && !n.contains("state"@)) ==> border_category_of(n) is Err,
{
}

} // verus!
