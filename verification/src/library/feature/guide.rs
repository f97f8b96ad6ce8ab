//! Guides: thin lines attaching a label to something.

use vstd::prelude::*;
use crate::symbols::SymbolSet;
use crate::import::load::Failed;
use crate::library::class::{Class, ClassParts, class_of};

verus! {

/// A contour drawing a guide.
pub struct GuideContour {
    /// The class of the guide.
    class: Class,
    /// Is this a guide for a line number?
    linenum: bool,
    /// Should the guide have a casing?
    casing: bool,
}

impl GuideContour {
    /// The class of the guide.
    pub closed spec fn spec_class(&self) -> ClassParts {
        self.class@
    }

    /// Whether the guide is for a line number.
    pub closed spec fn spec_linenum(&self) -> bool {
        self.linenum
    }

    /// Whether the guide has a casing.
    pub closed spec fn spec_casing(&self) -> bool {
        self.casing
    }

    /// Creates a guide from the symbols of its argument.
    ///
    /// The class is read off the symbols without taking them; `linenum` and
    /// `casing` are taken, and no symbol may be left.
    pub fn from_arg(symbols: SymbolSet) -> (res: Result<Self, Failed>)
        requires
            symbols.wf(),
        ensures
            res is Ok <==> symbols@.remove("linenum"@).remove("casing"@) == Set::<Seq<char>>::empty(),
            res matches Ok(g) ==> (g.spec_class() == class_of(symbols@)
                && g.spec_linenum() == symbols@.contains("linenum"@)
                && g.spec_casing() == symbols@.remove("linenum"@).contains("casing"@)),
    {
        let mut symbols = symbols;
        let class = Class::from_symbols(&symbols);
        let linenum = symbols.take("linenum");
        let casing = symbols.take("casing");
        match symbols.check_exhausted() {
            Ok(()) => Ok(GuideContour { class, linenum, casing }),
            Err(err) => Err(err),
        }
    }
}

} // verus!
