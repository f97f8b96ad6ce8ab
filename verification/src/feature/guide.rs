//! Guides: thin lines attaching a label to something.

use vstd::prelude::*;
use crate::symbols::SymbolSet;
use crate::import::load::Failed;
use crate::class::{Railway, railway_rest};

verus! {

/// A contour drawing a guide along a trace of type `T`.
#[derive(Clone, Copy, Debug)]
pub struct GuideContour<T> {
    /// The class of the guide.
    class: Railway,
    /// Should the guide have a casing?
    casing: bool,
    trace: T,
}

impl<T> GuideContour<T> {
    /// The class of the guide.
    pub closed spec fn spec_class(&self) -> Railway {
        self.class
    }

    /// Whether the guide has a casing.
    pub closed spec fn spec_casing(&self) -> bool {
        self.casing
    }

    /// The trace of the guide.
    pub closed spec fn spec_trace(&self) -> T {
        self.trace
    }

    pub fn new(class: Railway, casing: bool, trace: T) -> (res: Self)
        ensures
            res.spec_class() == class,
            res.spec_casing() == casing,
            res.spec_trace() == trace,
    {
        GuideContour { class, casing, trace }
    }

    /// Creates a guide from the symbols of its class.
    ///
    /// The symbols may describe a railway class and say `casing`, and
    /// nothing else.
    pub fn from_symbols(class: SymbolSet, trace: T) -> (res: Result<Self, Failed>)
        requires
            class.wf(),
        ensures
            res is Ok <==> railway_rest(class@).remove("casing"@) == Set::<Seq<char>>::empty(),
            res matches Ok(g) ==> (Railway::is_applied(g.spec_class(), Railway::unset(), class@)
                && g.spec_casing() == railway_rest(class@).contains("casing"@)
                && g.spec_trace() == trace),
    {
        let mut class = class;
        let railway = Railway::from_symbols(&mut class, &Railway::empty());
        let casing = class.take("casing");
        match class.check_exhausted() {
            Ok(()) => Ok(GuideContour { class: railway, casing, trace }),
            Err(err) => Err(err),
        }
    }
}

} // verus!
