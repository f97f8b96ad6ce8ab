//! Alignment of label layouts.

use vstd::prelude::*;
use crate::symbols::SymbolSet;

verus! {

/// How layouts are stacked in a box.
#[derive(Clone, Copy, Debug, PartialEq, Eq, Structural)]
pub enum Align {
    /// The upper or left extent is aligned.
    Start,
    /// The center of each layout is aligned.
    Center,
    /// The anchors of the layouts are aligned.
    Ref,
    /// The lower or right extent is aligned.
    End,
}

/// The alignment that the first of four symbols present in `n` selects:
/// start, center, reference, end.
pub open spec fn align_of(n: Set<Seq<char>>, start: Seq<char>, center: Seq<char>, reference: Seq<char>, end: Seq<char>) -> Option<Align> {
    if n.contains(start) {
        Some(Align::Start)
    } else if n.contains(center) {
        Some(Align::Center)
    } else if n.contains(reference) {
        Some(Align::Ref)
    } else if n.contains(end) {
        Some(Align::End)
    } else {
        None
    }
}

impl Align {
    /// The horizontal alignment that the symbols select, if any.
    pub fn h_from_symbols(symbols: &SymbolSet) -> (res: Option<Align>)
        ensures
            res == align_of(symbols@, "left"@, "center"@, "sep"@, "right"@),
    {
        if symbols.contains("left") {
            Some(Align::Start)
        } else if symbols.contains("center") {
            Some(Align::Center)
        } else if symbols.contains("sep") {
            Some(Align::Ref)
        } else if symbols.contains("right") {
            Some(Align::End)
        } else {
            None
        }
    }

    /// The vertical alignment that the symbols select, if any.
    pub fn v_from_symbols(symbols: &SymbolSet) -> (res: Option<Align>)
        ensures
            res == align_of(symbols@, "top"@, "middle"@, "base"@, "bottom"@),
    {
        if symbols.contains("top") {
            Some(Align::Start)
        } else if symbols.contains("middle") {
            Some(Align::Center)
        } else if symbols.contains("base") {
            Some(Align::Ref)
        } else if symbols.contains("bottom") {
            Some(Align::End)
        } else {
            None
        }
    }
}

//------------ Laws ------------------------------------------------------------

/// Horizontally, `left` aligns the start, `center` the center, `sep` the
/// anchors and `right` the end; vertically `top`, `middle`, `base` and
/// `bottom` do. Each symbol on its own selects its alignment.
pub proof fn law_align_symbols(n: Set<Seq<char>>)
    ensures
        (n.contains("left"@) && !n.contains("center"@) && !n.contains("sep"@) && !n.contains("right"@)) ==> align_of(n, "left"@, "center"@, "sep"@, "right"@) == Some(Align::Start),
        (n.contains("center"@) && !n.contains("left"@) && !n.contains("sep"@) && !n.contains("right"@)) ==> align_of(n, "left"@, "center"@, "sep"@, "right"@) == Some(Align::Center),
        (n.contains("sep"@) && !n.contains("left"@) && !n.contains("center"@) && !n.contains("right"@)) ==> align_of(n, "left"@, "center"@, "sep"@, "right"@) == Some(Align::Ref),
        (n.contains("right"@) && !n.contains("left"@) && !n.contains("center"@) && !n.contains("sep"@)) ==> align_of(n, "left"@, "center"@, "sep"@, "right"@) == Some(Align::End),
        (!n.contains("right"@) && !n.contains("left"@) && !n.contains("center"@) && !n.contains("sep"@)) ==> align_of(n, "left"@, "center"@, "sep"@, "right"@) is None,
        (n.contains("top"@) && !n.contains("middle"@) && !n.contains("base"@) && !n.contains("bottom"@)) ==> align_of(n, "top"@, "middle"@, "base"@, "bottom"@) == Some(Align::Start),
        (n.contains("middle"@) && !n.contains("top"@) && !n.contains("base"@) && !n.contains("bottom"@)) ==> align_of(n, "top"@, "middle"@, "base"@, "bottom"@) == Some(Align::Center),
        (n.contains("base"@) && !n.contains("top"@) && !n.contains("middle"@) && !n.contains("bottom"@)) ==> align_of(n, "top"@, "middle"@, "base"@, "bottom"@) == Some(Align::Ref),
        (n.contains("bottom"@) && !n.contains("top"@) && !n.contains("middle"@) && !n.contains("base"@)) ==> align_of(n, "top"@, "middle"@, "base"@, "bottom"@) == Some(Align::End),
        (!n.contains("bottom"@) && !n.contains("top"@) && !n.contains("middle"@) && !n.contains("base"@)) ==> align_of(n, "top"@, "middle"@, "base"@, "bottom"@) is None,
{
}

} // verus!
