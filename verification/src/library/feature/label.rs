//! Fonts of labels.
//!
//! The font of a label is assembled from the symbols given with it. Each
//! property of the font is selected by the first of its symbols that is
//! present, and that symbol is taken out of the set.

use vstd::prelude::*;
use crate::class::or_else;
use crate::symbols::SymbolSet;

verus! {

//------------ Font properties -----------------------------------------------

/// The typeface family of a font.
#[derive(Clone, Copy, Debug, PartialEq, Eq, Structural)]
pub enum FontFamily {
    Fira,
}

/// The width of a font.
#[derive(Clone, Copy, Debug, PartialEq, Eq, Structural)]
pub enum FontStretch {
    Regular,
    Condensed,
}

/// The slant of a font.
#[derive(Clone, Copy, Debug, PartialEq, Eq, Structural)]
pub enum FontSlant {
    Upright,
    Italic,
}

/// The weight of a font.
#[derive(Clone, Copy, Debug, PartialEq, Eq, Structural)]
pub enum FontWeight {
    Light,
    Book,
    Bold,
}

/// A complete font face.
#[derive(Clone, Copy, Debug, PartialEq, Eq, Structural)]
pub struct FontFace {
    pub family: FontFamily,
    pub stretch: FontStretch,
    pub slant: FontSlant,
    pub weight: FontWeight,
}

impl FontFace {
    pub fn new(family: FontFamily, stretch: FontStretch, slant: FontSlant, weight: FontWeight) -> (res: Self)
        ensures
            res == (FontFace { family, stretch, slant, weight }),
    {
        FontFace { family, stretch, slant, weight }
    }
}

//------------ FontFaceBuilder -----------------------------------------------

/// Changes to a font face: each property that is set replaces that of the
/// face it is applied to.
#[derive(Clone, Copy, Debug, PartialEq, Eq, Structural)]
pub struct FontFaceBuilder {
    pub family: Option<FontFamily>,
    pub stretch: Option<FontStretch>,
    pub slant: Option<FontSlant>,
    pub weight: Option<FontWeight>,
}

/// The stretch that the symbols `n` select.
pub open spec fn stretch_of(n: Set<Seq<char>>) -> Option<FontStretch> {
    if n.contains("condensed"@) {
        Some(FontStretch::Condensed)
    } else if n.contains("regular"@) {
        Some(FontStretch::Regular)
    } else {
        None
    }
}

/// The symbols left after the stretch was taken.
pub open spec fn stretch_rest(n: Set<Seq<char>>) -> Set<Seq<char>> {
    if n.contains("condensed"@) {
        n.remove("condensed"@)
    } else if n.contains("regular"@) {
        n.remove("regular"@)
    } else {
        n
    }
}

/// The slant that the symbols `n` select.
pub open spec fn slant_of(n: Set<Seq<char>>) -> Option<FontSlant> {
    if n.contains("italic"@) {
        Some(FontSlant::Italic)
    } else if n.contains("designation"@) {
        Some(FontSlant::Italic)
    } else if n.contains("upright"@) {
        Some(FontSlant::Upright)
    } else {
        None
    }
}

/// The symbols left after the slant was taken.
pub open spec fn slant_rest(n: Set<Seq<char>>) -> Set<Seq<char>> {
    if n.contains("italic"@) {
        n.remove("italic"@)
    } else if n.contains("designation"@) {
        n.remove("designation"@)
    } else if n.contains("upright"@) {
        n.remove("upright"@)
    } else {
        n
    }
}

/// The weight that the symbols `n` select.
pub open spec fn weight_of(n: Set<Seq<char>>) -> Option<FontWeight> {
    if n.contains("bold"@) {
        Some(FontWeight::Bold)
    } else if n.contains("light"@) {
        Some(FontWeight::Light)
    } else if n.contains("book"@) {
        Some(FontWeight::Book)
    } else {
        None
    }
}

/// The symbols left after the weight was taken.
pub open spec fn weight_rest(n: Set<Seq<char>>) -> Set<Seq<char>> {
    if n.contains("bold"@) {
        n.remove("bold"@)
    } else if n.contains("light"@) {
        n.remove("light"@)
    } else if n.contains("book"@) {
        n.remove("book"@)
    } else {
        n
    }
}

/// The font face changes that the symbols `n` select: stretch, then slant,
/// then weight, each from the symbols the one before left.
pub open spec fn face_builder_of(n: Set<Seq<char>>) -> FontFaceBuilder {
    FontFaceBuilder {
        family: None,
        stretch: stretch_of(n),
        slant: slant_of(stretch_rest(n)),
        weight: weight_of(slant_rest(stretch_rest(n))),
    }
}

/// The symbols left after the font face changes were taken.
pub open spec fn face_builder_rest(n: Set<Seq<char>>) -> Set<Seq<char>> {
    weight_rest(slant_rest(stretch_rest(n)))
}

/// The changes `face` made atop `base`: the properties that `face` sets,
/// and those of `base` for the others.
pub open spec fn spec_update(base: FontFaceBuilder, face: FontFaceBuilder) -> FontFaceBuilder {
    FontFaceBuilder {
        family: or_else(face.family, base.family),
        stretch: or_else(face.stretch, base.stretch),
        slant: or_else(face.slant, base.slant),
        weight: or_else(face.weight, base.weight),
    }
}

/// The value of an option, or `default` if it has none.
pub open spec fn value_or<T>(opt: Option<T>, default: T) -> T {
    match opt {
        Some(v) => v,
        None => default,
    }
}

/// The face that results from applying the changes `b` to `face`.
pub open spec fn spec_apply(b: FontFaceBuilder, face: FontFace) -> FontFace {
    FontFace {
        family: value_or(b.family, face.family),
        stretch: value_or(b.stretch, face.stretch),
        slant: value_or(b.slant, face.slant),
        weight: value_or(b.weight, face.weight),
    }
}

impl FontFaceBuilder {
    /// Takes the font face changes out of a symbol set.
    pub fn from_symbols(symbols: &mut SymbolSet) -> (res: Self)
        requires
            old(symbols).wf(),
        ensures
            final(symbols).wf(),
            res == face_builder_of(old(symbols)@),
            final(symbols)@ == face_builder_rest(old(symbols)@),
    {
        let stretch = if symbols.take("condensed") {
            Some(FontStretch::Condensed)
        } else if symbols.take("regular") {
            Some(FontStretch::Regular)
        } else {
            None
        };
        let slant = if symbols.take("italic") {
            Some(FontSlant::Italic)
        } else if symbols.take("designation") {
            Some(FontSlant::Italic)
        } else if symbols.take("upright") {
            Some(FontSlant::Upright)
        } else {
            None
        };
        let weight = if symbols.take("bold") {
            Some(FontWeight::Bold)
        } else if symbols.take("light") {
            Some(FontWeight::Light)
        } else if symbols.take("book") {
            Some(FontWeight::Book)
        } else {
            None
        };
        FontFaceBuilder { family: None, stretch, slant, weight }
    }

    /// Returns the changes of `face` made atop those of `self`.
    pub fn update(self, face: FontFaceBuilder) -> (res: FontFaceBuilder)
        ensures
            res == spec_update(self, face),
    {
        FontFaceBuilder {
            family: if let Some(family) = face.family {
                Some(family)
            } else {
                self.family
            },
            stretch: if let Some(stretch) = face.stretch {
                Some(stretch)
            } else {
                self.stretch
            },
            slant: if let Some(slant) = face.slant {
                Some(slant)
            } else {
                self.slant
            },
            weight: if let Some(weight) = face.weight {
                Some(weight)
            } else {
                self.weight
            },
        }
    }

    /// Applies the changes to a font face.
    pub fn apply(self, face: FontFace) -> (res: FontFace)
        ensures
            res == spec_apply(self, face),
    {
        FontFace::new(
            match self.family {
                Some(v) => v,
                None => face.family,
            },
            match self.stretch {
                Some(v) => v,
                None => face.stretch,
            },
            match self.slant {
                Some(v) => v,
                None => face.slant,
            },
            match self.weight {
                Some(v) => v,
                None => face.weight,
            },
        )
    }
}

/// The builder that changes nothing.
pub open spec fn no_changes() -> FontFaceBuilder {
    FontFaceBuilder { family: None, stretch: None, slant: None, weight: None }
}

/// Updating with no changes, or updating no changes, keeps the changes.
pub proof fn law_update_no_changes(b: FontFaceBuilder)
    ensures
        spec_update(b, no_changes()) == b,
        spec_update(no_changes(), b) == b,
{
}

/// Updating is associative.
pub proof fn law_update_associative(a: FontFaceBuilder, b: FontFaceBuilder, c: FontFaceBuilder)
    ensures
        spec_update(spec_update(a, b), c) == spec_update(a, spec_update(b, c)),
{
}

/// Applying `b` updated with `c` is applying `b` and then `c`.
pub proof fn law_apply_update(b: FontFaceBuilder, c: FontFaceBuilder, face: FontFace)
    ensures
        spec_apply(spec_update(b, c), face) == spec_apply(c, spec_apply(b, face)),
{
}

/// Applying no changes keeps the face.
pub proof fn law_apply_no_changes(face: FontFace)
    ensures
        spec_apply(no_changes(), face) == face,
{
}

impl Default for FontFaceBuilder {
    fn default() -> (res: Self)
        ensures
            res == no_changes(),
    {
        FontFaceBuilder { family: None, stretch: None, slant: None, weight: None }
    }
}

//------------ FontSize ------------------------------------------------------

/// The size of a label's font.
#[derive(Clone, Copy, Debug, PartialEq, Eq, Structural)]
pub enum FontSize {
    Xsmall,
    Small,
    Medium,
    Large,
    Xlarge,
    Badge,
}

/// The font size that the symbols `n` select.
pub open spec fn font_size_of(n: Set<Seq<char>>) -> Option<FontSize> {
    if n.contains("xsmall"@) {
        Some(FontSize::Xsmall)
    } else if n.contains("small"@) {
        Some(FontSize::Small)
    } else if n.contains("medium"@) {
        Some(FontSize::Medium)
    } else if n.contains("large"@) {
        Some(FontSize::Large)
    } else if n.contains("xlarge"@) {
        Some(FontSize::Xlarge)
    } else if n.contains("badgesize"@) {
        Some(FontSize::Badge)
    } else {
        None
    }
}

/// The symbols left after the font size was taken.
pub open spec fn font_size_rest(n: Set<Seq<char>>) -> Set<Seq<char>> {
    match font_size_of(n) {
        Some(FontSize::Xsmall) => n.remove("xsmall"@),
        Some(FontSize::Small) => n.remove("small"@),
        Some(FontSize::Medium) => n.remove("medium"@),
        Some(FontSize::Large) => n.remove("large"@),
        Some(FontSize::Xlarge) => n.remove("xlarge"@),
        Some(FontSize::Badge) => n.remove("badgesize"@),
        None => n,
    }
}

impl FontSize {
    /// Takes a font size out of a symbol set, if one is there.
    pub fn from_symbols(symbols: &mut SymbolSet) -> (res: Option<Self>)
        requires
            old(symbols).wf(),
        ensures
            final(symbols).wf(),
            res == font_size_of(old(symbols)@),
            final(symbols)@ == font_size_rest(old(symbols)@),
    {
        if symbols.take("xsmall") {
            Some(FontSize::Xsmall)
        } else if symbols.take("small") {
            Some(FontSize::Small)
        } else if symbols.take("medium") {
            Some(FontSize::Medium)
        } else if symbols.take("large") {
            Some(FontSize::Large)
        } else if symbols.take("xlarge") {
            Some(FontSize::Xlarge)
        } else if symbols.take("badgesize") {
            Some(FontSize::Badge)
        } else {
            None
        }
    }
}

impl Default for FontSize {
    fn default() -> (res: Self)
        ensures
            res == FontSize::Medium,
    {
        FontSize::Medium
    }
}

//------------ Laws of the symbols --------------------------------------------

/// Each stretch symbol on its own selects its stretch.
pub proof fn law_stretch_symbols(n: Set<Seq<char>>)
    ensures
        (n.contains("condensed"@) && !n.contains("regular"@)) ==> stretch_of(n) == Some(FontStretch::Condensed),
        (n.contains("regular"@) && !n.contains("condensed"@)) ==> stretch_of(n) == Some(FontStretch::Regular),
        (!n.contains("condensed"@) && !n.contains("regular"@)) ==> stretch_of(n) is None,
{
}

/// Each slant symbol on its own selects its slant; `designation` is italic.
pub proof fn law_slant_symbols(n: Set<Seq<char>>)
    ensures
        (n.contains("italic"@) && !n.contains("designation"@) && !n.contains("upright"@)) ==> slant_of(n) == Some(FontSlant::Italic),
        (n.contains("designation"@) && !n.contains("italic"@) && !n.contains("upright"@)) ==> slant_of(n) == Some(FontSlant::Italic),
        (n.contains("upright"@) && !n.contains("italic"@) && !n.contains("designation"@)) ==> slant_of(n) == Some(FontSlant::Upright),
        (!n.contains("italic"@) && !n.contains("designation"@) && !n.contains("upright"@)) ==> slant_of(n) is None,
{
}

/// Each weight symbol on its own selects its weight.
pub proof fn law_weight_symbols(n: Set<Seq<char>>)
    ensures
        (n.contains("bold"@) && !n.contains("light"@) && !n.contains("book"@)) ==> weight_of(n) == Some(FontWeight::Bold),
        (n.contains("light"@) && !n.contains("bold"@) && !n.contains("book"@)) ==> weight_of(n) == Some(FontWeight::Light),
        (n.contains("book"@) && !n.contains("bold"@) && !n.contains("light"@)) ==> weight_of(n) == Some(FontWeight::Book),
        (!n.contains("bold"@) && !n.contains("light"@) && !n.contains("book"@)) ==> weight_of(n) is None,
{
}

/// Each font size symbol on its own selects its size.
pub proof fn law_font_size_symbols(n: Set<Seq<char>>)
    ensures
        (n.contains("xsmall"@) && !n.contains("small"@) && !n.contains("medium"@) && !n.contains("large"@) && !n.contains("xlarge"@) && !n.contains("badgesize"@)) ==> font_size_of(n) == Some(FontSize::Xsmall),
        (n.contains("small"@) && !n.contains("xsmall"@) && !n.contains("medium"@) && !n.contains("large"@) && !n.contains("xlarge"@) && !n.contains("badgesize"@)) ==> font_size_of(n) == Some(FontSize::Small),
        (n.contains("medium"@) && !n.contains("xsmall"@) && !n.contains("small"@) && !n.contains("large"@) && !n.contains("xlarge"@) && !n.contains("badgesize"@)) ==> font_size_of(n) == Some(FontSize::Medium),
        (n.contains("large"@) && !n.contains("xsmall"@) && !n.contains("small"@) && !n.contains("medium"@) && !n.contains("xlarge"@) && !n.contains("badgesize"@)) ==> font_size_of(n) == Some(FontSize::Large),
        (n.contains("xlarge"@) && !n.contains("xsmall"@) && !n.contains("small"@) && !n.contains("medium"@) && !n.contains("large"@) && !n.contains("badgesize"@)) ==> font_size_of(n) == Some(FontSize::Xlarge),
        (n.contains("badgesize"@) && !n.contains("xsmall"@) && !n.contains("small"@) && !n.contains("medium"@) && !n.contains("large"@) && !n.contains("xlarge"@)) ==> font_size_of(n) == Some(FontSize::Badge),
        (!n.contains("xsmall"@) && !n.contains("small"@) && !n.contains("medium"@) && !n.contains("large"@) && !n.contains("xlarge"@) && !n.contains("badgesize"@)) ==> font_size_of(n) is None,
{
}

} // verus!
