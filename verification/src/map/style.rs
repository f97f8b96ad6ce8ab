//! Map styles.

use vstd::prelude::*;
use crate::symbols::str_eq;

verus! {

/// A style name was not recognized.
#[derive(Clone, Copy, Debug, PartialEq, Eq, Structural)]
pub struct InvalidStyle;

//------------ Palette -------------------------------------------------------

/// The colors a map is drawn in.
#[derive(Clone, Copy, Debug, PartialEq, Eq, Structural)]
pub enum Palette {
    /// Highlight passenger service.
    Pax,
    /// Highlight electrification type.
    El,
    /// Optimized for proof-reading.
    Proof,
}

impl Palette {
    /// Returns whether to draw line numbers.
    pub fn show_linenum(self) -> (res: bool)
        ensures
            res == (self != Palette::Pax),
    {
        match self {
            Palette::Pax => false,
            _ => true,
        }
    }
}

//------------ StyleId -------------------------------------------------------

/// The style of a map: its kind and its palette.
#[derive(Clone, Copy, Debug, PartialEq, Eq, Structural)]
pub enum StyleId {
    /// Overview map with the given palette.
    Overview(Palette),
    /// Detail map with the given palette.
    Detail(Palette),
}

/// The style that a name selects: `s` for the overview and `l` for the
/// detail map, followed by `p`, `e` or `x` for the palette.
pub open spec fn style_of(name: Seq<char>) -> Result<StyleId, InvalidStyle> {
    if name == "sp"@ {
        Ok(StyleId::Overview(Palette::Pax))
    } else if name == "se"@ {
        Ok(StyleId::Overview(Palette::El))
    } else if name == "sx"@ {
        Ok(StyleId::Overview(Palette::Proof))
    } else if name == "lp"@ {
        Ok(StyleId::Detail(Palette::Pax))
    } else if name == "le"@ {
        Ok(StyleId::Detail(Palette::El))
    } else if name == "lx"@ {
        Ok(StyleId::Detail(Palette::Proof))
    } else {
        Err(InvalidStyle)
    }
}

impl StyleId {
    /// Returns the palette of the style.
    pub fn palette(self) -> (res: Palette)
        ensures
            res == (match self {
                StyleId::Overview(pal) => pal,
                StyleId::Detail(pal) => pal,
            }),
    {
        match self {
            StyleId::Overview(pal) => pal,
            StyleId::Detail(pal) => pal,
        }
    }

    /// Selects a style by its name.
    pub fn from_name(name: &str) -> (res: Result<Self, InvalidStyle>)
        ensures
            res == style_of(name@),
    {
        if str_eq(name, "sp") {
            Ok(StyleId::Overview(Palette::Pax))
        } else if str_eq(name, "se") {
            Ok(StyleId::Overview(Palette::El))
        } else if str_eq(name, "sx") {
            Ok(StyleId::Overview(Palette::Proof))
        } else if str_eq(name, "lp") {
            Ok(StyleId::Detail(Palette::Pax))
        } else if str_eq(name, "le") {
            Ok(StyleId::Detail(Palette::El))
        } else if str_eq(name, "lx") {
            Ok(StyleId::Detail(Palette::Proof))
        } else {
            Err(InvalidStyle)
        }
    }
}

impl core::str::FromStr for StyleId {
    type Err = InvalidStyle;

    fn from_str(s: &str) -> Result<Self, Self::Err> {
        StyleId::from_name(s)
    }
}

/// Each style name selects its style: `s` for the overview and `l` for
/// the detail map, then `p`, `e` or `x` for the palette.
pub proof fn law_style_names(name: Seq<char>)
    ensures
        name == "sp"@ ==> style_of(name) == Ok::<StyleId, InvalidStyle>(StyleId::Overview(Palette::Pax)),
        name == "se"@ ==> style_of(name) == Ok::<StyleId, InvalidStyle>(StyleId::Overview(Palette::El)),
        name == "sx"@ ==> style_of(name) == Ok::<StyleId, InvalidStyle>(StyleId::Overview(Palette::Proof)),
        name == "lp"@ ==> style_of(name) == Ok::<StyleId, InvalidStyle>(StyleId::Detail(Palette::Pax)),
        name == "le"@ ==> style_of(name) == Ok::<StyleId, InvalidStyle>(StyleId::Detail(Palette::El)),
        name == "lx"@ ==> style_of(name) == Ok::<StyleId, InvalidStyle>(StyleId::Detail(Palette::Proof)),
        name.len() != 2 ==> style_of(name) is Err,
{
    reveal_strlit("sp");
    reveal_strlit("se");
    reveal_strlit("sx");
    reveal_strlit("lp");
    reveal_strlit("le");
    reveal_strlit("lx");
    assert("sp"@[1] != "se"@[1] && "sp"@[1] != "sx"@[1] && "se"@[1] != "sx"@[1]);
    assert("lp"@[1] != "le"@[1] && "lp"@[1] != "lx"@[1] && "le"@[1] != "lx"@[1]);
    assert("lp"@[0] != "sp"@[0] && "lp"@[0] != "se"@[0] && "lp"@[0] != "sx"@[0]);
    assert("le"@[0] != "sp"@[0] && "le"@[0] != "se"@[0] && "le"@[0] != "sx"@[0]);
    assert("lx"@[0] != "sp"@[0] && "lx"@[0] != "se"@[0] && "lx"@[0] != "sx"@[0]);
}

} // verus!
