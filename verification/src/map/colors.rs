//! Which color a railway is drawn in.
//!
//! The map's palettes highlight either the electrification (`El`, and
//! `Proof`, which uses the same colors) or the passenger service (`Pax`).
//! The choice of color for a railway class is made here as a [`ColorKey`],
//! the name of an entry of the color set; the color values themselves are
//! kept by the renderer.

use vstd::prelude::*;
use crate::class::{
    Railway, Category, Status, Pax, ElectricCat, ElectricRail, ElectricStatus, ElectricSystem,
    VoltageGroup,
};
use crate::map::style::Palette;

verus! {

/// The name of an entry of the color set.
#[derive(Clone, Copy, Debug, PartialEq, Eq, Structural)]
pub enum ColorKey {
    ElOleAcLowPax,
    ElOleAcHighPax,
    ElOleDcLowPax,
    ElOleDcHighPax,
    ElRailPax,
    ElRailFourPax,
    ElNonePax,
    ElOleAcLow,
    ElOleAcHigh,
    ElOleDcLow,
    ElOleDcHigh,
    ElRail,
    ElRailFour,
    ElNone,
    PaxFull,
    PaxLtd,
    PaxNone,
    PaxClosed,
    Closed,
    Removed,
    Gone,
    ClosedText,
    RemovedText,
    GoneText,
    Tram,
    TramClosed,
    TramRemoved,
    TramGone,
    /// The color for a class that should not occur.
    Toxic,
}

//------------ Parts of a class as drawn -------------------------------------

/// The category of a class, siding if none is set.
pub open spec fn category_of(class: Railway) -> Category {
    match class.opt_category() {
        Some(c) => c,
        None => Category::Siding,
    }
}

/// The status of a class, open if none is set.
pub open spec fn status_of(class: Railway) -> Status {
    match class.opt_status() {
        Some(s) => s,
        None => Status::Open,
    }
}

/// Whether a class has full passenger service.
pub open spec fn full_pax(class: Railway) -> bool {
    class.opt_pax() == Some(Pax::Full)
}

/// The color of an overhead line system in use.
pub open spec fn ole_key(cat: ElectricCat, pax: bool) -> ColorKey {
    match (cat.system, cat.spec_voltage_group(), pax) {
        (Some(ElectricSystem::Ac), VoltageGroup::High, true) => ColorKey::ElOleAcHighPax,
        (Some(ElectricSystem::Ac), VoltageGroup::High, false) => ColorKey::ElOleAcHigh,
        (Some(ElectricSystem::Ac), VoltageGroup::Low, true) => ColorKey::ElOleAcLowPax,
        (Some(ElectricSystem::Ac), VoltageGroup::Low, false) => ColorKey::ElOleAcLow,
        (Some(ElectricSystem::Dc), VoltageGroup::High, true) => ColorKey::ElOleDcHighPax,
        (Some(ElectricSystem::Dc), VoltageGroup::High, false) => ColorKey::ElOleDcHigh,
        (Some(ElectricSystem::Dc), VoltageGroup::Low, true) => ColorKey::ElOleDcLowPax,
        (Some(ElectricSystem::Dc), VoltageGroup::Low, false) => ColorKey::ElOleDcLow,
        _ => ColorKey::Toxic,
    }
}

/// The color of a power rail system in use.
pub open spec fn rail_key(rail: ElectricRail, pax: bool) -> ColorKey {
    match (rail.fourth, pax) {
        (false, true) => ColorKey::ElRailPax,
        (false, false) => ColorKey::ElRail,
        (true, true) => ColorKey::ElRailFourPax,
        (true, false) => ColorKey::ElRailFour,
    }
}

//------------ The choice, stated --------------------------------------------

/// The color of a tram by its status; none for anything else.
pub open spec fn spec_tram_color(class: Railway) -> Option<ColorKey> {
    if category_of(class) != Category::Tram {
        None
    } else {
        Some(match status_of(class) {
            Status::Open | Status::Planned => ColorKey::Tram,
            Status::Closed => ColorKey::TramClosed,
            Status::Removed | Status::Explanned => ColorKey::TramRemoved,
            Status::Gone => ColorKey::TramGone,
        })
    }
}

/// The color of a railway out of use; none for one in use or planned.
pub open spec fn spec_ex_color(status: Status) -> Option<ColorKey> {
    match status {
        Status::Open | Status::Planned => None,
        Status::Closed => Some(ColorKey::Closed),
        Status::Removed | Status::Explanned => Some(ColorKey::Removed),
        Status::Gone => Some(ColorKey::Gone),
    }
}

/// The color shared by all palettes: that of a tram, else that of a
/// railway out of use.
pub open spec fn spec_common_color(class: Railway) -> Option<ColorKey> {
    match spec_tram_color(class) {
        Some(c) => Some(c),
        None => spec_ex_color(status_of(class)),
    }
}

/// The color of a railway in the electrification palette.
pub open spec fn spec_el_color(class: Railway) -> ColorKey {
    match spec_common_color(class) {
        Some(c) => c,
        None => match class.opt_cat() {
            Some(cat) if cat.status == ElectricStatus::Open => ole_key(cat, full_pax(class)),
            _ => match class.opt_rail() {
                Some(rail) if rail.status == ElectricStatus::Open => rail_key(rail, full_pax(class)),
                _ => if full_pax(class) { ColorKey::ElNonePax } else { ColorKey::ElNone },
            },
        },
    }
}

/// The color of a railway in the passenger palette.
pub open spec fn spec_pax_color(class: Railway) -> ColorKey {
    if status_of(class) != Status::Open {
        ColorKey::PaxClosed
    } else if class.opt_pax() is None || class.opt_pax() == Some(Pax::NoPax) {
        ColorKey::PaxNone
    } else {
        ColorKey::PaxFull
    }
}

/// The color of a railway in a palette.
pub open spec fn spec_color(palette: Palette, class: Railway) -> ColorKey {
    match palette {
        Palette::Pax => spec_pax_color(class),
        _ => spec_el_color(class),
    }
}

/// The color of the label of a railway out of use or a tram.
pub open spec fn spec_ex_label_color(class: Railway) -> Option<ColorKey> {
    match spec_tram_color(class) {
        Some(c) => Some(c),
        None => match status_of(class) {
            Status::Open | Status::Planned => None,
            Status::Closed => Some(ColorKey::ClosedText),
            Status::Removed | Status::Explanned => Some(ColorKey::RemovedText),
            Status::Gone => Some(ColorKey::GoneText),
        },
    }
}

/// The color of the label of a railway in a palette.
pub open spec fn spec_label_color(palette: Palette, class: Railway) -> ColorKey {
    match spec_ex_label_color(class) {
        Some(c) => c,
        None => spec_color(palette, class),
    }
}

/// The color of the overhead line markings in the electrification palette.
pub open spec fn spec_el_cat_color(class: Railway) -> Option<ColorKey> {
    match class.opt_cat() {
        None => None,
        Some(cat) => Some(
            if category_of(class) == Category::Tram {
                if cat.status == ElectricStatus::Open { ColorKey::Tram } else { ColorKey::TramRemoved }
            } else if cat.status == ElectricStatus::Open {
                ole_key(cat, full_pax(class))
            } else {
                ColorKey::Removed
            },
        ),
    }
}

/// The color of the overhead line markings in the passenger palette.
pub open spec fn spec_pax_cat_color(class: Railway) -> Option<ColorKey> {
    match class.opt_cat() {
        None => None,
        Some(cat) => Some(
            if cat.status == ElectricStatus::Open { spec_pax_color(class) } else { ColorKey::Removed },
        ),
    }
}

/// The color of the overhead line markings in a palette.
pub open spec fn spec_cat_color(palette: Palette, class: Railway) -> Option<ColorKey> {
    match palette {
        Palette::Pax => spec_pax_cat_color(class),
        _ => spec_el_cat_color(class),
    }
}

/// The color of the power rail markings in the electrification palette.
pub open spec fn spec_el_rail_color(class: Railway) -> Option<ColorKey> {
    match class.opt_rail() {
        None => None,
        Some(rail) => Some(
            if category_of(class) == Category::Tram {
                if rail.status == ElectricStatus::Open { ColorKey::Tram } else { ColorKey::TramRemoved }
            } else if rail.status == ElectricStatus::Open {
                rail_key(rail, full_pax(class))
            } else {
                ColorKey::Removed
            },
        ),
    }
}

/// The color of the power rail markings in the passenger palette.
pub open spec fn spec_pax_rail_color(class: Railway) -> Option<ColorKey> {
    match class.opt_rail() {
        None => None,
        Some(rail) => Some(
            if rail.status == ElectricStatus::Open { spec_pax_color(class) } else { ColorKey::Removed },
        ),
    }
}

/// The color of the power rail markings in a palette.
pub open spec fn spec_rail_color(palette: Palette, class: Railway) -> Option<ColorKey> {
    match palette {
        Palette::Pax => spec_pax_rail_color(class),
        _ => spec_el_rail_color(class),
    }
}

//------------ The choice, computed ------------------------------------------

fn ole_color(cat: ElectricCat, pax: bool) -> (res: ColorKey)
    ensures
        res == ole_key(cat, pax),
{
    let group = cat.voltage_group();
    match (cat.system, group, pax) {
        (Some(ElectricSystem::Ac), VoltageGroup::High, true) => ColorKey::ElOleAcHighPax,
        (Some(ElectricSystem::Ac), VoltageGroup::High, false) => ColorKey::ElOleAcHigh,
        (Some(ElectricSystem::Ac), VoltageGroup::Low, true) => ColorKey::ElOleAcLowPax,
        (Some(ElectricSystem::Ac), VoltageGroup::Low, false) => ColorKey::ElOleAcLow,
        (Some(ElectricSystem::Dc), VoltageGroup::High, true) => ColorKey::ElOleDcHighPax,
        (Some(ElectricSystem::Dc), VoltageGroup::High, false) => ColorKey::ElOleDcHigh,
        (Some(ElectricSystem::Dc), VoltageGroup::Low, true) => ColorKey::ElOleDcLowPax,
        (Some(ElectricSystem::Dc), VoltageGroup::Low, false) => ColorKey::ElOleDcLow,
        _ => ColorKey::Toxic,
    }
}

fn rail_color_of(rail: ElectricRail, pax: bool) -> (res: ColorKey)
    ensures
        res == rail_key(rail, pax),
{
    match (rail.fourth, pax) {
        (false, true) => ColorKey::ElRailPax,
        (false, false) => ColorKey::ElRail,
        (true, true) => ColorKey::ElRailFourPax,
        (true, false) => ColorKey::ElRailFour,
    }
}

/// The color of a tram by its status; none for anything else.
pub fn tram_color(class: &Railway) -> (res: Option<ColorKey>)
    ensures
        res == spec_tram_color(*class),
{
    if !matches!(class.category(), Category::Tram) {
        return None;
    }
    match class.status() {
        Status::Open | Status::Planned => Some(ColorKey::Tram),
        Status::Closed => Some(ColorKey::TramClosed),
        Status::Removed | Status::Explanned => Some(ColorKey::TramRemoved),
        Status::Gone => Some(ColorKey::TramGone),
    }
}

/// The color of a railway out of use; none for one in use or planned.
pub fn ex_color(status: Status) -> (res: Option<ColorKey>)
    ensures
        res == spec_ex_color(status),
{
    match status {
        Status::Open | Status::Planned => None,
        Status::Closed => Some(ColorKey::Closed),
        Status::Removed | Status::Explanned => Some(ColorKey::Removed),
        Status::Gone => Some(ColorKey::Gone),
    }
}

/// The color shared by all palettes.
pub fn common_color(class: &Railway) -> (res: Option<ColorKey>)
    ensures
        res == spec_common_color(*class),
{
    if let Some(color) = tram_color(class) {
        return Some(color);
    }
    ex_color(class.status())
}

/// The color of a railway in the electrification palette.
pub fn el_color(class: &Railway) -> (res: ColorKey)
    ensures
        res == spec_el_color(*class),
{
    let pax = class.pax().is_full();
    if let Some(color) = common_color(class) {
        color
    } else if let Some(cat) = class.active_cat() {
        ole_color(cat, pax)
    } else if let Some(rail) = class.active_rail() {
        rail_color_of(rail, pax)
    } else if pax {
        ColorKey::ElNonePax
    } else {
        ColorKey::ElNone
    }
}

/// The color of a railway in the passenger palette.
pub fn pax_color(class: &Railway) -> (res: ColorKey)
    ensures
        res == spec_pax_color(*class),
{
    if !class.is_open() {
        ColorKey::PaxClosed
    } else {
        match class.pax() {
            Pax::NoPax => ColorKey::PaxNone,
            _ => ColorKey::PaxFull,
        }
    }
}

/// The color of a railway in the proof-reading palette.
pub fn proof_color(class: &Railway) -> (res: ColorKey)
    ensures
        res == spec_el_color(*class),
{
    el_color(class)
}

/// The color of a railway in a palette.
pub fn color(palette: Palette, class: &Railway) -> (res: ColorKey)
    ensures
        res == spec_color(palette, *class),
{
    match palette {
        Palette::Pax => pax_color(class),
        Palette::El => el_color(class),
        Palette::Proof => proof_color(class),
    }
}

/// The color of the label of a railway out of use or a tram.
pub fn ex_label_color(class: &Railway) -> (res: Option<ColorKey>)
    ensures
        res == spec_ex_label_color(*class),
{
    if let Some(color) = tram_color(class) {
        return Some(color);
    }
    match class.status() {
        Status::Open | Status::Planned => None,
        Status::Closed => Some(ColorKey::ClosedText),
        Status::Removed | Status::Explanned => Some(ColorKey::RemovedText),
        Status::Gone => Some(ColorKey::GoneText),
    }
}

/// The color of the label of a railway in a palette.
pub fn label_color(palette: Palette, class: &Railway) -> (res: ColorKey)
    ensures
        res == spec_label_color(palette, *class),
{
    if let Some(color) = ex_label_color(class) {
        color
    } else {
        color(palette, class)
    }
}

/// The color of the overhead line markings in the electrification palette.
pub fn el_cat_color(class: &Railway) -> (res: Option<ColorKey>)
    ensures
        res == spec_el_cat_color(*class),
{
    let cat = match class.cat() {
        Some(cat) => cat,
        None => return None,
    };
    if class.category().is_tram() {
        return Some(
            match cat.status {
                ElectricStatus::Open => ColorKey::Tram,
                ElectricStatus::Removed => ColorKey::TramRemoved,
            },
        );
    }
    Some(
        match cat.status {
            ElectricStatus::Open => ole_color(cat, class.pax().is_full()),
            ElectricStatus::Removed => ColorKey::Removed,
        },
    )
}

/// The color of the overhead line markings in the passenger palette.
pub fn pax_cat_color(class: &Railway) -> (res: Option<ColorKey>)
    ensures
        res == spec_pax_cat_color(*class),
{
    match class.cat() {
        Some(cat) => Some(
            match cat.status {
                ElectricStatus::Open => pax_color(class),
                ElectricStatus::Removed => ColorKey::Removed,
            },
        ),
        None => None,
    }
}

/// The color of the overhead line markings in the proof-reading palette.
pub fn proof_cat_color(class: &Railway) -> (res: Option<ColorKey>)
    ensures
        res == spec_el_cat_color(*class),
{
    el_cat_color(class)
}

/// The color of the overhead line markings in a palette.
pub fn cat_color(palette: Palette, class: &Railway) -> (res: Option<ColorKey>)
    ensures
        res == spec_cat_color(palette, *class),
{
    match palette {
        Palette::Pax => pax_cat_color(class),
        Palette::El => el_cat_color(class),
        Palette::Proof => proof_cat_color(class),
    }
}

/// The color of the power rail markings in the electrification palette.
pub fn el_rail_color(class: &Railway) -> (res: Option<ColorKey>)
    ensures
        res == spec_el_rail_color(*class),
{
    let rail = match class.rail() {
        Some(rail) => rail,
        None => return None,
    };
    if class.category().is_tram() {
        return Some(
            match rail.status {
                ElectricStatus::Open => ColorKey::Tram,
                ElectricStatus::Removed => ColorKey::TramRemoved,
            },
        );
    }
    Some(
        match rail.status {
            ElectricStatus::Open => rail_color_of(rail, class.pax().is_full()),
            ElectricStatus::Removed => ColorKey::Removed,
        },
    )
}

/// The color of the power rail markings in the passenger palette.
pub fn pax_rail_color(class: &Railway) -> (res: Option<ColorKey>)
    ensures
        res == spec_pax_rail_color(*class),
{
    match class.rail() {
        Some(rail) => Some(
            match rail.status {
                ElectricStatus::Open => pax_color(class),
                ElectricStatus::Removed => ColorKey::Removed,
            },
        ),
        None => None,
    }
}

/// The color of the power rail markings in the proof-reading palette.
pub fn proof_rail_color(class: &Railway) -> (res: Option<ColorKey>)
    ensures
        res == spec_el_rail_color(*class),
{
    el_rail_color(class)
}

/// The color of the power rail markings in a palette.
pub fn rail_color(palette: Palette, class: &Railway) -> (res: Option<ColorKey>)
    ensures
        res == spec_rail_color(palette, *class),
{
    match palette {
        Palette::Pax => pax_rail_color(class),
        Palette::El => el_rail_color(class),
        Palette::Proof => proof_rail_color(class),
    }
}

//------------ Laws ------------------------------------------------------------

/// An open, non-tram railway with an overhead line in use is drawn in the
/// color of its system: 20 kV AC and up high AC, less low AC, 2 kV DC and
/// up high DC, less low DC, each in its passenger variant with full
/// passenger service; a line without a known system is drawn as toxic.
pub proof fn law_el_color_ole(class: Railway, c: ElectricCat)
    requires
        category_of(class) != Category::Tram,
        status_of(class) == Status::Open || status_of(class) == Status::Planned,
        class.opt_cat() == Some(c),
        c.status == ElectricStatus::Open,
    ensures
        (c.system == Some(ElectricSystem::Ac) && c.voltage is Some && c.voltage->0 >= 20000)
            ==> spec_el_color(class) == (if full_pax(class) { ColorKey::ElOleAcHighPax } else { ColorKey::ElOleAcHigh }),
        (c.system == Some(ElectricSystem::Ac) && c.voltage is Some && c.voltage->0 < 20000)
            ==> spec_el_color(class) == (if full_pax(class) { ColorKey::ElOleAcLowPax } else { ColorKey::ElOleAcLow }),
        (c.system == Some(ElectricSystem::Dc) && c.voltage is Some && c.voltage->0 >= 2000)
            ==> spec_el_color(class) == (if full_pax(class) { ColorKey::ElOleDcHighPax } else { ColorKey::ElOleDcHigh }),
        (c.system == Some(ElectricSystem::Dc) && c.voltage is Some && c.voltage->0 < 2000)
            ==> spec_el_color(class) == (if full_pax(class) { ColorKey::ElOleDcLowPax } else { ColorKey::ElOleDcLow }),
        (c.system is None || c.voltage is None) ==> spec_el_color(class) == ColorKey::Toxic,
{
}

/// In the passenger palette, a railway's color depends only on its status
/// and passenger service: closed or gone railways are drawn alike, and
/// open ones by whether they have passenger service.
pub proof fn law_pax_color_parts(a: Railway, b: Railway)
    requires
        a.opt_status() == b.opt_status(),
        a.opt_pax() == b.opt_pax(),
    ensures
        spec_pax_color(a) == spec_pax_color(b),
        status_of(a) != Status::Open ==> spec_pax_color(a) == ColorKey::PaxClosed,
        (status_of(a) == Status::Open && a.opt_pax() == Some(Pax::Full)) ==> spec_pax_color(a) == ColorKey::PaxFull,
        (status_of(a) == Status::Open && (a.opt_pax() is None || a.opt_pax() == Some(Pax::NoPax))) ==> spec_pax_color(a) == ColorKey::PaxNone,
{
}

/// In the electrification palette, a tram is drawn in tram colors and a
/// railway out of use in the color of its status, whatever its
/// electrification; an open, non-tram railway is drawn by its active
/// electrification, overhead line before power rail.
pub proof fn law_el_color(class: Railway)
    ensures
        category_of(class) == Category::Tram ==> (spec_el_color(class) == ColorKey::Tram
            || spec_el_color(class) == ColorKey::TramClosed || spec_el_color(class) == ColorKey::TramRemoved
            || spec_el_color(class) == ColorKey::TramGone),
        (category_of(class) != Category::Tram && status_of(class) == Status::Closed) ==> spec_el_color(class) == ColorKey::Closed,
        (category_of(class) != Category::Tram && status_of(class) == Status::Gone) ==> spec_el_color(class) == ColorKey::Gone,
        (category_of(class) != Category::Tram && (status_of(class) == Status::Open || status_of(class) == Status::Planned)
            && class.opt_cat() is None && class.opt_rail() is None)
            ==> spec_el_color(class) == (if full_pax(class) { ColorKey::ElNonePax } else { ColorKey::ElNone }),
{
}

} // verus!
