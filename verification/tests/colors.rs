use railmap::class::Railway;
use railmap::map::colors::{
    cat_color, color, el_color, label_color, pax_color, rail_color, ColorKey,
};
use railmap::map::style::Palette;
use railmap::symbols::SymbolSet;

fn class(names: &[&str]) -> Railway {
    let mut set = SymbolSet::new();
    for name in names {
        set.insert(name);
    }
    Railway::from_arg_only(set).unwrap()
}

#[test]
fn electrification_colors() {
    assert_eq!(el_color(&class(&["cat", "ac25", "pax"])), ColorKey::ElOleAcHighPax);
    assert_eq!(el_color(&class(&["cat", "ac15"])), ColorKey::ElOleAcLow);
    assert_eq!(el_color(&class(&["cat", "dc30"])), ColorKey::ElOleDcHigh);
    assert_eq!(el_color(&class(&["cat"])), ColorKey::Toxic);
    assert_eq!(el_color(&class(&["excat", "ac25"])), ColorKey::ElNone);
    assert_eq!(el_color(&class(&["rail4", "pax"])), ColorKey::ElRailFourPax);
    assert_eq!(el_color(&class(&["pax"])), ColorKey::ElNonePax);
    assert_eq!(el_color(&class(&["closed", "cat", "ac25"])), ColorKey::Closed);
    assert_eq!(el_color(&class(&["tram", "gone"])), ColorKey::TramGone);
    assert_eq!(color(Palette::Proof, &class(&["rail"])), ColorKey::ElRail);
}

#[test]
fn passenger_colors() {
    assert_eq!(pax_color(&class(&["pax"])), ColorKey::PaxFull);
    assert_eq!(pax_color(&class(&["heritage"])), ColorKey::PaxFull);
    assert_eq!(pax_color(&class(&[])), ColorKey::PaxNone);
    assert_eq!(pax_color(&class(&["project", "pax"])), ColorKey::PaxClosed);
    assert_eq!(color(Palette::Pax, &class(&["removed"])), ColorKey::PaxClosed);
}

#[test]
fn label_and_marking_colors() {
    assert_eq!(label_color(Palette::Pax, &class(&["closed"])), ColorKey::ClosedText);
    assert_eq!(label_color(Palette::El, &class(&["tram"])), ColorKey::Tram);
    assert_eq!(label_color(Palette::El, &class(&["cat", "ac25"])), ColorKey::ElOleAcHigh);
    assert_eq!(cat_color(Palette::El, &class(&[])), None);
    assert_eq!(cat_color(Palette::El, &class(&["excat"])), Some(ColorKey::Removed));
    assert_eq!(cat_color(Palette::El, &class(&["tram", "cat"])), Some(ColorKey::Tram));
    assert_eq!(cat_color(Palette::Pax, &class(&["cat", "pax"])), Some(ColorKey::PaxFull));
    assert_eq!(rail_color(Palette::El, &class(&["rail", "pax"])), Some(ColorKey::ElRailPax));
    assert_eq!(rail_color(Palette::Pax, &class(&["exrail"])), Some(ColorKey::Removed));
}
