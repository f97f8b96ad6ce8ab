use railmap::library::class::{Class, Electrification, OptClass, Pax, Speed, Status};
use railmap::library::feature::label::{
    FontFace, FontFaceBuilder, FontFamily, FontSize, FontSlant, FontStretch, FontWeight,
};
use railmap::library::functions::Function;
use railmap::library::feature::guide::GuideContour;
use railmap::library::track::{Category, Status as TrackStatus, TrackShading};
use railmap::symbols::SymbolSet;

fn symbols(names: &[&str]) -> SymbolSet {
    let mut set = SymbolSet::new();
    for name in names {
        set.insert(name);
    }
    set
}

#[test]
fn library_class_from_symbols() {
    let set = symbols(&["removed", "cat", "dc15", "v250", "museum", "tram"]);
    let class = Class::from_symbols(&set);
    assert_eq!(class.status(), Status::Removed);
    assert_eq!(class.electrification(), Electrification::OleDcLow);
    assert_eq!(class.speed(), Speed::V250);
    assert_eq!(class.pax(), Pax::Limited);
    assert!(class.tram());
    // Reading the class leaves the symbols alone.
    assert_eq!(set.len(), 6);

    let class = Class::from_symbols(&symbols(&[]));
    assert_eq!(class.status(), Status::Open);
    assert_eq!(class.electrification(), Electrification::Unelectrified);
    assert_eq!(class.speed(), Speed::Normal);
    assert_eq!(class.pax(), Pax::NoPax);
    assert!(!class.tram());
}

#[test]
fn electrification_choices() {
    let el = |names: &[&str]| Class::from_symbols(&symbols(names)).electrification();
    assert_eq!(el(&["cat", "ac6k6"]), Electrification::OleAcLow);
    assert_eq!(el(&["cat", "ac25", "ac15"]), Electrification::OleAcLow);
    assert_eq!(el(&["cat", "ac25"]), Electrification::OleAcHigh);
    assert_eq!(el(&["cat", "dc30"]), Electrification::OleDcHigh);
    assert_eq!(el(&["cat", "dc6"]), Electrification::OleDcLow);
    assert_eq!(el(&["cat"]), Electrification::OleUnknown);
    assert_eq!(el(&["cat", "rail", "dc12"]), Electrification::OleUnknown);
    assert_eq!(el(&["rail", "dc12"]), Electrification::RailHigh);
    assert_eq!(el(&["rail", "dc75"]), Electrification::RailLow);
    assert_eq!(el(&["rail"]), Electrification::RailUnknown);
    assert!(Electrification::OleAcHigh.is_ole());
    assert!(!Electrification::OleUnknown.is_ole());
    assert!(Electrification::RailLow.is_rail());
    assert!(!Electrification::RailUnknown.is_rail());
    assert!(Pax::Full.is_full());
    assert!(!Pax::Limited.is_full());
    assert!(Speed::V300.is_hsl());
    assert!(!Speed::Normal.is_hsl());
}

#[test]
fn opt_class_from_symbols() {
    // Construction through the public constructor only; the parts are
    // checked through the track shading that uses the same reading.
    let _ = OptClass::from_symbols(&symbols(&["tram", "closed"]));
    let _ = OptClass::from_symbols(&symbols(&["pax"]));
    let _ = OptClass::from_symbols(&symbols(&["former"]));
}

#[test]
fn font_size_from_symbols() {
    let mut set = symbols(&["large", "small"]);
    assert_eq!(FontSize::from_symbols(&mut set), Some(FontSize::Small));
    assert!(set.contains("large"));
    assert!(!set.contains("small"));
    assert_eq!(FontSize::from_symbols(&mut set), Some(FontSize::Large));
    assert_eq!(FontSize::from_symbols(&mut set), None);
    let mut set = symbols(&["badgesize"]);
    assert_eq!(FontSize::from_symbols(&mut set), Some(FontSize::Badge));
    assert!(set.is_empty());
    assert_eq!(FontSize::default(), FontSize::Medium);
}

#[test]
fn font_face_builder_from_symbols() {
    let mut set = symbols(&["designation", "upright", "light", "regular", "other"]);
    let builder = FontFaceBuilder::from_symbols(&mut set);
    assert_eq!(
        builder,
        FontFaceBuilder {
            family: None,
            stretch: Some(FontStretch::Regular),
            slant: Some(FontSlant::Italic),
            weight: Some(FontWeight::Light),
        }
    );
    // `upright` was not looked at once `designation` selected the slant.
    assert!(set.contains("upright"));
    assert!(set.contains("other"));
    assert_eq!(set.len(), 2);
}

#[test]
fn font_face_builder_update_and_apply() {
    let face = FontFace::new(FontFamily::Fira, FontStretch::Regular, FontSlant::Upright, FontWeight::Book);
    let bold = FontFaceBuilder { weight: Some(FontWeight::Bold), ..FontFaceBuilder::default() };
    let italic_light = FontFaceBuilder {
        slant: Some(FontSlant::Italic),
        weight: Some(FontWeight::Light),
        ..FontFaceBuilder::default()
    };
    let both = bold.update(italic_light);
    assert_eq!(both.weight, Some(FontWeight::Light));
    assert_eq!(both.slant, Some(FontSlant::Italic));
    assert_eq!(both.stretch, None);
    // Applying the update is applying one after the other.
    assert_eq!(both.apply(face), italic_light.apply(bold.apply(face)));
    assert_eq!(
        both.apply(face),
        FontFace::new(FontFamily::Fira, FontStretch::Regular, FontSlant::Italic, FontWeight::Light)
    );
    // No changes keep the face and the builder.
    assert_eq!(FontFaceBuilder::default().apply(face), face);
    assert_eq!(bold.update(FontFaceBuilder::default()), bold);
    assert_eq!(FontFaceBuilder::default().update(bold), bold);
}

#[test]
fn library_function_lookup() {
    for name in ["hbar", "hbox", "path", "span", "vbox"] {
        assert!(Function::lookup(name).is_some(), "{}", name);
    }
    assert!(Function::lookup("rgb").is_none());
    assert!(Function::lookup("").is_none());
    assert!(Function::lookup("hbo").is_none());
}

#[test]
fn track_category() {
    let cat = |names: &[&str]| Category::from_symbols(&symbols(names));
    assert_eq!(cat(&["none", "first"]), Category::NoCategory);
    assert_eq!(cat(&["first"]), Category::First);
    assert_eq!(cat(&["guide"]), Category::Guide);
    assert_eq!(cat(&[]), Category::Station);
    assert!(Category::Second.is_main_line());
    assert!(!Category::Third.is_main_line());
    assert!(Category::Guide.is_guide());
    assert!(!Category::NoCategory.has_base());
    assert!(Category::Station.has_base());
    assert!(TrackStatus::Ex.present());
    assert!(!TrackStatus::Never.present());
}

#[test]
fn track_shading() {
    let _ = TrackShading::new(&symbols(&["double", "cat"]));
}

#[test]
fn library_guide_from_arg() {
    assert!(GuideContour::from_arg(symbols(&["linenum", "casing"])).is_ok());
    assert!(GuideContour::from_arg(symbols(&[])).is_ok());
    // The class is read without taking its symbols, so they are left over.
    assert!(GuideContour::from_arg(symbols(&["closed"])).is_err());
}

#[test]
fn closed_and_removed_is_removed() {
    let class = Class::from_symbols(&symbols(&["closed", "removed"]));
    assert_eq!(class.status(), Status::Removed);
    assert_eq!(Class::from_symbols(&symbols(&["closed"])).status(), Status::Closed);
    assert_eq!(Class::from_symbols(&symbols(&["gone", "closed"])).status(), Status::Closed);
}
