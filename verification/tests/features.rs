use railmap::class::{Category, Gauge, Status};
use railmap::feature::dot::{Inner, Size};
use railmap::feature::track::{Neighbor, TrackClass};
use railmap::features::label::Align;
use railmap::import::eval::Zoom;
use railmap::import::functions::Function as ImportFunction;
use railmap::import::load::Failed;
use railmap::map::feature::dot::Inner as MapInner;
use railmap::map::feature::stage::Stage;
use railmap::map::functions::Function as MapFunction;
use railmap::class::Railway;
use railmap::symbols::SymbolSet;
use railmap::feature::border::{BorderContour, Category as BorderCategory};
use railmap::library::border::Category as LibraryBorder;
use railmap::feature::guide::GuideContour;
use railmap::feature::dot::DotMarker;
use railmap::map::style::{InvalidStyle, Palette, StyleId};
use railmap::library::symbols::Symbol;
use railmap::map::functions::hex_color;
use railmap::import::eval::{DetailArg, DetailError, Param, ParamValue, RenderParams};
use railmap::import::path::{
    load_nodes, LoadedNode, MemberKind, NumberTag, OsmNode, OsmWay, PathErrorKind, PathMember, Tension,
};

fn symbols(names: &[&str]) -> SymbolSet {
    let mut set = SymbolSet::new();
    for name in names {
        set.insert(name);
    }
    set
}

#[test]
fn neighbors() {
    let mut set = symbols(&["leftsame", "leftother"]);
    assert_eq!(Neighbor::left_from_symbols(&mut set, false), Neighbor::Same);
    assert!(set.contains("leftother"));
    assert_eq!(Neighbor::left_from_symbols(&mut set, false), Neighbor::Other);
    assert_eq!(Neighbor::left_from_symbols(&mut set, false), Neighbor::NoNeighbor);
    let mut set = symbols(&["rightsame"]);
    assert_eq!(Neighbor::right_from_symbols(&mut set, true), Neighbor::Other);
    // Tight track takes no neighbor symbols.
    assert!(set.contains("rightsame"));
    assert_eq!(Neighbor::right_from_symbols(&mut set, false), Neighbor::Same);
    assert_eq!(Neighbor::default(), Neighbor::NoNeighbor);
}

#[test]
fn track_class_from_symbols() {
    let mut set = symbols(&["tight", "flip", "second", "closed", "g1000", "rightother", "station", "extra"]);
    let track = TrackClass::from_symbols(&mut set);
    assert_eq!(track.class().category(), Category::Second);
    assert_eq!(track.class().status(), Status::Closed);
    assert_eq!(track.class().gauge(), Gauge::new(1000, None));
    // The railway class took the gauge and tight track ignores neighbors.
    assert!(set.contains("rightother"));
    assert!(set.contains("extra"));
    assert_eq!(set.len(), 2);
}

#[test]
fn dot_size() {
    let mut set = symbols(&["large", "small", "medium"]);
    assert_eq!(Size::from_symbols(&mut set), Size::Small);
    assert_eq!(Size::from_symbols(&mut set), Size::Large);
    assert_eq!(Size::from_symbols(&mut set), Size::Medium);
    assert!(set.is_empty());
    assert_eq!(Size::from_symbols(&mut set), Size::Medium);
}

#[test]
fn dot_inner() {
    let open = Railway::default();
    let mut closed = Railway::default();
    closed.set_status(Status::Closed);
    let pax = Railway::from_arg_only(symbols(&["pax"])).unwrap();

    let mut set = symbols(&["filled", "open"]);
    assert_eq!(Inner::from_symbols(&open, &mut set), Inner::Fill);
    assert_eq!(Inner::from_symbols(&open, &mut set), Inner::Stroke);
    assert!(set.is_empty());
    let mut set = symbols(&["casing"]);
    assert_eq!(Inner::from_symbols(&open, &mut set), Inner::NoInner);
    assert!(set.contains("casing"));
    assert_eq!(Inner::from_symbols(&open, &mut symbols(&[])), Inner::Stroke);
    assert_eq!(Inner::from_symbols(&closed, &mut symbols(&[])), Inner::Fill);
    assert_eq!(Inner::from_symbols(&pax, &mut symbols(&[])), Inner::Fill);
    assert_eq!(Inner::default(), Inner::Fill);

    assert_eq!(MapInner::from_symbols(&mut symbols(&[])), MapInner::Fill);
    assert_eq!(MapInner::from_symbols(&mut symbols(&["casing"])), MapInner::NoInner);
    assert_eq!(MapInner::from_symbols(&mut symbols(&["open"])), MapInner::Stroke);
}

#[test]
fn align_from_symbols() {
    assert_eq!(Align::h_from_symbols(&symbols(&["right", "center"])), Some(Align::Center));
    assert_eq!(Align::h_from_symbols(&symbols(&["sep"])), Some(Align::Ref));
    assert_eq!(Align::h_from_symbols(&symbols(&["top"])), None);
    assert_eq!(Align::v_from_symbols(&symbols(&["top"])), Some(Align::Start));
    assert_eq!(Align::v_from_symbols(&symbols(&["bottom", "base"])), Some(Align::Ref));
    assert_eq!(Align::v_from_symbols(&symbols(&["left"])), None);
}

#[test]
fn zoom_from_symbols() {
    assert_eq!(Zoom::from_symbols(&symbols(&["high"])), Ok(Zoom::High));
    assert_eq!(Zoom::from_symbols(&symbols(&["low"])), Ok(Zoom::Low));
    assert_eq!(Zoom::from_symbols(&symbols(&["low", "high"])), Err(Failed));
    assert_eq!(Zoom::from_symbols(&symbols(&[])), Err(Failed));
    assert_eq!(Zoom::from_symbols(&symbols(&["medium"])), Err(Failed));
}

#[test]
fn function_lookup() {
    for name in [
        "align", "dashed_line", "font", "hbox", "line", "mono_symbol", "path", "rgb", "rgba",
        "span", "vbox",
    ] {
        assert!(ImportFunction::lookup(name).is_some(), "{}", name);
    }
    assert!(ImportFunction::lookup("hbar").is_none());
    for name in ["hbar", "hbox", "hexcolor", "path", "rgb", "span", "vbox"] {
        assert!(MapFunction::lookup(name).is_some(), "{}", name);
    }
    assert!(MapFunction::lookup("rgba").is_none());
}

#[test]
fn stages_in_order() {
    let mut iter = Stage::Back.into_iter();
    assert_eq!(iter.next(), Some(Stage::Back));
    assert_eq!(iter.next(), Some(Stage::Casing));
    assert_eq!(iter.next(), Some(Stage::InsideBase));
    assert_eq!(iter.next(), Some(Stage::Inside));
    assert_eq!(iter.next(), Some(Stage::Base));
    assert_eq!(iter.next(), None);
    assert_eq!(iter.next(), None);
    let mut iter = Stage::Inside.into_iter();
    assert_eq!(iter.next(), Some(Stage::Inside));
    assert_eq!(iter.next(), Some(Stage::Base));
    assert_eq!(iter.next(), None);
    assert_eq!(Stage::default(), Stage::Back);
}

#[test]
fn border_from_arg() {
    let border = BorderContour::from_arg(symbols(&["state", "former"]), 3u8).unwrap();
    assert_eq!(border.category(), BorderCategory::State);
    assert!(border.former());
    let border = BorderContour::from_arg(symbols(&["national", "state"]), 3u8);
    assert!(border.is_err());
    let border = BorderContour::from_arg(symbols(&["national"]), 3u8).unwrap();
    assert_eq!(border.category(), BorderCategory::National);
    assert!(!border.former());
    assert_eq!(BorderContour::from_arg(symbols(&["former"]), ()).err(), Some(Failed));

    assert_eq!(LibraryBorder::from_symbols(&symbols(&["state"])), LibraryBorder::State);
    assert_eq!(LibraryBorder::from_symbols(&symbols(&[])), LibraryBorder::National);
}

#[test]
fn guide_from_symbols() {
    assert!(GuideContour::from_symbols(symbols(&["first", "casing"]), ()).is_ok());
    assert!(GuideContour::from_symbols(symbols(&[]), ()).is_ok());
    assert!(GuideContour::from_symbols(symbols(&["first", "station"]), ()).is_err());
}

#[test]
fn dot_markers() {
    let mut set = symbols(&["statdot", "first"]);
    let dot = DotMarker::try_from_arg(&mut set, "here").unwrap().unwrap();
    assert_eq!(dot.class().category(), Category::First);
    let mut set = symbols(&["first"]);
    assert!(DotMarker::try_from_arg(&mut set, "here").unwrap().is_none());
    assert!(set.contains("first"));
    let mut set = symbols(&["dot.casing", "bogus"]);
    assert!(DotMarker::try_from_arg(&mut set, "here").is_err());

    let dot = DotMarker::from_arg(symbols(&["large", "closed", "over"]), 0).unwrap();
    assert_eq!(dot.class().status(), Status::Closed);
    assert!(DotMarker::from_arg(symbols(&["large", "bogus"]), 0).is_err());
    let guide = DotMarker::guide(Railway::default(), 1);
    assert_eq!(guide.class().category(), Category::Siding);

    let mut set = symbols(&["over", "casing"]);
    assert!(DotMarker::<()>::casing_from_symbols(&mut set));
    assert!(!DotMarker::<()>::casing_from_symbols(&mut set));
    assert!(DotMarker::<()>::casing_from_symbols(&mut set));
    assert!(set.is_empty());
}

#[test]
fn track_class_from_arg() {
    assert!(TrackClass::from_arg(symbols(&["first", "station", "double", "leftsame"])).is_ok());
    assert!(TrackClass::from_arg(symbols(&["first", "bogus"])).is_err());
}

#[test]
fn symbols_exhausted() {
    assert_eq!(symbols(&[]).check_exhausted(), Ok(()));
    assert_eq!(symbols(&["a"]).check_exhausted(), Err(Failed));
}

#[test]
fn style_names() {
    assert_eq!("sp".parse::<StyleId>(), Ok(StyleId::Overview(Palette::Pax)));
    assert_eq!(StyleId::from_name("se"), Ok(StyleId::Overview(Palette::El)));
    assert_eq!(StyleId::from_name("sx"), Ok(StyleId::Overview(Palette::Proof)));
    assert_eq!(StyleId::from_name("lp"), Ok(StyleId::Detail(Palette::Pax)));
    assert_eq!(StyleId::from_name("le"), Ok(StyleId::Detail(Palette::El)));
    assert_eq!(StyleId::from_name("lx"), Ok(StyleId::Detail(Palette::Proof)));
    assert_eq!(StyleId::from_name("l"), Err(InvalidStyle));
    assert_eq!(StyleId::from_name("lxx"), Err(InvalidStyle));
    assert_eq!(StyleId::Detail(Palette::El).palette(), Palette::El);
    assert!(!Palette::Pax.show_linenum());
    assert!(Palette::Proof.show_linenum());
}

#[test]
fn library_symbol_lookup() {
    assert!(Symbol::lookup("de_bf").is_some());
    assert!(Symbol::lookup("de_hp").is_some());
    assert!(Symbol::lookup("de").is_none());
}

#[test]
fn double_track_is_kept() {
    let mut set = symbols(&["double"]);
    let track = TrackClass::from_symbols(&mut set);
    assert!(set.is_empty());
    assert!(TrackClass::from_arg(symbols(&["double", "first"])).is_ok());
    // The class does not see the symbol: it is the track's own.
    assert!(!track.class().double());
    assert!(track.double());
}

#[test]
fn hex_color_codes() {
    assert_eq!(hex_color("5a3a29"), Some((0x5a, 0x3a, 0x29)));
    assert_eq!(hex_color("FFffff"), Some((255, 255, 255)));
    assert_eq!(hex_color("+f0a0b"), None);
    assert_eq!(hex_color("+f+f+f"), None);
    assert_eq!(hex_color("ff0000"), Some((255, 0, 0)));
    assert_eq!(hex_color("5a3a2"), None);
    assert_eq!(hex_color("5a3a29ff"), None);
    assert_eq!(hex_color("5g3a29"), None);
    assert_eq!(hex_color("5ä3a29"), None);
}

#[test]
fn render_params() {
    assert_eq!(Param::from_target("detail"), Ok(Param::Detail));
    assert_eq!(Param::from_target("style"), Ok(Param::Style));
    assert!(Param::from_target("colour").is_err());

    let mut params = RenderParams::new();
    assert_eq!(params.update(ParamValue::Detail(DetailArg::Number(300))), Some(DetailError::NotByte));
    assert_eq!(params.update(ParamValue::Detail(DetailArg::Other)), Some(DetailError::NotNumberOrPair));
    assert_eq!(
        params.update(ParamValue::Detail(DetailArg::List(vec![Some(1)]))),
        Some(DetailError::NotNumberOrPair)
    );
    assert_eq!(RenderParams::detail(&vec![params.clone()]), None);
    assert_eq!(params.update(ParamValue::Detail(DetailArg::List(vec![Some(4), Some(2)]))), None);
    assert_eq!(RenderParams::detail(&vec![params.clone()]), Some((2, 4)));
    assert_eq!(
        params.update(ParamValue::Detail(DetailArg::List(vec![Some(5), None]))),
        Some(DetailError::NotByte)
    );
    assert_eq!(RenderParams::detail(&vec![params.clone()]), Some((2, 4)));
    params.update(ParamValue::Layer(Some(-3)));
    params.update(ParamValue::Zoom(Ok(Zoom::High)));

    let mut inner = RenderParams::new();
    inner.update(ParamValue::Detail(DetailArg::Number(7)));
    let chain = vec![inner, params];
    assert_eq!(RenderParams::detail(&chain), Some((7, 7)));
    assert_eq!(RenderParams::layer(&chain), -3);
    assert_eq!(RenderParams::zoom(&chain), Some(Zoom::High));
    assert_eq!(RenderParams::layer(&vec![]), 0);
}

fn member(kind: MemberKind, id: i64, role: &str) -> PathMember {
    PathMember { kind, id, role: role.to_string() }
}

fn way(id: i64, nodes: &[i64], way_type: Option<&str>) -> OsmWay {
    OsmWay { id, nodes: nodes.to_vec(), way_type: way_type.map(String::from) }
}

fn node(id: i64, name: Option<&str>, post: NumberTag) -> OsmNode {
    OsmNode { id, name: name.map(String::from), pre: NumberTag::Absent, post }
}

#[test]
fn load_path_nodes() {
    let ways = vec![way(10, &[1, 2, 3], None), way(11, &[5, 4, 3], Some("straight"))];
    let nodes = vec![
        node(1, Some("a"), NumberTag::Absent),
        node(2, None, NumberTag::Absent),
        node(3, Some("b"), NumberTag::Absent),
        node(4, Some("a"), NumberTag::Valid),
        node(5, None, NumberTag::Invalid),
    ];
    let members = vec![member(MemberKind::Way, 10, ""), member(MemberKind::Way, 11, "reverse")];
    let mut err = Vec::new();
    let (loaded, names) = load_nodes(&members, &ways, &nodes, &"p".to_string(), &mut err);
    let ids: Vec<i64> = loaded.iter().map(|n| n.id).collect();
    assert_eq!(ids, vec![1, 2, 3, 4, 5]);
    // The joint takes the tension of the way that follows it.
    assert_eq!(loaded[2], LoadedNode { id: 3, pre: Tension::Curved, post: Tension::Straight });
    assert_eq!(loaded[3], LoadedNode { id: 4, pre: Tension::Straight, post: Tension::Tagged });
    // The last node carrying a name keeps it.
    assert_eq!(names, vec![("a".to_string(), 3), ("b".to_string(), 2)]);
    assert_eq!(err.len(), 2);
    assert!(matches!(&err[0], PathErrorKind::DuplicateName { name, .. } if name == "a"));
    assert!(matches!(err[1], PathErrorKind::InvalidPost { node: 5 }));
}

#[test]
fn load_path_errors() {
    let ways = vec![way(10, &[1, 2], Some("wiggly")), way(11, &[7, 8], None), way(12, &[], None)];
    let nodes = vec![node(1, None, NumberTag::Absent)];
    let members = vec![
        member(MemberKind::Node, 1, ""),
        member(MemberKind::Way, 10, "forward"),
        member(MemberKind::Way, 99, ""),
        member(MemberKind::Way, 12, ""),
        member(MemberKind::Way, 10, ""),
        member(MemberKind::Way, 11, ""),
        member(MemberKind::Way, 10, ""),
    ];
    let mut err = Vec::new();
    let (loaded, _) = load_nodes(&members, &ways, &nodes, &"p".to_string(), &mut err);
    // Loading stops at the way that does not continue the path.
    assert_eq!(loaded.len(), 2);
    assert_eq!(loaded[1], LoadedNode { id: 2, pre: Tension::Zero, post: Tension::Zero });
    assert!(matches!(err[0], PathErrorKind::NonWayMember { target: 1, .. }));
    assert!(matches!(err[1], PathErrorKind::UnknownRole { target: 10, .. }));
    assert!(matches!(err[2], PathErrorKind::MissingWay { way: 99, .. }));
    assert!(matches!(err[3], PathErrorKind::EmptyWay { way: 12, .. }));
    assert!(matches!(&err[4], PathErrorKind::IllegalWayType { way: 10, value, .. } if value == "wiggly"));
    assert!(matches!(err[5], PathErrorKind::MissingNode { node: 2 }));
    assert!(matches!(err[6], PathErrorKind::NonContiguous { way: 11, .. }));
    assert_eq!(err.len(), 7);
}

#[test]
fn track_property_markings() {
    assert!(TrackClass::from_symbols(&mut symbols(&["second"])).has_property());
    assert!(TrackClass::from_symbols(&mut symbols(&["third"])).has_property());
    assert!(!TrackClass::from_symbols(&mut symbols(&["first"])).has_property());
    assert!(TrackClass::from_symbols(&mut symbols(&["first", "narrow"])).has_property());
    assert!(!TrackClass::from_symbols(&mut symbols(&["standard"])).has_property());
}
