use railmap::class::{
    Category, ElectricCat, ElectricRail, ElectricStatus, ElectricSystem, Gauge, GaugeGroup, Pax,
    Railway, Speed, Status, Surface, VoltageGroup,
};
use railmap::symbols::SymbolSet;

fn symbols(names: &[&str]) -> SymbolSet {
    let mut set = SymbolSet::new();
    for name in names {
        set.insert(name);
    }
    set
}

/// Reads a class from the symbols, leaving the others in the set.
fn read(set: &mut SymbolSet) -> Railway {
    Railway::from_symbols(set, &Railway::default())
}

fn parts(class: &Railway) -> (Category, Status, Surface, Speed, Pax, Gauge, GaugeGroup, bool) {
    (
        class.category(),
        class.status(),
        class.surface(),
        class.speed(),
        class.pax(),
        class.gauge(),
        class.gauge_group(),
        class.double(),
    )
}

#[test]
fn empty_class_has_defaults() {
    let class = Railway::default();
    assert_eq!(class.category(), Category::Siding);
    assert_eq!(class.status(), Status::Open);
    assert_eq!(class.surface(), Surface::Ground);
    assert_eq!(class.speed(), Speed::V160);
    assert_eq!(class.pax(), Pax::NoPax);
    assert_eq!(class.gauge(), Gauge::new(1435, None));
    assert_eq!(class.gauge_group(), GaugeGroup::Standard);
    assert!(!class.double());
    assert!(class.cat().is_none());
    assert!(class.rail().is_none());
    assert!(class.is_open());
    assert!(class.is_open_no_pax());
}

#[test]
fn class_from_symbols() {
    let mut set = symbols(&[
        "second", "closed", "cat", "ac15", "rail4", "rc75", "v200", "pax", "g1000", "gg1435",
        "narrow", "double", "unknown",
    ]);
    let class = read(&mut set);
    assert_eq!(class.category(), Category::Second);
    assert_eq!(class.status(), Status::Closed);
    assert_eq!(
        class.cat(),
        Some(ElectricCat {
            status: ElectricStatus::Open,
            voltage: Some(15000),
            system: Some(ElectricSystem::Ac),
        })
    );
    assert_eq!(
        class.rail(),
        Some(ElectricRail { status: ElectricStatus::Open, voltage: Some(750), fourth: true })
    );
    assert_eq!(class.speed(), Speed::V200);
    assert_eq!(class.pax(), Pax::Full);
    assert_eq!(class.gauge().main(), 1000);
    assert_eq!(class.gauge().secondary(), Some(1435));
    assert_eq!(class.gauge_group(), GaugeGroup::Narrow);
    assert!(class.double());
    assert!(!class.is_open());
    // Only the symbol that selects nothing is left.
    assert_eq!(set.len(), 1);
    assert!(set.contains("unknown"));
}

#[test]
fn status_choices() {
    let mut set = symbols(&["project", "removed"]);
    assert_eq!(read(&mut set).status(), Status::Explanned);
    let mut set = symbols(&["project"]);
    assert_eq!(read(&mut set).status(), Status::Planned);
    let mut set = symbols(&["exproject", "open"]);
    let class = read(&mut set);
    assert_eq!(class.status(), Status::Explanned);
    assert!(set.contains("open"));
    assert!(Status::Explanned.is_project());
    assert!(Status::Planned.is_project());
    assert!(!Status::Open.is_project());
}

#[test]
fn status_layer_offsets() {
    assert_eq!(Status::Open.layer_offset(), 0);
    assert_eq!(Status::Closed.layer_offset(), -10);
    assert_eq!(Status::Removed.layer_offset(), -20);
    assert_eq!(Status::Gone.layer_offset(), -30);
    assert_eq!(Status::Planned.layer_offset(), -40);
    assert_eq!(Status::Explanned.layer_offset(), -40);
}

#[test]
fn active_electrification() {
    let mut set = symbols(&["excat", "dc30", "rail", "rc63"]);
    let class = read(&mut set);
    assert!(!class.has_active_cat());
    assert!(class.active_cat().is_none());
    assert!(class.cat().is_some());
    assert!(class.has_active_rail());
    assert_eq!(class.active_rail().unwrap().voltage, Some(630));
}

#[test]
fn voltage_groups() {
    let cat = |voltage, system| ElectricCat { status: ElectricStatus::Open, voltage, system };
    assert_eq!(cat(Some(25000), Some(ElectricSystem::Ac)).voltage_group(), VoltageGroup::High);
    assert_eq!(cat(Some(20000), Some(ElectricSystem::Ac)).voltage_group(), VoltageGroup::High);
    assert_eq!(cat(Some(15000), Some(ElectricSystem::Ac)).voltage_group(), VoltageGroup::Low);
    assert_eq!(cat(Some(3000), Some(ElectricSystem::Dc)).voltage_group(), VoltageGroup::High);
    assert_eq!(cat(Some(2000), Some(ElectricSystem::Dc)).voltage_group(), VoltageGroup::High);
    assert_eq!(cat(Some(1500), Some(ElectricSystem::Dc)).voltage_group(), VoltageGroup::Low);
    assert_eq!(cat(None, Some(ElectricSystem::Dc)).voltage_group(), VoltageGroup::Unknown);
    assert_eq!(cat(Some(1500), None).voltage_group(), VoltageGroup::Unknown);
    let rail = |voltage| ElectricRail { status: ElectricStatus::Open, voltage, fourth: false };
    assert_eq!(rail(Some(1200)).voltage_group(), VoltageGroup::High);
    assert_eq!(rail(Some(1000)).voltage_group(), VoltageGroup::High);
    assert_eq!(rail(Some(750)).voltage_group(), VoltageGroup::Low);
    assert_eq!(rail(None).voltage_group(), VoltageGroup::Unknown);
}

#[test]
fn category_predicates() {
    assert!(Category::First.is_main());
    assert!(Category::Second.is_main());
    assert!(!Category::Third.is_main());
    assert!(Category::Tram.is_tram());
    assert!(!Category::Siding.is_tram());
    assert!(Surface::Tunnel.is_tunnel());
    assert!(!Surface::Bridge.is_tunnel());
    assert!(Speed::V250.is_hsl());
    assert!(!Speed::V160.is_hsl());
    assert!(Pax::Full.is_full());
    assert!(!Pax::Seasonal.is_full());
}

#[test]
fn heritage_symbols() {
    for name in ["heritage", "museum", "tourist"] {
        let mut set = symbols(&[name]);
        assert_eq!(read(&mut set).pax(), Pax::Heritage);
        assert!(set.is_empty());
    }
    let mut set = symbols(&["nopax", "pax"]);
    assert_eq!(read(&mut set).pax(), Pax::NoPax);
    assert!(set.contains("pax"));
}

#[test]
fn gauge_needs_main_gauge() {
    let mut set = symbols(&["gg750"]);
    assert!(Gauge::from_symbols(&mut set).is_none());
    assert!(set.contains("gg750"));
    let mut set = symbols(&["g760", "g1000"]);
    assert_eq!(Gauge::from_symbols(&mut set), Some(Gauge::new(760, None)));
    assert!(set.contains("g1000"));
}

#[test]
fn update_fills_unset_parts() {
    let mut set = symbols(&["first", "tunnel"]);
    let mut class = read(&mut set);
    let mut base_set = symbols(&["third", "closed", "v300", "single"]);
    let base = read(&mut base_set);
    class.update(&base);
    assert_eq!(class.category(), Category::First);
    assert_eq!(class.status(), Status::Closed);
    assert_eq!(class.speed(), Speed::V300);
    assert!(!class.double());
    // The surface is not selected by symbols.
    assert_eq!(class.surface(), Surface::Ground);
    assert!(set.contains("tunnel"));
}

#[test]
fn update_laws_on_values() {
    let a = read(&mut symbols(&["first"]));
    let b = read(&mut symbols(&["closed", "pax"]));
    let c = read(&mut symbols(&["second", "removed", "v200"]));

    // Completing from the empty class changes nothing.
    let mut x = a;
    x.update(&Railway::default());
    assert_eq!(parts(&x), parts(&a));

    // Completing twice from the same base is completing once.
    let mut once = a;
    once.update(&b);
    let mut twice = once;
    twice.update(&b);
    assert_eq!(parts(&once), parts(&twice));

    // Associativity.
    let mut ab_c = a;
    ab_c.update(&b);
    ab_c.update(&c);
    let mut bc = b;
    bc.update(&c);
    let mut a_bc = a;
    a_bc.update(&bc);
    assert_eq!(parts(&ab_c), parts(&a_bc));
    assert_eq!(ab_c.status(), Status::Closed);
    assert_eq!(ab_c.speed(), Speed::V200);
}

#[test]
fn symbols_atop_base() {
    let base = read(&mut symbols(&["second", "closed", "double"]));
    let mut set = symbols(&["first", "pax"]);
    let atop = Railway::from_symbols(&mut set, &base);
    let mut alone = read(&mut symbols(&["first", "pax"]));
    alone.update(&base);
    assert_eq!(parts(&atop), parts(&alone));
    assert_eq!(atop.category(), Category::First);
    assert_eq!(atop.status(), Status::Closed);
    assert!(atop.double());
    assert!(set.is_empty());
}

#[test]
fn set_status_overrides() {
    let mut class = Railway::default();
    class.set_status(Status::Gone);
    assert_eq!(class.status(), Status::Gone);
    assert!(!class.is_open());
}

#[test]
fn class_from_arg() {
    let class = Railway::from_arg_only(symbols(&["first", "pax"])).unwrap();
    assert_eq!(class.category(), Category::First);
    assert_eq!(class.pax(), Pax::Full);
    assert!(Railway::from_arg_only(symbols(&["first", "bogus"])).is_err());
    let base = read(&mut symbols(&["closed", "v300"]));
    let class = Railway::from_arg(symbols(&["second"]), &base).unwrap();
    assert_eq!(class.category(), Category::Second);
    assert_eq!(class.status(), Status::Closed);
    assert_eq!(class.speed(), Speed::V300);
    assert!(Railway::from_arg(symbols(&["second", "bogus"]), &base).is_err());
}
