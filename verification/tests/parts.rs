use building_envelope::climate::{
    get_monthly_radiation_data, ClimateData, ClimateError, ClimateZone, Orientation, Radiation,
};
use building_envelope::constructions::{
    glazing_u_value, resolve_glazing, resolve_layers, thickness, wall_u_value, Glazing, Layer,
};
use building_envelope::envelope::{
    belongs, boundary_factor_of, bridge_total, element_total, permeability_of, Bucket, Element,
    Measure, Methodology,
};
use building_envelope::get_version;
use building_envelope::indicators::{k_value, mean_u_value};
use building_envelope::logging::{log_level, LogLevel};
use building_envelope::lookup::find;
use building_envelope::model::{
    new_frame, new_glass, new_load, new_material, new_meta, new_shade, new_space,
    new_sys_setting, new_thermalbridge, new_wall, new_wallcons, new_wincons, new_window,
    BoundaryKind, Frame, Glass, Material, Meta, Model, Shade, ShadeKind, Space, SpaceKind,
    SpaceLoads, SpaceSysConditions, ThermalBridge, Wall, WallCons, WinCons, Window,
};
use building_envelope::obstruction::obstruction_of;
use building_envelope::quantity::{IndicatorError, Reference};
use building_envelope::solar::{q_soljul_value, shade_factor_of, shading, Gain};
use building_envelope::text::text_eq;
use building_envelope::validate::{every_known, is_repeated, some_wall_of, WarningKind};

fn text(s: &str) -> String {
    s.to_string()
}

#[test]
fn version_is_given() {
    assert_eq!(get_version(), "0.1.0");
}

#[test]
fn texts_are_compared_by_their_characters() {
    assert!(text_eq("A3", "A3"));
    assert!(!text_eq("A3", "A3c"));
    assert!(!text_eq("a3", "A3"));
    assert!(text_eq("", ""));
}

#[test]
fn log_levels_are_read() {
    assert_eq!(log_level("trace"), LogLevel::Trace);
    assert_eq!(log_level("debug"), LogLevel::Debug);
    assert_eq!(log_level("info"), LogLevel::Info);
    assert_eq!(log_level("warn"), LogLevel::Warn);
    assert_eq!(log_level("error"), LogLevel::Error);
    assert_eq!(log_level("verbose"), LogLevel::Error);
    assert_eq!(log_level(""), LogLevel::Error);
    assert_eq!(log_level("Trace"), LogLevel::Error);
}

#[test]
fn climate_zone_codes_round_trip() {
    for i in 0..32 {
        let zone = ClimateZone::from_index(i).unwrap();
        assert_eq!(zone.index(), i);
        assert_eq!(ClimateZone::from_code(zone.code()), Some(zone));
    }
    assert_eq!(ClimateZone::from_index(32), None);
    assert_eq!(ClimateZone::COUNT, 32);
    assert_eq!(ClimateZone::from_code("D3"), Some(ClimateZone::D3));
    assert_eq!(ClimateZone::from_code("A3c"), Some(ClimateZone::A3c));
    assert_eq!(ClimateZone::from_code("Alfa1c"), Some(ClimateZone::Alfa1c));
    assert_eq!(ClimateZone::D3.code(), "D3");
    assert_eq!(ClimateZone::D3.index(), 30);
    assert_eq!(ClimateZone::A1c.index(), 0);
}

#[test]
fn unknown_climate_zone_codes_are_refused() {
    assert_eq!(ClimateZone::from_code("D4"), None);
    assert_eq!(ClimateZone::from_code("d3"), None);
    assert_eq!(ClimateZone::from_code(""), None);
    assert_eq!(ClimateZone::from_code("D3 "), None);
}

#[test]
fn orientation_codes_round_trip() {
    let codes = ["N", "NE", "E", "SE", "S", "SW", "W", "NW", "HZ"];
    for i in 0..9 {
        let o = Orientation::from_index(i).unwrap();
        assert_eq!(o.index(), i);
        assert_eq!(o.code(), codes[i]);
        assert_eq!(Orientation::from_code(codes[i]), Some(o));
    }
    assert_eq!(Orientation::from_index(9), None);
    assert_eq!(Orientation::COUNT, 9);
    assert_eq!(Orientation::from_code("S"), Some(Orientation::South));
    assert_eq!(Orientation::from_code("HZ"), Some(Orientation::Horizontal));
    assert_eq!(Orientation::from_code("s"), None);
    assert_eq!(Orientation::from_code("NNE"), None);
}

fn numbered_table() -> ClimateData {
    let mut rows = Vec::new();
    for r in 0..288u32 {
        let mut row = [0u32; 12];
        for m in 0..12u32 {
            row[m as usize] = r * 100 + m;
        }
        rows.push(row);
    }
    ClimateData::from_rows(rows).unwrap()
}

#[test]
fn radiation_is_looked_up_by_zone_and_orientation() {
    let table = numbered_table();
    let r = table.radiation(ClimateZone::A1c, Orientation::North);
    assert_eq!(r.monthly[0], 0);
    assert_eq!(r.july, 6);
    let r = table.radiation(ClimateZone::D3, Orientation::South);
    // row 30 * 9 + 4 = 274
    assert_eq!(r.monthly[11], 27_411);
    assert_eq!(r.july, 27_406);
    let r = table.radiation(ClimateZone::E1, Orientation::Horizontal);
    assert_eq!(r.july, 28_706);
    assert_eq!(table.rows().len(), 288);
    assert_eq!(table.rows()[274][6], 27_406);
    assert_eq!(get_monthly_radiation_data(&table), table.rows());
    assert_eq!(get_monthly_radiation_data(&table)[1][0], 100);
}

#[test]
fn radiation_for_reads_codes() {
    let table = numbered_table();
    let by_code = table.radiation_for("D3", "S").unwrap();
    assert_eq!(by_code, table.radiation(ClimateZone::D3, Orientation::South));
    assert_eq!(by_code.july, by_code.monthly[6]);
    assert_eq!(table.radiation_for("X1", "S"), Err(ClimateError::UnknownClimateZone));
    assert_eq!(table.radiation_for("D3", "up"), Err(ClimateError::UnknownOrientation));
    // the zone is read first
    assert_eq!(table.radiation_for("X1", "up"), Err(ClimateError::UnknownClimateZone));
}

#[test]
fn radiation_table_must_be_complete() {
    assert!(ClimateData::from_rows(Vec::new()).is_none());
    assert!(ClimateData::from_rows(vec![[0u32; 12]; 287]).is_none());
    assert!(ClimateData::from_rows(vec![[0u32; 12]; 289]).is_none());
    assert!(ClimateData::from_rows(vec![[0u32; 12]; 288]).is_some());
}

#[test]
fn uniform_table_has_the_same_row_everywhere() {
    let mut row = [7u32; 12];
    row[6] = 500_000;
    let table = ClimateData::uniform(row);
    assert_eq!(table.rows().len(), 288);
    for r in table.rows() {
        assert_eq!(*r, row);
    }
    assert_eq!(
        table.radiation(ClimateZone::B4, Orientation::West),
        Radiation { monthly: row, july: 500_000 }
    );
}

#[test]
fn default_entities_are_well_formed() {
    let space: Space = new_space();
    assert_eq!(space, Space::default());
    assert!(space.area > 0 && space.height > 0 && space.multiplier >= 1);
    assert_eq!(space.area, 1_000);
    assert_eq!(space.height, 2_700);
    assert_eq!(space.multiplier, 1);
    assert_eq!(space.kind, Some(SpaceKind::ConditionedHabitable));
    assert_eq!(space.id, "");
    assert_eq!(space.loads, None);
    assert_eq!(space.sys_settings, None);

    let wall: Wall = new_wall();
    assert_eq!(wall, Wall::default());
    assert_eq!(wall.area, 1_000);
    assert_eq!(wall.bounds, BoundaryKind::Exterior);
    assert_eq!(wall.orientation, Orientation::North);
    assert_eq!(wall.tilt, 90_000);
    assert_eq!(wall.next_to, None);

    let window: Window = new_window();
    assert_eq!(window, Window::default());
    assert_eq!(window.area, 1_000);
    assert_eq!(window.fshobst, 1_000);
    assert!(window.shades.is_empty());

    let shade: Shade = new_shade();
    assert_eq!(shade, Shade::default());
    assert_eq!(shade.kind, ShadeKind::Remote);
    assert_eq!(shade.factor, None);
    assert_eq!(shade_factor_of(&shade), 1_000);

    let bridge: ThermalBridge = new_thermalbridge();
    assert_eq!(bridge, ThermalBridge::default());
    assert_eq!(bridge.length, 1_000);
    assert_eq!(bridge.psi, 0);

    let wallcons: WallCons = new_wallcons();
    assert_eq!(wallcons, WallCons::default());
    assert!(wallcons.layers.is_empty());

    let wincons: WinCons = new_wincons();
    assert_eq!(wincons, WinCons::default());
    assert_eq!(wincons.frame_fraction, 200);

    let material: Material = new_material();
    assert_eq!(material, Material::default());
    assert_eq!(material.thickness, 100);
    assert_eq!(material.conductivity, 1_000);

    let glass: Glass = new_glass();
    assert_eq!(glass, Glass::default());
    assert_eq!(glass.u_value, 5_700);
    assert_eq!(glass.g, 850);

    let frame: Frame = new_frame();
    assert_eq!(frame, Frame::default());
    assert_eq!(frame.u_value, 5_700);
    assert_eq!(frame.absorptivity, 600);

    let meta: Meta = new_meta();
    assert_eq!(meta, Meta::default());
    assert_eq!(meta.climate, "D3");
    assert!(ClimateZone::from_code(&meta.climate).is_some());
    assert_eq!(meta.area_ref_override, None);
    assert!(meta.is_new_building);
    assert!(meta.is_dwelling);

    let loads: SpaceLoads = new_load();
    assert_eq!(loads, SpaceLoads::default());
    assert_eq!(loads.lighting, 0);

    let settings: SpaceSysConditions = new_sys_setting();
    assert_eq!(settings, SpaceSysConditions::default());
    assert_eq!(settings.heating_setpoint, 20_000);
    assert_eq!(settings.cooling_setpoint, 25_000);
    assert!(settings.heating_setpoint <= settings.cooling_setpoint);
}

#[test]
fn new_model_is_empty() {
    let model = Model::new(new_meta());
    assert_eq!(model.meta, new_meta());
    assert!(model.spaces.is_empty());
    assert!(model.walls.is_empty());
    assert!(model.windows.is_empty());
    assert!(model.shades.is_empty());
    assert!(model.thermal_bridges.is_empty());
    assert!(model.wallcons.is_empty());
    assert!(model.wincons.is_empty());
    assert!(model.materials.is_empty());
    assert!(model.glasses.is_empty());
    assert!(model.frames.is_empty());
    assert!(model.loads.is_empty());
    assert!(model.sys_settings.is_empty());
}

fn glass(id: &str, u: u32, g: u32) -> Glass {
    let mut x = new_glass();
    x.id = text(id);
    x.u_value = u;
    x.g = g;
    x
}

#[test]
fn find_returns_the_first_entity_with_the_identifier() {
    let items = vec![glass("a", 1, 1), glass("b", 2, 2), glass("a", 3, 3)];
    assert_eq!(find(&items, &text("a")), Some(0));
    assert_eq!(find(&items, &text("b")), Some(1));
    assert_eq!(find(&items, &text("c")), None);
    assert_eq!(find(&items, &text("")), None);
    assert_eq!(find(&Vec::<Glass>::new(), &text("a")), None);
}

#[test]
fn space_net_volume_is_area_by_height_by_multiplier() {
    let mut space = new_space();
    space.area = 50_000;
    space.height = 2_500;
    assert_eq!(space.net_volume(), 125_000);
    space.multiplier = 4;
    assert_eq!(space.net_volume(), 500_000);
    // rounded down: 1.001 m² by 0.999 m
    space.area = 1_001;
    space.height = 999;
    space.multiplier = 1;
    assert_eq!(space.net_volume(), 999);
    space.area = u32::MAX;
    space.height = u32::MAX;
    space.multiplier = u32::MAX;
    assert_eq!(space.net_volume(), 79_228_162_458_924_105_385_300_197);
    assert!(space.conditioned());
    assert!(space.habitable());
    space.kind = Some(SpaceKind::ConditionedNonHabitable);
    assert!(space.conditioned());
    assert!(!space.habitable());
    space.kind = Some(SpaceKind::Unconditioned);
    assert!(!space.conditioned());
    space.kind = None;
    assert!(!space.conditioned());
    assert!(!space.habitable());
}

fn layer(thickness: u32, conductivity: u32) -> Layer {
    Layer { thickness, conductivity }
}

#[test]
fn wall_transmittance_is_the_inverse_of_the_resistance() {
    // 0.1 m at 0.04 W/mK: R = 2.5; with the surfaces 2.67: U = 0.374
    let layers = vec![layer(100, 40)];
    assert_eq!(wall_u_value(&layers, BoundaryKind::Exterior), 374);
    // with the inner surface alone 2.63: U = 0.380
    assert_eq!(wall_u_value(&layers, BoundaryKind::Ground), 380);
    // with two inner surfaces 2.76: U = 0.362
    assert_eq!(wall_u_value(&layers, BoundaryKind::Interior), 362);
    assert_eq!(wall_u_value(&layers, BoundaryKind::Adiabatic), 0);
    // layers add up: 2.5 + 0.24 / 0.8 = 2.8, and 2.97 with the surfaces
    let layers = vec![layer(100, 40), layer(240, 800)];
    assert_eq!(wall_u_value(&layers, BoundaryKind::Exterior), 336);
    assert_eq!(thickness(&layers), 340);
}

#[test]
fn wall_without_layers_has_the_transmittance_of_its_surfaces() {
    let none: Vec<Layer> = Vec::new();
    assert_eq!(wall_u_value(&none, BoundaryKind::Exterior), 5_882);
    assert_eq!(wall_u_value(&none, BoundaryKind::Ground), 7_692);
    assert_eq!(wall_u_value(&none, BoundaryKind::Interior), 3_846);
    assert_eq!(wall_u_value(&none, BoundaryKind::Adiabatic), 0);
    assert_eq!(thickness(&none), 0);
}

#[test]
fn layer_without_conductivity_lets_no_heat_pass() {
    let layers = vec![layer(100, 40), layer(10, 0)];
    assert_eq!(wall_u_value(&layers, BoundaryKind::Exterior), 0);
    assert_eq!(thickness(&layers), 110);
}

#[test]
fn very_resistant_wall_has_a_transmittance_of_zero() {
    let layers = vec![layer(u32::MAX, 1); 1000];
    assert_eq!(wall_u_value(&layers, BoundaryKind::Exterior), 0);
    assert_eq!(thickness(&layers), 4_294_967_295_000);
    // just below and just above one thousandth
    assert_eq!(wall_u_value(&vec![layer(999_830, 1000)], BoundaryKind::Exterior), 1);
    assert_eq!(wall_u_value(&vec![layer(999_831, 1000)], BoundaryKind::Exterior), 0);
}

#[test]
fn glazing_transmittance_is_the_weighted_mean() {
    assert_eq!(glazing_u_value(1_200, 1_200, 0), 1_200);
    assert_eq!(glazing_u_value(1_000, 3_000, 0), 1_000);
    assert_eq!(glazing_u_value(1_000, 3_000, 1_000), 3_000);
    assert_eq!(glazing_u_value(1_000, 3_000, 250), 1_500);
    // a share above one counts as one
    assert_eq!(glazing_u_value(1_000, 3_000, 5_000), 3_000);
    // rounded down: 0.999 * 1 + 0.001 * 2 = 1.001
    assert_eq!(glazing_u_value(1, 2, 1), 1);
    assert_eq!(glazing_u_value(u32::MAX, u32::MAX, 500), u32::MAX);
}

#[test]
fn constructions_are_resolved() {
    let mut a = new_material();
    a.id = text("a");
    a.thickness = 10;
    a.conductivity = 20;
    let mut b = new_material();
    b.id = text("b");
    b.thickness = 30;
    b.conductivity = 40;
    let materials = vec![a, b];
    let mut cons = new_wallcons();
    cons.id = text("wall");
    cons.layers = vec![text("b"), text("a"), text("b")];
    assert_eq!(
        resolve_layers(&materials, &cons),
        Ok(vec![layer(30, 40), layer(10, 20), layer(30, 40)])
    );
    cons.layers = vec![text("b"), text("c"), text("d")];
    assert_eq!(
        resolve_layers(&materials, &cons),
        Err(IndicatorError::Dangling { reference: Reference::Material, owner: text("wall") })
    );
    assert_eq!(
        cons.u_value(&materials, BoundaryKind::Exterior),
        Err(IndicatorError::Dangling { reference: Reference::Material, owner: text("wall") })
    );
    // 0.03 / 0.04 + 0.01 / 0.02 = 1.25; with the surfaces 1.42
    cons.layers = vec![text("b"), text("a")];
    assert_eq!(cons.u_value(&materials, BoundaryKind::Exterior), Ok(704));
    assert_eq!(cons.u_value(&materials, BoundaryKind::Adiabatic), Ok(0));
    cons.layers.clear();
    assert_eq!(resolve_layers(&materials, &cons), Ok(Vec::new()));
    assert_eq!(cons.u_value(&materials, BoundaryKind::Exterior), Ok(5_882));

    let glasses = vec![glass("clear", 2_000, 700)];
    let mut frame = new_frame();
    frame.id = text("pvc");
    frame.u_value = 1_000;
    let frames = vec![frame];
    let mut wincons = new_wincons();
    wincons.id = text("w");
    wincons.glass = text("clear");
    wincons.frame = text("pvc");
    wincons.frame_fraction = 300;
    assert_eq!(
        resolve_glazing(&glasses, &frames, &wincons),
        Ok(Glazing { u: 1_700, g: 700, frame_fraction: 300 })
    );
    assert_eq!(wincons.u_value(&glasses, &frames), Ok(1_700));
    wincons.frame = text("none");
    assert_eq!(
        resolve_glazing(&glasses, &frames, &wincons),
        Err(IndicatorError::Dangling { reference: Reference::Frame, owner: text("w") })
    );
    assert_eq!(
        wincons.u_value(&glasses, &frames),
        Err(IndicatorError::Dangling { reference: Reference::Frame, owner: text("w") })
    );
    wincons.glass = text("none");
    // the glass is looked up first
    assert_eq!(
        resolve_glazing(&glasses, &frames, &wincons),
        Err(IndicatorError::Dangling { reference: Reference::Glass, owner: text("w") })
    );
}

#[test]
fn shade_factor_is_given_or_follows_from_the_geometry() {
    let mut shade = new_shade();
    assert_eq!(shade_factor_of(&shade), 1_000);
    shade.factor = Some(0);
    assert_eq!(shade_factor_of(&shade), 0);
    shade.factor = Some(350);
    assert_eq!(shade_factor_of(&shade), 350);
    shade.factor = Some(1_000);
    assert_eq!(shade_factor_of(&shade), 1_000);
    shade.factor = Some(1_001);
    assert_eq!(shade_factor_of(&shade), 1_000);
    shade.factor = None;
    shade.depth = 0;
    shade.distance = 5_000;
    assert_eq!(shade_factor_of(&shade), 1_000);
    shade.depth = 1_000;
    shade.distance = 0;
    assert_eq!(shade_factor_of(&shade), 0);
    shade.distance = 1_000;
    assert_eq!(shade_factor_of(&shade), 500);
    shade.distance = 2_000;
    assert_eq!(shade_factor_of(&shade), 666);
    shade.depth = u32::MAX;
    shade.distance = u32::MAX;
    assert_eq!(shade_factor_of(&shade), 500);
    // a given factor counts before the geometry
    shade.factor = Some(900);
    assert_eq!(shade_factor_of(&shade), 900);
}

fn shade(id: &str, kind: ShadeKind, orientation: Orientation, factor: u32) -> Shade {
    let mut s = new_shade();
    s.id = text(id);
    s.kind = kind;
    s.orientation = orientation;
    s.factor = Some(factor);
    s
}

#[test]
fn shading_multiplies_the_factors_of_the_devices() {
    let shades = vec![
        shade("a", ShadeKind::Overhang, Orientation::South, 500),
        shade("b", ShadeKind::Fin, Orientation::South, 500),
        shade("c", ShadeKind::Remote, Orientation::South, 333),
    ];
    let mut window = new_window();
    window.id = text("w");
    assert_eq!(shading(&shades, &window), Ok(1_000));
    window.shades = vec![text("a")];
    assert_eq!(shading(&shades, &window), Ok(500));
    window.shades = vec![text("a"), text("b")];
    assert_eq!(shading(&shades, &window), Ok(250));
    // rounded down at each step: 250 * 0.333 = 83.25
    window.shades = vec![text("a"), text("b"), text("c")];
    assert_eq!(shading(&shades, &window), Ok(83));
    window.shades = vec![text("a"), text("z"), text("c")];
    assert_eq!(
        shading(&shades, &window),
        Err(IndicatorError::Dangling { reference: Reference::Shade, owner: text("w") })
    );
}

#[test]
fn obstruction_counts_remote_obstacles_of_the_orientation() {
    let shades = vec![
        shade("a", ShadeKind::Remote, Orientation::South, 500),
        shade("b", ShadeKind::Overhang, Orientation::South, 100),
        shade("c", ShadeKind::Remote, Orientation::East, 100),
        shade("d", ShadeKind::Fin, Orientation::South, 100),
        shade("e", ShadeKind::Remote, Orientation::South, 900),
    ];
    assert_eq!(obstruction_of(&shades, Orientation::South), 450);
    assert_eq!(obstruction_of(&shades, Orientation::East), 100);
    assert_eq!(obstruction_of(&shades, Orientation::North), 1_000);
    assert_eq!(obstruction_of(&Vec::new(), Orientation::South), 1_000);
}

fn gain(radiation: u32, area: u32, g: u32, frame_fraction: u32, shading: u32, fshobst: u32) -> Gain {
    Gain { radiation, area, g, frame_fraction, shading, fshobst }
}

#[test]
fn solar_gain_is_the_product_of_its_factors() {
    // by a reference area of 1e-3 m² the quotient is the product by 1e-12
    let g = gain(500_000, 5_000, 600, 0, 1_000, 1_000);
    assert_eq!(q_soljul_value(&vec![g], 1), Ok(Some(1_500_000_000)));
    let g = gain(2_000, 3_000, 500, 993, 1_100, 1_300);
    assert_eq!(q_soljul_value(&vec![g], 1), Ok(Some(2 * 3 * 5 * 7 * 11 * 13)));
    // a frame that takes everything, or more
    assert_eq!(q_soljul_value(&vec![gain(2_000, 3_000, 500, 1_000, 1_100, 1_300)], 1), Ok(Some(0)));
    assert_eq!(q_soljul_value(&vec![gain(2_000, 3_000, 500, 1_001, 1_100, 1_300)], 1), Ok(Some(0)));
}

#[test]
fn solar_gain_of_resolved_windows() {
    let gains = vec![
        gain(500_000, 5_000, 600, 0, 1_000, 1_000),
        gain(500_000, 5_000, 600, 0, 1_000, 1_000),
    ];
    assert_eq!(q_soljul_value(&gains, 50_000), Ok(Some(60_000)));
    assert_eq!(q_soljul_value(&gains, 0), Ok(None));
    assert_eq!(q_soljul_value(&Vec::new(), 50_000), Ok(Some(0)));
    assert_eq!(q_soljul_value(&Vec::new(), 0), Ok(None));
    // rounded down
    assert_eq!(q_soljul_value(&gains, 70_000), Ok(Some(42_857)));
    let huge = vec![gain(u32::MAX, u32::MAX, u32::MAX, 0, u32::MAX, u32::MAX)];
    assert_eq!(q_soljul_value(&huge, 1), Err(IndicatorError::Overflow));
    // an undefined quotient is reported before an overflow
    assert_eq!(q_soljul_value(&huge, 0), Ok(None));
}

fn element(glazed: bool, bounds: BoundaryKind, orientation: Orientation, area: u32, u: u32) -> Element {
    Element { id: text("e"), glazed, bounds, orientation, area, u, thickness: if glazed { 0 } else { 300 } }
}

fn measure(e: &Element, m: Measure) -> Result<u64, IndicatorError> {
    element_total(&vec![e.clone()], m)
}

#[test]
fn measures_of_an_element() {
    let wall = element(false, BoundaryKind::Exterior, Orientation::South, 40_000, 300);
    assert_eq!(measure(&wall, Measure::EnvelopeArea), Ok(40_000));
    assert_eq!(
        measure(&wall, Measure::Transmission(Methodology::Legacy)),
        Ok(1_000 * 300 * 40_000)
    );
    assert_eq!(
        measure(&wall, Measure::Leakage(Methodology::Legacy)),
        Ok(29 * 40_000)
    );
    assert_eq!(
        measure(&wall, Measure::Leakage(Methodology::Revised)),
        Ok(16 * 40_000)
    );
    assert_eq!(measure(&wall, Measure::Shell), Ok(300 * 40_000));
    assert_eq!(measure(&wall, Measure::Area(Bucket::Opaque)), Ok(40_000));
    assert_eq!(measure(&wall, Measure::Area(Bucket::Glazed)), Ok(0));
    assert_eq!(measure(&wall, Measure::Loss(Bucket::Opaque)), Ok(300 * 40_000));
    assert_eq!(
        measure(&wall, Measure::Loss(Bucket::Facing(Orientation::South))),
        Ok(300 * 40_000)
    );
    assert_eq!(
        measure(&wall, Measure::Loss(Bucket::Facing(Orientation::North))),
        Ok(0)
    );

    let window = element(true, BoundaryKind::Exterior, Orientation::South, 5_000, 1_200);
    assert_eq!(
        measure(&window, Measure::Leakage(Methodology::Legacy)),
        Ok(27 * 5_000)
    );
    assert_eq!(
        measure(&window, Measure::Leakage(Methodology::Revised)),
        Ok(9 * 5_000)
    );
    assert_eq!(measure(&window, Measure::Shell), Ok(0));
    assert!(belongs(&window, Bucket::Glazed));
    assert!(!belongs(&window, Bucket::Opaque));

    let floor = element(false, BoundaryKind::Ground, Orientation::Horizontal, 10_000, 500);
    assert_eq!(measure(&floor, Measure::EnvelopeArea), Ok(10_000));
    assert_eq!(measure(&floor, Measure::Leakage(Methodology::Legacy)), Ok(0));
    assert_eq!(measure(&floor, Measure::Shell), Ok(3_000_000));

    let partition = element(false, BoundaryKind::Interior, Orientation::South, 10_000, 500);
    assert_eq!(measure(&partition, Measure::EnvelopeArea), Ok(0));
    assert_eq!(
        measure(&partition, Measure::Transmission(Methodology::Legacy)),
        Ok(0)
    );
    assert_eq!(
        measure(&partition, Measure::Transmission(Methodology::Revised)),
        Ok(500 * 500 * 10_000)
    );
    assert_eq!(measure(&partition, Measure::Shell), Ok(0));
    assert!(!belongs(&partition, Bucket::Opaque));
    assert!(!belongs(&partition, Bucket::Facing(Orientation::South)));

    let blind = element(false, BoundaryKind::Adiabatic, Orientation::South, 10_000, 500);
    assert_eq!(
        measure(&blind, Measure::Transmission(Methodology::Revised)),
        Ok(0)
    );
}

#[test]
fn methodology_constants() {
    assert_eq!(boundary_factor_of(Methodology::Legacy, BoundaryKind::Exterior), 1_000);
    assert_eq!(boundary_factor_of(Methodology::Legacy, BoundaryKind::Ground), 1_000);
    assert_eq!(boundary_factor_of(Methodology::Legacy, BoundaryKind::Interior), 0);
    assert_eq!(boundary_factor_of(Methodology::Legacy, BoundaryKind::Adiabatic), 0);
    assert_eq!(boundary_factor_of(Methodology::Revised, BoundaryKind::Exterior), 1_000);
    assert_eq!(boundary_factor_of(Methodology::Revised, BoundaryKind::Ground), 1_000);
    assert_eq!(boundary_factor_of(Methodology::Revised, BoundaryKind::Interior), 500);
    assert_eq!(boundary_factor_of(Methodology::Revised, BoundaryKind::Adiabatic), 0);
    assert_eq!(permeability_of(Methodology::Legacy, false), 29);
    assert_eq!(permeability_of(Methodology::Legacy, true), 27);
    assert_eq!(permeability_of(Methodology::Revised, false), 16);
    assert_eq!(permeability_of(Methodology::Revised, true), 9);
}

#[test]
fn sums_over_elements_and_bridges() {
    let elements = vec![
        element(false, BoundaryKind::Exterior, Orientation::South, 40_000, 300),
        element(true, BoundaryKind::Exterior, Orientation::South, 5_000, 1_200),
        element(false, BoundaryKind::Interior, Orientation::North, 7_000, 100),
    ];
    assert_eq!(element_total(&elements, Measure::EnvelopeArea), Ok(45_000));
    assert_eq!(element_total(&Vec::new(), Measure::EnvelopeArea), Ok(0));
    assert_eq!(mean_u_value(&elements, Bucket::Opaque), Ok(Some(300)));
    assert_eq!(mean_u_value(&elements, Bucket::Glazed), Ok(Some(1_200)));
    assert_eq!(mean_u_value(&elements, Bucket::Facing(Orientation::South)), Ok(Some(400)));
    assert_eq!(mean_u_value(&elements, Bucket::Facing(Orientation::North)), Ok(None));

    let mut a = new_thermalbridge();
    a.length = 20_000;
    a.psi = 500;
    let mut b = new_thermalbridge();
    b.length = 3_000;
    b.psi = 100;
    let bridges = vec![a, b];
    assert_eq!(bridge_total(&bridges), Ok(10_300_000));
    assert_eq!(bridge_total(&Vec::new()), Ok(0));

    // (12 + 6 + 10.3) / 50 = 0.566
    assert_eq!(k_value(&elements, &bridges, 50_000, Methodology::Legacy), Ok(Some(566)));
    // one half of 7 * 0.1 more: 28.65 / 50 = 0.573
    assert_eq!(k_value(&elements, &bridges, 50_000, Methodology::Revised), Ok(Some(573)));
    assert_eq!(k_value(&elements, &bridges, 0, Methodology::Legacy), Ok(None));
    assert_eq!(k_value(&elements, &bridges, 1, Methodology::Legacy), Ok(Some(28_300_000)));
}

#[test]
fn sums_that_do_not_fit_are_reported() {
    let big = element(false, BoundaryKind::Exterior, Orientation::South, u32::MAX, u32::MAX);
    // 1000 * (2^32 - 1)^2 is more than 64 bits
    assert_eq!(
        element_total(&vec![big.clone()], Measure::Transmission(Methodology::Legacy)),
        Err(IndicatorError::Overflow)
    );
    assert_eq!(
        element_total(&vec![big.clone()], Measure::Loss(Bucket::Opaque)),
        Ok(18_446_744_065_119_617_025)
    );
    assert_eq!(
        element_total(&vec![big.clone(), big.clone()], Measure::Loss(Bucket::Opaque)),
        Err(IndicatorError::Overflow)
    );
    // the quotient of two sums may fit where the sums do not
    assert_eq!(mean_u_value(&vec![big.clone(), big], Bucket::Opaque), Ok(Some(4_294_967_295)));
    let mut bridge = new_thermalbridge();
    bridge.length = u32::MAX;
    bridge.psi = u32::MAX;
    assert_eq!(bridge_total(&vec![bridge.clone()]), Ok(18_446_744_065_119_617_025));
    assert_eq!(bridge_total(&vec![bridge.clone(), bridge]), Err(IndicatorError::Overflow));
}

#[test]
fn references_are_checked_one_by_one() {
    let glasses = vec![glass("a", 1, 1), glass("b", 2, 2)];
    assert!(every_known(&glasses, &vec![]));
    assert!(every_known(&glasses, &vec![text("a"), text("b"), text("a")]));
    assert!(!every_known(&glasses, &vec![text("a"), text("c")]));

    let mut wall = new_wall();
    wall.space = text("living");
    let walls = vec![wall];
    assert!(some_wall_of(&walls, &text("living")));
    assert!(!some_wall_of(&walls, &text("kitchen")));
    assert!(!some_wall_of(&Vec::new(), &text("living")));
    let mut partition = new_wall();
    partition.space = text("hall");
    partition.next_to = Some(text("kitchen"));
    let walls = vec![partition];
    assert!(some_wall_of(&walls, &text("hall")));
    assert!(some_wall_of(&walls, &text("kitchen")));
    assert!(!some_wall_of(&walls, &text("living")));

    let glasses = vec![glass("a", 1, 1), glass("b", 2, 2), glass("a", 3, 3)];
    assert!(is_repeated(&glasses, &text("a")));
    assert!(!is_repeated(&glasses, &text("b")));
    assert!(!is_repeated(&glasses, &text("c")));
}

#[test]
fn warning_kinds_are_listed_in_order() {
    assert_eq!(WarningKind::from_index(0), Some(WarningKind::UnknownClimateZone));
    assert_eq!(WarningKind::from_index(1), Some(WarningKind::DuplicateIdentifier));
    assert_eq!(WarningKind::from_index(8), Some(WarningKind::WindowExceedsWall));
    assert_eq!(WarningKind::from_index(10), Some(WarningKind::UnknownSurveyWindow));
    assert_eq!(WarningKind::from_index(11), None);
    assert_eq!(WarningKind::COUNT, 11);
}
