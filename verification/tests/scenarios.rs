use building_envelope::climate::ClimateData;
use building_envelope::climate::Orientation;
use building_envelope::envelope::{envelope, Methodology};
use building_envelope::indicators::{
    a_ref, c_o, compactness, compactness_for, k, k_value, n50, u_values, vol_env_gross,
    vol_env_net,
};
use building_envelope::model::{
    new_frame, new_glass, new_material, new_meta, new_shade, new_space, new_thermalbridge,
    new_wall, new_wallcons, new_wincons, new_window, BoundaryKind, Model, ShadeKind, SpaceKind,
};
use building_envelope::obstruction::{merge_fshobst, update_fshobst, SurveyEntry};
use building_envelope::quantity::{IndicatorError, Reference};
use building_envelope::report::energy_indicators;
use building_envelope::solar::q_soljul;
use building_envelope::validate::{check_model, Warning, WarningKind};

fn text(s: &str) -> String {
    s.to_string()
}

/// One conditioned space of 50 m² and 2.5 m, one exterior wall of 40 m² with
/// U = 0.3, one window of 5 m² with U = 1.2 and a solar factor of 0.6.
fn small_house() -> Model {
    let mut model = Model::new(new_meta());

    let mut space = new_space();
    space.id = text("living");
    space.area = 50_000;
    space.height = 2_500;
    model.spaces.push(space);

    let mut material = new_material();
    material.id = text("insulation");
    material.thickness = 316;
    material.conductivity = 100;
    model.materials.push(material);

    let mut wallcons = new_wallcons();
    wallcons.id = text("facade");
    wallcons.layers.push(text("insulation"));
    model.wallcons.push(wallcons);

    let mut glass = new_glass();
    glass.id = text("double");
    glass.u_value = 1_200;
    glass.g = 600;
    model.glasses.push(glass);

    let mut frame = new_frame();
    frame.id = text("wood");
    frame.u_value = 1_200;
    model.frames.push(frame);

    let mut wincons = new_wincons();
    wincons.id = text("glazing");
    wincons.glass = text("double");
    wincons.frame = text("wood");
    wincons.frame_fraction = 0;
    model.wincons.push(wincons);

    let mut wall = new_wall();
    wall.id = text("south wall");
    wall.area = 40_000;
    wall.orientation = Orientation::South;
    wall.bounds = BoundaryKind::Exterior;
    wall.cons = text("facade");
    wall.space = text("living");
    model.walls.push(wall);

    let mut window = new_window();
    window.id = text("south window");
    window.area = 5_000;
    window.orientation = Orientation::South;
    window.cons = text("glazing");
    window.wall = text("south wall");
    window.fshobst = 1_000;
    model.windows.push(window);

    model
}

fn july_500() -> ClimateData {
    ClimateData::uniform([500_000; 12])
}

#[test]
fn scenario_small_house_indicators() {
    let model = small_house();
    let climate = july_500();
    assert_eq!(vol_env_net(&model), Ok(125_000));
    assert_eq!(a_ref(&model), Ok(50_000));
    assert_eq!(k(&model, Methodology::Legacy), Ok(Some(360)));
    assert_eq!(q_soljul(&model, &climate), Ok(Some(30_000)));
}

#[test]
fn scenario_small_house_other_indicators() {
    let model = small_house();
    assert_eq!(k(&model, Methodology::Revised), Ok(Some(360)));
    assert_eq!(compactness(&model), Ok(Some(360)));
    assert_eq!(n50(&model, Methodology::Legacy), Ok(Some(6_516)));
    assert_eq!(n50(&model, Methodology::Revised), Ok(Some(3_446)));
    assert_eq!(c_o(&model, Methodology::Legacy), Ok(Some(5_898)));
    assert_eq!(c_o(&model, Methodology::Revised), Ok(Some(506)));
    assert_eq!(vol_env_gross(&model), Ok(137_640));
}

#[test]
fn scenario_small_house_is_clean() {
    assert_eq!(check_model(&small_house()), Vec::<Warning>::new());
}

#[test]
fn scenario_small_house_elements() {
    let elements = envelope(&small_house()).unwrap();
    assert_eq!(elements.len(), 2);
    assert_eq!(elements[0].id, "south wall");
    assert!(!elements[0].glazed);
    assert_eq!(elements[0].u, 300);
    assert_eq!(elements[0].area, 40_000);
    assert_eq!(elements[0].thickness, 316);
    assert_eq!(elements[1].id, "south window");
    assert!(elements[1].glazed);
    assert_eq!(elements[1].u, 1_200);
    assert_eq!(elements[1].bounds, BoundaryKind::Exterior);
    assert_eq!(elements[1].thickness, 0);
}

#[test]
fn scenario_small_house_u_values() {
    let summary = u_values(&small_house()).unwrap();
    assert_eq!(summary.elements.len(), 2);
    assert_eq!(summary.opaque, Some(300));
    assert_eq!(summary.windows, Some(1_200));
    assert_eq!(summary.by_orientation.len(), 9);
    // (300 * 40 + 1200 * 5) / 45 = 400
    assert_eq!(summary.by_orientation[Orientation::South.index()], Some(400));
    assert_eq!(summary.by_orientation[Orientation::North.index()], None);
    assert_eq!(summary.by_orientation[Orientation::Horizontal.index()], None);
}

#[test]
fn scenario_small_house_report() {
    let model = small_house();
    let climate = july_500();
    let report = energy_indicators(&model, &climate);
    assert_eq!(report.area_ref, Ok(50_000));
    assert_eq!(report.compactness, Ok(Some(360)));
    assert_eq!(report.k.legacy, Ok(Some(360)));
    assert_eq!(report.k.revised, Ok(Some(360)));
    assert_eq!(report.q_soljul, Ok(Some(30_000)));
    assert_eq!(report.n50.legacy, Ok(Some(6_516)));
    assert_eq!(report.n50.revised, Ok(Some(3_446)));
    assert_eq!(report.c_o.legacy, Ok(Some(5_898)));
    assert_eq!(report.c_o.revised, Ok(Some(506)));
    assert_eq!(report.vol_env_net, Ok(125_000));
    assert_eq!(report.vol_env_gross, Ok(137_640));
    assert_eq!(report.u_values, u_values(&model));
    assert!(report.warnings.is_empty());
    // the model is not changed by the query
    assert_eq!(model, small_house());
}

#[test]
fn scenario_window_larger_than_its_wall() {
    let mut model = small_house();
    model.windows[0].area = 40_001;
    let warnings = check_model(&model);
    assert_eq!(
        warnings,
        vec![Warning { kind: WarningKind::WindowExceedsWall, id: text("south window") }]
    );
}

#[test]
fn window_as_large_as_its_wall_is_accepted() {
    let mut model = small_house();
    model.windows[0].area = 40_000;
    assert!(check_model(&model).is_empty());
}

#[test]
fn scenario_survey_names_an_absent_window() {
    let mut model = small_house();
    model.windows[0].fshobst = 700;
    let before = model.clone();
    let survey = vec![SurveyEntry { window: text("attic window"), fshobst: 250 }];
    let warnings = merge_fshobst(&mut model, &survey);
    assert_eq!(
        warnings,
        vec![Warning { kind: WarningKind::UnknownSurveyWindow, id: text("attic window") }]
    );
    assert_eq!(model, before);
}

#[test]
fn survey_sets_the_factor_of_the_windows_it_names() {
    let mut model = small_house();
    let mut second = new_window();
    second.id = text("north window");
    second.cons = text("glazing");
    second.wall = text("south wall");
    second.fshobst = 900;
    model.windows.push(second);
    let survey = vec![
        SurveyEntry { window: text("south window"), fshobst: 650 },
        SurveyEntry { window: text("nowhere"), fshobst: 1 },
        SurveyEntry { window: text("south window"), fshobst: 100 },
    ];
    let warnings = merge_fshobst(&mut model, &survey);
    assert_eq!(warnings.len(), 1);
    assert_eq!(warnings[0].id, "nowhere");
    // the first entry for a window counts
    assert_eq!(model.windows[0].fshobst, 650);
    // a window that the survey does not name keeps its factor
    assert_eq!(model.windows[1].fshobst, 900);
}

#[test]
fn survey_factor_above_one_counts_as_one() {
    let mut model = small_house();
    model.windows[0].fshobst = 300;
    let survey = vec![SurveyEntry { window: text("south window"), fshobst: 1_500 }];
    assert!(merge_fshobst(&mut model, &survey).is_empty());
    assert_eq!(model.windows[0].fshobst, 1_000);
}

#[test]
fn update_fshobst_without_shades_gives_one() {
    let mut model = small_house();
    model.windows[0].fshobst = 123;
    update_fshobst(&mut model);
    assert_eq!(model.windows[0].fshobst, 1_000);
}

fn remote(id: &str, orientation: Orientation, factor: Option<u32>, depth: u32, distance: u32)
    -> building_envelope::model::Shade {
    let mut shade = new_shade();
    shade.id = text(id);
    shade.kind = ShadeKind::Remote;
    shade.orientation = orientation;
    shade.factor = factor;
    shade.depth = depth;
    shade.distance = distance;
    shade
}

#[test]
fn update_fshobst_is_idempotent() {
    let mut model = small_house();
    model.shades.push(remote("tower", Orientation::South, Some(800), 0, 0));
    model.shades.push(remote("hill", Orientation::North, Some(100), 0, 0));
    // 10 m high at 30 m: 30 / (10 + 30) = 0.75
    model.shades.push(remote("block", Orientation::South, None, 10_000, 30_000));
    let mut overhang = remote("eave", Orientation::South, Some(500), 0, 0);
    overhang.kind = ShadeKind::Overhang;
    model.shades.push(overhang);
    model.windows[0].fshobst = 1;

    update_fshobst(&mut model);
    let once = model.clone();
    // 0.8 * 0.75 = 0.6: the obstacle to the north and the overhang do not count
    assert_eq!(once.windows[0].fshobst, 600);

    update_fshobst(&mut model);
    assert_eq!(model, once);
}

#[test]
fn update_fshobst_changes_the_windows_only() {
    let mut model = small_house();
    model.shades.push(remote("tower", Orientation::South, Some(800), 0, 0));
    let before = model.clone();
    update_fshobst(&mut model);
    assert_eq!(model.windows[0].fshobst, 800);
    model.windows[0].fshobst = before.windows[0].fshobst;
    assert_eq!(model, before);
}

#[test]
fn no_conditioned_space_gives_zero_area_and_undefined_ratios() {
    let mut model = small_house();
    model.spaces[0].kind = Some(SpaceKind::Unconditioned);
    let climate = july_500();
    assert_eq!(a_ref(&model), Ok(0));
    assert_eq!(vol_env_net(&model), Ok(0));
    assert_eq!(compactness(&model), Ok(None));
    assert_eq!(k(&model, Methodology::Legacy), Ok(None));
    assert_eq!(k(&model, Methodology::Revised), Ok(None));
    assert_eq!(n50(&model, Methodology::Legacy), Ok(None));
    assert_eq!(c_o(&model, Methodology::Legacy), Ok(None));
    assert_eq!(q_soljul(&model, &climate), Ok(None));
}

#[test]
fn empty_model_gives_zero_area_and_undefined_ratios() {
    let model = Model::new(new_meta());
    assert_eq!(a_ref(&model), Ok(0));
    assert_eq!(vol_env_net(&model), Ok(0));
    assert_eq!(vol_env_gross(&model), Ok(0));
    assert_eq!(compactness(&model), Ok(None));
    assert_eq!(k(&model, Methodology::Legacy), Ok(None));
    assert_eq!(q_soljul(&model, &july_500()), Ok(None));
    assert!(check_model(&model).is_empty());
}

#[test]
fn non_habitable_space_counts_for_volume_not_for_area() {
    let mut model = small_house();
    let mut store = new_space();
    store.id = text("store");
    store.area = 10_000;
    store.height = 3_000;
    store.multiplier = 2;
    store.kind = Some(SpaceKind::ConditionedNonHabitable);
    model.spaces.push(store);
    let mut garage = new_space();
    garage.id = text("garage");
    garage.area = 20_000;
    garage.kind = Some(SpaceKind::Unconditioned);
    model.spaces.push(garage);
    let mut unknown = new_space();
    unknown.id = text("unknown");
    unknown.kind = None;
    model.spaces.push(unknown);
    assert_eq!(a_ref(&model), Ok(50_000));
    // 125 + 10 * 3 * 2
    assert_eq!(vol_env_net(&model), Ok(185_000));
}

#[test]
fn multiplier_repeats_a_space() {
    let mut model = small_house();
    model.spaces[0].multiplier = 3;
    assert_eq!(a_ref(&model), Ok(150_000));
    assert_eq!(vol_env_net(&model), Ok(375_000));
}

#[test]
fn area_override_is_not_read() {
    let mut model = small_house();
    model.meta.area_ref_override = Some(1);
    assert_eq!(a_ref(&model), Ok(50_000));
}

#[test]
fn k_rises_with_the_transmittance_of_an_element() {
    let mut model = small_house();
    let before = k(&model, Methodology::Legacy).unwrap().unwrap();
    model.glasses[0].u_value = 2_400;
    model.frames[0].u_value = 2_400;
    let after = k(&model, Methodology::Legacy).unwrap().unwrap();
    // (40 * 0.3 + 5 * 2.4) / 50 = 0.48
    assert_eq!(after, 480);
    assert!(before <= after);

    let elements = envelope(&model).unwrap();
    let mut raised = elements.clone();
    raised[0].u = elements[0].u + 1;
    for method in [Methodology::Legacy, Methodology::Revised] {
        let low = k_value(&elements, &model.thermal_bridges, 50_000, method).unwrap();
        let high = k_value(&raised, &model.thermal_bridges, 50_000, method).unwrap();
        assert!(low <= high);
    }
}

#[test]
fn k_counts_thermal_bridges() {
    let mut model = small_house();
    let mut bridge = new_thermalbridge();
    bridge.id = text("slab edge");
    bridge.length = 20_000;
    bridge.psi = 500;
    model.thermal_bridges.push(bridge);
    // (12 + 6 + 20 * 0.5) / 50 = 0.56
    assert_eq!(k(&model, Methodology::Legacy), Ok(Some(560)));
    model.thermal_bridges[0].psi = 1_000;
    assert_eq!(k(&model, Methodology::Legacy), Ok(Some(760)));
}

#[test]
fn methodologies_differ_on_interior_walls() {
    let mut model = small_house();
    let mut partition = new_wall();
    partition.id = text("partition");
    partition.area = 10_000;
    partition.bounds = BoundaryKind::Interior;
    partition.cons = text("facade");
    partition.space = text("living");
    model.walls.push(partition);
    let mut blind = new_wall();
    blind.id = text("party wall");
    blind.area = 10_000;
    blind.bounds = BoundaryKind::Adiabatic;
    blind.cons = text("facade");
    blind.space = text("living");
    model.walls.push(blind);
    let mut floor = new_wall();
    floor.id = text("floor");
    floor.area = 50_000;
    floor.orientation = Orientation::Horizontal;
    floor.bounds = BoundaryKind::Ground;
    floor.cons = text("facade");
    floor.space = text("living");
    model.walls.push(floor);

    let elements = envelope(&model).unwrap();
    // exterior: 1e6 / (170 + 3160), interior: 1e6 / (260 + 3160), ground: 1e6 / (130 + 3160)
    assert_eq!(elements[0].u, 300);
    assert_eq!(elements[1].u, 292);
    assert_eq!(elements[2].u, 0);
    assert_eq!(elements[3].u, 303);

    // legacy: (40 * 0.3 + 50 * 0.303 + 5 * 1.2) / 50
    assert_eq!(k(&model, Methodology::Legacy), Ok(Some(663)));
    // revised: one half of 10 * 0.292 more
    assert_eq!(k(&model, Methodology::Revised), Ok(Some(692)));
    // the envelope area leaves the interior and the adiabatic wall out
    assert_eq!(compactness(&model), Ok(Some(760)));
    // the gross volume takes the shell of the exterior wall and of the floor
    assert_eq!(vol_env_gross(&model), Ok(125_000 + 12_640 + 15_800));
    let summary = u_values(&model).unwrap();
    // (300 * 40 + 303 * 50) / 90
    assert_eq!(summary.opaque, Some(301));
    assert_eq!(summary.by_orientation[Orientation::Horizontal.index()], Some(303));
}

#[test]
fn q_soljul_is_zero_without_area_solar_factor_or_sun() {
    let climate = july_500();

    let mut no_area = small_house();
    no_area.windows[0].area = 0;
    assert_eq!(q_soljul(&no_area, &climate), Ok(Some(0)));

    let mut opaque_glass = small_house();
    opaque_glass.glasses[0].g = 0;
    assert_eq!(q_soljul(&opaque_glass, &climate), Ok(Some(0)));

    let mut hidden = small_house();
    hidden.windows[0].fshobst = 0;
    assert_eq!(q_soljul(&hidden, &climate), Ok(Some(0)));

    let mut no_windows = small_house();
    no_windows.windows.clear();
    assert_eq!(q_soljul(&no_windows, &climate), Ok(Some(0)));
}

#[test]
fn q_soljul_counts_frame_shades_and_obstructions() {
    let climate = july_500();
    let mut model = small_house();
    model.wincons[0].frame_fraction = 200;
    model.windows[0].fshobst = 500;
    let mut eave = new_shade();
    eave.id = text("eave");
    eave.kind = ShadeKind::Overhang;
    eave.factor = Some(900);
    model.shades.push(eave);
    let mut fin = new_shade();
    fin.id = text("fin");
    fin.kind = ShadeKind::Fin;
    fin.depth = 1_000;
    fin.distance = 3_000;
    model.shades.push(fin);
    model.windows[0].shades.push(text("eave"));
    model.windows[0].shades.push(text("fin"));
    // 30 * 0.8 * (0.9 * 0.75) * 0.5 = 8.1
    assert_eq!(q_soljul(&model, &climate), Ok(Some(8_100)));
}

#[test]
fn q_soljul_reads_july_of_the_zone_and_orientation() {
    let mut rows = vec![[0u32; 12]; 288];
    // zone D3 is the thirty-first zone, south the fifth orientation
    let mut row = [1_000u32; 12];
    row[6] = 200_000;
    rows[30 * 9 + 4] = row;
    let climate = ClimateData::from_rows(rows).unwrap();
    let mut model = small_house();
    // 200 * 5 * 0.6 / 50 = 12
    assert_eq!(q_soljul(&model, &climate), Ok(Some(12_000)));
    model.windows[0].orientation = Orientation::North;
    assert_eq!(q_soljul(&model, &climate), Ok(Some(0)));
    model.windows[0].orientation = Orientation::South;
    model.meta.climate = text("A3");
    assert_eq!(q_soljul(&model, &climate), Ok(Some(0)));
}

#[test]
fn unknown_climate_zone_fails_the_solar_gain_only() {
    let mut model = small_house();
    model.meta.climate = text("Z9");
    assert_eq!(q_soljul(&model, &july_500()), Err(IndicatorError::UnknownClimateZone));
    assert_eq!(k(&model, Methodology::Legacy), Ok(Some(360)));
    assert_eq!(
        check_model(&model),
        vec![Warning { kind: WarningKind::UnknownClimateZone, id: text("Z9") }]
    );
    let report = energy_indicators(&model, &july_500());
    assert_eq!(report.q_soljul, Err(IndicatorError::UnknownClimateZone));
    assert_eq!(report.area_ref, Ok(50_000));
    assert_eq!(report.warnings.len(), 1);
}

#[test]
fn unknown_climate_zone_fails_even_without_windows() {
    let mut model = Model::new(new_meta());
    model.meta.climate = text("");
    assert_eq!(q_soljul(&model, &july_500()), Err(IndicatorError::UnknownClimateZone));
}

fn dangling(reference: Reference, owner: &str) -> IndicatorError {
    IndicatorError::Dangling { reference, owner: text(owner) }
}

#[test]
fn dangling_wall_construction_fails_the_envelope() {
    let mut model = small_house();
    model.walls[0].cons = text("missing");
    let e = dangling(Reference::WallConstruction, "south wall");
    assert_eq!(envelope(&model), Err(e.clone()));
    assert_eq!(k(&model, Methodology::Legacy), Err(e.clone()));
    assert_eq!(k(&model, Methodology::Revised), Err(e.clone()));
    assert_eq!(compactness(&model), Err(e.clone()));
    assert_eq!(n50(&model, Methodology::Legacy), Err(e.clone()));
    assert_eq!(c_o(&model, Methodology::Legacy), Err(e.clone()));
    assert_eq!(vol_env_gross(&model), Err(e.clone()));
    assert_eq!(u_values(&model), Err(e));
    // what does not follow the reference is still computed
    assert_eq!(a_ref(&model), Ok(50_000));
    assert_eq!(vol_env_net(&model), Ok(125_000));
    assert_eq!(q_soljul(&model, &july_500()), Ok(Some(30_000)));
    assert_eq!(
        check_model(&model),
        vec![Warning { kind: WarningKind::DanglingConstruction, id: text("south wall") }]
    );
}

#[test]
fn dangling_material_is_reported_for_its_construction() {
    let mut model = small_house();
    model.wallcons[0].layers.push(text("plaster"));
    assert_eq!(envelope(&model), Err(dangling(Reference::Material, "facade")));
    assert_eq!(
        check_model(&model),
        vec![Warning { kind: WarningKind::DanglingReference, id: text("facade") }]
    );
}

#[test]
fn dangling_references_of_a_window() {
    let climate = july_500();

    let mut model = small_house();
    model.windows[0].wall = text("missing");
    assert_eq!(envelope(&model), Err(dangling(Reference::HostWall, "south window")));
    // the solar gain does not read the wall
    assert_eq!(q_soljul(&model, &climate), Ok(Some(30_000)));

    let mut model = small_house();
    model.windows[0].cons = text("missing");
    let e = dangling(Reference::WindowConstruction, "south window");
    assert_eq!(envelope(&model), Err(e.clone()));
    assert_eq!(q_soljul(&model, &climate), Err(e));

    let mut model = small_house();
    model.wincons[0].glass = text("missing");
    let e = dangling(Reference::Glass, "glazing");
    assert_eq!(envelope(&model), Err(e.clone()));
    assert_eq!(q_soljul(&model, &climate), Err(e));

    let mut model = small_house();
    model.wincons[0].frame = text("missing");
    let e = dangling(Reference::Frame, "glazing");
    assert_eq!(envelope(&model), Err(e.clone()));
    assert_eq!(q_soljul(&model, &climate), Err(e));

    let mut model = small_house();
    model.windows[0].shades.push(text("missing"));
    assert!(envelope(&model).is_ok());
    assert_eq!(q_soljul(&model, &climate), Err(dangling(Reference::Shade, "south window")));
}

#[test]
fn first_failure_is_reported() {
    let mut model = small_house();
    model.windows[0].cons = text("missing");
    let mut second = new_wall();
    second.id = text("second wall");
    second.cons = text("also missing");
    second.space = text("living");
    model.walls.push(second);
    // walls come before windows
    assert_eq!(envelope(&model), Err(dangling(Reference::WallConstruction, "second wall")));
}

#[test]
fn overflow_is_reported() {
    let mut model = Model::new(new_meta());
    for name in ["a", "b"] {
        let mut space = new_space();
        space.id = text(name);
        space.area = u32::MAX;
        space.height = u32::MAX;
        space.multiplier = u32::MAX;
        model.spaces.push(space);
    }
    assert_eq!(a_ref(&model), Err(IndicatorError::Overflow));
    assert_eq!(vol_env_net(&model), Err(IndicatorError::Overflow));
    assert_eq!(vol_env_gross(&model), Err(IndicatorError::Overflow));
    let report = energy_indicators(&model, &july_500());
    assert_eq!(report.area_ref, Err(IndicatorError::Overflow));
    // K is zero over a huge area, not a failure
    assert_eq!(report.k.legacy, Ok(Some(0)));
}

#[test]
fn one_huge_space_still_fits() {
    let mut model = Model::new(new_meta());
    let mut space = new_space();
    space.area = u32::MAX;
    space.multiplier = u32::MAX;
    space.height = 1_000;
    model.spaces.push(space);
    assert_eq!(a_ref(&model), Ok(18_446_744_065_119_617_025));
    assert_eq!(vol_env_net(&model), Ok(18_446_744_065_119_617_025));
}

#[test]
fn validator_lists_by_kind_then_by_declaration() {
    let mut model = small_house();
    // a space without kind, without area and without walls
    let mut loft = new_space();
    loft.id = text("loft");
    loft.kind = None;
    loft.area = 0;
    model.spaces.push(loft);
    // a wall without area, with a construction and a space that are missing
    let mut wall = new_wall();
    wall.id = text("ghost wall");
    wall.area = 0;
    wall.cons = text("missing");
    wall.space = text("missing");
    model.walls.push(wall);
    // a window without area whose construction is missing
    let mut window = new_window();
    window.id = text("ghost window");
    window.area = 0;
    window.cons = text("missing");
    window.wall = text("south wall");
    model.windows.push(window);
    let mut bridge = new_thermalbridge();
    bridge.id = text("no bridge");
    bridge.length = 0;
    model.thermal_bridges.push(bridge);
    model.windows[0].fshobst = 1_001;

    let found: Vec<(WarningKind, String)> =
        check_model(&model).into_iter().map(|w| (w.kind, w.id)).collect();
    assert_eq!(
        found,
        vec![
            (WarningKind::SpaceWithoutKind, text("loft")),
            (WarningKind::UnreachableSpace, text("loft")),
            (WarningKind::ZeroArea, text("loft")),
            (WarningKind::ZeroArea, text("ghost wall")),
            (WarningKind::ZeroArea, text("ghost window")),
            (WarningKind::NonPositiveBridgeLength, text("no bridge")),
            (WarningKind::DanglingConstruction, text("ghost wall")),
            (WarningKind::DanglingConstruction, text("ghost window")),
            (WarningKind::DanglingReference, text("ghost wall")),
            (WarningKind::OutOfRange, text("south window")),
        ]
    );
}

#[test]
fn validator_accepts_any_model() {
    // entities as the factories make them, none of which names another that exists
    let mut model = Model::new(new_meta());
    model.spaces.push(new_space());
    model.walls.push(new_wall());
    model.windows.push(new_window());
    model.shades.push(new_shade());
    model.thermal_bridges.push(new_thermalbridge());
    model.wallcons.push(new_wallcons());
    model.wincons.push(new_wincons());
    model.materials.push(new_material());
    model.glasses.push(new_glass());
    model.frames.push(new_frame());
    let found: Vec<WarningKind> = check_model(&model).into_iter().map(|w| w.kind).collect();
    // the identifier of every default entity is empty, and so is every
    // reference of one: each reference resolves
    assert_eq!(found, Vec::<WarningKind>::new());
    let report = energy_indicators(&model, &july_500());
    assert_eq!(report.area_ref, Ok(1_000));
    assert_eq!(report.warnings, check_model(&model));
}

#[test]
fn validator_flags_numbers_out_of_range() {
    let mut model = small_house();
    model.spaces[0].height = 0;
    model.walls[0].tilt = 180_001;
    model.wincons[0].frame_fraction = 1_001;
    model.materials[0].conductivity = 0;
    model.glasses[0].g = 1_001;
    model.frames[0].absorptivity = 1_001;
    let mut shade = new_shade();
    shade.id = text("screen");
    shade.factor = Some(1_001);
    model.shades.push(shade);
    let found: Vec<(WarningKind, String)> =
        check_model(&model).into_iter().map(|w| (w.kind, w.id)).collect();
    assert_eq!(
        found,
        vec![
            (WarningKind::OutOfRange, text("living")),
            (WarningKind::OutOfRange, text("south wall")),
            (WarningKind::OutOfRange, text("screen")),
            (WarningKind::OutOfRange, text("glazing")),
            (WarningKind::OutOfRange, text("insulation")),
            (WarningKind::OutOfRange, text("double")),
            (WarningKind::OutOfRange, text("wood")),
        ]
    );
    // degenerate numbers do not fail the indicators
    assert!(k(&model, Methodology::Legacy).is_ok());
    assert_eq!(vol_env_net(&model), Ok(0));
}

#[test]
fn validator_flags_missing_loads_and_settings() {
    let mut model = small_house();
    model.spaces[0].loads = Some(text("office"));
    assert_eq!(
        check_model(&model),
        vec![Warning { kind: WarningKind::DanglingReference, id: text("living") }]
    );
    let mut loads = building_envelope::model::new_load();
    loads.id = text("office");
    model.loads.push(loads);
    assert!(check_model(&model).is_empty());
    model.spaces[0].sys_settings = Some(text("comfort"));
    assert_eq!(check_model(&model).len(), 1);
    let mut settings = building_envelope::model::new_sys_setting();
    settings.id = text("comfort");
    model.sys_settings.push(settings);
    assert!(check_model(&model).is_empty());
    model.sys_settings[0].heating_setpoint = 26_000;
    assert_eq!(
        check_model(&model),
        vec![Warning { kind: WarningKind::OutOfRange, id: text("comfort") }]
    );
}

#[test]
fn compactness_by_net_and_by_gross_volume() {
    let model = small_house();
    assert_eq!(compactness_for(&model, Methodology::Legacy), compactness(&model));
    assert_eq!(compactness_for(&model, Methodology::Legacy), Ok(Some(360)));
    // 45 m² by 137.64 m³
    assert_eq!(compactness_for(&model, Methodology::Revised), Ok(Some(326)));

    let mut empty = small_house();
    empty.spaces.clear();
    assert_eq!(compactness_for(&empty, Methodology::Legacy), Ok(None));
    // the shell of the wall alone: 45 m² by 12.64 m³
    assert_eq!(compactness_for(&empty, Methodology::Revised), Ok(Some(3_560)));
    empty.walls.clear();
    empty.windows.clear();
    assert_eq!(compactness_for(&empty, Methodology::Revised), Ok(None));

    let mut broken = small_house();
    broken.walls[0].cons = text("missing");
    let e = dangling(Reference::WallConstruction, "south wall");
    assert_eq!(compactness_for(&broken, Methodology::Legacy), Err(e.clone()));
    assert_eq!(compactness_for(&broken, Methodology::Revised), Err(e));
}

#[test]
fn validator_flags_identifiers_that_are_not_unique() {
    let mut model = small_house();
    let mut twin = new_wall();
    twin.id = text("south wall");
    twin.cons = text("facade");
    twin.space = text("living");
    model.walls.push(twin);
    // a window may carry the identifier of a wall: the categories are apart
    let mut window = new_window();
    window.id = text("south wall");
    window.cons = text("glazing");
    window.wall = text("south wall");
    model.windows.push(window);
    assert_eq!(
        check_model(&model),
        vec![
            Warning { kind: WarningKind::DuplicateIdentifier, id: text("south wall") },
            Warning { kind: WarningKind::DuplicateIdentifier, id: text("south wall") },
        ]
    );
    // a reference resolves to the first entity that carries the identifier
    model.walls[1].area = 1;
    assert!(check_model(&model).iter().all(|w| w.kind == WarningKind::DuplicateIdentifier));
    model.walls[0].area = 1;
    assert!(check_model(&model).iter().any(|w| w.kind == WarningKind::WindowExceedsWall));
}

#[test]
fn space_that_only_a_neighbour_wall_bounds_is_reachable() {
    let mut model = small_house();
    let mut store = new_space();
    store.id = text("store");
    model.spaces.push(store);
    assert_eq!(
        check_model(&model),
        vec![Warning { kind: WarningKind::UnreachableSpace, id: text("store") }]
    );
    model.walls[0].next_to = Some(text("store"));
    assert!(check_model(&model).is_empty());
}
