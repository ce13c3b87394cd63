use building_envelope::climate::Orientation;
use building_envelope::lines::{render_tokens, scan_tokens, MalformedModel, Token};
use building_envelope::model::{
    new_frame, new_glass, new_load, new_material, new_meta, new_shade, new_space,
    new_sys_setting, new_thermalbridge, new_wall, new_wallcons, new_wincons, new_window,
    BoundaryKind, Model, ShadeKind, SpaceKind,
};
use building_envelope::storage::{load, save};
use building_envelope::validate::check_model;

fn text(s: &str) -> String {
    s.to_string()
}

/// A model that holds an entity of every kind, with every optional value once
/// given and once left out.
fn full_model() -> Model {
    let mut meta = new_meta();
    meta.name = text("Casa de la Sierra, n.º 7");
    meta.climate = text("E1");
    meta.area_ref_override = Some(u64::MAX);
    meta.is_new_building = false;
    let mut model = Model::new(meta);

    let mut space = new_space();
    space.id = text("salón");
    space.name = text("first line\nsecond line: 3");
    space.area = 50_000;
    space.height = 2_500;
    space.kind = Some(SpaceKind::ConditionedNonHabitable);
    space.multiplier = 3;
    space.loads = Some(text("office"));
    space.sys_settings = Some(text(""));
    model.spaces.push(space);
    let mut space = new_space();
    space.id = text("attic");
    space.kind = None;
    space.area = 0;
    space.height = u32::MAX;
    model.spaces.push(space);
    let mut space = new_space();
    space.id = text("garage");
    space.kind = Some(SpaceKind::Unconditioned);
    model.spaces.push(space);

    let mut wall = new_wall();
    wall.id = text("w1");
    wall.orientation = Orientation::SouthWest;
    wall.bounds = BoundaryKind::Interior;
    wall.tilt = 45_000;
    wall.cons = text("c1");
    wall.space = text("salón");
    wall.next_to = Some(text("attic"));
    model.walls.push(wall);
    let mut wall = new_wall();
    wall.id = text("w2");
    wall.orientation = Orientation::Horizontal;
    wall.bounds = BoundaryKind::Ground;
    model.walls.push(wall);
    let mut wall = new_wall();
    wall.id = text("w3");
    wall.bounds = BoundaryKind::Adiabatic;
    model.walls.push(wall);

    let mut window = new_window();
    window.id = text("v1");
    window.orientation = Orientation::East;
    window.shades = vec![text("s1"), text(""), text("s\n3")];
    window.fshobst = 777;
    model.windows.push(window);
    model.windows.push(new_window());

    let mut shade = new_shade();
    shade.id = text("s1");
    shade.kind = ShadeKind::Overhang;
    shade.factor = Some(0);
    shade.depth = 1_200;
    shade.distance = 300;
    model.shades.push(shade);
    let mut shade = new_shade();
    shade.id = text("s2");
    shade.kind = ShadeKind::Fin;
    shade.factor = Some(u32::MAX);
    model.shades.push(shade);
    model.shades.push(new_shade());

    let mut bridge = new_thermalbridge();
    bridge.id = text("b1");
    bridge.length = 12_345;
    bridge.psi = 678;
    model.thermal_bridges.push(bridge);

    let mut wallcons = new_wallcons();
    wallcons.id = text("c1");
    wallcons.layers = vec![text("m1"), text("m2"), text("m1")];
    model.wallcons.push(wallcons);
    model.wallcons.push(new_wallcons());

    let mut wincons = new_wincons();
    wincons.id = text("g1");
    wincons.glass = text("glass");
    wincons.frame = text("frame");
    wincons.frame_fraction = 250;
    model.wincons.push(wincons);

    let mut material = new_material();
    material.id = text("m1");
    material.density = 2_400_000;
    model.materials.push(material);
    let mut material = new_material();
    material.id = text("m2");
    material.conductivity = 0;
    model.materials.push(material);

    let mut glass = new_glass();
    glass.id = text("glass");
    model.glasses.push(glass);
    let mut frame = new_frame();
    frame.id = text("frame");
    model.frames.push(frame);

    let mut loads = new_load();
    loads.id = text("office");
    loads.people_sensible = 1;
    loads.people_latent = 2;
    loads.equipment = 3;
    loads.lighting = 4;
    model.loads.push(loads);

    let mut settings = new_sys_setting();
    settings.id = text("cold store");
    settings.heating_setpoint = i32::MIN;
    settings.cooling_setpoint = -18_000;
    model.sys_settings.push(settings);
    let mut settings = new_sys_setting();
    settings.id = text("oven");
    settings.heating_setpoint = 0;
    settings.cooling_setpoint = i32::MAX;
    model.sys_settings.push(settings);

    model
}

#[test]
fn load_gives_back_what_save_wrote() {
    let model = full_model();
    let stored = save(&model);
    assert_eq!(load(&stored), Ok(model));
}

#[test]
fn load_gives_back_an_empty_model() {
    let model = Model::new(new_meta());
    let stored = save(&model);
    assert_eq!(stored, "0:\n2:D3\n0\n0\n1\n1\n0\n0\n0\n0\n0\n0\n0\n0\n0\n0\n0\n0\n");
    assert_eq!(load(&stored), Ok(model));
}

#[test]
fn load_gives_back_default_entities() {
    let mut model = Model::new(new_meta());
    model.spaces.push(new_space());
    model.walls.push(new_wall());
    model.windows.push(new_window());
    model.shades.push(new_shade());
    model.thermal_bridges.push(new_thermalbridge());
    model.wallcons.push(new_wallcons());
    model.wincons.push(new_wincons());
    model.materials.push(new_material());
    model.glasses.push(new_glass());
    model.frames.push(new_frame());
    model.loads.push(new_load());
    model.sys_settings.push(new_sys_setting());
    assert_eq!(load(&save(&model)), Ok(model));
}

#[test]
fn save_is_the_same_for_the_same_model() {
    assert_eq!(save(&full_model()), save(&full_model()));
    let mut other = full_model();
    other.windows[0].fshobst += 1;
    assert_ne!(save(&other), save(&full_model()));
}

#[test]
fn save_writes_one_token_on_each_line() {
    let mut model = Model::new(new_meta());
    model.meta.name = text("a\nb");
    let mut glass = new_glass();
    glass.id = text("vidrio");
    glass.name = text("año");
    glass.u_value = 1_200;
    glass.g = 600;
    model.glasses.push(glass);
    let stored = save(&model);
    assert_eq!(
        stored,
        "3:a\nb\n2:D3\n0\n0\n1\n1\n0\n0\n0\n0\n0\n0\n0\n0\n1\n6:vidrio\n3:año\n1200\n600\n0\n0\n0\n"
    );
    assert_eq!(load(&stored), Ok(model));
}

#[test]
fn tokens_are_written_and_read_line_by_line() {
    let tokens = vec![
        Token::Number(0),
        Token::Text(text("")),
        Token::Number(u64::MAX),
        Token::Text(text("12\n34:\n")),
        Token::Number(10),
        Token::Text(text("ñandú")),
    ];
    let stored = render_tokens(&tokens);
    assert_eq!(stored, "0\n0:\n18446744073709551615\n7:12\n34:\n\n10\n5:ñandú\n");
    assert_eq!(scan_tokens(&stored), Ok(tokens));
    assert_eq!(render_tokens(&Vec::new()), "");
    assert_eq!(scan_tokens(""), Ok(Vec::new()));
    // leading zeros are read
    assert_eq!(scan_tokens("007\n"), Ok(vec![Token::Number(7)]));
    assert_eq!(scan_tokens("01:x\n"), Ok(vec![Token::Text(text("x"))]));
}

#[test]
fn malformed_lines_are_refused() {
    assert_eq!(scan_tokens("x\n"), Err(MalformedModel::BadLine));
    assert_eq!(scan_tokens("\n"), Err(MalformedModel::BadLine));
    assert_eq!(scan_tokens("12 \n"), Err(MalformedModel::BadLine));
    assert_eq!(scan_tokens("-1\n"), Err(MalformedModel::BadLine));
    assert_eq!(scan_tokens("3:abcd\n"), Err(MalformedModel::BadLine));
    assert_eq!(scan_tokens("12"), Err(MalformedModel::UnexpectedEnd));
    assert_eq!(scan_tokens("1\n2"), Err(MalformedModel::UnexpectedEnd));
    assert_eq!(scan_tokens("3:ab\n"), Err(MalformedModel::UnexpectedEnd));
    assert_eq!(scan_tokens("3:abc"), Err(MalformedModel::UnexpectedEnd));
    assert_eq!(scan_tokens("18446744073709551615:a\n"), Err(MalformedModel::UnexpectedEnd));
    assert_eq!(scan_tokens("18446744073709551616\n"), Err(MalformedModel::NumberTooLarge));
    assert_eq!(scan_tokens("99999999999999999999999:a\n"), Err(MalformedModel::NumberTooLarge));
    // the first malformed line counts
    assert_eq!(scan_tokens("1\nx\n18446744073709551616\n"), Err(MalformedModel::BadLine));
}

fn empty_stored() -> String {
    save(&Model::new(new_meta()))
}

#[test]
fn malformed_models_are_refused() {
    assert_eq!(load(""), Err(MalformedModel::UnexpectedEnd));
    assert_eq!(load("garbage"), Err(MalformedModel::BadLine));
    // a number where the name of the building should stand
    assert_eq!(load("7\n"), Err(MalformedModel::ExpectedText));
    // a text where a flag should stand
    assert_eq!(load("0:\n2:D3\n1:x\n"), Err(MalformedModel::ExpectedNumber));
    // a flag that is neither zero nor one
    assert_eq!(load("0:\n2:D3\n2\n0\n1\n1\n"), Err(MalformedModel::OutOfRange));
    // a value beside a flag of zero
    assert_eq!(load("0:\n2:D3\n0\n5\n1\n1\n"), Err(MalformedModel::OutOfRange));
    // a truth value of two
    assert_eq!(load("0:\n2:D3\n0\n0\n2\n1\n"), Err(MalformedModel::OutOfRange));
    // the collections are missing
    assert_eq!(load("0:\n2:D3\n0\n0\n1\n1\n"), Err(MalformedModel::UnexpectedEnd));
    // one space is announced and none follows
    assert_eq!(load("0:\n2:D3\n0\n0\n1\n1\n1\n"), Err(MalformedModel::UnexpectedEnd));
    // input after the last collection
    assert_eq!(load(&(empty_stored() + "0\n")), Err(MalformedModel::TrailingInput));
    assert_eq!(load(&(empty_stored() + "\n")), Err(MalformedModel::BadLine));
    // a stored model that was cut
    let stored = save(&full_model());
    let cut: String = stored.chars().take(stored.chars().count() - 1).collect();
    assert_eq!(load(&cut), Err(MalformedModel::UnexpectedEnd));
    let cut: String = stored.chars().take(stored.chars().count() / 2).collect();
    assert!(load(&cut).is_err());
}

#[test]
fn numbers_out_of_range_are_refused() {
    let mut model = Model::new(new_meta());
    let mut glass = new_glass();
    glass.id = text("g");
    model.glasses.push(glass);
    let stored = save(&model);
    assert!(stored.contains("\n1:g\n0:\n5700\n850\n"));
    // a transmittance of more than 32 bits
    let wrong = stored.replace("\n5700\n", "\n4294967296\n");
    assert_eq!(load(&wrong), Err(MalformedModel::OutOfRange));
    let right = stored.replace("\n5700\n", "\n4294967295\n");
    assert_eq!(load(&right).unwrap().glasses[0].u_value, u32::MAX);

    let mut model = Model::new(new_meta());
    let mut wall = new_wall();
    wall.id = text("w");
    wall.orientation = Orientation::Horizontal;
    wall.bounds = BoundaryKind::Interior;
    model.walls.push(wall);
    let stored = save(&model);
    // identifier, name, area, orientation, tilt, bounds
    assert!(stored.contains("\n1:w\n0:\n1000\n8\n90000\n3\n"));
    let wrong = stored.replace("\n1000\n8\n90000\n3\n", "\n1000\n9\n90000\n3\n");
    assert_eq!(load(&wrong), Err(MalformedModel::OutOfRange));
    let wrong = stored.replace("\n1000\n8\n90000\n3\n", "\n1000\n8\n90000\n4\n");
    assert_eq!(load(&wrong), Err(MalformedModel::OutOfRange));

    let mut model = Model::new(new_meta());
    let mut space = new_space();
    space.id = text("s");
    model.spaces.push(space);
    let stored = save(&model);
    // identifier, name, area, height, kind, multiplier
    assert!(stored.contains("\n1:s\n0:\n1000\n2700\n1\n1\n"));
    let other = stored.replace("\n1000\n2700\n1\n1\n", "\n1000\n2700\n0\n1\n");
    assert_eq!(load(&other).unwrap().spaces[0].kind, None);
    let other = stored.replace("\n1000\n2700\n1\n1\n", "\n1000\n2700\n3\n1\n");
    assert_eq!(load(&other).unwrap().spaces[0].kind, Some(SpaceKind::Unconditioned));
    let wrong = stored.replace("\n1000\n2700\n1\n1\n", "\n1000\n2700\n4\n1\n");
    assert_eq!(load(&wrong), Err(MalformedModel::OutOfRange));
}

#[test]
fn signed_numbers_are_stored_raised() {
    let mut model = Model::new(new_meta());
    let mut settings = new_sys_setting();
    settings.id = text("x");
    settings.heating_setpoint = -1;
    settings.cooling_setpoint = 1;
    model.sys_settings.push(settings);
    let stored = save(&model);
    assert!(stored.ends_with("\n1\n1:x\n0:\n2147483647\n2147483649\n"));
    assert_eq!(load(&stored), Ok(model));
}

#[test]
fn reasons_are_given_in_words() {
    let all = [
        MalformedModel::UnexpectedEnd,
        MalformedModel::BadLine,
        MalformedModel::NumberTooLarge,
        MalformedModel::ExpectedNumber,
        MalformedModel::ExpectedText,
        MalformedModel::OutOfRange,
        MalformedModel::TrailingInput,
    ];
    for (i, a) in all.iter().enumerate() {
        assert!(!a.cause().is_empty());
        for b in &all[..i] {
            assert_ne!(a.cause(), b.cause());
        }
    }
    assert_eq!(MalformedModel::UnexpectedEnd.cause(), "the text ends where more was expected");
}

#[test]
fn validator_accepts_what_was_loaded() {
    let model = load(&save(&full_model())).unwrap();
    assert_eq!(check_model(&model), check_model(&full_model()));
    assert!(!check_model(&model).is_empty());
}

#[test]
fn large_model_is_stored_and_loaded() {
    let mut model = Model::new(new_meta());
    for i in 0..2_000u32 {
        let mut wall = new_wall();
        wall.id = format!("wall {}", i);
        wall.name = format!("muro número {}", i);
        wall.area = i;
        model.walls.push(wall);
        let mut window = new_window();
        window.id = format!("window {}", i);
        window.shades = vec![format!("shade {}", i), format!("shade {}", i + 1)];
        model.windows.push(window);
    }
    let stored = save(&model);
    assert_eq!(load(&stored), Ok(model));
}
