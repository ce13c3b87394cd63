//! Canonical load and save: a model as a text, and back.
//!
//! The text holds the metadata of the building and then each collection of the
//! model, in the order in which the model declares them, as lines of tokens.
//! To save a model and load the text again gives the model back; a text that is
//! no saved model is refused with the reason.

use vstd::prelude::*;
use crate::lines::{
    contents, lemma_scan_render, render, render_tokens, scan, scan_tokens, writable,
    MalformedModel, Tok, Token,
};
use crate::model::{
    Frame, Glass, Material, Meta, Model, Shade, Space, SpaceLoads, SpaceSysConditions,
    ThermalBridge, Wall, WallCons, WinCons, Window,
};
use crate::records::{
    holds, lemma_holds_split, lemma_holds_whole, lemma_parse_list, list_storable, list_tokens, parse_list, read_list,
    record_contents, write_list, Record,
};
use crate::stored::{
    FrameContent, GlassContent, MaterialContent, MetaContent, ShadeContent, SpaceContent,
    SpaceLoadsContent, SpaceSysConditionsContent, ThermalBridgeContent, WallConsContent,
    WallContent, WinConsContent, WindowContent,
};

verus! {

/// What a model holds.
pub struct ModelContent {
    pub meta: MetaContent,
    pub spaces: Seq<SpaceContent>,
    pub walls: Seq<WallContent>,
    pub windows: Seq<WindowContent>,
    pub shades: Seq<ShadeContent>,
    pub thermal_bridges: Seq<ThermalBridgeContent>,
    pub wallcons: Seq<WallConsContent>,
    pub wincons: Seq<WinConsContent>,
    pub materials: Seq<MaterialContent>,
    pub glasses: Seq<GlassContent>,
    pub frames: Seq<FrameContent>,
    pub loads: Seq<SpaceLoadsContent>,
    pub sys_settings: Seq<SpaceSysConditionsContent>,
}

impl Model {
    /// What the model holds.
    pub open spec fn content(&self) -> ModelContent {
        ModelContent {
            meta: self.meta.content(),
            spaces: record_contents(self.spaces@),
            walls: record_contents(self.walls@),
            windows: record_contents(self.windows@),
            shades: record_contents(self.shades@),
            thermal_bridges: record_contents(self.thermal_bridges@),
            wallcons: record_contents(self.wallcons@),
            wincons: record_contents(self.wincons@),
            materials: record_contents(self.materials@),
            glasses: record_contents(self.glasses@),
            frames: record_contents(self.frames@),
            loads: record_contents(self.loads@),
            sys_settings: record_contents(self.sys_settings@),
        }
    }
}

/// The tokens that a model is written as: its metadata, then its collections.
pub open spec fn model_tokens(c: ModelContent) -> Seq<Tok> {
    Meta::tokens_of(c.meta)
        + list_tokens::<Space>(c.spaces)
        + list_tokens::<Wall>(c.walls)
        + list_tokens::<Window>(c.windows)
        + list_tokens::<Shade>(c.shades)
        + list_tokens::<ThermalBridge>(c.thermal_bridges)
        + list_tokens::<WallCons>(c.wallcons)
        + list_tokens::<WinCons>(c.wincons)
        + list_tokens::<Material>(c.materials)
        + list_tokens::<Glass>(c.glasses)
        + list_tokens::<Frame>(c.frames)
        + list_tokens::<SpaceLoads>(c.loads)
        + list_tokens::<SpaceSysConditions>(c.sys_settings)
}

/// Whether each list of a model is short enough to have its length written in
/// 64 bits.
pub open spec fn lists_storable(c: ModelContent) -> bool {
    &&& Meta::storable(c.meta)
    &&& list_storable::<Space>(c.spaces)
    &&& list_storable::<Wall>(c.walls)
    &&& list_storable::<Window>(c.windows)
    &&& list_storable::<Shade>(c.shades)
    &&& list_storable::<ThermalBridge>(c.thermal_bridges)
    &&& list_storable::<WallCons>(c.wallcons)
    &&& list_storable::<WinCons>(c.wincons)
    &&& list_storable::<Material>(c.materials)
    &&& list_storable::<Glass>(c.glasses)
    &&& list_storable::<Frame>(c.frames)
    &&& list_storable::<SpaceLoads>(c.loads)
    &&& list_storable::<SpaceSysConditions>(c.sys_settings)
}

/// Whether a model can be written: each of its lists is short enough to have
/// its length written in 64 bits, and so is each of its texts.
pub open spec fn model_storable(c: ModelContent) -> bool {
    &&& lists_storable(c)
    &&& forall|i: int| 0 <= i < model_tokens(c).len() ==> writable(#[trigger] model_tokens(c)[i])
}

/// The model that stands at a position, and the position after it: the
/// metadata, then each collection from where the one before it ends.
pub open spec fn model_at(tokens: Seq<Tok>, at: int) -> Result<(ModelContent, int), MalformedModel> {
    match Meta::parse_at(tokens, at) {
      Err(e) => Err(e),
      Ok((meta, at)) => match parse_list::<Space>(tokens, at) {
        Err(e) => Err(e),
        Ok((spaces, at)) => match parse_list::<Wall>(tokens, at) {
          Err(e) => Err(e),
          Ok((walls, at)) => match parse_list::<Window>(tokens, at) {
            Err(e) => Err(e),
            Ok((windows, at)) => match parse_list::<Shade>(tokens, at) {
              Err(e) => Err(e),
              Ok((shades, at)) => match parse_list::<ThermalBridge>(tokens, at) {
                Err(e) => Err(e),
                Ok((thermal_bridges, at)) => match parse_list::<WallCons>(tokens, at) {
                  Err(e) => Err(e),
                  Ok((wallcons, at)) => match parse_list::<WinCons>(tokens, at) {
                    Err(e) => Err(e),
                    Ok((wincons, at)) => match parse_list::<Material>(tokens, at) {
                      Err(e) => Err(e),
                      Ok((materials, at)) => match parse_list::<Glass>(tokens, at) {
                        Err(e) => Err(e),
                        Ok((glasses, at)) => match parse_list::<Frame>(tokens, at) {
                          Err(e) => Err(e),
                          Ok((frames, at)) => match parse_list::<SpaceLoads>(tokens, at) {
                            Err(e) => Err(e),
                            Ok((loads, at)) => match parse_list::<SpaceSysConditions>(tokens, at) {
                              Err(e) => Err(e),
                              Ok((sys_settings, at)) => Ok(
                                (
                                  ModelContent {
                                    meta,
                                    spaces,
                                    walls,
                                    windows,
                                    shades,
                                    thermal_bridges,
                                    wallcons,
                                    wincons,
                                    materials,
                                    glasses,
                                    frames,
                                    loads,
                                    sys_settings,
                                  },
                                  at,
                                ),
                              ),
                            },
                          },
                        },
                      },
                    },
                  },
                },
              },
            },
          },
        },
      },
    }
}

/// The model that the tokens hold, from the first to the last.
pub open spec fn parse_model(tokens: Seq<Tok>) -> Result<ModelContent, MalformedModel> {
    match model_at(tokens, 0) {
        Err(e) => Err(e),
        Ok((c, next)) => if next == tokens.len() {
            Ok(c)
        } else {
            Err(MalformedModel::TrailingInput)
        },
    }
}

/// The text that `save` writes for a model.
pub open spec fn save_spec(c: ModelContent) -> Seq<char> {
    render(model_tokens(c))
}

/// What `load` makes of a text.
pub open spec fn load_spec(text: Seq<char>) -> Result<ModelContent, MalformedModel> {
    match scan(text) {
        Err(e) => Err(e),
        Ok(tokens) => parse_model(tokens),
    }
}

/// A model that stands at a position is read back from there.
pub proof fn lemma_model_at(c: ModelContent, tokens: Seq<Tok>, at: int)
    requires
        lists_storable(c),
        holds(tokens, at, model_tokens(c)),
    ensures
        model_at(tokens, at) == Ok::<(ModelContent, int), MalformedModel>(
            (c, at + model_tokens(c).len()),
        ),
{
    let upto_meta = Meta::tokens_of(c.meta);
    let of_spaces = list_tokens::<Space>(c.spaces);
    let upto_spaces = upto_meta + of_spaces;
    let of_walls = list_tokens::<Wall>(c.walls);
    let upto_walls = upto_spaces + of_walls;
    let of_windows = list_tokens::<Window>(c.windows);
    let upto_windows = upto_walls + of_windows;
    let of_shades = list_tokens::<Shade>(c.shades);
    let upto_shades = upto_windows + of_shades;
    let of_thermal_bridges = list_tokens::<ThermalBridge>(c.thermal_bridges);
    let upto_thermal_bridges = upto_shades + of_thermal_bridges;
    let of_wallcons = list_tokens::<WallCons>(c.wallcons);
    let upto_wallcons = upto_thermal_bridges + of_wallcons;
    let of_wincons = list_tokens::<WinCons>(c.wincons);
    let upto_wincons = upto_wallcons + of_wincons;
    let of_materials = list_tokens::<Material>(c.materials);
    let upto_materials = upto_wincons + of_materials;
    let of_glasses = list_tokens::<Glass>(c.glasses);
    let upto_glasses = upto_materials + of_glasses;
    let of_frames = list_tokens::<Frame>(c.frames);
    let upto_frames = upto_glasses + of_frames;
    let of_loads = list_tokens::<SpaceLoads>(c.loads);
    let upto_loads = upto_frames + of_loads;
    let of_sys_settings = list_tokens::<SpaceSysConditions>(c.sys_settings);
    let upto_sys_settings = upto_loads + of_sys_settings;
    lemma_holds_split(tokens, at, upto_loads, of_sys_settings);
    lemma_holds_split(tokens, at, upto_frames, of_loads);
    lemma_holds_split(tokens, at, upto_glasses, of_frames);
    lemma_holds_split(tokens, at, upto_materials, of_glasses);
    lemma_holds_split(tokens, at, upto_wincons, of_materials);
    lemma_holds_split(tokens, at, upto_wallcons, of_wincons);
    lemma_holds_split(tokens, at, upto_thermal_bridges, of_wallcons);
    lemma_holds_split(tokens, at, upto_shades, of_thermal_bridges);
    lemma_holds_split(tokens, at, upto_windows, of_shades);
    lemma_holds_split(tokens, at, upto_walls, of_windows);
    lemma_holds_split(tokens, at, upto_spaces, of_walls);
    lemma_holds_split(tokens, at, upto_meta, of_spaces);
    Meta::lemma_parse(c.meta, tokens, at);
    lemma_parse_list::<Space>(c.spaces, tokens, at + upto_meta.len());
    lemma_parse_list::<Wall>(c.walls, tokens, at + upto_spaces.len());
    lemma_parse_list::<Window>(c.windows, tokens, at + upto_walls.len());
    lemma_parse_list::<Shade>(c.shades, tokens, at + upto_windows.len());
    lemma_parse_list::<ThermalBridge>(c.thermal_bridges, tokens, at + upto_shades.len());
    lemma_parse_list::<WallCons>(c.wallcons, tokens, at + upto_thermal_bridges.len());
    lemma_parse_list::<WinCons>(c.wincons, tokens, at + upto_wallcons.len());
    lemma_parse_list::<Material>(c.materials, tokens, at + upto_wincons.len());
    lemma_parse_list::<Glass>(c.glasses, tokens, at + upto_materials.len());
    lemma_parse_list::<Frame>(c.frames, tokens, at + upto_glasses.len());
    lemma_parse_list::<SpaceLoads>(c.loads, tokens, at + upto_frames.len());
    lemma_parse_list::<SpaceSysConditions>(c.sys_settings, tokens, at + upto_loads.len());
}

/// Load and save are inverse: the text that is written for a model is read
/// back as that model.
pub proof fn law_load_save(c: ModelContent)
    requires
        model_storable(c),
    ensures
        load_spec(save_spec(c)) == Ok::<ModelContent, MalformedModel>(c),
{
    let tokens = model_tokens(c);
    lemma_scan_render(tokens);
    lemma_holds_whole(tokens);
    lemma_model_at(c, tokens, 0);
}

/// Writes the tokens of a model.
pub fn write_model(model: &Model, out: &mut Vec<Token>)
    ensures
        contents(final(out)@) == contents(old(out)@) + model_tokens(model.content()),
        Meta::storable(model.content().meta),
        list_storable::<Space>(model.content().spaces),
        list_storable::<Wall>(model.content().walls),
        list_storable::<Window>(model.content().windows),
        list_storable::<Shade>(model.content().shades),
        list_storable::<ThermalBridge>(model.content().thermal_bridges),
        list_storable::<WallCons>(model.content().wallcons),
        list_storable::<WinCons>(model.content().wincons),
        list_storable::<Material>(model.content().materials),
        list_storable::<Glass>(model.content().glasses),
        list_storable::<Frame>(model.content().frames),
        list_storable::<SpaceLoads>(model.content().loads),
        list_storable::<SpaceSysConditions>(model.content().sys_settings),
{
    let ghost c = model.content();
    let ghost start = contents(out@);
    model.meta.write(out);
    let ghost upto_meta = Meta::tokens_of(c.meta);
    write_list(out, &model.spaces);
    let ghost upto_spaces = upto_meta + list_tokens::<Space>(c.spaces);
    assert(contents(out@) =~= start + upto_spaces);
    write_list(out, &model.walls);
    let ghost upto_walls = upto_spaces + list_tokens::<Wall>(c.walls);
    assert(contents(out@) =~= start + upto_walls);
    write_list(out, &model.windows);
    let ghost upto_windows = upto_walls + list_tokens::<Window>(c.windows);
    assert(contents(out@) =~= start + upto_windows);
    write_list(out, &model.shades);
    let ghost upto_shades = upto_windows + list_tokens::<Shade>(c.shades);
    assert(contents(out@) =~= start + upto_shades);
    write_list(out, &model.thermal_bridges);
    let ghost upto_thermal_bridges = upto_shades + list_tokens::<ThermalBridge>(c.thermal_bridges);
    assert(contents(out@) =~= start + upto_thermal_bridges);
    write_list(out, &model.wallcons);
    let ghost upto_wallcons = upto_thermal_bridges + list_tokens::<WallCons>(c.wallcons);
    assert(contents(out@) =~= start + upto_wallcons);
    write_list(out, &model.wincons);
    let ghost upto_wincons = upto_wallcons + list_tokens::<WinCons>(c.wincons);
    assert(contents(out@) =~= start + upto_wincons);
    write_list(out, &model.materials);
    let ghost upto_materials = upto_wincons + list_tokens::<Material>(c.materials);
    assert(contents(out@) =~= start + upto_materials);
    write_list(out, &model.glasses);
    let ghost upto_glasses = upto_materials + list_tokens::<Glass>(c.glasses);
    assert(contents(out@) =~= start + upto_glasses);
    write_list(out, &model.frames);
    let ghost upto_frames = upto_glasses + list_tokens::<Frame>(c.frames);
    assert(contents(out@) =~= start + upto_frames);
    write_list(out, &model.loads);
    let ghost upto_loads = upto_frames + list_tokens::<SpaceLoads>(c.loads);
    assert(contents(out@) =~= start + upto_loads);
    write_list(out, &model.sys_settings);
    let ghost upto_sys_settings = upto_loads + list_tokens::<SpaceSysConditions>(c.sys_settings);
    assert(contents(out@) =~= start + upto_sys_settings);
}

/// Reads the model that stands at a position. Returns it and the position
/// after it.
pub fn read_model(tokens: &Vec<Token>, at: usize) -> (r: Result<(Model, usize), MalformedModel>)
    requires
        at <= tokens.len(),
    ensures
        match r {
            Ok((model, next)) => model_at(contents(tokens@), at as int) == Ok::<
                (ModelContent, int),
                MalformedModel,
            >((model.content(), next as int)) && at <= next <= tokens.len(),
            Err(e) => model_at(contents(tokens@), at as int) == Err::<
                (ModelContent, int),
                MalformedModel,
            >(e),
        },
{
    let (meta, after_meta) = Meta::read(tokens, at)?;
    let (spaces, after_spaces) = read_list::<Space>(tokens, after_meta)?;
    let (walls, after_walls) = read_list::<Wall>(tokens, after_spaces)?;
    let (windows, after_windows) = read_list::<Window>(tokens, after_walls)?;
    let (shades, after_shades) = read_list::<Shade>(tokens, after_windows)?;
    let (thermal_bridges, after_thermal_bridges) = read_list::<ThermalBridge>(
        tokens,
        after_shades,
    )?;
    let (wallcons, after_wallcons) = read_list::<WallCons>(tokens, after_thermal_bridges)?;
    let (wincons, after_wincons) = read_list::<WinCons>(tokens, after_wallcons)?;
    let (materials, after_materials) = read_list::<Material>(tokens, after_wincons)?;
    let (glasses, after_glasses) = read_list::<Glass>(tokens, after_materials)?;
    let (frames, after_frames) = read_list::<Frame>(tokens, after_glasses)?;
    let (loads, after_loads) = read_list::<SpaceLoads>(tokens, after_frames)?;
    let (sys_settings, after_sys_settings) = read_list::<SpaceSysConditions>(
        tokens,
        after_loads,
    )?;
    Ok(
        (
            Model {
                meta,
                spaces,
                walls,
                windows,
                shades,
                thermal_bridges,
                wallcons,
                wincons,
                materials,
                glasses,
                frames,
                loads,
                sys_settings,
            },
            after_sys_settings,
        ),
    )
}

/// Writes a model as a text. To load the text gives the model back.
pub fn save(model: &Model) -> (text: String)
    ensures
        text@ == save_spec(model.content()),
        load_spec(text@) == Ok::<ModelContent, MalformedModel>(model.content()),
{
    let mut tokens: Vec<Token> = Vec::new();
    write_model(model, &mut tokens);
    assert(contents(tokens@) =~= model_tokens(model.content()));
    let text = render_tokens(&tokens);
    proof {
        lemma_holds_whole(contents(tokens@));
        lemma_model_at(model.content(), contents(tokens@), 0);
    }
    text
}

/// Reads a model from a text. A text that `save` did not write, or that was
/// changed since, is refused with the reason.
pub fn load(text: &str) -> (r: Result<Model, MalformedModel>)
    ensures
        match r {
            Ok(model) => load_spec(text@) == Ok::<ModelContent, MalformedModel>(model.content()),
            Err(e) => load_spec(text@) == Err::<ModelContent, MalformedModel>(e),
        },
{
    let tokens = scan_tokens(text)?;
    match read_model(&tokens, 0) {
        Err(e) => Err(e),
        Ok((model, next)) => if next == tokens.len() {
            Ok(model)
        } else {
            Err(MalformedModel::TrailingInput)
        },
    }
}

} // verus!
