//! The entities of the model as records: how each is written as tokens and
//! read back.
//!
//! An entity takes one token for each text, number, truth value or enumerated
//! value, and two for each optional value: a flag and the value. A list of
//! texts comes last: its length, then the texts.

use vstd::prelude::*;
use crate::climate::Orientation;
use crate::lines::{contents, MalformedModel, Tok, Token};
use crate::model::{
    BoundaryKind, Frame, Glass, Material, Meta, Shade, ShadeKind, Space, SpaceKind, SpaceLoads,
    SpaceSysConditions, ThermalBridge, Wall, WallCons, WinCons, Window,
};
use crate::records::{
    bool_at, bool_token, boundary_at, holds, i32_at, lemma_holds_index, lemma_holds_split,
    lemma_texts_at, opt_content, opt_number_at, opt_number_tokens, opt_text_at,
    opt_text_tokens, opt_u32_at, orientation_at, read_bool, read_boundary, read_i32,
    read_opt_number, read_opt_text, read_opt_u32, read_orientation, read_shade_kind,
    read_space_kind, read_text, read_texts, put, read_u32, shade_kind_at, signed, signed_token,
    space_kind, space_kind_at, space_kind_token, text_at, text_contents, texts_at, texts_tokens,
    truth, u32_at, widen, widened, write_opt_number, write_opt_text, write_texts, Record,
};

verus! {

/// What the data of a building holds.
pub struct MetaContent {
    pub name: Seq<char>,
    pub climate: Seq<char>,
    pub area_ref_override: Option<u64>,
    pub is_new_building: bool,
    pub is_dwelling: bool,
}

/// The tokens of the data of a building, but for a list of texts at its end.
pub open spec fn meta_tokens(c: MetaContent) -> Seq<Tok> {
    seq![
        Tok::Txt(c.name),
        Tok::Txt(c.climate),
        opt_number_tokens(c.area_ref_override)[0],
        opt_number_tokens(c.area_ref_override)[1],
        bool_token(c.is_new_building),
        bool_token(c.is_dwelling),
    ]
}

impl Record for Meta {
    type Content = MetaContent;

    open spec fn content(&self) -> MetaContent {
        MetaContent {
            name: self.name@,
            climate: self.climate@,
            area_ref_override: self.area_ref_override,
            is_new_building: self.is_new_building,
            is_dwelling: self.is_dwelling,
        }
    }

    open spec fn storable(c: MetaContent) -> bool {
        true
    }

    open spec fn tokens_of(c: MetaContent) -> Seq<Tok> {
        meta_tokens(c)
    }

    open spec fn parse_at(tokens: Seq<Tok>, at: int) -> Result<(MetaContent, int), MalformedModel> {
        match text_at(tokens, at) {
            Err(e) => Err(e),
            Ok(name) => match text_at(tokens, at + 1) {
                Err(e) => Err(e),
                Ok(climate) => match opt_number_at(tokens, at + 2) {
                    Err(e) => Err(e),
                    Ok(area_ref_override) => match bool_at(tokens, at + 4) {
                        Err(e) => Err(e),
                        Ok(is_new_building) => match bool_at(tokens, at + 5) {
                            Err(e) => Err(e),
                            Ok(is_dwelling) => Ok(
                                (
                                    MetaContent {
                                        name,
                                        climate,
                                        area_ref_override,
                                        is_new_building,
                                        is_dwelling,
                                    },
                                    at + 6,
                                ),
                            ),
                        },
                    },
                },
            },
        }
    }

    proof fn lemma_parse(c: MetaContent, tokens: Seq<Tok>, at: int) {
        let fixed = meta_tokens(c);
        lemma_holds_index(tokens, at, fixed, 0);
        lemma_holds_index(tokens, at, fixed, 1);
        lemma_holds_index(tokens, at, fixed, 2);
        lemma_holds_index(tokens, at, fixed, 3);
        lemma_holds_index(tokens, at, fixed, 4);
        lemma_holds_index(tokens, at, fixed, 5);
    }

    fn write(&self, out: &mut Vec<Token>) {
        put(out, Token::Text(self.name.clone()));
        put(out, Token::Text(self.climate.clone()));
        write_opt_number(out, self.area_ref_override);
        put(out, truth(self.is_new_building));
        put(out, truth(self.is_dwelling));
        assert(opt_number_tokens(self.area_ref_override).len() == 2);
        assert(contents(out@) =~= contents(old(out)@) + meta_tokens(self.content()));
    }

    fn read(tokens: &Vec<Token>, at: usize) -> (r: Result<(Self, usize), MalformedModel>) {
        let name = read_text(tokens, at, 0)?;
        let climate = read_text(tokens, at, 1)?;
        let area_ref_override = read_opt_number(tokens, at, 2)?;
        let is_new_building = read_bool(tokens, at, 4)?;
        let is_dwelling = read_bool(tokens, at, 5)?;
        Ok(
            (Meta { name, climate, area_ref_override, is_new_building, is_dwelling }, at + 6),
        )
    }
}

/// What a space holds.
pub struct SpaceContent {
    pub id: Seq<char>,
    pub name: Seq<char>,
    pub area: u32,
    pub height: u32,
    pub kind: Option<SpaceKind>,
    pub multiplier: u32,
    pub loads: Option<Seq<char>>,
    pub sys_settings: Option<Seq<char>>,
}

/// The tokens of a space, but for a list of texts at its end.
pub open spec fn space_tokens(c: SpaceContent) -> Seq<Tok> {
    seq![
        Tok::Txt(c.id),
        Tok::Txt(c.name),
        Tok::Num(c.area as u64),
        Tok::Num(c.height as u64),
        space_kind_token(c.kind),
        Tok::Num(c.multiplier as u64),
        opt_text_tokens(c.loads)[0],
        opt_text_tokens(c.loads)[1],
        opt_text_tokens(c.sys_settings)[0],
        opt_text_tokens(c.sys_settings)[1],
    ]
}

impl Record for Space {
    type Content = SpaceContent;

    open spec fn content(&self) -> SpaceContent {
        SpaceContent {
            id: self.id@,
            name: self.name@,
            area: self.area,
            height: self.height,
            kind: self.kind,
            multiplier: self.multiplier,
            loads: opt_content(self.loads),
            sys_settings: opt_content(self.sys_settings),
        }
    }

    open spec fn storable(c: SpaceContent) -> bool {
        true
    }

    open spec fn tokens_of(c: SpaceContent) -> Seq<Tok> {
        space_tokens(c)
    }

    open spec fn parse_at(tokens: Seq<Tok>, at: int) -> Result<(SpaceContent, int), MalformedModel> {
        match text_at(tokens, at) {
            Err(e) => Err(e),
            Ok(id) => match text_at(tokens, at + 1) {
                Err(e) => Err(e),
                Ok(name) => match u32_at(tokens, at + 2) {
                    Err(e) => Err(e),
                    Ok(area) => match u32_at(tokens, at + 3) {
                        Err(e) => Err(e),
                        Ok(height) => match space_kind_at(tokens, at + 4) {
                            Err(e) => Err(e),
                            Ok(kind) => match u32_at(tokens, at + 5) {
                                Err(e) => Err(e),
                                Ok(multiplier) => match opt_text_at(tokens, at + 6) {
                                    Err(e) => Err(e),
                                    Ok(loads) => match opt_text_at(tokens, at + 8) {
                                        Err(e) => Err(e),
                                        Ok(sys_settings) => Ok(
                                            (
                                                SpaceContent {
                                                    id,
                                                    name,
                                                    area,
                                                    height,
                                                    kind,
                                                    multiplier,
                                                    loads,
                                                    sys_settings,
                                                },
                                                at + 10,
                                            ),
                                        ),
                                    },
                                },
                            },
                        },
                    },
                },
            },
        }
    }

    proof fn lemma_parse(c: SpaceContent, tokens: Seq<Tok>, at: int) {
        let fixed = space_tokens(c);
        lemma_holds_index(tokens, at, fixed, 0);
        lemma_holds_index(tokens, at, fixed, 1);
        lemma_holds_index(tokens, at, fixed, 2);
        lemma_holds_index(tokens, at, fixed, 3);
        lemma_holds_index(tokens, at, fixed, 4);
        lemma_holds_index(tokens, at, fixed, 5);
        lemma_holds_index(tokens, at, fixed, 6);
        lemma_holds_index(tokens, at, fixed, 7);
        lemma_holds_index(tokens, at, fixed, 8);
        lemma_holds_index(tokens, at, fixed, 9);
        assert(c.kind matches Some(kind) ==> SpaceKind::at(kind.index_spec()) == Some(kind));
    }

    fn write(&self, out: &mut Vec<Token>) {
        put(out, Token::Text(self.id.clone()));
        put(out, Token::Text(self.name.clone()));
        put(out, Token::Number(self.area as u64));
        put(out, Token::Number(self.height as u64));
        put(out, space_kind(self.kind));
        put(out, Token::Number(self.multiplier as u64));
        write_opt_text(out, &self.loads);
        write_opt_text(out, &self.sys_settings);
        assert(opt_text_tokens(opt_content(self.loads)).len() == 2);
        assert(opt_text_tokens(opt_content(self.sys_settings)).len() == 2);
        assert(contents(out@) =~= contents(old(out)@) + space_tokens(self.content()));
    }

    fn read(tokens: &Vec<Token>, at: usize) -> (r: Result<(Self, usize), MalformedModel>) {
        let id = read_text(tokens, at, 0)?;
        let name = read_text(tokens, at, 1)?;
        let area = read_u32(tokens, at, 2)?;
        let height = read_u32(tokens, at, 3)?;
        let kind = read_space_kind(tokens, at, 4)?;
        let multiplier = read_u32(tokens, at, 5)?;
        let loads = read_opt_text(tokens, at, 6)?;
        let sys_settings = read_opt_text(tokens, at, 8)?;
        Ok(
            (Space { id, name, area, height, kind, multiplier, loads, sys_settings }, at + 10),
        )
    }
}

/// What a wall holds.
pub struct WallContent {
    pub id: Seq<char>,
    pub name: Seq<char>,
    pub area: u32,
    pub orientation: Orientation,
    pub tilt: u32,
    pub bounds: BoundaryKind,
    pub cons: Seq<char>,
    pub space: Seq<char>,
    pub next_to: Option<Seq<char>>,
}

/// The tokens of a wall, but for a list of texts at its end.
pub open spec fn wall_tokens(c: WallContent) -> Seq<Tok> {
    seq![
        Tok::Txt(c.id),
        Tok::Txt(c.name),
        Tok::Num(c.area as u64),
        Tok::Num(c.orientation.index_spec() as u64),
        Tok::Num(c.tilt as u64),
        Tok::Num(c.bounds.index_spec() as u64),
        Tok::Txt(c.cons),
        Tok::Txt(c.space),
        opt_text_tokens(c.next_to)[0],
        opt_text_tokens(c.next_to)[1],
    ]
}

impl Record for Wall {
    type Content = WallContent;

    open spec fn content(&self) -> WallContent {
        WallContent {
            id: self.id@,
            name: self.name@,
            area: self.area,
            orientation: self.orientation,
            tilt: self.tilt,
            bounds: self.bounds,
            cons: self.cons@,
            space: self.space@,
            next_to: opt_content(self.next_to),
        }
    }

    open spec fn storable(c: WallContent) -> bool {
        true
    }

    open spec fn tokens_of(c: WallContent) -> Seq<Tok> {
        wall_tokens(c)
    }

    open spec fn parse_at(tokens: Seq<Tok>, at: int) -> Result<(WallContent, int), MalformedModel> {
        match text_at(tokens, at) {
            Err(e) => Err(e),
            Ok(id) => match text_at(tokens, at + 1) {
                Err(e) => Err(e),
                Ok(name) => match u32_at(tokens, at + 2) {
                    Err(e) => Err(e),
                    Ok(area) => match orientation_at(tokens, at + 3) {
                        Err(e) => Err(e),
                        Ok(orientation) => match u32_at(tokens, at + 4) {
                            Err(e) => Err(e),
                            Ok(tilt) => match boundary_at(tokens, at + 5) {
                                Err(e) => Err(e),
                                Ok(bounds) => match text_at(tokens, at + 6) {
                                    Err(e) => Err(e),
                                    Ok(cons) => match text_at(tokens, at + 7) {
                                        Err(e) => Err(e),
                                        Ok(space) => match opt_text_at(tokens, at + 8) {
                                            Err(e) => Err(e),
                                            Ok(next_to) => Ok(
                                                (
                                                    WallContent {
                                                        id,
                                                        name,
                                                        area,
                                                        orientation,
                                                        tilt,
                                                        bounds,
                                                        cons,
                                                        space,
                                                        next_to,
                                                    },
                                                    at + 10,
                                                ),
                                            ),
                                        },
                                    },
                                },
                            },
                        },
                    },
                },
            },
        }
    }

    proof fn lemma_parse(c: WallContent, tokens: Seq<Tok>, at: int) {
        let fixed = wall_tokens(c);
        lemma_holds_index(tokens, at, fixed, 0);
        lemma_holds_index(tokens, at, fixed, 1);
        lemma_holds_index(tokens, at, fixed, 2);
        lemma_holds_index(tokens, at, fixed, 3);
        lemma_holds_index(tokens, at, fixed, 4);
        lemma_holds_index(tokens, at, fixed, 5);
        lemma_holds_index(tokens, at, fixed, 6);
        lemma_holds_index(tokens, at, fixed, 7);
        lemma_holds_index(tokens, at, fixed, 8);
        lemma_holds_index(tokens, at, fixed, 9);
        assert(Orientation::at(c.orientation.index_spec()) == Some(c.orientation));
        assert(BoundaryKind::at(c.bounds.index_spec()) == Some(c.bounds));
    }

    fn write(&self, out: &mut Vec<Token>) {
        put(out, Token::Text(self.id.clone()));
        put(out, Token::Text(self.name.clone()));
        put(out, Token::Number(self.area as u64));
        put(out, Token::Number(self.orientation.index() as u64));
        put(out, Token::Number(self.tilt as u64));
        put(out, Token::Number(self.bounds.index() as u64));
        put(out, Token::Text(self.cons.clone()));
        put(out, Token::Text(self.space.clone()));
        write_opt_text(out, &self.next_to);
        assert(opt_text_tokens(opt_content(self.next_to)).len() == 2);
        assert(contents(out@) =~= contents(old(out)@) + wall_tokens(self.content()));
    }

    fn read(tokens: &Vec<Token>, at: usize) -> (r: Result<(Self, usize), MalformedModel>) {
        let id = read_text(tokens, at, 0)?;
        let name = read_text(tokens, at, 1)?;
        let area = read_u32(tokens, at, 2)?;
        let orientation = read_orientation(tokens, at, 3)?;
        let tilt = read_u32(tokens, at, 4)?;
        let bounds = read_boundary(tokens, at, 5)?;
        let cons = read_text(tokens, at, 6)?;
        let space = read_text(tokens, at, 7)?;
        let next_to = read_opt_text(tokens, at, 8)?;
        Ok(
            (Wall { id, name, area, orientation, tilt, bounds, cons, space, next_to }, at + 10),
        )
    }
}

/// What a window holds.
pub struct WindowContent {
    pub id: Seq<char>,
    pub name: Seq<char>,
    pub area: u32,
    pub orientation: Orientation,
    pub cons: Seq<char>,
    pub wall: Seq<char>,
    pub fshobst: u32,
    pub shades: Seq<Seq<char>>,
}

/// The tokens of a window, but for a list of texts at its end.
pub open spec fn window_tokens(c: WindowContent) -> Seq<Tok> {
    seq![
        Tok::Txt(c.id),
        Tok::Txt(c.name),
        Tok::Num(c.area as u64),
        Tok::Num(c.orientation.index_spec() as u64),
        Tok::Txt(c.cons),
        Tok::Txt(c.wall),
        Tok::Num(c.fshobst as u64),
    ]
}

impl Record for Window {
    type Content = WindowContent;

    open spec fn content(&self) -> WindowContent {
        WindowContent {
            id: self.id@,
            name: self.name@,
            area: self.area,
            orientation: self.orientation,
            cons: self.cons@,
            wall: self.wall@,
            fshobst: self.fshobst,
            shades: text_contents(self.shades@),
        }
    }

    open spec fn storable(c: WindowContent) -> bool {
        c.shades.len() <= u64::MAX
    }

    open spec fn tokens_of(c: WindowContent) -> Seq<Tok> {
        window_tokens(c) + texts_tokens(c.shades)
    }

    open spec fn parse_at(tokens: Seq<Tok>, at: int) -> Result<(WindowContent, int), MalformedModel> {
        match text_at(tokens, at) {
            Err(e) => Err(e),
            Ok(id) => match text_at(tokens, at + 1) {
                Err(e) => Err(e),
                Ok(name) => match u32_at(tokens, at + 2) {
                    Err(e) => Err(e),
                    Ok(area) => match orientation_at(tokens, at + 3) {
                        Err(e) => Err(e),
                        Ok(orientation) => match text_at(tokens, at + 4) {
                            Err(e) => Err(e),
                            Ok(cons) => match text_at(tokens, at + 5) {
                                Err(e) => Err(e),
                                Ok(wall) => match u32_at(tokens, at + 6) {
                                    Err(e) => Err(e),
                                    Ok(fshobst) => match texts_at(tokens, at + 7) {
                                        Err(e) => Err(e),
                                        Ok((shades, next)) => Ok(
                                            (
                                                WindowContent {
                                                    id,
                                                    name,
                                                    area,
                                                    orientation,
                                                    cons,
                                                    wall,
                                                    fshobst,
                                                    shades,
                                                },
                                                next,
                                            ),
                                        ),
                                    },
                                },
                            },
                        },
                    },
                },
            },
        }
    }

    proof fn lemma_parse(c: WindowContent, tokens: Seq<Tok>, at: int) {
        let fixed = window_tokens(c);
        lemma_holds_split(tokens, at, fixed, texts_tokens(c.shades));
        lemma_texts_at(c.shades, tokens, at + 7);
        lemma_holds_index(tokens, at, fixed, 0);
        lemma_holds_index(tokens, at, fixed, 1);
        lemma_holds_index(tokens, at, fixed, 2);
        lemma_holds_index(tokens, at, fixed, 3);
        lemma_holds_index(tokens, at, fixed, 4);
        lemma_holds_index(tokens, at, fixed, 5);
        lemma_holds_index(tokens, at, fixed, 6);
        assert(Orientation::at(c.orientation.index_spec()) == Some(c.orientation));
    }

    fn write(&self, out: &mut Vec<Token>) {
        put(out, Token::Text(self.id.clone()));
        put(out, Token::Text(self.name.clone()));
        put(out, Token::Number(self.area as u64));
        put(out, Token::Number(self.orientation.index() as u64));
        put(out, Token::Text(self.cons.clone()));
        put(out, Token::Text(self.wall.clone()));
        put(out, Token::Number(self.fshobst as u64));
        assert(contents(out@) =~= contents(old(out)@) + window_tokens(self.content()));
        write_texts(out, &self.shades);
        assert(text_contents(self.shades@).len() == self.shades.len());
        assert(contents(out@) =~= contents(old(out)@) + Self::tokens_of(self.content()));
    }

    fn read(tokens: &Vec<Token>, at: usize) -> (r: Result<(Self, usize), MalformedModel>) {
        let id = read_text(tokens, at, 0)?;
        let name = read_text(tokens, at, 1)?;
        let area = read_u32(tokens, at, 2)?;
        let orientation = read_orientation(tokens, at, 3)?;
        let cons = read_text(tokens, at, 4)?;
        let wall = read_text(tokens, at, 5)?;
        let fshobst = read_u32(tokens, at, 6)?;
        let (shades, next) = read_texts(tokens, at, 7)?;
        Ok(
            (Window { id, name, area, orientation, cons, wall, fshobst, shades }, next),
        )
    }
}

/// What a shade holds.
pub struct ShadeContent {
    pub id: Seq<char>,
    pub name: Seq<char>,
    pub kind: ShadeKind,
    pub orientation: Orientation,
    pub depth: u32,
    pub distance: u32,
    pub factor: Option<u32>,
}

/// The tokens of a shade, but for a list of texts at its end.
pub open spec fn shade_tokens(c: ShadeContent) -> Seq<Tok> {
    seq![
        Tok::Txt(c.id),
        Tok::Txt(c.name),
        Tok::Num(c.kind.index_spec() as u64),
        Tok::Num(c.orientation.index_spec() as u64),
        Tok::Num(c.depth as u64),
        Tok::Num(c.distance as u64),
        opt_number_tokens(widened(c.factor))[0],
        opt_number_tokens(widened(c.factor))[1],
    ]
}

impl Record for Shade {
    type Content = ShadeContent;

    open spec fn content(&self) -> ShadeContent {
        ShadeContent {
            id: self.id@,
            name: self.name@,
            kind: self.kind,
            orientation: self.orientation,
            depth: self.depth,
            distance: self.distance,
            factor: self.factor,
        }
    }

    open spec fn storable(c: ShadeContent) -> bool {
        true
    }

    open spec fn tokens_of(c: ShadeContent) -> Seq<Tok> {
        shade_tokens(c)
    }

    open spec fn parse_at(tokens: Seq<Tok>, at: int) -> Result<(ShadeContent, int), MalformedModel> {
        match text_at(tokens, at) {
            Err(e) => Err(e),
            Ok(id) => match text_at(tokens, at + 1) {
                Err(e) => Err(e),
                Ok(name) => match shade_kind_at(tokens, at + 2) {
                    Err(e) => Err(e),
                    Ok(kind) => match orientation_at(tokens, at + 3) {
                        Err(e) => Err(e),
                        Ok(orientation) => match u32_at(tokens, at + 4) {
                            Err(e) => Err(e),
                            Ok(depth) => match u32_at(tokens, at + 5) {
                                Err(e) => Err(e),
                                Ok(distance) => match opt_u32_at(tokens, at + 6) {
                                    Err(e) => Err(e),
                                    Ok(factor) => Ok(
                                        (
                                            ShadeContent {
                                                id,
                                                name,
                                                kind,
                                                orientation,
                                                depth,
                                                distance,
                                                factor,
                                            },
                                            at + 8,
                                        ),
                                    ),
                                },
                            },
                        },
                    },
                },
            },
        }
    }

    proof fn lemma_parse(c: ShadeContent, tokens: Seq<Tok>, at: int) {
        let fixed = shade_tokens(c);
        lemma_holds_index(tokens, at, fixed, 0);
        lemma_holds_index(tokens, at, fixed, 1);
        lemma_holds_index(tokens, at, fixed, 2);
        lemma_holds_index(tokens, at, fixed, 3);
        lemma_holds_index(tokens, at, fixed, 4);
        lemma_holds_index(tokens, at, fixed, 5);
        lemma_holds_index(tokens, at, fixed, 6);
        lemma_holds_index(tokens, at, fixed, 7);
        assert(ShadeKind::at(c.kind.index_spec()) == Some(c.kind));
        assert(Orientation::at(c.orientation.index_spec()) == Some(c.orientation));
    }

    fn write(&self, out: &mut Vec<Token>) {
        put(out, Token::Text(self.id.clone()));
        put(out, Token::Text(self.name.clone()));
        put(out, Token::Number(self.kind.index() as u64));
        put(out, Token::Number(self.orientation.index() as u64));
        put(out, Token::Number(self.depth as u64));
        put(out, Token::Number(self.distance as u64));
        write_opt_number(out, widen(self.factor));
        assert(opt_number_tokens(widened(self.factor)).len() == 2);
        assert(contents(out@) =~= contents(old(out)@) + shade_tokens(self.content()));
    }

    fn read(tokens: &Vec<Token>, at: usize) -> (r: Result<(Self, usize), MalformedModel>) {
        let id = read_text(tokens, at, 0)?;
        let name = read_text(tokens, at, 1)?;
        let kind = read_shade_kind(tokens, at, 2)?;
        let orientation = read_orientation(tokens, at, 3)?;
        let depth = read_u32(tokens, at, 4)?;
        let distance = read_u32(tokens, at, 5)?;
        let factor = read_opt_u32(tokens, at, 6)?;
        Ok(
            (Shade { id, name, kind, orientation, depth, distance, factor }, at + 8),
        )
    }
}

/// What a thermal bridge holds.
pub struct ThermalBridgeContent {
    pub id: Seq<char>,
    pub name: Seq<char>,
    pub length: u32,
    pub psi: u32,
}

/// The tokens of a thermal bridge, but for a list of texts at its end.
pub open spec fn thermalbridge_tokens(c: ThermalBridgeContent) -> Seq<Tok> {
    seq![
        Tok::Txt(c.id),
        Tok::Txt(c.name),
        Tok::Num(c.length as u64),
        Tok::Num(c.psi as u64),
    ]
}

impl Record for ThermalBridge {
    type Content = ThermalBridgeContent;

    open spec fn content(&self) -> ThermalBridgeContent {
        ThermalBridgeContent {
            id: self.id@,
            name: self.name@,
            length: self.length,
            psi: self.psi,
        }
    }

    open spec fn storable(c: ThermalBridgeContent) -> bool {
        true
    }

    open spec fn tokens_of(c: ThermalBridgeContent) -> Seq<Tok> {
        thermalbridge_tokens(c)
    }

    open spec fn parse_at(tokens: Seq<Tok>, at: int) -> Result<(ThermalBridgeContent, int), MalformedModel> {
        match text_at(tokens, at) {
            Err(e) => Err(e),
            Ok(id) => match text_at(tokens, at + 1) {
                Err(e) => Err(e),
                Ok(name) => match u32_at(tokens, at + 2) {
                    Err(e) => Err(e),
                    Ok(length) => match u32_at(tokens, at + 3) {
                        Err(e) => Err(e),
                        Ok(psi) => Ok(
                            (ThermalBridgeContent { id, name, length, psi }, at + 4),
                        ),
                    },
                },
            },
        }
    }

    proof fn lemma_parse(c: ThermalBridgeContent, tokens: Seq<Tok>, at: int) {
        let fixed = thermalbridge_tokens(c);
        lemma_holds_index(tokens, at, fixed, 0);
        lemma_holds_index(tokens, at, fixed, 1);
        lemma_holds_index(tokens, at, fixed, 2);
        lemma_holds_index(tokens, at, fixed, 3);
    }

    fn write(&self, out: &mut Vec<Token>) {
        put(out, Token::Text(self.id.clone()));
        put(out, Token::Text(self.name.clone()));
        put(out, Token::Number(self.length as u64));
        put(out, Token::Number(self.psi as u64));
        assert(contents(out@) =~= contents(old(out)@) + thermalbridge_tokens(self.content()));
    }

    fn read(tokens: &Vec<Token>, at: usize) -> (r: Result<(Self, usize), MalformedModel>) {
        let id = read_text(tokens, at, 0)?;
        let name = read_text(tokens, at, 1)?;
        let length = read_u32(tokens, at, 2)?;
        let psi = read_u32(tokens, at, 3)?;
        Ok(
            (ThermalBridge { id, name, length, psi }, at + 4),
        )
    }
}

/// What a wall construction holds.
pub struct WallConsContent {
    pub id: Seq<char>,
    pub name: Seq<char>,
    pub layers: Seq<Seq<char>>,
}

/// The tokens of a wall construction, but for a list of texts at its end.
pub open spec fn wallcons_tokens(c: WallConsContent) -> Seq<Tok> {
    seq![
        Tok::Txt(c.id),
        Tok::Txt(c.name),
    ]
}

impl Record for WallCons {
    type Content = WallConsContent;

    open spec fn content(&self) -> WallConsContent {
        WallConsContent {
            id: self.id@,
            name: self.name@,
            layers: text_contents(self.layers@),
        }
    }

    open spec fn storable(c: WallConsContent) -> bool {
        c.layers.len() <= u64::MAX
    }

    open spec fn tokens_of(c: WallConsContent) -> Seq<Tok> {
        wallcons_tokens(c) + texts_tokens(c.layers)
    }

    open spec fn parse_at(tokens: Seq<Tok>, at: int) -> Result<(WallConsContent, int), MalformedModel> {
        match text_at(tokens, at) {
            Err(e) => Err(e),
            Ok(id) => match text_at(tokens, at + 1) {
                Err(e) => Err(e),
                Ok(name) => match texts_at(tokens, at + 2) {
                    Err(e) => Err(e),
                    Ok((layers, next)) => Ok(
                        (WallConsContent { id, name, layers }, next),
                    ),
                },
            },
        }
    }

    proof fn lemma_parse(c: WallConsContent, tokens: Seq<Tok>, at: int) {
        let fixed = wallcons_tokens(c);
        lemma_holds_split(tokens, at, fixed, texts_tokens(c.layers));
        lemma_texts_at(c.layers, tokens, at + 2);
        lemma_holds_index(tokens, at, fixed, 0);
        lemma_holds_index(tokens, at, fixed, 1);
    }

    fn write(&self, out: &mut Vec<Token>) {
        put(out, Token::Text(self.id.clone()));
        put(out, Token::Text(self.name.clone()));
        assert(contents(out@) =~= contents(old(out)@) + wallcons_tokens(self.content()));
        write_texts(out, &self.layers);
        assert(text_contents(self.layers@).len() == self.layers.len());
        assert(contents(out@) =~= contents(old(out)@) + Self::tokens_of(self.content()));
    }

    fn read(tokens: &Vec<Token>, at: usize) -> (r: Result<(Self, usize), MalformedModel>) {
        let id = read_text(tokens, at, 0)?;
        let name = read_text(tokens, at, 1)?;
        let (layers, next) = read_texts(tokens, at, 2)?;
        Ok(
            (WallCons { id, name, layers }, next),
        )
    }
}

/// What a window construction holds.
pub struct WinConsContent {
    pub id: Seq<char>,
    pub name: Seq<char>,
    pub glass: Seq<char>,
    pub frame: Seq<char>,
    pub frame_fraction: u32,
}

/// The tokens of a window construction, but for a list of texts at its end.
pub open spec fn wincons_tokens(c: WinConsContent) -> Seq<Tok> {
    seq![
        Tok::Txt(c.id),
        Tok::Txt(c.name),
        Tok::Txt(c.glass),
        Tok::Txt(c.frame),
        Tok::Num(c.frame_fraction as u64),
    ]
}

impl Record for WinCons {
    type Content = WinConsContent;

    open spec fn content(&self) -> WinConsContent {
        WinConsContent {
            id: self.id@,
            name: self.name@,
            glass: self.glass@,
            frame: self.frame@,
            frame_fraction: self.frame_fraction,
        }
    }

    open spec fn storable(c: WinConsContent) -> bool {
        true
    }

    open spec fn tokens_of(c: WinConsContent) -> Seq<Tok> {
        wincons_tokens(c)
    }

    open spec fn parse_at(tokens: Seq<Tok>, at: int) -> Result<(WinConsContent, int), MalformedModel> {
        match text_at(tokens, at) {
            Err(e) => Err(e),
            Ok(id) => match text_at(tokens, at + 1) {
                Err(e) => Err(e),
                Ok(name) => match text_at(tokens, at + 2) {
                    Err(e) => Err(e),
                    Ok(glass) => match text_at(tokens, at + 3) {
                        Err(e) => Err(e),
                        Ok(frame) => match u32_at(tokens, at + 4) {
                            Err(e) => Err(e),
                            Ok(frame_fraction) => Ok(
                                (WinConsContent { id, name, glass, frame, frame_fraction }, at + 5),
                            ),
                        },
                    },
                },
            },
        }
    }

    proof fn lemma_parse(c: WinConsContent, tokens: Seq<Tok>, at: int) {
        let fixed = wincons_tokens(c);
        lemma_holds_index(tokens, at, fixed, 0);
        lemma_holds_index(tokens, at, fixed, 1);
        lemma_holds_index(tokens, at, fixed, 2);
        lemma_holds_index(tokens, at, fixed, 3);
        lemma_holds_index(tokens, at, fixed, 4);
    }

    fn write(&self, out: &mut Vec<Token>) {
        put(out, Token::Text(self.id.clone()));
        put(out, Token::Text(self.name.clone()));
        put(out, Token::Text(self.glass.clone()));
        put(out, Token::Text(self.frame.clone()));
        put(out, Token::Number(self.frame_fraction as u64));
        assert(contents(out@) =~= contents(old(out)@) + wincons_tokens(self.content()));
    }

    fn read(tokens: &Vec<Token>, at: usize) -> (r: Result<(Self, usize), MalformedModel>) {
        let id = read_text(tokens, at, 0)?;
        let name = read_text(tokens, at, 1)?;
        let glass = read_text(tokens, at, 2)?;
        let frame = read_text(tokens, at, 3)?;
        let frame_fraction = read_u32(tokens, at, 4)?;
        Ok(
            (WinCons { id, name, glass, frame, frame_fraction }, at + 5),
        )
    }
}

/// What a material holds.
pub struct MaterialContent {
    pub id: Seq<char>,
    pub name: Seq<char>,
    pub thickness: u32,
    pub conductivity: u32,
    pub density: u32,
    pub specific_heat: u32,
}

/// The tokens of a material, but for a list of texts at its end.
pub open spec fn material_tokens(c: MaterialContent) -> Seq<Tok> {
    seq![
        Tok::Txt(c.id),
        Tok::Txt(c.name),
        Tok::Num(c.thickness as u64),
        Tok::Num(c.conductivity as u64),
        Tok::Num(c.density as u64),
        Tok::Num(c.specific_heat as u64),
    ]
}

impl Record for Material {
    type Content = MaterialContent;

    open spec fn content(&self) -> MaterialContent {
        MaterialContent {
            id: self.id@,
            name: self.name@,
            thickness: self.thickness,
            conductivity: self.conductivity,
            density: self.density,
            specific_heat: self.specific_heat,
        }
    }

    open spec fn storable(c: MaterialContent) -> bool {
        true
    }

    open spec fn tokens_of(c: MaterialContent) -> Seq<Tok> {
        material_tokens(c)
    }

    open spec fn parse_at(tokens: Seq<Tok>, at: int) -> Result<(MaterialContent, int), MalformedModel> {
        match text_at(tokens, at) {
            Err(e) => Err(e),
            Ok(id) => match text_at(tokens, at + 1) {
                Err(e) => Err(e),
                Ok(name) => match u32_at(tokens, at + 2) {
                    Err(e) => Err(e),
                    Ok(thickness) => match u32_at(tokens, at + 3) {
                        Err(e) => Err(e),
                        Ok(conductivity) => match u32_at(tokens, at + 4) {
                            Err(e) => Err(e),
                            Ok(density) => match u32_at(tokens, at + 5) {
                                Err(e) => Err(e),
                                Ok(specific_heat) => Ok(
                                    (
                                        MaterialContent {
                                            id,
                                            name,
                                            thickness,
                                            conductivity,
                                            density,
                                            specific_heat,
                                        },
                                        at + 6,
                                    ),
                                ),
                            },
                        },
                    },
                },
            },
        }
    }

    proof fn lemma_parse(c: MaterialContent, tokens: Seq<Tok>, at: int) {
        let fixed = material_tokens(c);
        lemma_holds_index(tokens, at, fixed, 0);
        lemma_holds_index(tokens, at, fixed, 1);
        lemma_holds_index(tokens, at, fixed, 2);
        lemma_holds_index(tokens, at, fixed, 3);
        lemma_holds_index(tokens, at, fixed, 4);
        lemma_holds_index(tokens, at, fixed, 5);
    }

    fn write(&self, out: &mut Vec<Token>) {
        put(out, Token::Text(self.id.clone()));
        put(out, Token::Text(self.name.clone()));
        put(out, Token::Number(self.thickness as u64));
        put(out, Token::Number(self.conductivity as u64));
        put(out, Token::Number(self.density as u64));
        put(out, Token::Number(self.specific_heat as u64));
        assert(contents(out@) =~= contents(old(out)@) + material_tokens(self.content()));
    }

    fn read(tokens: &Vec<Token>, at: usize) -> (r: Result<(Self, usize), MalformedModel>) {
        let id = read_text(tokens, at, 0)?;
        let name = read_text(tokens, at, 1)?;
        let thickness = read_u32(tokens, at, 2)?;
        let conductivity = read_u32(tokens, at, 3)?;
        let density = read_u32(tokens, at, 4)?;
        let specific_heat = read_u32(tokens, at, 5)?;
        Ok(
            (Material { id, name, thickness, conductivity, density, specific_heat }, at + 6),
        )
    }
}

/// What a glass holds.
pub struct GlassContent {
    pub id: Seq<char>,
    pub name: Seq<char>,
    pub u_value: u32,
    pub g: u32,
}

/// The tokens of a glass, but for a list of texts at its end.
pub open spec fn glass_tokens(c: GlassContent) -> Seq<Tok> {
    seq![
        Tok::Txt(c.id),
        Tok::Txt(c.name),
        Tok::Num(c.u_value as u64),
        Tok::Num(c.g as u64),
    ]
}

impl Record for Glass {
    type Content = GlassContent;

    open spec fn content(&self) -> GlassContent {
        GlassContent {
            id: self.id@,
            name: self.name@,
            u_value: self.u_value,
            g: self.g,
        }
    }

    open spec fn storable(c: GlassContent) -> bool {
        true
    }

    open spec fn tokens_of(c: GlassContent) -> Seq<Tok> {
        glass_tokens(c)
    }

    open spec fn parse_at(tokens: Seq<Tok>, at: int) -> Result<(GlassContent, int), MalformedModel> {
        match text_at(tokens, at) {
            Err(e) => Err(e),
            Ok(id) => match text_at(tokens, at + 1) {
                Err(e) => Err(e),
                Ok(name) => match u32_at(tokens, at + 2) {
                    Err(e) => Err(e),
                    Ok(u_value) => match u32_at(tokens, at + 3) {
                        Err(e) => Err(e),
                        Ok(g) => Ok(
                            (GlassContent { id, name, u_value, g }, at + 4),
                        ),
                    },
                },
            },
        }
    }

    proof fn lemma_parse(c: GlassContent, tokens: Seq<Tok>, at: int) {
        let fixed = glass_tokens(c);
        lemma_holds_index(tokens, at, fixed, 0);
        lemma_holds_index(tokens, at, fixed, 1);
        lemma_holds_index(tokens, at, fixed, 2);
        lemma_holds_index(tokens, at, fixed, 3);
    }

    fn write(&self, out: &mut Vec<Token>) {
        put(out, Token::Text(self.id.clone()));
        put(out, Token::Text(self.name.clone()));
        put(out, Token::Number(self.u_value as u64));
        put(out, Token::Number(self.g as u64));
        assert(contents(out@) =~= contents(old(out)@) + glass_tokens(self.content()));
    }

    fn read(tokens: &Vec<Token>, at: usize) -> (r: Result<(Self, usize), MalformedModel>) {
        let id = read_text(tokens, at, 0)?;
        let name = read_text(tokens, at, 1)?;
        let u_value = read_u32(tokens, at, 2)?;
        let g = read_u32(tokens, at, 3)?;
        Ok(
            (Glass { id, name, u_value, g }, at + 4),
        )
    }
}

/// What a frame holds.
pub struct FrameContent {
    pub id: Seq<char>,
    pub name: Seq<char>,
    pub u_value: u32,
    pub absorptivity: u32,
}

/// The tokens of a frame, but for a list of texts at its end.
pub open spec fn frame_tokens(c: FrameContent) -> Seq<Tok> {
    seq![
        Tok::Txt(c.id),
        Tok::Txt(c.name),
        Tok::Num(c.u_value as u64),
        Tok::Num(c.absorptivity as u64),
    ]
}

impl Record for Frame {
    type Content = FrameContent;

    open spec fn content(&self) -> FrameContent {
        FrameContent {
            id: self.id@,
            name: self.name@,
            u_value: self.u_value,
            absorptivity: self.absorptivity,
        }
    }

    open spec fn storable(c: FrameContent) -> bool {
        true
    }

    open spec fn tokens_of(c: FrameContent) -> Seq<Tok> {
        frame_tokens(c)
    }

    open spec fn parse_at(tokens: Seq<Tok>, at: int) -> Result<(FrameContent, int), MalformedModel> {
        match text_at(tokens, at) {
            Err(e) => Err(e),
            Ok(id) => match text_at(tokens, at + 1) {
                Err(e) => Err(e),
                Ok(name) => match u32_at(tokens, at + 2) {
                    Err(e) => Err(e),
                    Ok(u_value) => match u32_at(tokens, at + 3) {
                        Err(e) => Err(e),
                        Ok(absorptivity) => Ok(
                            (FrameContent { id, name, u_value, absorptivity }, at + 4),
                        ),
                    },
                },
            },
        }
    }

    proof fn lemma_parse(c: FrameContent, tokens: Seq<Tok>, at: int) {
        let fixed = frame_tokens(c);
        lemma_holds_index(tokens, at, fixed, 0);
        lemma_holds_index(tokens, at, fixed, 1);
        lemma_holds_index(tokens, at, fixed, 2);
        lemma_holds_index(tokens, at, fixed, 3);
    }

    fn write(&self, out: &mut Vec<Token>) {
        put(out, Token::Text(self.id.clone()));
        put(out, Token::Text(self.name.clone()));
        put(out, Token::Number(self.u_value as u64));
        put(out, Token::Number(self.absorptivity as u64));
        assert(contents(out@) =~= contents(old(out)@) + frame_tokens(self.content()));
    }

    fn read(tokens: &Vec<Token>, at: usize) -> (r: Result<(Self, usize), MalformedModel>) {
        let id = read_text(tokens, at, 0)?;
        let name = read_text(tokens, at, 1)?;
        let u_value = read_u32(tokens, at, 2)?;
        let absorptivity = read_u32(tokens, at, 3)?;
        Ok(
            (Frame { id, name, u_value, absorptivity }, at + 4),
        )
    }
}

/// What the loads of a space holds.
pub struct SpaceLoadsContent {
    pub id: Seq<char>,
    pub name: Seq<char>,
    pub people_sensible: u32,
    pub people_latent: u32,
    pub equipment: u32,
    pub lighting: u32,
}

/// The tokens of the loads of a space, but for a list of texts at its end.
pub open spec fn spaceloads_tokens(c: SpaceLoadsContent) -> Seq<Tok> {
    seq![
        Tok::Txt(c.id),
        Tok::Txt(c.name),
        Tok::Num(c.people_sensible as u64),
        Tok::Num(c.people_latent as u64),
        Tok::Num(c.equipment as u64),
        Tok::Num(c.lighting as u64),
    ]
}

impl Record for SpaceLoads {
    type Content = SpaceLoadsContent;

    open spec fn content(&self) -> SpaceLoadsContent {
        SpaceLoadsContent {
            id: self.id@,
            name: self.name@,
            people_sensible: self.people_sensible,
            people_latent: self.people_latent,
            equipment: self.equipment,
            lighting: self.lighting,
        }
    }

    open spec fn storable(c: SpaceLoadsContent) -> bool {
        true
    }

    open spec fn tokens_of(c: SpaceLoadsContent) -> Seq<Tok> {
        spaceloads_tokens(c)
    }

    open spec fn parse_at(tokens: Seq<Tok>, at: int) -> Result<(SpaceLoadsContent, int), MalformedModel> {
        match text_at(tokens, at) {
            Err(e) => Err(e),
            Ok(id) => match text_at(tokens, at + 1) {
                Err(e) => Err(e),
                Ok(name) => match u32_at(tokens, at + 2) {
                    Err(e) => Err(e),
                    Ok(people_sensible) => match u32_at(tokens, at + 3) {
                        Err(e) => Err(e),
                        Ok(people_latent) => match u32_at(tokens, at + 4) {
                            Err(e) => Err(e),
                            Ok(equipment) => match u32_at(tokens, at + 5) {
                                Err(e) => Err(e),
                                Ok(lighting) => Ok(
                                    (
                                        SpaceLoadsContent {
                                            id,
                                            name,
                                            people_sensible,
                                            people_latent,
                                            equipment,
                                            lighting,
                                        },
                                        at + 6,
                                    ),
                                ),
                            },
                        },
                    },
                },
            },
        }
    }

    proof fn lemma_parse(c: SpaceLoadsContent, tokens: Seq<Tok>, at: int) {
        let fixed = spaceloads_tokens(c);
        lemma_holds_index(tokens, at, fixed, 0);
        lemma_holds_index(tokens, at, fixed, 1);
        lemma_holds_index(tokens, at, fixed, 2);
        lemma_holds_index(tokens, at, fixed, 3);
        lemma_holds_index(tokens, at, fixed, 4);
        lemma_holds_index(tokens, at, fixed, 5);
    }

    fn write(&self, out: &mut Vec<Token>) {
        put(out, Token::Text(self.id.clone()));
        put(out, Token::Text(self.name.clone()));
        put(out, Token::Number(self.people_sensible as u64));
        put(out, Token::Number(self.people_latent as u64));
        put(out, Token::Number(self.equipment as u64));
        put(out, Token::Number(self.lighting as u64));
        assert(contents(out@) =~= contents(old(out)@) + spaceloads_tokens(self.content()));
    }

    fn read(tokens: &Vec<Token>, at: usize) -> (r: Result<(Self, usize), MalformedModel>) {
        let id = read_text(tokens, at, 0)?;
        let name = read_text(tokens, at, 1)?;
        let people_sensible = read_u32(tokens, at, 2)?;
        let people_latent = read_u32(tokens, at, 3)?;
        let equipment = read_u32(tokens, at, 4)?;
        let lighting = read_u32(tokens, at, 5)?;
        Ok(
            (SpaceLoads { id, name, people_sensible, people_latent, equipment, lighting }, at + 6),
        )
    }
}

/// What the system conditions of a space holds.
pub struct SpaceSysConditionsContent {
    pub id: Seq<char>,
    pub name: Seq<char>,
    pub heating_setpoint: i32,
    pub cooling_setpoint: i32,
}

/// The tokens of the system conditions of a space, but for a list of texts at its end.
pub open spec fn spacesysconditions_tokens(c: SpaceSysConditionsContent) -> Seq<Tok> {
    seq![
        Tok::Txt(c.id),
        Tok::Txt(c.name),
        signed_token(c.heating_setpoint),
        signed_token(c.cooling_setpoint),
    ]
}

impl Record for SpaceSysConditions {
    type Content = SpaceSysConditionsContent;

    open spec fn content(&self) -> SpaceSysConditionsContent {
        SpaceSysConditionsContent {
            id: self.id@,
            name: self.name@,
            heating_setpoint: self.heating_setpoint,
            cooling_setpoint: self.cooling_setpoint,
        }
    }

    open spec fn storable(c: SpaceSysConditionsContent) -> bool {
        true
    }

    open spec fn tokens_of(c: SpaceSysConditionsContent) -> Seq<Tok> {
        spacesysconditions_tokens(c)
    }

    open spec fn parse_at(tokens: Seq<Tok>, at: int) -> Result<(SpaceSysConditionsContent, int), MalformedModel> {
        match text_at(tokens, at) {
            Err(e) => Err(e),
            Ok(id) => match text_at(tokens, at + 1) {
                Err(e) => Err(e),
                Ok(name) => match i32_at(tokens, at + 2) {
                    Err(e) => Err(e),
                    Ok(heating_setpoint) => match i32_at(tokens, at + 3) {
                        Err(e) => Err(e),
                        Ok(cooling_setpoint) => Ok(
                            (
                                SpaceSysConditionsContent {
                                    id,
                                    name,
                                    heating_setpoint,
                                    cooling_setpoint,
                                },
                                at + 4,
                            ),
                        ),
                    },
                },
            },
        }
    }

    proof fn lemma_parse(c: SpaceSysConditionsContent, tokens: Seq<Tok>, at: int) {
        let fixed = spacesysconditions_tokens(c);
        lemma_holds_index(tokens, at, fixed, 0);
        lemma_holds_index(tokens, at, fixed, 1);
        lemma_holds_index(tokens, at, fixed, 2);
        lemma_holds_index(tokens, at, fixed, 3);
    }

    fn write(&self, out: &mut Vec<Token>) {
        put(out, Token::Text(self.id.clone()));
        put(out, Token::Text(self.name.clone()));
        put(out, signed(self.heating_setpoint));
        put(out, signed(self.cooling_setpoint));
        assert(contents(out@) =~= contents(old(out)@) + spacesysconditions_tokens(self.content()));
    }

    fn read(tokens: &Vec<Token>, at: usize) -> (r: Result<(Self, usize), MalformedModel>) {
        let id = read_text(tokens, at, 0)?;
        let name = read_text(tokens, at, 1)?;
        let heating_setpoint = read_i32(tokens, at, 2)?;
        let cooling_setpoint = read_i32(tokens, at, 3)?;
        Ok(
            (SpaceSysConditions { id, name, heating_setpoint, cooling_setpoint }, at + 4),
        )
    }
}

} // verus!
