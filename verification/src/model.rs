//! The building model: its entities and their default values.
//!
//! Entities lie in flat collections and refer to one another by identifier.
//! Every real quantity is a fixed-point integer in thousandths of its unit.

use vstd::prelude::*;
use crate::climate::{ClimateZone, Orientation};
use crate::lookup::Keyed;

verus! {

/// How a space is used.
#[derive(Debug, Clone, Copy, PartialEq, Eq, Structural)]
pub enum SpaceKind {
    /// Conditioned and habitable.
    ConditionedHabitable,
    /// Conditioned, not habitable.
    ConditionedNonHabitable,
    /// Not conditioned.
    Unconditioned,
}

/// What lies on the other side of an opaque element.
#[derive(Debug, Clone, Copy, PartialEq, Eq, Structural)]
pub enum BoundaryKind {
    /// The outside air.
    Exterior,
    /// The ground.
    Ground,
    /// Nothing that exchanges heat.
    Adiabatic,
    /// Another space of the building.
    Interior,
}

/// The kinds of shading element.
#[derive(Debug, Clone, Copy, PartialEq, Eq, Structural)]
pub enum ShadeKind {
    /// A horizontal projection above a window.
    Overhang,
    /// A vertical projection beside a window.
    Fin,
    /// An obstacle away from the building.
    Remote,
}

impl SpaceKind {
    /// The place of the kind in the enumeration.
    pub open spec fn index_spec(self) -> int {
        match self {
            SpaceKind::ConditionedHabitable => 0,
            SpaceKind::ConditionedNonHabitable => 1,
            SpaceKind::Unconditioned => 2,
        }
    }

    /// The kind at a place of the enumeration.
    pub open spec fn at(i: int) -> Option<SpaceKind> {
        if i == 0 {
            Some(SpaceKind::ConditionedHabitable)
        } else if i == 1 {
            Some(SpaceKind::ConditionedNonHabitable)
        } else if i == 2 {
            Some(SpaceKind::Unconditioned)
        } else {
            None
        }
    }

    /// The place of the value in the enumeration.
    pub fn index(self) -> (r: usize)
        ensures
            r == self.index_spec(),
            r < 3,
            Self::at(r as int) == Some(self),
    {
        match self {
            SpaceKind::ConditionedHabitable => 0,
            SpaceKind::ConditionedNonHabitable => 1,
            SpaceKind::Unconditioned => 2,
        }
    }

    /// The value at a place of the enumeration, if there is one.
    pub fn from_index(i: usize) -> (r: Option<SpaceKind>)
        ensures
            r == Self::at(i as int),
            r is Some <==> i < 3,
    {
        if i == 0 {
            Some(SpaceKind::ConditionedHabitable)
        } else if i == 1 {
            Some(SpaceKind::ConditionedNonHabitable)
        } else if i == 2 {
            Some(SpaceKind::Unconditioned)
        } else {
            None
        }
    }
}

impl BoundaryKind {
    /// The place of the kind in the enumeration.
    pub open spec fn index_spec(self) -> int {
        match self {
            BoundaryKind::Exterior => 0,
            BoundaryKind::Ground => 1,
            BoundaryKind::Adiabatic => 2,
            BoundaryKind::Interior => 3,
        }
    }

    /// The kind at a place of the enumeration.
    pub open spec fn at(i: int) -> Option<BoundaryKind> {
        if i == 0 {
            Some(BoundaryKind::Exterior)
        } else if i == 1 {
            Some(BoundaryKind::Ground)
        } else if i == 2 {
            Some(BoundaryKind::Adiabatic)
        } else if i == 3 {
            Some(BoundaryKind::Interior)
        } else {
            None
        }
    }

    /// The place of the value in the enumeration.
    pub fn index(self) -> (r: usize)
        ensures
            r == self.index_spec(),
            r < 4,
            Self::at(r as int) == Some(self),
    {
        match self {
            BoundaryKind::Exterior => 0,
            BoundaryKind::Ground => 1,
            BoundaryKind::Adiabatic => 2,
            BoundaryKind::Interior => 3,
        }
    }

    /// The value at a place of the enumeration, if there is one.
    pub fn from_index(i: usize) -> (r: Option<BoundaryKind>)
        ensures
            r == Self::at(i as int),
            r is Some <==> i < 4,
    {
        if i == 0 {
            Some(BoundaryKind::Exterior)
        } else if i == 1 {
            Some(BoundaryKind::Ground)
        } else if i == 2 {
            Some(BoundaryKind::Adiabatic)
        } else if i == 3 {
            Some(BoundaryKind::Interior)
        } else {
            None
        }
    }
}

impl ShadeKind {
    /// The place of the kind in the enumeration.
    pub open spec fn index_spec(self) -> int {
        match self {
            ShadeKind::Overhang => 0,
            ShadeKind::Fin => 1,
            ShadeKind::Remote => 2,
        }
    }

    /// The kind at a place of the enumeration.
    pub open spec fn at(i: int) -> Option<ShadeKind> {
        if i == 0 {
            Some(ShadeKind::Overhang)
        } else if i == 1 {
            Some(ShadeKind::Fin)
        } else if i == 2 {
            Some(ShadeKind::Remote)
        } else {
            None
        }
    }

    /// The place of the value in the enumeration.
    pub fn index(self) -> (r: usize)
        ensures
            r == self.index_spec(),
            r < 3,
            Self::at(r as int) == Some(self),
    {
        match self {
            ShadeKind::Overhang => 0,
            ShadeKind::Fin => 1,
            ShadeKind::Remote => 2,
        }
    }

    /// The value at a place of the enumeration, if there is one.
    pub fn from_index(i: usize) -> (r: Option<ShadeKind>)
        ensures
            r == Self::at(i as int),
            r is Some <==> i < 3,
    {
        if i == 0 {
            Some(ShadeKind::Overhang)
        } else if i == 1 {
            Some(ShadeKind::Fin)
        } else if i == 2 {
            Some(ShadeKind::Remote)
        } else {
            None
        }
    }
}

/// Data of the building as a whole.
#[derive(Debug, Clone, PartialEq, Eq)]
pub struct Meta {
    /// Name of the building.
    pub name: String,
    /// Code of its climate zone.
    pub climate: String,
    /// A reference area fixed by the regulation for this building, in
    /// thousandths of a m². It is kept for the caller; `a_ref` does not read it.
    pub area_ref_override: Option<u64>,
    /// Whether the building is new.
    pub is_new_building: bool,
    /// Whether the building is a dwelling.
    pub is_dwelling: bool,
}

impl Meta {
    /// The climate zone is one of the enumeration.
    pub open spec fn valid(&self) -> bool {
        ClimateZone::of_code(self.climate@) is Some
    }
}

impl Default for Meta {
    /// A new dwelling without a name, in zone D3.
    fn default() -> (r: Self)
        ensures
            r.valid(),
            r.name@ == Seq::<char>::empty(),
            r.climate@ == "D3"@,
            r.area_ref_override == None::<u64>,
            r.is_new_building,
            r.is_dwelling,
    {
        let climate = "D3".to_owned();
        proof {
            ClimateZone::lemma_code_names_a_zone(ClimateZone::D3);
        }
        Meta { name: String::new(), climate, area_ref_override: None, is_new_building: true, is_dwelling: true }
    }
}

/// Default metadata.
pub fn new_meta() -> (r: Meta)
    ensures
        r.valid(),
        r.name@ == Seq::<char>::empty(),
        r.climate@ == "D3"@,
        r.area_ref_override == None::<u64>,
        r.is_new_building,
        r.is_dwelling,
{
    Meta::default()
}

/// A thermal zone.
#[derive(Debug, Clone, PartialEq, Eq)]
pub struct Space {
    /// Identifier, unique among the spaces.
    pub id: String,
    /// Name for display.
    pub name: String,
    /// Floor area, in thousandths of a m².
    pub area: u32,
    /// Height, in thousandths of a m.
    pub height: u32,
    /// How the space is used; `None` while it has not been classified.
    pub kind: Option<SpaceKind>,
    /// How many identical zones the space stands for.
    pub multiplier: u32,
    /// Identifier of its internal loads, if any.
    pub loads: Option<String>,
    /// Identifier of its system conditions, if any.
    pub sys_settings: Option<String>,
}

impl Keyed for Space {
    open spec fn ident(&self) -> String {
        self.id
    }

    fn id(&self) -> (r: &String) {
        &self.id
    }
}

impl Space {
    /// What holds of a well-formed entity of this kind, taken by itself.
    pub open spec fn valid(&self) -> bool {
        self.area > 0 && self.height > 0 && self.multiplier >= 1
    }

    /// Whether the entity is as `default` makes it: every text empty, every other
    /// field with its default value.
    pub open spec fn is_default(&self) -> bool {
        &&& self.id@ == Seq::<char>::empty()
        &&& self.name@ == Seq::<char>::empty()
        &&& self.area == 1_000
        &&& self.height == 2_700
        &&& self.kind == Some(SpaceKind::ConditionedHabitable)
        &&& self.multiplier == 1
        &&& self.loads == None::<String>
        &&& self.sys_settings == None::<String>
    }
}

impl Default for Space {
    /// A space of 1 m² and 2.7 m of height, conditioned and habitable.
    fn default() -> (r: Self)
        ensures
            r.valid(),
            r.is_default(),
    {
        Space {
            id: String::new(),
            name: String::new(),
            area: 1_000,
            height: 2_700,
            kind: Some(SpaceKind::ConditionedHabitable),
            multiplier: 1,
            loads: None,
            sys_settings: None,
        }
    }
}

/// A space of 1 m² and 2.7 m of height, conditioned and habitable.
pub fn new_space() -> (r: Space)
    ensures
        r.valid(),
        r.is_default(),
{
    Space::default()
}

/// An opaque element of the envelope.
#[derive(Debug, Clone, PartialEq, Eq)]
pub struct Wall {
    /// Identifier, unique among the walls.
    pub id: String,
    /// Name for display.
    pub name: String,
    /// Opaque area, in thousandths of a m².
    pub area: u32,
    /// The orientation of its outer face.
    pub orientation: Orientation,
    /// Angle between its outer normal and the vertical, in thousandths of a degree.
    pub tilt: u32,
    /// What lies on its other side.
    pub bounds: BoundaryKind,
    /// Identifier of its construction.
    pub cons: String,
    /// Identifier of the space that it belongs to.
    pub space: String,
    /// Identifier of the space on its other side, for an interior wall.
    pub next_to: Option<String>,
}

impl Keyed for Wall {
    open spec fn ident(&self) -> String {
        self.id
    }

    fn id(&self) -> (r: &String) {
        &self.id
    }
}

impl Wall {
    /// What holds of a well-formed entity of this kind, taken by itself.
    pub open spec fn valid(&self) -> bool {
        self.area > 0 && self.tilt <= 180_000
    }

    /// Whether the entity is as `default` makes it: every text empty, every other
    /// field with its default value.
    pub open spec fn is_default(&self) -> bool {
        &&& self.id@ == Seq::<char>::empty()
        &&& self.name@ == Seq::<char>::empty()
        &&& self.area == 1_000
        &&& self.orientation == Orientation::North
        &&& self.tilt == 90_000
        &&& self.bounds == BoundaryKind::Exterior
        &&& self.cons@ == Seq::<char>::empty()
        &&& self.space@ == Seq::<char>::empty()
        &&& self.next_to == None::<String>
    }
}

impl Default for Wall {
    /// A vertical wall of 1 m² that faces north and is in contact with the outside air.
    fn default() -> (r: Self)
        ensures
            r.valid(),
            r.is_default(),
    {
        Wall {
            id: String::new(),
            name: String::new(),
            area: 1_000,
            orientation: Orientation::North,
            tilt: 90_000,
            bounds: BoundaryKind::Exterior,
            cons: String::new(),
            space: String::new(),
            next_to: None,
        }
    }
}

/// A vertical wall of 1 m² that faces north and is in contact with the outside air.
pub fn new_wall() -> (r: Wall)
    ensures
        r.valid(),
        r.is_default(),
{
    Wall::default()
}

/// A glazed element, set in a wall.
#[derive(Debug, Clone, PartialEq, Eq)]
pub struct Window {
    /// Identifier, unique among the windows.
    pub id: String,
    /// Name for display.
    pub name: String,
    /// Area, in thousandths of a m².
    pub area: u32,
    /// The orientation that it faces.
    pub orientation: Orientation,
    /// Identifier of its construction.
    pub cons: String,
    /// Identifier of the wall that holds it.
    pub wall: String,
    /// Identifiers of the shading devices that protect it.
    pub shades: Vec<String>,
    /// Reduction factor for remote obstructions, in thousandths: 1000 is unobstructed.
    pub fshobst: u32,
}

impl Keyed for Window {
    open spec fn ident(&self) -> String {
        self.id
    }

    fn id(&self) -> (r: &String) {
        &self.id
    }
}

impl Window {
    /// What holds of a well-formed entity of this kind, taken by itself.
    pub open spec fn valid(&self) -> bool {
        self.area > 0 && self.fshobst <= 1_000
    }

    /// Whether the entity is as `default` makes it: every text empty, every other
    /// field with its default value.
    pub open spec fn is_default(&self) -> bool {
        &&& self.id@ == Seq::<char>::empty()
        &&& self.name@ == Seq::<char>::empty()
        &&& self.area == 1_000
        &&& self.orientation == Orientation::North
        &&& self.cons@ == Seq::<char>::empty()
        &&& self.wall@ == Seq::<char>::empty()
        &&& self.shades@ == Seq::<String>::empty()
        &&& self.fshobst == 1_000
    }
}

impl Default for Window {
    /// A window of 1 m² that faces north, without shades or remote obstructions.
    fn default() -> (r: Self)
        ensures
            r.valid(),
            r.is_default(),
    {
        Window {
            id: String::new(),
            name: String::new(),
            area: 1_000,
            orientation: Orientation::North,
            cons: String::new(),
            wall: String::new(),
            shades: Vec::new(),
            fshobst: 1_000,
        }
    }
}

/// A window of 1 m² that faces north, without shades or remote obstructions.
pub fn new_window() -> (r: Window)
    ensures
        r.valid(),
        r.is_default(),
{
    Window::default()
}

/// A shading element: an overhang or a fin beside a window, or a remote obstacle.
#[derive(Debug, Clone, PartialEq, Eq)]
pub struct Shade {
    /// Identifier, unique among the shades.
    pub id: String,
    /// Name for display.
    pub name: String,
    /// What kind of element it is.
    pub kind: ShadeKind,
    /// The orientation that a remote obstacle stands in.
    pub orientation: Orientation,
    /// How far it projects, in thousandths of a m.
    pub depth: u32,
    /// How far it stands from the glazing, in thousandths of a m.
    pub distance: u32,
    /// Its reduction factor in thousandths, where it is given and not derived.
    pub factor: Option<u32>,
}

impl Keyed for Shade {
    open spec fn ident(&self) -> String {
        self.id
    }

    fn id(&self) -> (r: &String) {
        &self.id
    }
}

impl Shade {
    /// What holds of a well-formed entity of this kind, taken by itself.
    pub open spec fn valid(&self) -> bool {
        self.factor matches Some(f) ==> f <= 1_000
    }

    /// Whether the entity is as `default` makes it: every text empty, every other
    /// field with its default value.
    pub open spec fn is_default(&self) -> bool {
        &&& self.id@ == Seq::<char>::empty()
        &&& self.name@ == Seq::<char>::empty()
        &&& self.kind == ShadeKind::Remote
        &&& self.orientation == Orientation::North
        &&& self.depth == 0
        &&& self.distance == 0
        &&& self.factor == None::<u32>
    }
}

impl Default for Shade {
    /// A remote obstacle to the north that casts no shade.
    fn default() -> (r: Self)
        ensures
            r.valid(),
            r.is_default(),
    {
        Shade {
            id: String::new(),
            name: String::new(),
            kind: ShadeKind::Remote,
            orientation: Orientation::North,
            depth: 0,
            distance: 0,
            factor: None,
        }
    }
}

/// A remote obstacle to the north that casts no shade.
pub fn new_shade() -> (r: Shade)
    ensures
        r.valid(),
        r.is_default(),
{
    Shade::default()
}

/// A linear thermal bridge.
#[derive(Debug, Clone, PartialEq, Eq)]
pub struct ThermalBridge {
    /// Identifier, unique among the thermal bridges.
    pub id: String,
    /// Name for display.
    pub name: String,
    /// Length, in thousandths of a m.
    pub length: u32,
    /// Linear transmittance, in thousandths of a W/mK.
    pub psi: u32,
}

impl Keyed for ThermalBridge {
    open spec fn ident(&self) -> String {
        self.id
    }

    fn id(&self) -> (r: &String) {
        &self.id
    }
}

impl ThermalBridge {
    /// What holds of a well-formed entity of this kind, taken by itself.
    pub open spec fn valid(&self) -> bool {
        self.length > 0
    }

    /// Whether the entity is as `default` makes it: every text empty, every other
    /// field with its default value.
    pub open spec fn is_default(&self) -> bool {
        &&& self.id@ == Seq::<char>::empty()
        &&& self.name@ == Seq::<char>::empty()
        &&& self.length == 1_000
        &&& self.psi == 0
    }
}

impl Default for ThermalBridge {
    /// A thermal bridge of 1 m without losses.
    fn default() -> (r: Self)
        ensures
            r.valid(),
            r.is_default(),
    {
        ThermalBridge {
            id: String::new(),
            name: String::new(),
            length: 1_000,
            psi: 0,
        }
    }
}

/// A thermal bridge of 1 m without losses.
pub fn new_thermalbridge() -> (r: ThermalBridge)
    ensures
        r.valid(),
        r.is_default(),
{
    ThermalBridge::default()
}

/// The construction of an opaque element: its layers, from the outside in.
#[derive(Debug, Clone, PartialEq, Eq)]
pub struct WallCons {
    /// Identifier, unique among the wall constructions.
    pub id: String,
    /// Name for display.
    pub name: String,
    /// Identifiers of the materials of its layers, in order.
    pub layers: Vec<String>,
}

impl Keyed for WallCons {
    open spec fn ident(&self) -> String {
        self.id
    }

    fn id(&self) -> (r: &String) {
        &self.id
    }
}

impl WallCons {
    /// What holds of a well-formed entity of this kind, taken by itself.
    pub open spec fn valid(&self) -> bool {
        true
    }

    /// Whether the entity is as `default` makes it: every text empty, every other
    /// field with its default value.
    pub open spec fn is_default(&self) -> bool {
        &&& self.id@ == Seq::<char>::empty()
        &&& self.name@ == Seq::<char>::empty()
        &&& self.layers@ == Seq::<String>::empty()
    }
}

impl Default for WallCons {
    /// A construction without layers.
    fn default() -> (r: Self)
        ensures
            r.valid(),
            r.is_default(),
    {
        WallCons {
            id: String::new(),
            name: String::new(),
            layers: Vec::new(),
        }
    }
}

/// A construction without layers.
pub fn new_wallcons() -> (r: WallCons)
    ensures
        r.valid(),
        r.is_default(),
{
    WallCons::default()
}

/// The construction of a window: a glass in a frame.
#[derive(Debug, Clone, PartialEq, Eq)]
pub struct WinCons {
    /// Identifier, unique among the window constructions.
    pub id: String,
    /// Name for display.
    pub name: String,
    /// Identifier of its glass.
    pub glass: String,
    /// Identifier of its frame.
    pub frame: String,
    /// Share of the area that the frame takes, in thousandths.
    pub frame_fraction: u32,
}

impl Keyed for WinCons {
    open spec fn ident(&self) -> String {
        self.id
    }

    fn id(&self) -> (r: &String) {
        &self.id
    }
}

impl WinCons {
    /// What holds of a well-formed entity of this kind, taken by itself.
    pub open spec fn valid(&self) -> bool {
        self.frame_fraction <= 1_000
    }

    /// Whether the entity is as `default` makes it: every text empty, every other
    /// field with its default value.
    pub open spec fn is_default(&self) -> bool {
        &&& self.id@ == Seq::<char>::empty()
        &&& self.name@ == Seq::<char>::empty()
        &&& self.glass@ == Seq::<char>::empty()
        &&& self.frame@ == Seq::<char>::empty()
        &&& self.frame_fraction == 200
    }
}

impl Default for WinCons {
    /// A construction whose frame takes a fifth of the area.
    fn default() -> (r: Self)
        ensures
            r.valid(),
            r.is_default(),
    {
        WinCons {
            id: String::new(),
            name: String::new(),
            glass: String::new(),
            frame: String::new(),
            frame_fraction: 200,
        }
    }
}

/// A construction whose frame takes a fifth of the area.
pub fn new_wincons() -> (r: WinCons)
    ensures
        r.valid(),
        r.is_default(),
{
    WinCons::default()
}

/// A layer of material.
#[derive(Debug, Clone, PartialEq, Eq)]
pub struct Material {
    /// Identifier, unique among the materials.
    pub id: String,
    /// Name for display.
    pub name: String,
    /// Thickness, in thousandths of a m.
    pub thickness: u32,
    /// Thermal conductivity, in thousandths of a W/mK.
    pub conductivity: u32,
    /// Density, in thousandths of a kg/m³.
    pub density: u32,
    /// Specific heat, in thousandths of a J/kgK.
    pub specific_heat: u32,
}

impl Keyed for Material {
    open spec fn ident(&self) -> String {
        self.id
    }

    fn id(&self) -> (r: &String) {
        &self.id
    }
}

impl Material {
    /// What holds of a well-formed entity of this kind, taken by itself.
    pub open spec fn valid(&self) -> bool {
        self.thickness > 0 && self.conductivity > 0
    }

    /// Whether the entity is as `default` makes it: every text empty, every other
    /// field with its default value.
    pub open spec fn is_default(&self) -> bool {
        &&& self.id@ == Seq::<char>::empty()
        &&& self.name@ == Seq::<char>::empty()
        &&& self.thickness == 100
        &&& self.conductivity == 1_000
        &&& self.density == 1_000_000
        &&& self.specific_heat == 1_000_000
    }
}

impl Default for Material {
    /// A layer of 0.1 m with a conductivity of 1 W/mK.
    fn default() -> (r: Self)
        ensures
            r.valid(),
            r.is_default(),
    {
        Material {
            id: String::new(),
            name: String::new(),
            thickness: 100,
            conductivity: 1_000,
            density: 1_000_000,
            specific_heat: 1_000_000,
        }
    }
}

/// A layer of 0.1 m with a conductivity of 1 W/mK.
pub fn new_material() -> (r: Material)
    ensures
        r.valid(),
        r.is_default(),
{
    Material::default()
}

/// A glazing.
#[derive(Debug, Clone, PartialEq, Eq)]
pub struct Glass {
    /// Identifier, unique among the glasses.
    pub id: String,
    /// Name for display.
    pub name: String,
    /// Transmittance, in thousandths of a W/m²K.
    pub u_value: u32,
    /// Solar factor, in thousandths.
    pub g: u32,
}

impl Keyed for Glass {
    open spec fn ident(&self) -> String {
        self.id
    }

    fn id(&self) -> (r: &String) {
        &self.id
    }
}

impl Glass {
    /// What holds of a well-formed entity of this kind, taken by itself.
    pub open spec fn valid(&self) -> bool {
        self.g <= 1_000
    }

    /// Whether the entity is as `default` makes it: every text empty, every other
    /// field with its default value.
    pub open spec fn is_default(&self) -> bool {
        &&& self.id@ == Seq::<char>::empty()
        &&& self.name@ == Seq::<char>::empty()
        &&& self.u_value == 5_700
        &&& self.g == 850
    }
}

impl Default for Glass {
    /// A single glazing.
    fn default() -> (r: Self)
        ensures
            r.valid(),
            r.is_default(),
    {
        Glass {
            id: String::new(),
            name: String::new(),
            u_value: 5_700,
            g: 850,
        }
    }
}

/// A single glazing.
pub fn new_glass() -> (r: Glass)
    ensures
        r.valid(),
        r.is_default(),
{
    Glass::default()
}

/// A window frame.
#[derive(Debug, Clone, PartialEq, Eq)]
pub struct Frame {
    /// Identifier, unique among the frames.
    pub id: String,
    /// Name for display.
    pub name: String,
    /// Transmittance, in thousandths of a W/m²K.
    pub u_value: u32,
    /// Absorptivity, in thousandths.
    pub absorptivity: u32,
}

impl Keyed for Frame {
    open spec fn ident(&self) -> String {
        self.id
    }

    fn id(&self) -> (r: &String) {
        &self.id
    }
}

impl Frame {
    /// What holds of a well-formed entity of this kind, taken by itself.
    pub open spec fn valid(&self) -> bool {
        self.absorptivity <= 1_000
    }

    /// Whether the entity is as `default` makes it: every text empty, every other
    /// field with its default value.
    pub open spec fn is_default(&self) -> bool {
        &&& self.id@ == Seq::<char>::empty()
        &&& self.name@ == Seq::<char>::empty()
        &&& self.u_value == 5_700
        &&& self.absorptivity == 600
    }
}

impl Default for Frame {
    /// A metal frame without thermal break.
    fn default() -> (r: Self)
        ensures
            r.valid(),
            r.is_default(),
    {
        Frame {
            id: String::new(),
            name: String::new(),
            u_value: 5_700,
            absorptivity: 600,
        }
    }
}

/// A metal frame without thermal break.
pub fn new_frame() -> (r: Frame)
    ensures
        r.valid(),
        r.is_default(),
{
    Frame::default()
}

/// The internal loads of a space. No indicator of this crate reads them.
#[derive(Debug, Clone, PartialEq, Eq)]
pub struct SpaceLoads {
    /// Identifier, unique among the loads.
    pub id: String,
    /// Name for display.
    pub name: String,
    /// Sensible load of the occupants, in thousandths of a W/m².
    pub people_sensible: u32,
    /// Latent load of the occupants, in thousandths of a W/m².
    pub people_latent: u32,
    /// Load of the equipment, in thousandths of a W/m².
    pub equipment: u32,
    /// Load of the lighting, in thousandths of a W/m².
    pub lighting: u32,
}

impl Keyed for SpaceLoads {
    open spec fn ident(&self) -> String {
        self.id
    }

    fn id(&self) -> (r: &String) {
        &self.id
    }
}

impl SpaceLoads {
    /// What holds of a well-formed entity of this kind, taken by itself.
    pub open spec fn valid(&self) -> bool {
        true
    }

    /// Whether the entity is as `default` makes it: every text empty, every other
    /// field with its default value.
    pub open spec fn is_default(&self) -> bool {
        &&& self.id@ == Seq::<char>::empty()
        &&& self.name@ == Seq::<char>::empty()
        &&& self.people_sensible == 0
        &&& self.people_latent == 0
        &&& self.equipment == 0
        &&& self.lighting == 0
    }
}

impl Default for SpaceLoads {
    /// Loads of zero.
    fn default() -> (r: Self)
        ensures
            r.valid(),
            r.is_default(),
    {
        SpaceLoads {
            id: String::new(),
            name: String::new(),
            people_sensible: 0,
            people_latent: 0,
            equipment: 0,
            lighting: 0,
        }
    }
}

/// Loads of zero.
pub fn new_load() -> (r: SpaceLoads)
    ensures
        r.valid(),
        r.is_default(),
{
    SpaceLoads::default()
}

/// The setpoints of the systems of a space. No indicator of this crate reads them.
#[derive(Debug, Clone, PartialEq, Eq)]
pub struct SpaceSysConditions {
    /// Identifier, unique among the system conditions.
    pub id: String,
    /// Name for display.
    pub name: String,
    /// Heating setpoint, in thousandths of a °C.
    pub heating_setpoint: i32,
    /// Cooling setpoint, in thousandths of a °C.
    pub cooling_setpoint: i32,
}

impl Keyed for SpaceSysConditions {
    open spec fn ident(&self) -> String {
        self.id
    }

    fn id(&self) -> (r: &String) {
        &self.id
    }
}

impl SpaceSysConditions {
    /// What holds of a well-formed entity of this kind, taken by itself.
    pub open spec fn valid(&self) -> bool {
        self.heating_setpoint <= self.cooling_setpoint
    }

    /// Whether the entity is as `default` makes it: every text empty, every other
    /// field with its default value.
    pub open spec fn is_default(&self) -> bool {
        &&& self.id@ == Seq::<char>::empty()
        &&& self.name@ == Seq::<char>::empty()
        &&& self.heating_setpoint == 20_000
        &&& self.cooling_setpoint == 25_000
    }
}

impl Default for SpaceSysConditions {
    /// Setpoints of 20 °C for heating and 25 °C for cooling.
    fn default() -> (r: Self)
        ensures
            r.valid(),
            r.is_default(),
    {
        SpaceSysConditions {
            id: String::new(),
            name: String::new(),
            heating_setpoint: 20_000,
            cooling_setpoint: 25_000,
        }
    }
}

/// Setpoints of 20 °C for heating and 25 °C for cooling.
pub fn new_sys_setting() -> (r: SpaceSysConditions)
    ensures
        r.valid(),
        r.is_default(),
{
    SpaceSysConditions::default()
}

/// A building.
#[derive(Debug, Clone, PartialEq, Eq)]
pub struct Model {
    pub meta: Meta,
    pub spaces: Vec<Space>,
    pub walls: Vec<Wall>,
    pub windows: Vec<Window>,
    pub shades: Vec<Shade>,
    pub thermal_bridges: Vec<ThermalBridge>,
    pub wallcons: Vec<WallCons>,
    pub wincons: Vec<WinCons>,
    pub materials: Vec<Material>,
    pub glasses: Vec<Glass>,
    pub frames: Vec<Frame>,
    pub loads: Vec<SpaceLoads>,
    pub sys_settings: Vec<SpaceSysConditions>,
}

impl Model {
    /// A model without entities.
    pub open spec fn is_empty(&self) -> bool {
        &&& self.spaces@.len() == 0
        &&& self.walls@.len() == 0
        &&& self.windows@.len() == 0
        &&& self.shades@.len() == 0
        &&& self.thermal_bridges@.len() == 0
        &&& self.wallcons@.len() == 0
        &&& self.wincons@.len() == 0
        &&& self.materials@.len() == 0
        &&& self.glasses@.len() == 0
        &&& self.frames@.len() == 0
        &&& self.loads@.len() == 0
        &&& self.sys_settings@.len() == 0
    }

    /// An empty building with the given metadata.
    pub fn new(meta: Meta) -> (r: Model)
        ensures
            r.meta == meta,
            r.is_empty(),
    {
        Model {
            meta,
            spaces: Vec::new(),
            walls: Vec::new(),
            windows: Vec::new(),
            shades: Vec::new(),
            thermal_bridges: Vec::new(),
            wallcons: Vec::new(),
            wincons: Vec::new(),
            materials: Vec::new(),
            glasses: Vec::new(),
            frames: Vec::new(),
            loads: Vec::new(),
            sys_settings: Vec::new(),
        }
    }
}

} // verus!
