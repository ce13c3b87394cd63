//! The validator: what is inconsistent in a model.
//!
//! Validation never fails and changes nothing. It lists its findings as
//! warnings, grouped by kind in the order of `WarningKind`, and within a kind
//! in the order in which the model declares its entities: spaces, walls,
//! windows, shades, thermal bridges, wall constructions, window constructions,
//! materials, glasses, frames, loads and system conditions. Every check runs
//! over the whole model, whatever the others find.

use vstd::prelude::*;
use crate::climate::ClimateZone;
use crate::lookup::{find, known, position, Keyed};
use crate::model::{
    Frame, Glass, Material, Model, Shade, Space, SpaceLoads, SpaceSysConditions, ThermalBridge,
    Wall, WallCons, WinCons, Window,
};

verus! {

/// The kinds of finding, in the order in which they are listed.
#[derive(Debug, Clone, Copy, PartialEq, Eq, Structural)]
pub enum WarningKind {
    /// The climate zone of the building is not one of the enumeration. The
    /// warning carries the code.
    UnknownClimateZone,
    /// Two entities of one category carry the same identifier. Each of them
    /// gives a warning.
    DuplicateIdentifier,
    /// A space has no usage kind.
    SpaceWithoutKind,
    /// A space that no wall belongs to.
    UnreachableSpace,
    /// A space, a wall or a window has an area of zero.
    ZeroArea,
    /// A thermal bridge has a length of zero.
    NonPositiveBridgeLength,
    /// A wall or a window names a construction that the model does not hold.
    DanglingConstruction,
    /// An entity names another one, not its construction, that the model does
    /// not hold.
    DanglingReference,
    /// A window is larger than the wall that holds it.
    WindowExceedsWall,
    /// A number lies outside the range that its meaning allows.
    OutOfRange,
    /// An obstruction survey names a window that the model does not hold. The
    /// warning carries the identifier that the survey gives.
    UnknownSurveyWindow,
}

/// A finding: its kind and the identifier of the entity concerned.
#[derive(Debug, Clone, PartialEq, Eq)]
pub struct Warning {
    pub kind: WarningKind,
    pub id: String,
}

impl WarningKind {
    /// The kind at a position of the listing order.
    pub open spec fn at(i: int) -> Option<WarningKind> {
        if i == 0 {
            Some(WarningKind::UnknownClimateZone)
        } else if i == 1 {
            Some(WarningKind::DuplicateIdentifier)
        } else if i == 2 {
            Some(WarningKind::SpaceWithoutKind)
        } else if i == 3 {
            Some(WarningKind::UnreachableSpace)
        } else if i == 4 {
            Some(WarningKind::ZeroArea)
        } else if i == 5 {
            Some(WarningKind::NonPositiveBridgeLength)
        } else if i == 6 {
            Some(WarningKind::DanglingConstruction)
        } else if i == 7 {
            Some(WarningKind::DanglingReference)
        } else if i == 8 {
            Some(WarningKind::WindowExceedsWall)
        } else if i == 9 {
            Some(WarningKind::OutOfRange)
        } else if i == 10 {
            Some(WarningKind::UnknownSurveyWindow)
        } else {
            None
        }
    }

    /// How many kinds there are.
    pub const COUNT: usize = 11;

    /// The value at a place of the enumeration, if there is one.
    pub fn from_index(i: usize) -> (r: Option<WarningKind>)
        ensures
            r == Self::at(i as int),
            r is Some <==> i < 11,
    {
        if i == 0 {
            Some(WarningKind::UnknownClimateZone)
        } else if i == 1 {
            Some(WarningKind::DuplicateIdentifier)
        } else if i == 2 {
            Some(WarningKind::SpaceWithoutKind)
        } else if i == 3 {
            Some(WarningKind::UnreachableSpace)
        } else if i == 4 {
            Some(WarningKind::ZeroArea)
        } else if i == 5 {
            Some(WarningKind::NonPositiveBridgeLength)
        } else if i == 6 {
            Some(WarningKind::DanglingConstruction)
        } else if i == 7 {
            Some(WarningKind::DanglingReference)
        } else if i == 8 {
            Some(WarningKind::WindowExceedsWall)
        } else if i == 9 {
            Some(WarningKind::OutOfRange)
        } else if i == 10 {
            Some(WarningKind::UnknownSurveyWindow)
        } else {
            None
        }
    }
}

/// An entity that the validator inspects.
pub trait Inspect: Keyed {
    /// Whether the entity, as it stands in the model, gives a finding of the
    /// kind.
    spec fn flagged(&self, model: &Model, kind: WarningKind) -> bool;

    fn is_flagged(&self, model: &Model, kind: WarningKind) -> (r: bool)
        ensures
            r == self.flagged(model, kind),
    ;
}

/// Whether every identifier names an entity.
pub open spec fn all_known<T: Keyed>(items: Seq<T>, ids: Seq<String>) -> bool {
    forall|k: int| 0 <= k < ids.len() ==> known(items, #[trigger] ids[k]@)
}

/// Whether a wall bounds the space with this identifier: it belongs to the
/// space, or the space lies on its other side.
pub open spec fn bounds_space(wall: Wall, space: Seq<char>) -> bool {
    wall.space@ == space || (wall.next_to matches Some(other) && other@ == space)
}

/// Whether some wall bounds the space with this identifier.
pub open spec fn has_wall(walls: Seq<Wall>, space: Seq<char>) -> bool {
    exists|j: int| 0 <= j < walls.len() && bounds_space(#[trigger] walls[j], space)
}

/// How many of the first `n` entities carry the identifier.
pub open spec fn occurrences<T: Keyed>(items: Seq<T>, id: Seq<char>, n: int) -> nat
    decreases n,
{
    if n <= 0 {
        0
    } else if items[n - 1].ident()@ == id {
        occurrences(items, id, n - 1) + 1
    } else {
        occurrences(items, id, n - 1)
    }
}

/// Whether more than one entity carries the identifier.
pub open spec fn repeated<T: Keyed>(items: Seq<T>, id: Seq<char>) -> bool {
    occurrences(items, id, items.len() as int) > 1
}

/// Whether more than one entity carries the identifier.
pub fn is_repeated<T: Keyed>(items: &Vec<T>, id: &String) -> (r: bool)
    ensures
        r == repeated(items@, id@),
{
    let mut count: usize = 0;
    let mut i: usize = 0;
    while i < items.len()
        invariant
            i <= items.len(),
            count == occurrences(items@, id@, i as int),
            count <= i,
        decreases items.len() - i,
    {
        if *items[i].id() == *id {
            count = count + 1;
        }
        i = i + 1;
    }
    count > 1
}

/// Whether an optional reference, where it is given, names an entity.
pub open spec fn known_if_given<T: Keyed>(items: Seq<T>, id: Option<String>) -> bool {
    match id {
        Some(s) => known(items, s@),
        None => true,
    }
}

/// Whether every identifier names an entity.
pub fn every_known<T: Keyed>(items: &Vec<T>, ids: &Vec<String>) -> (r: bool)
    ensures
        r == all_known(items@, ids@),
{
    let mut k: usize = 0;
    while k < ids.len()
        invariant
            k <= ids.len(),
            forall|j: int| 0 <= j < k ==> known(items@, #[trigger] ids@[j]@),
        decreases ids.len() - k,
    {
        if find(items, &ids[k]).is_none() {
            return false;
        }
        k = k + 1;
    }
    true
}

/// Whether some wall bounds the space with this identifier.
pub fn some_wall_of(walls: &Vec<Wall>, space: &String) -> (r: bool)
    ensures
        r == has_wall(walls@, space@),
{
    let mut j: usize = 0;
    while j < walls.len()
        invariant
            j <= walls.len(),
            forall|i: int| 0 <= i < j ==> !bounds_space(#[trigger] walls@[i], space@),
        decreases walls.len() - j,
    {
        let other = match &walls[j].next_to {
            Some(n) => *n == *space,
            None => false,
        };
        if walls[j].space == *space || other {
            return true;
        }
        j = j + 1;
    }
    false
}

/// Whether an optional reference, where it is given, names an entity.
pub fn given_is_known<T: Keyed>(items: &Vec<T>, id: &Option<String>) -> (r: bool)
    ensures
        r == known_if_given(items@, *id),
{
    match id {
        Some(s) => find(items, s).is_some(),
        None => true,
    }
}

impl Inspect for Space {
    open spec fn flagged(&self, model: &Model, kind: WarningKind) -> bool {
        match kind {
            WarningKind::DuplicateIdentifier => repeated(model.spaces@, self.id@),
            WarningKind::SpaceWithoutKind => self.kind is None,
            WarningKind::UnreachableSpace => !has_wall(model.walls@, self.id@),
            WarningKind::ZeroArea => self.area == 0,
            WarningKind::DanglingReference => !known_if_given(model.loads@, self.loads)
                || !known_if_given(model.sys_settings@, self.sys_settings),
            WarningKind::OutOfRange => self.height == 0 || self.multiplier == 0,
            _ => false,
        }
    }

    fn is_flagged(&self, model: &Model, kind: WarningKind) -> (r: bool) {
        match kind {
            WarningKind::DuplicateIdentifier => is_repeated(&model.spaces, &self.id),
            WarningKind::SpaceWithoutKind => self.kind.is_none(),
            WarningKind::UnreachableSpace => !some_wall_of(&model.walls, &self.id),
            WarningKind::ZeroArea => self.area == 0,
            WarningKind::DanglingReference => !given_is_known(&model.loads, &self.loads)
                || !given_is_known(&model.sys_settings, &self.sys_settings),
            WarningKind::OutOfRange => self.height == 0 || self.multiplier == 0,
            _ => false,
        }
    }
}

impl Inspect for Wall {
    open spec fn flagged(&self, model: &Model, kind: WarningKind) -> bool {
        match kind {
            WarningKind::DuplicateIdentifier => repeated(model.walls@, self.id@),
            WarningKind::ZeroArea => self.area == 0,
            WarningKind::DanglingConstruction => !known(model.wallcons@, self.cons@),
            WarningKind::DanglingReference => !known(model.spaces@, self.space@) || !known_if_given(
                model.spaces@,
                self.next_to,
            ),
            WarningKind::OutOfRange => self.tilt > 180_000,
            _ => false,
        }
    }

    fn is_flagged(&self, model: &Model, kind: WarningKind) -> (r: bool) {
        match kind {
            WarningKind::DuplicateIdentifier => is_repeated(&model.walls, &self.id),
            WarningKind::ZeroArea => self.area == 0,
            WarningKind::DanglingConstruction => find(&model.wallcons, &self.cons).is_none(),
            WarningKind::DanglingReference => find(&model.spaces, &self.space).is_none()
                || !given_is_known(&model.spaces, &self.next_to),
            WarningKind::OutOfRange => self.tilt > 180_000,
            _ => false,
        }
    }
}

/// Whether a window is larger than the wall that holds it. A window whose wall
/// the model does not hold is not: that is a dangling reference.
pub open spec fn exceeds_host(walls: Seq<Wall>, w: Window) -> bool {
    match position(walls, w.wall@) {
        Some(h) => w.area > walls[h].area,
        None => false,
    }
}

impl Inspect for Window {
    open spec fn flagged(&self, model: &Model, kind: WarningKind) -> bool {
        match kind {
            WarningKind::DuplicateIdentifier => repeated(model.windows@, self.id@),
            WarningKind::ZeroArea => self.area == 0,
            WarningKind::DanglingConstruction => !known(model.wincons@, self.cons@),
            WarningKind::DanglingReference => !known(model.walls@, self.wall@) || !all_known(
                model.shades@,
                self.shades@,
            ),
            WarningKind::WindowExceedsWall => exceeds_host(model.walls@, *self),
            WarningKind::OutOfRange => self.fshobst > 1000,
            _ => false,
        }
    }

    fn is_flagged(&self, model: &Model, kind: WarningKind) -> (r: bool) {
        match kind {
            WarningKind::DuplicateIdentifier => is_repeated(&model.windows, &self.id),
            WarningKind::ZeroArea => self.area == 0,
            WarningKind::DanglingConstruction => find(&model.wincons, &self.cons).is_none(),
            WarningKind::DanglingReference => find(&model.walls, &self.wall).is_none()
                || !every_known(&model.shades, &self.shades),
            WarningKind::WindowExceedsWall => match find(&model.walls, &self.wall) {
                Some(h) => self.area > model.walls[h].area,
                None => false,
            },
            WarningKind::OutOfRange => self.fshobst > 1000,
            _ => false,
        }
    }
}

impl Inspect for Shade {
    open spec fn flagged(&self, model: &Model, kind: WarningKind) -> bool {
        match kind {
            WarningKind::DuplicateIdentifier => repeated(model.shades@, self.id@),
            WarningKind::OutOfRange => self.factor matches Some(f) && f > 1000,
            _ => false,
        }
    }

    fn is_flagged(&self, model: &Model, kind: WarningKind) -> (r: bool) {
        match kind {
            WarningKind::DuplicateIdentifier => is_repeated(&model.shades, &self.id),
            WarningKind::OutOfRange => match self.factor {
                Some(f) => f > 1000,
                None => false,
            },
            _ => false,
        }
    }
}

impl Inspect for ThermalBridge {
    open spec fn flagged(&self, model: &Model, kind: WarningKind) -> bool {
        match kind {
            WarningKind::DuplicateIdentifier => repeated(model.thermal_bridges@, self.id@),
            WarningKind::NonPositiveBridgeLength => self.length == 0,
            _ => false,
        }
    }

    fn is_flagged(&self, model: &Model, kind: WarningKind) -> (r: bool) {
        match kind {
            WarningKind::DuplicateIdentifier => is_repeated(&model.thermal_bridges, &self.id),
            WarningKind::NonPositiveBridgeLength => self.length == 0,
            _ => false,
        }
    }
}

impl Inspect for WallCons {
    open spec fn flagged(&self, model: &Model, kind: WarningKind) -> bool {
        match kind {
            WarningKind::DuplicateIdentifier => repeated(model.wallcons@, self.id@),
            WarningKind::DanglingReference => !all_known(model.materials@, self.layers@),
            _ => false,
        }
    }

    fn is_flagged(&self, model: &Model, kind: WarningKind) -> (r: bool) {
        match kind {
            WarningKind::DuplicateIdentifier => is_repeated(&model.wallcons, &self.id),
            WarningKind::DanglingReference => !every_known(&model.materials, &self.layers),
            _ => false,
        }
    }
}

impl Inspect for WinCons {
    open spec fn flagged(&self, model: &Model, kind: WarningKind) -> bool {
        match kind {
            WarningKind::DuplicateIdentifier => repeated(model.wincons@, self.id@),
            WarningKind::DanglingReference => !known(model.glasses@, self.glass@) || !known(
                model.frames@,
                self.frame@,
            ),
            WarningKind::OutOfRange => self.frame_fraction > 1000,
            _ => false,
        }
    }

    fn is_flagged(&self, model: &Model, kind: WarningKind) -> (r: bool) {
        match kind {
            WarningKind::DuplicateIdentifier => is_repeated(&model.wincons, &self.id),
            WarningKind::DanglingReference => find(&model.glasses, &self.glass).is_none() || find(
                &model.frames,
                &self.frame,
            ).is_none(),
            WarningKind::OutOfRange => self.frame_fraction > 1000,
            _ => false,
        }
    }
}

impl Inspect for Material {
    open spec fn flagged(&self, model: &Model, kind: WarningKind) -> bool {
        match kind {
            WarningKind::DuplicateIdentifier => repeated(model.materials@, self.id@),
            WarningKind::OutOfRange => self.thickness == 0 || self.conductivity == 0,
            _ => false,
        }
    }

    fn is_flagged(&self, model: &Model, kind: WarningKind) -> (r: bool) {
        match kind {
            WarningKind::DuplicateIdentifier => is_repeated(&model.materials, &self.id),
            WarningKind::OutOfRange => self.thickness == 0 || self.conductivity == 0,
            _ => false,
        }
    }
}

impl Inspect for Glass {
    open spec fn flagged(&self, model: &Model, kind: WarningKind) -> bool {
        match kind {
            WarningKind::DuplicateIdentifier => repeated(model.glasses@, self.id@),
            WarningKind::OutOfRange => self.g > 1000,
            _ => false,
        }
    }

    fn is_flagged(&self, model: &Model, kind: WarningKind) -> (r: bool) {
        match kind {
            WarningKind::DuplicateIdentifier => is_repeated(&model.glasses, &self.id),
            WarningKind::OutOfRange => self.g > 1000,
            _ => false,
        }
    }
}

impl Inspect for Frame {
    open spec fn flagged(&self, model: &Model, kind: WarningKind) -> bool {
        match kind {
            WarningKind::DuplicateIdentifier => repeated(model.frames@, self.id@),
            WarningKind::OutOfRange => self.absorptivity > 1000,
            _ => false,
        }
    }

    fn is_flagged(&self, model: &Model, kind: WarningKind) -> (r: bool) {
        match kind {
            WarningKind::DuplicateIdentifier => is_repeated(&model.frames, &self.id),
            WarningKind::OutOfRange => self.absorptivity > 1000,
            _ => false,
        }
    }
}

impl Inspect for SpaceLoads {
    open spec fn flagged(&self, model: &Model, kind: WarningKind) -> bool {
        match kind {
            WarningKind::DuplicateIdentifier => repeated(model.loads@, self.id@),
            _ => false,
        }
    }

    fn is_flagged(&self, model: &Model, kind: WarningKind) -> (r: bool) {
        match kind {
            WarningKind::DuplicateIdentifier => is_repeated(&model.loads, &self.id),
            _ => false,
        }
    }
}

impl Inspect for SpaceSysConditions {
    open spec fn flagged(&self, model: &Model, kind: WarningKind) -> bool {
        match kind {
            WarningKind::DuplicateIdentifier => repeated(model.sys_settings@, self.id@),
            WarningKind::OutOfRange => self.heating_setpoint > self.cooling_setpoint,
            _ => false,
        }
    }

    fn is_flagged(&self, model: &Model, kind: WarningKind) -> (r: bool) {
        match kind {
            WarningKind::DuplicateIdentifier => is_repeated(&model.sys_settings, &self.id),
            WarningKind::OutOfRange => self.heating_setpoint > self.cooling_setpoint,
            _ => false,
        }
    }
}

/// The findings of a kind among the first `n` entities, in their order.
pub open spec fn findings_upto<T: Inspect>(items: Seq<T>, model: &Model, kind: WarningKind, n: int) -> Seq<
    Warning,
>
    decreases n,
{
    if n <= 0 {
        Seq::empty()
    } else if items[n - 1].flagged(model, kind) {
        findings_upto(items, model, kind, n - 1).push(Warning { kind, id: items[n - 1].ident() })
    } else {
        findings_upto(items, model, kind, n - 1)
    }
}

/// The findings of a kind among the entities of a category, in their order.
pub open spec fn findings<T: Inspect>(items: Seq<T>, model: &Model, kind: WarningKind) -> Seq<Warning> {
    findings_upto(items, model, kind, items.len() as int)
}

/// The findings of a kind about the building as a whole.
pub open spec fn meta_findings(model: &Model, kind: WarningKind) -> Seq<Warning> {
    if kind == WarningKind::UnknownClimateZone && ClimateZone::of_code(model.meta.climate@) is None {
        seq![Warning { kind, id: model.meta.climate }]
    } else {
        Seq::empty()
    }
}

/// The findings of a kind: about the building, then category by category.
pub open spec fn group(model: &Model, kind: WarningKind) -> Seq<Warning> {
    meta_findings(model, kind) + findings(model.spaces@, model, kind) + findings(
        model.walls@,
        model,
        kind,
    ) + findings(model.windows@, model, kind) + findings(model.shades@, model, kind) + findings(
        model.thermal_bridges@,
        model,
        kind,
    ) + findings(model.wallcons@, model, kind) + findings(model.wincons@, model, kind) + findings(
        model.materials@,
        model,
        kind,
    ) + findings(model.glasses@, model, kind) + findings(model.frames@, model, kind) + findings(
        model.loads@,
        model,
        kind,
    ) + findings(model.sys_settings@, model, kind)
}

/// The findings of the first `n` kinds.
pub open spec fn groups_upto(model: &Model, n: int) -> Seq<Warning>
    decreases n,
{
    if n <= 0 {
        Seq::empty()
    } else {
        groups_upto(model, n - 1) + group(model, WarningKind::at(n - 1).unwrap())
    }
}

/// What `check_model` returns.
pub open spec fn check_spec(model: &Model) -> Seq<Warning> {
    groups_upto(model, 11)
}

/// Appends the findings of a kind among the entities of a category.
pub fn check_all<T: Inspect>(items: &Vec<T>, model: &Model, kind: WarningKind, out: &mut Vec<Warning>)
    ensures
        final(out)@ == old(out)@ + findings(items@, model, kind),
{
    let mut i: usize = 0;
    assert(out@ =~= old(out)@ + findings_upto(items@, model, kind, 0));
    while i < items.len()
        invariant
            i <= items.len(),
            out@ == old(out)@ + findings_upto(items@, model, kind, i as int),
        decreases items.len() - i,
    {
        if items[i].is_flagged(model, kind) {
            let w = Warning { kind, id: items[i].id().clone() };
            proof {
                let before = findings_upto(items@, model, kind, i as int);
                assert((old(out)@ + before).push(w) =~= old(out)@ + before.push(w));
            }
            out.push(w);
        }
        i = i + 1;
    }
}

/// Appends the findings of a kind.
pub fn check_kind(model: &Model, kind: WarningKind, out: &mut Vec<Warning>)
    ensures
        final(out)@ == old(out)@ + group(model, kind),
{
    let ghost start = out@;
    match kind {
        WarningKind::UnknownClimateZone => {
            if ClimateZone::from_code(model.meta.climate.as_str()).is_none() {
                out.push(Warning { kind, id: model.meta.climate.clone() });
            }
        },
        _ => {},
    }
    assert(out@ =~= start + meta_findings(model, kind));
    check_all(&model.spaces, model, kind, out);
    check_all(&model.walls, model, kind, out);
    check_all(&model.windows, model, kind, out);
    check_all(&model.shades, model, kind, out);
    check_all(&model.thermal_bridges, model, kind, out);
    check_all(&model.wallcons, model, kind, out);
    check_all(&model.wincons, model, kind, out);
    check_all(&model.materials, model, kind, out);
    check_all(&model.glasses, model, kind, out);
    check_all(&model.frames, model, kind, out);
    check_all(&model.loads, model, kind, out);
    check_all(&model.sys_settings, model, kind, out);
    assert(out@ =~= start + group(model, kind));
}

/// Inspects the model and lists what it finds. It never fails: a model
/// without findings gives an empty list.
pub fn check_model(model: &Model) -> (warnings: Vec<Warning>)
    ensures
        warnings@ == check_spec(model),
{
    let mut out: Vec<Warning> = Vec::new();
    let mut k: usize = 0;
    while k < 11
        invariant
            k <= 11,
            out@ == groups_upto(model, k as int),
        decreases 11 - k,
    {
        match WarningKind::from_index(k) {
            Some(kind) => {
                check_kind(model, kind, &mut out);
            },
            None => {},
        }
        k = k + 1;
    }
    out
}

/// Where a category gives no finding of a kind, none of its entities is
/// flagged for it.
pub proof fn lemma_no_findings<T: Inspect>(items: Seq<T>, model: &Model, kind: WarningKind, n: int)
    requires
        0 <= n <= items.len(),
        findings_upto(items, model, kind, n).len() == 0,
    ensures
        forall|i: int| 0 <= i < n ==> !(#[trigger] items[i]).flagged(model, kind),
    decreases n,
{
    if n > 0 {
        lemma_no_findings(items, model, kind, n - 1);
    }
}

} // verus!
