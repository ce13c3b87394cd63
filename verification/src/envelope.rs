//! The envelope of a building, resolved: each wall and each window with the
//! numbers that the indicators read, and the sums that the indicators take
//! over them.

use vstd::prelude::*;
use vstd::arithmetic::overflow::CheckedU128;
use crate::climate::Orientation;
use crate::constructions::{
    glazing_spec, layers_spec, resolve_glazing, resolve_layers, thickness, thickness_of, wall_u,
    wall_u_value,
};
use crate::lookup::{find, position};
use crate::model::{BoundaryKind, Model, ThermalBridge, Wall, Window};
use crate::quantity::{
    collect, collect_upto, fit, fit_u64, lemma_collect_sticky, prefix_sum, total, IndicatorError,
    Reference,
};

verus! {

/// An element of the envelope, resolved.
#[derive(Debug, Clone, PartialEq, Eq)]
pub struct Element {
    /// Identifier of the wall or window.
    pub id: String,
    /// Whether it is a window.
    pub glazed: bool,
    /// What lies on the other side: for a window, of the wall that holds it.
    pub bounds: BoundaryKind,
    /// The orientation that it faces.
    pub orientation: Orientation,
    /// Area, in thousandths of a m².
    pub area: u32,
    /// Transmittance, in thousandths of a W/m²K.
    pub u: u32,
    /// Thickness of the construction, in thousandths of a m; zero for a window.
    pub thickness: u64,
}

/// The two methodologies by which the indicators are computed.
#[derive(Debug, Clone, Copy, PartialEq, Eq, Structural)]
pub enum Methodology {
    /// The earlier methodology.
    Legacy,
    /// The methodology as revised in 2019.
    Revised,
}

/// A wall, resolved: its construction is looked up, then each of its layers.
pub open spec fn wall_element(model: &Model, w: Wall) -> Result<Element, IndicatorError> {
    match position(model.wallcons@, w.cons@) {
        None => Err(IndicatorError::Dangling { reference: Reference::WallConstruction, owner: w.id }),
        Some(c) => match layers_spec(model.materials@, model.wallcons@[c]) {
            Err(e) => Err(e),
            Ok(layers) => if thickness_of(layers) > u64::MAX {
                Err(IndicatorError::Overflow)
            } else {
                Ok(
                    Element {
                        id: w.id,
                        glazed: false,
                        bounds: w.bounds,
                        orientation: w.orientation,
                        area: w.area,
                        u: wall_u(layers, w.bounds) as u32,
                        thickness: thickness_of(layers) as u64,
                    },
                )
            },
        },
    }
}

/// A window, resolved: the wall that holds it is looked up, then its
/// construction, then the glass and the frame of that.
pub open spec fn window_element(model: &Model, w: Window) -> Result<Element, IndicatorError> {
    match position(model.walls@, w.wall@) {
        None => Err(IndicatorError::Dangling { reference: Reference::HostWall, owner: w.id }),
        Some(h) => match position(model.wincons@, w.cons@) {
            None => Err(
                IndicatorError::Dangling { reference: Reference::WindowConstruction, owner: w.id },
            ),
            Some(c) => match glazing_spec(model.glasses@, model.frames@, model.wincons@[c]) {
                Err(e) => Err(e),
                Ok(g) => Ok(
                    Element {
                        id: w.id,
                        glazed: true,
                        bounds: model.walls@[h].bounds,
                        orientation: w.orientation,
                        area: w.area,
                        u: g.u,
                        thickness: 0,
                    },
                ),
            },
        },
    }
}

/// Each wall of the model, resolved or failed.
pub open spec fn wall_results(model: &Model) -> Seq<Result<Element, IndicatorError>> {
    Seq::new(model.walls@.len(), |i: int| wall_element(model, model.walls@[i]))
}

/// Each window of the model, resolved or failed.
pub open spec fn window_results(model: &Model) -> Seq<Result<Element, IndicatorError>> {
    Seq::new(model.windows@.len(), |i: int| window_element(model, model.windows@[i]))
}

/// The envelope of the model: its walls in their order, then its windows in
/// theirs. Where an element cannot be resolved, the failure of the first such
/// wall, or else of the first such window.
pub open spec fn envelope_spec(model: &Model) -> Result<Seq<Element>, IndicatorError> {
    match collect(wall_results(model)) {
        Err(e) => Err(e),
        Ok(ws) => match collect(window_results(model)) {
            Err(e) => Err(e),
            Ok(gs) => Ok(ws + gs),
        },
    }
}

/// Resolves a wall.
pub fn resolve_wall(model: &Model, w: &Wall) -> (r: Result<Element, IndicatorError>)
    ensures
        r == wall_element(model, *w),
{
    match find(&model.wallcons, &w.cons) {
        None => Err(
            IndicatorError::Dangling { reference: Reference::WallConstruction, owner: w.id.clone() },
        ),
        Some(c) => match resolve_layers(&model.materials, &model.wallcons[c]) {
            Err(e) => Err(e),
            Ok(layers) => {
                let t = thickness(&layers);
                if t > u64::MAX as u128 {
                    Err(IndicatorError::Overflow)
                } else {
                    Ok(
                        Element {
                            id: w.id.clone(),
                            glazed: false,
                            bounds: w.bounds,
                            orientation: w.orientation,
                            area: w.area,
                            u: wall_u_value(&layers, w.bounds),
                            thickness: t as u64,
                        },
                    )
                }
            },
        },
    }
}

/// Resolves a window.
pub fn resolve_window(model: &Model, w: &Window) -> (r: Result<Element, IndicatorError>)
    ensures
        r == window_element(model, *w),
{
    match find(&model.walls, &w.wall) {
        None => Err(IndicatorError::Dangling { reference: Reference::HostWall, owner: w.id.clone() }),
        Some(h) => match find(&model.wincons, &w.cons) {
            None => Err(
                IndicatorError::Dangling {
                    reference: Reference::WindowConstruction,
                    owner: w.id.clone(),
                },
            ),
            Some(c) => match resolve_glazing(&model.glasses, &model.frames, &model.wincons[c]) {
                Err(e) => Err(e),
                Ok(g) => Ok(
                    Element {
                        id: w.id.clone(),
                        glazed: true,
                        bounds: model.walls[h].bounds,
                        orientation: w.orientation,
                        area: w.area,
                        u: g.u,
                        thickness: 0,
                    },
                ),
            },
        },
    }
}

/// Resolves the envelope of the model. It fails where a wall or a window, its
/// construction or a part of that names an entity that the model does not
/// hold, and where a construction is thicker than 64 bits can say.
pub fn envelope(model: &Model) -> (r: Result<Vec<Element>, IndicatorError>)
    ensures
        match r {
            Ok(v) => envelope_spec(model) == Ok::<Seq<Element>, IndicatorError>(v@),
            Err(e) => envelope_spec(model) == Err::<Seq<Element>, IndicatorError>(e),
        },
{
    let ghost walls = wall_results(model);
    let ghost windows = window_results(model);
    let mut out: Vec<Element> = Vec::new();
    let mut i: usize = 0;
    while i < model.walls.len()
        invariant
            i <= model.walls.len(),
            walls == wall_results(model),
            collect_upto(walls, i as int) == Ok::<Seq<Element>, IndicatorError>(out@),
        decreases model.walls.len() - i,
    {
        match resolve_wall(model, &model.walls[i]) {
            Ok(e) => {
                out.push(e);
            },
            Err(e) => {
                proof {
                    assert(collect_upto(walls, i + 1) == Err::<Seq<Element>, IndicatorError>(e));
                    lemma_collect_sticky(walls, i + 1, walls.len() as int);
                }
                return Err(e);
            },
        }
        i = i + 1;
    }
    let ghost ws = out@;
    let mut j: usize = 0;
    while j < model.windows.len()
        invariant
            j <= model.windows.len(),
            windows == window_results(model),
            collect(wall_results(model)) == Ok::<Seq<Element>, IndicatorError>(ws),
            collect_upto(windows, j as int) is Ok,
            out@ == ws + collect_upto(windows, j as int)->Ok_0,
        decreases model.windows.len() - j,
    {
        match resolve_window(model, &model.windows[j]) {
            Ok(e) => {
                proof {
                    let s = collect_upto(windows, j as int)->Ok_0;
                    assert((ws + s).push(e) =~= ws + s.push(e));
                }
                out.push(e);
            },
            Err(e) => {
                proof {
                    assert(collect_upto(windows, j + 1) == Err::<Seq<Element>, IndicatorError>(e));
                    lemma_collect_sticky(windows, j + 1, windows.len() as int);
                }
                return Err(e);
            },
        }
        j = j + 1;
    }
    Ok(out)
}

/// Whether an element with these bounds separates the building from the
/// outside: from the air or from the ground.
pub open spec fn is_envelope(bounds: BoundaryKind) -> bool {
    bounds == BoundaryKind::Exterior || bounds == BoundaryKind::Ground
}

/// The weight, in thousandths, with which the transmission through an element
/// counts. The earlier methodology counts the elements in contact with the
/// outside air and with the ground, in full. The revised one adds those that
/// bound another space, at one half.
pub open spec fn boundary_factor(method: Methodology, bounds: BoundaryKind) -> nat {
    match bounds {
        BoundaryKind::Exterior => 1000,
        BoundaryKind::Ground => 1000,
        BoundaryKind::Interior => match method {
            Methodology::Legacy => 0,
            Methodology::Revised => 500,
        },
        BoundaryKind::Adiabatic => 0,
    }
}

/// The air permeability at 100 Pa that a methodology takes for an element in
/// contact with the outside air, in m³/h per m²: that of an opaque element, or
/// that of a window.
pub open spec fn permeability(method: Methodology, glazed: bool) -> nat {
    match method {
        Methodology::Legacy => if glazed {
            27
        } else {
            29
        },
        Methodology::Revised => if glazed {
            9
        } else {
            16
        },
    }
}

/// The groups of elements over which a mean transmittance is taken.
#[derive(Debug, Clone, Copy, PartialEq, Eq)]
pub enum Bucket {
    /// The opaque elements.
    Opaque,
    /// The windows.
    Glazed,
    /// The elements, opaque or not, that face an orientation.
    Facing(Orientation),
}

/// Whether an element belongs to a group. Only elements in contact with the
/// outside air or with the ground belong to any.
pub open spec fn in_bucket(e: Element, b: Bucket) -> bool {
    is_envelope(e.bounds) && match b {
        Bucket::Opaque => !e.glazed,
        Bucket::Glazed => e.glazed,
        Bucket::Facing(o) => e.orientation == o,
    }
}

/// What is summed over the elements of the envelope.
#[derive(Debug, Clone, Copy, PartialEq, Eq)]
pub enum Measure {
    /// The area in contact with the outside air or with the ground.
    EnvelopeArea,
    /// Weight, transmittance and area multiplied.
    Transmission(Methodology),
    /// Permeability and area multiplied, for elements in contact with the
    /// outside air.
    Leakage(Methodology),
    /// Area and thickness multiplied, for opaque elements in contact with the
    /// outside air or with the ground.
    Shell,
    /// The area of the elements of a group.
    Area(Bucket),
    /// Transmittance and area multiplied, for the elements of a group.
    Loss(Bucket),
}

/// What one element adds to a sum.
pub open spec fn measure(e: Element, m: Measure) -> nat {
    match m {
        Measure::EnvelopeArea => if is_envelope(e.bounds) {
            e.area as nat
        } else {
            0
        },
        Measure::Transmission(method) => (boundary_factor(method, e.bounds) * e.u * e.area) as nat,
        Measure::Leakage(method) => if e.bounds == BoundaryKind::Exterior {
            (permeability(method, e.glazed) * e.area) as nat
        } else {
            0
        },
        Measure::Shell => if !e.glazed && is_envelope(e.bounds) {
            (e.area * e.thickness) as nat
        } else {
            0
        },
        Measure::Area(b) => if in_bucket(e, b) {
            e.area as nat
        } else {
            0
        },
        Measure::Loss(b) => if in_bucket(e, b) {
            (e.u * e.area) as nat
        } else {
            0
        },
    }
}

/// What each element adds to a sum.
pub open spec fn measures(elements: Seq<Element>, m: Measure) -> Seq<nat> {
    Seq::new(elements.len(), |i: int| measure(elements[i], m))
}

/// The sum of a measure over the elements.
pub open spec fn element_sum(elements: Seq<Element>, m: Measure) -> nat {
    total(measures(elements, m))
}

/// What each thermal bridge loses: length and linear transmittance multiplied.
pub open spec fn bridge_terms(bridges: Seq<ThermalBridge>) -> Seq<nat> {
    Seq::new(bridges.len(), |i: int| (bridges[i].length * bridges[i].psi) as nat)
}

/// What the thermal bridges lose together, in millionths of a W/K.
pub open spec fn bridge_sum(bridges: Seq<ThermalBridge>) -> nat {
    total(bridge_terms(bridges))
}

/// Whether an element with these bounds separates the building from the outside.
pub fn envelope_bounds(bounds: BoundaryKind) -> (r: bool)
    ensures
        r == is_envelope(bounds),
{
    match bounds {
        BoundaryKind::Exterior => true,
        BoundaryKind::Ground => true,
        _ => false,
    }
}

/// The weight, in thousandths, with which the transmission through an element counts.
pub fn boundary_factor_of(method: Methodology, bounds: BoundaryKind) -> (r: u32)
    ensures
        r == boundary_factor(method, bounds),
{
    match bounds {
        BoundaryKind::Exterior => 1000,
        BoundaryKind::Ground => 1000,
        BoundaryKind::Interior => match method {
            Methodology::Legacy => 0,
            Methodology::Revised => 500,
        },
        BoundaryKind::Adiabatic => 0,
    }
}

/// The air permeability at 100 Pa of an element in contact with the outside air, in
/// m³/h per m².
pub fn permeability_of(method: Methodology, glazed: bool) -> (r: u32)
    ensures
        r == permeability(method, glazed),
{
    match method {
        Methodology::Legacy => if glazed {
            27
        } else {
            29
        },
        Methodology::Revised => if glazed {
            9
        } else {
            16
        },
    }
}

/// Whether an element belongs to a group.
pub fn belongs(e: &Element, b: Bucket) -> (r: bool)
    ensures
        r == in_bucket(*e, b),
{
    envelope_bounds(e.bounds) && match b {
        Bucket::Opaque => !e.glazed,
        Bucket::Glazed => e.glazed,
        Bucket::Facing(o) => e.orientation == o,
    }
}

/// What one element adds to a sum.
pub(crate) fn measure_of(e: &Element, m: Measure) -> (r: CheckedU128)
    ensures
        r@ == measure(*e, m),
{
    match m {
        Measure::EnvelopeArea => if envelope_bounds(e.bounds) {
            CheckedU128::new(e.area as u128)
        } else {
            CheckedU128::new(0)
        },
        Measure::Transmission(method) => CheckedU128::new(
            boundary_factor_of(method, e.bounds) as u128,
        ).mul_value(e.u as u128).mul_value(e.area as u128),
        Measure::Leakage(method) => match e.bounds {
            BoundaryKind::Exterior => CheckedU128::new(
                permeability_of(method, e.glazed) as u128,
            ).mul_value(e.area as u128),
            _ => CheckedU128::new(0),
        },
        Measure::Shell => if !e.glazed && envelope_bounds(e.bounds) {
            CheckedU128::new(e.area as u128).mul_value(e.thickness as u128)
        } else {
            CheckedU128::new(0)
        },
        Measure::Area(b) => if belongs(e, b) {
            CheckedU128::new(e.area as u128)
        } else {
            CheckedU128::new(0)
        },
        Measure::Loss(b) => if belongs(e, b) {
            CheckedU128::new(e.u as u128).mul_value(e.area as u128)
        } else {
            CheckedU128::new(0)
        },
    }
}

/// The sum of a measure over the elements, exact.
pub(crate) fn sum_elements(elements: &Vec<Element>, m: Measure) -> (r: CheckedU128)
    ensures
        r@ == element_sum(elements@, m),
{
    let ghost terms = measures(elements@, m);
    let mut acc = CheckedU128::new(0);
    let mut i: usize = 0;
    while i < elements.len()
        invariant
            i <= elements.len(),
            terms == measures(elements@, m),
            acc@ == prefix_sum(terms, i as int),
        decreases elements.len() - i,
    {
        let t = measure_of(&elements[i], m);
        acc = acc.add_checked(&t);
        i = i + 1;
    }
    acc
}

/// What the thermal bridges lose together, exact.
pub(crate) fn sum_bridges(bridges: &Vec<ThermalBridge>) -> (r: CheckedU128)
    ensures
        r@ == bridge_sum(bridges@),
{
    let ghost terms = bridge_terms(bridges@);
    let mut acc = CheckedU128::new(0);
    let mut i: usize = 0;
    while i < bridges.len()
        invariant
            i <= bridges.len(),
            terms == bridge_terms(bridges@),
            acc@ == prefix_sum(terms, i as int),
        decreases bridges.len() - i,
    {
        let t = CheckedU128::new(bridges[i].length as u128).mul_value(bridges[i].psi as u128);
        acc = acc.add_checked(&t);
        i = i + 1;
    }
    acc
}

/// The sum of a measure over the elements. It overflows where the sum does not
/// fit 64 bits.
pub fn element_total(elements: &Vec<Element>, m: Measure) -> (r: Result<u64, IndicatorError>)
    ensures
        r == fit(element_sum(elements@, m)),
{
    fit_u64(&sum_elements(elements, m))
}

/// What the thermal bridges lose together, in millionths of a W/K. It
/// overflows where the sum does not fit 64 bits.
pub fn bridge_total(bridges: &Vec<ThermalBridge>) -> (r: Result<u64, IndicatorError>)
    ensures
        r == fit(bridge_sum(bridges@)),
{
    fit_u64(&sum_bridges(bridges))
}

} // verus!
