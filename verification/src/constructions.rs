//! Constructions resolved to plain values, and their transmittances.
//!
//! A wall construction is a sequence of layers of material; a window
//! construction is a glass in a frame. Both name their parts by identifier. To
//! resolve a construction is to look each part up and keep the numbers that the
//! indicators read.

use vstd::prelude::*;
use crate::lookup::{find, position};
use crate::model::{BoundaryKind, Frame, Glass, Material, WallCons, WinCons};
use crate::quantity::{collect, collect_upto, lemma_collect_sticky, prefix_sum, total, IndicatorError, Reference};

verus! {

/// A layer of a wall construction, resolved.
#[derive(Debug, Clone, Copy, PartialEq, Eq)]
pub struct Layer {
    /// Thickness, in thousandths of a m.
    pub thickness: u32,
    /// Thermal conductivity, in thousandths of a W/mK.
    pub conductivity: u32,
}

/// A window construction, resolved.
#[derive(Debug, Clone, Copy, PartialEq, Eq)]
pub struct Glazing {
    /// Transmittance of glass and frame together, in thousandths of a W/m²K.
    pub u: u32,
    /// Solar factor of the glass, in thousandths.
    pub g: u32,
    /// Share of the area that the frame takes, in thousandths.
    pub frame_fraction: u32,
}

/// The layer that a material makes.
pub open spec fn layer_of(m: Material) -> Layer {
    Layer { thickness: m.thickness, conductivity: m.conductivity }
}

/// Each layer of a construction, looked up among the materials.
pub open spec fn layer_results(materials: Seq<Material>, cons: WallCons) -> Seq<
    Result<Layer, IndicatorError>,
> {
    Seq::new(
        cons.layers@.len(),
        |k: int|
            match position(materials, cons.layers@[k]@) {
                Some(i) => Ok(layer_of(materials[i])),
                None => Err(
                    IndicatorError::Dangling { reference: Reference::Material, owner: cons.id },
                ),
            },
    )
}

/// The layers of a construction, or the failure at its first layer that names
/// no material.
pub open spec fn layers_spec(materials: Seq<Material>, cons: WallCons) -> Result<
    Seq<Layer>,
    IndicatorError,
> {
    collect(layer_results(materials, cons))
}

/// Resolves the layers of a wall construction.
pub fn resolve_layers(materials: &Vec<Material>, cons: &WallCons) -> (r: Result<
    Vec<Layer>,
    IndicatorError,
>)
    ensures
        match r {
            Ok(v) => layers_spec(materials@, *cons) == Ok::<Seq<Layer>, IndicatorError>(v@),
            Err(e) => layers_spec(materials@, *cons) == Err::<Seq<Layer>, IndicatorError>(e),
        },
{
    let ghost results = layer_results(materials@, *cons);
    let mut out: Vec<Layer> = Vec::new();
    let mut k: usize = 0;
    while k < cons.layers.len()
        invariant
            k <= cons.layers.len(),
            results == layer_results(materials@, *cons),
            results.len() == cons.layers@.len(),
            collect_upto(results, k as int) == Ok::<Seq<Layer>, IndicatorError>(out@),
        decreases cons.layers.len() - k,
    {
        match find(materials, &cons.layers[k]) {
            Some(i) => {
                let m = &materials[i];
                out.push(Layer { thickness: m.thickness, conductivity: m.conductivity });
            },
            None => {
                let e = IndicatorError::Dangling {
                    reference: Reference::Material,
                    owner: cons.id.clone(),
                };
                proof {
                    assert(collect_upto(results, k + 1) == Err::<Seq<Layer>, IndicatorError>(e));
                    lemma_collect_sticky(results, k + 1, results.len() as int);
                }
                return Err(e);
            },
        }
        k = k + 1;
    }
    Ok(out)
}

/// The thickness of a construction: the sum of the thicknesses of its layers,
/// in thousandths of a m.
pub open spec fn thickness_of(layers: Seq<Layer>) -> nat {
    total(Seq::new(layers.len(), |k: int| layers[k].thickness as nat))
}

/// The thermal resistance of a layer, in thousandths of a m²K/W, rounded down.
/// A layer without conductivity counts as zero here: `conducts` tells it apart.
pub open spec fn layer_resistance(layer: Layer) -> nat {
    if layer.conductivity == 0 {
        0
    } else {
        (layer.thickness * 1000 / layer.conductivity as int) as nat
    }
}

/// Whether heat passes through every layer.
pub open spec fn conducts(layers: Seq<Layer>) -> bool {
    forall|k: int| 0 <= k < layers.len() ==> layers[k].conductivity > 0
}

/// The thermal resistance of the layers together, in thousandths of a m²K/W.
pub open spec fn resistance_of(layers: Seq<Layer>) -> nat {
    total(Seq::new(layers.len(), |k: int| layer_resistance(layers[k])))
}

/// The resistance of the two surfaces of an element, in thousandths of a m²K/W.
/// It depends on what lies on the other side: outside air (inner and outer
/// surface), the ground (inner surface alone) or another space (two inner
/// surfaces).
pub open spec fn surface_resistance(bounds: BoundaryKind) -> nat {
    match bounds {
        BoundaryKind::Exterior => 170,
        BoundaryKind::Ground => 130,
        BoundaryKind::Interior => 260,
        BoundaryKind::Adiabatic => 0,
    }
}

/// The transmittance of an opaque element, in thousandths of a W/m²K, rounded
/// down: the inverse of the resistance of its layers and surfaces. It is zero
/// for an adiabatic element and where a layer lets no heat pass.
pub open spec fn wall_u(layers: Seq<Layer>, bounds: BoundaryKind) -> nat {
    if bounds == BoundaryKind::Adiabatic || !conducts(layers) {
        0
    } else {
        (1_000_000int / (surface_resistance(bounds) + resistance_of(layers)) as int) as nat
    }
}

/// The resistance of the two surfaces of an element, in thousandths of a m²K/W.
pub fn surface_resistance_of(bounds: BoundaryKind) -> (r: u32)
    ensures
        r == surface_resistance(bounds),
{
    match bounds {
        BoundaryKind::Exterior => 170,
        BoundaryKind::Ground => 130,
        BoundaryKind::Interior => 260,
        BoundaryKind::Adiabatic => 0,
    }
}

/// The sum of the thicknesses of the layers.
pub fn thickness(layers: &Vec<Layer>) -> (r: u128)
    ensures
        r == thickness_of(layers@),
{
    let ghost terms = Seq::new(layers@.len(), |k: int| layers@[k].thickness as nat);
    let mut acc: u128 = 0;
    let mut k: usize = 0;
    while k < layers.len()
        invariant
            k <= layers.len(),
            terms == Seq::new(layers@.len(), |k: int| layers@[k].thickness as nat),
            acc == prefix_sum(terms, k as int),
            acc <= k * 0xffff_ffff,
        decreases layers.len() - k,
    {
        acc = acc + layers[k].thickness as u128;
        k = k + 1;
    }
    acc
}

/// The transmittance of an opaque element with the given layers.
pub fn wall_u_value(layers: &Vec<Layer>, bounds: BoundaryKind) -> (u: u32)
    ensures
        u == wall_u(layers@, bounds),
        u <= 7_692,
{
    let ghost terms = Seq::new(layers@.len(), |k: int| layer_resistance(layers@[k]));
    let mut acc: u128 = 0;
    let mut passes: bool = true;
    let mut k: usize = 0;
    while k < layers.len()
        invariant
            k <= layers.len(),
            terms == Seq::new(layers@.len(), |k: int| layer_resistance(layers@[k])),
            acc == prefix_sum(terms, k as int),
            acc <= k * 4_294_967_295_000,
            passes == (forall|j: int| 0 <= j < k ==> layers@[j].conductivity > 0),
        decreases layers.len() - k,
    {
        let layer = layers[k];
        if layer.conductivity == 0 {
            passes = false;
        } else {
            let r: u64 = layer.thickness as u64 * 1000 / layer.conductivity as u64;
            acc = acc + r as u128;
        }
        k = k + 1;
    }
    match bounds {
        BoundaryKind::Adiabatic => 0,
        _ => {
            if !passes {
                0
            } else {
                let r_total: u128 = surface_resistance_of(bounds) as u128 + acc;
                let u: u128 = 1_000_000 / r_total;
                assert(u <= 7_692) by (nonlinear_arith)
                    requires
                        u == 1_000_000u128 / r_total,
                        r_total >= 130,
                ;
                u as u32
            }
        },
    }
}

/// The transmittance of a glass in a frame, in thousandths of a W/m²K, rounded
/// down: the mean of both, weighted by the share of the frame. A share above
/// one counts as one.
pub open spec fn glazing_u(glass_u: u32, frame_u: u32, frame_fraction: u32) -> nat {
    let f: int = if frame_fraction > 1000 {
        1000
    } else {
        frame_fraction as int
    };
    (((1000 - f) * glass_u + f * frame_u) / 1000) as nat
}

/// The transmittance of a glass in a frame.
pub fn glazing_u_value(glass_u: u32, frame_u: u32, frame_fraction: u32) -> (u: u32)
    ensures
        u == glazing_u(glass_u, frame_u, frame_fraction),
{
    let f: u64 = if frame_fraction > 1000 {
        1000
    } else {
        frame_fraction as u64
    };
    assert((1000 - f) * glass_u <= 1000 * 0xffff_ffff && f * frame_u <= 1000 * 0xffff_ffff)
        by (nonlinear_arith)
        requires
            f <= 1000,
            glass_u <= 0xffff_ffff,
            frame_u <= 0xffff_ffff,
    ;
    let a: u64 = (1000 - f) * glass_u as u64;
    let b: u64 = f * frame_u as u64;
    assert(a + b <= 1000 * 0xffff_ffff) by (nonlinear_arith)
        requires
            a == (1000 - f) * glass_u,
            b == f * frame_u,
            f <= 1000,
            glass_u <= 0xffff_ffff,
            frame_u <= 0xffff_ffff,
    ;
    let u: u64 = (a + b) / 1000;
    u as u32
}

/// What `resolve_glazing` returns.
pub open spec fn glazing_spec(glasses: Seq<Glass>, frames: Seq<Frame>, cons: WinCons) -> Result<
    Glazing,
    IndicatorError,
> {
    match position(glasses, cons.glass@) {
        None => Err(IndicatorError::Dangling { reference: Reference::Glass, owner: cons.id }),
        Some(i) => match position(frames, cons.frame@) {
            None => Err(IndicatorError::Dangling { reference: Reference::Frame, owner: cons.id }),
            Some(j) => Ok(
                Glazing {
                    u: glazing_u(glasses[i].u_value, frames[j].u_value, cons.frame_fraction) as u32,
                    g: glasses[i].g,
                    frame_fraction: cons.frame_fraction,
                },
            ),
        },
    }
}

/// Resolves a window construction: looks up its glass, then its frame.
pub fn resolve_glazing(glasses: &Vec<Glass>, frames: &Vec<Frame>, cons: &WinCons) -> (r: Result<
    Glazing,
    IndicatorError,
>)
    ensures
        r == glazing_spec(glasses@, frames@, *cons),
{
    match find(glasses, &cons.glass) {
        None => Err(IndicatorError::Dangling { reference: Reference::Glass, owner: cons.id.clone() }),
        Some(i) => match find(frames, &cons.frame) {
            None => Err(
                IndicatorError::Dangling { reference: Reference::Frame, owner: cons.id.clone() },
            ),
            Some(j) => {
                let glass = &glasses[i];
                let frame = &frames[j];
                Ok(
                    Glazing {
                        u: glazing_u_value(glass.u_value, frame.u_value, cons.frame_fraction),
                        g: glass.g,
                        frame_fraction: cons.frame_fraction,
                    },
                )
            },
        },
    }
}

impl WallCons {
    /// What `u_value` returns.
    pub open spec fn u_value_spec(&self, materials: Seq<Material>, bounds: BoundaryKind) -> Result<
        u32,
        IndicatorError,
    > {
        match layers_spec(materials, *self) {
            Err(e) => Err(e),
            Ok(layers) => Ok(wall_u(layers, bounds) as u32),
        }
    }

    /// The transmittance of an element of this construction with the given
    /// bounds, in thousandths of a W/m²K. It fails where a layer names no
    /// material.
    pub fn u_value(&self, materials: &Vec<Material>, bounds: BoundaryKind) -> (r: Result<
        u32,
        IndicatorError,
    >)
        ensures
            r == self.u_value_spec(materials@, bounds),
    {
        match resolve_layers(materials, self) {
            Err(e) => Err(e),
            Ok(layers) => Ok(wall_u_value(&layers, bounds)),
        }
    }
}

impl WinCons {
    /// What `u_value` returns.
    pub open spec fn u_value_spec(&self, glasses: Seq<Glass>, frames: Seq<Frame>) -> Result<
        u32,
        IndicatorError,
    > {
        match glazing_spec(glasses, frames, *self) {
            Err(e) => Err(e),
            Ok(glazing) => Ok(glazing.u),
        }
    }

    /// The transmittance of a window of this construction, in thousandths of a
    /// W/m²K. It fails where the glass or the frame is not among those given.
    pub fn u_value(&self, glasses: &Vec<Glass>, frames: &Vec<Frame>) -> (r: Result<
        u32,
        IndicatorError,
    >)
        ensures
            r == self.u_value_spec(glasses@, frames@),
    {
        match resolve_glazing(glasses, frames, self) {
            Err(e) => Err(e),
            Ok(glazing) => Ok(glazing.u),
        }
    }
}

} // verus!
