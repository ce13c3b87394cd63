//! Shading and the solar gain of July.

use vstd::prelude::*;
use vstd::arithmetic::overflow::CheckedU128;
use crate::climate::{ClimateData, ClimateZone};
use crate::constructions::{glazing_spec, resolve_glazing};
use crate::indicators::{reference_area, sum_reference_area};
use crate::lookup::{find, position};
use crate::model::{Model, Shade, Window};
use crate::quantity::{
    checked_ratio, collect, collect_upto, lemma_collect_sticky, prefix_sum, ratio, total,
    IndicatorError, Reference,
};

verus! {

/// The reduction factor of a shading element, in thousandths: one thousand
/// where it casts no shade. A factor that is given counts as it is, and as one
/// where it is above one. Otherwise the factor follows from the geometry: an
/// element that does not project casts no shade, and one that does lets
/// through the share that its distance has in distance and depth together.
pub open spec fn shade_factor(s: Shade) -> nat {
    match s.factor {
        Some(f) => if f > 1000 {
            1000
        } else {
            f as nat
        },
        None => if s.depth == 0 {
            1000
        } else {
            (s.distance * 1000 / (s.depth + s.distance)) as nat
        },
    }
}

/// The reduction factor of a shading element.
pub fn shade_factor_of(s: &Shade) -> (r: u32)
    ensures
        r == shade_factor(*s),
        r <= 1000,
{
    match s.factor {
        Some(f) => if f > 1000 {
            1000
        } else {
            f
        },
        None => if s.depth == 0 {
            1000
        } else {
            let n: u64 = s.distance as u64 * 1000;
            let d: u64 = s.depth as u64 + s.distance as u64;
            let q: u64 = n / d;
            assert(q <= 1000) by (nonlinear_arith)
                requires
                    q == n / d,
                    d > 0,
                    n <= 1000 * d,
            ;
            q as u32
        },
    }
}

/// The factors of the first `n` shades together: each lets through its share
/// of what the ones before it let through, rounded down.
pub open spec fn combined(factors: Seq<u32>, n: int) -> nat
    decreases n,
{
    if n <= 0 {
        1000
    } else {
        (combined(factors, n - 1) * factors[n - 1] / 1000) as nat
    }
}

/// `combined` reads the first `n` factors alone.
pub proof fn lemma_combined_same(a: Seq<u32>, b: Seq<u32>, n: int)
    requires
        n <= a.len(),
        n <= b.len(),
        forall|k: int| 0 <= k < n ==> a[k] == b[k],
    ensures
        combined(a, n) == combined(b, n),
    decreases n,
{
    if n > 0 {
        lemma_combined_same(a, b, n - 1);
    }
}

/// Each shading device of a window, looked up among the shades.
pub open spec fn shade_results(shades: Seq<Shade>, w: Window) -> Seq<Result<u32, IndicatorError>> {
    Seq::new(
        w.shades@.len(),
        |k: int|
            match position(shades, w.shades@[k]@) {
                Some(i) => Ok(shade_factor(shades[i]) as u32),
                None => Err(IndicatorError::Dangling { reference: Reference::Shade, owner: w.id }),
            },
    )
}

/// The reduction factor of the shading devices of a window together, in
/// thousandths, or the failure at the first device that names no shade.
pub open spec fn shading_spec(shades: Seq<Shade>, w: Window) -> Result<u32, IndicatorError> {
    match collect(shade_results(shades, w)) {
        Err(e) => Err(e),
        Ok(factors) => Ok(combined(factors, factors.len() as int) as u32),
    }
}

/// The reduction factor of the shading devices of a window together.
pub fn shading(shades: &Vec<Shade>, w: &Window) -> (r: Result<u32, IndicatorError>)
    ensures
        r == shading_spec(shades@, *w),
        r matches Ok(f) ==> f <= 1000,
{
    let ghost results = shade_results(shades@, *w);
    let ghost factors: Seq<u32> = Seq::empty();
    let mut acc: u32 = 1000;
    let mut k: usize = 0;
    while k < w.shades.len()
        invariant
            k <= w.shades.len(),
            results == shade_results(shades@, *w),
            results.len() == w.shades@.len(),
            factors.len() == k,
            collect_upto(results, k as int) == Ok::<Seq<u32>, IndicatorError>(factors),
            acc == combined(factors, k as int),
            acc <= 1000,
        decreases w.shades.len() - k,
    {
        match find(shades, &w.shades[k]) {
            None => {
                let e = IndicatorError::Dangling { reference: Reference::Shade, owner: w.id.clone() };
                proof {
                    assert(collect_upto(results, k + 1) == Err::<Seq<u32>, IndicatorError>(e));
                    lemma_collect_sticky(results, k + 1, results.len() as int);
                }
                return Err(e);
            },
            Some(i) => {
                let f = shade_factor_of(&shades[i]);
                assert(acc * f <= 1_000_000) by (nonlinear_arith)
                    requires
                        acc <= 1000,
                        f <= 1000,
                ;
                proof {
                    lemma_combined_same(factors, factors.push(f), k as int);
                    factors = factors.push(f);
                }
                acc = acc * f / 1000;
            },
        }
        k = k + 1;
    }
    Ok(acc)
}

/// What a window takes part in the solar gain with, resolved.
#[derive(Debug, Clone, Copy, PartialEq, Eq)]
pub struct Gain {
    /// Radiation of July on its orientation, in thousandths of a kWh/m².
    pub radiation: u32,
    /// Area, in thousandths of a m².
    pub area: u32,
    /// Solar factor of the glass, in thousandths.
    pub g: u32,
    /// Share of the area that the frame takes, in thousandths.
    pub frame_fraction: u32,
    /// Reduction factor of its shading devices, in thousandths.
    pub shading: u32,
    /// Reduction factor for remote obstructions, in thousandths.
    pub fshobst: u32,
}

/// The share of a window that is glass, in thousandths. A frame fraction above
/// one counts as one.
pub open spec fn glass_share(frame_fraction: u32) -> nat {
    if frame_fraction > 1000 {
        0
    } else {
        (1000 - frame_fraction) as nat
    }
}

/// The solar gain through a window in July: radiation, area, solar factor,
/// share of glass, shading factor and obstruction factor multiplied. The unit
/// is the kWh with eighteen decimals.
pub open spec fn gain_value(gain: Gain) -> nat {
    (gain.radiation * gain.area * gain.g * glass_share(gain.frame_fraction) * gain.shading
        * gain.fshobst) as nat
}

/// A window, resolved for the solar gain in a climate zone: its construction
/// is looked up, then the glass and the frame of that, then its shading
/// devices.
pub open spec fn window_gain(model: &Model, climate: ClimateData, zone: ClimateZone, w: Window) -> Result<
    Gain,
    IndicatorError,
> {
    match position(model.wincons@, w.cons@) {
        None => Err(
            IndicatorError::Dangling { reference: Reference::WindowConstruction, owner: w.id },
        ),
        Some(c) => match glazing_spec(model.glasses@, model.frames@, model.wincons@[c]) {
            Err(e) => Err(e),
            Ok(glazing) => match shading_spec(model.shades@, w) {
                Err(e) => Err(e),
                Ok(shading) => Ok(
                    Gain {
                        radiation: climate.july_spec(zone, w.orientation),
                        area: w.area,
                        g: glazing.g,
                        frame_fraction: glazing.frame_fraction,
                        shading,
                        fshobst: w.fshobst,
                    },
                ),
            },
        },
    }
}

/// Each window of the model, resolved for the solar gain or failed.
pub open spec fn gain_results(model: &Model, climate: ClimateData, zone: ClimateZone) -> Seq<
    Result<Gain, IndicatorError>,
> {
    Seq::new(model.windows@.len(), |i: int| window_gain(model, climate, zone, model.windows@[i]))
}

/// The windows of the model, resolved for the solar gain. The climate zone of
/// the building is read first: where its code names no zone, that is the
/// failure, whatever the windows are. Otherwise the failure is that of the
/// first window that cannot be resolved.
pub open spec fn gains_spec(model: &Model, climate: ClimateData) -> Result<Seq<Gain>, IndicatorError> {
    match ClimateZone::of_code(model.meta.climate@) {
        None => Err(IndicatorError::UnknownClimateZone),
        Some(zone) => collect(gain_results(model, climate, zone)),
    }
}

/// What each window gains.
pub open spec fn gain_terms(gains: Seq<Gain>) -> Seq<nat> {
    Seq::new(gains.len(), |i: int| gain_value(gains[i]))
}

/// What the windows gain together.
pub open spec fn solar_sum(gains: Seq<Gain>) -> nat {
    total(gain_terms(gains))
}

/// The solar gain of July over resolved windows, in thousandths of a kWh/m²:
/// what the windows gain together, by the reference area.
pub open spec fn q_soljul_of(gains: Seq<Gain>, a_ref: nat) -> Result<Option<u64>, IndicatorError> {
    ratio(solar_sum(gains), a_ref * 1_000_000_000_000)
}

/// What `q_soljul` returns.
pub open spec fn q_soljul_spec(model: &Model, climate: ClimateData) -> Result<
    Option<u64>,
    IndicatorError,
> {
    match gains_spec(model, climate) {
        Err(e) => Err(e),
        Ok(gains) => q_soljul_of(gains, reference_area(model.spaces@)),
    }
}

/// Resolves a window for the solar gain.
pub fn resolve_gain(model: &Model, climate: &ClimateData, zone: ClimateZone, w: &Window) -> (r:
    Result<Gain, IndicatorError>)
    ensures
        r == window_gain(model, *climate, zone, *w),
{
    match find(&model.wincons, &w.cons) {
        None => Err(
            IndicatorError::Dangling { reference: Reference::WindowConstruction, owner: w.id.clone() },
        ),
        Some(c) => match resolve_glazing(&model.glasses, &model.frames, &model.wincons[c]) {
            Err(e) => Err(e),
            Ok(glazing) => match shading(&model.shades, w) {
                Err(e) => Err(e),
                Ok(shading) => Ok(
                    Gain {
                        radiation: climate.radiation(zone, w.orientation).july,
                        area: w.area,
                        g: glazing.g,
                        frame_fraction: glazing.frame_fraction,
                        shading,
                        fshobst: w.fshobst,
                    },
                ),
            },
        },
    }
}

/// Resolves the windows of the model for the solar gain.
pub fn gains(model: &Model, climate: &ClimateData) -> (r: Result<Vec<Gain>, IndicatorError>)
    ensures
        match r {
            Ok(v) => gains_spec(model, *climate) == Ok::<Seq<Gain>, IndicatorError>(v@),
            Err(e) => gains_spec(model, *climate) == Err::<Seq<Gain>, IndicatorError>(e),
        },
{
    match ClimateZone::from_code(model.meta.climate.as_str()) {
        None => Err(IndicatorError::UnknownClimateZone),
        Some(zone) => {
            let ghost results = gain_results(model, *climate, zone);
            let mut out: Vec<Gain> = Vec::new();
            let mut i: usize = 0;
            while i < model.windows.len()
                invariant
                    i <= model.windows.len(),
                    results == gain_results(model, *climate, zone),
                    ClimateZone::of_code(model.meta.climate@) == Some(zone),
                    collect_upto(results, i as int) == Ok::<Seq<Gain>, IndicatorError>(out@),
                decreases model.windows.len() - i,
            {
                match resolve_gain(model, climate, zone, &model.windows[i]) {
                    Ok(g) => {
                        out.push(g);
                    },
                    Err(e) => {
                        proof {
                            assert(collect_upto(results, i + 1) == Err::<Seq<Gain>, IndicatorError>(
                                e,
                            ));
                            lemma_collect_sticky(results, i + 1, results.len() as int);
                        }
                        return Err(e);
                    },
                }
                i = i + 1;
            }
            Ok(out)
        },
    }
}

/// What a window gains, exact.
pub(crate) fn gain_of(gain: &Gain) -> (r: CheckedU128)
    ensures
        r@ == gain_value(*gain),
{
    let glass: u32 = if gain.frame_fraction > 1000 {
        0
    } else {
        1000 - gain.frame_fraction
    };
    CheckedU128::new(gain.radiation as u128).mul_value(gain.area as u128).mul_value(
        gain.g as u128,
    ).mul_value(glass as u128).mul_value(gain.shading as u128).mul_value(gain.fshobst as u128)
}

fn q_soljul_checked(gains: &Vec<Gain>, a_ref: &CheckedU128) -> (r: Result<Option<u64>, IndicatorError>)
    ensures
        r == q_soljul_of(gains@, a_ref@),
{
    let ghost terms = gain_terms(gains@);
    let mut acc = CheckedU128::new(0);
    let mut i: usize = 0;
    while i < gains.len()
        invariant
            i <= gains.len(),
            terms == gain_terms(gains@),
            acc@ == prefix_sum(terms, i as int),
        decreases gains.len() - i,
    {
        let t = gain_of(&gains[i]);
        acc = acc.add_checked(&t);
        i = i + 1;
    }
    let area = a_ref.mul_value(1_000_000_000_000);
    checked_ratio(&acc, &area)
}

/// The solar gain of July of resolved windows, for a reference area in
/// thousandths of a m².
pub fn q_soljul_value(gains: &Vec<Gain>, a_ref: u64) -> (r: Result<Option<u64>, IndicatorError>)
    ensures
        r == q_soljul_of(gains@, a_ref as nat),
{
    q_soljul_checked(gains, &CheckedU128::new(a_ref as u128))
}

/// The solar gain of July, in thousandths of a kWh/m²: for each window the
/// radiation of July on its orientation in the climate zone of the building,
/// times its area, the solar factor of its glass, its share of glass, the
/// factor of its shading devices and its obstruction factor; summed over the
/// windows and divided by the reference area. It is undefined where the
/// reference area is zero. It fails where the climate zone is unknown.
pub fn q_soljul(model: &Model, climate: &ClimateData) -> (r: Result<Option<u64>, IndicatorError>)
    ensures
        r == q_soljul_spec(model, *climate),
{
    match gains(model, climate) {
        Err(e) => Err(e),
        Ok(resolved) => {
            let a = sum_reference_area(&model.spaces);
            q_soljul_checked(&resolved, &a)
        },
    }
}

} // verus!
