//! Laws that relate the functions of the crate, proved over their
//! specifications.

use vstd::prelude::*;
use vstd::arithmetic::div_mod::lemma_div_is_ordered;
use crate::climate::ClimateData;
use crate::constructions::{glazing_spec, glazing_u, layer_results, layers_spec};
use crate::envelope::{
    bridge_terms, envelope_spec, measures, wall_element, wall_results, window_element,
    window_results, Element, Measure, Methodology,
};
use crate::indicators::{
    a_ref_spec, compactness_spec, is_conditioned, k_numerator, k_quotient, k_spec, n50_spec,
    reference_area, reference_terms, vol_env_net_spec, volume_terms,
};
use crate::lookup::{known, lemma_position, position};
use crate::model::{
    Frame, Glass, Material, Model, Shade, Space, SpaceSysConditions, ThermalBridge, Wall, WinCons,
    Window,
};
use crate::obstruction::{merged, same_but_windows, updated, SurveyEntry};
use crate::quantity::{
    collect, lemma_collect_error, lemma_collect_ok, lemma_prefix_sum_monotone,
    lemma_prefix_sum_zero, IndicatorError,
};
use crate::solar::{
    gain_results, gain_terms, gains_spec, q_soljul_of, q_soljul_spec, shade_results, shading_spec,
    solar_sum, window_gain, Gain,
};
use crate::validate::{
    all_known, findings, group, lemma_no_findings, meta_findings, Inspect, WarningKind,
};

verus! {

/// The obstruction resolver is idempotent: a second update, with no change to
/// the model in between, leaves every window as the first update left it.
pub proof fn law_update_idempotent(start: &Model, once: &Model, twice: &Model)
    requires
        updated(start, once),
        updated(once, twice),
    ensures
        twice.windows@ == once.windows@,
        same_but_windows(once, twice),
{
    assert forall|i: int| 0 <= i < once.windows@.len() implies twice.windows@[i]
        == once.windows@[i] by {
        let w = start.windows@[i];
        let v = once.windows@[i];
        assert(v.orientation == w.orientation);
    }
    assert(twice.windows@ =~= once.windows@);
}

/// The obstruction resolver is deterministic: two updates of the same model
/// give the same windows.
pub proof fn law_update_deterministic(start: &Model, one: &Model, other: &Model)
    requires
        updated(start, one),
        updated(start, other),
    ensures
        one.windows@ == other.windows@,
{
    assert forall|i: int| 0 <= i < one.windows@.len() implies one.windows@[i]
        == other.windows@[i] by {
        let w = start.windows@[i];
    }
    assert(one.windows@ =~= other.windows@);
}

/// In a model without conditioned spaces the reference area and the net volume
/// are zero, and every indicator that divides by one of them is undefined: it
/// is never a number.
pub proof fn law_no_conditioned_space(model: &Model, method: Methodology)
    requires
        forall|i: int| 0 <= i < model.spaces@.len() ==> !is_conditioned(model.spaces@[i].kind),
    ensures
        a_ref_spec(model) == Ok::<u64, IndicatorError>(0),
        vol_env_net_spec(model) == Ok::<u64, IndicatorError>(0),
        envelope_spec(model) is Ok ==> compactness_spec(model) == Ok::<Option<u64>, IndicatorError>(
            None,
        ),
        envelope_spec(model) is Ok ==> k_spec(model, method) == Ok::<Option<u64>, IndicatorError>(
            None,
        ),
        envelope_spec(model) is Ok ==> n50_spec(model, method) == Ok::<Option<u64>, IndicatorError>(
            None,
        ),
        !(compactness_spec(model) matches Ok(Some(_))),
        !(k_spec(model, method) matches Ok(Some(_))),
        !(n50_spec(model, method) matches Ok(Some(_))),
{
    let spaces = model.spaces@;
    lemma_prefix_sum_zero(reference_terms(spaces), spaces.len() as int);
    lemma_prefix_sum_zero(volume_terms(spaces), spaces.len() as int);
}

/// In a model without conditioned spaces the solar gain of July is undefined
/// too.
pub proof fn law_no_conditioned_space_no_gain(model: &Model, climate: ClimateData)
    requires
        forall|i: int| 0 <= i < model.spaces@.len() ==> !is_conditioned(model.spaces@[i].kind),
    ensures
        !(q_soljul_spec(model, climate) matches Ok(Some(_))),
{
    let spaces = model.spaces@;
    lemma_prefix_sum_zero(reference_terms(spaces), spaces.len() as int);
}

/// The transmission losses do not fall where the transmittance of one element
/// rises and everything else stays. So neither does the global heat-transfer
/// coefficient, under either methodology.
pub proof fn law_k_monotone_in_element(
    elements: Seq<Element>,
    bridges: Seq<ThermalBridge>,
    a_ref: nat,
    method: Methodology,
    i: int,
    u: u32,
)
    requires
        0 <= i < elements.len(),
        elements[i].u <= u,
    ensures
        ({
            let raised = elements.update(i, Element { u, ..elements[i] });
            &&& k_numerator(elements, bridges, method) <= k_numerator(raised, bridges, method)
            &&& a_ref > 0 ==> k_numerator(elements, bridges, method) / (a_ref * 1000) <= k_numerator(
                raised,
                bridges,
                method,
            ) / (a_ref * 1000)
            &&& forall|low: u64, high: u64|
                k_quotient(elements, bridges, a_ref, method) == Ok::<Option<u64>, IndicatorError>(
                    Some(low),
                ) && k_quotient(raised, bridges, a_ref, method) == Ok::<
                    Option<u64>,
                    IndicatorError,
                >(Some(high)) ==> low <= high
        }),
{
    let raised = elements.update(i, Element { u, ..elements[i] });
    let m = Measure::Transmission(method);
    let a = measures(elements, m);
    let b = measures(raised, m);
    assert forall|k: int| 0 <= k < elements.len() implies a[k] <= b[k] by {
        if k == i {
            let f = crate::envelope::boundary_factor(method, elements[i].bounds);
            let u0 = elements[i].u;
            let area = elements[i].area;
            assert(f * u0 * area <= f * u * area) by (nonlinear_arith)
                requires
                    u0 <= u,
                    f >= 0,
                    area >= 0,
            ;
        }
    }
    lemma_prefix_sum_monotone(a, b, elements.len() as int);
    if a_ref > 0 {
        lemma_div_is_ordered(
            k_numerator(elements, bridges, method) as int,
            k_numerator(raised, bridges, method) as int,
            (a_ref * 1000) as int,
        );
    }
}

/// The transmission losses do not fall where elements keep everything but
/// their transmittance, and no transmittance falls. So neither does the global
/// heat-transfer coefficient, under either methodology. This is the case where
/// one glass, frame or material of the model changes, and with it every element
/// that is made of it.
pub proof fn law_k_monotone_pointwise(
    lower: Seq<Element>,
    upper: Seq<Element>,
    bridges: Seq<ThermalBridge>,
    a_ref: nat,
    method: Methodology,
)
    requires
        lower.len() == upper.len(),
        forall|i: int|
            0 <= i < lower.len() ==> lower[i].u <= upper[i].u && upper[i] == (Element {
                u: upper[i].u,
                ..lower[i]
            }),
    ensures
        k_numerator(lower, bridges, method) <= k_numerator(upper, bridges, method),
        a_ref > 0 ==> k_numerator(lower, bridges, method) / (a_ref * 1000) <= k_numerator(
            upper,
            bridges,
            method,
        ) / (a_ref * 1000),
        forall|low: u64, high: u64|
            k_quotient(lower, bridges, a_ref, method) == Ok::<Option<u64>, IndicatorError>(
                Some(low),
            ) && k_quotient(upper, bridges, a_ref, method) == Ok::<Option<u64>, IndicatorError>(
                Some(high),
            ) ==> low <= high,
{
    let m = Measure::Transmission(method);
    let a = measures(lower, m);
    let b = measures(upper, m);
    assert forall|k: int| 0 <= k < lower.len() implies a[k] <= b[k] by {
        let f = crate::envelope::boundary_factor(method, lower[k].bounds);
        let u0 = lower[k].u;
        let u1 = upper[k].u;
        let area = lower[k].area;
        assert(f * u0 * area <= f * u1 * area) by (nonlinear_arith)
            requires
                u0 <= u1,
                f >= 0,
                area >= 0,
        ;
    }
    lemma_prefix_sum_monotone(a, b, lower.len() as int);
    if a_ref > 0 {
        lemma_div_is_ordered(
            k_numerator(lower, bridges, method) as int,
            k_numerator(upper, bridges, method) as int,
            (a_ref * 1000) as int,
        );
    }
}

/// The transmittance of a window does not fall where that of its glass or of
/// its frame rises.
pub proof fn law_glazing_u_monotone(
    glass_low: u32,
    glass_high: u32,
    frame_low: u32,
    frame_high: u32,
    frame_fraction: u32,
)
    requires
        glass_low <= glass_high,
        frame_low <= frame_high,
    ensures
        glazing_u(glass_low, frame_low, frame_fraction) <= glazing_u(
            glass_high,
            frame_high,
            frame_fraction,
        ),
{
    let f: int = if frame_fraction > 1000 {
        1000
    } else {
        frame_fraction as int
    };
    assert((1000 - f) * glass_low + f * frame_low <= (1000 - f) * glass_high + f * frame_high)
        by (nonlinear_arith)
        requires
            0 <= f <= 1000,
            glass_low <= glass_high,
            frame_low <= frame_high,
    ;
    lemma_div_is_ordered(
        (1000 - f) * glass_low + f * frame_low,
        (1000 - f) * glass_high + f * frame_high,
        1000,
    );
}

/// The transmission losses do not fall where the linear transmittance of one
/// thermal bridge rises and everything else stays. So neither does the global
/// heat-transfer coefficient, under either methodology.
pub proof fn law_k_monotone_in_bridge(
    elements: Seq<Element>,
    bridges: Seq<ThermalBridge>,
    a_ref: nat,
    method: Methodology,
    i: int,
    psi: u32,
)
    requires
        0 <= i < bridges.len(),
        bridges[i].psi <= psi,
    ensures
        ({
            let raised = bridges.update(i, ThermalBridge { psi, ..bridges[i] });
            &&& k_numerator(elements, bridges, method) <= k_numerator(elements, raised, method)
            &&& a_ref > 0 ==> k_numerator(elements, bridges, method) / (a_ref * 1000) <= k_numerator(
                elements,
                raised,
                method,
            ) / (a_ref * 1000)
            &&& forall|low: u64, high: u64|
                k_quotient(elements, bridges, a_ref, method) == Ok::<Option<u64>, IndicatorError>(
                    Some(low),
                ) && k_quotient(elements, raised, a_ref, method) == Ok::<
                    Option<u64>,
                    IndicatorError,
                >(Some(high)) ==> low <= high
        }),
{
    let raised = bridges.update(i, ThermalBridge { psi, ..bridges[i] });
    let a = bridge_terms(bridges);
    let b = bridge_terms(raised);
    assert forall|k: int| 0 <= k < bridges.len() implies a[k] <= b[k] by {
        if k == i {
            let len = bridges[i].length;
            let p0 = bridges[i].psi;
            assert(len * p0 <= len * psi) by (nonlinear_arith)
                requires
                    p0 <= psi,
                    len >= 0,
            ;
        }
    }
    lemma_prefix_sum_monotone(a, b, bridges.len() as int);
    if a_ref > 0 {
        lemma_div_is_ordered(
            k_numerator(elements, bridges, method) as int,
            k_numerator(elements, raised, method) as int,
            (a_ref * 1000) as int,
        );
    }
}

/// Where every window has an area, a solar factor or an obstruction factor of
/// zero, the windows gain nothing, and the solar gain of July is zero wherever
/// it is defined.
pub proof fn law_no_gain(gains: Seq<Gain>, a_ref: nat)
    requires
        forall|i: int|
            0 <= i < gains.len() ==> gains[i].area == 0 || gains[i].g == 0 || gains[i].fshobst == 0,
    ensures
        solar_sum(gains) == 0,
        a_ref > 0 && a_ref * 1_000_000_000_000 <= u128::MAX ==> q_soljul_of(gains, a_ref) == Ok::<
            Option<u64>,
            IndicatorError,
        >(Some(0)),
        forall|q: u64|
            q_soljul_of(gains, a_ref) == Ok::<Option<u64>, IndicatorError>(Some(q)) ==> q == 0,
{
    let terms = gain_terms(gains);
    assert forall|i: int| 0 <= i < gains.len() implies terms[i] == 0 by {
        let gain = gains[i];
        let r = gain.radiation as int;
        let a = gain.area as int;
        let g = gain.g as int;
        let s = crate::solar::glass_share(gain.frame_fraction) as int;
        let h = gain.shading as int;
        let o = gain.fshobst as int;
        assert(r * a * g * s * h * o == 0) by (nonlinear_arith)
            requires
                a == 0 || g == 0 || o == 0,
        ;
    }
    lemma_prefix_sum_zero(terms, gains.len() as int);
}

/// The same of a model: where every window has an area or an obstruction
/// factor of zero, or a glass whose solar factor is zero, the solar gain of
/// July is zero wherever it is defined.
pub proof fn law_no_gain_in_model(model: &Model, climate: ClimateData)
    requires
        gains_spec(model, climate) matches Ok(gains) && forall|i: int|
            0 <= i < model.windows@.len() ==> model.windows@[i].area == 0 || model.windows@[i].fshobst
                == 0 || gains[i].g == 0,
    ensures
        forall|q: u64|
            q_soljul_spec(model, climate) == Ok::<Option<u64>, IndicatorError>(Some(q)) ==> q == 0,
{
    let gains = gains_spec(model, climate)->Ok_0;
    let zone = crate::climate::ClimateZone::of_code(model.meta.climate@)->Some_0;
    let results = gain_results(model, climate, zone);
    lemma_collect_ok(results, results.len() as int);
    assert forall|i: int| 0 <= i < gains.len() implies gains[i].area == 0 || gains[i].g == 0
        || gains[i].fshobst == 0 by {
        assert(results[i] == Ok::<Gain, IndicatorError>(gains[i]));
    }
    law_no_gain(gains, reference_area(model.spaces@));
}

/// A survey that names only windows that the model does not hold leaves every
/// window as it was.
pub proof fn law_survey_of_strangers(before: &Model, survey: Seq<SurveyEntry>, after: &Model)
    requires
        merged(before, survey, after),
        forall|k: int|
            0 <= k < survey.len() ==> position(before.windows@, #[trigger] survey[k].window@) is None,
    ensures
        after.windows@ == before.windows@,
{
    assert forall|i: int| 0 <= i < before.windows@.len() implies after.windows@[i]
        == before.windows@[i] by {
        let w = before.windows@[i];
        lemma_position(survey, w.id@);
        if position(survey, w.id@) is Some {
            let k = position(survey, w.id@)->Some_0;
            lemma_position(before.windows@, survey[k].window@);
            assert(before.windows@[i].id@ == survey[k].window@);
        }
    }
    assert(after.windows@ =~= before.windows@);
}

/// An entity that is well formed by itself gives the validator no finding
/// about its numbers: none of zero area, of non-positive length or of a number
/// out of range, whatever the model around it.
pub proof fn law_valid_entities_are_in_range(
    model: &Model,
    space: Space,
    wall: Wall,
    window: Window,
    shade: Shade,
    bridge: ThermalBridge,
    wincons: WinCons,
    material: Material,
    glass: Glass,
    frame: Frame,
    settings: SpaceSysConditions,
)
    ensures
        space.valid() ==> !space.flagged(model, WarningKind::ZeroArea) && !space.flagged(
            model,
            WarningKind::OutOfRange,
        ),
        wall.valid() ==> !wall.flagged(model, WarningKind::ZeroArea) && !wall.flagged(
            model,
            WarningKind::OutOfRange,
        ),
        window.valid() ==> !window.flagged(model, WarningKind::ZeroArea) && !window.flagged(
            model,
            WarningKind::OutOfRange,
        ),
        shade.valid() ==> !shade.flagged(model, WarningKind::OutOfRange),
        bridge.valid() ==> !bridge.flagged(model, WarningKind::NonPositiveBridgeLength),
        wincons.valid() ==> !wincons.flagged(model, WarningKind::OutOfRange),
        material.valid() ==> !material.flagged(model, WarningKind::OutOfRange),
        glass.valid() ==> !glass.flagged(model, WarningKind::OutOfRange),
        frame.valid() ==> !frame.flagged(model, WarningKind::OutOfRange),
        settings.valid() ==> !settings.flagged(model, WarningKind::OutOfRange),
{
}

/// The validator warns of the climate zone exactly where the metadata are not
/// well formed.
pub proof fn law_valid_meta_has_a_zone(model: &Model)
    ensures
        model.meta.valid() <==> meta_findings(model, WarningKind::UnknownClimateZone).len() == 0,
{
}

/// Whether the validator finds no reference in the model that names no entity.
pub open spec fn references_resolve(model: &Model) -> bool {
    &&& group(model, WarningKind::DanglingConstruction).len() == 0
    &&& group(model, WarningKind::DanglingReference).len() == 0
}

/// Where the validator finds no dangling reference, no wall, window or
/// construction of the model is flagged for one.
proof fn lemma_nothing_dangles(model: &Model)
    requires
        references_resolve(model),
    ensures
        forall|i: int|
            0 <= i < model.walls@.len() ==> known(model.wallcons@, (#[trigger] model.walls@[i]).cons@),
        forall|i: int|
            0 <= i < model.windows@.len() ==> {
                let w = #[trigger] model.windows@[i];
                &&& known(model.wincons@, w.cons@)
                &&& known(model.walls@, w.wall@)
                &&& all_known(model.shades@, w.shades@)
            },
        forall|i: int|
            0 <= i < model.wallcons@.len() ==> all_known(
                model.materials@,
                (#[trigger] model.wallcons@[i]).layers@,
            ),
        forall|i: int|
            0 <= i < model.wincons@.len() ==> {
                let c = #[trigger] model.wincons@[i];
                known(model.glasses@, c.glass@) && known(model.frames@, c.frame@)
            },
{
    let c = WarningKind::DanglingConstruction;
    let r = WarningKind::DanglingReference;
    lemma_no_findings(model.walls@, model, c, model.walls@.len() as int);
    lemma_no_findings(model.windows@, model, c, model.windows@.len() as int);
    lemma_no_findings(model.windows@, model, r, model.windows@.len() as int);
    lemma_no_findings(model.wallcons@, model, r, model.wallcons@.len() as int);
    lemma_no_findings(model.wincons@, model, r, model.wincons@.len() as int);
}

/// What the validator warns of, the indicators fail for, and nothing else: in
/// a model in which the validator finds no dangling reference, no indicator
/// fails for one. The envelope is resolved, unless a construction is too thick
/// to say, and the windows are resolved for the solar gain, unless the climate
/// zone is unknown.
pub proof fn law_checked_references_resolve(model: &Model, climate: ClimateData)
    requires
        references_resolve(model),
    ensures
        envelope_spec(model) matches Err(e) ==> e == IndicatorError::Overflow,
        gains_spec(model, climate) matches Err(e) ==> e == IndicatorError::UnknownClimateZone,
{
    lemma_nothing_dangles(model);
    // every construction resolves
    assert forall|i: int| 0 <= i < model.wallcons@.len() implies layers_spec(
        model.materials@,
        #[trigger] model.wallcons@[i],
    ) is Ok by {
        let cons = model.wallcons@[i];
        let results = layer_results(model.materials@, cons);
        if collect(results) is Err {
            lemma_collect_error(results, results.len() as int);
            let k = choose|k: int|
                0 <= k < results.len() && #[trigger] results[k] == Err::<
                    crate::constructions::Layer,
                    IndicatorError,
                >(collect(results)->Err_0);
            assert(known(model.materials@, cons.layers@[k]@));
        }
    }
    assert forall|i: int| 0 <= i < model.wincons@.len() implies glazing_spec(
        model.glasses@,
        model.frames@,
        #[trigger] model.wincons@[i],
    ) is Ok by {
        let cons = model.wincons@[i];
        assert(known(model.glasses@, cons.glass@) && known(model.frames@, cons.frame@));
    }
    // so every wall and every window resolves, or is too thick
    let walls = wall_results(model);
    assert forall|i: int| 0 <= i < walls.len() implies (#[trigger] walls[i] matches Err(e) ==> e
        == IndicatorError::Overflow) by {
        let w = model.walls@[i];
        assert(known(model.wallcons@, w.cons@));
        lemma_position(model.wallcons@, w.cons@);
    }
    let windows = window_results(model);
    assert forall|i: int| 0 <= i < windows.len() implies (#[trigger] windows[i]) is Ok by {
        let w = model.windows@[i];
        assert(known(model.wincons@, w.cons@) && known(model.walls@, w.wall@));
        lemma_position(model.wincons@, w.cons@);
    }
    if collect(walls) is Err {
        lemma_collect_error(walls, walls.len() as int);
    } else if collect(windows) is Err {
        lemma_collect_error(windows, windows.len() as int);
    }
    // and every window resolves for the solar gain
    if let Some(zone) = crate::climate::ClimateZone::of_code(model.meta.climate@) {
        let gains = gain_results(model, climate, zone);
        assert forall|i: int| 0 <= i < gains.len() implies (#[trigger] gains[i]) is Ok by {
            let w = model.windows@[i];
            assert(known(model.wincons@, w.cons@) && all_known(model.shades@, w.shades@));
            lemma_position(model.wincons@, w.cons@);
            let shades = shade_results(model.shades@, w);
            if collect(shades) is Err {
                lemma_collect_error(shades, shades.len() as int);
                let k = choose|k: int|
                    0 <= k < shades.len() && #[trigger] shades[k] == Err::<u32, IndicatorError>(
                        collect(shades)->Err_0,
                    );
                assert(known(model.shades@, w.shades@[k]@));
            }
            assert(shading_spec(model.shades@, w) is Ok);
            assert(window_gain(model, climate, zone, w) is Ok);
        }
        if collect(gains) is Err {
            lemma_collect_error(gains, gains.len() as int);
        }
    }
}

} // verus!
