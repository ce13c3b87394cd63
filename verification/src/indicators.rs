//! The indicators of the envelope.
//!
//! Each indicator is a function of the model alone. None changes the model.
//! An indicator fails where a reference that it follows names no entity, and
//! where its exact value does not fit the integers of the machine; a quotient
//! whose divisor is zero is undefined, which is `None` and no failure.
//!
//! Two methodologies coexist. Where they differ, the indicator takes the
//! methodology as an argument, and a report carries both results side by side.

use vstd::prelude::*;
use vstd::arithmetic::overflow::CheckedU128;
use crate::climate::Orientation;
use crate::envelope::{
    bridge_sum, element_sum, envelope, envelope_spec, sum_bridges, sum_elements, Bucket, Element,
    Measure, Methodology,
};
use crate::model::{Model, Space, SpaceKind, ThermalBridge};
use crate::quantity::{
    checked_ratio, collect, collect_upto, fit, fit_u64, lemma_collect_sticky, prefix_sum, ratio,
    total, IndicatorError,
};

verus! {

/// A result under each of the two methodologies.
#[derive(Debug, Clone, PartialEq, Eq)]
pub struct Dual<T> {
    /// Under the earlier methodology.
    pub legacy: T,
    /// Under the methodology as revised in 2019.
    pub revised: T,
}

/// Whether a space of this kind is conditioned.
pub open spec fn is_conditioned(kind: Option<SpaceKind>) -> bool {
    kind == Some(SpaceKind::ConditionedHabitable) || kind == Some(
        SpaceKind::ConditionedNonHabitable,
    )
}

/// The net volume of a space, in thousandths of a m³, rounded down: area,
/// height and multiplier multiplied.
pub open spec fn net_volume(s: Space) -> nat {
    (s.area * s.height * s.multiplier / 1000) as nat
}

/// What each space adds to the reference area: its area times its multiplier
/// where it is conditioned and habitable, nothing otherwise.
pub open spec fn reference_terms(spaces: Seq<Space>) -> Seq<nat> {
    Seq::new(
        spaces.len(),
        |i: int|
            if spaces[i].kind == Some(SpaceKind::ConditionedHabitable) {
                (spaces[i].area * spaces[i].multiplier) as nat
            } else {
                0
            },
    )
}

/// What each space adds to the net volume: its net volume where it is
/// conditioned, nothing otherwise.
pub open spec fn volume_terms(spaces: Seq<Space>) -> Seq<nat> {
    Seq::new(
        spaces.len(),
        |i: int|
            if is_conditioned(spaces[i].kind) {
                net_volume(spaces[i])
            } else {
                0
            },
    )
}

/// The reference area, exact, in thousandths of a m².
pub open spec fn reference_area(spaces: Seq<Space>) -> nat {
    total(reference_terms(spaces))
}

/// The net volume of the conditioned spaces, exact, in thousandths of a m³.
pub open spec fn conditioned_volume(spaces: Seq<Space>) -> nat {
    total(volume_terms(spaces))
}

/// What `a_ref` returns.
pub open spec fn a_ref_spec(model: &Model) -> Result<u64, IndicatorError> {
    fit(reference_area(model.spaces@))
}

/// What `vol_env_net` returns.
pub open spec fn vol_env_net_spec(model: &Model) -> Result<u64, IndicatorError> {
    fit(conditioned_volume(model.spaces@))
}

/// The gross volume over resolved elements: the net volume and what the
/// opaque elements of the envelope take up, in thousandths of a m³. It
/// overflows where the latter, in millionths, does not fit 128 bits, or the sum
/// does not fit 64.
pub open spec fn gross_volume(elements: Seq<Element>, net: nat) -> Result<u64, IndicatorError> {
    if element_sum(elements, Measure::Shell) > u128::MAX {
        Err(IndicatorError::Overflow)
    } else {
        fit(net + element_sum(elements, Measure::Shell) / 1000)
    }
}

/// What `vol_env_gross` returns.
pub open spec fn vol_env_gross_spec(model: &Model) -> Result<u64, IndicatorError> {
    match envelope_spec(model) {
        Err(e) => Err(e),
        Ok(elements) => gross_volume(elements, conditioned_volume(model.spaces@)),
    }
}

/// The compactness over resolved elements: envelope area by net volume, in
/// thousandths of a 1/m.
pub open spec fn compactness_of(elements: Seq<Element>, net: nat) -> Result<
    Option<u64>,
    IndicatorError,
> {
    ratio(element_sum(elements, Measure::EnvelopeArea) * 1000, net)
}

/// What `compactness` returns.
pub open spec fn compactness_spec(model: &Model) -> Result<Option<u64>, IndicatorError> {
    match envelope_spec(model) {
        Err(e) => Err(e),
        Ok(elements) => compactness_of(elements, conditioned_volume(model.spaces@)),
    }
}

/// The compactness over resolved elements under a methodology. The earlier
/// one divides by the net volume, the revised one by the gross volume.
pub open spec fn compactness_by(elements: Seq<Element>, net: nat, method: Methodology) -> Result<
    Option<u64>,
    IndicatorError,
> {
    match method {
        Methodology::Legacy => compactness_of(elements, net),
        Methodology::Revised => match gross_volume(elements, net) {
            Err(e) => Err(e),
            Ok(gross) => compactness_of(elements, gross as nat),
        },
    }
}

/// What `compactness_for` returns.
pub open spec fn compactness_for_spec(model: &Model, method: Methodology) -> Result<
    Option<u64>,
    IndicatorError,
> {
    match envelope_spec(model) {
        Err(e) => Err(e),
        Ok(elements) => compactness_by(elements, conditioned_volume(model.spaces@), method),
    }
}

/// What the envelope loses by transmission, in billionths of a W/K: through
/// its elements, each with its weight, and through its thermal bridges.
pub open spec fn k_numerator(
    elements: Seq<Element>,
    bridges: Seq<ThermalBridge>,
    method: Methodology,
) -> nat {
    element_sum(elements, Measure::Transmission(method)) + 1000 * bridge_sum(bridges)
}

/// The global heat-transfer coefficient over resolved elements, in thousandths
/// of a W/m²K: the transmission losses by the reference area.
pub open spec fn k_quotient(
    elements: Seq<Element>,
    bridges: Seq<ThermalBridge>,
    a_ref: nat,
    method: Methodology,
) -> Result<Option<u64>, IndicatorError> {
    ratio(k_numerator(elements, bridges, method), a_ref * 1000)
}

/// What `k` returns.
pub open spec fn k_spec(model: &Model, method: Methodology) -> Result<Option<u64>, IndicatorError> {
    match envelope_spec(model) {
        Err(e) => Err(e),
        Ok(elements) => k_quotient(
            elements,
            model.thermal_bridges@,
            reference_area(model.spaces@),
            method,
        ),
    }
}

/// The infiltration indicator over resolved elements, in thousandths of a 1/h:
/// 0.629 times the leakage of the elements in contact with the outside air, by
/// the net volume.
pub open spec fn n50_of(elements: Seq<Element>, net: nat, method: Methodology) -> Result<
    Option<u64>,
    IndicatorError,
> {
    ratio(629 * element_sum(elements, Measure::Leakage(method)), net)
}

/// What `n50` returns.
pub open spec fn n50_spec(model: &Model, method: Methodology) -> Result<Option<u64>, IndicatorError> {
    match envelope_spec(model) {
        Err(e) => Err(e),
        Ok(elements) => n50_of(elements, conditioned_volume(model.spaces@), method),
    }
}

/// The heat that a change of air carries, in thousandths of a Wh/m³K per unit
/// of `n50`. The earlier methodology takes the rate at 50 Pa as it is; the
/// revised one takes a twentieth of it as the rate at normal pressure.
pub open spec fn air_factor(method: Methodology) -> nat {
    match method {
        Methodology::Legacy => 340,
        Methodology::Revised => 17,
    }
}

/// The specific heat-loss coefficient from its parts, in thousandths of a
/// W/m²K: `k`, and what the infiltration `n50` of the volume `net` carries, by
/// the reference area. It is undefined where the reference area is zero.
pub open spec fn c_o_of(k: u64, n50: u64, net: nat, a_ref: nat, method: Methodology) -> Result<
    Option<u64>,
    IndicatorError,
> {
    match ratio((air_factor(method) * n50 * net) as nat, a_ref * 1000) {
        Err(e) => Err(e),
        Ok(None) => Ok(None),
        Ok(Some(v)) => match fit((k + v) as nat) {
            Err(e) => Err(e),
            Ok(c) => Ok(Some(c)),
        },
    }
}

/// What `c_o` returns: undefined where `k` or `n50` is.
pub open spec fn c_o_spec(model: &Model, method: Methodology) -> Result<Option<u64>, IndicatorError> {
    match k_spec(model, method) {
        Err(e) => Err(e),
        Ok(None) => Ok(None),
        Ok(Some(k)) => match n50_spec(model, method) {
            Err(e) => Err(e),
            Ok(None) => Ok(None),
            Ok(Some(n)) => c_o_of(
                k,
                n,
                conditioned_volume(model.spaces@),
                reference_area(model.spaces@),
                method,
            ),
        },
    }
}

/// The mean transmittance of a group of elements, weighted by area, in
/// thousandths of a W/m²K. It is undefined where the group has no area.
pub open spec fn mean_u(elements: Seq<Element>, b: Bucket) -> Result<Option<u64>, IndicatorError> {
    ratio(element_sum(elements, Measure::Loss(b)), element_sum(elements, Measure::Area(b)))
}

/// The mean transmittance of the elements that face each orientation, in the
/// order of the enumeration.
pub open spec fn orientation_means(elements: Seq<Element>) -> Seq<
    Result<Option<u64>, IndicatorError>,
> {
    Seq::new(9, |o: int| mean_u(elements, Bucket::Facing(Orientation::at(o).unwrap())))
}

/// The transmittances of the envelope.
#[derive(Debug, Clone, PartialEq, Eq)]
pub struct UValues {
    /// Each element with its own transmittance: the walls, then the windows.
    pub elements: Vec<Element>,
    /// The mean of the opaque elements.
    pub opaque: Option<u64>,
    /// The mean of the windows.
    pub windows: Option<u64>,
    /// The mean of the elements that face each orientation, in the order of
    /// the enumeration.
    pub by_orientation: Vec<Option<u64>>,
}

/// Whether `r` is what `u_values` returns for the model. The first failure
/// counts: that of the envelope, then of the mean of the opaque elements, of
/// the windows, and of each orientation in turn.
pub open spec fn u_values_spec(model: &Model, r: Result<UValues, IndicatorError>) -> bool {
    match envelope_spec(model) {
        Err(e) => r == Err::<UValues, IndicatorError>(e),
        Ok(elements) => match mean_u(elements, Bucket::Opaque) {
            Err(e) => r == Err::<UValues, IndicatorError>(e),
            Ok(opaque) => match mean_u(elements, Bucket::Glazed) {
                Err(e) => r == Err::<UValues, IndicatorError>(e),
                Ok(windows) => match collect(orientation_means(elements)) {
                    Err(e) => r == Err::<UValues, IndicatorError>(e),
                    Ok(means) => {
                        &&& r matches Ok(u)
                        &&& u.elements@ == elements
                        &&& u.opaque == opaque
                        &&& u.windows == windows
                        &&& u.by_orientation@ == means
                    },
                },
            },
        },
    }
}

impl Space {
    /// The net volume of the space, exact, in thousandths of a m³.
    pub fn net_volume(&self) -> (r: u128)
        ensures
            r == net_volume(*self),
    {
        let a = self.area as u128;
        let h = self.height as u128;
        let m = self.multiplier as u128;
        assert(a * h <= 0xffff_ffff * 0xffff_ffff && a * h * m <= 0xffff_ffff * 0xffff_ffff
            * 0xffff_ffff) by (nonlinear_arith)
            requires
                a <= 0xffff_ffff,
                h <= 0xffff_ffff,
                m <= 0xffff_ffff,
        ;
        a * h * m / 1000
    }

    /// Whether the space is conditioned.
    pub fn conditioned(&self) -> (r: bool)
        ensures
            r == is_conditioned(self.kind),
    {
        match self.kind {
            Some(SpaceKind::ConditionedHabitable) => true,
            Some(SpaceKind::ConditionedNonHabitable) => true,
            _ => false,
        }
    }

    /// Whether the space is conditioned and habitable.
    pub fn habitable(&self) -> (r: bool)
        ensures
            r == (self.kind == Some(SpaceKind::ConditionedHabitable)),
    {
        match self.kind {
            Some(SpaceKind::ConditionedHabitable) => true,
            _ => false,
        }
    }
}

/// The reference area of the spaces, exact.
pub(crate) fn sum_reference_area(spaces: &Vec<Space>) -> (r: CheckedU128)
    ensures
        r@ == reference_area(spaces@),
{
    let ghost terms = reference_terms(spaces@);
    let mut acc = CheckedU128::new(0);
    let mut i: usize = 0;
    while i < spaces.len()
        invariant
            i <= spaces.len(),
            terms == reference_terms(spaces@),
            acc@ == prefix_sum(terms, i as int),
        decreases spaces.len() - i,
    {
        if spaces[i].habitable() {
            let t = CheckedU128::new(spaces[i].area as u128).mul_value(spaces[i].multiplier as u128);
            acc = acc.add_checked(&t);
        }
        i = i + 1;
    }
    acc
}

/// The net volume of the conditioned spaces, exact.
pub(crate) fn sum_conditioned_volume(spaces: &Vec<Space>) -> (r: CheckedU128)
    ensures
        r@ == conditioned_volume(spaces@),
{
    let ghost terms = volume_terms(spaces@);
    let mut acc = CheckedU128::new(0);
    let mut i: usize = 0;
    while i < spaces.len()
        invariant
            i <= spaces.len(),
            terms == volume_terms(spaces@),
            acc@ == prefix_sum(terms, i as int),
        decreases spaces.len() - i,
    {
        if spaces[i].conditioned() {
            acc = acc.add_value(spaces[i].net_volume());
        }
        i = i + 1;
    }
    acc
}

/// The reference area: the area of the conditioned and habitable spaces, each
/// taken as often as its multiplier says, in thousandths of a m². It is zero
/// where there is no such space.
pub fn a_ref(model: &Model) -> (r: Result<u64, IndicatorError>)
    ensures
        r == a_ref_spec(model),
{
    fit_u64(&sum_reference_area(&model.spaces))
}

/// The net volume of the envelope: the sum of the net volumes of the
/// conditioned spaces, in thousandths of a m³.
pub fn vol_env_net(model: &Model) -> (r: Result<u64, IndicatorError>)
    ensures
        r == vol_env_net_spec(model),
{
    fit_u64(&sum_conditioned_volume(&model.spaces))
}

/// The gross volume of the envelope: the net volume and the volume that the
/// constructions of its opaque elements take up, in thousandths of a m³.
pub fn vol_env_gross(model: &Model) -> (r: Result<u64, IndicatorError>)
    ensures
        r == vol_env_gross_spec(model),
{
    match envelope(model) {
        Err(e) => Err(e),
        Ok(elements) => {
            let net = sum_conditioned_volume(&model.spaces);
            let shell = sum_elements(&elements, Measure::Shell);
            match shell.to_option() {
                None => Err(IndicatorError::Overflow),
                Some(v) => fit_u64(&net.add_value(v / 1000)),
            }
        },
    }
}

/// The compactness: the area of the envelope (opaque and glazed, in contact
/// with the outside air or with the ground) by the net volume of the
/// conditioned spaces, in thousandths of a 1/m. It is undefined where that
/// volume is zero.
pub fn compactness(model: &Model) -> (r: Result<Option<u64>, IndicatorError>)
    ensures
        r == compactness_spec(model),
{
    match envelope(model) {
        Err(e) => Err(e),
        Ok(elements) => {
            let area = sum_elements(&elements, Measure::EnvelopeArea).mul_value(1000);
            let net = sum_conditioned_volume(&model.spaces);
            checked_ratio(&area, &net)
        },
    }
}

/// The compactness under a methodology, in thousandths of a 1/m: the area of
/// the envelope by the net volume under the earlier methodology, by the gross
/// volume under the revised one. It is undefined where that volume is zero.
pub fn compactness_for(model: &Model, method: Methodology) -> (r: Result<Option<u64>, IndicatorError>)
    ensures
        r == compactness_for_spec(model, method),
        method == Methodology::Legacy ==> r == compactness_spec(model),
{
    match envelope(model) {
        Err(e) => Err(e),
        Ok(elements) => {
            let area = sum_elements(&elements, Measure::EnvelopeArea).mul_value(1000);
            let net = sum_conditioned_volume(&model.spaces);
            match method {
                Methodology::Legacy => checked_ratio(&area, &net),
                Methodology::Revised => {
                    let shell = sum_elements(&elements, Measure::Shell);
                    match shell.to_option() {
                        None => Err(IndicatorError::Overflow),
                        Some(v) => match fit_u64(&net.add_value(v / 1000)) {
                            Err(e) => Err(e),
                            Ok(gross) => checked_ratio(&area, &CheckedU128::new(gross as u128)),
                        },
                    }
                },
            }
        },
    }
}

fn k_checked(
    elements: &Vec<Element>,
    bridges: &Vec<ThermalBridge>,
    a_ref: &CheckedU128,
    method: Methodology,
) -> (r: Result<Option<u64>, IndicatorError>)
    ensures
        r == k_quotient(elements@, bridges@, a_ref@, method),
{
    let through = sum_elements(elements, Measure::Transmission(method));
    let along = sum_bridges(bridges).mul_value(1000);
    let losses = through.add_checked(&along);
    let area = a_ref.mul_value(1000);
    checked_ratio(&losses, &area)
}

/// The global heat-transfer coefficient of resolved elements and thermal
/// bridges, for a reference area in thousandths of a m².
pub fn k_value(
    elements: &Vec<Element>,
    bridges: &Vec<ThermalBridge>,
    a_ref: u64,
    method: Methodology,
) -> (r: Result<Option<u64>, IndicatorError>)
    ensures
        r == k_quotient(elements@, bridges@, a_ref as nat, method),
{
    k_checked(elements, bridges, &CheckedU128::new(a_ref as u128), method)
}

/// The global heat-transfer coefficient under a methodology, in thousandths of
/// a W/m²K: what the elements of the envelope and the thermal bridges lose by
/// transmission, by the reference area. It is undefined where the reference
/// area is zero.
pub fn k(model: &Model, method: Methodology) -> (r: Result<Option<u64>, IndicatorError>)
    ensures
        r == k_spec(model, method),
{
    match envelope(model) {
        Err(e) => Err(e),
        Ok(elements) => {
            let a = sum_reference_area(&model.spaces);
            k_checked(&elements, &model.thermal_bridges, &a, method)
        },
    }
}

/// The infiltration indicator under a methodology, in thousandths of a 1/h.
/// It is undefined where the net volume is zero.
pub fn n50(model: &Model, method: Methodology) -> (r: Result<Option<u64>, IndicatorError>)
    ensures
        r == n50_spec(model, method),
{
    match envelope(model) {
        Err(e) => Err(e),
        Ok(elements) => {
            let leakage = CheckedU128::new(629).mul_checked(
                &sum_elements(&elements, Measure::Leakage(method)),
            );
            let net = sum_conditioned_volume(&model.spaces);
            checked_ratio(&leakage, &net)
        },
    }
}

/// The heat that a change of air carries, in thousandths of a Wh/m³K per unit of
/// `n50`.
pub fn air_factor_of(method: Methodology) -> (r: u32)
    ensures
        r == air_factor(method),
{
    match method {
        Methodology::Legacy => 340,
        Methodology::Revised => 17,
    }
}

fn c_o_checked(k: u64, n50: u64, net: &CheckedU128, a_ref: &CheckedU128, method: Methodology) -> (r:
    Result<Option<u64>, IndicatorError>)
    ensures
        r == c_o_of(k, n50, net@, a_ref@, method),
{
    let carried = CheckedU128::new(air_factor_of(method) as u128).mul_value(n50 as u128).mul_checked(
        net,
    );
    let area = a_ref.mul_value(1000);
    match checked_ratio(&carried, &area) {
        Err(e) => Err(e),
        Ok(None) => Ok(None),
        Ok(Some(v)) => match fit_u64(&CheckedU128::new(k as u128).add_value(v as u128)) {
            Err(e) => Err(e),
            Ok(c) => Ok(Some(c)),
        },
    }
}

/// The specific heat-loss coefficient under a methodology, in thousandths of a
/// W/m²K: the global heat-transfer coefficient and what the infiltration
/// carries, by the reference area. It is undefined where `k` or `n50` is.
pub fn c_o(model: &Model, method: Methodology) -> (r: Result<Option<u64>, IndicatorError>)
    ensures
        r == c_o_spec(model, method),
{
    match k(model, method) {
        Err(e) => Err(e),
        Ok(None) => Ok(None),
        Ok(Some(kv)) => match n50(model, method) {
            Err(e) => Err(e),
            Ok(None) => Ok(None),
            Ok(Some(nv)) => {
                let net = sum_conditioned_volume(&model.spaces);
                let a = sum_reference_area(&model.spaces);
                c_o_checked(kv, nv, &net, &a, method)
            },
        },
    }
}

/// The mean transmittance of a group of elements.
pub fn mean_u_value(elements: &Vec<Element>, b: Bucket) -> (r: Result<Option<u64>, IndicatorError>)
    ensures
        r == mean_u(elements@, b),
{
    let loss = sum_elements(elements, Measure::Loss(b));
    let area = sum_elements(elements, Measure::Area(b));
    checked_ratio(&loss, &area)
}

/// The transmittances of the envelope: each element with its own, and the
/// means, weighted by area, of the opaque elements, of the windows and of the
/// elements that face each orientation. Only elements in contact with the
/// outside air or with the ground enter a mean.
pub fn u_values(model: &Model) -> (r: Result<UValues, IndicatorError>)
    ensures
        u_values_spec(model, r),
{
    match envelope(model) {
        Err(e) => Err(e),
        Ok(elements) => match mean_u_value(&elements, Bucket::Opaque) {
            Err(e) => Err(e),
            Ok(opaque) => match mean_u_value(&elements, Bucket::Glazed) {
                Err(e) => Err(e),
                Ok(windows) => {
                    let ghost means = orientation_means(elements@);
                    let mut by_orientation: Vec<Option<u64>> = Vec::new();
                    let mut o: usize = 0;
                    while o < 9
                        invariant
                            o <= 9,
                            envelope_spec(model) == Ok::<Seq<Element>, IndicatorError>(elements@),
                            mean_u(elements@, Bucket::Opaque) == Ok::<Option<u64>, IndicatorError>(
                                opaque,
                            ),
                            mean_u(elements@, Bucket::Glazed) == Ok::<Option<u64>, IndicatorError>(
                                windows,
                            ),
                            means == orientation_means(elements@),
                            collect_upto(means, o as int) == Ok::<
                                Seq<Option<u64>>,
                                IndicatorError,
                            >(by_orientation@),
                        decreases 9 - o,
                    {
                        match Orientation::from_index(o) {
                            None => {},
                            Some(facing) => match mean_u_value(&elements, Bucket::Facing(facing)) {
                                Ok(m) => {
                                    by_orientation.push(m);
                                },
                                Err(e) => {
                                    proof {
                                        assert(collect_upto(means, o + 1) == Err::<
                                            Seq<Option<u64>>,
                                            IndicatorError,
                                        >(e));
                                        lemma_collect_sticky(means, o + 1, 9);
                                    }
                                    return Err(e);
                                },
                            },
                        }
                        o = o + 1;
                    }
                    Ok(UValues { elements, opaque, windows, by_orientation })
                },
            },
        },
    }
}

} // verus!
