//! The indicator report: every indicator of a model and the findings of the
//! validator, taken at one moment.

use vstd::prelude::*;
use crate::climate::ClimateData;
use crate::envelope::Methodology;
use crate::indicators::{
    a_ref, a_ref_spec, c_o, c_o_spec, compactness, compactness_spec, k, k_spec, n50, n50_spec,
    u_values, u_values_spec, vol_env_gross, vol_env_gross_spec, vol_env_net, vol_env_net_spec, Dual,
    UValues,
};
use crate::model::Model;
use crate::quantity::IndicatorError;
use crate::solar::{q_soljul, q_soljul_spec};
use crate::validate::{check_model, check_spec, Warning};

verus! {

/// The indicators of a model. Each stands by itself: one that failed says why
/// and leaves the others as they are. Where the methodologies differ, both
/// results are there.
#[derive(Debug, PartialEq, Eq)]
pub struct IndicatorReport {
    /// Reference area, in thousandths of a m².
    pub area_ref: Result<u64, IndicatorError>,
    /// Compactness, in thousandths of a 1/m.
    pub compactness: Result<Option<u64>, IndicatorError>,
    /// Global heat-transfer coefficient, in thousandths of a W/m²K.
    pub k: Dual<Result<Option<u64>, IndicatorError>>,
    /// Transmittances of the elements and their means.
    pub u_values: Result<UValues, IndicatorError>,
    /// Solar gain of July, in thousandths of a kWh/m².
    pub q_soljul: Result<Option<u64>, IndicatorError>,
    /// Infiltration indicator, in thousandths of a 1/h.
    pub n50: Dual<Result<Option<u64>, IndicatorError>>,
    /// Specific heat-loss coefficient, in thousandths of a W/m²K.
    pub c_o: Dual<Result<Option<u64>, IndicatorError>>,
    /// Net volume of the envelope, in thousandths of a m³.
    pub vol_env_net: Result<u64, IndicatorError>,
    /// Gross volume of the envelope, in thousandths of a m³.
    pub vol_env_gross: Result<u64, IndicatorError>,
    /// The findings of the validator.
    pub warnings: Vec<Warning>,
}

/// Whether a report is that of the model under the climate data.
pub open spec fn reports(report: &IndicatorReport, model: &Model, climate: ClimateData) -> bool {
    &&& report.area_ref == a_ref_spec(model)
    &&& report.compactness == compactness_spec(model)
    &&& report.k.legacy == k_spec(model, Methodology::Legacy)
    &&& report.k.revised == k_spec(model, Methodology::Revised)
    &&& u_values_spec(model, report.u_values)
    &&& report.q_soljul == q_soljul_spec(model, climate)
    &&& report.n50.legacy == n50_spec(model, Methodology::Legacy)
    &&& report.n50.revised == n50_spec(model, Methodology::Revised)
    &&& report.c_o.legacy == c_o_spec(model, Methodology::Legacy)
    &&& report.c_o.revised == c_o_spec(model, Methodology::Revised)
    &&& report.vol_env_net == vol_env_net_spec(model)
    &&& report.vol_env_gross == vol_env_gross_spec(model)
    &&& report.warnings@ == check_spec(model)
}

/// Computes every indicator of the model and validates it. The model is not
/// changed, and the report is always returned.
pub fn energy_indicators(model: &Model, climate: &ClimateData) -> (report: IndicatorReport)
    ensures
        reports(&report, model, *climate),
{
    IndicatorReport {
        area_ref: a_ref(model),
        compactness: compactness(model),
        k: Dual { legacy: k(model, Methodology::Legacy), revised: k(model, Methodology::Revised) },
        u_values: u_values(model),
        q_soljul: q_soljul(model, climate),
        n50: Dual {
            legacy: n50(model, Methodology::Legacy),
            revised: n50(model, Methodology::Revised),
        },
        c_o: Dual {
            legacy: c_o(model, Methodology::Legacy),
            revised: c_o(model, Methodology::Revised),
        },
        vol_env_net: vol_env_net(model),
        vol_env_gross: vol_env_gross(model),
        warnings: check_model(model),
    }
}

} // verus!
