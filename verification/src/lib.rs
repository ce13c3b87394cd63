//! Energy-performance indicators of a building envelope.
//!
//! A building is described by a [`model::Model`]: spaces, opaque and glazed
//! envelope elements, constructions, thermal bridges and shades, which refer to
//! one another by identifier. From such a model and a table of solar radiation
//! ([`climate::ClimateData`]) the crate computes the reference area, the
//! compactness, the global heat-transfer coefficient, U-value summaries, the
//! July solar gain, the infiltration indicator and the envelope volumes, and it
//! lists what is inconsistent in the model ([`validate`]). A model is written
//! as a text and read back by [`storage`].
//!
//! Where two methodologies coexist, an indicator takes the methodology as an
//! argument, and a report ([`report`]) carries both results.
//!
//! Every real quantity is a fixed-point integer in thousandths of its unit: an
//! area of 12.5 m² is `12_500`, a transmittance of 0.3 W/m²K is `300`, a factor
//! of 1 is `1_000`.

use vstd::prelude::*;

pub mod climate;
pub mod constructions;
pub mod decimal;
pub mod envelope;
pub mod indicators;
pub mod laws;
pub mod lines;
pub mod logging;
pub mod lookup;
pub mod model;
pub mod obstruction;
pub mod quantity;
pub mod records;
pub mod report;
pub mod solar;
pub mod storage;
pub mod stored;
pub mod text;
pub mod validate;

verus! {

/// The text that `get_version` returns.
pub open spec fn version_text() -> Seq<char> {
    "0.1.0"@
}

/// The version of this library.
pub fn get_version() -> (r: String)
    ensures
        r@ == version_text(),
{
    "0.1.0".to_owned()
}

} // verus!
