//! The obstruction resolver: the reduction factor of each window for remote
//! obstructions, recomputed from the shades of the model or taken from a
//! survey.

use vstd::prelude::*;
use crate::climate::Orientation;
use crate::lookup::{find, position, Keyed};
use crate::model::{Model, Shade, ShadeKind, Window};
use crate::solar::{shade_factor, shade_factor_of};
use crate::validate::{check_all, findings, Inspect, Warning, WarningKind};

verus! {

/// Whether a shade is a remote obstacle in front of surfaces that face `o`.
pub open spec fn obstructs(s: Shade, o: Orientation) -> bool {
    s.kind == ShadeKind::Remote && s.orientation == o
}

/// The obstruction factor that the first `n` shades give to surfaces that face
/// `o`, in thousandths: each remote obstacle in that orientation lets through
/// its share of what the ones before it let through, rounded down.
pub open spec fn obstruction_upto(shades: Seq<Shade>, o: Orientation, n: int) -> nat
    decreases n,
{
    if n <= 0 {
        1000
    } else if obstructs(shades[n - 1], o) {
        (obstruction_upto(shades, o, n - 1) * shade_factor(shades[n - 1]) / 1000) as nat
    } else {
        obstruction_upto(shades, o, n - 1)
    }
}

/// The obstruction factor that the shades of a model give to surfaces that
/// face `o`. It is one thousand, no obstruction, where no remote obstacle
/// stands in that orientation.
pub open spec fn obstruction(shades: Seq<Shade>, o: Orientation) -> nat {
    obstruction_upto(shades, o, shades.len() as int)
}

/// A window with its obstruction factor recomputed.
pub open spec fn recomputed(shades: Seq<Shade>, w: Window) -> Window {
    Window { fshobst: obstruction(shades, w.orientation) as u32, ..w }
}

/// Whether two models differ in their windows at most.
pub open spec fn same_but_windows(a: &Model, b: &Model) -> bool {
    &&& a.meta == b.meta
    &&& a.spaces == b.spaces
    &&& a.walls == b.walls
    &&& a.shades == b.shades
    &&& a.thermal_bridges == b.thermal_bridges
    &&& a.wallcons == b.wallcons
    &&& a.wincons == b.wincons
    &&& a.materials == b.materials
    &&& a.glasses == b.glasses
    &&& a.frames == b.frames
    &&& a.loads == b.loads
    &&& a.sys_settings == b.sys_settings
}

/// Whether `after` is `before` with the obstruction factor of every window
/// recomputed, and nothing else changed.
pub open spec fn updated(before: &Model, after: &Model) -> bool {
    &&& same_but_windows(before, after)
    &&& after.windows@.len() == before.windows@.len()
    &&& forall|i: int|
        0 <= i < before.windows@.len() ==> after.windows@[i] == recomputed(
            before.shades@,
            #[trigger] before.windows@[i],
        )
}

/// The obstruction factor that the shades give to surfaces that face `o`.
pub fn obstruction_of(shades: &Vec<Shade>, o: Orientation) -> (r: u32)
    ensures
        r == obstruction(shades@, o),
        r <= 1000,
{
    let mut acc: u32 = 1000;
    let mut k: usize = 0;
    while k < shades.len()
        invariant
            k <= shades.len(),
            acc == obstruction_upto(shades@, o, k as int),
            acc <= 1000,
        decreases shades.len() - k,
    {
        let s = &shades[k];
        let remote = match s.kind {
            ShadeKind::Remote => true,
            _ => false,
        };
        if remote && s.orientation == o {
            let f = shade_factor_of(s);
            assert(acc * f <= 1_000_000) by (nonlinear_arith)
                requires
                    acc <= 1000,
                    f <= 1000,
            ;
            acc = acc * f / 1000;
        }
        k = k + 1;
    }
    acc
}

/// Recomputes the obstruction factor of every window from the shades of the
/// model. A factor that a window had before is overwritten; nothing else in
/// the model changes. The new factor of a window depends on the shades and on
/// the orientation of the window alone, so a second update changes nothing.
pub fn update_fshobst(model: &mut Model)
    ensures
        updated(old(model), final(model)),
{
    let mut i: usize = 0;
    while i < model.windows.len()
        invariant
            i <= model.windows.len(),
            same_but_windows(old(model), model),
            model.windows@.len() == old(model).windows@.len(),
            forall|j: int|
                0 <= j < i ==> model.windows@[j] == recomputed(
                    old(model).shades@,
                    #[trigger] old(model).windows@[j],
                ),
            forall|j: int|
                i <= j < model.windows@.len() ==> model.windows@[j] == old(model).windows@[j],
        decreases model.windows.len() - i,
    {
        let f = obstruction_of(&model.shades, model.windows[i].orientation);
        model.windows[i].fshobst = f;
        i = i + 1;
    }
}

/// An entry of an obstruction survey: a window and the obstruction factor that
/// was found for it, in thousandths.
#[derive(Debug, Clone, PartialEq, Eq)]
pub struct SurveyEntry {
    /// Identifier of the window.
    pub window: String,
    /// The obstruction factor, in thousandths.
    pub fshobst: u32,
}

impl Keyed for SurveyEntry {
    open spec fn ident(&self) -> String {
        self.window
    }

    fn id(&self) -> (r: &String) {
        &self.window
    }
}

impl Inspect for SurveyEntry {
    open spec fn flagged(&self, model: &Model, kind: WarningKind) -> bool {
        kind == WarningKind::UnknownSurveyWindow && position(model.windows@, self.window@) is None
    }

    fn is_flagged(&self, model: &Model, kind: WarningKind) -> (r: bool) {
        match kind {
            WarningKind::UnknownSurveyWindow => find(&model.windows, &self.window).is_none(),
            _ => false,
        }
    }
}

/// The factor that an entry gives: its own, and one where that is above one.
pub open spec fn survey_factor(entry: SurveyEntry) -> u32 {
    if entry.fshobst > 1000 {
        1000
    } else {
        entry.fshobst
    }
}

/// A window after a survey: with the factor of the first entry that names it,
/// and as it was where no entry does.
pub open spec fn surveyed(survey: Seq<SurveyEntry>, w: Window) -> Window {
    match position(survey, w.id@) {
        Some(k) => Window { fshobst: survey_factor(survey[k]), ..w },
        None => w,
    }
}

/// Whether `after` is `before` with the survey merged into its windows, and
/// nothing else changed.
pub open spec fn merged(before: &Model, survey: Seq<SurveyEntry>, after: &Model) -> bool {
    &&& same_but_windows(before, after)
    &&& after.windows@.len() == before.windows@.len()
    &&& forall|i: int|
        0 <= i < before.windows@.len() ==> after.windows@[i] == surveyed(
            survey,
            #[trigger] before.windows@[i],
        )
}

/// Merges an obstruction survey into the model. Each window that the survey
/// names takes the factor of the first entry that names it; the other windows
/// keep theirs. An entry that names no window of the model is left out and
/// gives a warning, in the order of the survey. The merge never fails.
pub fn merge_fshobst(model: &mut Model, survey: &Vec<SurveyEntry>) -> (warnings: Vec<Warning>)
    ensures
        merged(old(model), survey@, final(model)),
        warnings@ == findings(survey@, old(model), WarningKind::UnknownSurveyWindow),
{
    let mut warnings: Vec<Warning> = Vec::new();
    check_all(survey, model, WarningKind::UnknownSurveyWindow, &mut warnings);
    let mut i: usize = 0;
    while i < model.windows.len()
        invariant
            i <= model.windows.len(),
            same_but_windows(old(model), model),
            model.windows@.len() == old(model).windows@.len(),
            forall|j: int|
                0 <= j < i ==> model.windows@[j] == surveyed(
                    survey@,
                    #[trigger] old(model).windows@[j],
                ),
            forall|j: int|
                i <= j < model.windows@.len() ==> model.windows@[j] == old(model).windows@[j],
        decreases model.windows.len() - i,
    {
        match find(survey, &model.windows[i].id) {
            Some(k) => {
                let f = survey[k].fshobst;
                model.windows[i].fshobst = if f > 1000 {
                    1000
                } else {
                    f
                };
            },
            None => {},
        }
        i = i + 1;
    }
    warnings
}

} // verus!
