//! Sums, quotients and failures of the indicator computations.
//!
//! The exact value of an indicator is a natural number, stated over the
//! sequences of the model. The functions of the crate compute it in 128 bits
//! and hand it out in 64: where the exact value does not fit, they report
//! `IndicatorError::Overflow` and never a wrapped number.

use vstd::prelude::*;
use vstd::arithmetic::overflow::CheckedU128;

verus! {

/// The kinds of reference between entities that an indicator follows.
#[derive(Debug, Clone, Copy, PartialEq, Eq, Structural)]
pub enum Reference {
    /// From a wall to its construction.
    WallConstruction,
    /// From a window to its construction.
    WindowConstruction,
    /// From a wall construction to the material of a layer.
    Material,
    /// From a window construction to its glass.
    Glass,
    /// From a window construction to its frame.
    Frame,
    /// From a window to the wall that holds it.
    HostWall,
    /// From a window to a shading device.
    Shade,
}

/// Why an indicator could not be computed.
#[derive(Debug, Clone, PartialEq, Eq)]
pub enum IndicatorError {
    /// The climate zone of the building is not one of the enumeration.
    UnknownClimateZone,
    /// A reference names no entity. `owner` is the identifier of the entity
    /// that holds the reference.
    Dangling { reference: Reference, owner: String },
    /// The exact value does not fit the integers of the machine.
    Overflow,
}

/// The sum of the first `n` terms.
pub open spec fn prefix_sum(terms: Seq<nat>, n: int) -> nat
    decreases n,
{
    if n <= 0 {
        0
    } else {
        prefix_sum(terms, n - 1) + terms[n - 1]
    }
}

/// The sum of all terms.
pub open spec fn total(terms: Seq<nat>) -> nat {
    prefix_sum(terms, terms.len() as int)
}

/// The values of the first `n` results, or the first error among them.
pub open spec fn collect_upto<T, E>(items: Seq<Result<T, E>>, n: int) -> Result<Seq<T>, E>
    decreases n,
{
    if n <= 0 {
        Ok(Seq::empty())
    } else {
        match collect_upto(items, n - 1) {
            Err(e) => Err(e),
            Ok(s) => match items[n - 1] {
                Err(e) => Err(e),
                Ok(v) => Ok(s.push(v)),
            },
        }
    }
}

/// The values of all results, or the first error among them.
pub open spec fn collect<T, E>(items: Seq<Result<T, E>>) -> Result<Seq<T>, E> {
    collect_upto(items, items.len() as int)
}

/// An error among the first results is the error of every longer prefix.
pub proof fn lemma_collect_sticky<T, E>(items: Seq<Result<T, E>>, i: int, n: int)
    requires
        i <= n,
        collect_upto(items, i) is Err,
    ensures
        collect_upto(items, n) == collect_upto(items, i),
    decreases n - i,
{
    if i < n {
        lemma_collect_sticky(items, i, n - 1);
    }
}

/// Where the first `n` results are collected without error, each value is that
/// of the result at its position.
pub proof fn lemma_collect_ok<T, E>(items: Seq<Result<T, E>>, n: int)
    requires
        0 <= n <= items.len(),
        collect_upto(items, n) is Ok,
    ensures
        collect_upto(items, n)->Ok_0.len() == n,
        forall|k: int| 0 <= k < n ==> items[k] == Ok::<T, E>(#[trigger] collect_upto(items, n)->Ok_0[k]),
    decreases n,
{
    if n > 0 {
        lemma_collect_ok(items, n - 1);
    }
}

/// The error of a collection is that of one of the results.
pub proof fn lemma_collect_error<T, E>(items: Seq<Result<T, E>>, n: int)
    requires
        0 <= n <= items.len(),
        collect_upto(items, n) is Err,
    ensures
        exists|k: int| 0 <= k < n && #[trigger] items[k] == Err::<T, E>(collect_upto(items, n)->Err_0),
    decreases n,
{
    if n > 0 {
        if collect_upto(items, n - 1) is Err {
            lemma_collect_error(items, n - 1);
        } else {
            assert(items[n - 1] == Err::<T, E>(collect_upto(items, n)->Err_0));
        }
    }
}

/// Results without error are collected as their values.
pub proof fn lemma_collect_all<T, E>(items: Seq<Result<T, E>>, values: Seq<T>, n: int)
    requires
        0 <= n <= items.len(),
        n <= values.len(),
        forall|k: int| 0 <= k < n ==> items[k] == Ok::<T, E>(values[k]),
    ensures
        collect_upto(items, n) == Ok::<Seq<T>, E>(values.take(n)),
    decreases n,
{
    if n > 0 {
        lemma_collect_all(items, values, n - 1);
        assert(values.take(n - 1).push(values[n - 1]) =~= values.take(n));
    } else {
        assert(values.take(0) =~= Seq::<T>::empty());
    }
}

/// A sum does not fall where no term falls.
pub proof fn lemma_prefix_sum_monotone(a: Seq<nat>, b: Seq<nat>, n: int)
    requires
        n <= a.len(),
        n <= b.len(),
        forall|k: int| 0 <= k < n ==> a[k] <= b[k],
    ensures
        prefix_sum(a, n) <= prefix_sum(b, n),
    decreases n,
{
    if n > 0 {
        lemma_prefix_sum_monotone(a, b, n - 1);
    }
}

/// A sum of zeros is zero.
pub proof fn lemma_prefix_sum_zero(a: Seq<nat>, n: int)
    requires
        n <= a.len(),
        forall|k: int| 0 <= k < n ==> a[k] == 0,
    ensures
        prefix_sum(a, n) == 0,
    decreases n,
{
    if n > 0 {
        lemma_prefix_sum_zero(a, n - 1);
    }
}

/// The exact value `x` as a 64-bit result.
pub open spec fn fit(x: nat) -> Result<u64, IndicatorError> {
    if x <= u64::MAX {
        Ok(x as u64)
    } else {
        Err(IndicatorError::Overflow)
    }
}

/// The quotient `n / d`, rounded down, as a 64-bit result. It is undefined
/// (`None`) where `d` is zero. It overflows where `n` or `d` does not fit 128
/// bits or the quotient does not fit 64.
pub open spec fn ratio(n: nat, d: nat) -> Result<Option<u64>, IndicatorError> {
    if d == 0 {
        Ok(None)
    } else if n > u128::MAX || d > u128::MAX || n / d > u64::MAX {
        Err(IndicatorError::Overflow)
    } else {
        Ok(Some((n / d) as u64))
    }
}

/// Hands out an exact value in 64 bits.
pub(crate) fn fit_u64(x: &CheckedU128) -> (r: Result<u64, IndicatorError>)
    ensures
        r == fit(x@),
{
    match x.to_option() {
        None => Err(IndicatorError::Overflow),
        Some(v) => if v <= u64::MAX as u128 {
            Ok(v as u64)
        } else {
            Err(IndicatorError::Overflow)
        },
    }
}

/// Divides two exact values.
pub(crate) fn checked_ratio(n: &CheckedU128, d: &CheckedU128) -> (r: Result<Option<u64>, IndicatorError>)
    ensures
        r == ratio(n@, d@),
{
    match d.to_option() {
        None => Err(IndicatorError::Overflow),
        Some(dv) => {
            if dv == 0 {
                Ok(None)
            } else {
                match n.to_option() {
                    None => Err(IndicatorError::Overflow),
                    Some(nv) => {
                        let q: u128 = nv / dv;
                        if q <= u64::MAX as u128 {
                            Ok(Some(q as u64))
                        } else {
                            Err(IndicatorError::Overflow)
                        }
                    },
                }
            }
        },
    }
}

} // verus!
