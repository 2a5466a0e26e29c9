//! Agreement of redundant sources that observe one physical quantity.
use crate::error::MotorError;
use vstd::prelude::*;
use vstd::std_specs::cmp::PartialEqSpec;

verus! {

/// Every source answered, and every answer equals the first.
pub open spec fn all_agree<T: PartialEq>(results: Seq<Result<T, MotorError>>) -> bool {
    &&& results.len() > 0
    &&& forall|i: int| 0 <= i < results.len() ==> (#[trigger] results[i]) is Ok
    &&& forall|i: int|
        1 <= i < results.len() ==> (#[trigger] results[i])->Ok_0.eq_spec(&results[0]->Ok_0)
}

/// The agreed value, or the incoherent failure where there is none.
pub open spec fn coherent_value<T: PartialEq>(results: Seq<Result<T, MotorError>>) -> Result<
    T,
    MotorError,
> {
    if all_agree(results) {
        Ok(results[0]->Ok_0)
    } else {
        Err(MotorError::Incoherent)
    }
}

/// No reading, no agreement.
pub proof fn lemma_empty_is_incoherent<T: PartialEq>(results: Seq<Result<T, MotorError>>)
    requires
        results.len() == 0,
    ensures
        coherent_value(results) == Err::<T, MotorError>(MotorError::Incoherent),
{
}

/// One source that failed makes the whole incoherent, whatever its error.
pub proof fn lemma_failure_is_incoherent<T: PartialEq>(
    results: Seq<Result<T, MotorError>>,
    i: int,
)
    requires
        0 <= i < results.len(),
        results[i] is Err,
    ensures
        coherent_value(results) == Err::<T, MotorError>(MotorError::Incoherent),
{
}

/// One reading that differs from the first makes the whole incoherent.
pub proof fn lemma_difference_is_incoherent<T: PartialEq>(
    results: Seq<Result<T, MotorError>>,
    i: int,
)
    requires
        1 <= i < results.len(),
        results[i] is Ok,
        results[0] is Ok,
        !results[i]->Ok_0.eq_spec(&results[0]->Ok_0),
    ensures
        coherent_value(results) == Err::<T, MotorError>(MotorError::Incoherent),
{
}

/// Readings that all succeeded and all equal the first give the first.
pub proof fn lemma_agreement_is_coherent<T: PartialEq>(results: Seq<Result<T, MotorError>>)
    requires
        results.len() > 0,
        forall|i: int| 0 <= i < results.len() ==> (#[trigger] results[i]) is Ok,
        forall|i: int|
            1 <= i < results.len() ==> (#[trigger] results[i])->Ok_0.eq_spec(&results[0]->Ok_0),
    ensures
        coherent_value(results) == Ok::<T, MotorError>(results[0]->Ok_0),
{
}

/// Reduces the readings in `results` to the one value they agree on.
///
/// Fails with [`MotorError::Incoherent`] when there is no reading, when a
/// source failed, or when two readings differ.
pub fn coherent_results<T: Copy + PartialEq>(results: &[Result<T, MotorError>]) -> (r: Result<
    T,
    MotorError,
>)
    ensures
        T::obeys_eq_spec() ==> r == coherent_value(results@),
        match r {
            Ok(v) => results@.len() > 0 && results@[0] == Ok::<T, MotorError>(v) && forall|i: int|
                0 <= i < results@.len() ==> (#[trigger] results@[i]) is Ok,
            Err(e) => e == MotorError::Incoherent,
        },
{
    if results.len() == 0 {
        return Err(MotorError::Incoherent);
    }
    let first = match &results[0] {
        Ok(v) => *v,
        Err(_) => {
            return Err(MotorError::Incoherent);
        },
    };
    let mut i: usize = 1;
    while i < results.len()
        invariant
            1 <= i <= results@.len(),
            results@[0] == Ok::<T, MotorError>(first),
            forall|j: int| 0 <= j < i ==> (#[trigger] results@[j]) is Ok,
            T::obeys_eq_spec() ==> forall|j: int|
                1 <= j < i ==> (#[trigger] results@[j])->Ok_0.eq_spec(&first),
        decreases results@.len() - i,
    {
        match &results[i] {
            Ok(x) => {
                if *x != first {
                    return Err(MotorError::Incoherent);
                }
            },
            Err(_) => {
                return Err(MotorError::Incoherent);
            },
        }
        i += 1;
    }
    Ok(first)
}

/// A collection of readings that can be reduced to the value they agree on.
pub trait CoherentResult<T: PartialEq>: Sized {
    /// The readings, in order.
    spec fn readings(self) -> Seq<Result<T, MotorError>>;

    /// The one value on which all readings agree; see [`coherent_results`].
    fn coherent(self) -> (r: Result<T, MotorError>)
        ensures
            T::obeys_eq_spec() ==> r == coherent_value(self.readings()),
            match r {
                Ok(v) => self.readings().len() > 0 && self.readings()[0] == Ok::<T, MotorError>(v)
                    && forall|i: int|
                    0 <= i < self.readings().len() ==> (#[trigger] self.readings()[i]) is Ok,
                Err(e) => e == MotorError::Incoherent,
            },
    ;
}

impl<T: Copy + PartialEq> CoherentResult<T> for Vec<Result<T, MotorError>> {
    open spec fn readings(self) -> Seq<Result<T, MotorError>> {
        self@
    }

    fn coherent(self) -> (r: Result<T, MotorError>) {
        coherent_results(self.as_slice())
    }
}

impl<T: Copy + PartialEq, const N: usize> CoherentResult<T> for [Result<T, MotorError>; N] {
    open spec fn readings(self) -> Seq<Result<T, MotorError>> {
        self@
    }

    fn coherent(self) -> (r: Result<T, MotorError>) {
        coherent_results(self.as_slice())
    }
}

} // verus!
