//! The static configuration capability: declare, validate and tune an
//! indicator's parameters, then turn them into streaming state.
//!
//! As with instances, the capability is split into a mathematical half,
//! [`ConfigModel`], and an executable half, [`IndicatorConfig`], pinned to
//! it.  The batch convenience `over` is specified by [`spec_over`]: an empty
//! input succeeds immediately with an empty output and never initialises
//! anything; otherwise the first candle seeds an instance, which is then run
//! over the *entire* input, the first candle included again.

use vstd::prelude::*;

use crate::error::Error;
use crate::instance::lemma_run_results_arity;
use crate::instance::lemma_run_results_index;
use crate::instance::lemma_run_results_len;
use crate::instance::run_results;
use crate::instance::run_state;
use crate::instance::IndicatorInstance;
use crate::instance::InstanceModel;
use crate::result::has_arity;
use crate::result::IndicatorResult;
use crate::result::IndicatorResultView;

verus! {

/// The mathematical half of the configuration capability.
pub trait ConfigModel<T>: Sized + View {
    /// The streaming state this configuration builds.
    type Instance: InstanceModel<T>;

    /// Holds when the parameter set is acceptable: `init` may only succeed
    /// from a valid configuration.
    spec fn spec_valid(v: Self::V) -> bool;

    /// The declared output arity: count of raw values, count of signals.
    spec fn spec_size(v: Self::V) -> (u8, u8);

    /// The indicator's name.
    spec fn spec_name(v: Self::V) -> Seq<char>;

    /// What `init` builds from this configuration and a seed candle: the
    /// initial instance state, or the error raised.
    spec fn spec_init(v: Self::V, seed: T) -> Result<<Self::Instance as View>::V, Error>;

    /// What `set` turns this configuration into for a given parameter name
    /// and string-encoded value: the updated configuration, or the error
    /// raised (in which case the configuration is left unchanged).
    spec fn spec_set(v: Self::V, name: Seq<char>, value: Seq<char>) -> Result<Self::V, Error>;

    /// Every implementor owes proof that an invalid configuration never
    /// initialises (it fails with [`Error::InvalidParameter`] for every seed)
    /// and that a built instance declares exactly the configuration's arity
    /// and name.
    proof fn lemma_init_model(v: Self::V, seed: T)
        ensures
            !Self::spec_valid(v) ==> Self::spec_init(v, seed) == Err::<
                <Self::Instance as View>::V,
                Error,
            >(Error::InvalidParameter),
            Self::spec_init(v, seed) matches Ok(sv) ==> {
                &&& <Self::Instance as InstanceModel<T>>::spec_size(sv) == Self::spec_size(v)
                &&& <Self::Instance as InstanceModel<T>>::spec_name(sv) == Self::spec_name(v)
            },
    ;
}

/// What the batch convenience `over` returns, as a function of the
/// configuration's model: an empty input yields an empty output with no
/// initialisation at all; otherwise the first candle seeds an instance and
/// the whole input is run through it, first candle included again, so a
/// successful run yields exactly one payload per input candle.
pub open spec fn spec_over<T, C: ConfigModel<T>>(v: C::V, inputs: Seq<T>) -> Result<
    Seq<IndicatorResultView>,
    Error,
> {
    if inputs.len() == 0 {
        Ok(Seq::empty())
    } else {
        match C::spec_init(v, inputs[0]) {
            Ok(sv) => Ok(run_results::<T, C::Instance>(sv, inputs)),
            Err(e) => Err(e),
        }
    }
}

/// The executable half of the configuration capability.
///
/// A configuration is created and tuned by the host, validated, then
/// consumed exactly once by `init`; the duplication demanded by
/// [`duplicate`](Self::duplicate) is what lets the type-erased adapter layer
/// borrow a configuration and still feed the consuming `init`.
pub trait IndicatorConfig<T>: ConfigModel<T> where Self::Instance: IndicatorInstance<T> {
    /// Pure parameter validation; never raises, may be called any number of
    /// times.
    fn validate(&self) -> (valid: bool)
        ensures
            valid == Self::spec_valid(self@),
    ;

    /// Sets one named parameter from a string-encoded value.  Parses and
    /// validates before mutating: on failure the configuration is left
    /// exactly as it was.
    fn set(&mut self, name: &str, value: String) -> (outcome: Result<(), Error>)
        ensures
            match Self::spec_set((*old(self))@, name@, value@) {
                Ok(updated) => outcome == Ok::<(), Error>(()) && (*final(self))@ == updated,
                Err(e) => outcome == Err::<(), Error>(e) && (*final(self))@ == (*old(self))@,
            },
    ;

    /// Count of raw values and count of signals every built instance emits
    /// per candle.
    fn size(&self) -> (s: (u8, u8))
        ensures
            s == Self::spec_size(self@),
    ;

    /// The indicator's name.
    fn name(&self) -> (n: &'static str)
        ensures
            n@ == Self::spec_name(self@),
    ;

    /// An observably identical copy.  Both the batch `over` below and the
    /// type-erased adapter duplicate the configuration rather than alias it.
    fn duplicate(&self) -> (copy: Self)
        ensures
            copy@ == self@,
    ;

    /// Consumes the configuration and the first known candle to build
    /// initial streaming state.
    fn init(self, initial_value: &T) -> (instance: Result<Self::Instance, Error>)
        ensures
            match instance {
                Ok(inst) => Self::spec_init(self@, *initial_value) == Ok::<
                    <Self::Instance as View>::V,
                    Error,
                >(inst@),
                Err(e) => Self::spec_init(self@, *initial_value) == Err::<
                    <Self::Instance as View>::V,
                    Error,
                >(e),
            },
    ;

    /// Evaluates the configuration over a sequence of candles and returns
    /// one payload per candle.  An empty input returns an empty output
    /// immediately, without calling `init`; any `init` error is propagated
    /// unchanged, with no partial results.
    fn over(self, inputs: &Vec<T>) -> (results: Result<Vec<IndicatorResult>, Error>)
        ensures
            match results {
                Ok(payloads) => spec_over::<T, Self>(self@, inputs@) == Ok::<
                    Seq<IndicatorResultView>,
                    Error,
                >(payloads.deep_view()),
                Err(e) => spec_over::<T, Self>(self@, inputs@) == Err::<
                    Seq<IndicatorResultView>,
                    Error,
                >(e),
            },
    {
        if inputs.len() == 0 {
            let empty: Vec<IndicatorResult> = Vec::new();
            proof {
                assert(empty.deep_view() =~= Seq::<IndicatorResultView>::empty());
            }
            return Ok(empty);
        }
        let mut state = match self.init(&inputs[0]) {
            Ok(state) => state,
            Err(e) => {
                return Err(e);
            },
        };
        let results = state.over(inputs);
        Ok(results)
    }
}

/// An invalid configuration never initialises: for *every* candidate seed,
/// `init` fails with [`Error::InvalidParameter`].
pub proof fn lemma_invalid_never_initializes<T, C: ConfigModel<T>>(v: C::V, seed: T)
    requires
        !C::spec_valid(v),
    ensures
        C::spec_init(v, seed) == Err::<<C::Instance as View>::V, Error>(Error::InvalidParameter),
{
    C::lemma_init_model(v, seed);
}

/// An invalid configuration fails every non-empty batch run the same way.
pub proof fn lemma_invalid_never_evaluates<T, C: ConfigModel<T>>(v: C::V, inputs: Seq<T>)
    requires
        !C::spec_valid(v),
        inputs.len() > 0,
    ensures
        spec_over::<T, C>(v, inputs) == Err::<Seq<IndicatorResultView>, Error>(
            Error::InvalidParameter,
        ),
{
    C::lemma_init_model(v, inputs[0]);
}

/// A batch run over no candles succeeds with no payloads, for every
/// configuration whatever — nothing is ever initialised, so not even an
/// invalid configuration can fail here.
pub proof fn lemma_over_empty<T, C: ConfigModel<T>>(v: C::V)
    ensures
        spec_over::<T, C>(v, Seq::<T>::empty()) == Ok::<Seq<IndicatorResultView>, Error>(
            Seq::<IndicatorResultView>::empty(),
        ),
{
}

/// Batch evaluation is repeated stepwise evaluation: when the first candle
/// seeds an instance successfully, the batch result holds exactly one
/// payload per input candle, and the `i`-th payload is what a lone `next`
/// call would emit after stepping the seeded state over the first `i`
/// candles.
pub proof fn lemma_over_is_stepwise<T, C: ConfigModel<T>>(
    v: C::V,
    inputs: Seq<T>,
    sv: <C::Instance as View>::V,
)
    requires
        inputs.len() > 0,
        C::spec_init(v, inputs[0]) == Ok::<<C::Instance as View>::V, Error>(sv),
    ensures
        spec_over::<T, C>(v, inputs) == Ok::<Seq<IndicatorResultView>, Error>(
            run_results::<T, C::Instance>(sv, inputs),
        ),
        run_results::<T, C::Instance>(sv, inputs).len() == inputs.len(),
        forall|i: int|
            0 <= i < inputs.len() ==> #[trigger] run_results::<T, C::Instance>(sv, inputs)[i]
                == <C::Instance as InstanceModel<T>>::spec_out(
                run_state::<T, C::Instance>(sv, inputs.take(i)),
                inputs[i],
            ),
{
    lemma_run_results_len::<T, C::Instance>(sv, inputs);
    assert forall|i: int| 0 <= i < inputs.len() implies #[trigger] run_results::<T, C::Instance>(
        sv,
        inputs,
    )[i] == <C::Instance as InstanceModel<T>>::spec_out(
        run_state::<T, C::Instance>(sv, inputs.take(i)),
        inputs[i],
    ) by {
        lemma_run_results_index::<T, C::Instance>(sv, inputs, i);
    }
}

/// Every payload of a successful batch run has exactly the arity the
/// configuration declares through `size`.
pub proof fn lemma_over_arity<T, C: ConfigModel<T>>(v: C::V, inputs: Seq<T>)
    ensures
        spec_over::<T, C>(v, inputs) matches Ok(payloads) ==> forall|i: int|
            0 <= i < payloads.len() ==> has_arity(#[trigger] payloads[i], C::spec_size(v)),
{
    if inputs.len() > 0 {
        C::lemma_init_model(v, inputs[0]);
        match C::spec_init(v, inputs[0]) {
            Ok(sv) => {
                lemma_run_results_arity::<T, C::Instance>(sv, inputs);
            },
            Err(_) => {},
        }
    }
}

} // verus!
