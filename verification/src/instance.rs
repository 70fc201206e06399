//! The static instance capability: streaming state advanced candle by candle.
//!
//! The capability is split in two.  [`InstanceModel`] is the purely
//! mathematical half: an implementor describes, over its [`View`], how one
//! candle advances the state (`spec_step`), what payload that candle emits
//! (`spec_out`), and the declared arity and name.  [`IndicatorInstance`] is
//! the executable half, whose methods are pinned to that model; its batch
//! evaluator is proved equal to stepping the model over the whole input in
//! order.  The type-erased adapter layer is pinned to the *same* model, so
//! erasure cannot change observable results.

use vstd::prelude::*;

use crate::result::has_arity;
use crate::result::IndicatorResult;
use crate::result::IndicatorResultView;

verus! {

/// The mathematical half of the instance capability: a streaming-state model
/// over the implementor's [`View`].
pub trait InstanceModel<T>: Sized + View {
    /// How one candle advances the state model.
    spec fn spec_step(v: Self::V, candle: T) -> Self::V;

    /// The payload model emitted for one candle fed to state `v`.
    spec fn spec_out(v: Self::V, candle: T) -> IndicatorResultView;

    /// The declared output arity: count of raw values, count of signals.
    spec fn spec_size(v: Self::V) -> (u8, u8);

    /// The indicator's name.
    spec fn spec_name(v: Self::V) -> Seq<char>;

    /// Every implementor owes proof that stepping never changes the declared
    /// arity or name, and that every emitted payload has exactly the declared
    /// arity.
    proof fn lemma_step_arity(v: Self::V, candle: T)
        ensures
            Self::spec_size(Self::spec_step(v, candle)) == Self::spec_size(v),
            has_arity(Self::spec_out(v, candle), Self::spec_size(v)),
            Self::spec_name(Self::spec_step(v, candle)) == Self::spec_name(v),
    ;
}

/// The state reached after feeding `inputs`, first candle first, to an
/// instance of `I` in state `v`.
pub open spec fn run_state<T, I: InstanceModel<T>>(v: I::V, inputs: Seq<T>) -> I::V
    decreases inputs.len(),
{
    if inputs.len() == 0 {
        v
    } else {
        run_state::<T, I>(I::spec_step(v, inputs[0]), inputs.skip(1))
    }
}

/// The payloads emitted while feeding `inputs` to an instance of `I` in
/// state `v`: one per candle, in input order.
pub open spec fn run_results<T, I: InstanceModel<T>>(v: I::V, inputs: Seq<T>) -> Seq<
    IndicatorResultView,
>
    decreases inputs.len(),
{
    if inputs.len() == 0 {
        Seq::empty()
    } else {
        seq![I::spec_out(v, inputs[0])] + run_results::<T, I>(
            I::spec_step(v, inputs[0]),
            inputs.skip(1),
        )
    }
}

/// The executable half of the instance capability: per-run streaming state
/// built by a configuration's `init` and fed every subsequent candle,
/// emitting one result payload per candle.  Once built, neither `next` nor
/// `over` can fail; numeric edge cases inside an indicator must surface as
/// sentinel values in the payload, never as an error.
pub trait IndicatorInstance<T>: InstanceModel<T> {
    /// Evaluates one candle and returns its payload.
    fn next(&mut self, candle: &T) -> (r: IndicatorResult)
        ensures
            (*final(self))@ == Self::spec_step((*old(self))@, *candle),
            r@ == Self::spec_out((*old(self))@, *candle),
    ;

    /// Count of raw values and count of signals in every emitted payload.
    fn size(&self) -> (s: (u8, u8))
        ensures
            s == Self::spec_size(self@),
    ;

    /// The indicator's name.
    fn name(&self) -> (n: &'static str)
        ensures
            n@ == Self::spec_name(self@),
    ;

    /// Evaluates the state over the whole of `inputs` in order, returning one
    /// payload per candle.
    fn over(&mut self, inputs: &Vec<T>) -> (results: Vec<IndicatorResult>)
        ensures
            (*final(self))@ == run_state::<T, Self>((*old(self))@, inputs@),
            results.deep_view() == run_results::<T, Self>((*old(self))@, inputs@),
    {
        let mut results: Vec<IndicatorResult> = Vec::new();
        proof {
            assert(inputs@.take(0) =~= Seq::<T>::empty());
            assert(results.deep_view() =~= run_results::<T, Self>(
                (*old(self))@,
                inputs@.take(0),
            ));
        }
        let mut i: usize = 0;
        while i < inputs.len()
            invariant
                0 <= i <= inputs@.len(),
                (*self)@ == run_state::<T, Self>((*old(self))@, inputs@.take(i as int)),
                results.deep_view() == run_results::<T, Self>(
                    (*old(self))@,
                    inputs@.take(i as int),
                ),
            decreases inputs@.len() - i,
        {
            let ghost prev = results.deep_view();
            let r = self.next(&inputs[i]);
            results.push(r);
            proof {
                assert(results.deep_view() =~= prev.push(r@));
                lemma_run_push::<T, Self>((*old(self))@, inputs@.take(i as int), inputs@[i as int]);
                assert(inputs@.take(i as int).push(inputs@[i as int]) =~= inputs@.take(
                    i + 1 as int,
                ));
            }
            i = i + 1;
        }
        proof {
            assert(inputs@.take(inputs@.len() as int) =~= inputs@);
        }
        results
    }
}

/// Feeding one more candle after `inputs` steps the reached state once and
/// appends that step's payload.
pub proof fn lemma_run_push<T, I: InstanceModel<T>>(v: I::V, inputs: Seq<T>, c: T)
    ensures
        run_state::<T, I>(v, inputs.push(c)) == I::spec_step(run_state::<T, I>(v, inputs), c),
        run_results::<T, I>(v, inputs.push(c)) == run_results::<T, I>(v, inputs).push(
            I::spec_out(run_state::<T, I>(v, inputs), c),
        ),
    decreases inputs.len(),
{
    let p = inputs.push(c);
    if inputs.len() == 0 {
        let s1 = I::spec_step(v, c);
        assert(p[0] == c);
        assert(p.skip(1) =~= Seq::<T>::empty());
        assert(run_state::<T, I>(s1, Seq::<T>::empty()) == s1);
        assert(run_state::<T, I>(v, inputs) == v);
        assert(run_state::<T, I>(v, p) == run_state::<T, I>(s1, p.skip(1)));
        assert(run_results::<T, I>(s1, Seq::<T>::empty()) =~= Seq::<IndicatorResultView>::empty());
        assert(run_results::<T, I>(v, inputs) =~= Seq::<IndicatorResultView>::empty());
        assert(run_results::<T, I>(v, p) =~= seq![I::spec_out(v, c)] + run_results::<T, I>(
            s1,
            p.skip(1),
        ));
        assert(run_results::<T, I>(v, p) =~= run_results::<T, I>(v, inputs).push(
            I::spec_out(run_state::<T, I>(v, inputs), c),
        ));
    } else {
        assert(p[0] == inputs[0]);
        assert(p.skip(1) =~= inputs.skip(1).push(c));
        lemma_run_push::<T, I>(I::spec_step(v, inputs[0]), inputs.skip(1), c);
        assert(run_results::<T, I>(v, p) =~= run_results::<T, I>(v, inputs).push(
            I::spec_out(run_state::<T, I>(v, inputs), c),
        ));
    }
}

/// A batch run emits exactly one payload per input candle.
pub proof fn lemma_run_results_len<T, I: InstanceModel<T>>(v: I::V, inputs: Seq<T>)
    ensures
        run_results::<T, I>(v, inputs).len() == inputs.len(),
    decreases inputs.len(),
{
    if inputs.len() > 0 {
        lemma_run_results_len::<T, I>(I::spec_step(v, inputs[0]), inputs.skip(1));
    }
}

/// The `i`-th payload of a batch run is what a lone `next` call would emit
/// after stepping the state over the first `i` candles: batch evaluation is
/// repeated stepwise evaluation, element for element.
pub proof fn lemma_run_results_index<T, I: InstanceModel<T>>(v: I::V, inputs: Seq<T>, i: int)
    requires
        0 <= i < inputs.len(),
    ensures
        run_results::<T, I>(v, inputs)[i] == I::spec_out(
            run_state::<T, I>(v, inputs.take(i)),
            inputs[i],
        ),
    decreases i,
{
    lemma_run_results_len::<T, I>(I::spec_step(v, inputs[0]), inputs.skip(1));
    if i == 0 {
        assert(inputs.take(0) =~= Seq::<T>::empty());
    } else {
        lemma_run_results_index::<T, I>(I::spec_step(v, inputs[0]), inputs.skip(1), i - 1);
        assert(inputs.skip(1).take(i - 1) =~= inputs.take(i).skip(1));
        assert(inputs.take(i)[0] == inputs[0]);
        assert(inputs.skip(1)[i - 1] == inputs[i]);
    }
}

/// Every payload of a batch run has the arity the starting state declares,
/// and a run changes neither the declared arity nor the name.
pub proof fn lemma_run_results_arity<T, I: InstanceModel<T>>(v: I::V, inputs: Seq<T>)
    ensures
        I::spec_size(run_state::<T, I>(v, inputs)) == I::spec_size(v),
        I::spec_name(run_state::<T, I>(v, inputs)) == I::spec_name(v),
        forall|i: int|
            0 <= i < run_results::<T, I>(v, inputs).len() ==> has_arity(
                #[trigger] run_results::<T, I>(v, inputs)[i],
                I::spec_size(v),
            ),
    decreases inputs.len(),
{
    if inputs.len() > 0 {
        I::lemma_step_arity(v, inputs[0]);
        lemma_run_results_arity::<T, I>(I::spec_step(v, inputs[0]), inputs.skip(1));
        lemma_run_results_len::<T, I>(I::spec_step(v, inputs[0]), inputs.skip(1));
    }
}

} // verus!
