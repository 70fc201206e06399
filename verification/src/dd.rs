//! The type-erasing adapter layer and its blanket bridges.
//!
//! [`IndicatorConfigDyn`] and [`IndicatorInstanceDyn`] are narrow mirrors of
//! the static capabilities, made for a host that drives many indicator kinds
//! through one interface: the configuration side only ever *borrows* its
//! receiver, and `init` hands back a heap-held, thread-transferable instance.
//!
//! The blanket impls below are the bridge: every concrete type satisfying
//! the static capability (plus duplicability and thread-transfer bounds)
//! satisfies the dynamic one with no per-indicator code.  Since the static
//! `init` consumes its receiver while the dynamic facade borrows it, the
//! bridge duplicates the configuration at the erasure boundary — a deliberate
//! one-time cost there, and nowhere else.  Both layers' contracts are pinned
//! to the *same* model ([`ConfigModel`], [`InstanceModel`]), so erasure
//! cannot change any observable result, and the borrowing receivers make it
//! impossible for the dynamic calls to disturb the original configuration.

use vstd::prelude::*;

use crate::config::spec_over;
use crate::config::ConfigModel;
use crate::config::IndicatorConfig;
use crate::error::Error;
use crate::instance::run_results;
use crate::instance::run_state;
use crate::instance::IndicatorInstance;
use crate::instance::InstanceModel;
use crate::result::IndicatorResult;
use crate::result::IndicatorResultView;

verus! {

/// The dynamic mirror of [`IndicatorInstance`]: the same stepwise and batch
/// evaluation, against the same model, for an instance already built and
/// exclusively owned — so the hot path carries no duplication at all, and
/// nothing here can fail (any failure must have surfaced at `init`).
pub trait IndicatorInstanceDyn<T>: InstanceModel<T> {
    /// Evaluates one candle and returns its payload.
    fn next(&mut self, candle: &T) -> (r: IndicatorResult)
        ensures
            (*final(self))@ == Self::spec_step((*old(self))@, *candle),
            r@ == Self::spec_out((*old(self))@, *candle),
    ;

    /// Evaluates the state over the whole of `inputs` in order, returning one
    /// payload per candle.
    fn over(&mut self, inputs: &Vec<T>) -> (results: Vec<IndicatorResult>)
        ensures
            (*final(self))@ == run_state::<T, Self>((*old(self))@, inputs@),
            results.deep_view() == run_results::<T, Self>((*old(self))@, inputs@),
    ;

    /// Count of raw values and count of signals in every emitted payload.
    fn size(&self) -> (s: (u8, u8))
        ensures
            s == Self::spec_size(self@),
    ;

    /// The indicator's name.
    fn name(&self) -> (n: &'static str)
        ensures
            n@ == Self::spec_name(self@),
    ;
}

/// The blanket bridge for instances: every static instance that can be
/// duplicated and handed across threads is usable through the dynamic
/// mirror, by direct delegation.
impl<T, I> IndicatorInstanceDyn<T> for I where
    I: IndicatorInstance<T> + Send + Sync + Clone + 'static,
 {
    fn next(&mut self, candle: &T) -> IndicatorResult {
        IndicatorInstance::next(self, candle)
    }

    fn over(&mut self, inputs: &Vec<T>) -> Vec<IndicatorResult> {
        IndicatorInstance::over(self, inputs)
    }

    fn size(&self) -> (u8, u8) {
        IndicatorInstance::size(self)
    }

    fn name(&self) -> &'static str {
        IndicatorInstance::name(self)
    }
}

/// The dynamic mirror of [`IndicatorConfig`]: the same contracts, against
/// the same model, but every call borrows the configuration instead of
/// consuming it, so a host can keep one configuration value and drive it
/// through this narrow interface any number of times.
pub trait IndicatorConfigDyn<T>: ConfigModel<T> where
    Self::Instance: IndicatorInstanceDyn<T> + Send + Sync + 'static,
 {
    /// Builds initial streaming state from the borrowed configuration and a
    /// seed candle, boxed for heap-held, thread-transferable ownership.  The
    /// configuration itself is left untouched.
    fn init(&self, initial_value: &T) -> (instance: Result<Box<Self::Instance>, Error>)
        ensures
            match instance {
                Ok(inst) => Self::spec_init(self@, *initial_value) == Ok::<
                    <Self::Instance as View>::V,
                    Error,
                >(inst@),
                Err(e) => Self::spec_init(self@, *initial_value) == Err::<
                    <Self::Instance as View>::V,
                    Error,
                >(e),
            },
    ;

    /// Evaluates the borrowed configuration over a sequence of candles:
    /// observably identical to the static `over` on the same configuration.
    fn over(&self, inputs: &Vec<T>) -> (results: Result<Vec<IndicatorResult>, Error>)
        ensures
            match results {
                Ok(payloads) => spec_over::<T, Self>(self@, inputs@) == Ok::<
                    Seq<IndicatorResultView>,
                    Error,
                >(payloads.deep_view()),
                Err(e) => spec_over::<T, Self>(self@, inputs@) == Err::<
                    Seq<IndicatorResultView>,
                    Error,
                >(e),
            },
    ;

    /// The indicator's name.
    fn name(&self) -> (n: &'static str)
        ensures
            n@ == Self::spec_name(self@),
    ;

    /// Pure parameter validation, exactly as on the static capability.
    fn validate(&self) -> (valid: bool)
        ensures
            valid == Self::spec_valid(self@),
    ;

    /// Sets one named parameter from a string-encoded value, atomically on
    /// error, exactly as on the static capability.
    fn set(&mut self, name: &str, value: String) -> (outcome: Result<(), Error>)
        ensures
            match Self::spec_set((*old(self))@, name@, value@) {
                Ok(updated) => outcome == Ok::<(), Error>(()) && (*final(self))@ == updated,
                Err(e) => outcome == Err::<(), Error>(e) && (*final(self))@ == (*old(self))@,
            },
    ;

    /// Count of raw values and count of signals every built instance emits
    /// per candle.
    fn size(&self) -> (s: (u8, u8))
        ensures
            s == Self::spec_size(self@),
    ;
}

/// The blanket bridge for configurations: every static configuration whose
/// instance can cross the erasure boundary is usable through the dynamic
/// mirror.  Where the static capability consumes the receiver, the bridge
/// duplicates it first; everything else is direct delegation.
impl<T, I, C> IndicatorConfigDyn<T> for C where
    I: IndicatorInstance<T> + Send + Sync + Clone + 'static,
    C: IndicatorConfig<T, Instance = I> + Clone + 'static,
 {
    fn init(&self, initial_value: &T) -> Result<Box<I>, Error> {
        match IndicatorConfig::init(self.duplicate(), initial_value) {
            Ok(inst) => Ok(Box::new(inst)),
            Err(e) => Err(e),
        }
    }

    fn over(&self, inputs: &Vec<T>) -> Result<Vec<IndicatorResult>, Error> {
        IndicatorConfig::over(self.duplicate(), inputs)
    }

    fn name(&self) -> &'static str {
        IndicatorConfig::name(self)
    }

    fn validate(&self) -> bool {
        IndicatorConfig::validate(self)
    }

    fn set(&mut self, name: &str, value: String) -> Result<(), Error> {
        IndicatorConfig::set(self, name, value)
    }

    fn size(&self) -> (u8, u8) {
        IndicatorConfig::size(self)
    }
}

} // verus!
