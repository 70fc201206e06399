//! A complete concrete indicator, wired through the static capability and —
//! via the blanket bridges alone, with no adapter code here — through the
//! dynamic one.
//!
//! `Highest` reports, for each candle, the highest high seen over the last
//! `period` candles (the current one included), together with a signal that
//! fires when the current candle alone sets that high.  One integer
//! parameter, `period`, is tunable through the string-keyed `set`; a period
//! of zero is rejected.

use vstd::prelude::*;

use crate::candle::Candle;
use crate::config::ConfigModel;
use crate::config::IndicatorConfig;
use crate::error::Error;
use crate::instance::IndicatorInstance;
use crate::instance::InstanceModel;
use crate::result::IndicatorResult;
use crate::result::IndicatorResultView;
use crate::text::parse_u32;
use crate::text::spec_parse_u32;
use crate::text::str_eq;

verus! {

/// The largest value in `s`, or `i64::MIN` as the sentinel for an empty
/// window (the failure-free `next` has no error channel).
pub open spec fn seq_max(s: Seq<i64>) -> i64
    decreases s.len(),
{
    if s.len() == 0 {
        i64::MIN
    } else {
        let m = seq_max(s.drop_last());
        if s.last() > m {
            s.last()
        } else {
            m
        }
    }
}

/// The window kept after a candle with high `high` arrives: the newest
/// `period` entries, oldest first.
pub open spec fn window_after(window: Seq<i64>, period: u32, high: i64) -> Seq<i64> {
    let w = window.push(high);
    if w.len() <= period {
        w
    } else {
        w.skip(w.len() - period)
    }
}

/// Configuration of the `Highest` indicator: one tunable integer parameter,
/// the look-back period in candles.  Valid exactly when the period is at
/// least one.
#[derive(Clone, Copy, Debug, PartialEq, Eq, Structural)]
pub struct Highest {
    /// Look-back window length, in candles.
    pub period: u32,
}

impl View for Highest {
    type V = Highest;

    open spec fn view(&self) -> Highest {
        *self
    }
}

/// The mathematical state of a running `Highest`: the period it was built
/// with and the highs of the newest candles, oldest first.
pub struct HighestStateView {
    pub period: u32,
    pub window: Seq<i64>,
}

/// Streaming state of the `Highest` indicator.
#[derive(Clone, Debug)]
pub struct HighestState {
    period: u32,
    window: Vec<i64>,
}

impl View for HighestState {
    type V = HighestStateView;

    closed spec fn view(&self) -> HighestStateView {
        HighestStateView { period: self.period, window: self.window@ }
    }
}

impl InstanceModel<Candle> for HighestState {
    open spec fn spec_step(v: HighestStateView, candle: Candle) -> HighestStateView {
        HighestStateView {
            period: v.period,
            window: window_after(v.window, v.period, candle.high),
        }
    }

    open spec fn spec_out(v: HighestStateView, candle: Candle) -> IndicatorResultView {
        let w = window_after(v.window, v.period, candle.high);
        IndicatorResultView {
            values: seq![seq_max(w)],
            signals: seq![
                if candle.high == seq_max(w) {
                    1i8
                } else {
                    0i8
                }
            ],
        }
    }

    open spec fn spec_size(v: HighestStateView) -> (u8, u8) {
        (1, 1)
    }

    open spec fn spec_name(v: HighestStateView) -> Seq<char> {
        "highest"@
    }

    proof fn lemma_step_arity(v: HighestStateView, candle: Candle) {
    }
}

impl IndicatorInstance<Candle> for HighestState {
    fn next(&mut self, candle: &Candle) -> (r: IndicatorResult) {
        let high = candle.high;
        self.window.push(high);
        let ghost w0 = self.window@;
        let ghost target = window_after((*old(self))@.window, (*old(self))@.period, high);
        while self.window.len() > self.period as usize
            invariant
                self.period == (*old(self))@.period,
                w0 == (*old(self))@.window.push(high),
                target == window_after((*old(self))@.window, (*old(self))@.period, high),
                self.window@.len() <= w0.len(),
                self.window@ == w0.skip(w0.len() - self.window@.len()),
                self.window@.len() >= self.period || self.window@.len() == w0.len(),
            decreases self.window@.len(),
        {
            self.window.remove(0);
            proof {
                assert(self.window@ =~= w0.skip(w0.len() - self.window@.len()));
            }
        }
        proof {
            assert(w0.skip(0) =~= w0);
            assert(self.window@ =~= target);
        }
        let mut m: i64 = i64::MIN;
        let mut i: usize = 0;
        while i < self.window.len()
            invariant
                0 <= i <= self.window@.len(),
                m == seq_max(self.window@.take(i as int)),
            decreases self.window@.len() - i,
        {
            proof {
                assert(self.window@.take(i + 1 as int).drop_last() =~= self.window@.take(i as int));
                assert(self.window@.take(i + 1 as int).last() == self.window@[i as int]);
            }
            if self.window[i] > m {
                m = self.window[i];
            }
            i = i + 1;
        }
        proof {
            assert(self.window@.take(self.window@.len() as int) =~= self.window@);
        }
        let mut values: Vec<i64> = Vec::new();
        values.push(m);
        let mut signals: Vec<i8> = Vec::new();
        let signal: i8 = if candle.high == m {
            1
        } else {
            0
        };
        signals.push(signal);
        let r = IndicatorResult::new(values, signals);
        proof {
            assert(r@.values =~= Self::spec_out((*old(self))@, *candle).values);
            assert(r@.signals =~= Self::spec_out((*old(self))@, *candle).signals);
        }
        r
    }

    fn size(&self) -> (u8, u8) {
        (1, 1)
    }

    fn name(&self) -> &'static str {
        "highest"
    }
}

impl ConfigModel<Candle> for Highest {
    type Instance = HighestState;

    open spec fn spec_valid(v: Highest) -> bool {
        v.period >= 1
    }

    open spec fn spec_size(v: Highest) -> (u8, u8) {
        (1, 1)
    }

    open spec fn spec_name(v: Highest) -> Seq<char> {
        "highest"@
    }

    open spec fn spec_init(v: Highest, seed: Candle) -> Result<HighestStateView, Error> {
        if v.period < 1 {
            Err(Error::InvalidParameter)
        } else if seed.high < seed.low {
            Err(Error::IncompatibleSeed)
        } else {
            Ok(HighestStateView { period: v.period, window: Seq::empty() })
        }
    }

    open spec fn spec_set(v: Highest, name: Seq<char>, value: Seq<char>) -> Result<Highest, Error> {
        if name == "period"@ {
            match spec_parse_u32(value) {
                Some(p) => if p >= 1 {
                    Ok(Highest { period: p })
                } else {
                    Err(Error::InvalidParameter)
                },
                None => Err(Error::InvalidParameter),
            }
        } else {
            Err(Error::InvalidParameter)
        }
    }

    proof fn lemma_init_model(v: Highest, seed: Candle) {
    }
}

impl IndicatorConfig<Candle> for Highest {
    fn validate(&self) -> bool {
        self.period >= 1
    }

    fn set(&mut self, name: &str, value: String) -> Result<(), Error> {
        if str_eq(name, "period") {
            match parse_u32(value.as_str()) {
                Some(p) => if p >= 1 {
                    self.period = p;
                    Ok(())
                } else {
                    Err(Error::InvalidParameter)
                },
                None => Err(Error::InvalidParameter),
            }
        } else {
            Err(Error::InvalidParameter)
        }
    }

    fn size(&self) -> (u8, u8) {
        (1, 1)
    }

    fn name(&self) -> &'static str {
        "highest"
    }

    fn duplicate(&self) -> Highest {
        Highest { period: self.period }
    }

    fn init(self, initial_value: &Candle) -> (instance: Result<HighestState, Error>) {
        if self.period < 1 {
            return Err(Error::InvalidParameter);
        }
        if initial_value.high < initial_value.low {
            return Err(Error::IncompatibleSeed);
        }
        let window: Vec<i64> = Vec::new();
        let state = HighestState { period: self.period, window };
        proof {
            assert(state@.window =~= Seq::<i64>::empty());
        }
        Ok(state)
    }
}

/// A freshly written period governs everything that follows: after a
/// successful `set` of `period`, the configuration holds exactly the parsed
/// value, is valid, and a later `init` from any compatible seed starts an
/// empty window under that new period — no trace of the value before.
pub proof fn lemma_set_period_governs_init(before: Highest, value: Seq<char>, updated: Highest)
    requires
        <Highest as ConfigModel<Candle>>::spec_set(before, "period"@, value) == Ok::<
            Highest,
            Error,
        >(updated),
    ensures
        spec_parse_u32(value) == Some(updated.period),
        updated.period >= 1,
        <Highest as ConfigModel<Candle>>::spec_valid(updated),
        forall|seed: Candle|
            seed.high >= seed.low ==> <Highest as ConfigModel<Candle>>::spec_init(
                updated,
                seed,
            ) == Ok::<HighestStateView, Error>(
                HighestStateView { period: updated.period, window: Seq::empty() },
            ),
{
}

} // verus!
