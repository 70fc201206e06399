//! The fixed-arity output payload emitted for each processed candle.

use vstd::prelude::*;

verus! {

/// The mathematical value of an [`IndicatorResult`]: the sequence of raw
/// values and the sequence of signal values it carries.
pub struct IndicatorResultView {
    pub values: Seq<i64>,
    pub signals: Seq<i8>,
}

/// One processed candle's output: a row of raw indicator values and a row of
/// signal values.  The core never inspects the numbers; it only carries the
/// payload from an instance to the caller.
pub struct IndicatorResult {
    values: Vec<i64>,
    signals: Vec<i8>,
}

impl View for IndicatorResult {
    type V = IndicatorResultView;

    closed spec fn view(&self) -> IndicatorResultView {
        IndicatorResultView { values: self.values@, signals: self.signals@ }
    }
}

impl DeepView for IndicatorResult {
    type V = IndicatorResultView;

    open spec fn deep_view(&self) -> IndicatorResultView {
        self.view()
    }
}

/// Holds when the payload `v` has exactly the declared arity `s`:
/// `s.0` raw values and `s.1` signal values.
pub open spec fn has_arity(v: IndicatorResultView, s: (u8, u8)) -> bool {
    v.values.len() == s.0 && v.signals.len() == s.1
}

impl IndicatorResult {
    /// Packs one row of raw values and one row of signals.  Arity is declared
    /// in `u8`s, so each row must be that small.
    pub fn new(values: Vec<i64>, signals: Vec<i8>) -> (r: IndicatorResult)
        requires
            values@.len() <= u8::MAX,
            signals@.len() <= u8::MAX,
        ensures
            r@ == (IndicatorResultView { values: values@, signals: signals@ }),
    {
        IndicatorResult { values, signals }
    }

    /// The raw values carried by this payload.
    pub fn values(&self) -> (v: &Vec<i64>)
        ensures
            v@ == self@.values,
    {
        &self.values
    }

    /// The signal values carried by this payload.
    pub fn signals(&self) -> (s: &Vec<i8>)
        ensures
            s@ == self@.signals,
    {
        &self.signals
    }
}

} // verus!
