//! Dispatch core for technical-indicator evaluation over market candles.
//!
//! An indicator is described by a parameter object (its *configuration*) and
//! evaluated by a piece of streaming state (its *instance*).  The
//! [`IndicatorConfig`](config::IndicatorConfig) capability declares the
//! parameters, validates them and builds an instance from a seed candle; the
//! [`IndicatorInstance`](instance::IndicatorInstance) capability advances that
//! state one candle at a time, emitting one result per candle.
//!
//! On top of the static capabilities sits a type-erasing adapter layer,
//! [`IndicatorConfigDyn`](dd::IndicatorConfigDyn) and
//! [`IndicatorInstanceDyn`](dd::IndicatorInstanceDyn), granted to every
//! conforming concrete type by blanket bridge impls, so that a host can drive
//! a heterogeneous set of indicators through one uniform interface.  The
//! bridge duplicates a configuration at the erasure boundary instead of
//! consuming it, and its contracts state that erasure never changes the
//! observable results.

pub mod candle;
pub mod config;
pub mod dd;
pub mod error;
pub mod example;
pub mod instance;
pub mod result;
pub mod text;
