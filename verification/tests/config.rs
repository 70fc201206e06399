use indicator_core::candle::Candle;
use indicator_core::config::IndicatorConfig;
use indicator_core::error::Error;
use indicator_core::example::Highest;
use indicator_core::instance::IndicatorInstance;
use indicator_core::result::IndicatorResult;

fn candle(high: i64, low: i64, close: i64) -> Candle {
    Candle { high, low, close }
}

fn flat(high: i64) -> Candle {
    Candle { high, low: high - 1, close: high }
}

fn raw_values(results: &[IndicatorResult]) -> Vec<i64> {
    results.iter().map(|r| r.values()[0]).collect()
}

fn signal_values(results: &[IndicatorResult]) -> Vec<i8> {
    results.iter().map(|r| r.signals()[0]).collect()
}

#[test]
fn invalid_config_never_initializes() {
    let seeds = vec![flat(1), flat(100), candle(5, -5, 0), candle(i64::MAX, i64::MIN, 0)];
    for seed in seeds {
        let config = Highest { period: 0 };
        assert!(!config.validate());
        let outcome = config.init(&seed);
        assert_eq!(outcome.err(), Some(Error::InvalidParameter));
    }
}

#[test]
fn over_empty_returns_empty() {
    let config = Highest { period: 3 };
    let results = config.over(&Vec::new()).unwrap();
    assert!(results.is_empty());
}

#[test]
fn over_empty_never_calls_init() {
    // Even a configuration whose init would be rejected succeeds on an empty
    // input: nothing is ever initialised.
    let config = Highest { period: 0 };
    assert!(!config.validate());
    let results = config.over(&Vec::new()).unwrap();
    assert!(results.is_empty());
}

#[test]
fn over_matches_repeated_next() {
    let candles = vec![flat(5), flat(3), flat(7), flat(7), flat(1)];
    let config = Highest { period: 2 };
    let batch = config.over(&candles).unwrap();
    assert_eq!(batch.len(), candles.len());

    let mut state = Highest { period: 2 }.init(&candles[0]).unwrap();
    for (i, c) in candles.iter().enumerate() {
        let single = state.next(c);
        assert_eq!(batch[i].values(), single.values());
        assert_eq!(batch[i].signals(), single.signals());
    }
}

#[test]
fn highest_window_values() {
    let candles = vec![flat(5), flat(3), flat(7), flat(7), flat(1)];
    let config = Highest { period: 2 };
    let results = config.over(&candles).unwrap();
    assert_eq!(raw_values(&results), vec![5, 5, 7, 7, 7]);
    assert_eq!(signal_values(&results), vec![1, 0, 1, 1, 0]);
}

#[test]
fn period_one_tracks_each_candle() {
    let candles = vec![flat(9), flat(1), flat(2)];
    let config = Highest { period: 1 };
    let results = config.over(&candles).unwrap();
    assert_eq!(raw_values(&results), vec![9, 1, 2]);
    assert_eq!(signal_values(&results), vec![1, 1, 1]);
}

#[test]
fn set_rejects_unknown_name() {
    let mut config = Highest { period: 3 };
    let outcome = config.set("periods", String::from("4"));
    assert_eq!(outcome, Err(Error::InvalidParameter));
    assert_eq!(config.period, 3);
}

#[test]
fn set_rejects_unparsable_value() {
    for bad in ["", "abc", "3x", "-1", " 3", "4294967296", "99999999999999999999"] {
        let mut config = Highest { period: 3 };
        let outcome = config.set("period", String::from(bad));
        assert_eq!(outcome, Err(Error::InvalidParameter));
        assert_eq!(config.period, 3, "value {:?} must leave the period untouched", bad);
    }
}

#[test]
fn set_accepts_largest_period() {
    let mut config = Highest { period: 3 };
    assert_eq!(config.set("period", String::from("4294967295")), Ok(()));
    assert_eq!(config.period, u32::MAX);
    assert!(config.validate());
}

#[test]
fn set_then_init_uses_new_value() {
    // No stale-parameter leakage: after set("period", "3") the batch run
    // behaves as a fresh period-3 configuration, not as the period-1 one
    // it was before.
    let candles = vec![flat(9), flat(1), flat(2)];
    let mut config = Highest { period: 1 };
    assert_eq!(config.set("period", String::from("3")), Ok(()));
    assert!(config.validate());
    let results = config.over(&candles).unwrap();
    assert_eq!(raw_values(&results), vec![9, 9, 9]);
}

#[test]
fn size_matches_every_result() {
    let candles = vec![flat(4), flat(8), flat(6)];
    let config = Highest { period: 2 };
    let (raw, signals) = config.size();
    let results = config.over(&candles).unwrap();
    assert!(!results.is_empty());
    for r in &results {
        assert_eq!(r.values().len(), raw as usize);
        assert_eq!(r.signals().len(), signals as usize);
    }
}

#[test]
fn instance_size_and_name_match_config() {
    let config = Highest { period: 2 };
    assert_eq!(config.name(), "highest");
    assert_eq!(config.size(), (1, 1));
    let state = config.init(&flat(5)).unwrap();
    assert_eq!(state.name(), "highest");
    assert_eq!(state.size(), (1, 1));
}

#[test]
fn incompatible_seed_is_reported() {
    let upside_down = candle(1, 5, 2);
    let config = Highest { period: 2 };
    assert_eq!(config.init(&upside_down).err(), Some(Error::IncompatibleSeed));
    let config = Highest { period: 2 };
    let candles = vec![upside_down, flat(5)];
    assert_eq!(config.over(&candles).err(), Some(Error::IncompatibleSeed));
}

#[test]
fn only_the_seed_candle_can_reject() {
    // A malformed candle later in the stream is still processed: only init
    // inspects the seed, and next cannot fail.
    let candles = vec![flat(5), candle(1, 5, 2), flat(3)];
    let config = Highest { period: 2 };
    let results = config.over(&candles).unwrap();
    assert_eq!(results.len(), 3);
    assert_eq!(raw_values(&results), vec![5, 5, 3]);
}

#[test]
fn period_scenario() {
    // One integer parameter, period = 3; a zero refuses, a three is taken,
    // and a four-candle batch yields four results, the first seeded by the
    // first candle.
    let mut config = Highest { period: 3 };
    assert_eq!(config.set("period", String::from("0")), Err(Error::InvalidParameter));
    assert_eq!(config.set("period", String::from("3")), Ok(()));
    assert!(config.validate());
    let candles = vec![flat(4), flat(2), flat(6), flat(5)];
    let results = config.over(&candles).unwrap();
    assert_eq!(results.len(), 4);
    assert_eq!(results[0].values()[0], 4);
    assert_eq!(results[0].signals()[0], 1);
    assert_eq!(raw_values(&results), vec![4, 4, 6, 6]);
}

#[test]
fn duplicate_is_observably_identical() {
    let config = Highest { period: 7 };
    let copy = config.duplicate();
    assert_eq!(copy, config);
    assert_eq!(copy.size(), config.size());
    assert_eq!(copy.name(), config.name());
}
