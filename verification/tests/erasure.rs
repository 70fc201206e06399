use indicator_core::candle::Candle;
use indicator_core::config::ConfigModel;
use indicator_core::config::IndicatorConfig;
use indicator_core::dd::IndicatorConfigDyn;
use indicator_core::dd::IndicatorInstanceDyn;
use indicator_core::error::Error;
use indicator_core::example::Highest;
use indicator_core::result::IndicatorResult;

fn flat(high: i64) -> Candle {
    Candle { high, low: high - 1, close: high }
}

fn rows(results: &[IndicatorResult]) -> Vec<(Vec<i64>, Vec<i8>)> {
    results.iter().map(|r| (r.values().clone(), r.signals().clone())).collect()
}

// The point of erasure: this driver knows nothing of the concrete indicator
// behind `D`, only the narrow dynamic capability.
fn erased_over<D>(config: &D, candles: &Vec<Candle>) -> Result<Vec<IndicatorResult>, Error>
where
    D: IndicatorConfigDyn<Candle>,
    <D as ConfigModel<Candle>>::Instance: IndicatorInstanceDyn<Candle> + Send + Sync + 'static,
{
    config.over(candles)
}

#[test]
fn erased_over_matches_static_over() {
    let candles = vec![flat(5), flat(3), flat(7), flat(7), flat(1)];
    let erased = Highest { period: 2 };
    let through_adapter = erased_over(&erased, &candles).unwrap();
    let directly = Highest { period: 2 }.over(&candles).unwrap();
    assert_eq!(rows(&through_adapter), rows(&directly));
}

#[test]
fn erased_init_matches_static_path() {
    let candles = vec![flat(4), flat(9), flat(2)];
    let erased = Highest { period: 2 };
    let mut boxed = IndicatorConfigDyn::init(&erased, &candles[0]).unwrap();
    let stepped: Vec<IndicatorResult> = candles.iter().map(|c| boxed.next(c)).collect();
    let directly = Highest { period: 2 }.over(&candles).unwrap();
    assert_eq!(rows(&stepped), rows(&directly));
}

#[test]
fn erased_batch_on_instance_matches() {
    let candles = vec![flat(4), flat(9), flat(2), flat(2)];
    let erased = Highest { period: 3 };
    let mut boxed = IndicatorConfigDyn::init(&erased, &candles[0]).unwrap();
    let batch = IndicatorInstanceDyn::over(&mut *boxed, &candles);
    let directly = Highest { period: 3 }.over(&candles).unwrap();
    assert_eq!(rows(&batch), rows(&directly));
}

#[test]
fn erased_calls_leave_config_unchanged() {
    let candles = vec![flat(5), flat(6)];
    let config = Highest { period: 2 };
    let before = config;
    let _ = IndicatorConfigDyn::init(&config, &candles[0]).unwrap();
    assert_eq!(config, before);
    let _ = erased_over(&config, &candles).unwrap();
    assert_eq!(config, before);
}

#[test]
fn erased_passthrough_delegates() {
    let mut config = Highest { period: 2 };
    assert_eq!(IndicatorConfigDyn::name(&config), "highest");
    assert_eq!(IndicatorConfigDyn::size(&config), (1, 1));
    assert!(IndicatorConfigDyn::validate(&config));
    assert_eq!(
        IndicatorConfigDyn::set(&mut config, "period", String::from("0")),
        Err(Error::InvalidParameter)
    );
    assert_eq!(config.period, 2);
    assert_eq!(IndicatorConfigDyn::set(&mut config, "period", String::from("5")), Ok(()));
    assert_eq!(config.period, 5);
}

#[test]
fn erased_errors_pass_through_unchanged() {
    let upside_down = Candle { high: 1, low: 5, close: 2 };
    let invalid = Highest { period: 0 };
    assert_eq!(
        erased_over(&invalid, &vec![flat(3)]).err(),
        Some(Error::InvalidParameter)
    );
    let config = Highest { period: 2 };
    assert_eq!(
        erased_over(&config, &vec![upside_down, flat(3)]).err(),
        Some(Error::IncompatibleSeed)
    );
    let config = Highest { period: 2 };
    assert_eq!(
        IndicatorConfigDyn::init(&config, &upside_down).err(),
        Some(Error::IncompatibleSeed)
    );
}

#[test]
fn erased_instance_reports_size_and_name() {
    let config = Highest { period: 2 };
    let boxed = IndicatorConfigDyn::init(&config, &flat(5)).unwrap();
    assert_eq!(IndicatorInstanceDyn::size(&*boxed), (1, 1));
    assert_eq!(IndicatorInstanceDyn::name(&*boxed), "highest");
}
