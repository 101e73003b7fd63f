use sensor_relay::scheduler::{Config, PERIOD_SECONDS};
use sensor_relay::reading::DispatchPolicy;
use sensor_relay::settings::{
    FilterSize, HeaterProfile, Oversampling, SensorAddress, SensorSettings,
};

#[test]
fn stock_settings_are_the_documented_ones() {
    let settings = SensorSettings::default();
    assert_eq!(settings.humidity_oversampling, Oversampling::X2);
    assert_eq!(settings.pressure_oversampling, Oversampling::X4);
    assert_eq!(settings.temperature_oversampling, Oversampling::X8);
    assert_eq!(settings.temperature_filter, FilterSize::Size3);
    assert_eq!(
        settings.heater,
        HeaterProfile { duration_ms: 1500, temperature: 320, ambient_temperature: 25 }
    );
    assert!(settings.run_gas);
}

#[test]
fn stock_config_uses_stock_policy_and_settings() {
    let config = Config::default();
    assert_eq!(config.policy, DispatchPolicy::UnlessFresh);
    assert_eq!(config.address, SensorAddress::Primary);
    assert_eq!(config.settings, SensorSettings::default());
}

#[test]
fn the_timer_fires_once_a_minute() {
    assert_eq!(PERIOD_SECONDS, 60);
}
