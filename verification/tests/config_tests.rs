use voice_capture::config::{Config, DEFAULT_SAMPLE_RATE};

#[test]
fn unparsable_setting_falls_back_to_default() {
    let c = Config::from_setting(Some("abc"));
    assert_eq!(c.sample_rate, 48000);
}

#[test]
fn absent_setting_falls_back_to_default() {
    let c = Config::from_setting(None);
    assert_eq!(c.sample_rate, DEFAULT_SAMPLE_RATE);
}

#[test]
fn empty_setting_falls_back_to_default() {
    let c = Config::from_setting(Some(""));
    assert_eq!(c.sample_rate, DEFAULT_SAMPLE_RATE);
}

#[test]
fn numeric_setting_is_used() {
    assert_eq!(Config::from_setting(Some("44100")).sample_rate, 44100);
    assert_eq!(Config::from_setting(Some("8000")).sample_rate, 8000);
    assert_eq!(Config::from_setting(Some("0")).sample_rate, 0);
    assert_eq!(Config::from_setting(Some("4294967295")).sample_rate, u32::MAX);
}

#[test]
fn leading_plus_sign_is_accepted() {
    assert_eq!(Config::from_setting(Some("+123")).sample_rate, 123);
    assert_eq!(Config::from_setting(Some("+44100")).sample_rate, 44100);
    assert_eq!(Config::from_setting(Some("+0")).sample_rate, 0);
    assert_eq!(Config::from_setting(Some("+4294967295")).sample_rate, u32::MAX);
}

#[test]
fn sign_without_digits_falls_back_to_default() {
    assert_eq!(Config::from_setting(Some("+")).sample_rate, DEFAULT_SAMPLE_RATE);
    assert_eq!(Config::from_setting(Some("++1")).sample_rate, DEFAULT_SAMPLE_RATE);
    assert_eq!(Config::from_setting(Some("1+2")).sample_rate, DEFAULT_SAMPLE_RATE);
}

#[test]
fn overflowing_setting_falls_back_to_default() {
    assert_eq!(
        Config::from_setting(Some("4294967296")).sample_rate,
        DEFAULT_SAMPLE_RATE
    );
    assert_eq!(
        Config::from_setting(Some("99999999999999999999")).sample_rate,
        DEFAULT_SAMPLE_RATE
    );
}

#[test]
fn mixed_text_falls_back_to_default() {
    assert_eq!(Config::from_setting(Some("48000Hz")).sample_rate, DEFAULT_SAMPLE_RATE);
    assert_eq!(Config::from_setting(Some("-48000")).sample_rate, DEFAULT_SAMPLE_RATE);
    assert_eq!(Config::from_setting(Some(" 48000")).sample_rate, DEFAULT_SAMPLE_RATE);
}

#[test]
fn default_config_uses_default_rate() {
    let c: Config = Default::default();
    assert_eq!(c.sample_rate, DEFAULT_SAMPLE_RATE);
}
