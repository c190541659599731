use responses_proxy::settings::{parse_bool, parse_unsigned, Settings};

fn some(text: &str) -> Option<String> {
    Some(text.to_string())
}

#[test]
fn missing_settings_have_defaults() {
    assert_eq!(
        Settings::read(None, None, None, None),
        Settings {
            backend_url: "https://llm.chutes.ai/v1/chat/completions".to_string(),
            backend_timeout_secs: 600,
            log_volume_enabled: false,
            port: 8282,
        }
    );
}

#[test]
fn settings_are_read() {
    assert_eq!(
        Settings::read(some("http://b/"), some("30"), some("true"), some("80")),
        Settings {
            backend_url: "http://b/".to_string(),
            backend_timeout_secs: 30,
            log_volume_enabled: true,
            port: 80,
        }
    );
}

#[test]
fn settings_that_are_wrong_count_as_missing() {
    let settings = Settings::read(some(""), some("10s"), some("TRUE"), some("65536"));
    assert_eq!(settings.backend_url, "");
    assert_eq!(settings.backend_timeout_secs, 600);
    assert!(!settings.log_volume_enabled);
    assert_eq!(settings.port, 8282);
}

#[test]
fn numbers_are_read_as_the_standard_library_reads_them() {
    for text in [
        "", "+", "-", "0", "00", "+7", "++7", "-0", "-1", " 1", "1 ", "1_0", "12a", "255", "65535", "65536", "065535",
        "18446744073709551615", "18446744073709551616", "99999999999999999999", "\u{661}",
    ] {
        assert_eq!(parse_unsigned(text, u64::MAX), text.parse::<u64>().ok());
        assert_eq!(parse_unsigned(text, u16::MAX as u64), text.parse::<u16>().ok().map(|n| n as u64));
    }
    assert_eq!(parse_unsigned("8", 7), None);
    assert_eq!(parse_unsigned("7", 7), Some(7));
}

#[test]
fn truth_values_are_read_as_the_standard_library_reads_them() {
    for text in ["true", "false", "", "True", "1", " true"] {
        assert_eq!(parse_bool(text), text.parse::<bool>().ok());
    }
}
