use quickserve::startup::{exit_text, warning_text, StartupError};

#[test]
fn startup_errors_have_their_messages() {
    assert_eq!(StartupError::NoFallbackPorts.message(), "No fallback ports defined!");
    assert_eq!(StartupError::NoPortAvailable.message(), "No port is available!");
    assert_eq!(
        StartupError::InterfacesUnavailable.message(),
        "Network interfaces could not be listed!"
    );
    assert_eq!(StartupError::NoBindAddress.message(), "No bind address could be resolved!");
}

#[test]
fn exit_text_is_red() {
    assert_eq!(exit_text("No port is available!"), "\u{1b}[31mNo port is available!\u{1b}[0m");
}

#[test]
fn warning_text_is_yellow() {
    assert_eq!(
        warning_text("Could not open config file"),
        "\u{1b}[33mCould not open config file\u{1b}[0m"
    );
}
