use clipshot::error::{BridgeError, ConfigError, LoadError, NotFoundError};

#[test]
fn not_found_message_names_the_plugin() {
    let error = NotFoundError { id: "plugin_7".to_string() };
    assert_eq!(error.message(), "Plugin plugin_7 not found");
    let error = NotFoundError { id: String::new() };
    assert_eq!(error.message(), "Plugin  not found");
}

#[test]
fn config_error_message_gives_the_reason() {
    let error = ConfigError { reason: "expected value at line 1 column 1".to_string() };
    assert_eq!(
        error.message(),
        "Invalid plugin configuration: expected value at line 1 column 1"
    );
}

#[test]
fn bridge_error_message_is_its_text() {
    assert_eq!(BridgeError::NotFound("a".to_string()).message(), "a");
    assert_eq!(BridgeError::MarshalError("b".to_string()).message(), "b");
    assert_eq!(BridgeError::RuntimeFault("c".to_string()).message(), "c");
    assert_eq!(BridgeError::Network("d".to_string()).message(), "d");
    assert_eq!(BridgeError::ParseError("e".to_string()).message(), "e");
}

#[test]
fn load_error_messages() {
    assert_eq!(LoadError::ArtifactInvalid.message(), "Plugin artifact is invalid");
    assert_eq!(LoadError::BridgeUnavailable.message(), "Python bridge is unavailable");
    assert_eq!(
        LoadError::Bridge(BridgeError::RuntimeFault("ImportError".to_string())).message(),
        "ImportError"
    );
}
