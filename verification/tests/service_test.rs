use a3c_soc_auth0_events::settings::{config_file_name, log_config_file};
use a3c_soc_auth0_events::{
    create_log4rs_encoder, finish_event, start_event, EncodeError, EncoderSetupError, EncoderType,
    EventResponse, EventStep, Log4rsEncoderSettings, Settings,
};

fn settings(encoders: Vec<EncoderType>) -> Settings {
    Settings {
        address: "127.0.0.1:8080".to_string(),
        api_token: "tok".to_string(),
        log_config: None,
        encoders,
    }
}

fn log4rs(enable: Option<bool>, name: &str) -> EncoderType {
    EncoderType::Log4rs(Log4rsEncoderSettings { enable, logger_name: name.to_string() })
}

#[test]
fn config_file_precedence() {
    assert_eq!(config_file_name(Some("a.yml".to_string()), Some("b.yml".to_string())), "a.yml");
    assert_eq!(config_file_name(None, Some("b.yml".to_string())), "b.yml");
    assert_eq!(config_file_name(None, None), "a3c-soc-auth0-events.yaml");
}

#[test]
fn log_config_default() {
    assert_eq!(log_config_file(None), "./log4rs.yaml");
    assert_eq!(log_config_file(Some("l.yml".to_string())), "l.yml");
}

#[test]
fn encoder_needs_configuration() {
    let r = create_log4rs_encoder(&settings(vec![]));
    assert_eq!(r.unwrap_err(), EncoderSetupError::NotConfigured);
    assert_eq!(EncoderSetupError::NotConfigured.message(), "no log4rs encode configured");
}

#[test]
fn encoder_needs_enable() {
    for enable in [None, Some(false)] {
        let r = create_log4rs_encoder(&settings(vec![log4rs(enable, "x")]));
        assert_eq!(r.unwrap_err(), EncoderSetupError::NotEnabled);
    }
    assert_eq!(EncoderSetupError::NotEnabled.message(), "log4rs encoder not enabled");
}

#[test]
fn encoder_from_first_configured() {
    let s = settings(vec![log4rs(Some(true), "data_encoder"), log4rs(Some(false), "other")]);
    let e = create_log4rs_encoder(&s).unwrap();
    assert_eq!(e.settings.logger_name, "data_encoder");
    assert_eq!(e.settings.enable, Some(true));
    let s = settings(vec![log4rs(Some(false), "a"), log4rs(Some(true), "b")]);
    assert_eq!(create_log4rs_encoder(&s).unwrap_err(), EncoderSetupError::NotEnabled);
}

fn parse(s: &str) -> serde_json::Value {
    serde_json::from_str(s).unwrap()
}

#[test]
fn event_not_array() {
    let s = start_event(&parse("{\"a\":1}"), true);
    match s {
        EventStep::Respond(r) => {
            assert!(matches!(r, EventResponse::NotArray));
            assert_eq!(r.status(), 500);
            assert_eq!(
                r.message(),
                "JSON data is not an array. Make sure to configure Auth0 log stream content format to JSON Array"
            );
        }
        EventStep::Encode => panic!("expected a refusal"),
    }
}

#[test]
fn event_without_encoder() {
    match start_event(&parse("[]"), false) {
        EventStep::Respond(r) => {
            assert!(matches!(r, EventResponse::NoEncoder));
            assert_eq!(r.status(), 500);
            let b = r.error_body().unwrap();
            assert_eq!((b.code, b.status.as_str()), (500, "error"));
            assert_eq!(b.message, "No encoder found in app_data");
            assert_eq!(r.message(), "No encoder found in app_data");
        }
        EventStep::Encode => panic!("expected a refusal"),
    }
}

#[test]
fn event_goes_to_encoder() {
    assert!(matches!(start_event(&parse("[1]"), true), EventStep::Encode));
    let r = finish_event(Ok(()));
    assert!(matches!(r, EventResponse::Success));
    assert_eq!(r.status(), 200);
    assert_eq!(r.message(), "SUCCESS");
    assert!(r.error_body().is_none());
}

#[test]
fn event_encoder_failure() {
    let e = EncodeError::new("bad \"x\"");
    let expected = format!("Error decoding value: {:?}", e);
    let r = finish_event(Err(e));
    assert_eq!(r.status(), 500);
    assert_eq!(r.message(), expected);
    assert_eq!(r.message(), "Error decoding value: EncodeError { msg: \"bad \\\"x\\\"\" }");
}
