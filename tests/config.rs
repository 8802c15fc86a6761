use who_you_gonna_call::config::{
    enable_log_exporter, enable_trace_exporter, Config, ConfigEnv, ConfigError, EnvValue,
    OpsgenieConfig, SlackConfig, TwilioConfig,
};
use who_you_gonna_call::{health, Health};

fn set(s: &str) -> EnvValue {
    EnvValue::Value(s.to_string())
}

fn full_env() -> ConfigEnv {
    ConfigEnv {
        bind_port: EnvValue::NotSet,
        twilio_base_url: EnvValue::NotSet,
        twilio_token: set("Basic dHdpbGlv"),
        twilio_workflow: set("FW123"),
        twilio_outgoing_number: set("+4930123"),
        opsgenie_base_url: EnvValue::NotSet,
        opsgenie_token: set("GenieKey abc123"),
        slack_base_url: EnvValue::NotSet,
        slack_token: EnvValue::NotSet,
    }
}

#[test]
fn slack_without_url_is_disabled() {
    assert!(matches!(SlackConfig::new(EnvValue::NotSet, EnvValue::NotSet), Ok(None)));
    assert!(matches!(SlackConfig::new(EnvValue::NotSet, set("xoxb")), Ok(None)));
}

#[test]
fn slack_with_url_needs_token() {
    let r = SlackConfig::new(set("https://hooks.slack.com/x"), EnvValue::NotSet);
    match r {
        Err(ConfigError::MissingRequiredValue { envname }) => {
            assert_eq!(envname, "WYGC_SLACK_TOKEN")
        }
        other => panic!("unexpected {:?}", other),
    }
    let r = SlackConfig::new(set("https://hooks.slack.com/x"), set("Bearer xoxb")).unwrap();
    assert_eq!(r.unwrap().url, "https://hooks.slack.com/x");
}

#[test]
fn slack_with_bad_url_fails() {
    let r = SlackConfig::new(set("::"), set("Bearer xoxb"));
    assert!(matches!(r, Err(ConfigError::ConstructBaseUrl { ref service, .. }) if service == "slack"));
    let r = SlackConfig::new(EnvValue::NotUnicode, set("Bearer xoxb"));
    assert!(matches!(r, Err(ConfigError::ConvertOsString { .. })));
}

#[test]
fn opsgenie_uses_the_default_url() {
    let c = OpsgenieConfig::new(EnvValue::NotSet, set("GenieKey abc")).unwrap();
    assert_eq!(c.base_url, "https://api.opsgenie.com/v2/");
    let c = OpsgenieConfig::new(set("http://localhost:8080"), set("GenieKey abc")).unwrap();
    assert_eq!(c.base_url, "http://localhost:8080/");
}

#[test]
fn credential_is_not_shown_in_debug_output() {
    let c = OpsgenieConfig::new(EnvValue::NotSet, set("GenieKey topsecret")).unwrap();
    let shown = format!("{:?}", c);
    assert!(!shown.contains("topsecret"));
    assert_eq!(c.credentials.expose_secret().to_str().unwrap(), "GenieKey topsecret");
}

#[test]
fn credential_with_control_character_is_refused() {
    let r = OpsgenieConfig::new(EnvValue::NotSet, set("GenieKey a\nb"));
    match r {
        Err(ConfigError::ConstructAuthHeader { envname, .. }) => {
            assert_eq!(envname, "WYGC_OPSGENIE_TOKEN")
        }
        other => panic!("unexpected {:?}", other),
    }
    assert!(OpsgenieConfig::new(EnvValue::NotSet, set("GenieKey a\tb")).is_ok());
}

#[test]
fn missing_credential_is_an_error() {
    let r = OpsgenieConfig::new(EnvValue::NotSet, EnvValue::NotSet);
    assert!(matches!(r, Err(ConfigError::MissingRequiredValue { .. })));
    let r = OpsgenieConfig::new(EnvValue::NotSet, EnvValue::NotUnicode);
    assert!(matches!(r, Err(ConfigError::ConvertOsString { .. })));
}

#[test]
fn bad_url_is_reported_before_the_token() {
    let r = OpsgenieConfig::new(set("not a url"), EnvValue::NotSet);
    assert!(matches!(r, Err(ConfigError::ConstructBaseUrl { ref service, .. }) if service == "OpsGenie"));
}

#[test]
fn twilio_needs_workflow_and_outgoing_number() {
    let r = TwilioConfig::new(EnvValue::NotSet, set("Basic x"), EnvValue::NotSet, set("+49"));
    match r {
        Err(ConfigError::MissingRequiredValue { envname }) => {
            assert_eq!(envname, "WYGC_TWILIO_WORKFLOW")
        }
        other => panic!("unexpected {:?}", other),
    }
    let r = TwilioConfig::new(EnvValue::NotSet, set("Basic x"), set("FW1"), EnvValue::NotUnicode);
    match r {
        Err(ConfigError::ConvertOsString { envname }) => {
            assert_eq!(envname, "WYGC_TWILIO_OUTNUMBER")
        }
        other => panic!("unexpected {:?}", other),
    }
    let c = TwilioConfig::new(EnvValue::NotSet, set("Basic x"), set("FW1"), set("+49")).unwrap();
    assert_eq!(c.base_url, "https://studio.twilio.com/v2/Flows/");
    assert_eq!(c.workflow_id, "FW1");
    assert_eq!(c.outgoing_number, "+49");
}

#[test]
fn whole_configuration_with_defaults() {
    let c = Config::new([127, 0, 0, 1], full_env()).unwrap();
    assert_eq!(c.bind_address, [127, 0, 0, 1]);
    assert_eq!(c.bind_port, 2368);
    assert!(c.slack_config.is_none());
    assert_eq!(c.twilio_config.workflow_id, "FW123");
}

#[test]
fn port_is_read_from_its_variable() {
    let mut env = full_env();
    env.bind_port = set("+8080");
    assert_eq!(Config::new([0, 0, 0, 0], env).unwrap().bind_port, 8080);
    let mut env = full_env();
    env.bind_port = set("65536");
    assert!(matches!(Config::new([0, 0, 0, 0], env), Err(ConfigError::ParsePort { .. })));
    let mut env = full_env();
    env.bind_port = set("-1");
    assert!(matches!(Config::new([0, 0, 0, 0], env), Err(ConfigError::ParsePort { .. })));
    let mut env = full_env();
    env.bind_port = EnvValue::NotUnicode;
    assert!(matches!(Config::new([0, 0, 0, 0], env), Err(ConfigError::ConvertOsString { .. })));
}

#[test]
fn configuration_fails_on_the_first_wrong_part() {
    let mut env = full_env();
    env.opsgenie_token = EnvValue::NotSet;
    env.slack_base_url = set("::");
    match Config::new([0, 0, 0, 0], env) {
        Err(ConfigError::MissingRequiredValue { envname }) => {
            assert_eq!(envname, "WYGC_OPSGENIE_TOKEN")
        }
        other => panic!("unexpected {:?}", other),
    }
    let mut env = full_env();
    env.slack_base_url = set("https://hooks.slack.com/x");
    assert!(matches!(
        Config::new([0, 0, 0, 0], env),
        Err(ConfigError::MissingRequiredValue { .. })
    ));
}

#[test]
fn exporter_flags() {
    assert_eq!(enable_trace_exporter(EnvValue::NotSet).unwrap(), false);
    assert_eq!(enable_trace_exporter(set("true")).unwrap(), true);
    assert_eq!(enable_log_exporter(set("false")).unwrap(), false);
    assert_eq!(enable_log_exporter(set("true")).unwrap(), true);
    match enable_trace_exporter(set("yes")) {
        Err(ConfigError::ParseBool { envname, .. }) => {
            assert_eq!(envname, "WYGC_ENABLE_TRACE_EXPORT")
        }
        other => panic!("unexpected {:?}", other),
    }
    assert!(matches!(
        enable_log_exporter(EnvValue::NotUnicode),
        Err(ConfigError::ConvertEnvString { .. })
    ));
}

#[test]
fn service_reports_healthy() {
    assert_eq!(health().health, Health::Healthy);
}
