//! The service's configuration: where each provider is reached and with which
//! credential, checked once at startup from the values of environment variables.
use vstd::prelude::*;
use hyper::header::{HeaderValue, InvalidHeaderValue};
use std::num::ParseIntError;
use std::str::ParseBoolError;
use url::ParseError;
use crate::util::{parse_url, parsed_url};

verus! {

pub const TRACE_EXPORTER_ENVNAME: &'static str = "WYGC_ENABLE_TRACE_EXPORT";
pub const TRACE_EXPORTER_DEFAULT: bool = false;
pub const LOG_EXPORTER_ENVNAME: &'static str = "WYGC_ENABLE_LOG_EXPORT";
pub const LOG_EXPORTER_DEFAULT: bool = false;
pub const BIND_ADDRESS_ENVNAME: &'static str = "WYGC_BIND_ADDRESS";
pub const BIND_ADDRESS_DEFAULT: &'static str = "0.0.0.0";
pub const BIND_PORT_ENVNAME: &'static str = "WYGC_BIND_PORT";
pub const BIND_PORT_DEFAULT: &'static str = "2368";
pub const TWILIO_TOKEN_ENVNAME: &'static str = "WYGC_TWILIO_TOKEN";
pub const TWILIO_BASEURL_ENVNAME: &'static str = "WYGC_TWILIO_BASEURL";
pub const TWILIO_BASEURL_DEFAULT: &'static str = "https://studio.twilio.com/v2/Flows/";
pub const TWILIO_WORKFLOW_ENVNAME: &'static str = "WYGC_TWILIO_WORKFLOW";
pub const TWILIO_OUTGOING_NUMBER_ENVNAME: &'static str = "WYGC_TWILIO_OUTNUMBER";
pub const OPSGENIE_TOKEN_ENVNAME: &'static str = "WYGC_OPSGENIE_TOKEN";
pub const OPSGENIE_BASEURL_ENVNAME: &'static str = "WYGC_OPSGENIE_BASEURL";
pub const OPSGENIE_BASEURL_DEFAULT: &'static str = "https://api.opsgenie.com/v2/";
pub const SLACK_TOKEN_ENVNAME: &'static str = "WYGC_SLACK_TOKEN";
pub const SLACK_BASEURL_ENVNAME: &'static str = "WYGC_SLACK_BASEURL";
pub const OPSGENIE_SERVICE: &'static str = "OpsGenie";
pub const TWILIO_SERVICE: &'static str = "Twilio";
pub const SLACK_SERVICE: &'static str = "slack";

/// `http::HeaderValue`, carried as it is.
#[verifier::external_type_specification]
#[verifier::external_body]
pub struct ExHeaderValue(HeaderValue);

/// `http::header::InvalidHeaderValue`, carried in an error.
#[verifier::external_type_specification]
#[verifier::external_body]
pub struct ExInvalidHeaderValue(InvalidHeaderValue);

/// `std::num::ParseIntError`, carried in an error.
#[verifier::external_type_specification]
#[verifier::external_body]
pub struct ExParseIntError(ParseIntError);

/// `std::str::ParseBoolError`, carried in an error.
#[verifier::external_type_specification]
#[verifier::external_body]
pub struct ExParseBoolError(ParseBoolError);

/// A byte that an HTTP header value may hold: a tab, or anything from a space
/// up but DEL. A character beyond ASCII is encoded in such bytes only.
pub open spec fn is_header_char(c: char) -> bool {
    c == '\t' || (c as u32 >= 32 && c as u32 != 127)
}

pub open spec fn is_header_text(s: Seq<char>) -> bool {
    forall|i: int| 0 <= i < s.len() ==> is_header_char(#[trigger] s[i])
}

/// Relies on `http::HeaderValue::from_str`: it refuses a text exactly when one
/// of its bytes is a control character other than a tab.
pub assume_specification[ HeaderValue::from_str ](src: &str) -> (r: Result<
    HeaderValue,
    InvalidHeaderValue,
>)
    ensures
        r is Ok <==> is_header_text(src@),
;

/// Relies on `http::HeaderValue::set_sensitive`, which masks the value in its
/// `Debug` output.
pub assume_specification[ HeaderValue::set_sensitive ](value: &mut HeaderValue, val: bool);

/// Relies on `Clone` of `http::HeaderValue`, so that a configuration can be
/// cloned; nothing is claimed of the copy.
pub assume_specification[ <HeaderValue as Clone>::clone ](value: &HeaderValue) -> HeaderValue;

/// The value of a decimal number.
pub open spec fn decimal_value(s: Seq<char>) -> int
    decreases s.len(),
{
    if s.len() == 0 {
        0
    } else {
        decimal_value(s.drop_last()) * 10 + (s.last() as u32 - '0' as u32)
    }
}

pub open spec fn is_decimal(s: Seq<char>) -> bool {
    s.len() > 0 && forall|i: int| 0 <= i < s.len() ==> '0' <= #[trigger] s[i] <= '9'
}

/// What `u16::from_str` reads from a text: an optional `+`, then decimal
/// digits up to 65535.
pub open spec fn port_number(s: Seq<char>) -> Option<u16> {
    let digits = if s.len() > 0 && s[0] == '+' {
        s.drop_first()
    } else {
        s
    };
    if is_decimal(digits) && decimal_value(digits) <= u16::MAX {
        Some(decimal_value(digits) as u16)
    } else {
        None
    }
}

/// Relies on `u16::from_str`: an optional `+` then decimal digits, at most 65535.
#[verifier::external_body]
fn parse_port(s: &str) -> (r: Result<u16, ParseIntError>)
    ensures
        match r {
            Ok(n) => port_number(s@) == Some(n),
            Err(_) => port_number(s@) is None,
        },
{
    s.parse::<u16>()
}

/// Relies on `bool::from_str`: only `true` and `false` are read.
#[verifier::external_body]
fn parse_bool(s: &str) -> (r: Result<bool, ParseBoolError>)
    ensures
        match r {
            Ok(b) => (b && s@ == "true"@) || (!b && s@ == "false"@),
            Err(_) => s@ != "true"@ && s@ != "false"@,
        },
{
    s.parse::<bool>()
}

/// What the environment holds for one variable.
#[derive(Debug, Clone, PartialEq, Eq, Hash)]
pub enum EnvValue {
    NotSet,
    NotUnicode,
    Value(String),
}

/// A credential ready to be sent as an `Authorization` header. Its `Debug`
/// output shows no part of it.
#[derive(Debug, Clone)]
pub struct AuthHeader(HeaderValue);

impl AuthHeader {
    /// The header value itself, for the one place that sends it.
    pub fn expose_secret(&self) -> &HeaderValue {
        &self.0
    }
}

#[derive(Debug)]
pub enum ConfigError {
    ParseBindAddress { envname: String },
    ConvertOsString { envname: String },
    MissingRequiredValue { envname: String },
    ConstructBaseUrl { source: ParseError, service: String },
    ConstructAuthHeader { source: InvalidHeaderValue, envname: String },
    ParsePort { source: ParseIntError, envname: String },
    ParseBool { source: ParseBoolError, envname: String },
    ConvertEnvString { envname: String },
}

pub open spec fn is_not_unicode(e: ConfigError, name: Seq<char>) -> bool {
    e matches ConfigError::ConvertOsString { envname } && envname@ == name
}

pub open spec fn is_missing(e: ConfigError, name: Seq<char>) -> bool {
    e matches ConfigError::MissingRequiredValue { envname } && envname@ == name
}

pub open spec fn is_bad_url(e: ConfigError, name: Seq<char>) -> bool {
    e matches ConfigError::ConstructBaseUrl { service, .. } && service@ == name
}

pub open spec fn is_bad_header(e: ConfigError, name: Seq<char>) -> bool {
    e matches ConfigError::ConstructAuthHeader { envname, .. } && envname@ == name
}

pub open spec fn is_bad_port(e: ConfigError, name: Seq<char>) -> bool {
    e matches ConfigError::ParsePort { envname, .. } && envname@ == name
}

pub open spec fn is_bad_bool(e: ConfigError, name: Seq<char>) -> bool {
    e matches ConfigError::ParseBool { envname, .. } && envname@ == name
}

pub open spec fn is_unreadable_bool(e: ConfigError, name: Seq<char>) -> bool {
    e matches ConfigError::ConvertEnvString { envname } && envname@ == name
}

/// The text of a variable, `default` where it is not set, nothing where it is
/// not Unicode.
pub open spec fn value_or(v: EnvValue, default: Seq<char>) -> Option<Seq<char>> {
    match v {
        EnvValue::NotSet => Some(default),
        EnvValue::NotUnicode => None,
        EnvValue::Value(s) => Some(s@),
    }
}

/// Whether a variable holds a credential that can be sent as a header.
pub open spec fn secret_ok(v: EnvValue) -> bool {
    v matches EnvValue::Value(s) && is_header_text(s@)
}

/// The error for a credential variable that does not hold a usable credential.
pub open spec fn secret_error(v: EnvValue, name: Seq<char>, e: ConfigError) -> bool {
    match v {
        EnvValue::NotSet => is_missing(e, name),
        EnvValue::NotUnicode => is_not_unicode(e, name),
        EnvValue::Value(s) => !is_header_text(s@) && is_bad_header(e, name),
    }
}

/// Whether a variable, or the default where it is not set, holds a URL.
pub open spec fn base_url_ok(v: EnvValue, default: Seq<char>) -> bool {
    value_or(v, default) matches Some(t) && parsed_url(t) is Some
}

/// The URL that a variable, or the default, holds.
pub open spec fn base_url_of(v: EnvValue, default: Seq<char>) -> Seq<char> {
    parsed_url(value_or(v, default)->0)->0
}

/// The error for a URL variable that does not hold a URL.
pub open spec fn base_url_error(
    v: EnvValue,
    default: Seq<char>,
    name: Seq<char>,
    service: Seq<char>,
    e: ConfigError,
) -> bool {
    match value_or(v, default) {
        None => is_not_unicode(e, name),
        Some(t) => parsed_url(t) is None && is_bad_url(e, service),
    }
}

/// The error for a variable that must be set and is not, or is not Unicode.
pub open spec fn required_error(v: EnvValue, name: Seq<char>, e: ConfigError) -> bool {
    match v {
        EnvValue::NotSet => is_missing(e, name),
        EnvValue::NotUnicode => is_not_unicode(e, name),
        EnvValue::Value(_) => false,
    }
}

fn text_of(s: &str) -> (r: String)
    ensures
        r@ == s@,
{
    String::from_str(s)
}

/// Reads a credential from the value of the variable `envname`.
fn get_secret_header_from_env(envname: &str, value: EnvValue) -> (r: Result<
    AuthHeader,
    ConfigError,
>)
    ensures
        r is Ok <==> secret_ok(value),
        r matches Err(e) ==> secret_error(value, envname@, e),
{
    match value {
        EnvValue::NotSet => Err(ConfigError::MissingRequiredValue { envname: text_of(envname) }),
        EnvValue::NotUnicode => Err(ConfigError::ConvertOsString { envname: text_of(envname) }),
        EnvValue::Value(text) => match HeaderValue::from_str(text.as_str()) {
            Ok(mut header) => {
                header.set_sensitive(true);
                Ok(AuthHeader(header))
            },
            Err(source) => Err(
                ConfigError::ConstructAuthHeader { source, envname: text_of(envname) },
            ),
        },
    }
}

/// Reads a URL from the value of the variable `envname`, or from `default`
/// where it is not set.
fn base_url_from_env(envname: &str, service: &str, value: EnvValue, default: &str) -> (r: Result<
    String,
    ConfigError,
>)
    ensures
        r is Ok <==> base_url_ok(value, default@),
        r matches Ok(u) ==> u@ == base_url_of(value, default@),
        r matches Err(e) ==> base_url_error(value, default@, envname@, service@, e),
{
    let parsed = match &value {
        EnvValue::NotSet => parse_url(default),
        EnvValue::NotUnicode => {
            return Err(ConfigError::ConvertOsString { envname: text_of(envname) });
        },
        EnvValue::Value(text) => parse_url(text.as_str()),
    };
    match parsed {
        Ok(u) => Ok(u),
        Err(source) => Err(ConfigError::ConstructBaseUrl { source, service: text_of(service) }),
    }
}

/// Reads the value of a variable that must be set.
fn required_from_env(envname: &str, value: EnvValue) -> (r: Result<String, ConfigError>)
    ensures
        r is Ok <==> value is Value,
        r matches Ok(s) ==> s@ == value->Value_0@,
        r matches Err(e) ==> required_error(value, envname@, e),
{
    match value {
        EnvValue::NotSet => Err(ConfigError::MissingRequiredValue { envname: text_of(envname) }),
        EnvValue::NotUnicode => Err(ConfigError::ConvertOsString { envname: text_of(envname) }),
        EnvValue::Value(text) => Ok(text),
    }
}

/// Where the roster provider is reached, and with which credential.
#[derive(Debug, Clone)]
pub struct OpsgenieConfig {
    pub base_url: String,
    pub credentials: AuthHeader,
}

/// Where the dialer provider is reached, with which credential, which
/// workflow it runs by default, and the number that calls come from.
#[derive(Debug, Clone)]
pub struct TwilioConfig {
    pub base_url: String,
    pub credentials: AuthHeader,
    pub workflow_id: String,
    pub outgoing_number: String,
}

/// The optional chat notification channel.
#[derive(Debug, Clone)]
pub struct SlackConfig {
    pub url: String,
    pub token: AuthHeader,
}

pub open spec fn opsgenie_ok(base_url: EnvValue, token: EnvValue) -> bool {
    base_url_ok(base_url, OPSGENIE_BASEURL_DEFAULT@) && secret_ok(token)
}

/// The error that the roster provider's configuration fails with: the URL is
/// looked at first.
pub open spec fn opsgenie_error(base_url: EnvValue, token: EnvValue, e: ConfigError) -> bool {
    if !base_url_ok(base_url, OPSGENIE_BASEURL_DEFAULT@) {
        base_url_error(
            base_url,
            OPSGENIE_BASEURL_DEFAULT@,
            OPSGENIE_BASEURL_ENVNAME@,
            OPSGENIE_SERVICE@,
            e,
        )
    } else {
        secret_error(token, OPSGENIE_TOKEN_ENVNAME@, e)
    }
}

impl OpsgenieConfig {
    /// The roster provider's configuration, from the values of its URL and
    /// token variables; the URL has a default.
    pub fn new(base_url: EnvValue, token: EnvValue) -> (r: Result<Self, ConfigError>)
        ensures
            r is Ok <==> opsgenie_ok(base_url, token),
            r matches Ok(c) ==> c.base_url@ == base_url_of(base_url, OPSGENIE_BASEURL_DEFAULT@),
            r matches Err(e) ==> opsgenie_error(base_url, token, e),
    {
        let base_url = base_url_from_env(
            OPSGENIE_BASEURL_ENVNAME,
            OPSGENIE_SERVICE,
            base_url,
            OPSGENIE_BASEURL_DEFAULT,
        )?;
        let credentials = get_secret_header_from_env(OPSGENIE_TOKEN_ENVNAME, token)?;
        Ok(OpsgenieConfig { base_url, credentials })
    }
}

pub open spec fn twilio_ok(
    base_url: EnvValue,
    token: EnvValue,
    workflow_id: EnvValue,
    outgoing_number: EnvValue,
) -> bool {
    &&& base_url_ok(base_url, TWILIO_BASEURL_DEFAULT@)
    &&& secret_ok(token)
    &&& workflow_id is Value
    &&& outgoing_number is Value
}

/// The error that the dialer provider's configuration fails with: URL, token,
/// workflow and outgoing number are looked at in this order.
pub open spec fn twilio_error(
    base_url: EnvValue,
    token: EnvValue,
    workflow_id: EnvValue,
    outgoing_number: EnvValue,
    e: ConfigError,
) -> bool {
    if !base_url_ok(base_url, TWILIO_BASEURL_DEFAULT@) {
        base_url_error(
            base_url,
            TWILIO_BASEURL_DEFAULT@,
            TWILIO_BASEURL_ENVNAME@,
            TWILIO_SERVICE@,
            e,
        )
    } else if !secret_ok(token) {
        secret_error(token, TWILIO_TOKEN_ENVNAME@, e)
    } else if !(workflow_id is Value) {
        required_error(workflow_id, TWILIO_WORKFLOW_ENVNAME@, e)
    } else {
        required_error(outgoing_number, TWILIO_OUTGOING_NUMBER_ENVNAME@, e)
    }
}

impl TwilioConfig {
    /// The dialer provider's configuration, from the values of its variables;
    /// the URL has a default, the others must be set.
    pub fn new(
        base_url: EnvValue,
        token: EnvValue,
        workflow_id: EnvValue,
        outgoing_number: EnvValue,
    ) -> (r: Result<Self, ConfigError>)
        ensures
            r is Ok <==> twilio_ok(base_url, token, workflow_id, outgoing_number),
            r matches Ok(c) ==> {
                &&& c.base_url@ == base_url_of(base_url, TWILIO_BASEURL_DEFAULT@)
                &&& c.workflow_id@ == workflow_id->Value_0@
                &&& c.outgoing_number@ == outgoing_number->Value_0@
            },
            r matches Err(e) ==> twilio_error(base_url, token, workflow_id, outgoing_number, e),
    {
        let base_url = base_url_from_env(
            TWILIO_BASEURL_ENVNAME,
            TWILIO_SERVICE,
            base_url,
            TWILIO_BASEURL_DEFAULT,
        )?;
        let credentials = get_secret_header_from_env(TWILIO_TOKEN_ENVNAME, token)?;
        let workflow_id = required_from_env(TWILIO_WORKFLOW_ENVNAME, workflow_id)?;
        let outgoing_number = required_from_env(TWILIO_OUTGOING_NUMBER_ENVNAME, outgoing_number)?;
        Ok(TwilioConfig { base_url, credentials, workflow_id, outgoing_number })
    }
}

pub open spec fn slack_ok(url: EnvValue, token: EnvValue) -> bool {
    url is NotSet || (url matches EnvValue::Value(u) && parsed_url(u@) is Some && secret_ok(token))
}

/// The error that the chat channel's configuration fails with.
pub open spec fn slack_error(url: EnvValue, token: EnvValue, e: ConfigError) -> bool {
    match url {
        EnvValue::NotSet => false,
        EnvValue::NotUnicode => is_not_unicode(e, SLACK_BASEURL_ENVNAME@),
        EnvValue::Value(u) => if parsed_url(u@) is None {
            is_bad_url(e, SLACK_SERVICE@)
        } else {
            secret_error(token, SLACK_TOKEN_ENVNAME@, e)
        },
    }
}

impl SlackConfig {
    /// The chat channel's configuration. Without a URL the channel is off,
    /// which is no error; with a URL, the token must be there too.
    pub fn new(url: EnvValue, token: EnvValue) -> (r: Result<Option<Self>, ConfigError>)
        ensures
            r is Ok <==> slack_ok(url, token),
            r == Ok::<Option<Self>, ConfigError>(None) <==> url is NotSet,
            r matches Ok(Some(c)) ==> parsed_url(url->Value_0@) == Some(c.url@),
            r matches Err(e) ==> slack_error(url, token, e),
    {
        match url {
            EnvValue::NotSet => Ok(None),
            EnvValue::NotUnicode => Err(
                ConfigError::ConvertOsString { envname: text_of(SLACK_BASEURL_ENVNAME) },
            ),
            EnvValue::Value(text) => {
                let url = match parse_url(text.as_str()) {
                    Ok(u) => u,
                    Err(source) => {
                        return Err(
                            ConfigError::ConstructBaseUrl { source, service: text_of(SLACK_SERVICE) },
                        );
                    },
                };
                let token = get_secret_header_from_env(SLACK_TOKEN_ENVNAME, token)?;
                Ok(Some(SlackConfig { url, token }))
            },
        }
    }
}

/// The values of the environment variables that the configuration is read from.
#[derive(Debug, Clone, PartialEq, Eq, Hash)]
pub struct ConfigEnv {
    pub bind_port: EnvValue,
    pub twilio_base_url: EnvValue,
    pub twilio_token: EnvValue,
    pub twilio_workflow: EnvValue,
    pub twilio_outgoing_number: EnvValue,
    pub opsgenie_base_url: EnvValue,
    pub opsgenie_token: EnvValue,
    pub slack_base_url: EnvValue,
    pub slack_token: EnvValue,
}

/// The whole configuration of the service.
#[derive(Debug, Clone)]
pub struct Config {
    pub bind_address: [u8; 4],
    pub bind_port: u16,
    pub opsgenie_config: OpsgenieConfig,
    pub twilio_config: TwilioConfig,
    pub slack_config: Option<SlackConfig>,
}

pub open spec fn port_ok(v: EnvValue) -> bool {
    value_or(v, BIND_PORT_DEFAULT@) matches Some(t) && port_number(t) is Some
}

pub open spec fn port_error(v: EnvValue, e: ConfigError) -> bool {
    match value_or(v, BIND_PORT_DEFAULT@) {
        None => is_not_unicode(e, BIND_PORT_ENVNAME@),
        Some(t) => port_number(t) is None && is_bad_port(e, BIND_PORT_ENVNAME@),
    }
}

pub open spec fn config_ok(env: ConfigEnv) -> bool {
    &&& port_ok(env.bind_port)
    &&& twilio_ok(
        env.twilio_base_url,
        env.twilio_token,
        env.twilio_workflow,
        env.twilio_outgoing_number,
    )
    &&& opsgenie_ok(env.opsgenie_base_url, env.opsgenie_token)
    &&& slack_ok(env.slack_base_url, env.slack_token)
}

/// The error that the configuration fails with: port, dialer provider,
/// roster provider and chat channel are looked at in this order.
pub open spec fn config_error(env: ConfigEnv, e: ConfigError) -> bool {
    if !port_ok(env.bind_port) {
        port_error(env.bind_port, e)
    } else if !twilio_ok(
        env.twilio_base_url,
        env.twilio_token,
        env.twilio_workflow,
        env.twilio_outgoing_number,
    ) {
        twilio_error(
            env.twilio_base_url,
            env.twilio_token,
            env.twilio_workflow,
            env.twilio_outgoing_number,
            e,
        )
    } else if !opsgenie_ok(env.opsgenie_base_url, env.opsgenie_token) {
        opsgenie_error(env.opsgenie_base_url, env.opsgenie_token, e)
    } else {
        slack_error(env.slack_base_url, env.slack_token, e)
    }
}

impl Config {
    /// The configuration, from the address to listen on and the values of the
    /// environment variables. It fails on the first part that is wrong; the
    /// chat channel is off where its URL is not set.
    pub fn new(bind_address: [u8; 4], env: ConfigEnv) -> (r: Result<Self, ConfigError>)
        ensures
            r is Ok <==> config_ok(env),
            r matches Ok(c) ==> {
                &&& c.bind_address == bind_address
                &&& Some(c.bind_port) == port_number(value_or(env.bind_port, BIND_PORT_DEFAULT@)->0)
                &&& c.twilio_config.base_url@ == base_url_of(
                    env.twilio_base_url,
                    TWILIO_BASEURL_DEFAULT@,
                )
                &&& c.twilio_config.workflow_id@ == env.twilio_workflow->Value_0@
                &&& c.twilio_config.outgoing_number@ == env.twilio_outgoing_number->Value_0@
                &&& c.opsgenie_config.base_url@ == base_url_of(
                    env.opsgenie_base_url,
                    OPSGENIE_BASEURL_DEFAULT@,
                )
                &&& (c.slack_config is None <==> env.slack_base_url is NotSet)
                &&& (c.slack_config matches Some(s) ==> parsed_url(env.slack_base_url->Value_0@)
                    == Some(s.url@))
            },
            r matches Err(e) ==> config_error(env, e),
    {
        let ConfigEnv {
            bind_port,
            twilio_base_url,
            twilio_token,
            twilio_workflow,
            twilio_outgoing_number,
            opsgenie_base_url,
            opsgenie_token,
            slack_base_url,
            slack_token,
        } = env;
        let port_result = match &bind_port {
            EnvValue::NotSet => parse_port(BIND_PORT_DEFAULT),
            EnvValue::NotUnicode => {
                return Err(ConfigError::ConvertOsString { envname: text_of(BIND_PORT_ENVNAME) });
            },
            EnvValue::Value(text) => parse_port(text.as_str()),
        };
        let bind_port = match port_result {
            Ok(port) => port,
            Err(source) => {
                return Err(ConfigError::ParsePort { source, envname: text_of(BIND_PORT_ENVNAME) });
            },
        };
        let twilio_config = TwilioConfig::new(
            twilio_base_url,
            twilio_token,
            twilio_workflow,
            twilio_outgoing_number,
        )?;
        let opsgenie_config = OpsgenieConfig::new(opsgenie_base_url, opsgenie_token)?;
        let slack_config = SlackConfig::new(slack_base_url, slack_token)?;
        Ok(Config { bind_address, bind_port, opsgenie_config, twilio_config, slack_config })
    }
}

/// What a flag variable says: `default` where it is not set, nothing where it
/// is not Unicode or is neither `true` nor `false`.
pub open spec fn env_bool(v: EnvValue, default: bool) -> Option<bool> {
    match v {
        EnvValue::NotSet => Some(default),
        EnvValue::NotUnicode => None,
        EnvValue::Value(s) => if s@ == "true"@ {
            Some(true)
        } else if s@ == "false"@ {
            Some(false)
        } else {
            None
        },
    }
}

/// The error for a flag variable that does not say `true` or `false`.
pub open spec fn bool_error(v: EnvValue, name: Seq<char>, e: ConfigError) -> bool {
    match v {
        EnvValue::NotSet => false,
        EnvValue::NotUnicode => is_unreadable_bool(e, name),
        EnvValue::Value(_) => is_bad_bool(e, name),
    }
}

/// Reads a flag from the value of the variable `envname`.
fn extract_env_as_bool(envname: &str, value: EnvValue, default: bool) -> (r: Result<
    bool,
    ConfigError,
>)
    ensures
        r matches Ok(b) ==> env_bool(value, default) == Some(b),
        r matches Err(e) ==> env_bool(value, default) is None && bool_error(value, envname@, e),
{
    match value {
        EnvValue::NotSet => Ok(default),
        EnvValue::NotUnicode => Err(ConfigError::ConvertEnvString { envname: text_of(envname) }),
        EnvValue::Value(text) => match parse_bool(text.as_str()) {
            Ok(b) => {
                proof {
                    reveal_strlit("true");
                    reveal_strlit("false");
                    assert("true"@[0] != "false"@[0]);
                }
                Ok(b)
            },
            Err(source) => Err(ConfigError::ParseBool { source, envname: text_of(envname) }),
        },
    }
}

/// Whether traces are exported, from the value of its variable; off by default.
pub fn enable_trace_exporter(value: EnvValue) -> (r: Result<bool, ConfigError>)
    ensures
        r matches Ok(b) ==> env_bool(value, TRACE_EXPORTER_DEFAULT) == Some(b),
        r matches Err(e) ==> env_bool(value, TRACE_EXPORTER_DEFAULT) is None && bool_error(
            value,
            TRACE_EXPORTER_ENVNAME@,
            e,
        ),
{
    extract_env_as_bool(TRACE_EXPORTER_ENVNAME, value, TRACE_EXPORTER_DEFAULT)
}

/// Whether logs are exported, from the value of its variable; off by default.
pub fn enable_log_exporter(value: EnvValue) -> (r: Result<bool, ConfigError>)
    ensures
        r matches Ok(b) ==> env_bool(value, LOG_EXPORTER_DEFAULT) == Some(b),
        r matches Err(e) ==> env_bool(value, LOG_EXPORTER_DEFAULT) is None && bool_error(
            value,
            LOG_EXPORTER_ENVNAME@,
            e,
        ),
{
    extract_env_as_bool(LOG_EXPORTER_ENVNAME, value, LOG_EXPORTER_DEFAULT)
}

} // verus!
