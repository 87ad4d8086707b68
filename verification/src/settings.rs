//! The service's configuration and what is made from it.

use vstd::prelude::*;

use crate::encode::EncoderType;
use crate::log4rs::{Log4rsEncoder, Log4rsEncoderSettings};

verus! {

/// The command-line arguments.
#[derive(Debug)]
pub struct Args {
    pub config: Option<String>,
}

/// The service's configuration.
#[derive(Debug)]
pub struct Settings {
    pub address: String,
    pub api_token: String,
    pub log_config: Option<String>,
    pub encoders: Vec<EncoderType>,
}

/// The configuration file read when neither the command line nor the
/// environment names one.
pub open spec fn default_config_file() -> Seq<char> {
    "a3c-soc-auth0-events.yaml"@
}

/// The logging configuration read when the configuration names none.
pub open spec fn default_log_config() -> Seq<char> {
    "./log4rs.yaml"@
}

/// The configuration file to read: the one given on the command line, else
/// the one the environment variable `A3C_SOC_AUTH0_EVENTS_CONFIG_FILE` names,
/// else `a3c-soc-auth0-events.yaml`.
pub fn config_file_name(arg: Option<String>, env_value: Option<String>) -> (name: String)
    ensures
        name@ == match arg {
            Some(a) => a@,
            None => match env_value {
                Some(e) => e@,
                None => default_config_file(),
            },
        },
        arg is None && env_value is None ==> name@ == "a3c-soc-auth0-events.yaml"@,
{
    match arg {
        Some(a) => a,
        None => match env_value {
            Some(e) => e,
            None => String::from_str("a3c-soc-auth0-events.yaml"),
        },
    }
}

/// The logging configuration file to load: the configured one, else
/// `./log4rs.yaml`.
pub fn log_config_file(f: Option<String>) -> (name: String)
    ensures
        name@ == match f {
            Some(n) => n@,
            None => default_log_config(),
        },
        f is None ==> name@ == "./log4rs.yaml"@,
{
    match f {
        Some(n) => n,
        None => String::from_str("./log4rs.yaml"),
    }
}

/// Why no log4rs encoder could be made from the configuration.
#[derive(Debug, Clone, Copy, PartialEq, Eq)]
pub enum EncoderSetupError {
    /// No log4rs encoder is configured.
    NotConfigured,
    /// The log4rs encoder is configured but not enabled.
    NotEnabled,
}

impl EncoderSetupError {
    /// The error as it reads to a user.
    pub fn message(&self) -> (m: String)
        ensures
            m@ == match *self {
                EncoderSetupError::NotConfigured => "no log4rs encode configured"@,
                EncoderSetupError::NotEnabled => "log4rs encoder not enabled"@,
            },
    {
        match self {
            EncoderSetupError::NotConfigured => String::from_str("no log4rs encode configured"),
            EncoderSetupError::NotEnabled => String::from_str("log4rs encoder not enabled"),
        }
    }
}

/// The settings of the first log4rs encoder among `encoders`.
pub open spec fn first_log4rs(encoders: Seq<EncoderType>) -> Option<Log4rsEncoderSettings> {
    if encoders.len() == 0 {
        None
    } else {
        match encoders[0] {
            EncoderType::Log4rs(l) => Some(l),
        }
    }
}

/// Makes the log4rs encoder from the first log4rs encoder of the
/// configuration, which must be enabled (an unset `enable` counts as
/// disabled).
pub fn create_log4rs_encoder(settings: &Settings) -> (r: Result<Log4rsEncoder, EncoderSetupError>)
    ensures
        settings.encoders@.len() == 0 <==> r == Err::<Log4rsEncoder, EncoderSetupError>(
            EncoderSetupError::NotConfigured,
        ),
        settings.encoders@.len() > 0 ==> match settings.encoders@[0] {
            EncoderType::Log4rs(l) => if l.enable == Some(true) {
                r matches Ok(e) && e.settings == l
            } else {
                r == Err::<Log4rsEncoder, EncoderSetupError>(EncoderSetupError::NotEnabled)
            },
        },
        match first_log4rs(settings.encoders@) {
            None => r == Err::<Log4rsEncoder, EncoderSetupError>(EncoderSetupError::NotConfigured),
            Some(l) => if l.enable == Some(true) {
                r matches Ok(e) && e.settings == l
            } else {
                r == Err::<Log4rsEncoder, EncoderSetupError>(EncoderSetupError::NotEnabled)
            },
        },
{
    if settings.encoders.len() == 0 {
        return Err(EncoderSetupError::NotConfigured);
    }
    let l: &Log4rsEncoderSettings = match &settings.encoders[0] {
        EncoderType::Log4rs(l) => l,
    };
    let enabled = match l.enable {
        Some(b) => b,
        None => false,
    };
    if !enabled {
        return Err(EncoderSetupError::NotEnabled);
    }
    Ok(Log4rsEncoder::new(l.clone()))
}

} // verus!

verus! {

/// The encoder's settings are taken from the first configured encoder, whatever
/// they hold, and none are found only when no encoder is configured.
pub proof fn law_first_encoder_selected(encoders: Seq<EncoderType>)
    ensures
        first_log4rs(encoders) is None <==> encoders.len() == 0,
        encoders.len() > 0 ==> match encoders[0] {
            EncoderType::Log4rs(l) => first_log4rs(encoders) == Some(l),
        },
{
}

} // verus!
