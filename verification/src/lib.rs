//! Receives Auth0 log-stream events and turns them into log records.
//!
//! The crate holds the decisions of the service: how a batch of alerts is
//! turned into records for the log4rs logger, which requests the
//! authentication middleware lets through, how an incoming event is answered,
//! and how the configuration is chosen.

pub mod auth;
pub mod encode;
pub mod event;
pub mod json;
pub mod log4rs;
pub mod response;
pub mod settings;

pub use auth::{AuthDecision, AuthMiddleware, Authenticated, RequireAuth, Token};
pub use encode::{Encode, EncodeError, EncodeOutcome, EncodeSettings, EncoderType, EncodersSettings};
pub use event::{finish_event, start_event, EventResponse, EventStep};
pub use log4rs::{Alert, Log4rsEncoder, Log4rsEncoderSettings, Payload};
pub use response::ErrorResponse;
pub use settings::{create_log4rs_encoder, Args, EncoderSetupError, Settings};
