//! Discord Rich Presence through the Discord Gateway, using the
//! `sdk.social_layer_presence` OAuth2 scope.
//!
//! This crate holds the protocol's logic with its specifications: the
//! activity model, the Gateway frames, the handling of Gateway messages, the
//! connection loop's decisions, the external image cache, token validation
//! and the OAuth2 requests. Connections, timers and HTTP are driven by the
//! caller, which performs the actions decided here.

pub mod activity;
pub mod client;
pub mod error;
pub mod external_assets;
pub mod gateway;
pub mod json;
pub mod payload;
pub mod presence;
pub mod status;
pub mod text;
pub mod utils;

pub use activity::{Activity, ActivityType, Assets, Timestamps};
pub use error::Error;
pub use external_assets::ExternalAssetsResolver;
pub use presence::PresenceStatus;
pub use status::ActivityStatus;
pub use utils::{CodeExchangeResponse, TokenRefreshResponse};
