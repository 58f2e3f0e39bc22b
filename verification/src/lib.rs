//! A data-sharing hub: connected apps register entity sharings (data feeds),
//! other apps subscribe to them.  The core verified here is the command bus,
//! the polling-worker lifecycle manager, the sandboxed script-runner logic
//! (script sanitation, resource-limit supervision, output classification) and
//! the subscription fan-out notifier, together with the thin domain cores that
//! guard referential integrity in front of the storage repositories.

pub mod bus;
pub mod connected_app;
pub mod entity_sharing;
pub mod entity_subscription;
pub mod errors;
pub mod json;
pub mod polling;
pub mod script_runner;
pub mod script_sanitizer;
