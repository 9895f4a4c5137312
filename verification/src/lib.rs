//! Verified core of a desktop front-end for the Homebrew package manager.
//!
//! The crate models the streaming command executor: the event protocol that
//! brackets a run of the external `brew` process (`start`, one event per
//! output line, `end`), the validation and argument shaping for each
//! subcommand, and the parsers for the package manager's line-oriented
//! output. Process spawning, stream draining and the UI shell are ordinary
//! I/O and live outside the verified library; they hand plain values in and
//! take plain values back.

pub mod detect;
pub mod events;
pub mod laws;
pub mod order;
pub mod parse;
pub mod pkg;
pub mod publisher;
pub mod respond;
pub mod stream;
pub mod text;
pub mod types;

pub use events::SourceKind;
pub use events::StreamEvent;
pub use events::to_brew_log;
pub use pkg::is_valid_pkg_name;
pub use publisher::Publisher;
pub use types::ApiResponse;
pub use types::BrewLogEvent;
pub use types::BrewPackage;
pub use types::BrewStatus;
pub use types::err;
pub use types::ok;
