//! Core engine of a single-document text editor: document session state
//! (buffer identity, dirty tracking via content fingerprints), incremental
//! search with literal and regular-expression matching, match-set
//! navigation, single and bulk replacement, and command routing.

pub mod codec;
pub mod editor;
pub mod fingerprint;
pub mod matcher;
pub mod regex_search;
pub mod replace;
pub mod router;
pub mod search;
pub mod session;
pub mod text;

pub use editor::{Command, Editor, Effect, Event, Notice, PanelState, QuitDecision};
pub use fingerprint::fingerprint;
pub use router::{CommandId, CommandRouter, DuplicateBindingError};
pub use search::{SearchFlags, SearchQuery};
pub use session::DocumentSession;
