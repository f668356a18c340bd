//! Decision logic of the JSLab watch-manager plugin: the plugin state, the
//! event log, the commands behind UI clicks, the handling of the watch's
//! interconnect replies and the view model that the UI is rendered from.

pub mod events;
pub mod json;
pub mod laws;
pub mod layout;
pub mod messages;
pub mod protocol;
pub mod request_laws;
pub mod state;
pub mod text;
pub mod view;
