//! A small command pad: two editable command templates, a queue of committed
//! commands, and the list of strings that running the queue produces.

pub mod command;
pub mod state;
pub mod template_app;

pub use command::UserFunctions;
pub use state::FunctionsState;
pub use template_app::TemplateApp;
