//! The application state as a whole, and how it comes to be at start-up.

use vstd::prelude::*;
use crate::state::{FunctionsState, PadState};

verus! {

/// The application: all of its state is the command pad.
pub struct TemplateApp {
    pub functions_state: FunctionsState,
}

impl View for TemplateApp {
    type V = PadState;

    open spec fn view(&self) -> PadState {
        self.functions_state@
    }
}

impl Default for TemplateApp {
    fn default() -> (app: TemplateApp)
        ensures
            app@ == PadState::initial(),
    {
        TemplateApp { functions_state: FunctionsState::default() }
    }
}

impl TemplateApp {
    /// Starts the application from what the last session saved, if it saved
    /// anything. The pad is not carried over from one session to the next:
    /// with any snapshot, and with none, the application starts in the
    /// initial state.
    pub fn new(snapshot: Option<TemplateApp>) -> (app: TemplateApp)
        ensures
            app@ == PadState::initial(),
    {
        if let Some(mut app) = snapshot {
            app.functions_state = FunctionsState::default();
            return app;
        }
        TemplateApp::default()
    }
}

} // verus!
