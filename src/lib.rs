//! The interaction core of a small code-runner page: the text being edited,
//! the submission of that text to an execution endpoint, and the two
//! notification banners (info and error) that show a reply for a while.
//!
//! Everything here is a pure state machine. The host page performs the
//! commands that `App::update` hands back (posting the code, arming the
//! dismissal timer) and feeds their completions back in as messages.

mod content;
mod runner;
pub mod laws;

pub use content::{DISMISS_DELAY_MS, EXAMPLE_CODE, PLACEHOLDER, STATUS_ERROR, URL};
pub use runner::{App, AppMsg, Command, Effects, Screen, SendError};
pub use runner::{
    completion, initial_model, reply_model, next_state, reaction, screen_of, shown, AppModel, CommandModel,
    MsgModel, ScreenModel,
};
