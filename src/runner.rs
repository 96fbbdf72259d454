use vstd::prelude::*;

use crate::content::{DISMISS_DELAY_MS, PLACEHOLDER, STATUS_ERROR};

verus! {

// ---------------------------------------------------------------------------
// Mathematical model
// ---------------------------------------------------------------------------

/// The component's state as mathematical values.
pub struct AppModel {
    /// The text in the editor.
    pub code: Seq<char>,
    /// Text of the info slot.
    pub message: Option<Seq<char>>,
    /// Text of the error slot.
    pub error: Option<Seq<char>>,
    /// Whether the info banner is up.
    pub show_message: bool,
    /// Whether the error banner is up.
    pub show_error: bool,
}

impl AppModel {
    /// A banner that is up always has a text to show.
    pub open spec fn wf(self) -> bool {
        &&& self.show_message ==> self.message is Some
        &&& self.show_error ==> self.error is Some
    }
}

/// The events the component reacts to, as mathematical values.
pub enum MsgModel {
    Response(Seq<char>),
    ResponseError(Seq<char>),
    RunCode,
    Fetching,
    CodeChanged(Seq<char>),
    TurnOffShow,
}

/// The work the host is asked to do after an event.
pub enum CommandModel {
    Nothing,
    /// Post the given code to the endpoint.
    Send(Seq<char>),
    /// Deliver a dismissal after the given number of milliseconds.
    DismissAfter(u64),
}

/// What the page shows.
pub struct ScreenModel {
    pub code: Seq<char>,
    pub info: Option<Seq<char>>,
    pub error: Option<Seq<char>>,
}

/// The state of a freshly created component.
pub open spec fn initial_model() -> AppModel {
    AppModel {
        code: PLACEHOLDER@,
        message: Some("Info"@),
        error: Some("Error"@),
        show_message: false,
        show_error: false,
    }
}

/// The state after the component handles `m` in state `s`.
///
/// Dismissal is one shared action: whichever banner armed it, it takes both
/// banners down and clears both slots' text. There is no timer per banner, and
/// a new submission cancels no pending dismissal.
pub open spec fn next_state(s: AppModel, m: MsgModel) -> AppModel {
    match m {
        MsgModel::Response(text) => AppModel { message: Some(text), show_message: true, ..s },
        MsgModel::ResponseError(text) => AppModel { error: Some(text), show_error: true, ..s },
        MsgModel::CodeChanged(code) => AppModel { code, ..s },
        MsgModel::TurnOffShow => AppModel {
            message: None,
            error: None,
            show_message: false,
            show_error: false,
            ..s
        },
        MsgModel::RunCode => s,
        MsgModel::Fetching => s,
    }
}

/// Whether the page must be redrawn after `m`, and what the host must do next.
pub open spec fn reaction(s: AppModel, m: MsgModel) -> (bool, CommandModel) {
    match m {
        MsgModel::Response(_) => (true, CommandModel::DismissAfter(DISMISS_DELAY_MS)),
        MsgModel::ResponseError(_) => (true, CommandModel::DismissAfter(DISMISS_DELAY_MS)),
        MsgModel::TurnOffShow => (true, CommandModel::Nothing),
        MsgModel::RunCode => (false, CommandModel::Send(s.code)),
        MsgModel::Fetching => (false, CommandModel::Nothing),
        MsgModel::CodeChanged(_) => (false, CommandModel::Nothing),
    }
}

/// The message that a finished submission turns into: a non-empty body is a
/// result, an empty body is the status error, a failure is reported as is.
pub open spec fn completion(reply: Result<Seq<char>, Seq<char>>) -> MsgModel {
    match reply {
        Ok(body) => if body.len() > 0 {
            MsgModel::Response(body)
        } else {
            MsgModel::ResponseError(STATUS_ERROR@)
        },
        Err(description) => MsgModel::ResponseError(description),
    }
}

/// A slot's text as the page shows it: only while its banner is up.
pub open spec fn shown(up: bool, slot: Option<Seq<char>>) -> Option<Seq<char>> {
    if up {
        slot
    } else {
        None
    }
}

/// What the page shows in state `s`.
pub open spec fn screen_of(s: AppModel) -> ScreenModel {
    ScreenModel {
        code: s.code,
        info: shown(s.show_message, s.message),
        error: shown(s.show_error, s.error),
    }
}

// ---------------------------------------------------------------------------
// Executable types
// ---------------------------------------------------------------------------

/// Why a submission produced no result: a readable description of the failure.
#[derive(Debug, Clone, PartialEq, Eq)]
pub struct SendError {
    err: String,
}

impl View for SendError {
    type V = Seq<char>;

    closed spec fn view(&self) -> Seq<char> {
        self.err@
    }
}

impl SendError {
    /// An error described by `err`.
    pub fn new(err: String) -> (r: SendError)
        ensures
            r@ == err@,
    {
        SendError { err }
    }

    /// The error reported for a reply with an empty body.
    pub fn status_error() -> (r: SendError)
        ensures
            r@ == STATUS_ERROR@,
    {
        SendError { err: STATUS_ERROR.to_owned() }
    }

    /// The description of the failure.
    pub fn description(&self) -> (r: &str)
        ensures
            r@ == self@,
    {
        self.err.as_str()
    }
}

/// An event delivered to the component.
#[derive(Debug, Clone, PartialEq, Eq)]
pub enum AppMsg {
    /// The endpoint answered with a non-empty result.
    Response(String),
    /// The submission failed.
    ResponseError(SendError),
    /// The user asked to run the code.
    RunCode,
    /// A submission has gone out.
    Fetching,
    /// The editor's text changed.
    CodeChanged(String),
    /// The dismissal timer fired.
    TurnOffShow,
}

impl View for AppMsg {
    type V = MsgModel;

    open spec fn view(&self) -> MsgModel {
        match self {
            AppMsg::Response(text) => MsgModel::Response(text@),
            AppMsg::ResponseError(e) => MsgModel::ResponseError(e@),
            AppMsg::RunCode => MsgModel::RunCode,
            AppMsg::Fetching => MsgModel::Fetching,
            AppMsg::CodeChanged(code) => MsgModel::CodeChanged(code@),
            AppMsg::TurnOffShow => MsgModel::TurnOffShow,
        }
    }
}

/// The outcome of a submission as mathematical values.
pub open spec fn reply_model(reply: Result<String, SendError>) -> Result<Seq<char>, Seq<char>> {
    match reply {
        Ok(body) => Ok(body@),
        Err(e) => Err(e@),
    }
}

impl AppMsg {
    /// The message that a finished submission is delivered as.
    pub fn from_response(reply: Result<String, SendError>) -> (r: AppMsg)
        ensures
            r@ == completion(reply_model(reply)),
    {
        match reply {
            Ok(body) => {
                if body.as_str().is_empty() {
                    AppMsg::ResponseError(SendError::status_error())
                } else {
                    AppMsg::Response(body)
                }
            },
            Err(e) => AppMsg::ResponseError(e),
        }
    }
}

/// Work that the host must carry out after an event.
#[derive(Debug, Clone, PartialEq, Eq)]
pub enum Command {
    Nothing,
    /// Post this code to the endpoint and deliver the outcome through
    /// `AppMsg::from_response`.
    Send(String),
    /// Deliver `AppMsg::TurnOffShow` after this many milliseconds.
    DismissAfter(u64),
}

impl View for Command {
    type V = CommandModel;

    open spec fn view(&self) -> CommandModel {
        match self {
            Command::Nothing => CommandModel::Nothing,
            Command::Send(code) => CommandModel::Send(code@),
            Command::DismissAfter(ms) => CommandModel::DismissAfter(*ms),
        }
    }
}

/// What handling one event asks of the host.
#[derive(Debug, Clone, PartialEq, Eq)]
pub struct Effects {
    /// Whether the page must be redrawn.
    pub rerender: bool,
    /// The work to carry out.
    pub command: Command,
}

impl View for Effects {
    type V = (bool, CommandModel);

    open spec fn view(&self) -> (bool, CommandModel) {
        (self.rerender, self.command@)
    }
}

/// What the page shows: the editor's text and the banners that are up.
#[derive(Debug, Clone, PartialEq, Eq)]
pub struct Screen {
    pub code: String,
    pub info: Option<String>,
    pub error: Option<String>,
}

impl View for Screen {
    type V = ScreenModel;

    open spec fn view(&self) -> ScreenModel {
        ScreenModel {
            code: self.code@,
            info: self.info.deep_view(),
            error: self.error.deep_view(),
        }
    }
}

/// The code-runner component: editor text, the two notification slots and
/// their visibility.
pub struct App {
    code: String,
    message: Option<String>,
    error: Option<String>,
    show_message: bool,
    show_error: bool,
}

impl View for App {
    type V = AppModel;

    closed spec fn view(&self) -> AppModel {
        AppModel {
            code: self.code@,
            message: self.message.deep_view(),
            error: self.error.deep_view(),
            show_message: self.show_message,
            show_error: self.show_error,
        }
    }
}

fn copy_slot(slot: &Option<String>) -> (r: Option<String>)
    ensures
        r.deep_view() == slot.deep_view(),
{
    match slot {
        Some(text) => Some(text.clone()),
        None => None,
    }
}

impl App {
    #[verifier::type_invariant]
    closed spec fn inv(self) -> bool {
        self@.wf()
    }

    /// A component with the sample program in the editor and no banner up.
    pub fn create() -> (r: App)
        ensures
            r@ == initial_model(),
            r@.wf(),
    {
        App {
            code: PLACEHOLDER.to_owned(),
            message: Some("Info".to_owned()),
            error: Some("Error".to_owned()),
            show_message: false,
            show_error: false,
        }
    }

    /// The text in the editor.
    pub fn code(&self) -> (r: &str)
        ensures
            r@ == self@.code,
    {
        self.code.as_str()
    }

    /// Handles one event and says what the host must do next.
    pub fn update(&mut self, msg: AppMsg) -> (r: Effects)
        ensures
            final(self)@ == next_state(old(self)@, msg@),
            r@ == reaction(old(self)@, msg@),
            final(self)@.wf(),
    {
        proof {
            use_type_invariant(&*self);
        }
        match msg {
            AppMsg::Response(text) => {
                self.message = Some(text);
                self.show_message = true;
                Effects { rerender: true, command: Command::DismissAfter(DISMISS_DELAY_MS) }
            },
            AppMsg::ResponseError(e) => {
                self.error = Some(e.err);
                self.show_error = true;
                Effects { rerender: true, command: Command::DismissAfter(DISMISS_DELAY_MS) }
            },
            AppMsg::TurnOffShow => {
                self.show_message = false;
                self.show_error = false;
                self.message = None;
                self.error = None;
                Effects { rerender: true, command: Command::Nothing }
            },
            AppMsg::RunCode => {
                let code = self.code.clone();
                Effects { rerender: false, command: Command::Send(code) }
            },
            AppMsg::Fetching => Effects { rerender: false, command: Command::Nothing },
            AppMsg::CodeChanged(code) => {
                self.code = code;
                Effects { rerender: false, command: Command::Nothing }
            },
        }
    }

    /// What the page shows in the current state.
    pub fn screen(&self) -> (r: Screen)
        ensures
            r@ == screen_of(self@),
    {
        let info = if self.show_message {
            copy_slot(&self.message)
        } else {
            None
        };
        let error = if self.show_error {
            copy_slot(&self.error)
        } else {
            None
        };
        Screen { code: self.code.clone(), info, error }
    }
}

} // verus!
