//! The window procedure as a machine.
//!
//! Handling one message is a short run: the machine is handed the message,
//! names the next thing to do with the window, is handed what came of it, and
//! so on until it names the reply. It does nothing itself. Whoever drives it
//! prints the notices of each step, performs the action, and hands back the
//! event that the action ends in.

use crate::decimal::{push_signed_decimal, signed_decimal};
use crate::error::Win32Error;
use crate::win32::{
    SysColor, IDOK, LPARAM, LPVOID, LRESULT, UINT, WM_CLOSE, WM_CREATE, WM_DESTROY, WM_NCCREATE,
    WM_PAINT,
};
use vstd::prelude::*;

verus! {

/// What the machine waits for.
#[derive(Debug, Clone, Copy, PartialEq, Eq)]
pub enum Pending {
    /// The message to handle.
    Message,
    /// The creation parameter of the window that is being created.
    CreateParams,
    /// Word of whether the creation parameter was stored as userdata.
    Stored,
    /// The userdata of the window that is to be painted.
    PaintUserdata,
    /// The number that the userdata points to.
    Counter { counter: LPVOID },
    /// Word that the number was raised.
    Raised,
    /// Word of whether the window was painted.
    Painted,
    /// The answer to the question whether to close.
    Answer,
    /// Word that the window was destroyed.
    Destroyed,
    /// The userdata of the window that is going away.
    CleanupUserdata,
    /// Word that the userdata was released.
    Released,
    /// Word that the quit message was posted.
    QuitPosted,
    /// Nothing: the reply has been named.
    Finished,
}

/// What came of the last action.
#[derive(Debug, Clone, Copy, PartialEq, Eq)]
pub enum Event {
    /// A message arrived for the window.
    Message { message: UINT, l_param: LPARAM },
    /// The creation parameter was read.
    CreateParams(LPVOID),
    /// Storing the userdata ended so.
    UserdataStored(Result<LPVOID, Win32Error>),
    /// Reading the userdata ended so.
    Userdata(Result<LPVOID, Win32Error>),
    /// The number behind the userdata was read.
    Counter(i32),
    /// Painting ended so.
    Painted(Result<(), Win32Error>),
    /// The message box ended so: on success, with the button that closed it.
    Answer(Result<i32, Win32Error>),
    /// An action that has nothing to report was performed.
    Done,
}

/// What to do next with the window.
#[derive(Debug, Clone, Copy, PartialEq, Eq)]
pub enum Action {
    /// Read the creation parameter out of the creation structure at this address.
    ReadCreateParams { create_struct: LPARAM },
    /// Store this value as the userdata of the window.
    StoreUserdata { value: LPVOID },
    /// Read the userdata of the window.
    LoadUserdata,
    /// Read the number at this address.
    ReadCounter { counter: LPVOID },
    /// Add one to the number at this address.
    RaiseCounter { counter: LPVOID },
    /// Paint the part of the window that needs it in this colour.
    Paint { color: SysColor },
    /// Ask in a message box whether the window may close.
    AskToClose,
    /// Destroy the window.
    DestroyWindow,
    /// Free the number at this address.
    ReleaseUserdata { counter: LPVOID },
    /// Post the quit message with this exit code.
    PostQuit { exit_code: i32 },
    /// Reply to the message with this value.
    Reply(LRESULT),
    /// Reply with whatever the default window procedure replies.
    Default,
}

/// A line for whoever watches the program run.
#[derive(Debug, Clone, Copy, PartialEq, Eq)]
pub enum Notice {
    NcCreate,
    NoCreateStruct,
    UserdataNotStored(Win32Error),
    Create,
    CurrentUserdata(i32),
    UserdataEmpty,
    UserdataNotRead(Win32Error),
    PaintFailed(Win32Error),
    MessageBoxFailed(Win32Error),
    CleanedUp,
    NothingToClean,
    CleanupNotRead(Win32Error),
}

/// One step of the machine, as a value of specifications.
pub struct Plan {
    /// The lines to print, in order, before anything is done.
    pub notices: Seq<Notice>,
    /// What to do then.
    pub action: Action,
    /// What the machine waits for after that.
    pub pending: Pending,
}

/// One step of the machine.
#[derive(Debug, PartialEq, Eq)]
pub struct Step {
    /// The lines to print, in order, before anything is done.
    pub notices: Vec<Notice>,
    /// What to do then.
    pub action: Action,
    /// What the machine waits for after that.
    pub pending: Pending,
}

impl View for Step {
    type V = Plan;

    open spec fn view(&self) -> Plan {
        Plan { notices: self.notices@, action: self.action, pending: self.pending }
    }
}

/// A step that prints nothing.
pub open spec fn quiet(action: Action, pending: Pending) -> Plan {
    Plan { notices: Seq::empty(), action, pending }
}

/// A step that prints one line.
pub open spec fn noting(notice: Notice, action: Action, pending: Pending) -> Plan {
    Plan { notices: seq![notice], action, pending }
}

/// The step that takes up a message. Five messages are handled here; every
/// other one is left to the default window procedure.
pub open spec fn on_message(message: UINT, l_param: LPARAM) -> Plan {
    if message == WM_NCCREATE {
        if l_param == 0 {
            Plan {
                notices: seq![Notice::NcCreate, Notice::NoCreateStruct],
                action: Action::Reply(0),
                pending: Pending::Finished,
            }
        } else {
            noting(
                Notice::NcCreate,
                Action::ReadCreateParams { create_struct: l_param },
                Pending::CreateParams,
            )
        }
    } else if message == WM_CREATE {
        noting(Notice::Create, Action::Reply(0), Pending::Finished)
    } else if message == WM_PAINT {
        quiet(Action::LoadUserdata, Pending::PaintUserdata)
    } else if message == WM_CLOSE {
        quiet(Action::AskToClose, Pending::Answer)
    } else if message == WM_DESTROY {
        quiet(Action::LoadUserdata, Pending::CleanupUserdata)
    } else {
        quiet(Action::Default, Pending::Finished)
    }
}

/// The step after the userdata of a window to paint was read. A window with a
/// counter has it shown and raised before it is painted; a window without one,
/// or one whose userdata cannot be read, is painted all the same.
pub open spec fn on_paint_userdata(userdata: Result<LPVOID, Win32Error>) -> Plan {
    match userdata {
        Ok(counter) => if counter != 0 {
            quiet(Action::ReadCounter { counter }, Pending::Counter { counter })
        } else {
            noting(
                Notice::UserdataEmpty,
                Action::Paint { color: SysColor::WINDOW },
                Pending::Painted,
            )
        },
        Err(e) => noting(
            Notice::UserdataNotRead(e),
            Action::Paint { color: SysColor::WINDOW },
            Pending::Painted,
        ),
    }
}

/// The step after the question whether to close was answered. Only the answer
/// OK destroys the window; any other answer, and a box that could not be
/// shown, leave it open.
pub open spec fn on_answer(answer: Result<i32, Win32Error>) -> Plan {
    match answer {
        Ok(button) => if button == IDOK {
            quiet(Action::DestroyWindow, Pending::Destroyed)
        } else {
            quiet(Action::Reply(0), Pending::Finished)
        },
        Err(e) => noting(Notice::MessageBoxFailed(e), Action::Reply(0), Pending::Finished),
    }
}

/// The step after the userdata of a window that is going away was read. A
/// counter is released first; in every case the quit message is posted.
pub open spec fn on_cleanup_userdata(userdata: Result<LPVOID, Win32Error>) -> Plan {
    match userdata {
        Ok(counter) => if counter != 0 {
            quiet(Action::ReleaseUserdata { counter }, Pending::Released)
        } else {
            noting(Notice::NothingToClean, Action::PostQuit { exit_code: 0 }, Pending::QuitPosted)
        },
        Err(e) => noting(
            Notice::CleanupNotRead(e),
            Action::PostQuit { exit_code: 0 },
            Pending::QuitPosted,
        ),
    }
}

/// The step that the machine takes when it waits for `pending` and is handed
/// `event`, and `None` where the event is not the one it waits for.
pub open spec fn plan(pending: Pending, event: Event) -> Option<Plan> {
    match (pending, event) {
        (Pending::Message, Event::Message { message, l_param }) => Some(
            on_message(message, l_param),
        ),
        (Pending::CreateParams, Event::CreateParams(value)) => Some(
            quiet(Action::StoreUserdata { value }, Pending::Stored),
        ),
        (Pending::Stored, Event::UserdataStored(Ok(_))) => Some(
            quiet(Action::Default, Pending::Finished),
        ),
        (Pending::Stored, Event::UserdataStored(Err(e))) => Some(
            noting(Notice::UserdataNotStored(e), Action::Reply(0), Pending::Finished),
        ),
        (Pending::PaintUserdata, Event::Userdata(userdata)) => Some(on_paint_userdata(userdata)),
        (Pending::Counter { counter }, Event::Counter(count)) => Some(
            noting(
                Notice::CurrentUserdata(count),
                Action::RaiseCounter { counter },
                Pending::Raised,
            ),
        ),
        (Pending::Raised, Event::Done) => Some(
            quiet(Action::Paint { color: SysColor::WINDOW }, Pending::Painted),
        ),
        (Pending::Painted, Event::Painted(Ok(_))) => Some(
            quiet(Action::Reply(0), Pending::Finished),
        ),
        (Pending::Painted, Event::Painted(Err(e))) => Some(
            noting(Notice::PaintFailed(e), Action::Reply(0), Pending::Finished),
        ),
        (Pending::Answer, Event::Answer(answer)) => Some(on_answer(answer)),
        (Pending::Destroyed, Event::Done) => Some(quiet(Action::Reply(0), Pending::Finished)),
        (Pending::CleanupUserdata, Event::Userdata(userdata)) => Some(
            on_cleanup_userdata(userdata),
        ),
        (Pending::Released, Event::Done) => Some(
            noting(Notice::CleanedUp, Action::PostQuit { exit_code: 0 }, Pending::QuitPosted),
        ),
        (Pending::QuitPosted, Event::Done) => Some(quiet(Action::Reply(0), Pending::Finished)),
        _ => None,
    }
}

/// The caption of the box that asks whether the window may close.
pub const CLOSE_CAPTION: &'static str = "Wait a minute!";

/// The question in the box that asks whether the window may close.
pub const CLOSE_QUESTION: &'static str = "Do you really want to quit?";

impl Notice {
    /// The words that the line opens with, or is.
    pub open spec fn spec_heading(&self) -> Seq<char> {
        match self {
            Notice::NcCreate => "WM_NCCREATE"@,
            Notice::NoCreateStruct => "WTF"@,
            Notice::UserdataNotStored(_) => "Couldn't set the WindowData pointer: "@,
            Notice::Create => "WM_CREATE"@,
            Notice::CurrentUserdata(_) => "Current window userdata : "@,
            Notice::UserdataEmpty => "Userdata is empty."@,
            Notice::UserdataNotRead(_) => "Error while getting userdata: "@,
            Notice::PaintFailed(_) => "Error while painting: "@,
            Notice::MessageBoxFailed(_) => "Error when showing the message box: "@,
            Notice::CleanedUp => "Cleaned up the box"@,
            Notice::NothingToClean => "Userdata pointer is null, no cleanup."@,
            Notice::CleanupNotRead(_) => "Error while getting the userdata to perform cleanup : "@,
        }
    }

    /// The error that the line reports, if it reports one.
    pub open spec fn spec_error(&self) -> Option<Win32Error> {
        match self {
            Notice::UserdataNotStored(e) => Some(*e),
            Notice::UserdataNotRead(e) => Some(*e),
            Notice::PaintFailed(e) => Some(*e),
            Notice::MessageBoxFailed(e) => Some(*e),
            Notice::CleanupNotRead(e) => Some(*e),
            _ => None,
        }
    }

    /// The whole line: the heading, and after it the number that the line
    /// shows or the text of the error that it reports.
    pub open spec fn spec_line(&self, error_text: Seq<char>) -> Seq<char> {
        match self {
            Notice::CurrentUserdata(count) => self.spec_heading() + signed_decimal(*count as int),
            _ => if self.spec_error() is Some {
                self.spec_heading() + error_text
            } else {
                self.spec_heading()
            },
        }
    }

    /// The words that the line opens with, or is.
    pub fn heading(&self) -> (r: &'static str)
        ensures
            r@ == self.spec_heading(),
    {
        match self {
            Notice::NcCreate => "WM_NCCREATE",
            Notice::NoCreateStruct => "WTF",
            Notice::UserdataNotStored(_) => "Couldn't set the WindowData pointer: ",
            Notice::Create => "WM_CREATE",
            Notice::CurrentUserdata(_) => "Current window userdata : ",
            Notice::UserdataEmpty => "Userdata is empty.",
            Notice::UserdataNotRead(_) => "Error while getting userdata: ",
            Notice::PaintFailed(_) => "Error while painting: ",
            Notice::MessageBoxFailed(_) => "Error when showing the message box: ",
            Notice::CleanedUp => "Cleaned up the box",
            Notice::NothingToClean => "Userdata pointer is null, no cleanup.",
            Notice::CleanupNotRead(_) => "Error while getting the userdata to perform cleanup : ",
        }
    }

    /// The error that the line reports, if it reports one.
    #[verifier::when_used_as_spec(spec_error)]
    pub fn error(&self) -> (r: Option<Win32Error>)
        ensures
            r == self.spec_error(),
    {
        match self {
            Notice::UserdataNotStored(e) => Some(*e),
            Notice::UserdataNotRead(e) => Some(*e),
            Notice::PaintFailed(e) => Some(*e),
            Notice::MessageBoxFailed(e) => Some(*e),
            Notice::CleanupNotRead(e) => Some(*e),
            _ => None,
        }
    }

    /// The whole line. `error_text` is the text of the error that the line
    /// reports, and is left out of a line that reports none.
    pub fn line(&self, error_text: &str) -> (r: String)
        ensures
            r@ == self.spec_line(error_text@),
    {
        let mut line = self.heading().to_owned();
        match self {
            Notice::CurrentUserdata(count) => {
                push_signed_decimal(&mut line, *count);
            },
            _ => {
                if self.error().is_some() {
                    line.append(error_text);
                }
            },
        }
        line
    }
}

/// The step that prints nothing.
fn quiet_step(action: Action, pending: Pending) -> (r: Step)
    ensures
        r@ == quiet(action, pending),
{
    Step { notices: Vec::new(), action, pending }
}

/// The step that prints one line.
fn noting_step(notice: Notice, action: Action, pending: Pending) -> (r: Step)
    ensures
        r@ == noting(notice, action, pending),
{
    let mut notices = Vec::new();
    notices.push(notice);
    Step { notices, action, pending }
}

/// Takes up a message.
fn message_step(message: UINT, l_param: LPARAM) -> (r: Step)
    ensures
        r@ == on_message(message, l_param),
{
    if message == WM_NCCREATE {
        if l_param == 0 {
            let mut notices = Vec::new();
            notices.push(Notice::NcCreate);
            notices.push(Notice::NoCreateStruct);
            assert(notices@ =~= seq![Notice::NcCreate, Notice::NoCreateStruct]);
            Step { notices, action: Action::Reply(0), pending: Pending::Finished }
        } else {
            noting_step(
                Notice::NcCreate,
                Action::ReadCreateParams { create_struct: l_param },
                Pending::CreateParams,
            )
        }
    } else if message == WM_CREATE {
        noting_step(Notice::Create, Action::Reply(0), Pending::Finished)
    } else if message == WM_PAINT {
        quiet_step(Action::LoadUserdata, Pending::PaintUserdata)
    } else if message == WM_CLOSE {
        quiet_step(Action::AskToClose, Pending::Answer)
    } else if message == WM_DESTROY {
        quiet_step(Action::LoadUserdata, Pending::CleanupUserdata)
    } else {
        quiet_step(Action::Default, Pending::Finished)
    }
}

/// Takes one step: what to print and to do when the machine waits for
/// `pending` and is handed `event`, and what it waits for after that. The
/// result is `None`, and nothing is to be done, exactly where the event is not
/// the one that the machine waits for.
pub fn step(pending: Pending, event: Event) -> (r: Option<Step>)
    ensures
        r is Some <==> plan(pending, event) is Some,
        r matches Some(next) ==> plan(pending, event) == Some(next@),
{
    let paint = Action::Paint { color: SysColor::WINDOW };
    let quit = Action::PostQuit { exit_code: 0 };
    match (pending, event) {
        (Pending::Message, Event::Message { message, l_param }) => Some(
            message_step(message, l_param),
        ),
        (Pending::CreateParams, Event::CreateParams(value)) => Some(
            quiet_step(Action::StoreUserdata { value }, Pending::Stored),
        ),
        (Pending::Stored, Event::UserdataStored(Ok(_))) => Some(
            quiet_step(Action::Default, Pending::Finished),
        ),
        (Pending::Stored, Event::UserdataStored(Err(e))) => Some(
            noting_step(Notice::UserdataNotStored(e), Action::Reply(0), Pending::Finished),
        ),
        (Pending::PaintUserdata, Event::Userdata(Ok(counter))) => if counter != 0 {
            Some(quiet_step(Action::ReadCounter { counter }, Pending::Counter { counter }))
        } else {
            Some(noting_step(Notice::UserdataEmpty, paint, Pending::Painted))
        },
        (Pending::PaintUserdata, Event::Userdata(Err(e))) => Some(
            noting_step(Notice::UserdataNotRead(e), paint, Pending::Painted),
        ),
        (Pending::Counter { counter }, Event::Counter(count)) => Some(
            noting_step(
                Notice::CurrentUserdata(count),
                Action::RaiseCounter { counter },
                Pending::Raised,
            ),
        ),
        (Pending::Raised, Event::Done) => Some(quiet_step(paint, Pending::Painted)),
        (Pending::Painted, Event::Painted(Ok(_))) => Some(
            quiet_step(Action::Reply(0), Pending::Finished),
        ),
        (Pending::Painted, Event::Painted(Err(e))) => Some(
            noting_step(Notice::PaintFailed(e), Action::Reply(0), Pending::Finished),
        ),
        (Pending::Answer, Event::Answer(Ok(button))) => if button == IDOK {
            Some(quiet_step(Action::DestroyWindow, Pending::Destroyed))
        } else {
            Some(quiet_step(Action::Reply(0), Pending::Finished))
        },
        (Pending::Answer, Event::Answer(Err(e))) => Some(
            noting_step(Notice::MessageBoxFailed(e), Action::Reply(0), Pending::Finished),
        ),
        (Pending::Destroyed, Event::Done) => Some(quiet_step(Action::Reply(0), Pending::Finished)),
        (Pending::CleanupUserdata, Event::Userdata(Ok(counter))) => if counter != 0 {
            Some(quiet_step(Action::ReleaseUserdata { counter }, Pending::Released))
        } else {
            Some(noting_step(Notice::NothingToClean, quit, Pending::QuitPosted))
        },
        (Pending::CleanupUserdata, Event::Userdata(Err(e))) => Some(
            noting_step(Notice::CleanupNotRead(e), quit, Pending::QuitPosted),
        ),
        (Pending::Released, Event::Done) => Some(
            noting_step(Notice::CleanedUp, quit, Pending::QuitPosted),
        ),
        (Pending::QuitPosted, Event::Done) => Some(
            quiet_step(Action::Reply(0), Pending::Finished),
        ),
        _ => None,
    }
}

/// How many steps a run can still take, at most.
pub open spec fn steps_left(pending: Pending) -> nat {
    match pending {
        Pending::Message => 5,
        Pending::PaintUserdata => 4,
        Pending::Counter { .. } => 3,
        Pending::CleanupUserdata => 3,
        Pending::CreateParams => 2,
        Pending::Raised => 2,
        Pending::Answer => 2,
        Pending::Released => 2,
        Pending::Stored => 1,
        Pending::Painted => 1,
        Pending::Destroyed => 1,
        Pending::QuitPosted => 1,
        Pending::Finished => 0,
    }
}

/// Whether the action ends the run by naming the reply.
pub open spec fn is_reply(action: Action) -> bool {
    action is Reply || action is Default
}

/// Every step brings the run nearer to its end: no message takes more than five
/// steps, and the machine cannot be kept going.
pub proof fn lemma_every_step_advances(pending: Pending, event: Event)
    ensures
        plan(pending, event) matches Some(next) ==> steps_left(next.pending) < steps_left(pending),
{
}

/// A run ends with its reply and only with it: the step that names the reply
/// is the one after which the machine waits for nothing, and then it takes no
/// step whatever it is handed.
pub proof fn lemma_reply_ends_the_run(pending: Pending, event: Event)
    ensures
        plan(pending, event) matches Some(next) ==> (is_reply(next.action) <==> next.pending
            == Pending::Finished),
        plan(Pending::Finished, event) is None,
{
}

/// A window is destroyed only after its user agreed: the step that destroys it
/// answers the button OK of the question whether to close.
pub proof fn lemma_destroying_needs_consent(pending: Pending, event: Event)
    ensures
        plan(pending, event) matches Some(next) ==> (next.action == Action::DestroyWindow <==> pending
            == Pending::Answer && event == Event::Answer(Ok(IDOK))),
{
}

/// A message that is none of the five goes to the default window procedure at
/// once and in silence.
pub proof fn lemma_other_messages_are_left_alone(message: UINT, l_param: LPARAM)
    requires
        message != WM_NCCREATE,
        message != WM_CREATE,
        message != WM_PAINT,
        message != WM_CLOSE,
        message != WM_DESTROY,
    ensures
        plan(Pending::Message, Event::Message { message, l_param }) == Some(
            quiet(Action::Default, Pending::Finished),
        ),
{
}

/// A window that is going away always has the quit message posted, with exit
/// code zero: at once, or right after its userdata was released.
pub proof fn lemma_destroy_posts_quit(userdata: Result<LPVOID, Win32Error>)
    ensures
        ({
            let first = plan(Pending::CleanupUserdata, Event::Userdata(userdata))->0;
            let second = plan(first.pending, Event::Done)->0;
            &&& plan(Pending::CleanupUserdata, Event::Userdata(userdata)) is Some
            &&& first.action == (Action::PostQuit { exit_code: 0 }) || (first.action is ReleaseUserdata
                && second.action == (Action::PostQuit { exit_code: 0 }))
        }),
{
}

} // verus!
