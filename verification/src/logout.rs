//! The decisions of logging out: whether to ask which token goes, and what to show.
use vstd::prelude::*;
use vstd::string::StringExecFns;

verus! {

/// Where logging out stands.
#[derive(Clone, Copy, Debug, PartialEq, Eq, Structural)]
pub enum LogoutState {
    /// The stored tokens are being read.
    Reading,
    /// The user is choosing among `count` tokens.
    Asking { count: usize },
    /// The tokens that stay are being written back; `asked` says whether the user chose.
    Writing { asked: bool },
    /// Nothing is left to do.
    Done,
}

/// What happened outside since the last step.
#[derive(Clone, Copy, Debug, PartialEq, Eq, Structural)]
pub enum LogoutEvent {
    /// The stored tokens were read: there are `count` of them.
    TokensRead { count: usize },
    /// The user chose the token at `index`.
    Selected { index: usize },
    /// The tokens that stay were written.
    Written,
    /// Writing them failed.
    WriteFailed,
}

/// What is to be done outside next.
#[derive(Clone, Copy, Debug, PartialEq, Eq, Structural)]
pub enum LogoutAction {
    /// Show the choices and ask which token goes.
    Ask,
    /// Say which token goes, take the one at `index` out and write the rest.
    RemoveAndWrite { index: usize },
    /// Tell the user that they are logged out, and end with success.
    ConfirmAndFinish,
    /// End with success and without a word.
    Finish,
    /// Report that writing failed, and end with that failure.
    Fail,
    /// The event does not belong to the state: nothing is done.
    Ignore,
}

/// The step that logging out takes in `state` on `event`. A single token goes without a
/// question and without a confirmation; else the user chooses, and is told when it is done.
pub open spec fn logout_step(state: LogoutState, event: LogoutEvent) -> (LogoutState, LogoutAction) {
    match (state, event) {
        (LogoutState::Reading, LogoutEvent::TokensRead { count }) => if count == 1 {
            (LogoutState::Writing { asked: false }, LogoutAction::RemoveAndWrite { index: 0 })
        } else {
            (LogoutState::Asking { count }, LogoutAction::Ask)
        },
        (LogoutState::Asking { count }, LogoutEvent::Selected { index }) => (
            LogoutState::Writing { asked: true },
            LogoutAction::RemoveAndWrite { index },
        ),
        (LogoutState::Writing { asked }, LogoutEvent::Written) => (
            LogoutState::Done,
            if asked {
                LogoutAction::ConfirmAndFinish
            } else {
                LogoutAction::Finish
            },
        ),
        (LogoutState::Writing { asked }, LogoutEvent::WriteFailed) => (
            LogoutState::Done,
            LogoutAction::Fail,
        ),
        _ => (state, LogoutAction::Ignore),
    }
}

/// One step of logging out: the next state, and what to do outside. A choice has to be one
/// of the tokens shown.
pub fn logout(state: LogoutState, event: LogoutEvent) -> (r: (LogoutState, LogoutAction))
    requires
        state matches LogoutState::Asking { count } ==> (event matches LogoutEvent::Selected {
            index,
        } ==> index < count),
    ensures
        r == logout_step(state, event),
        r.1 matches LogoutAction::RemoveAndWrite { index } ==> (state matches LogoutState::Asking {
            count,
        } ==> index < count),
{
    match state {
        LogoutState::Reading => match event {
            LogoutEvent::TokensRead { count } => {
                if count == 1 {
                    (
                        LogoutState::Writing { asked: false },
                        LogoutAction::RemoveAndWrite { index: 0 },
                    )
                } else {
                    (LogoutState::Asking { count }, LogoutAction::Ask)
                }
            },
            _ => (state, LogoutAction::Ignore),
        },
        LogoutState::Asking { count } => match event {
            LogoutEvent::Selected { index } => (
                LogoutState::Writing { asked: true },
                LogoutAction::RemoveAndWrite { index },
            ),
            _ => (state, LogoutAction::Ignore),
        },
        LogoutState::Writing { asked } => match event {
            LogoutEvent::Written => {
                if asked {
                    (LogoutState::Done, LogoutAction::ConfirmAndFinish)
                } else {
                    (LogoutState::Done, LogoutAction::Finish)
                }
            },
            LogoutEvent::WriteFailed => (LogoutState::Done, LogoutAction::Fail),
            _ => (state, LogoutAction::Ignore),
        },
        LogoutState::Done => (state, LogoutAction::Ignore),
    }
}

/// The text of one choice: the api, then the token in round brackets.
pub open spec fn selection_text(api: Seq<char>, token: Seq<char>) -> Seq<char> {
    api + " ("@ + token + ")"@
}

/// The text of one choice, from how the api and the token are displayed.
pub fn selection_label(api: &str, token: &str) -> (r: String)
    ensures
        r@ == selection_text(api@, token@),
{
    let mut out = String::from_str(api);
    out.append(" (");
    out.append(token);
    out.append(")");
    out
}

/// The choices shown to the user: one per token, in the order of the tokens.
pub fn selection_items(displays: &Vec<(String, String)>) -> (r: Vec<String>)
    ensures
        r@.len() == displays@.len(),
        forall|i: int|
            0 <= i < displays@.len() ==> (#[trigger] r@[i])@ == selection_text(
                displays@[i].0@,
                displays@[i].1@,
            ),
{
    let mut out: Vec<String> = Vec::new();
    let mut i: usize = 0;
    while i < displays.len()
        invariant
            i <= displays.len(),
            out.len() == i,
            forall|j: int|
                0 <= j < i ==> (#[trigger] out@[j])@ == selection_text(
                    displays@[j].0@,
                    displays@[j].1@,
                ),
        decreases displays.len() - i,
    {
        let pair = &displays[i];
        out.push(selection_label(pair.0.as_str(), pair.1.as_str()));
        i += 1;
    }
    out
}

} // verus!
