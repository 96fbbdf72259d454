//! Properties of the component's state machine, stated over its model.

use vstd::prelude::*;

use crate::content::{DISMISS_DELAY_MS, STATUS_ERROR};
use crate::runner::{
    completion, next_state, reaction, screen_of, AppModel, CommandModel, MsgModel,
};

verus! {

/// Editing replaces the editor's text with exactly the new text, touches
/// nothing else, and asks the host for nothing.
pub proof fn lemma_code_changed_round_trip(s: AppModel, text: Seq<char>)
    ensures
        next_state(s, MsgModel::CodeChanged(text)).code == text,
        next_state(s, MsgModel::CodeChanged(text)) == (AppModel { code: text, ..s }),
        reaction(s, MsgModel::CodeChanged(text)) == (false, CommandModel::Nothing),
{
}

/// A submission answered with a non-empty body `body` puts `body` up in the
/// info banner and leaves the error banner as it was (hidden if it was hidden).
pub proof fn lemma_result_shows_info(s: AppModel, body: Seq<char>)
    requires
        body.len() > 0,
    ensures
        ({
            let t = next_state(s, completion(Ok(body)));
            &&& t.show_message
            &&& t.message == Some(body)
            &&& screen_of(t).info == Some(body)
            &&& t.show_error == s.show_error
            &&& t.error == s.error
            &&& !s.show_error ==> screen_of(t).error is None
        }),
{
}

/// A submission answered with an empty body puts the status error up in the
/// error banner and leaves the info banner as it was (hidden if it was hidden).
pub proof fn lemma_empty_body_shows_status_error(s: AppModel)
    ensures
        ({
            let t = next_state(s, completion(Ok(Seq::empty())));
            &&& t.show_error
            &&& t.error == Some(STATUS_ERROR@)
            &&& screen_of(t).error == Some(STATUS_ERROR@)
            &&& t.show_message == s.show_message
            &&& t.message == s.message
            &&& !s.show_message ==> screen_of(t).info is None
        }),
        STATUS_ERROR@.len() > 0,
{
    reveal_strlit("Status error");
}

/// A failed submission puts its description up in the error banner; and
/// whatever the outcome, after a submission completes some banner is up,
/// showing a non-empty text whenever the failure's description is non-empty.
pub proof fn lemma_failure_shows_error(s: AppModel, reply: Result<Seq<char>, Seq<char>>)
    ensures
        reply matches Err(d) ==> screen_of(next_state(s, completion(reply))).error == Some(d),
        screen_of(next_state(s, completion(reply))).info is Some
            || screen_of(next_state(s, completion(reply))).error is Some,
        (reply matches Err(d) ==> d.len() > 0) ==> ({
            let sc = screen_of(next_state(s, completion(reply)));
            ||| sc.info matches Some(v) && v.len() > 0
            ||| sc.error matches Some(v) && v.len() > 0
        }),
{
    reveal_strlit("Status error");
}

/// Every event that raises a banner arms one dismissal, due exactly
/// `DISMISS_DELAY_MS` (three seconds) later.
pub proof fn lemma_banner_arms_dismissal(s: AppModel, m: MsgModel)
    requires
        m is Response || m is ResponseError,
    ensures
        reaction(s, m) == (true, CommandModel::DismissAfter(DISMISS_DELAY_MS)),
        DISMISS_DELAY_MS == 3000,
{
}

/// When a dismissal fires, whatever the state, both banners go down and both
/// slots lose their text, while the editor keeps its text.
pub proof fn lemma_dismissal_clears_both(s: AppModel)
    ensures
        ({
            let t = next_state(s, MsgModel::TurnOffShow);
            &&& !t.show_message && !t.show_error
            &&& t.message is None && t.error is None
            &&& screen_of(t).info is None && screen_of(t).error is None
            &&& t.code == s.code
        }),
{
}

/// Of two completions handled one after the other, the later one's text is
/// what its banner shows; and when both write the same banner, the earlier one
/// leaves no trace.
pub proof fn lemma_last_writer_wins(
    s: AppModel,
    first: Result<Seq<char>, Seq<char>>,
    second: Result<Seq<char>, Seq<char>>,
)
    ensures
        ({
            let t = next_state(next_state(s, completion(first)), completion(second));
            &&& completion(second) matches MsgModel::Response(v) ==> screen_of(t).info == Some(v)
            &&& completion(second) matches MsgModel::ResponseError(d) ==> screen_of(t).error
                == Some(d)
            &&& (completion(first) is Response == completion(second) is Response) ==> t
                == next_state(s, completion(second))
        }),
{
}

} // verus!
