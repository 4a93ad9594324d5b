//! What holds of every session, stated over the model that the executable
//! transitions are proved equal to.

use crate::effects::{DelayedView, EffectsView};
use crate::model::{
    act, apply, check_word, consume, dispatch, initial, queue, reason_message_sent,
    reason_no_attempts, run, Input,
};
use crate::types::{
    ActionView, EventView, GameResult, GameStatus, SessionActionView, SessionEventView,
    SessionStatusView, SessionView,
};
use gstd::ActorId;
use vstd::prelude::*;

verus! {

/// A fresh session is well formed, waiting and open.
pub proof fn initial_is_well_formed(target_program_id: ActorId, now: nat)
    ensures
        initial(target_program_id, now).well_formed(),
        initial(target_program_id, now).session_status is Waiting,
        !initial(target_program_id, now).ended(),
{
}

/// No call gives a session more attempts than a fresh one has.
pub proof fn well_formed_is_kept(s: SessionView, input: Input)
    requires
        s.well_formed(),
    ensures
        apply(s, input).well_formed(),
{
}

/// Once the round is over, an action changes nothing and sends nothing.
pub proof fn ended_ignores_actions(s: SessionView, action: SessionActionView, now: nat)
    requires
        s.ended(),
    ensures
        dispatch(s, action, now).session == s,
        dispatch(s, action, now).effects == EffectsView::none(),
{
}

/// Once the round is over, an answer of the oracle changes nothing.
pub proof fn ended_ignores_replies(s: SessionView, event: EventView)
    requires
        s.ended(),
    ensures
        queue(s, event) == s,
        consume(s, event).session == s,
        consume(s, event).effects == EffectsView::none(),
{
}

/// Once the round is over, no sequence of calls changes the session: not
/// its status, not its attempts, nothing.
pub proof fn ended_is_final(s: SessionView, inputs: Seq<Input>)
    requires
        s.ended(),
    ensures
        run(s, inputs) == s,
    decreases inputs.len(),
{
    if inputs.len() > 0 {
        ended_is_final(s, inputs.drop_last());
    }
}

/// An action takes exactly one attempt when it is a guess that arrives while
/// the session waits and has an attempt left, and none otherwise.
pub proof fn attempts_drop_by_accepted_guess_only(s: SessionView, action: SessionActionView, now: nat)
    ensures
        dispatch(s, action, now).session.attempts == if s.session_status is Waiting
            && action is CheckWord && s.attempts > 0 {
            s.attempts - 1
        } else {
            s.attempts as int
        },
{
}

/// An answer of the oracle takes no attempt.
pub proof fn replies_keep_attempts(s: SessionView, event: EventView)
    ensures
        queue(s, event).attempts == s.attempts,
        consume(s, event).session.attempts == s.attempts,
{
}

/// Over any sequence of calls the attempts never grow, and they fall by at
/// most one for each call.
pub proof fn attempts_never_grow(s: SessionView, inputs: Seq<Input>)
    ensures
        run(s, inputs).attempts <= s.attempts,
        s.attempts - run(s, inputs).attempts <= inputs.len(),
    decreases inputs.len(),
{
    if inputs.len() > 0 {
        attempts_never_grow(s, inputs.drop_last());
    }
}

/// A guess that finds a waiting session without attempts loses the round on
/// the spot: the oracle is not asked, and the sender gets the reason.
pub proof fn guess_without_attempts_loses(s: SessionView, user: ActorId, word: Seq<char>, now: nat)
    requires
        s.session_status is Waiting,
        s.attempts == 0,
    ensures
        dispatch(s, SessionActionView::CheckWord { user, word }, now).session == s.lost(),
        dispatch(s, SessionActionView::CheckWord { user, word }, now).effects == EffectsView::reply(
            SessionEventView::GameError(reason_no_attempts()),
        ),
        dispatch(s, SessionActionView::CheckWord { user, word }, now).effects.request is None,
{
}

/// A guess never gets the result of the round as its immediate answer: it is
/// forwarded, or refused with a reason.
pub proof fn guess_is_forwarded_or_refused(s: SessionView, user: ActorId, word: Seq<char>)
    ensures
        check_word(s, user, word).effects.request is Some || check_word(
            s,
            user,
            word,
        ).effects.reply->0 is GameError,
        check_word(s, user, word).effects.request is Some <==> !s.ended() && s.attempts > 0,
{
}

/// An answer with five correct positions wins an open round, however many
/// attempts are left and whatever action the resumed call carries.
pub proof fn all_positions_correct_wins(
    s: SessionView,
    user: ActorId,
    correct_positions: Seq<u8>,
    contained_in_word: Seq<u8>,
    action: SessionActionView,
    now: nat,
)
    requires
        !s.ended(),
        correct_positions.len() == 5,
    ensures
        ({
            let event = EventView::WordChecked { user, correct_positions, contained_in_word };
            let step = dispatch(queue(s, event), action, now);
            &&& step.session == s.won()
            &&& step.session.session_status == SessionStatusView::GameEnded {
                result: GameResult::Win,
            }
            &&& step.effects == EffectsView::reply(
                SessionEventView::GameStatus(GameStatus { game_result: Some(GameResult::Win) }),
            )
            &&& consume(s, event) == step
        }),
{
}

/// An answer with another number of correct positions is passed on as it
/// is, and the session waits for the next action.
pub proof fn partial_match_is_passed_on(
    s: SessionView,
    user: ActorId,
    correct_positions: Seq<u8>,
    contained_in_word: Seq<u8>,
    action: SessionActionView,
    now: nat,
)
    requires
        !s.ended(),
        correct_positions.len() != 5,
    ensures
        ({
            let event = EventView::WordChecked { user, correct_positions, contained_in_word };
            let step = dispatch(queue(s, event), action, now);
            &&& step.session == s.with_status(SessionStatusView::Waiting)
            &&& step.effects == EffectsView::reply(
                SessionEventView::WordChecked { user, correct_positions, contained_in_word },
            )
        }),
{
}

/// A status check that finds a waiting session 200 blocks or more after its
/// round began loses the round, and says so.
pub proof fn status_check_after_timeout_loses(s: SessionView, user: ActorId, now: nat)
    requires
        s.session_status is Waiting,
        now - s.start_block_height >= 200,
    ensures
        dispatch(s, SessionActionView::CheckGameStatus { user }, now).session == s.lost(),
        dispatch(s, SessionActionView::CheckGameStatus { user }, now).effects == EffectsView::reply(
            SessionEventView::GameStatus(GameStatus { game_result: Some(GameResult::Lose) }),
        ),
{
}

/// A status check before that changes nothing and reports an open round.
pub proof fn status_check_before_timeout_keeps(s: SessionView, user: ActorId, now: nat)
    requires
        s.session_status is Waiting,
        now - s.start_block_height < 200,
    ensures
        dispatch(s, SessionActionView::CheckGameStatus { user }, now).session == s,
        dispatch(s, SessionActionView::CheckGameStatus { user }, now).effects == EffectsView::reply(
            SessionEventView::GameStatus(GameStatus { game_result: None }),
        ),
{
}

/// Applied to any session that has not ended, a status check after the
/// timeout loses the round.
pub proof fn timeout_loses_open_round(s: SessionView, user: ActorId, now: nat)
    requires
        !s.ended(),
        s.timed_out(now),
    ensures
        act(s, SessionActionView::CheckGameStatus { user }, now).session == s.lost(),
{
}

/// The watchdog that is armed when the start of a round is confirmed does
/// not fire too early: armed at or after the start of the round and
/// delivered 200 blocks later or more, it loses the round if it finds the
/// session waiting.
pub proof fn watchdog_finds_timeout(s: SessionView, user: ActorId, armed_at: nat, now: nat)
    requires
        !s.ended(),
        s.start_block_height <= armed_at,
        armed_at + 200 <= now,
    ensures
        ({
            let armed = consume(s, EventView::GameStarted { user });
            let watchdog = SessionActionView::CheckGameStatus { user };
            &&& armed.effects.watchdog == Some(DelayedView { action: watchdog, delay: 200 })
            &&& dispatch(armed.session, watchdog, now).session == s.lost()
        }),
{
}

/// While a request is outstanding every action is refused with a reason and
/// the session stays as it is; only the oracle's answer moves it on.
pub proof fn outstanding_request_refuses_actions(
    s: SessionView,
    action: SessionActionView,
    now: nat,
    event: EventView,
)
    requires
        s.session_status is MessageSent,
    ensures
        dispatch(s, action, now).session == s,
        dispatch(s, action, now).effects == EffectsView::reply(
            SessionEventView::GameError(reason_message_sent()),
        ),
        queue(s, event).session_status == SessionStatusView::MessageReceived(event),
{
}

/// A request goes out only from a waiting session, to the oracle of that
/// session, and leaves the session with a request outstanding: there is never
/// more than one.
pub proof fn one_request_at_a_time(s: SessionView, action: SessionActionView, now: nat)
    requires
        dispatch(s, action, now).effects.suspends(),
    ensures
        s.session_status is Waiting,
        !(action is CheckGameStatus),
        dispatch(s, action, now).session.session_status is MessageSent,
        dispatch(s, action, now).effects.request->0.destination == s.target_program_id,
        dispatch(s, action, now).effects.reply is None,
{
}

/// Every call that is neither suspended nor made on an ended session
/// answers its sender.
pub proof fn sender_is_answered(s: SessionView, action: SessionActionView, now: nat)
    requires
        !s.ended(),
        !dispatch(s, action, now).effects.suspends(),
    ensures
        dispatch(s, action, now).effects.reply is Some,
{
}

/// No call changes the oracle that the session delegates to.
pub proof fn target_is_kept(s: SessionView, inputs: Seq<Input>)
    ensures
        run(s, inputs).target_program_id == s.target_program_id,
    decreases inputs.len(),
{
    if inputs.len() > 0 {
        target_is_kept(s, inputs.drop_last());
    }
}

/// A suspended call that is resumed with the oracle's answer settles the
/// session: it waits again or has ended, its sender is answered, and no
/// second request goes out.  A request outstanding and an answer queued are
/// passing states of one such call.
pub proof fn resumed_call_settles(
    s: SessionView,
    action: SessionActionView,
    sent_at: nat,
    event: EventView,
    resumed_at: nat,
)
    requires
        dispatch(s, action, sent_at).effects.suspends(),
    ensures
        ({
            let outstanding = dispatch(s, action, sent_at).session;
            let settled = dispatch(queue(outstanding, event), action, resumed_at);
            &&& outstanding.session_status is MessageSent
            &&& queue(outstanding, event).session_status == SessionStatusView::MessageReceived(event)
            &&& settled == consume(outstanding, event)
            &&& settled.session.session_status is Waiting || settled.session.ended()
            &&& settled.effects.reply is Some
            &&& !settled.effects.suspends()
        }),
{
}

/// A round that is started and confirmed: the oracle gets the request, the
/// sender gets the confirmation, the watchdog is armed for 200 blocks later,
/// and the session waits with its attempts untouched and its clock at the
/// height of the start.
pub proof fn confirmed_start(s: SessionView, user: ActorId, sent_at: nat, resumed_at: nat)
    requires
        s.session_status is Waiting,
    ensures
        ({
            let action = SessionActionView::StartGame { user };
            let sent = dispatch(s, action, sent_at);
            let confirmed = dispatch(
                queue(sent.session, EventView::GameStarted { user }),
                action,
                resumed_at,
            );
            &&& sent.effects == EffectsView::forward(
                s.target_program_id,
                ActionView::StartGame { user },
            )
            &&& confirmed.session == SessionView {
                start_block_height: sent_at,
                ..s
            }
            &&& confirmed.effects.reply == Some(SessionEventView::GameStarted { user })
            &&& confirmed.effects.watchdog == Some(
                DelayedView { action: SessionActionView::CheckGameStatus { user }, delay: 200 },
            )
            &&& confirmed.effects.request is None
        }),
{
}

} // verus!
