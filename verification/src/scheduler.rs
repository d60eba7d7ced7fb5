use vstd::prelude::*;

use crate::message::{send_message, send_t};
use crate::models::{ChatError, ScheduleAt, SendMessageSchedule};
use crate::state::{wf, ChatState};

verus! {

/// Ten seconds, in microseconds: the delay of the one-shot seed schedule
/// and the interval of the repeating one.
pub const TEN_SECONDS_MICROS: i64 = 10_000_000;

/// Initialization command, run exactly once at system startup by the host.
/// Seeds the schedule table with the two example bot entries: a one-shot
/// row due ten seconds from now, and a row repeating every ten seconds.
/// Both seeded texts are non-empty, so their later firings cannot fail
/// validation. Touches no other table.
pub fn init(state: &mut ChatState, now: i64)
    requires
        wf(old(state)@),
        now <= i64::MAX - TEN_SECONDS_MICROS,
        old(state)@.next_scheduled_id <= u64::MAX - 2,
    ensures
        ({
            let n = old(state)@.schedules.len() as int;
            let s2 = final(state)@;
            &&& s2.schedules.len() == n + 2
            &&& forall|k: int| 0 <= k < n ==> s2.schedules[k] == old(state)@.schedules[k]
            &&& s2.schedules[n].scheduled_id == old(state)@.next_scheduled_id
            &&& s2.schedules[n].scheduled_at == ScheduleAt::Time((now + TEN_SECONDS_MICROS) as i64)
            &&& s2.schedules[n].text@ == "I'm a bot sending a message one time"@
            &&& s2.schedules[n].text@.len() > 0
            &&& s2.schedules[n + 1].scheduled_id == old(state)@.next_scheduled_id + 1
            &&& s2.schedules[n + 1].scheduled_at == ScheduleAt::Interval(TEN_SECONDS_MICROS)
            &&& s2.schedules[n + 1].text@ == "I'm a bot sending a message every 10 seconds"@
            &&& s2.schedules[n + 1].text@.len() > 0
            &&& s2.users == old(state)@.users
            &&& s2.messages == old(state)@.messages
            &&& s2.reactions == old(state)@.reactions
            &&& s2.next_message_id == old(state)@.next_message_id
            &&& s2.next_reaction_id == old(state)@.next_reaction_id
            &&& s2.next_scheduled_id == old(state)@.next_scheduled_id + 2
        }),
        wf(final(state)@),
{
    let future_timestamp = now + TEN_SECONDS_MICROS;
    let id_one_shot = state.next_scheduled_id;
    state.schedules.push(
        SendMessageSchedule {
            scheduled_id: id_one_shot,
            scheduled_at: ScheduleAt::Time(future_timestamp),
            text: String::from_str("I'm a bot sending a message one time"),
        },
    );
    let id_repeating = id_one_shot + 1;
    state.schedules.push(
        SendMessageSchedule {
            scheduled_id: id_repeating,
            scheduled_at: ScheduleAt::Interval(TEN_SECONDS_MICROS),
            text: String::from_str("I'm a bot sending a message every 10 seconds"),
        },
    );
    state.next_scheduled_id = id_one_shot + 2;
    proof {
        reveal_strlit("I'm a bot sending a message one time");
        reveal_strlit("I'm a bot sending a message every 10 seconds");
    }
}

/// Firing handler invoked by the timer collaborator when a schedule row is
/// due: posts the row's text as `sender` (the system's own identity). A
/// failed send — only possible on empty text, which the seeded rows never
/// carry — leaves the tables unchanged and is swallowed: the handler never
/// reports failure upward, so a missed bot message cannot destabilize the
/// scheduling fabric.
pub fn send_scheduled_message(
    state: &mut ChatState,
    sender: u64,
    now: i64,
    arg: SendMessageSchedule,
) -> (r: Result<(), ChatError>)
    requires
        wf(old(state)@),
        old(state)@.next_message_id < u64::MAX,
    ensures
        r == Ok::<(), ChatError>(()),
        arg.text@.len() > 0 ==> final(state)@ == send_t(old(state)@, sender, now, arg.text),
        arg.text@.len() == 0 ==> final(state)@ == old(state)@,
        wf(final(state)@),
{
    let _send_result = send_message(state, sender, now, arg.text);
    Ok(())
}

/// Guard pattern for commands that only the timer collaborator may invoke:
/// compares the invoking identity against the module's own reserved
/// identity and rejects every other caller with an authorization error.
/// Reads and changes nothing else.
pub fn scheduled_only_message(
    caller: u64,
    module_identity: u64,
    _args: SendMessageSchedule,
) -> (r: Result<(), ChatError>)
    ensures
        caller == module_identity ==> r == Ok::<(), ChatError>(()),
        caller != module_identity ==> r == Err::<(), ChatError>(ChatError::Unauthorized),
{
    if caller != module_identity {
        return Err(ChatError::Unauthorized);
    }
    Ok(())
}

} // verus!
