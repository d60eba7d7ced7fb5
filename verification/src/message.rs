use vstd::prelude::*;

use crate::models::{ChatError, Message, Reaction, ReactionEmoji};
use crate::state::{same_triple, wf, ChatState, StateV};

verus! {

/// Whether some Reaction row carries the (message, reactor, emoji) triple.
pub open spec fn has_reaction(
    reactions: Seq<Reaction>,
    message_id: u64,
    reactor: u64,
    emoji: ReactionEmoji,
) -> bool {
    exists|i: int|
        0 <= i < reactions.len() && reactions[i].message_id == message_id
            && reactions[i].reactor == reactor && reactions[i].emoji == emoji
}

/// The index of the Reaction row carrying the triple (meaningful when
/// `has_reaction` holds; unique when the rows are well-formed).
pub open spec fn reaction_idx(
    reactions: Seq<Reaction>,
    message_id: u64,
    reactor: u64,
    emoji: ReactionEmoji,
) -> int {
    choose|i: int|
        0 <= i < reactions.len() && reactions[i].message_id == message_id
            && reactions[i].reactor == reactor && reactions[i].emoji == emoji
}

/// `reaction_idx` lands on a row that carries the triple.
pub proof fn lemma_reaction_idx(
    reactions: Seq<Reaction>,
    message_id: u64,
    reactor: u64,
    emoji: ReactionEmoji,
)
    requires
        has_reaction(reactions, message_id, reactor, emoji),
    ensures
        0 <= reaction_idx(reactions, message_id, reactor, emoji) < reactions.len(),
        reactions[reaction_idx(reactions, message_id, reactor, emoji)].message_id == message_id,
        reactions[reaction_idx(reactions, message_id, reactor, emoji)].reactor == reactor,
        reactions[reaction_idx(reactions, message_id, reactor, emoji)].emoji == emoji,
{
}

/// The table state after `sender` posted `text` at time `now` (the success
/// path of `send_message`): one Message row appended, carrying the id the
/// storage collaborator assigns, and that counter advanced.
pub open spec fn send_t(s: StateV, sender: u64, now: i64, text: String) -> StateV {
    StateV {
        messages: s.messages.push(
            Message { message_id: s.next_message_id, sender, sent: now, text },
        ),
        next_message_id: (s.next_message_id + 1) as u64,
        ..s
    }
}

/// The table state after `reactor` toggled `emoji` on `message_id` at time
/// `now`: the row carrying the triple removed if one was live, else a fresh
/// row appended with the id the storage collaborator assigns.
pub open spec fn toggle_t(
    s: StateV,
    reactor: u64,
    now: i64,
    message_id: u64,
    emoji: ReactionEmoji,
) -> StateV {
    if has_reaction(s.reactions, message_id, reactor, emoji) {
        StateV {
            reactions: s.reactions.remove(reaction_idx(s.reactions, message_id, reactor, emoji)),
            ..s
        }
    } else {
        StateV {
            reactions: s.reactions.push(
                Reaction {
                    reaction_id: s.next_reaction_id,
                    message_id,
                    emoji,
                    reactor,
                    reacted_at: now,
                },
            ),
            next_reaction_id: (s.next_reaction_id + 1) as u64,
            ..s
        }
    }
}

/// Sending a non-empty message keeps the table state well-formed.
pub proof fn lemma_send_preserves_wf(s: StateV, sender: u64, now: i64, text: String)
    requires
        wf(s),
        text@.len() > 0,
        s.next_message_id < u64::MAX,
    ensures
        wf(send_t(s, sender, now, text)),
{
}

/// Toggling a reaction keeps the table state well-formed.
pub proof fn lemma_toggle_preserves_wf(
    s: StateV,
    reactor: u64,
    now: i64,
    message_id: u64,
    emoji: ReactionEmoji,
)
    requires
        wf(s),
        s.next_reaction_id < u64::MAX,
    ensures
        wf(toggle_t(s, reactor, now, message_id, emoji)),
{
    if has_reaction(s.reactions, message_id, reactor, emoji) {
        lemma_reaction_idx(s.reactions, message_id, reactor, emoji);
    }
}

/// Scans the Reaction rows for the one carrying the triple.
pub(crate) fn find_reaction_index(
    reactions: &Vec<Reaction>,
    message_id: u64,
    reactor: u64,
    emoji: ReactionEmoji,
) -> (r: Option<usize>)
    ensures
        match r {
            Some(i) => 0 <= i < reactions@.len() && reactions@[i as int].message_id == message_id
                && reactions@[i as int].reactor == reactor && reactions@[i as int].emoji == emoji,
            None => !has_reaction(reactions@, message_id, reactor, emoji),
        },
{
    let mut i: usize = 0;
    while i < reactions.len()
        invariant
            0 <= i <= reactions@.len(),
            forall|k: int|
                0 <= k < i ==> !(reactions@[k].message_id == message_id && reactions@[k].reactor
                    == reactor && reactions@[k].emoji == emoji),
        decreases reactions@.len() - i,
    {
        let r = &reactions[i];
        if r.message_id == message_id && r.reactor == reactor && r.emoji == emoji {
            return Some(i);
        }
        i = i + 1;
    }
    None
}

/// Validates message text: it must not be empty.
pub fn validate_message(text: String) -> (r: Result<String, ChatError>)
    ensures
        text@.len() == 0 ==> r == Err::<String, ChatError>(ChatError::Validation),
        text@.len() > 0 ==> r == Ok::<String, ChatError>(text),
{
    if text.as_str().is_empty() {
        Err(ChatError::Validation)
    } else {
        Ok(text)
    }
}

/// Command: `sender` posts `text`. Fails with a validation error on empty
/// text, leaving everything unchanged; on success inserts exactly one
/// Message row carrying the sender, the invocation time and the text, and
/// touches no other table (in particular no User row).
pub fn send_message(state: &mut ChatState, sender: u64, now: i64, text: String) -> (r: Result<
    (),
    ChatError,
>)
    requires
        wf(old(state)@),
        old(state)@.next_message_id < u64::MAX,
    ensures
        text@.len() == 0 ==> r == Err::<(), ChatError>(ChatError::Validation) && final(state)@
            == old(state)@,
        text@.len() > 0 ==> r == Ok::<(), ChatError>(()) && final(state)@ == send_t(
            old(state)@,
            sender,
            now,
            text,
        ),
        wf(final(state)@),
{
    let text = match validate_message(text) {
        Ok(t) => t,
        Err(e) => {
            return Err(e);
        },
    };
    let id = state.next_message_id;
    state.messages.push(Message { message_id: id, sender, sent: now, text });
    state.next_message_id = id + 1;
    proof {
        assert(state@ =~= send_t(old(state)@, sender, now, text));
        lemma_send_preserves_wf(old(state)@, sender, now, text);
    }
    Ok(())
}

/// Command: `reactor` toggles `emoji` on `message_id`. An idempotent flip:
/// a live row for the triple is deleted, an absent one is inserted with the
/// invocation time. Defined for every message id — nothing checks that the
/// message exists, so a reaction to a nonexistent message is accepted as an
/// orphan row (a known gap, kept as the behaviour of record). Never fails.
pub fn toggle_reaction(
    state: &mut ChatState,
    reactor: u64,
    now: i64,
    message_id: u64,
    emoji: ReactionEmoji,
) -> (r: Result<(), ChatError>)
    requires
        wf(old(state)@),
        old(state)@.next_reaction_id < u64::MAX,
    ensures
        r == Ok::<(), ChatError>(()),
        final(state)@ == toggle_t(old(state)@, reactor, now, message_id, emoji),
        wf(final(state)@),
{
    match find_reaction_index(&state.reactions, message_id, reactor, emoji) {
        Some(i) => {
            state.reactions.remove(i);
            proof {
                lemma_reaction_idx(old(state)@.reactions, message_id, reactor, emoji);
                let ghost j = reaction_idx(old(state)@.reactions, message_id, reactor, emoji);
                if j < i as int {
                    assert(!same_triple(old(state)@.reactions[j], old(state)@.reactions[i as int]));
                } else if j > i as int {
                    assert(!same_triple(old(state)@.reactions[i as int], old(state)@.reactions[j]));
                }
                assert(j == i as int);
                assert(state@ =~= toggle_t(old(state)@, reactor, now, message_id, emoji));
            }
        },
        None => {
            let id = state.next_reaction_id;
            state.reactions.push(
                Reaction { reaction_id: id, message_id, emoji, reactor, reacted_at: now },
            );
            state.next_reaction_id = id + 1;
            proof {
                assert(state@ =~= toggle_t(old(state)@, reactor, now, message_id, emoji));
            }
        },
    }
    proof {
        lemma_toggle_preserves_wf(old(state)@, reactor, now, message_id, emoji);
    }
    Ok(())
}

/// Law: a toggle flips whether a row for its own triple is live, and leaves
/// every row of every other triple exactly as it was.
pub proof fn lemma_toggle_flips(
    s: StateV,
    reactor: u64,
    now: i64,
    message_id: u64,
    emoji: ReactionEmoji,
)
    requires
        wf(s),
        s.next_reaction_id < u64::MAX,
    ensures
        ({
            let s2 = toggle_t(s, reactor, now, message_id, emoji);
            &&& has_reaction(s2.reactions, message_id, reactor, emoji) == !has_reaction(
                s.reactions,
                message_id,
                reactor,
                emoji,
            )
            &&& forall|m: u64, a: u64, e: ReactionEmoji|
                !(m == message_id && a == reactor && e == emoji) ==> has_reaction(
                    s2.reactions,
                    m,
                    a,
                    e,
                ) == has_reaction(s.reactions, m, a, e)
        }),
{
    let s2 = toggle_t(s, reactor, now, message_id, emoji);
    if has_reaction(s.reactions, message_id, reactor, emoji) {
        lemma_reaction_idx(s.reactions, message_id, reactor, emoji);
        let i = reaction_idx(s.reactions, message_id, reactor, emoji);
        assert(!has_reaction(s2.reactions, message_id, reactor, emoji)) by {
            assert forall|k: int|
                0 <= k < s2.reactions.len() implies !(s2.reactions[k].message_id == message_id
                && s2.reactions[k].reactor == reactor && s2.reactions[k].emoji == emoji) by {
                if k < i {
                    assert(s2.reactions[k] == s.reactions[k]);
                    assert(!same_triple(s.reactions[k], s.reactions[i]));
                } else {
                    assert(s2.reactions[k] == s.reactions[k + 1]);
                    assert(!same_triple(s.reactions[i], s.reactions[k + 1]));
                }
            }
        }
        assert forall|m: u64, a: u64, e: ReactionEmoji|
            !(m == message_id && a == reactor && e == emoji) implies has_reaction(
            s2.reactions,
            m,
            a,
            e,
        ) == has_reaction(s.reactions, m, a, e) by {
            if has_reaction(s.reactions, m, a, e) {
                lemma_reaction_idx(s.reactions, m, a, e);
                let j = reaction_idx(s.reactions, m, a, e);
                if j < i {
                    assert(s2.reactions[j] == s.reactions[j]);
                } else {
                    assert(j != i);
                    assert(s2.reactions[j - 1] == s.reactions[j]);
                }
                assert(has_reaction(s2.reactions, m, a, e));
            }
            if has_reaction(s2.reactions, m, a, e) {
                lemma_reaction_idx(s2.reactions, m, a, e);
                let j = reaction_idx(s2.reactions, m, a, e);
                if j < i {
                    assert(s2.reactions[j] == s.reactions[j]);
                } else {
                    assert(s2.reactions[j] == s.reactions[j + 1]);
                }
                assert(has_reaction(s.reactions, m, a, e));
            }
        }
    } else {
        let n = s.reactions.len() as int;
        assert(s2.reactions[n].message_id == message_id && s2.reactions[n].reactor == reactor
            && s2.reactions[n].emoji == emoji);
        assert forall|m: u64, a: u64, e: ReactionEmoji|
            !(m == message_id && a == reactor && e == emoji) implies has_reaction(
            s2.reactions,
            m,
            a,
            e,
        ) == has_reaction(s.reactions, m, a, e) by {
            if has_reaction(s.reactions, m, a, e) {
                lemma_reaction_idx(s.reactions, m, a, e);
                let j = reaction_idx(s.reactions, m, a, e);
                assert(s2.reactions[j] == s.reactions[j]);
                assert(has_reaction(s2.reactions, m, a, e));
            }
            if has_reaction(s2.reactions, m, a, e) {
                lemma_reaction_idx(s2.reactions, m, a, e);
                let j = reaction_idx(s2.reactions, m, a, e);
                assert(j != n);
                assert(s2.reactions[j] == s.reactions[j]);
                assert(has_reaction(s.reactions, m, a, e));
            }
        }
    }
}

/// Law: in a well-formed state the stored message ids are strictly
/// increasing along the table, and therefore pairwise distinct.
pub proof fn lemma_message_ids_strictly_increasing(s: StateV)
    requires
        wf(s),
    ensures
        forall|i: int, j: int|
            0 <= i < j < s.messages.len() ==> s.messages[i].message_id
                < s.messages[j].message_id,
        forall|i: int, j: int|
            0 <= i < s.messages.len() && 0 <= j < s.messages.len() && i != j ==> s.messages[i].message_id
                != s.messages[j].message_id,
{
}

/// Law: a sent message receives an id strictly greater than the id of every
/// message already stored, so ids across repeated sends keep increasing.
pub proof fn lemma_send_id_fresh(s: StateV, sender: u64, now: i64, text: String)
    requires
        wf(s),
        s.next_message_id < u64::MAX,
    ensures
        ({
            let s2 = send_t(s, sender, now, text);
            let new_msg = s2.messages[s2.messages.len() - 1];
            &&& s2.messages.len() == s.messages.len() + 1
            &&& new_msg.message_id == s.next_message_id
            &&& forall|i: int|
                0 <= i < s.messages.len() ==> s.messages[i].message_id < new_msg.message_id
        }),
{
}

} // verus!
