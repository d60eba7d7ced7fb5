use vstd::prelude::*;

use crate::models::{ChatError, User};
use crate::state::{wf, ChatState, StateV};

verus! {

/// Whether some User row carries `actor` as its identity.
pub open spec fn has_user(users: Seq<User>, actor: u64) -> bool {
    exists|i: int| 0 <= i < users.len() && users[i].identity == actor
}

/// The index of the User row keyed by `actor` (meaningful when
/// `has_user(users, actor)` holds; unique when the rows are well-formed).
pub open spec fn user_idx(users: Seq<User>, actor: u64) -> int {
    choose|i: int| 0 <= i < users.len() && users[i].identity == actor
}

/// `user_idx` lands on a row that carries `actor`.
pub proof fn lemma_user_idx(users: Seq<User>, actor: u64)
    requires
        has_user(users, actor),
    ensures
        0 <= user_idx(users, actor) < users.len(),
        users[user_idx(users, actor)].identity == actor,
{
}

/// The table state after the connect hook ran for `actor` at time `now`:
/// a fresh row (online, unnamed, at the origin) if the identity was unknown,
/// else the known row marked online with `last_active` refreshed.
pub open spec fn connect_t(s: StateV, actor: u64, now: i64) -> StateV {
    if has_user(s.users, actor) {
        let i = user_idx(s.users, actor);
        StateV {
            users: s.users.update(i, User { online: true, last_active: now, ..s.users[i] }),
            ..s
        }
    } else {
        StateV {
            users: s.users.push(
                User {
                    identity: actor,
                    name: None,
                    online: true,
                    x_bits: 0,
                    y_bits: 0,
                    last_active: now,
                },
            ),
            ..s
        }
    }
}

/// The table state after the disconnect hook ran for `actor`: the known row
/// marked offline, or everything untouched if the identity is unknown.
pub open spec fn disconnect_t(s: StateV, actor: u64) -> StateV {
    if has_user(s.users, actor) {
        let i = user_idx(s.users, actor);
        StateV { users: s.users.update(i, User { online: false, ..s.users[i] }), ..s }
    } else {
        s
    }
}

/// The table state after `actor`'s display name was replaced by `name`
/// (the success path of `set_name`).
pub open spec fn set_name_t(s: StateV, actor: u64, name: String) -> StateV {
    let i = user_idx(s.users, actor);
    StateV { users: s.users.update(i, User { name: Some(name), ..s.users[i] }), ..s }
}

/// The table state after `actor` moved to the position whose coordinate bit
/// patterns are `(x_bits, y_bits)` at time `now` (the success path of
/// `move_actor`).
pub open spec fn move_t(s: StateV, actor: u64, x_bits: u32, y_bits: u32, now: i64) -> StateV {
    let i = user_idx(s.users, actor);
    StateV {
        users: s.users.update(
            i,
            User { x_bits, y_bits, last_active: now, ..s.users[i] },
        ),
        ..s
    }
}

/// Connecting keeps the table state well-formed.
pub proof fn lemma_connect_preserves_wf(s: StateV, actor: u64, now: i64)
    requires
        wf(s),
    ensures
        wf(connect_t(s, actor, now)),
{
    if has_user(s.users, actor) {
        lemma_user_idx(s.users, actor);
    }
}

/// Disconnecting keeps the table state well-formed.
pub proof fn lemma_disconnect_preserves_wf(s: StateV, actor: u64)
    requires
        wf(s),
    ensures
        wf(disconnect_t(s, actor)),
{
    if has_user(s.users, actor) {
        lemma_user_idx(s.users, actor);
    }
}

/// Replacing a display name keeps the table state well-formed.
pub proof fn lemma_set_name_preserves_wf(s: StateV, actor: u64, name: String)
    requires
        wf(s),
        has_user(s.users, actor),
    ensures
        wf(set_name_t(s, actor, name)),
{
    lemma_user_idx(s.users, actor);
}

/// Moving keeps the table state well-formed.
pub proof fn lemma_move_preserves_wf(s: StateV, actor: u64, x_bits: u32, y_bits: u32, now: i64)
    requires
        wf(s),
        has_user(s.users, actor),
    ensures
        wf(move_t(s, actor, x_bits, y_bits, now)),
{
    lemma_user_idx(s.users, actor);
}

/// Scans the User rows for the one keyed by `actor`.
pub(crate) fn find_user_index(users: &Vec<User>, actor: u64) -> (r: Option<usize>)
    ensures
        match r {
            Some(i) => 0 <= i < users@.len() && users@[i as int].identity == actor,
            None => !has_user(users@, actor),
        },
{
    let mut i: usize = 0;
    while i < users.len()
        invariant
            0 <= i <= users@.len(),
            forall|k: int| 0 <= k < i ==> users@[k].identity != actor,
        decreases users@.len() - i,
    {
        if users[i].identity == actor {
            return Some(i);
        }
        i = i + 1;
    }
    None
}

/// Validates a potential display name: it must not be empty.
pub fn validate_name(name: String) -> (r: Result<String, ChatError>)
    ensures
        name@.len() == 0 ==> r == Err::<String, ChatError>(ChatError::Validation),
        name@.len() > 0 ==> r == Ok::<String, ChatError>(name),
{
    if name.as_str().is_empty() {
        Err(ChatError::Validation)
    } else {
        Ok(name)
    }
}

/// Lifecycle hook invoked by the session collaborator when a client
/// connects. Creates the User row on a first connection; on a reconnect
/// marks the existing row online and refreshes `last_active`, leaving name
/// and position untouched. Never fails.
pub fn identity_connected(state: &mut ChatState, actor: u64, now: i64)
    requires
        wf(old(state)@),
    ensures
        final(state)@ == connect_t(old(state)@, actor, now),
        wf(final(state)@),
{
    match find_user_index(&state.users, actor) {
        Some(i) => {
            let mut u = state.users.remove(i);
            u.online = true;
            u.last_active = now;
            state.users.insert(i, u);
            proof {
                lemma_user_idx(old(state)@.users, actor);
                assert(user_idx(old(state)@.users, actor) == i as int);
                assert(state@ =~= connect_t(old(state)@, actor, now));
                lemma_connect_preserves_wf(old(state)@, actor, now);
            }
        },
        None => {
            state.users.push(
                User {
                    identity: actor,
                    name: None,
                    online: true,
                    x_bits: 0,
                    y_bits: 0,
                    last_active: now,
                },
            );
            proof {
                assert(state@ =~= connect_t(old(state)@, actor, now));
                lemma_connect_preserves_wf(old(state)@, actor, now);
            }
        },
    }
}

/// Lifecycle hook invoked by the session collaborator when a client
/// disconnects. Marks the known row offline and reports `true`; a
/// disconnect for an unknown identity is an inconsistency: it creates no
/// row, changes nothing, does not fail, and reports `false` so the caller
/// can log it.
pub fn identity_disconnected(state: &mut ChatState, actor: u64) -> (known: bool)
    requires
        wf(old(state)@),
    ensures
        known == has_user(old(state)@.users, actor),
        final(state)@ == disconnect_t(old(state)@, actor),
        !has_user(old(state)@.users, actor) ==> final(state)@ == old(state)@,
        wf(final(state)@),
{
    match find_user_index(&state.users, actor) {
        Some(i) => {
            let mut u = state.users.remove(i);
            u.online = false;
            state.users.insert(i, u);
            proof {
                lemma_user_idx(old(state)@.users, actor);
                assert(user_idx(old(state)@.users, actor) == i as int);
                assert(state@ =~= disconnect_t(old(state)@, actor));
                lemma_disconnect_preserves_wf(old(state)@, actor);
            }
            true
        },
        None => {
            proof {
                assert(state@ =~= disconnect_t(old(state)@, actor));
            }
            false
        },
    }
}

/// Command: `actor` sets its display name. Fails with a validation error on
/// an empty name and with a not-found error when `actor` has no User row;
/// on success replaces `display_name` and leaves every other field — and
/// every other table — unchanged.
pub fn set_name(state: &mut ChatState, actor: u64, name: String) -> (r: Result<(), ChatError>)
    requires
        wf(old(state)@),
    ensures
        name@.len() == 0 ==> r == Err::<(), ChatError>(ChatError::Validation) && final(state)@
            == old(state)@,
        name@.len() > 0 && !has_user(old(state)@.users, actor) ==> r == Err::<(), ChatError>(
            ChatError::NotFound,
        ) && final(state)@ == old(state)@,
        name@.len() > 0 && has_user(old(state)@.users, actor) ==> r == Ok::<(), ChatError>(())
            && final(state)@ == set_name_t(old(state)@, actor, name),
        wf(final(state)@),
{
    let name = match validate_name(name) {
        Ok(n) => n,
        Err(e) => {
            return Err(e);
        },
    };
    match find_user_index(&state.users, actor) {
        Some(i) => {
            let mut u = state.users.remove(i);
            u.name = Some(name);
            state.users.insert(i, u);
            proof {
                lemma_user_idx(old(state)@.users, actor);
                assert(user_idx(old(state)@.users, actor) == i as int);
                assert(state@ =~= set_name_t(old(state)@, actor, name));
                lemma_set_name_preserves_wf(old(state)@, actor, name);
            }
            Ok(())
        },
        None => Err(ChatError::NotFound),
    }
}

/// Command: `actor` moves to the position whose coordinate bit patterns are
/// `(x_bits, y_bits)`. Fails with a not-found error when `actor` has no
/// User row and with a state error when the row is offline (an actor must
/// be connected to move), leaving everything unchanged either way; on
/// success overwrites the position and refreshes `last_active`.
pub fn move_actor(
    state: &mut ChatState,
    actor: u64,
    x_bits: u32,
    y_bits: u32,
    now: i64,
) -> (r: Result<(), ChatError>)
    requires
        wf(old(state)@),
    ensures
        !has_user(old(state)@.users, actor) ==> r == Err::<(), ChatError>(ChatError::NotFound)
            && final(state)@ == old(state)@,
        has_user(old(state)@.users, actor) && !old(state)@.users[user_idx(
            old(state)@.users,
            actor,
        )].online ==> r == Err::<(), ChatError>(ChatError::Offline) && final(state)@ == old(
            state,
        )@,
        has_user(old(state)@.users, actor) && old(state)@.users[user_idx(
            old(state)@.users,
            actor,
        )].online ==> r == Ok::<(), ChatError>(()) && final(state)@ == move_t(
            old(state)@,
            actor,
            x_bits,
            y_bits,
            now,
        ),
        wf(final(state)@),
{
    match find_user_index(&state.users, actor) {
        Some(i) => {
            proof {
                lemma_user_idx(old(state)@.users, actor);
                assert(user_idx(old(state)@.users, actor) == i as int);
            }
            if !state.users[i].online {
                return Err(ChatError::Offline);
            }
            let mut u = state.users.remove(i);
            u.x_bits = x_bits;
            u.y_bits = y_bits;
            u.last_active = now;
            state.users.insert(i, u);
            proof {
                assert(state@ =~= move_t(old(state)@, actor, x_bits, y_bits, now));
                lemma_move_preserves_wf(old(state)@, actor, x_bits, y_bits, now);
            }
            Ok(())
        },
        None => Err(ChatError::NotFound),
    }
}

/// Law: connecting twice in a row leaves exactly one User row for the
/// actor, and it is online with the name and position the first connect
/// left behind.
pub proof fn lemma_connect_idempotent(s: StateV, actor: u64, t1: i64, t2: i64)
    requires
        wf(s),
    ensures
        ({
            let s1 = connect_t(s, actor, t1);
            let s2 = connect_t(s1, actor, t2);
            let u1 = s1.users[user_idx(s1.users, actor)];
            let u2 = s2.users[user_idx(s2.users, actor)];
            &&& has_user(s2.users, actor)
            &&& forall|i: int, j: int|
                0 <= i < s2.users.len() && 0 <= j < s2.users.len() && s2.users[i].identity == actor
                    && s2.users[j].identity == actor ==> i == j
            &&& u2.online
            &&& u2.name == u1.name
            &&& u2.x_bits == u1.x_bits
            &&& u2.y_bits == u1.y_bits
        }),
{
    let s1 = connect_t(s, actor, t1);
    let s2 = connect_t(s1, actor, t2);
    lemma_connect_preserves_wf(s, actor, t1);
    if has_user(s.users, actor) {
        lemma_user_idx(s.users, actor);
    }
    assert(has_user(s1.users, actor)) by {
        if has_user(s.users, actor) {
            assert(s1.users[user_idx(s.users, actor)].identity == actor);
        } else {
            assert(s1.users[s.users.len() as int].identity == actor);
        }
    }
    lemma_user_idx(s1.users, actor);
    lemma_connect_preserves_wf(s1, actor, t2);
    assert(has_user(s2.users, actor)) by {
        assert(s2.users[user_idx(s1.users, actor)].identity == actor);
    }
    lemma_user_idx(s2.users, actor);
}

} // verus!
