use vstd::prelude::*;

use crate::models::{Message, Reaction, SendMessageSchedule, User};

verus! {

/// The abstract value of the whole table state: the four tables as
/// sequences of rows, plus the next primary key each table will assign.
#[verifier::ext_equal]
pub ghost struct StateV {
    pub users: Seq<User>,
    pub messages: Seq<Message>,
    pub reactions: Seq<Reaction>,
    pub schedules: Seq<SendMessageSchedule>,
    pub next_message_id: u64,
    pub next_reaction_id: u64,
    pub next_scheduled_id: u64,
}

/// The shared table state every command runs against: one row set per
/// entity, and the auto-increment counters the storage collaborator owns.
pub struct ChatState {
    pub users: Vec<User>,
    pub messages: Vec<Message>,
    pub reactions: Vec<Reaction>,
    pub schedules: Vec<SendMessageSchedule>,
    pub next_message_id: u64,
    pub next_reaction_id: u64,
    pub next_scheduled_id: u64,
}

impl View for ChatState {
    type V = StateV;

    open spec fn view(&self) -> StateV {
        StateV {
            users: self.users@,
            messages: self.messages@,
            reactions: self.reactions@,
            schedules: self.schedules@,
            next_message_id: self.next_message_id,
            next_reaction_id: self.next_reaction_id,
            next_scheduled_id: self.next_scheduled_id,
        }
    }
}

/// Whether two reactions agree on the composite key of the toggle:
/// the reacted-to message, the reacting identity, and the emoji.
pub open spec fn same_triple(a: Reaction, b: Reaction) -> bool {
    a.message_id == b.message_id && a.reactor == b.reactor && a.emoji == b.emoji
}

/// Well-formedness of the table state:
/// - each identity owns at most one User row;
/// - message ids are strictly increasing along the table, and below the
///   counter that will assign the next one;
/// - every stored message has non-empty text;
/// - reaction ids are strictly increasing and below their counter, and no
///   two live reactions share a (message, reactor, emoji) triple;
/// - schedule ids are strictly increasing and below their counter.
pub open spec fn wf(s: StateV) -> bool {
    &&& forall|i: int, j: int|
        0 <= i < j < s.users.len() ==> s.users[i].identity != s.users[j].identity
    &&& forall|i: int, j: int|
        0 <= i < j < s.messages.len() ==> s.messages[i].message_id < s.messages[j].message_id
    &&& forall|i: int| 0 <= i < s.messages.len() ==> s.messages[i].message_id < s.next_message_id
    &&& forall|i: int| 0 <= i < s.messages.len() ==> s.messages[i].text@.len() > 0
    &&& forall|i: int, j: int|
        0 <= i < j < s.reactions.len() ==> s.reactions[i].reaction_id < s.reactions[j].reaction_id
    &&& forall|i: int| 0 <= i < s.reactions.len() ==> s.reactions[i].reaction_id < s.next_reaction_id
    &&& forall|i: int, j: int|
        0 <= i < j < s.reactions.len() ==> !same_triple(s.reactions[i], s.reactions[j])
    &&& forall|i: int, j: int|
        0 <= i < j < s.schedules.len() ==> s.schedules[i].scheduled_id < s.schedules[j].scheduled_id
    &&& forall|i: int| 0 <= i < s.schedules.len() ==> s.schedules[i].scheduled_id < s.next_scheduled_id
}

impl ChatState {
    /// A fresh, empty table state. The storage collaborator assigns primary
    /// keys starting from 1, so each counter starts there.
    pub fn new() -> (r: ChatState)
        ensures
            r@.users == Seq::<User>::empty(),
            r@.messages == Seq::<Message>::empty(),
            r@.reactions == Seq::<Reaction>::empty(),
            r@.schedules == Seq::<SendMessageSchedule>::empty(),
            r@.next_message_id == 1u64,
            r@.next_reaction_id == 1u64,
            r@.next_scheduled_id == 1u64,
            wf(r@),
    {
        ChatState {
            users: Vec::new(),
            messages: Vec::new(),
            reactions: Vec::new(),
            schedules: Vec::new(),
            next_message_id: 1,
            next_reaction_id: 1,
            next_scheduled_id: 1,
        }
    }
}

} // verus!
