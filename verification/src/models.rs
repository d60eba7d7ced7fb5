use vstd::prelude::*;

verus! {

/// The error kinds a command can report to its caller.
#[derive(Clone, Copy, PartialEq, Eq, Structural, Debug)]
pub enum ChatError {
    /// Rejected input: an empty display name or empty message text.
    Validation,
    /// The acting identity has no User row (acting before connecting).
    NotFound,
    /// The actor's User row is marked offline, so it may not move.
    Offline,
    /// A scheduler-only command was invoked by a non-scheduler identity.
    Unauthorized,
}

/// The fixed set of emoji a client may react with.
#[derive(Clone, Copy, PartialEq, Eq, Structural, Debug)]
pub enum ReactionEmoji {
    ThumbsUp,
    Heart,
    Laugh,
    Party,
    Wow,
    Rocket,
}

impl ReactionEmoji {
    /// The emoji string each variant renders as.
    pub open spec fn emoji_view(self) -> Seq<char> {
        match self {
            ReactionEmoji::ThumbsUp => "👍"@,
            ReactionEmoji::Heart => "❤️"@,
            ReactionEmoji::Laugh => "😂"@,
            ReactionEmoji::Party => "🎉"@,
            ReactionEmoji::Wow => "😮"@,
            ReactionEmoji::Rocket => "🚀"@,
        }
    }

    /// Converts the variant to its emoji string.
    pub fn to_emoji(&self) -> (r: &'static str)
        ensures
            r@ == self.emoji_view(),
    {
        match self {
            ReactionEmoji::ThumbsUp => "👍",
            ReactionEmoji::Heart => "❤️",
            ReactionEmoji::Laugh => "😂",
            ReactionEmoji::Party => "🎉",
            ReactionEmoji::Wow => "😮",
            ReactionEmoji::Rocket => "🚀",
        }
    }
}

/// A connected (or previously connected) client.
///
/// The actor identity is opaque to the core; it is carried here as a 64-bit
/// value supplied by the session collaborator. Positions are carried as the
/// bit patterns of 32-bit IEEE coordinates: the core stores and compares them
/// but never does arithmetic on them, so the bits are all it needs.
#[derive(Clone, Debug)]
pub struct User {
    pub identity: u64,
    pub name: Option<String>,
    pub online: bool,
    pub x_bits: u32,
    pub y_bits: u32,
    /// Microseconds since the Unix epoch of the user's last activity.
    pub last_active: i64,
}

/// A single chat message. Immutable once created, never deleted.
#[derive(Clone, Debug)]
pub struct Message {
    pub message_id: u64,
    pub sender: u64,
    /// Microseconds since the Unix epoch at which the message was received.
    pub sent: i64,
    pub text: String,
}

/// An emoji reaction to a chat message.
#[derive(Clone, Debug)]
pub struct Reaction {
    pub reaction_id: u64,
    pub message_id: u64,
    pub emoji: ReactionEmoji,
    pub reactor: u64,
    /// Microseconds since the Unix epoch at which the reaction was received.
    pub reacted_at: i64,
}

/// When a schedule row is due: once at a single instant, or repeatedly.
#[derive(Clone, Copy, PartialEq, Eq, Structural, Debug)]
pub enum ScheduleAt {
    /// Fire once, at the given instant (microseconds since the Unix epoch).
    Time(i64),
    /// Fire repeatedly, once every given interval (microseconds).
    Interval(i64),
}

/// A scheduled call to `send_scheduled_message`, carrying the text to send.
#[derive(Clone, Debug)]
pub struct SendMessageSchedule {
    pub scheduled_id: u64,
    pub scheduled_at: ScheduleAt,
    pub text: String,
}

} // verus!
