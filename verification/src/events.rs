//! The dispatcher over the closed set of platform events the bot handles.
//!
//! Each inbound event maps to one state change and one outbound action;
//! every event kind the bot does not handle falls into an explicit no-op
//! arm. The driver performs the action: it posts, grants roles, sets the
//! status text, starts the scheduler, or runs the curation flow.

use vstd::prelude::*;
use crate::colors::ColorStore;
use crate::community::CommunityTracker;
use crate::community::join_step;
use crate::community::leave_step;
use crate::curation::ReactionEvent;

verus! {

/// An inbound platform event, reduced to what the bot reads of it.
pub enum BotEvent {
    /// The connection is up; the platform reported how many communities
    /// the bot serves.
    Ready { guild_count: usize },
    /// The connection's local cache is warm; the scheduler may start.
    CacheReady,
    /// A community appeared; only a confirmed new join counts.
    GuildCreate { is_new: Option<bool> },
    /// A community went away or became unavailable.
    GuildDelete,
    /// A user joined a community the bot serves.
    MemberAdded { user_id: u64, guild_id: u64 },
    /// A reaction landed on a message.
    ReactionAdd { event: ReactionEvent },
    /// Any event kind the bot does not handle.
    Other,
}

/// The outbound action one event maps to.
pub enum Action {
    /// Set the status text to show `count` communities.
    UpdateStatus { count: usize },
    /// Start the reminder scheduler loop.
    StartScheduler,
    /// Grant the user their stored color role again.
    GrantRole { user_id: u64, role_id: u64 },
    /// Run the curation flow for this reaction.
    CurateReaction { event: ReactionEvent },
    /// Nothing to do.
    NoAction,
}

/// The community count after one event.
pub open spec fn count_after(before: nat, event: BotEvent) -> nat {
    match event {
        BotEvent::Ready { guild_count } => guild_count as nat,
        BotEvent::GuildCreate { is_new } => if is_new == Some(true) {
            join_step(before)
        } else {
            before
        },
        BotEvent::GuildDelete => leave_step(before),
        _ => before,
    }
}

/// Dispatches one platform event: moves the community counter as the event
/// says and returns the single action the driver must perform.
pub fn handle_event(
    tracker: &mut CommunityTracker,
    colors: &ColorStore,
    event: BotEvent,
) -> (a: Action)
    requires
        colors.wf(),
        event matches BotEvent::GuildCreate { is_new: Some(true) } ==> old(tracker)@ < usize::MAX,
    ensures
        final(tracker)@ == count_after(old(tracker)@, event),
        event matches BotEvent::Ready { guild_count } ==> a == (Action::UpdateStatus {
            count: guild_count,
        }),
        event is CacheReady ==> a is StartScheduler,
        event matches BotEvent::GuildCreate { is_new } ==> if is_new == Some(true) {
            a matches Action::UpdateStatus { count } && count == final(tracker)@
        } else {
            a is NoAction
        },
        event is GuildDelete ==> (a matches Action::UpdateStatus { count } && count == final(tracker)@),
        event matches BotEvent::MemberAdded { user_id, guild_id } ==> {
            ||| (a matches Action::GrantRole { user_id: granted, role_id } && granted == user_id
                && exists|i: int|
                0 <= i < colors@.len() && (#[trigger] colors@[i]).uid == user_id
                    && colors@[i].guid == guild_id && colors@[i].role_id == role_id)
            ||| (a is NoAction && forall|i: int|
                0 <= i < colors@.len() ==> !((#[trigger] colors@[i]).uid == user_id
                    && colors@[i].guid == guild_id))
        },
        event matches BotEvent::ReactionAdd { event: re } ==> a == (Action::CurateReaction {
            event: re,
        }),
        event is Other ==> a is NoAction,
{
    match event {
        BotEvent::Ready { guild_count } => {
            tracker.connection_ready(guild_count);
            Action::UpdateStatus { count: guild_count }
        },
        BotEvent::CacheReady => Action::StartScheduler,
        BotEvent::GuildCreate { is_new } => {
            match is_new {
                Some(true) => {
                    tracker.community_joined();
                    Action::UpdateStatus { count: tracker.count() }
                },
                _ => Action::NoAction,
            }
        },
        BotEvent::GuildDelete => {
            tracker.community_left();
            Action::UpdateStatus { count: tracker.count() }
        },
        BotEvent::MemberAdded { user_id, guild_id } => {
            match colors.get_color(user_id, guild_id) {
                Some(row) => Action::GrantRole { user_id: user_id, role_id: row.role_id },
                None => Action::NoAction,
            }
        },
        BotEvent::ReactionAdd { event: re } => Action::CurateReaction { event: re },
        BotEvent::Other => Action::NoAction,
    }
}

} // verus!
