use cyberbun::colors::ColorStore;
use cyberbun::community::CommunityTracker;
use cyberbun::curation::{ReactionEvent, STAR_EMOJI};
use cyberbun::events::{handle_event, Action, BotEvent};

#[test]
fn join_join_leave_lands_one_above_the_start() {
    let mut tracker = CommunityTracker::new();
    let colors = ColorStore::new();

    handle_event(&mut tracker, &colors, BotEvent::Ready { guild_count: 5 });
    assert_eq!(tracker.count(), 5);

    handle_event(&mut tracker, &colors, BotEvent::GuildCreate { is_new: Some(true) });
    handle_event(&mut tracker, &colors, BotEvent::GuildCreate { is_new: Some(true) });
    handle_event(&mut tracker, &colors, BotEvent::GuildDelete);
    assert_eq!(tracker.count(), 6);
}

#[test]
fn counter_never_goes_below_zero() {
    let mut tracker = CommunityTracker::new();
    let colors = ColorStore::new();
    let a = handle_event(&mut tracker, &colors, BotEvent::GuildDelete);
    assert_eq!(tracker.count(), 0);
    assert!(matches!(a, Action::UpdateStatus { count: 0 }));
}

#[test]
fn unconfirmed_guild_create_does_not_count() {
    let mut tracker = CommunityTracker::new();
    let colors = ColorStore::new();
    let a = handle_event(&mut tracker, &colors, BotEvent::GuildCreate { is_new: Some(false) });
    assert!(matches!(a, Action::NoAction));
    let a = handle_event(&mut tracker, &colors, BotEvent::GuildCreate { is_new: None });
    assert!(matches!(a, Action::NoAction));
    assert_eq!(tracker.count(), 0);
}

#[test]
fn cache_ready_starts_the_scheduler() {
    let mut tracker = CommunityTracker::new();
    let colors = ColorStore::new();
    let a = handle_event(&mut tracker, &colors, BotEvent::CacheReady);
    assert!(matches!(a, Action::StartScheduler));
}

#[test]
fn known_member_gets_their_color_role_back() {
    let mut tracker = CommunityTracker::new();
    let mut colors = ColorStore::new();
    colors.create_color_role(900, 7, 1, 0xff0000, String::from("red"));

    let a = handle_event(
        &mut tracker,
        &colors,
        BotEvent::MemberAdded { user_id: 7, guild_id: 1 },
    );
    assert!(matches!(a, Action::GrantRole { user_id: 7, role_id: 900 }));

    let a = handle_event(
        &mut tracker,
        &colors,
        BotEvent::MemberAdded { user_id: 8, guild_id: 1 },
    );
    assert!(matches!(a, Action::NoAction));
}

#[test]
fn reactions_are_handed_to_the_curation_flow() {
    let mut tracker = CommunityTracker::new();
    let colors = ColorStore::new();
    let ev = ReactionEvent {
        guild_id: Some(1),
        channel_id: 2,
        message_id: 3,
        emoji: STAR_EMOJI,
    };
    let a = handle_event(&mut tracker, &colors, BotEvent::ReactionAdd { event: ev });
    match a {
        Action::CurateReaction { event } => {
            assert_eq!(event.guild_id, Some(1));
            assert_eq!(event.channel_id, 2);
            assert_eq!(event.message_id, 3);
            assert_eq!(event.emoji, STAR_EMOJI);
        },
        _ => panic!("a reaction must go to the curation flow"),
    }
}

#[test]
fn unhandled_events_are_a_no_op() {
    let mut tracker = CommunityTracker::new();
    let colors = ColorStore::new();
    let a = handle_event(&mut tracker, &colors, BotEvent::Other);
    assert!(matches!(a, Action::NoAction));
    assert_eq!(tracker.count(), 0);
}
