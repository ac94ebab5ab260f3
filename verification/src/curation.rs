//! The curation engine: decides, from one reaction event, whether a message
//! is promoted to the curated channel.
//!
//! The decision reads the settings row of the community and the dedup
//! ledger, and compares the transport-reported star tally against the
//! community's threshold. Every early exit is a normal outcome with a
//! named reason, not an error.

use vstd::prelude::*;
use crate::settings::GuildSettings;
use crate::settings::SettingsStore;
use crate::settings::lookup;
use crate::starred::StarredMessages;

verus! {

/// The reaction glyph that feeds curation.
pub const STAR_EMOJI: char = '\u{2b50}';

/// A reaction-add event as the transport reports it.
pub struct ReactionEvent {
    /// The community the reaction happened in; absent for direct messages.
    pub guild_id: Option<u64>,
    pub channel_id: u64,
    pub message_id: u64,
    pub emoji: char,
}

/// One reaction tally on a message: an emoji and how many reacted with it.
pub struct ReactionTally {
    pub emoji: char,
    pub count: u64,
}

/// The tally of the first star entry of `s`, or zero when no one starred.
pub open spec fn spec_star_count(s: Seq<ReactionTally>) -> u64
    decreases s.len(),
{
    if s.len() == 0 {
        0
    } else if s[0].emoji == STAR_EMOJI {
        s[0].count
    } else {
        spec_star_count(s.skip(1))
    }
}

/// Why a reaction event did not promote its message.
pub enum SkipReason {
    /// The reaction happened outside any community.
    DirectMessage,
    /// The reaction is not the curation glyph.
    NotStarEmoji,
    /// The message was promoted before.
    AlreadyPromoted,
    /// The community has no settings row, curation is disabled, or no
    /// curated channel is set.
    NotConfigured,
    /// The star tally has not reached the community's threshold.
    BelowThreshold,
    /// The reaction happened inside the curated channel itself.
    CurationChannel,
}

/// What the engine decided for one reaction event.
pub enum Decision {
    /// Post the message to the curated channel.
    Promote { channel_id: u64 },
    /// Do nothing, for the given reason.
    Skip { reason: SkipReason },
}

/// The curation decision: a message is promoted exactly when the reaction
/// is a star inside a community, the message was not promoted before, the
/// community has curation enabled with a curated channel set, the fresh
/// star tally has reached the threshold, and the reaction did not happen
/// inside the curated channel itself. Earlier reasons win.
pub open spec fn spec_decide(
    promoted: Seq<u64>,
    settings: Option<GuildSettings>,
    ev: ReactionEvent,
    star_count: u64,
) -> Decision {
    if ev.guild_id is None {
        Decision::Skip { reason: SkipReason::DirectMessage }
    } else if ev.emoji != STAR_EMOJI {
        Decision::Skip { reason: SkipReason::NotStarEmoji }
    } else if promoted.contains(ev.message_id) {
        Decision::Skip { reason: SkipReason::AlreadyPromoted }
    } else {
        match settings {
            None => Decision::Skip { reason: SkipReason::NotConfigured },
            Some(s) => {
                if !s.starboard_enabled {
                    Decision::Skip { reason: SkipReason::NotConfigured }
                } else {
                    match s.starboard_channel {
                        None => Decision::Skip { reason: SkipReason::NotConfigured },
                        Some(ch) => {
                            if star_count < s.starboard_min {
                                Decision::Skip { reason: SkipReason::BelowThreshold }
                            } else if ch == ev.channel_id {
                                Decision::Skip { reason: SkipReason::CurationChannel }
                            } else {
                                Decision::Promote { channel_id: ch }
                            }
                        },
                    }
                }
            },
        }
    }
}

/// The settings row the engine consults for an event: the row of the
/// community the event came from, if any.
pub open spec fn settings_for(store: SettingsStore, ev: ReactionEvent) -> Option<GuildSettings> {
    match ev.guild_id {
        None => None,
        Some(g) => lookup(store@, g),
    }
}

/// The first star entry decides the tally a scan returns.
proof fn lemma_star_count_first(s: Seq<ReactionTally>, i: int)
    requires
        0 <= i < s.len(),
        s[i].emoji == STAR_EMOJI,
        forall|j: int| 0 <= j < i ==> s[j].emoji != STAR_EMOJI,
    ensures
        spec_star_count(s) == s[i].count,
    decreases i,
{
    if i > 0 {
        lemma_star_count_first(s.skip(1), i - 1);
    }
}

/// Without a star entry the tally is zero.
proof fn lemma_star_count_absent(s: Seq<ReactionTally>)
    requires
        forall|j: int| 0 <= j < s.len() ==> s[j].emoji != STAR_EMOJI,
    ensures
        spec_star_count(s) == 0,
    decreases s.len(),
{
    if s.len() > 0 {
        lemma_star_count_absent(s.skip(1));
    }
}

/// Reads the star tally off the reactions the transport reported: the
/// count of the first star entry, or zero when no one starred.
pub fn star_reaction_count(reactions: &Vec<ReactionTally>) -> (r: u64)
    ensures
        r == spec_star_count(reactions@),
{
    let n = reactions.len();
    for i in 0..n
        invariant
            n == reactions@.len(),
            forall|j: int| 0 <= j < i ==> reactions@[j].emoji != STAR_EMOJI,
    {
        if reactions[i].emoji == STAR_EMOJI {
            proof {
                lemma_star_count_first(reactions@, i as int);
            }
            return reactions[i].count;
        }
    }
    proof {
        lemma_star_count_absent(reactions@);
    }
    0
}

/// Decides what one reaction event does, evaluated fresh against the dedup
/// ledger, the community's settings row, and the reported reaction tallies.
pub fn evaluate_reaction(
    promoted: &StarredMessages,
    settings: &SettingsStore,
    ev: &ReactionEvent,
    reactions: &Vec<ReactionTally>,
) -> (d: Decision)
    requires
        settings.wf(),
    ensures
        d == spec_decide(promoted@, settings_for(*settings, *ev), *ev, spec_star_count(reactions@)),
{
    let guild = match ev.guild_id {
        None => {
            return Decision::Skip { reason: SkipReason::DirectMessage };
        },
        Some(g) => g,
    };
    if ev.emoji != STAR_EMOJI {
        return Decision::Skip { reason: SkipReason::NotStarEmoji };
    }
    if promoted.message_exists(ev.message_id) {
        return Decision::Skip { reason: SkipReason::AlreadyPromoted };
    }
    let s = match settings.get_guild_settings(guild) {
        None => {
            return Decision::Skip { reason: SkipReason::NotConfigured };
        },
        Some(s) => s,
    };
    if !s.starboard_enabled {
        return Decision::Skip { reason: SkipReason::NotConfigured };
    }
    let ch = match s.starboard_channel {
        None => {
            return Decision::Skip { reason: SkipReason::NotConfigured };
        },
        Some(ch) => ch,
    };
    let count = star_reaction_count(reactions);
    if count < s.starboard_min as u64 {
        return Decision::Skip { reason: SkipReason::BelowThreshold };
    }
    if ch == ev.channel_id {
        return Decision::Skip { reason: SkipReason::CurationChannel };
    }
    Decision::Promote { channel_id: ch }
}

/// One reaction event as a sequential run processes it: the settings row
/// and star tally the handler saw when it ran, and whether the outbound
/// post to the curated channel succeeded.
pub struct ProcessedEvent {
    pub event: ReactionEvent,
    pub settings: Option<GuildSettings>,
    pub star_count: u64,
    pub post_ok: bool,
}

/// Whether a step promotes its message: the decision is to promote and the
/// outbound post went through.
pub open spec fn step_promotes(ledger: Seq<u64>, p: ProcessedEvent) -> bool {
    &&& spec_decide(ledger, p.settings, p.event, p.star_count) is Promote
    &&& p.post_ok
}

/// The dedup ledger after one sequential step: a successful promotion
/// records the message, anything else leaves the ledger alone.
pub open spec fn step_ledger(ledger: Seq<u64>, p: ProcessedEvent) -> Seq<u64> {
    if step_promotes(ledger, p) {
        ledger.push(p.event.message_id)
    } else {
        ledger
    }
}

/// The dedup ledger after a sequential run of events.
pub open spec fn run_ledger(ledger: Seq<u64>, evs: Seq<ProcessedEvent>) -> Seq<u64>
    decreases evs.len(),
{
    if evs.len() == 0 {
        ledger
    } else {
        step_ledger(run_ledger(ledger, evs.drop_last()), evs.last())
    }
}

/// How many times a run promotes the message `m`.
pub open spec fn promotions_of(ledger: Seq<u64>, evs: Seq<ProcessedEvent>, m: u64) -> nat
    decreases evs.len(),
{
    if evs.len() == 0 {
        0
    } else {
        promotions_of(ledger, evs.drop_last(), m) + if evs.last().event.message_id == m
            && step_promotes(run_ledger(ledger, evs.drop_last()), evs.last()) {
            1nat
        } else {
            0nat
        }
    }
}

/// Ledger membership only grows along a run.
pub proof fn lemma_run_ledger_monotone(ledger: Seq<u64>, evs: Seq<ProcessedEvent>, m: u64)
    requires
        ledger.contains(m),
    ensures
        run_ledger(ledger, evs).contains(m),
    decreases evs.len(),
{
    if evs.len() > 0 {
        lemma_run_ledger_monotone(ledger, evs.drop_last(), m);
        let pre = run_ledger(ledger, evs.drop_last());
        if step_promotes(pre, evs.last()) {
            let i = choose|i: int| 0 <= i < pre.len() && pre[i] == m;
            assert(step_ledger(pre, evs.last())[i] == m);
        }
    }
}

/// Once a run has promoted `m`, the ledger it ends with records `m`.
pub proof fn lemma_promoted_in_ledger(ledger: Seq<u64>, evs: Seq<ProcessedEvent>, m: u64)
    requires
        promotions_of(ledger, evs, m) >= 1,
    ensures
        run_ledger(ledger, evs).contains(m),
    decreases evs.len(),
{
    let pre = run_ledger(ledger, evs.drop_last());
    if evs.last().event.message_id == m && step_promotes(pre, evs.last()) {
        assert(step_ledger(pre, evs.last()).last() == m);
    } else {
        lemma_promoted_in_ledger(ledger, evs.drop_last(), m);
        if step_promotes(pre, evs.last()) {
            let i = choose|i: int| 0 <= i < pre.len() && pre[i] == m;
            assert(step_ledger(pre, evs.last())[i] == m);
        }
    }
}

/// Under sequential delivery no message is promoted more than once: however
/// the events of a run are interleaved with other messages, the run
/// promotes `m` at most one time.
pub proof fn lemma_promote_at_most_once(ledger: Seq<u64>, evs: Seq<ProcessedEvent>, m: u64)
    ensures
        promotions_of(ledger, evs, m) <= 1,
    decreases evs.len(),
{
    if evs.len() > 0 {
        lemma_promote_at_most_once(ledger, evs.drop_last(), m);
        let pre = run_ledger(ledger, evs.drop_last());
        if evs.last().event.message_id == m && step_promotes(pre, evs.last()) {
            // the decision to promote shows m was not yet recorded, so the
            // earlier part of the run cannot have promoted it
            assert(!pre.contains(m));
            if promotions_of(ledger, evs.drop_last(), m) >= 1 {
                lemma_promoted_in_ledger(ledger, evs.drop_last(), m);
                assert(false);
            }
        }
    }
}

/// Re-delivering a qualifying reaction for a message already in the dedup
/// ledger does nothing: the decision is to skip as already promoted, and a
/// sequential step leaves the ledger word for word as it was.
pub proof fn lemma_already_promoted_is_idempotent(ledger: Seq<u64>, p: ProcessedEvent)
    requires
        ledger.contains(p.event.message_id),
    ensures
        p.event.guild_id is Some && p.event.emoji == STAR_EMOJI ==> spec_decide(
            ledger,
            p.settings,
            p.event,
            p.star_count,
        ) == (Decision::Skip { reason: SkipReason::AlreadyPromoted }),
        !(spec_decide(ledger, p.settings, p.event, p.star_count) is Promote),
        step_ledger(ledger, p) == ledger,
{
}

/// The threshold boundary: with a threshold of three stars, a tally of two
/// never promotes, and a tally of three promotes exactly the event that
/// reported it, in a context where nothing else stands in the way.
pub proof fn lemma_threshold_boundary(
    ledger: Seq<u64>,
    s: GuildSettings,
    ev: ReactionEvent,
    star_count: u64,
)
    requires
        s.starboard_min == 3,
        ev.guild_id is Some,
        ev.emoji == STAR_EMOJI,
        !ledger.contains(ev.message_id),
        s.starboard_enabled,
        s.starboard_channel matches Some(ch) && ch != ev.channel_id,
    ensures
        star_count == 2 ==> spec_decide(ledger, Some(s), ev, star_count) == (Decision::Skip {
            reason: SkipReason::BelowThreshold,
        }),
        star_count == 3 ==> spec_decide(ledger, Some(s), ev, star_count) matches Decision::Promote {
            channel_id: _,
        },
{
}

/// A qualifying reaction inside the configured curation channel never
/// promotes, whatever the tally says.
pub proof fn lemma_curation_channel_excluded(
    ledger: Seq<u64>,
    s: GuildSettings,
    ev: ReactionEvent,
    star_count: u64,
)
    requires
        s.starboard_channel == Some(ev.channel_id),
    ensures
        !(spec_decide(ledger, Some(s), ev, star_count) is Promote),
{
}

/// Applies the outcome of one reaction event to the dedup ledger: a
/// promotion whose outbound post went through is recorded, anything else
/// leaves the ledger word for word as it was. When the decision was
/// evaluated fresh against this ledger, this is exactly one sequential
/// step of `step_ledger`.
pub fn record_reaction_outcome(
    promoted: &mut StarredMessages,
    ev: &ReactionEvent,
    d: &Decision,
    post_ok: bool,
)
    requires
        old(promoted).wf(),
    ensures
        final(promoted).wf(),
        final(promoted)@ == if *d is Promote && post_ok {
            if old(promoted)@.contains(ev.message_id) {
                old(promoted)@
            } else {
                old(promoted)@.push(ev.message_id)
            }
        } else {
            old(promoted)@
        },
        forall|stg: Option<GuildSettings>, count: u64|
            *d == spec_decide(old(promoted)@, stg, *ev, count) ==> final(promoted)@ == step_ledger(
                old(promoted)@,
                ProcessedEvent { event: *ev, settings: stg, star_count: count, post_ok },
            ),
{
    match d {
        Decision::Promote { channel_id: _ } => {
            if post_ok {
                promoted.insert_message(ev.message_id);
            }
        },
        Decision::Skip { reason: _ } => {},
    }
}

/// The author's display name: the community nickname when one is set, the
/// account name otherwise.
pub fn display_name(nick: Option<String>, username: String) -> (r: String)
    ensures
        r == match nick {
            Some(n) => n,
            None => username,
        },
{
    match nick {
        Some(n) => n,
        None => username,
    }
}

} // verus!
