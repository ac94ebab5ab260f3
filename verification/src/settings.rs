//! Per-community curation settings and the store that holds them.
//!
//! One row per community, keyed by the community identifier; writes are
//! replace-on-conflict, so the store never holds two rows for one key.

use vstd::prelude::*;

verus! {

/// Configuration of the curation feature for one community.
///
/// A row may exist with curation disabled, and it may be enabled before a
/// channel is chosen; curation only ever fires once both are set. The star
/// threshold is at least one.
pub struct GuildSettings {
    pub guild_id: u64,
    pub starboard_enabled: bool,
    pub starboard_channel: Option<u64>,
    pub starboard_min: u8,
}

impl GuildSettings {
    /// A row is well formed when its threshold is at least one.
    pub open spec fn wf(self) -> bool {
        self.starboard_min >= 1
    }
}

impl Clone for GuildSettings {
    fn clone(&self) -> (r: Self)
        ensures
            r == *self,
    {
        GuildSettings {
            guild_id: self.guild_id,
            starboard_enabled: self.starboard_enabled,
            starboard_channel: self.starboard_channel,
            starboard_min: self.starboard_min,
        }
    }
}

/// How many rows of `rows` carry the key `g`.
pub open spec fn key_count(rows: Seq<GuildSettings>, g: u64) -> nat
    decreases rows.len(),
{
    if rows.len() == 0 {
        0
    } else {
        key_count(rows.drop_last(), g) + if rows.last().guild_id == g {
            1nat
        } else {
            0nat
        }
    }
}

/// The row of `rows` carrying the key `g` that was written last, if any.
pub open spec fn lookup(rows: Seq<GuildSettings>, g: u64) -> Option<GuildSettings>
    decreases rows.len(),
{
    if rows.len() == 0 {
        None
    } else if rows.last().guild_id == g {
        Some(rows.last())
    } else {
        lookup(rows.drop_last(), g)
    }
}

/// When no row carries the key, the lookup is empty and the count is zero.
pub proof fn lemma_lookup_absent(rows: Seq<GuildSettings>, g: u64)
    requires
        forall|i: int| 0 <= i < rows.len() ==> rows[i].guild_id != g,
    ensures
        lookup(rows, g) is None,
        key_count(rows, g) == 0,
    decreases rows.len(),
{
    if rows.len() > 0 {
        lemma_lookup_absent(rows.drop_last(), g);
    }
}

/// When exactly one row carries the key, the lookup returns it and the
/// count is one.
pub proof fn lemma_lookup_unique(rows: Seq<GuildSettings>, g: u64, i: int)
    requires
        0 <= i < rows.len(),
        rows[i].guild_id == g,
        forall|j: int| 0 <= j < rows.len() && j != i ==> rows[j].guild_id != g,
    ensures
        lookup(rows, g) == Some(rows[i]),
        key_count(rows, g) == 1,
    decreases rows.len(),
{
    if i == rows.len() - 1 {
        lemma_lookup_absent(rows.drop_last(), g);
    } else {
        lemma_lookup_unique(rows.drop_last(), g, i);
    }
}

/// A settings row in the signed form the row store keeps, where identifiers
/// are stored as signed integers.
pub struct TmpGuildSettings {
    pub guild_id: i64,
    pub starboard_enabled: bool,
    pub starboard_channel: Option<i64>,
    pub starboard_min: u8,
}

impl TmpGuildSettings {
    /// Reinterprets a settings row with its identifiers cast to the signed
    /// form; the cast truncates, so values above `i64::MAX` wrap.
    pub fn swap(other: &GuildSettings) -> (r: Self)
        ensures
            r.guild_id == other.guild_id as i64,
            r.starboard_enabled == other.starboard_enabled,
            r.starboard_channel matches Some(c) <==> other.starboard_channel is Some,
            other.starboard_channel matches Some(c) ==> r.starboard_channel == Some(c as i64),
            r.starboard_min == other.starboard_min,
    {
        TmpGuildSettings {
            guild_id: other.guild_id as i64,
            starboard_enabled: other.starboard_enabled,
            starboard_channel: match other.starboard_channel {
                Some(channel) => Some(channel as i64),
                None => None,
            },
            starboard_min: other.starboard_min,
        }
    }
}

/// Replacing the single row that carries a key rebinds that key and leaves
/// every other key untouched.
pub proof fn lemma_lookup_update(rows: Seq<GuildSettings>, i: int, x: GuildSettings, g: u64)
    requires
        0 <= i < rows.len(),
        rows[i].guild_id == x.guild_id,
        forall|j: int| 0 <= j < rows.len() && j != i ==> rows[j].guild_id != x.guild_id,
    ensures
        g == x.guild_id ==> lookup(rows.update(i, x), g) == Some(x),
        g != x.guild_id ==> lookup(rows.update(i, x), g) == lookup(rows, g),
        key_count(rows.update(i, x), g) == key_count(rows, g),
    decreases rows.len(),
{
    let updated = rows.update(i, x);
    if i == rows.len() - 1 {
        assert(updated.drop_last() =~= rows.drop_last());
        if g == x.guild_id {
            lemma_lookup_absent(rows.drop_last(), g);
            lemma_lookup_absent(updated.drop_last(), g);
        }
    } else {
        assert(updated.drop_last() =~= rows.drop_last().update(i, x));
        assert(updated.last() == rows.last());
        lemma_lookup_update(rows.drop_last(), i, x, g);
    }
}

/// The store of per-community settings rows: replace-on-conflict writes keep
/// at most one row per community identifier.
pub struct SettingsStore {
    rows: Vec<GuildSettings>,
}

impl View for SettingsStore {
    type V = Seq<GuildSettings>;

    closed spec fn view(&self) -> Seq<GuildSettings> {
        self.rows@
    }
}

impl SettingsStore {
    /// No two rows share a community identifier, and every row is well
    /// formed.
    pub open spec fn wf(self) -> bool {
        &&& forall|i: int, j: int|
            0 <= i < j < self@.len() ==> self@[i].guild_id != self@[j].guild_id
        &&& forall|i: int| 0 <= i < self@.len() ==> #[trigger] self@[i].wf()
    }

    /// Creates an empty store.
    pub fn new() -> (r: Self)
        ensures
            r@ =~= Seq::<GuildSettings>::empty(),
            r.wf(),
    {
        SettingsStore { rows: Vec::new() }
    }

    /// How many communities have a settings row.
    pub fn len(&self) -> (r: usize)
        ensures
            r == self@.len(),
    {
        self.rows.len()
    }

    /// The position of the row keyed by `guid`, if one exists.
    fn find_index(&self, guid: u64) -> (r: Option<usize>)
        ensures
            r matches Some(i) ==> i < self@.len() && self@[i as int].guild_id == guid,
            r is None ==> forall|j: int| 0 <= j < self@.len() ==> self@[j].guild_id != guid,
    {
        let n = self.rows.len();
        for i in 0..n
            invariant
                n == self@.len(),
                forall|j: int| 0 <= j < i ==> self@[j].guild_id != guid,
        {
            if self.rows[i].guild_id == guid {
                return Some(i);
            }
        }
        None
    }

    /// Returns the settings row for `guid`, or nothing when the community
    /// was never configured.
    pub fn get_guild_settings(&self, guid: u64) -> (r: Option<GuildSettings>)
        requires
            self.wf(),
        ensures
            r == lookup(self@, guid),
            r matches Some(s) ==> s.guild_id == guid && s.wf(),
    {
        match self.find_index(guid) {
            Some(i) => {
                proof {
                    lemma_lookup_unique(self@, guid, i as int);
                }
                Some(self.rows[i].clone())
            },
            None => {
                proof {
                    lemma_lookup_absent(self@, guid);
                }
                None
            },
        }
    }

    /// Writes a settings row, replacing any earlier row for the same
    /// community: afterwards exactly one row carries that key and it is the
    /// row just written, while every other community keeps its settings.
    pub fn update_guild_settings(&mut self, new: GuildSettings)
        requires
            old(self).wf(),
            new.wf(),
        ensures
            final(self).wf(),
            lookup(final(self)@, new.guild_id) == Some(new),
            key_count(final(self)@, new.guild_id) == 1,
            forall|g: u64| g != new.guild_id ==> lookup(final(self)@, g) == lookup(old(self)@, g),
            forall|g: u64|
                g != new.guild_id ==> key_count(final(self)@, g) == key_count(old(self)@, g),
    {
        let ghost rows0 = self@;
        match self.find_index(new.guild_id) {
            Some(i) => {
                let ghost key = new.guild_id;
                self.rows.set(i, new);
                proof {
                    assert forall|g: u64| true implies {
                        &&& (g == key ==> lookup(self@, g) == Some(new))
                        &&& (g != key ==> lookup(self@, g) == lookup(rows0, g))
                        &&& key_count(self@, g) == key_count(rows0, g)
                    } by {
                        lemma_lookup_update(rows0, i as int, new, g);
                    }
                    lemma_lookup_unique(rows0, key, i as int);
                }
            },
            None => {
                self.rows.push(new);
                proof {
                    assert(self@.drop_last() =~= rows0);
                    lemma_lookup_absent(rows0, new.guild_id);
                }
            },
        }
    }

    /// Sets the enabled flag of the existing row for `guid`; a community
    /// without a row is left without one.
    pub fn toggle_starboard(&mut self, guid: u64, enabled: bool)
        requires
            old(self).wf(),
        ensures
            final(self).wf(),
            lookup(old(self)@, guid) matches Some(s) ==> lookup(final(self)@, guid) == Some(
                GuildSettings { starboard_enabled: enabled, ..s },
            ),
            lookup(old(self)@, guid) is None ==> final(self)@ == old(self)@,
            forall|g: u64| g != guid ==> lookup(final(self)@, g) == lookup(old(self)@, g),
            forall|g: u64| key_count(final(self)@, g) == key_count(old(self)@, g),
    {
        let ghost rows0 = self@;
        match self.find_index(guid) {
            Some(i) => {
                let row = self.rows[i].clone();
                let updated = GuildSettings { starboard_enabled: enabled, ..row };
                self.rows.set(i, updated);
                proof {
                    assert(rows0[i as int].wf());
                    lemma_lookup_unique(rows0, guid, i as int);
                    assert forall|g: u64| true implies {
                        &&& (g == guid ==> lookup(self@, g) == Some(updated))
                        &&& (g != guid ==> lookup(self@, g) == lookup(rows0, g))
                        &&& key_count(self@, g) == key_count(rows0, g)
                    } by {
                        lemma_lookup_update(rows0, i as int, updated, g);
                    }
                }
            },
            None => {
                proof {
                    lemma_lookup_absent(rows0, guid);
                }
            },
        }
    }

    /// Sets the star threshold of the existing row for `guid` and reports
    /// whether such a row existed; a community without a row is left without
    /// one and reported as missing.
    pub fn set_required_stars(&mut self, guid: u64, new_stars: u8) -> (r: bool)
        requires
            old(self).wf(),
            new_stars >= 1,
        ensures
            final(self).wf(),
            r == (lookup(old(self)@, guid) is Some),
            lookup(old(self)@, guid) matches Some(s) ==> lookup(final(self)@, guid) == Some(
                GuildSettings { starboard_min: new_stars, ..s },
            ),
            lookup(old(self)@, guid) is None ==> final(self)@ == old(self)@,
            forall|g: u64| g != guid ==> lookup(final(self)@, g) == lookup(old(self)@, g),
            forall|g: u64| key_count(final(self)@, g) == key_count(old(self)@, g),
    {
        let ghost rows0 = self@;
        match self.find_index(guid) {
            Some(i) => {
                let row = self.rows[i].clone();
                let updated = GuildSettings { starboard_min: new_stars, ..row };
                self.rows.set(i, updated);
                proof {
                    lemma_lookup_unique(rows0, guid, i as int);
                    assert forall|g: u64| true implies {
                        &&& (g == guid ==> lookup(self@, g) == Some(updated))
                        &&& (g != guid ==> lookup(self@, g) == lookup(rows0, g))
                        &&& key_count(self@, g) == key_count(rows0, g)
                    } by {
                        lemma_lookup_update(rows0, i as int, updated, g);
                    }
                }
                true
            },
            None => {
                proof {
                    lemma_lookup_absent(rows0, guid);
                }
                false
            },
        }
    }
}

/// The default star threshold of a newly configured community.
pub const DEFAULT_MIN_STARS: u8 = 3;

/// The settings row a configuration command produces. A community that
/// already has a row keeps its enabled flag and gets the new channel and
/// threshold; a first configuration creates the row with the requested
/// flag, defaulting to disabled. An omitted threshold defaults to three.
pub fn setup_settings(
    existing: Option<GuildSettings>,
    guild_id: u64,
    channel_id: u64,
    enabled: Option<bool>,
    min_stars: Option<u8>,
) -> (r: GuildSettings)
    requires
        min_stars matches Some(m) ==> m >= 1,
        existing matches Some(s) ==> s.wf(),
    ensures
        r.wf(),
        r.starboard_channel == Some(channel_id),
        r.starboard_min == match min_stars {
            Some(m) => m,
            None => DEFAULT_MIN_STARS,
        },
        existing matches Some(s) ==> r.guild_id == s.guild_id && r.starboard_enabled
            == s.starboard_enabled,
        existing is None ==> r.guild_id == guild_id && r.starboard_enabled == match enabled {
            Some(e) => e,
            None => false,
        },
{
    let enabled = match enabled {
        Some(opt) => opt,
        None => false,
    };
    let min_stars = match min_stars {
        Some(opt) => opt,
        None => DEFAULT_MIN_STARS,
    };
    match existing {
        Some(settings) => GuildSettings {
            starboard_channel: Some(channel_id),
            starboard_min: min_stars,
            ..settings
        },
        None => GuildSettings {
            guild_id: guild_id,
            starboard_enabled: enabled,
            starboard_channel: Some(channel_id),
            starboard_min: min_stars,
        },
    }
}

/// Configuring curation twice for one community leaves exactly one settings
/// row for it, and that row is the one configured last; no other community's
/// settings move.
pub proof fn lemma_upsert_latest_wins(
    store0: SettingsStore,
    store1: SettingsStore,
    store2: SettingsStore,
    first: GuildSettings,
    second: GuildSettings,
)
    requires
        store0.wf(),
        first.wf(),
        second.wf(),
        first.guild_id == second.guild_id,
        upsert_step(store0, store1, first),
        upsert_step(store1, store2, second),
    ensures
        lookup(store2@, second.guild_id) == Some(second),
        key_count(store2@, second.guild_id) == 1,
        forall|g: u64| g != second.guild_id ==> lookup(store2@, g) == lookup(store0@, g),
{
}

/// The relation `update_guild_settings` establishes between the store before
/// and after one write of `row`.
pub open spec fn upsert_step(before: SettingsStore, after: SettingsStore, row: GuildSettings) -> bool {
    &&& after.wf()
    &&& lookup(after@, row.guild_id) == Some(row)
    &&& key_count(after@, row.guild_id) == 1
    &&& forall|g: u64| g != row.guild_id ==> lookup(after@, g) == lookup(before@, g)
    &&& forall|g: u64| g != row.guild_id ==> key_count(after@, g) == key_count(before@, g)
}

} // verus!
