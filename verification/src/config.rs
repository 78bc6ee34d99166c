//! The per-guild notification-channel configuration: a keyed store of
//! `GuildNotfChannel` rows, with upsert-on-conflict writes and a resolution
//! step that degrades to a default channel name when a guild has no row.

use vstd::prelude::*;
use vstd::pervasive::VecAdditionalExecFns;
use crate::models::GuildNotfChannel;

verus! {

/// The mathematical content of a sequence of configuration rows: the mapping
/// from guild identifier to configured channel name, later rows winning.
spec fn rows_to_map(rows: Seq<GuildNotfChannel>) -> Map<i64, Seq<char>>
    decreases rows.len(),
{
    if rows.len() == 0 {
        Map::empty()
    } else {
        rows_to_map(rows.drop_last()).insert(rows.last().guild_id, rows.last().channel_name@)
    }
}

/// A guild identifier appears in the mapping exactly when some row carries it.
proof fn lemma_rows_to_map_domain(rows: Seq<GuildNotfChannel>, guild_id: i64)
    ensures
        rows_to_map(rows).contains_key(guild_id) <==> exists|i: int|
            0 <= i < rows.len() && rows[i].guild_id == guild_id,
    decreases rows.len(),
{
    if rows.len() > 0 {
        lemma_rows_to_map_domain(rows.drop_last(), guild_id);
        if rows.last().guild_id != guild_id {
            assert(rows_to_map(rows).contains_key(guild_id) <==> rows_to_map(
                rows.drop_last(),
            ).contains_key(guild_id));
            if exists|i: int| 0 <= i < rows.len() && rows[i].guild_id == guild_id {
                let i = choose|i: int| 0 <= i < rows.len() && rows[i].guild_id == guild_id;
                assert(rows.drop_last()[i] == rows[i]);
            }
        } else {
            assert(rows[rows.len() - 1].guild_id == guild_id);
        }
    }
}

/// A row that no later row shadows gives the mapping's value at its key.
proof fn lemma_rows_to_map_at(rows: Seq<GuildNotfChannel>, i: int)
    requires
        0 <= i < rows.len(),
        forall|j: int| i < j < rows.len() ==> rows[j].guild_id != rows[i].guild_id,
    ensures
        rows_to_map(rows).contains_key(rows[i].guild_id),
        rows_to_map(rows)[rows[i].guild_id] == rows[i].channel_name@,
    decreases rows.len(),
{
    if i == rows.len() - 1 {
    } else {
        assert(rows.drop_last()[i] == rows[i]);
        lemma_rows_to_map_at(rows.drop_last(), i);
    }
}

/// Replacing the channel name of the row that holds a key updates the mapping
/// at that key and nothing else, as long as no later row shadows the key.
proof fn lemma_rows_to_map_update(
    rows: Seq<GuildNotfChannel>,
    i: int,
    row: GuildNotfChannel,
)
    requires
        0 <= i < rows.len(),
        row.guild_id == rows[i].guild_id,
        forall|j: int| i < j < rows.len() ==> rows[j].guild_id != rows[i].guild_id,
    ensures
        rows_to_map(rows.update(i, row)) == rows_to_map(rows).insert(
            row.guild_id,
            row.channel_name@,
        ),
    decreases rows.len(),
{
    let updated = rows.update(i, row);
    if i == rows.len() - 1 {
        assert(updated.drop_last() =~= rows.drop_last());
        assert(rows_to_map(updated) =~= rows_to_map(rows).insert(
            row.guild_id,
            row.channel_name@,
        ));
    } else {
        assert(updated.drop_last() =~= rows.drop_last().update(i, row));
        assert(rows.drop_last()[i] == rows[i]);
        lemma_rows_to_map_update(rows.drop_last(), i, row);
        assert(updated.last() == rows.last());
        assert(rows_to_map(updated) =~= rows_to_map(rows).insert(
            row.guild_id,
            row.channel_name@,
        ));
    }
}

/// The configuration store: one row per guild, keyed by `guild_id`.  Rows are
/// created on the first configuration command for a guild and updated in
/// place afterwards; none is ever deleted here.
pub struct ConfigStore {
    rows: Vec<GuildNotfChannel>,
}

impl ConfigStore {
    /// No two rows carry the same guild: `guild_id` is the store's unique key.
    pub closed spec fn wf(&self) -> bool {
        forall|i: int, j: int|
            0 <= i < j < self.rows@.len() ==> self.rows@[i].guild_id != self.rows@[j].guild_id
    }

    /// An empty store: no guild has a configured channel yet.
    pub fn new() -> (store: ConfigStore)
        ensures
            store.wf(),
            store@ == Map::<i64, Seq<char>>::empty(),
    {
        ConfigStore { rows: Vec::new() }
    }

    /// The stored channel name of the given guild, or `None` when the guild
    /// has no row.
    pub fn lookup(&self, guild_id: i64) -> (result: Option<String>)
        requires
            self.wf(),
        ensures
            match result {
                Some(name) => self@.contains_key(guild_id) && name@ == self@[guild_id],
                None => !self@.contains_key(guild_id),
            },
    {
        let ghost rows = self.rows@;
        let mut i: usize = 0;
        while i < self.rows.len()
            invariant
                self.wf(),
                rows == self.rows@,
                i <= rows.len(),
                forall|j: int| 0 <= j < i ==> rows[j].guild_id != guild_id,
            decreases rows.len() - i,
        {
            if self.rows[i].guild_id == guild_id {
                proof {
                    lemma_rows_to_map_at(rows, i as int);
                }
                return Some(self.rows[i].channel_name.clone());
            }
            i += 1;
        }
        proof {
            lemma_rows_to_map_domain(rows, guild_id);
        }
        None
    }

    /// Inserts or updates the row of the given guild: after the call the
    /// guild's configured channel is exactly `channel_name`, and no other
    /// guild's configuration changes.  The write always succeeds.
    pub fn upsert(&mut self, guild_id: i64, channel_name: String)
        requires
            old(self).wf(),
        ensures
            final(self).wf(),
            final(self)@ == old(self)@.insert(guild_id, channel_name@),
    {
        let ghost rows = self.rows@;
        let mut i: usize = 0;
        while i < self.rows.len()
            invariant
                self.wf(),
                rows == self.rows@,
                rows == old(self).rows@,
                i <= rows.len(),
                forall|j: int| 0 <= j < i ==> rows[j].guild_id != guild_id,
            decreases rows.len() - i,
        {
            if self.rows[i].guild_id == guild_id {
                let row = GuildNotfChannel { guild_id, channel_name };
                proof {
                    assert(forall|j: int|
                        (i as int) < j < rows.len() ==> rows[j].guild_id != rows[i as int].guild_id);
                    lemma_rows_to_map_update(rows, i as int, row);
                }
                self.rows.set(i, row);
                proof {
                    assert(self.rows@ == rows.update(i as int, row));
                    assert(self@ == rows_to_map(rows).insert(guild_id, channel_name@));
                }
                return ;
            }
            i += 1;
        }
        self.rows.push(GuildNotfChannel { guild_id, channel_name });
        proof {
            assert(self.rows@.drop_last() =~= rows);
        }
    }

    /// Resolves the notification-channel name for a guild: the stored name on
    /// a hit, the caller's default on a miss.  Resolution always yields a
    /// usable name.
    pub fn resolve(&self, guild_id: i64, default_name: &String) -> (name: String)
        requires
            self.wf(),
        ensures
            name@ == spec_resolve(self@, guild_id, default_name@),
    {
        match self.lookup(guild_id) {
            Some(name) => name,
            None => default_name.clone(),
        }
    }
}

impl View for ConfigStore {
    type V = Map<i64, Seq<char>>;

    closed spec fn view(&self) -> Map<i64, Seq<char>> {
        rows_to_map(self.rows@)
    }
}

/// What configuration resolution returns over a store image: the stored name
/// when the guild has one, the default otherwise.
pub open spec fn spec_resolve(
    stored: Map<i64, Seq<char>>,
    guild_id: i64,
    default_name: Seq<char>,
) -> Seq<char> {
    if stored.contains_key(guild_id) {
        stored[guild_id]
    } else {
        default_name
    }
}

/// The channel name a read of the store resolves to: the stored name when
/// the read returned one, the default otherwise.
pub open spec fn spec_resolve_stored(
    stored_name: Option<String>,
    default_name: Seq<char>,
) -> Seq<char> {
    match stored_name {
        Some(name) => name@,
        None => default_name,
    }
}

/// Resolution over the outcome of a store read: a read failure or a missing
/// row arrives as `None` and degrades to the default name rather than
/// propagating an error, so resolution always yields a usable name.
pub fn resolve_target_channel_name(stored: &Option<String>, default_name: &String) -> (name:
    String)
    ensures
        name@ == spec_resolve_stored(*stored, default_name@),
{
    match stored {
        Some(stored_name) => stored_name.clone(),
        None => default_name.clone(),
    }
}

/// The process-wide default notification-channel name, used for every guild
/// without a stored row when no other default is configured.
pub fn default_notf_channel_name() -> (name: String)
    ensures
        name@ == "vc-notf"@,
{
    String::from_str("vc-notf")
}

/// Writing the same channel name for the same guild twice is idempotent: the
/// second upsert leaves the store image unchanged (and, like every upsert,
/// it succeeds).
pub proof fn lemma_upsert_idempotent(
    stored: Map<i64, Seq<char>>,
    guild_id: i64,
    channel_name: Seq<char>,
)
    ensures
        stored.insert(guild_id, channel_name).insert(guild_id, channel_name) == stored.insert(
            guild_id,
            channel_name,
        ),
{
    assert(stored.insert(guild_id, channel_name).insert(guild_id, channel_name) =~= stored.insert(
        guild_id,
        channel_name,
    ));
}

/// A guild with no stored row resolves to the default name; after an upsert
/// for that guild, resolution returns the newly stored name instead.
pub proof fn lemma_resolve_fallback_and_upsert(
    stored: Map<i64, Seq<char>>,
    guild_id: i64,
    channel_name: Seq<char>,
    default_name: Seq<char>,
)
    ensures
        !stored.contains_key(guild_id) ==> spec_resolve(stored, guild_id, default_name)
            == default_name,
        spec_resolve(stored.insert(guild_id, channel_name), guild_id, default_name)
            == channel_name,
{
}

} // verus!
