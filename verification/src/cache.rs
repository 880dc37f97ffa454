//! The guild ownership index: a read view over the cached guilds that
//! answers which guild owns a given emoji.

use vstd::prelude::*;
use crate::emoji::Emoji;
use crate::id::EmojiId;
use crate::id::GuildId;

verus! {

/// One cached guild, reduced to what ownership resolution reads: its id and
/// the membership set of emoji ids it owns.
#[derive(Clone, Debug, PartialEq, Eq)]
pub struct Guild {
    /// The id of the guild.
    pub id: GuildId,
    /// The ids of the emojis the guild owns. Order carries no meaning;
    /// this layer does not exclude duplicates.
    pub emoji_ids: Vec<EmojiId>,
}

/// A point-in-time, read-only view over the cached guilds.
///
/// The cache collaborator populates and evicts it; this crate only ever
/// reads it. Two lookups against two views may disagree: callers must
/// re-resolve ownership before each mutation rather than cache the result.
#[derive(Clone, Debug, PartialEq, Eq)]
pub struct Cache {
    /// The known guilds, in the iteration order lookups follow.
    pub guilds: Vec<Guild>,
}

/// Whether a guild's membership set contains an emoji id.
pub open spec fn guild_has_emoji(g: Guild, id: EmojiId) -> bool {
    g.emoji_ids@.contains(id)
}

/// The owner a scan finds: the id of the first guild, in the view's
/// iteration order, whose membership set contains the emoji id.
pub open spec fn find_owner_spec(guilds: Seq<Guild>, id: EmojiId) -> Option<GuildId>
    decreases guilds.len(),
{
    if guilds.len() == 0 {
        None
    } else if guild_has_emoji(guilds[0], id) {
        Some(guilds[0].id)
    } else {
        find_owner_spec(guilds.drop_first(), id)
    }
}

/// Law: when no guild in the view contains the emoji id, the scan finds no
/// owner.
pub proof fn lemma_find_owner_absent(guilds: Seq<Guild>, id: EmojiId)
    requires
        forall|j: int| 0 <= j < guilds.len() ==> !guild_has_emoji(guilds[j], id),
    ensures
        find_owner_spec(guilds, id) is None,
    decreases guilds.len(),
{
    if guilds.len() > 0 {
        lemma_find_owner_absent(guilds.drop_first(), id);
    }
}

/// Law: when exactly one guild in the view contains the emoji id, the scan
/// returns that guild, wherever it stands in the iteration order.
pub proof fn lemma_find_owner_unique(guilds: Seq<Guild>, id: EmojiId, k: int)
    requires
        0 <= k < guilds.len(),
        guild_has_emoji(guilds[k], id),
        forall|j: int| 0 <= j < guilds.len() && j != k ==> !guild_has_emoji(guilds[j], id),
    ensures
        find_owner_spec(guilds, id) == Some(guilds[k].id),
    decreases guilds.len(),
{
    if k > 0 {
        lemma_find_owner_unique(guilds.drop_first(), id, k - 1);
    }
}

/// Whether a guild's membership `Vec` contains an emoji id, by linear scan.
fn guild_contains(g: &Guild, id: EmojiId) -> (r: bool)
    ensures
        r == guild_has_emoji(*g, id),
{
    let n = g.emoji_ids.len();
    let mut j: usize = 0;
    while j < n
        invariant
            j <= n,
            n == g.emoji_ids@.len(),
            forall|k: int| 0 <= k < j ==> g.emoji_ids@[k] != id,
        decreases n - j,
    {
        if g.emoji_ids[j] == id {
            return true;
        }
        j = j + 1;
    }
    false
}

impl Emoji {
    /// Finds the guild that owns the emoji by scanning the cache view.
    ///
    /// Returns the first guild, in the view's iteration order, whose
    /// membership set contains this emoji's id. "No owner" is a normal
    /// outcome (emoji deleted elsewhere, cache not yet populated), not an
    /// error: the result is then `None`.
    pub fn find_guild_id(&self, cache: &Cache) -> (r: Option<GuildId>)
        ensures
            r == find_owner_spec(cache.guilds@, self.id),
    {
        let n = cache.guilds.len();
        proof {
            assert(cache.guilds@.subrange(0, n as int) =~= cache.guilds@);
        }
        let mut i: usize = 0;
        while i < n
            invariant
                i <= n,
                n == cache.guilds@.len(),
                find_owner_spec(cache.guilds@, self.id) == find_owner_spec(
                    cache.guilds@.subrange(i as int, n as int),
                    self.id,
                ),
            decreases n - i,
        {
            let suffix = Ghost(cache.guilds@.subrange(i as int, n as int));
            if guild_contains(&cache.guilds[i], self.id) {
                proof {
                    assert(suffix@[0] == cache.guilds@[i as int]);
                }
                return Some(cache.guilds[i].id);
            }
            proof {
                assert(suffix@[0] == cache.guilds@[i as int]);
                assert(suffix@.drop_first() =~= cache.guilds@.subrange(i as int + 1, n as int));
            }
            i = i + 1;
        }
        proof {
            assert(cache.guilds@.subrange(n as int, n as int) =~= Seq::<Guild>::empty());
        }
        None
    }
}

} // verus!
