//! The mutate-through-cache pattern: resolve the owning guild through the
//! cache, issue the remote call through a caller-supplied gateway, and on a
//! successful edit replace the local record wholesale with the gateway's
//! authoritative response.

use vstd::prelude::*;
use vstd::string::StringExecFns;
use crate::cache::Cache;
use crate::cache::find_owner_spec;
use crate::emoji::Emoji;
use crate::id::EmojiId;
use crate::id::GuildId;
use crate::text::json_escaped;
use crate::text::json_escape;

verus! {

/// An error the remote gateway surfaced: network failure, authorization
/// failure, validation rejection, rate limiting. Opaque to this crate and
/// forwarded unchanged; no interpretation or retry is added.
#[derive(Clone, Debug, PartialEq, Eq)]
pub struct GatewayError {
    /// A numeric code the gateway attached to the failure.
    pub code: u64,
    /// A human-readable description the gateway attached to the failure.
    pub message: String,
}

/// Why a mutation failed.
#[derive(Clone, Debug, PartialEq, Eq)]
pub enum ErrorKind {
    /// Raised locally: the cache could not be acquired, or no guild in the
    /// cache currently maps the emoji id. Recoverable — the caller may retry
    /// once the cache repopulates.
    ItemMissing,
    /// A gateway-surfaced error, passed through unchanged.
    Gateway(GatewayError),
}

/// The remote authority for emoji mutations. The caller supplies the
/// implementation; this crate only decides whether and with what arguments
/// to call it, and how to fold its answer into local state.
pub trait RemoteEmojiGateway {
    /// Asks the remote service to delete an emoji from a guild.
    fn delete_emoji(&mut self, guild_id: GuildId, emoji_id: EmojiId) -> Result<(), GatewayError>;

    /// Asks the remote service to update an emoji in a guild. `payload` is
    /// the JSON text of the update object; on success the returned record
    /// is the authoritative state of the emoji.
    fn edit_emoji(&mut self, guild_id: GuildId, emoji_id: EmojiId, payload: &str) -> Result<
        Emoji,
        GatewayError,
    >;
}

/// The JSON text of the minimal update payload: an object holding only the
/// `name` field.
pub open spec fn name_payload_spec(name: Seq<char>) -> Seq<char> {
    "{\"name\":\""@ + json_escaped(name) + "\"}"@
}

/// Builds the minimal update payload for an edit, matching
/// `name_payload_spec` exactly.
pub fn name_update_payload(name: &str) -> (r: String)
    ensures
        r@ == name_payload_spec(name@),
{
    let mut r = "{\"name\":\"".to_owned();
    let escaped = json_escape(name);
    r.append(escaped.as_str());
    r.append("\"}");
    r
}

impl Emoji {
    /// Folds the gateway's answer to an edit into the local record: on
    /// success the record is replaced wholesale by the returned record — no
    /// field-by-field merge, fields not named in the request may change too;
    /// on failure the record is left exactly as it was and the gateway's
    /// error is passed through unchanged.
    pub fn apply_edit_outcome(&mut self, outcome: Result<Emoji, GatewayError>) -> (r: Result<
        (),
        ErrorKind,
    >)
        ensures
            match outcome {
                Ok(record) => *final(self) == record && r == Ok::<(), ErrorKind>(()),
                Err(e) => *final(self) == *old(self) && r == Err::<(), ErrorKind>(
                    ErrorKind::Gateway(e),
                ),
            },
    {
        match outcome {
            Ok(record) => {
                *self = record;
                Ok(())
            },
            Err(e) => Err(ErrorKind::Gateway(e)),
        }
    }

    /// Deletes the emoji remotely.
    ///
    /// Fails with `ErrorKind::ItemMissing`, without calling the gateway,
    /// exactly when no cache view is available or no guild in the view owns
    /// the emoji id. Otherwise the gateway's answer is propagated verbatim,
    /// its error wrapped as `ErrorKind::Gateway`.
    ///
    /// The cache itself is never touched: on remote success the local
    /// record is stale, and invalidation is the cache collaborator's job.
    pub fn delete<G: RemoteEmojiGateway>(&self, cache: Option<&Cache>, gateway: &mut G) -> (r:
        Result<(), ErrorKind>)
        ensures
            match cache {
                None => r == Err::<(), ErrorKind>(ErrorKind::ItemMissing),
                Some(c) => match find_owner_spec(c.guilds@, self.id) {
                    None => r == Err::<(), ErrorKind>(ErrorKind::ItemMissing),
                    Some(_) => r is Ok || r matches Err(ErrorKind::Gateway(_)),
                },
            },
    {
        let c = match cache {
            Some(c) => c,
            None => {
                return Err(ErrorKind::ItemMissing);
            },
        };
        match self.find_guild_id(c) {
            Some(guild_id) => match gateway.delete_emoji(guild_id, self.id) {
                Ok(()) => Ok(()),
                Err(e) => Err(ErrorKind::Gateway(e)),
            },
            None => Err(ErrorKind::ItemMissing),
        }
    }

    /// Edits the emoji remotely, updating it with a new name.
    ///
    /// Fails with `ErrorKind::ItemMissing`, without calling the gateway,
    /// exactly when no cache view is available or no guild in the view owns
    /// the emoji id. Otherwise the update payload `{"name":...}` — and
    /// nothing else — is sent through the gateway; on success the local
    /// record is replaced wholesale by the gateway's returned record, and on
    /// any failure it is left exactly as it was before the call.
    pub fn edit<G: RemoteEmojiGateway>(
        &mut self,
        cache: Option<&Cache>,
        gateway: &mut G,
        name: &str,
    ) -> (r: Result<(), ErrorKind>)
        ensures
            match cache {
                None => r == Err::<(), ErrorKind>(ErrorKind::ItemMissing),
                Some(c) => match find_owner_spec(c.guilds@, old(self).id) {
                    None => r == Err::<(), ErrorKind>(ErrorKind::ItemMissing),
                    Some(_) => r is Ok || r matches Err(ErrorKind::Gateway(_)),
                },
            },
            r is Err ==> *final(self) == *old(self),
    {
        let c = match cache {
            Some(c) => c,
            None => {
                return Err(ErrorKind::ItemMissing);
            },
        };
        match self.find_guild_id(c) {
            Some(guild_id) => {
                let payload = name_update_payload(name);
                let outcome = gateway.edit_emoji(guild_id, self.id, payload.as_str());
                self.apply_edit_outcome(outcome)
            },
            None => Err(ErrorKind::ItemMissing),
        }
    }
}

} // verus!
