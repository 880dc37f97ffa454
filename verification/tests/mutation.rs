use guild_emoji::id::{EmojiId, GuildId, RoleId};
use guild_emoji::mutation::name_update_payload;
use guild_emoji::{Cache, Emoji, ErrorKind, GatewayError, Guild, RemoteEmojiGateway};

fn sample(id: u64, name: &str) -> Emoji {
    Emoji {
        animated: false,
        id: EmojiId(id),
        name: name.to_string(),
        managed: false,
        require_colons: false,
        roles: Vec::new(),
    }
}

fn cache_owning(guild_id: u64, emoji_id: u64) -> Cache {
    Cache {
        guilds: vec![
            Guild {
                id: GuildId(1),
                emoji_ids: Vec::new(),
            },
            Guild {
                id: GuildId(guild_id),
                emoji_ids: vec![EmojiId(emoji_id)],
            },
        ],
    }
}

fn gateway_error() -> GatewayError {
    GatewayError {
        code: 403,
        message: "missing permission".to_string(),
    }
}

/// A scripted stand-in for the remote service: records every call it
/// receives and answers with a fixed response.
struct ScriptedGateway {
    delete_calls: usize,
    edit_calls: usize,
    last_guild: Option<GuildId>,
    last_emoji: Option<EmojiId>,
    last_payload: Option<String>,
    delete_response: Result<(), GatewayError>,
    edit_response: Result<Emoji, GatewayError>,
}

impl ScriptedGateway {
    fn new(
        delete_response: Result<(), GatewayError>,
        edit_response: Result<Emoji, GatewayError>,
    ) -> Self {
        ScriptedGateway {
            delete_calls: 0,
            edit_calls: 0,
            last_guild: None,
            last_emoji: None,
            last_payload: None,
            delete_response,
            edit_response,
        }
    }
}

impl RemoteEmojiGateway for ScriptedGateway {
    fn delete_emoji(&mut self, guild_id: GuildId, emoji_id: EmojiId) -> Result<(), GatewayError> {
        self.delete_calls += 1;
        self.last_guild = Some(guild_id);
        self.last_emoji = Some(emoji_id);
        self.delete_response.clone()
    }

    fn edit_emoji(
        &mut self,
        guild_id: GuildId,
        emoji_id: EmojiId,
        payload: &str,
    ) -> Result<Emoji, GatewayError> {
        self.edit_calls += 1;
        self.last_guild = Some(guild_id);
        self.last_emoji = Some(emoji_id);
        self.last_payload = Some(payload.to_string());
        self.edit_response.clone()
    }
}

#[test]
fn payload_holds_only_the_name() {
    assert_eq!(name_update_payload("blobcry"), "{\"name\":\"blobcry\"}");
}

#[test]
fn payload_escapes_quotes_backslashes_and_controls() {
    assert_eq!(
        name_update_payload("a\"b\\c\nd"),
        "{\"name\":\"a\\\"b\\\\c\\u000ad\"}"
    );
}

#[test]
fn edit_fails_without_cache_and_never_calls_gateway() {
    let mut emoji = sample(7, "blobface");
    let before = emoji.clone();
    let mut gateway = ScriptedGateway::new(Ok(()), Err(gateway_error()));
    let result = emoji.edit(None, &mut gateway, "blobcry");
    assert_eq!(result, Err(ErrorKind::ItemMissing));
    assert_eq!(gateway.edit_calls, 0);
    assert_eq!(gateway.delete_calls, 0);
    assert_eq!(emoji, before);
}

#[test]
fn delete_fails_without_cache_and_never_calls_gateway() {
    let emoji = sample(7, "blobface");
    let mut gateway = ScriptedGateway::new(Ok(()), Err(gateway_error()));
    let result = emoji.delete(None, &mut gateway);
    assert_eq!(result, Err(ErrorKind::ItemMissing));
    assert_eq!(gateway.edit_calls, 0);
    assert_eq!(gateway.delete_calls, 0);
}

#[test]
fn edit_fails_without_owner_and_never_calls_gateway() {
    let mut emoji = sample(7, "blobface");
    let before = emoji.clone();
    let cache = cache_owning(42, 9);
    let mut gateway = ScriptedGateway::new(Ok(()), Err(gateway_error()));
    let result = emoji.edit(Some(&cache), &mut gateway, "blobcry");
    assert_eq!(result, Err(ErrorKind::ItemMissing));
    assert_eq!(gateway.edit_calls, 0);
    assert_eq!(emoji, before);
}

#[test]
fn delete_fails_without_owner_and_never_calls_gateway() {
    let emoji = sample(7, "blobface");
    let cache = cache_owning(42, 9);
    let mut gateway = ScriptedGateway::new(Ok(()), Err(gateway_error()));
    let result = emoji.delete(Some(&cache), &mut gateway);
    assert_eq!(result, Err(ErrorKind::ItemMissing));
    assert_eq!(gateway.delete_calls, 0);
}

#[test]
fn delete_sends_owner_and_id_and_propagates_success() {
    let emoji = sample(7, "blobface");
    let cache = cache_owning(42, 7);
    let mut gateway = ScriptedGateway::new(Ok(()), Err(gateway_error()));
    let result = emoji.delete(Some(&cache), &mut gateway);
    assert_eq!(result, Ok(()));
    assert_eq!(gateway.delete_calls, 1);
    assert_eq!(gateway.last_guild, Some(GuildId(42)));
    assert_eq!(gateway.last_emoji, Some(EmojiId(7)));
}

#[test]
fn delete_passes_gateway_error_through() {
    let emoji = sample(7, "blobface");
    let cache = cache_owning(42, 7);
    let mut gateway = ScriptedGateway::new(Err(gateway_error()), Err(gateway_error()));
    let result = emoji.delete(Some(&cache), &mut gateway);
    assert_eq!(result, Err(ErrorKind::Gateway(gateway_error())));
}

#[test]
fn edit_replaces_every_field_on_success() {
    let mut emoji = sample(7, "blobface");
    let cache = cache_owning(42, 7);
    let returned = Emoji {
        animated: true,
        id: EmojiId(7),
        name: "blobcry".to_string(),
        managed: true,
        require_colons: true,
        roles: vec![RoleId(301), RoleId(302)],
    };
    let mut gateway = ScriptedGateway::new(Ok(()), Ok(returned.clone()));
    let result = emoji.edit(Some(&cache), &mut gateway, "blobcry");
    assert_eq!(result, Ok(()));
    assert_eq!(emoji, returned);
}

#[test]
fn edit_gateway_error_leaves_record_unchanged() {
    let mut emoji = sample(7, "blobface");
    let before = emoji.clone();
    let cache = cache_owning(42, 7);
    let mut gateway = ScriptedGateway::new(Ok(()), Err(gateway_error()));
    let result = emoji.edit(Some(&cache), &mut gateway, "blobcry");
    assert_eq!(result, Err(ErrorKind::Gateway(gateway_error())));
    assert_eq!(emoji, before);
}

#[test]
fn edit_scenario_rename_keeps_id() {
    let mut emoji = sample(7, "blobface");
    let cache = cache_owning(42, 7);
    let returned = sample(7, "blobcry");
    let mut gateway = ScriptedGateway::new(Ok(()), Ok(returned));
    let result = emoji.edit(Some(&cache), &mut gateway, "blobcry");
    assert_eq!(result, Ok(()));
    assert_eq!(emoji.name, "blobcry");
    assert_eq!(emoji.id, EmojiId(7));
    assert_eq!(gateway.edit_calls, 1);
    assert_eq!(gateway.last_guild, Some(GuildId(42)));
    assert_eq!(gateway.last_emoji, Some(EmojiId(7)));
    assert_eq!(gateway.last_payload, Some("{\"name\":\"blobcry\"}".to_string()));
}
