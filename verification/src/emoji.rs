//! The emoji record and its pure presentation helpers.

use vstd::prelude::*;
use vstd::string::StringExecFns;
use crate::id::EmojiId;
use crate::id::RoleId;
use crate::text::dec_rep;
use crate::text::u64_to_dec;

verus! {

/// One custom guild emoji as known to the client.
///
/// The owning guild is not stored on the record; ownership is a derived
/// relationship, discoverable only through the guild cache at query time.
#[derive(Clone, Debug, PartialEq, Eq)]
pub struct Emoji {
    /// Whether the emoji is animated.
    pub animated: bool,
    /// The id of the emoji, assigned by the remote service.
    pub id: EmojiId,
    /// The name of the emoji. The remote service requires at least two
    /// characters, alphanumeric and underscore only; this layer does not.
    pub name: String,
    /// Whether the emoji is managed by an integration service.
    pub managed: bool,
    /// Whether clients must surround the name with colons to use it.
    pub require_colons: bool,
    /// The roles allowed to use the emoji; empty means unrestricted.
    pub roles: Vec<RoleId>,
}

/// The mention string of an emoji: the literal text clients render as an
/// inline emoji, `<:name:id>`, or `<a:name:id>` when animated.
pub open spec fn mention_spec(e: Emoji) -> Seq<char> {
    (if e.animated {
        "<a:"@
    } else {
        "<:"@
    }) + e.name@ + ":"@ + dec_rep(e.id.0 as nat) + ">"@
}

/// The CDN path prefix under which emoji images live.
pub open spec fn cdn_emoji_base() -> Seq<char> {
    "https://cdn.discordapp.com/emojis/"@
}

/// The URL of an emoji's image on the CDN: `<cdn-base>/emojis/<id>.<ext>`,
/// where the extension is `gif` exactly when the emoji is animated and
/// `png` otherwise.
pub open spec fn url_spec(e: Emoji) -> Seq<char> {
    cdn_emoji_base() + dec_rep(e.id.0 as nat) + "."@ + (if e.animated {
        "gif"@
    } else {
        "png"@
    })
}

impl Emoji {
    /// Formats the emoji into the string that causes clients to render it
    /// inline: `<:NAME:EMOJI_ID>`, or `<a:NAME:EMOJI_ID>` when animated.
    ///
    /// Total: any name, including one the remote service would reject, is
    /// rendered as-is.
    pub fn mention_string(&self) -> (r: String)
        ensures
            r@ == mention_spec(*self),
    {
        let mut r = if self.animated {
            "<a:".to_owned()
        } else {
            "<:".to_owned()
        };
        r.append(self.name.as_str());
        r.append(":");
        let id_dec = u64_to_dec(self.id.0);
        r.append(id_dec.as_str());
        r.append(">");
        proof {
            assert(r@ =~= mention_spec(*self));
        }
        r
    }

    /// Generates the URL to the emoji's image. Deterministic from `id` and
    /// `animated` alone; does not verify that the image exists.
    pub fn url(&self) -> (r: String)
        ensures
            r@ == url_spec(*self),
    {
        let mut r = "https://cdn.discordapp.com/emojis/".to_owned();
        let id_dec = u64_to_dec(self.id.0);
        r.append(id_dec.as_str());
        r.append(".");
        r.append(if self.animated {
            "gif"
        } else {
            "png"
        });
        proof {
            assert(r@ =~= url_spec(*self));
        }
        r
    }
}

/// Law: the mention string of a non-animated emoji is `<` `:` name `:` id
/// `>`, and of an animated one `<` `a` `:` name `:` id `>`, with the id in
/// decimal.
pub proof fn lemma_mention_shape(e: Emoji)
    ensures
        !e.animated ==> mention_spec(e) == seq!['<', ':'] + e.name@ + seq![':'] + dec_rep(
            e.id.0 as nat,
        ) + seq!['>'],
        e.animated ==> mention_spec(e) == seq!['<', 'a', ':'] + e.name@ + seq![':'] + dec_rep(
            e.id.0 as nat,
        ) + seq!['>'],
{
    reveal_strlit("<a:");
    reveal_strlit("<:");
    reveal_strlit(":");
    reveal_strlit(">");
    if e.animated {
        assert(mention_spec(e) =~= seq!['<', 'a', ':'] + e.name@ + seq![':'] + dec_rep(
            e.id.0 as nat,
        ) + seq!['>']);
    } else {
        assert(mention_spec(e) =~= seq!['<', ':'] + e.name@ + seq![':'] + dec_rep(e.id.0 as nat)
            + seq!['>']);
    }
}

/// Law: the image URL carries the decimal digits of the id verbatim right
/// after the CDN prefix, and its extension is `gif` exactly when the emoji
/// is animated, `png` otherwise.
pub proof fn lemma_url_parts(e: Emoji)
    ensures
        url_spec(e).len() == cdn_emoji_base().len() + dec_rep(e.id.0 as nat).len() + 4,
        url_spec(e).subrange(
            cdn_emoji_base().len() as int,
            cdn_emoji_base().len() + dec_rep(e.id.0 as nat).len() as int,
        ) == dec_rep(e.id.0 as nat),
        url_spec(e).subrange(url_spec(e).len() - 4, url_spec(e).len() as int) == seq!['.'] + (if e.animated {
            "gif"@
        } else {
            "png"@
        }),
        (url_spec(e).subrange(url_spec(e).len() - 3, url_spec(e).len() as int) == "gif"@) <==> e.animated,
{
    reveal_strlit("https://cdn.discordapp.com/emojis/");
    reveal_strlit(".");
    reveal_strlit("gif");
    reveal_strlit("png");
    let l = url_spec(e).len() as int;
    let b = cdn_emoji_base().len() as int;
    let d = dec_rep(e.id.0 as nat).len() as int;
    assert(url_spec(e).subrange(b, b + d) =~= dec_rep(e.id.0 as nat));
    if e.animated {
        assert(url_spec(e).subrange(l - 4, l) =~= seq!['.'] + "gif"@);
        assert(url_spec(e).subrange(l - 3, l) =~= "gif"@);
    } else {
        assert(url_spec(e).subrange(l - 4, l) =~= seq!['.'] + "png"@);
        assert(url_spec(e).subrange(l - 3, l) =~= "png"@);
        assert(url_spec(e).subrange(l - 3, l)[0] != "gif"@[0]);
    }
}

impl From<Emoji> for EmojiId {
    /// Gets the id of an emoji.
    fn from(emoji: Emoji) -> (r: EmojiId) {
        emoji.id
    }
}

impl vstd::std_specs::convert::FromSpecImpl<Emoji> for EmojiId {
    open spec fn obeys_from_spec() -> bool {
        true
    }

    open spec fn from_spec(emoji: Emoji) -> EmojiId {
        emoji.id
    }
}

impl<'a> From<&'a Emoji> for EmojiId {
    /// Gets the id of an emoji.
    fn from(emoji: &Emoji) -> (r: EmojiId) {
        emoji.id
    }
}

impl<'a> vstd::std_specs::convert::FromSpecImpl<&'a Emoji> for EmojiId {
    open spec fn obeys_from_spec() -> bool {
        true
    }

    open spec fn from_spec(emoji: &'a Emoji) -> EmojiId {
        emoji.id
    }
}

} // verus!
