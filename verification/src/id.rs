//! Identifier newtypes for the entities this crate speaks about.

use vstd::prelude::*;

verus! {

/// The unique identifier of an emoji, assigned by the remote service.
#[derive(Clone, Copy, Debug, PartialEq, Eq, Structural, Hash)]
pub struct EmojiId(pub u64);

/// The unique identifier of a guild.
#[derive(Clone, Copy, Debug, PartialEq, Eq, Structural, Hash)]
pub struct GuildId(pub u64);

/// The unique identifier of a role within a guild.
#[derive(Clone, Copy, Debug, PartialEq, Eq, Structural, Hash)]
pub struct RoleId(pub u64);

} // verus!
