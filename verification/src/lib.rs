//! A guild-scoped custom emoji and the operations that keep a local replica
//! of it consistent with a remote authority.
//!
//! The crate models one entity of a chat platform's object graph: a custom
//! emoji owned by a guild. The emoji record does not carry its owner; the
//! owner is found by scanning a shared cache of guilds. Mutations (edit,
//! delete) resolve the owner first, then issue a remote call through a
//! gateway the caller supplies, and on a successful edit replace the local
//! record wholesale with the record the gateway returned.

pub mod cache;
pub mod emoji;
pub mod id;
pub mod mutation;
pub mod text;

pub use cache::Cache;
pub use cache::Guild;
pub use emoji::Emoji;
pub use mutation::ErrorKind;
pub use mutation::GatewayError;
pub use mutation::RemoteEmojiGateway;

pub use id::EmojiId;
pub use id::GuildId;
pub use id::RoleId;
