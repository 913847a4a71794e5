//! A record store of moderation warnings, kept per guild and per user.
//!
//! The store is a plain value: guilds in the order of their first warning,
//! in each guild the warned users in the order of theirs, and for each user
//! the warnings, oldest first. [`Warnings::add_warning`] finds or starts the
//! records it needs and [`Warnings::get_warnings`] reads one;
//! [`UserWarnings::to_string`] shows a record as text. Loading and saving are
//! driven by the caller, who owns the file system and the text format, one
//! step at a time through [`Warnings::load`] and [`Warnings::save`].

pub mod identity;
pub mod laws;
pub mod persist;
pub mod record;
pub mod store;
pub mod summary;

pub use identity::{GuildId, User, UserId, UserView};
pub use persist::{LoadEvent, LoadStep, SaveEvent, SaveStep, StoreError};
pub use record::{GuildView, GuildWarnings, MemberView, UserWarnings, Warning, Warnings};
