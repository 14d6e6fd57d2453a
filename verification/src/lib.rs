//! The core of a backend that distributes mods: accounts that are bound to an
//! external identity, the login handshake across devices, the access tokens
//! that follow it, and the ownership check on every change of a mod.
//!
//! The library decides; it does no input or output. A request is a sequence
//! of steps ([`flow`]): it begins with plain values (the request, the clock,
//! the random bytes), asks for one action at a time (a statement on the
//! store, a call of the identity provider), is told what the action
//! returned, and in the end answers with an [`response::ApiResponse`].
//! Whoever holds the store and the network runs that loop.
//!
//! The store ([`store::Database`]) is held here as four tables, each a map
//! from its primary key. Each function on it stands for one atomic statement;
//! since a statement takes the store by `&mut`, statements never interleave,
//! and what is proved of two statements in either order is what two
//! concurrent callers can observe. On this store the handlers of [`login`]
//! and [`mods`] run a request from its beginning to its answer; of each a
//! spec function says what it answers and what the store looks like
//! afterwards, and the handler is proved to do just that. A service that
//! keeps its rows in a database executes the same statements there.
//!
//! [`laws`] states what holds of the statements and handlers taken together.

pub mod account_table;
pub mod accounts;
pub mod catchers;
pub mod flow;
pub mod forms;
pub mod game_version;
pub mod identity;
pub mod laws;
pub mod login;
pub mod mod_table;
pub mod mods;
pub mod pages;
pub mod response;
pub mod sanitize;
pub mod search_mods;
pub mod storage;
pub mod store;
pub mod table;
pub mod temp_login;
pub mod text;
pub mod token;
