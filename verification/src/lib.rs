//! Client-side session engine for a delimited-text game protocol.
//!
//! The engine logs a player in, encodes the player's commands into the
//! requests that the server expects, decodes the server's answers into keys
//! and values, and merges them into one snapshot of the player's world.
//! Posting a request is left to the caller: the engine hands the request out
//! and takes the answer back.
//!
//! * `text`, `number`, `escape`: delimited text, decimal integers, escaping.
//! * `store`, `decode`: the key/value store and the decoder that fills it.
//! * `command`, `encode`: the commands and their requests.
//! * `model`, `routing`: the parts of the game state and the keys that carry
//!   them.
//! * `state`, `parts`, `clock`: the game state, its parts under their names,
//!   and the two clocks.
//! * `assemble`, `laws`: the merge of an answer into the state, and what
//!   holds of every merge.
//! * `response`, `digest`, `session`: a decoded answer, the hashed secret,
//!   and the session controller.
//! * `error`: the failures that the engine reports.

pub mod assemble;
pub mod clock;
pub mod command;
pub mod decode;
pub mod digest;
pub mod encode;
pub mod error;
pub mod escape;
pub mod laws;
pub mod model;
pub mod number;
pub mod parts;
pub mod response;
pub mod routing;
pub mod session;
pub mod state;
pub mod store;
pub mod text;
