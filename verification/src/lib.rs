//! An interactive resource-navigation engine: menu selection with a
//! back/exit protocol, date-range filtering, paginated fetching with
//! classified error handling, and a per-resource navigation state machine.
//!
//! Remote calls and terminal prompts are performed by the surrounding
//! application; this library makes every decision between them.

pub mod choice;
pub mod conversation;
pub mod dates;
pub mod outcome;
pub mod sync;
pub mod text;
