//! The bot's replies: what each command answers, decided from the users
//! table and the command's text.

pub mod add;
pub mod start;
pub mod sync;

use vstd::prelude::*;

verus! {

/// The notice sent to every admin's chat when the channel gets a post.
pub const ANNOUNCEMENT: &'static str = "There's been a post in channel";

} // verus!
