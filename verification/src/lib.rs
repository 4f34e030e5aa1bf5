use vstd::prelude::*;

pub mod commands;
pub mod craiyon;
pub mod encoding;
pub mod images;
pub mod links;
pub mod logchamp;
pub mod mathjs;
pub mod message_entities;
pub mod not_commands;
pub mod openai;
pub mod parsed_command;
pub mod passwordpurgatory;
pub mod random;
pub mod rate_limit;
pub mod tally;
pub mod text;

verus! {

} // verus!
