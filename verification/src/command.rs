//! The bot's registered command descriptors.
//!
//! The bot declares a single command, `trinity`, with no options; the
//! descriptor is registered with the platform out of band.

use vstd::prelude::*;

verus! {

/// What the bot registers for one command: its name, its description and
/// the names of its options.
pub struct CommandDescriptor {
    pub name: String,
    pub description: String,
    pub option_names: Vec<String>,
}

/// The name of the one registered command.
pub open spec fn trinity_command_name() -> Seq<char> {
    "trinity"@
}

/// The description of the one registered command.
pub open spec fn trinity_command_description() -> Seq<char> {
    "Gets information abount the trinity."@
}

/// The full list of command descriptors the bot registers: exactly one
/// command, named `trinity`, with no options.
pub fn commands() -> (v: Vec<CommandDescriptor>)
    ensures
        v@.len() == 1,
        v@[0].name@ == trinity_command_name(),
        v@[0].description@ == trinity_command_description(),
        v@[0].option_names@.len() == 0,
{
    let descriptor = CommandDescriptor {
        name: "trinity".to_owned(),
        description: "Gets information abount the trinity.".to_owned(),
        option_names: Vec::new(),
    };
    let mut v: Vec<CommandDescriptor> = Vec::new();
    v.push(descriptor);
    v
}

} // verus!
