use vstd::prelude::*;

verus! {

/// The commands the bot answers to.
#[derive(Clone, Copy, Debug, PartialEq, Eq, Structural)]
pub enum Command {
    /// Start an enrollment for the invoking user.
    Register,
}

pub open spec fn command_spec(name: Seq<char>) -> Option<Command> {
    if name == "register"@ {
        Some(Command::Register)
    } else {
        None
    }
}

impl Command {
    /// The name under which the command is offered.
    pub fn name(&self) -> (r: String)
        ensures
            command_spec(r@) == Some(*self),
    {
        match self {
            Command::Register => "register".to_owned(),
        }
    }
}

/// The command invoked under `name`, if the bot has one of that name.
pub fn command_for_name(name: &str) -> (r: Option<Command>)
    ensures
        r == command_spec(name@),
{
    if name.to_owned() == "register".to_owned() {
        Some(Command::Register)
    } else {
        None
    }
}

} // verus!
