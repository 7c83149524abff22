use vstd::prelude::*;

verus! {

/// The file operations that the prompt bar can ask for.
#[allow(non_camel_case_types)]
#[derive(Clone, Copy, Debug, PartialEq, Eq, Structural)]
pub enum Command {
    Create,
    _Rename,
    _Move,
    _Delete,
    _Open,
    _Help,
    _Search,
    _Fill,
    NoCommand,
}

/// The question that the prompt bar asks for a command.
pub open spec fn prompt_text(command: Command) -> Seq<char> {
    match command {
        Command::Create => "Name of file to create: "@,
        _ => Seq::empty(),
    }
}

impl Command {
    /// The question that the prompt bar asks for this command: the name of
    /// the file to create, and nothing for the others.
    pub fn get_prompt_string(&self, _path: &String) -> (r: String)
        ensures
            r@ == prompt_text(*self),
    {
        match self {
            Command::Create => String::from_str("Name of file to create: "),
            _ => String::new(),
        }
    }
}

} // verus!
