use vstd::prelude::*;
use vstd::string::*;
use crate::command::{Command, prompt_text};
use crate::geometry::Rect;
use crate::text::{pop_char, push_char};

verus! {

/// The prompt bar: while a command is being entered, the text typed so far.
pub struct Prompt {
    pub is_active: bool,
    pub command: Command,
    pub input: String,
    pub rect: Rect,
    pub root: String,
    pub tick: i32,
}

/// What the prompt bar holds, as values.
#[verifier::ext_equal]
pub struct PromptView {
    pub is_active: bool,
    pub command: Command,
    pub input: Seq<char>,
    pub rect: Rect,
    pub root: Seq<char>,
    pub tick: i32,
}

impl View for Prompt {
    type V = PromptView;

    open spec fn view(&self) -> PromptView {
        PromptView {
            is_active: self.is_active,
            command: self.command,
            input: self.input@,
            rect: self.rect,
            root: self.root@,
            tick: self.tick,
        }
    }
}

/// A file operation that a command asks the caller to perform.
pub enum FileAction {
    /// Create the file `name` in the directory `root`.
    CreateFile { root: String, name: String },
}

/// The prompt bar after typing `c`.
pub open spec fn spec_enter_input(p: PromptView, c: char) -> PromptView {
    PromptView { input: p.input.push(c), ..p }
}

/// The prompt bar after erasing the last character typed, if any.
pub open spec fn spec_delete_input(p: PromptView) -> PromptView {
    PromptView {
        input: if p.input.len() > 0 {
            p.input.drop_last()
        } else {
            p.input
        },
        ..p
    }
}

/// The prompt bar after a command finished: inactive and empty.
pub open spec fn spec_finished(p: PromptView) -> PromptView {
    PromptView { is_active: false, input: Seq::empty(), ..p }
}

impl Prompt {
    /// An inactive prompt bar for the directory `path`, with no command.
    pub fn new(path: &String) -> (r: Prompt)
        ensures
            r@ == (PromptView {
                is_active: false,
                command: Command::NoCommand,
                input: Seq::empty(),
                rect: Rect { x: 0, y: 0, width: 0, height: 0 },
                root: path@,
                tick: 0,
            }),
    {
        Prompt {
            is_active: false,
            command: Command::NoCommand,
            input: String::new(),
            rect: Rect { x: 0, y: 0, width: 0, height: 0 },
            root: path.clone(),
            tick: 0,
        }
    }

    /// The question asked for the current command.
    pub fn get_prompt_string(&self) -> (r: String)
        ensures
            r@ == prompt_text(self.command),
    {
        self.command.get_prompt_string(&self.root)
    }

    /// Starts entering `command`, with no text typed.
    pub fn begin_prompt(&mut self, command: Command)
        ensures
            final(self)@ == (PromptView { is_active: true, command, input: Seq::empty(), ..old(self)@ }),
    {
        self.is_active = true;
        self.command = command;
        self.input = String::new();
    }

    /// Types a character.
    pub fn enter_input(&mut self, input: char)
        ensures
            final(self)@ == spec_enter_input(old(self)@, input),
    {
        push_char(&mut self.input, input);
    }

    /// Erases the last character typed, if any.
    pub fn delete_input(&mut self)
        ensures
            final(self)@ == spec_delete_input(old(self)@),
    {
        pop_char(&mut self.input);
    }

    /// Abandons the command: inactive, empty, no command.
    pub fn cancel(&mut self)
        ensures
            final(self)@ == (PromptView {
                is_active: false,
                input: Seq::empty(),
                command: Command::NoCommand,
                ..old(self)@
            }),
    {
        self.is_active = false;
        self.input = String::new();
        self.command = Command::NoCommand;
    }

    /// Whether a command is being entered.
    pub fn is_active(&self) -> (r: bool)
        ensures
            r == self.is_active,
    {
        self.is_active
    }

    /// Finishes the command in the directory `root`: for `Create`, asks the
    /// caller to create the file named by the text typed; the prompt bar
    /// becomes inactive and empty, the command stays.
    pub fn run_command(&mut self, root: &String) -> (r: Option<FileAction>)
        ensures
            final(self)@ == spec_finished(old(self)@),
            old(self).command == Command::Create <==> r is Some,
            r matches Some(FileAction::CreateFile { root: dir, name }) ==> dir@ == root@ && name@
                == old(self)@.input,
    {
        let action = match self.command {
            Command::Create => Some(
                FileAction::CreateFile { root: root.clone(), name: self.input.clone() },
            ),
            _ => None,
        };
        self.input = String::new();
        self.is_active = false;
        action
    }
}

/// Typing a character and erasing it gives back the text typed before.
pub proof fn law_delete_undoes_enter(p: PromptView, c: char)
    ensures
        spec_delete_input(spec_enter_input(p, c)) == p,
{
    assert(p.input.push(c).drop_last() =~= p.input);
}

} // verus!
