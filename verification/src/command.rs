//! A single command and what it stands for.

use vstd::prelude::*;
use vstd::string::StringExecFns;

verus! {

/// A command the user can queue: either prints its text or runs the built-in
/// text function, which ignores its text.
pub enum UserFunctions {
    Print(String),
    Test(String),
}

/// The mathematical value of a [`UserFunctions`].
pub ghost enum Command {
    Print(Seq<char>),
    Test(Seq<char>),
}

/// What the built-in text function answers, whatever its text.
pub const TEST_OUTPUT: &'static str = "This is just a text function! :>";

/// [`TEST_OUTPUT`] as a sequence of characters.
pub open spec fn test_output() -> Seq<char> {
    TEST_OUTPUT@
}

impl Command {
    /// The string that running the command produces.
    pub open spec fn output(self) -> Seq<char> {
        match self {
            Command::Print(text) => text,
            Command::Test(_) => test_output(),
        }
    }

    /// The line that shows the command in the queue.
    pub open spec fn line(self) -> Seq<char> {
        match self {
            Command::Print(text) => "Print: "@ + text,
            Command::Test(text) => "Test: "@ + text,
        }
    }

    /// The text the command carries.
    pub open spec fn text(self) -> Seq<char> {
        match self {
            Command::Print(text) => text,
            Command::Test(text) => text,
        }
    }

    /// The command of the same kind with `text` in place of its own.
    pub open spec fn with_text(self, text: Seq<char>) -> Command {
        match self {
            Command::Print(_) => Command::Print(text),
            Command::Test(_) => Command::Test(text),
        }
    }

    /// The name of the command's kind, as the editor shows it beside the
    /// text.
    pub open spec fn caption(self) -> Seq<char> {
        match self {
            Command::Print(_) => "Print"@,
            Command::Test(_) => "Test"@,
        }
    }
}

impl View for UserFunctions {
    type V = Command;

    open spec fn view(&self) -> Command {
        match self {
            UserFunctions::Print(text) => Command::Print(text@),
            UserFunctions::Test(text) => Command::Test(text@),
        }
    }
}

impl Default for UserFunctions {
    fn default() -> (command: UserFunctions)
        ensures
            command@ == Command::Print(Seq::empty()),
    {
        UserFunctions::Print(String::new())
    }
}

impl UserFunctions {
    /// The string that running the command produces: a `Print` gives its own
    /// text, a `Test` the fixed answer of the text function.
    pub fn run(&self) -> (output: String)
        ensures
            output@ == self@.output(),
    {
        match self {
            UserFunctions::Print(text) => text.clone(),
            UserFunctions::Test(_) => TEST_OUTPUT.to_owned(),
        }
    }

    /// The line that shows the command in the queue: the name of its kind,
    /// a colon and a space, then its text.
    pub fn to_string(&self) -> (line: String)
        ensures
            line@ == self@.line(),
    {
        match self {
            UserFunctions::Print(text) => "Print: ".to_owned().concat(text.as_str()),
            UserFunctions::Test(text) => "Test: ".to_owned().concat(text.as_str()),
        }
    }

    /// The name of the command's kind, as the editor shows it beside the
    /// text.
    pub fn caption(&self) -> (caption: &'static str)
        ensures
            caption@ == self@.caption(),
    {
        match self {
            UserFunctions::Print(_) => "Print",
            UserFunctions::Test(_) => "Test",
        }
    }

    /// The text of the command, for the editor to change in place. Whatever
    /// is written to it becomes the command's text; the kind stays.
    pub fn text_mut(&mut self) -> (text: &mut String)
        ensures
            text@ == old(self)@.text(),
            final(self)@ == old(self)@.with_text(final(text)@),
    {
        match self {
            UserFunctions::Print(text) => text,
            UserFunctions::Test(text) => text,
        }
    }

    /// What one frame of the editor row hands to the queue: a copy of the
    /// command when its `+` button was clicked, nothing otherwise.
    pub fn commit(&self, clicked: bool) -> (picked: Option<UserFunctions>)
        ensures
            match picked {
                Some(command) => clicked && command@ == self@,
                None => !clicked,
            },
    {
        if clicked {
            Some(
                match self {
                    UserFunctions::Print(text) => UserFunctions::Print(text.clone()),
                    UserFunctions::Test(text) => UserFunctions::Test(text.clone()),
                },
            )
        } else {
            None
        }
    }
}

} // verus!
