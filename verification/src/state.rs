//! The state of the command pad and the operations on it.

use vstd::prelude::*;
use crate::command::{test_output, Command, UserFunctions};

verus! {

/// The two templates, the queue and the results of the last run.
pub struct FunctionsState {
    /// The two template slots of the editor.
    pub commands_edit: [UserFunctions; 2],
    /// The committed commands, oldest first.
    pub commands_execute: Vec<UserFunctions>,
    /// What the last run produced, one string for each command it ran.
    pub command_results: Vec<String>,
}

/// The mathematical value of a [`FunctionsState`].
pub ghost struct PadState {
    pub templates: Seq<Command>,
    pub queue: Seq<Command>,
    pub results: Seq<Seq<char>>,
}

impl PadState {
    /// The state the pad starts in: an empty `Print`, an empty `Test`, and
    /// nothing queued or run.
    pub open spec fn initial() -> PadState {
        PadState {
            templates: seq![Command::Print(Seq::empty()), Command::Test(Seq::empty())],
            queue: Seq::empty(),
            results: Seq::empty(),
        }
    }

    /// The state after a run: each queued command has produced its output,
    /// in queue order, in place of the earlier results.
    pub open spec fn executed(self) -> PadState {
        PadState { results: self.queue.map_values(|c: Command| c.output()), ..self }
    }

    /// The state after the queue was emptied.
    pub open spec fn cleared(self) -> PadState {
        PadState { queue: Seq::empty(), ..self }
    }

    /// The state after `command` went to the end of the queue.
    pub open spec fn queued(self, command: Command) -> PadState {
        PadState { queue: self.queue.push(command), ..self }
    }

    /// The state after the two buttons had their say: `execute` stands for a
    /// run, `clear` for emptying the queue after it.
    pub open spec fn controlled(self, execute: bool, clear: bool) -> PadState {
        let ran = if execute { self.executed() } else { self };
        if clear { ran.cleared() } else { ran }
    }
}

impl PadState {
    /// A run produces one result for each queued command, and a queued
    /// `Print` produces exactly its own text.
    pub proof fn lemma_print_yields_its_text(self, i: int, text: Seq<char>)
        requires
            0 <= i < self.queue.len(),
            self.queue[i] == Command::Print(text),
        ensures
            self.executed().results.len() == self.queue.len(),
            self.executed().results[i] == text,
    {
    }

    /// A queued `Test` produces the fixed answer of the text function,
    /// whatever its text: two runs agree at every place where both queues
    /// hold a `Test`.
    pub proof fn lemma_test_yields_fixed_answer(self, i: int, other: PadState, j: int)
        requires
            0 <= i < self.queue.len(),
            0 <= j < other.queue.len(),
            self.queue[i] is Test,
            other.queue[j] is Test,
        ensures
            self.executed().results[i] == test_output(),
            self.executed().results[i] == other.executed().results[j],
    {
    }

    /// A run right after the queue was emptied produces no results.
    pub proof fn lemma_run_after_clear_yields_nothing(self)
        ensures
            self.cleared().executed().results == Seq::<Seq<char>>::empty(),
    {
        assert(self.cleared().executed().results =~= Seq::<Seq<char>>::empty());
    }
}

impl View for FunctionsState {
    type V = PadState;

    open spec fn view(&self) -> PadState {
        PadState {
            templates: self.commands_edit@.map_values(|c: UserFunctions| c@),
            queue: self.commands_execute@.map_values(|c: UserFunctions| c@),
            results: self.command_results@.map_values(|s: String| s@),
        }
    }
}

impl Default for FunctionsState {
    fn default() -> (state: FunctionsState)
        ensures
            state@ == PadState::initial(),
    {
        let state = FunctionsState {
            commands_edit: [UserFunctions::Print(String::new()), UserFunctions::Test(String::new())],
            commands_execute: Vec::new(),
            command_results: Vec::new(),
        };
        assert(state@.templates =~= PadState::initial().templates);
        assert(state@.queue =~= PadState::initial().queue);
        assert(state@.results =~= PadState::initial().results);
        state
    }
}

impl FunctionsState {
    /// Runs the queue: the results become the outputs of the queued
    /// commands, in queue order. Templates and queue stay as they are.
    pub fn execute(&mut self)
        ensures
            final(self)@ == old(self)@.executed(),
    {
        self.command_results.clear();
        let n: usize = self.commands_execute.len();
        for i in 0..n
            invariant
                n == self.commands_execute.len(),
                self.commands_edit == old(self).commands_edit,
                self.commands_execute == old(self).commands_execute,
                self.command_results.len() == i,
                forall|j: int| 0 <= j < i ==> self.command_results[j]@ == self.commands_execute[j]@.output(),
        {
            let output = self.commands_execute[i].run();
            self.command_results.push(output);
        }
        assert(self@.results =~= old(self)@.executed().results);
    }

    /// Empties the queue. Templates and results stay as they are.
    pub fn clear(&mut self)
        ensures
            final(self)@ == old(self)@.cleared(),
    {
        self.commands_execute.clear();
        assert(self@.queue =~= old(self)@.cleared().queue);
    }

    /// Puts `picked`, if there is one, at the end of the queue.
    pub fn enqueue(&mut self, picked: Option<UserFunctions>)
        ensures
            final(self)@ == match picked {
                Some(command) => old(self)@.queued(command@),
                None => old(self)@,
            },
    {
        if let Some(command) = picked {
            self.commands_execute.push(command);
            assert(self@.queue =~= old(self)@.queue.push(command@));
        }
    }

    /// The lines that show the queue: for each queued command, oldest
    /// first, the name of its kind, a colon and a space, then its text.
    pub fn queue_lines(&self) -> (lines: Vec<String>)
        ensures
            lines@.len() == self@.queue.len(),
            forall|i: int| 0 <= i < lines@.len() ==> (#[trigger] lines@[i])@ == self@.queue[i].line(),
    {
        let mut lines: Vec<String> = Vec::new();
        let n: usize = self.commands_execute.len();
        for i in 0..n
            invariant
                n == self.commands_execute.len(),
                lines.len() == i,
                forall|j: int| 0 <= j < i ==> lines[j]@ == self.commands_execute[j]@.line(),
        {
            let line = self.commands_execute[i].to_string();
            lines.push(line);
        }
        lines
    }

    /// Does what the `Execute` and the `Clear` button stand for: with
    /// `execute` the queue is run, and with `clear` it is then emptied.
    pub fn apply_controls(&mut self, execute: bool, clear: bool)
        ensures
            final(self)@ == old(self)@.controlled(execute, clear),
    {
        if execute {
            self.execute();
        }
        if clear {
            self.clear();
        }
    }
}

} // verus!
