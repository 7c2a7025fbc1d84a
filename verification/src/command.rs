//! Dispatch of one line of input.

use vstd::prelude::*;

verus! {

/// What one line of input asks for. Three literal words are commands; any
/// other line is a question for the model.
#[derive(Clone, Copy, Debug, PartialEq, Eq, Structural)]
pub enum Command {
    /// The word `exit`: print the farewell and stop with success.
    Exit,
    /// The word `reset`: restore the transcript to the startup seed.
    Reset,
    /// The word `v`: collect the turn's text from an editor instead.
    OpenEditor,
    /// Anything else: the line itself is the turn's text.
    Ask,
}

/// Decide what a line of input asks for. Each command answers to exactly one
/// literal word, and every other line is a question.
pub fn classify(input: &String) -> (c: Command)
    ensures
        (c == Command::Exit) <==> input@ == "exit"@,
        (c == Command::Reset) <==> input@ == "reset"@,
        (c == Command::OpenEditor) <==> input@ == "v"@,
        (c == Command::Ask) <==> (input@ != "exit"@ && input@ != "reset"@ && input@ != "v"@),
{
    proof {
        reveal_strlit("exit");
        reveal_strlit("reset");
        reveal_strlit("v");
        assert("exit"@.len() == 4);
        assert("reset"@.len() == 5);
        assert("v"@.len() == 1);
    }
    if *input == "exit".to_owned() {
        Command::Exit
    } else if *input == "reset".to_owned() {
        Command::Reset
    } else if *input == "v".to_owned() {
        Command::OpenEditor
    } else {
        Command::Ask
    }
}

/// The goodbye printed when the session ends on `exit`.
pub fn farewell() -> (s: String)
    ensures
        s@ == "Bye!"@,
{
    "Bye!".to_owned()
}

} // verus!
