//! External commands as plain values: a program and its arguments, built by
//! the library and run by the caller.
use vstd::prelude::*;

use crate::text::owned;

verus! {

/// A program to run with its arguments.
pub struct ShellCommand {
    pub program: String,
    pub args: Vec<String>,
}

/// Model of a [`ShellCommand`].
pub struct CommandView {
    pub program: Seq<char>,
    pub args: Seq<Seq<char>>,
}

impl View for ShellCommand {
    type V = CommandView;

    open spec fn view(&self) -> CommandView {
        CommandView { program: self.program@, args: self.args@.map_values(|a: String| a@) }
    }
}

/// The model of a list of texts.
pub open spec fn texts(v: Seq<String>) -> Seq<Seq<char>> {
    v.map_values(|a: String| a@)
}

/// A command with no argument.
pub fn command0(program: &str) -> (c: ShellCommand)
    ensures
        c@.program == program@,
        c@.args == Seq::<Seq<char>>::empty(),
{
    let c = ShellCommand { program: owned(program), args: Vec::new() };
    assert(c@.args =~= Seq::<Seq<char>>::empty());
    c
}

/// A command with one argument.
pub fn command1(program: &str, a: String) -> (c: ShellCommand)
    ensures
        c@.program == program@,
        c@.args == seq![a@],
{
    let mut args: Vec<String> = Vec::new();
    args.push(a);
    let c = ShellCommand { program: owned(program), args };
    assert(c@.args =~= seq![a@]);
    c
}

/// A command with two arguments.
pub fn command2(program: &str, a: String, b: String) -> (c: ShellCommand)
    ensures
        c@.program == program@,
        c@.args == seq![a@, b@],
{
    let mut args: Vec<String> = Vec::new();
    args.push(a);
    args.push(b);
    let c = ShellCommand { program: owned(program), args };
    assert(c@.args =~= seq![a@, b@]);
    c
}

/// A command with three arguments.
pub fn command3(program: &str, a: String, b: String, d: String) -> (c: ShellCommand)
    ensures
        c@.program == program@,
        c@.args == seq![a@, b@, d@],
{
    let mut args: Vec<String> = Vec::new();
    args.push(a);
    args.push(b);
    args.push(d);
    let c = ShellCommand { program: owned(program), args };
    assert(c@.args =~= seq![a@, b@, d@]);
    c
}

/// A command with any number of arguments.
pub fn command_with(program: &str, args: Vec<String>) -> (c: ShellCommand)
    ensures
        c@.program == program@,
        c@.args == texts(args@),
{
    ShellCommand { program: owned(program), args }
}

/// A PowerShell invocation of a script (`powershell -NoProfile -Command script`).
pub fn powershell(script: &str) -> (c: ShellCommand)
    ensures
        c@.program == "powershell"@,
        c@.args == seq!["-NoProfile"@, "-Command"@, script@],
{
    command3("powershell", owned("-NoProfile"), owned("-Command"), owned(script))
}

} // verus!
