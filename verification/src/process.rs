//! The spawner that runs workers as processes of the operating system: the
//! command lines that start and stop them.

use vstd::prelude::*;
use vstd::string::StringExecFns;
use crate::clock::now_ms;
use crate::id::RuntimeId;
use crate::runtime::{Runtime, RuntimeView};

verus! {

/// The variable in a worker's environment that names the gateway.
pub const RUNTIME_API_VARIABLE: &'static str = "AWS_LAMBDA_RUNTIME_API";

/// The address on which the gateway listens, as a worker is told it.
pub const RUNTIME_API_ADDRESS: &'static str = "localhost:9001";

/// The decimal digit `digit`, as a string.
pub open spec fn digit_of(digit: nat) -> Seq<char> {
    if digit == 0 {
        "0"@
    } else if digit == 1 {
        "1"@
    } else if digit == 2 {
        "2"@
    } else if digit == 3 {
        "3"@
    } else if digit == 4 {
        "4"@
    } else if digit == 5 {
        "5"@
    } else if digit == 6 {
        "6"@
    } else if digit == 7 {
        "7"@
    } else if digit == 8 {
        "8"@
    } else {
        "9"@
    }
}

/// The number `n` in decimal digits, without leading zeros.
pub open spec fn decimal(n: nat) -> Seq<char>
    decreases n,
{
    if n < 10 {
        digit_of(n)
    } else {
        decimal(n / 10) + digit_of(n % 10)
    }
}

fn digit_string(digit: u32) -> (s: &'static str)
    requires
        digit < 10,
    ensures
        s@ == digit_of(digit as nat),
{
    if digit == 0 {
        "0"
    } else if digit == 1 {
        "1"
    } else if digit == 2 {
        "2"
    } else if digit == 3 {
        "3"
    } else if digit == 4 {
        "4"
    } else if digit == 5 {
        "5"
    } else if digit == 6 {
        "6"
    } else if digit == 7 {
        "7"
    } else if digit == 8 {
        "8"
    } else {
        "9"
    }
}

/// Writes a process id in decimal digits.
pub fn decimal_string(n: u32) -> (s: String)
    ensures
        s@ == decimal(n as nat),
    decreases n,
{
    if n < 10 {
        digit_string(n).to_owned()
    } else {
        decimal_string(n / 10).concat(digit_string(n % 10))
    }
}

/// The worker that runs as the process `pid` and was born at `start`: its
/// identifier is the process id in decimal digits.
pub fn process_runtime(pid: u32, start: u64) -> (runtime: Runtime)
    ensures
        runtime@ == (RuntimeView { id: decimal(pid as nat), start }),
{
    Runtime::new(RuntimeId(decimal_string(pid)), start)
}

/// The error of a worker that could not be started, with the reason that
/// the operating system gave.
pub fn spawn_failure(reason: &str) -> (message: String)
    ensures
        message@ == "Failed to spawn process: "@ + reason@,
{
    "Failed to spawn process: ".to_owned().concat(reason)
}

/// The error of a kill command that could not be started, with the reason
/// that the operating system gave.
pub fn kill_failure(reason: &str) -> (message: String)
    ensures
        message@ == "Failed to kill process: "@ + reason@,
{
    "Failed to kill process: ".to_owned().concat(reason)
}

/// The error of a kill command whose end could not be awaited, with the
/// reason that the operating system gave.
pub fn wait_failure(reason: &str) -> (message: String)
    ensures
        message@ == "Failed to wait for process: "@ + reason@,
{
    "Failed to wait for process: ".to_owned().concat(reason)
}

/// A command to run: a program, its arguments, and what is added to its
/// environment.
#[derive(Debug, PartialEq, Eq)]
pub struct ProcessCommand {
    pub program: String,
    pub args: Vec<String>,
    pub env: Vec<(String, String)>,
}

/// The order to start a worker: the command to run, and the time that counts
/// as the worker's birth, which is taken before the command runs.
#[derive(Debug, PartialEq, Eq)]
pub struct SpawnOrder {
    pub command: ProcessCommand,
    pub start: u64,
}

impl SpawnOrder {
    /// The worker that the order brought forth as the process `pid`.
    pub fn started(&self, pid: u32) -> (runtime: Runtime)
        ensures
            runtime@ == (RuntimeView { id: decimal(pid as nat), start: self.start }),
    {
        process_runtime(pid, self.start)
    }
}

/// What a sequence of strings is.
pub open spec fn strings_of(strings: Seq<String>) -> Seq<Seq<char>> {
    Seq::new(strings.len(), |i: int| strings[i]@)
}

/// The configuration of the process spawner: the worker's executable and its
/// arguments.
#[derive(Debug)]
pub struct RuntimeProcessGenerator {
    cmd: String,
    args: Vec<String>,
}

fn clone_strings(strings: &Vec<String>) -> (copy: Vec<String>)
    ensures
        copy@ == strings@,
{
    let mut copy: Vec<String> = Vec::new();
    let mut i: usize = 0;
    while i < strings.len()
        invariant
            i <= strings.len(),
            copy@ == strings@.take(i as int),
        decreases strings.len() - i,
    {
        copy.push(strings[i].clone());
        assert(copy@ == strings@.take(i + 1));
        i += 1;
    }
    assert(strings@.take(i as int) == strings@);
    copy
}

impl RuntimeProcessGenerator {
    /// The executable of the workers.
    pub closed spec fn program(&self) -> Seq<char> {
        self.cmd@
    }

    /// The arguments of the workers.
    pub closed spec fn arguments(&self) -> Seq<Seq<char>> {
        strings_of(self.args@)
    }

    pub fn new(cmd: String, args: Vec<String>) -> (generator: Self)
        ensures
            generator.program() == cmd@,
            generator.arguments() == strings_of(args@),
    {
        Self { cmd, args }
    }

    /// The command that starts a worker: the configured executable with the
    /// configured arguments, told in its environment where the gateway listens.
    pub fn spawn_command(&self) -> (command: ProcessCommand)
        ensures
            command.program@ == self.program(),
            strings_of(command.args@) == self.arguments(),
            command.env@.len() == 1,
            command.env@[0].0@ == RUNTIME_API_VARIABLE@,
            command.env@[0].1@ == RUNTIME_API_ADDRESS@,
    {
        let mut env: Vec<(String, String)> = Vec::new();
        env.push((RUNTIME_API_VARIABLE.to_owned(), RUNTIME_API_ADDRESS.to_owned()));
        ProcessCommand { program: self.cmd.clone(), args: clone_strings(&self.args), env }
    }

    /// The order to start a worker now: `spawn_command`, with the time on the
    /// system's clock as the worker's birth.
    pub fn spawn_order(&self) -> (order: SpawnOrder)
        ensures
            order.command.program@ == self.program(),
            strings_of(order.command.args@) == self.arguments(),
            order.command.env@.len() == 1,
            order.command.env@[0].0@ == RUNTIME_API_VARIABLE@,
            order.command.env@[0].1@ == RUNTIME_API_ADDRESS@,
    {
        let start = now_ms();
        SpawnOrder { command: self.spawn_command(), start }
    }

    /// The command that stops the worker `runtime_id`: `kill -9` with the
    /// worker's process id.
    pub fn kill_command(&self, runtime_id: &RuntimeId) -> (command: ProcessCommand)
        ensures
            command.program@ == "kill"@,
            command.args@.len() == 2,
            command.args@[0]@ == "-9"@,
            command.args@[1]@ == runtime_id@,
            command.env@.len() == 0,
    {
        let mut args: Vec<String> = Vec::new();
        args.push("-9".to_owned());
        args.push(runtime_id.0.clone());
        ProcessCommand { program: "kill".to_owned(), args, env: Vec::new() }
    }
}

impl Clone for RuntimeProcessGenerator {
    fn clone(&self) -> (copy: Self)
        ensures
            copy.program() == self.program(),
            copy.arguments() == self.arguments(),
    {
        Self { cmd: self.cmd.clone(), args: clone_strings(&self.args) }
    }
}

} // verus!
