//! The process-spawn operation: its fixed launch request and the reply built
//! from what the launch produced.
use vstd::prelude::*;
use vstd::string::StringExecFns;

verus! {

/// Program that the operation launches: the shell's text-echo utility.
pub open spec fn echo_program() -> Seq<char> {
    "echo"@
}

/// The confirmation text handed to `echo` as its single argument.
pub open spec fn echo_message() -> Seq<char> {
    "Process spawning works!"@
}

/// A process to launch: a program name and its argument list.
pub struct SpawnRequest {
    pub program: String,
    pub args: Vec<String>,
}

impl SpawnRequest {
    /// The argument list as text.
    pub open spec fn args_view(&self) -> Seq<Seq<char>> {
        self.args@.map_values(|a: String| a@)
    }
}

/// The launch request of the operation: `echo` with the confirmation text as
/// its one argument. It is the same on every call.
pub fn echo_request() -> (r: SpawnRequest)
    ensures
        r.program@ == echo_program(),
        r.args_view() == seq![echo_message()],
{
    let program = String::from_str("echo");
    let mut args: Vec<String> = Vec::new();
    args.push(String::from_str("Process spawning works!"));
    let r = SpawnRequest { program, args };
    assert(r.args_view() =~= seq![echo_message()]);
    r
}

/// Label that opens every spawn-failure description.
pub open spec fn spawn_failure_prefix() -> Seq<char> {
    "Failed to spawn process: "@
}

/// The only failure the operation reports: the process could not be launched.
/// `detail` is the underlying launch error as text.
pub enum BridgeError {
    SpawnFailure { detail: String },
}

impl BridgeError {
    /// The description sent back to the host: the fixed label, then the detail.
    pub open spec fn description_spec(&self) -> Seq<char> {
        match self {
            BridgeError::SpawnFailure { detail } => spawn_failure_prefix() + detail@,
        }
    }

    pub fn description(&self) -> (r: String)
        ensures
            r@ == self.description_spec(),
    {
        match self {
            BridgeError::SpawnFailure { detail } => {
                let mut text = String::from_str("Failed to spawn process: ");
                text.append(detail.as_str());
                text
            },
        }
    }
}

/// A reply as the host sees it: the captured text, or an error description.
pub open spec fn reply_view(r: Result<String, String>) -> Result<Seq<char>, Seq<char>> {
    match r {
        Ok(text) => Ok(text@),
        Err(text) => Err(text@),
    }
}

/// The reply owed for a launch outcome. A launched process is a success
/// whatever it printed (possibly nothing) and whatever its exit status; its
/// output is passed on verbatim, trailing newline included. A failed launch
/// becomes the labelled failure description.
pub open spec fn invocation_reply(launched: Result<Seq<char>, Seq<char>>) -> Result<
    Seq<char>,
    Seq<char>,
> {
    match launched {
        Ok(output) => Ok(output),
        Err(detail) => Err(spawn_failure_prefix() + detail),
    }
}

/// A launched process's output comes back as the reply, unchanged.
pub proof fn lemma_output_is_reply(output: Seq<char>)
    ensures
        invocation_reply(Ok(output)) == Ok::<Seq<char>, Seq<char>>(output),
{
}

/// A failed launch comes back as an error whose description opens with the
/// fixed label and continues with exactly the launch error, so a non-empty
/// launch error leaves a non-empty detail after the label.
pub proof fn lemma_failure_description(detail: Seq<char>)
    ensures
        invocation_reply(Err(detail)) is Err,
        ({
            let text = invocation_reply(Err(detail))->Err_0;
            &&& text.len() == spawn_failure_prefix().len() + detail.len()
            &&& text.subrange(0, spawn_failure_prefix().len() as int) == spawn_failure_prefix()
            &&& text.subrange(spawn_failure_prefix().len() as int, text.len() as int) == detail
            &&& detail.len() > 0 ==> text.len() > spawn_failure_prefix().len()
        }),
{
    let text = spawn_failure_prefix() + detail;
    assert(text.subrange(0, spawn_failure_prefix().len() as int) =~= spawn_failure_prefix());
    assert(text.subrange(spawn_failure_prefix().len() as int, text.len() as int) =~= detail);
}

/// Invoking the operation again, where the launch turns out the same, gives
/// the same reply, and a successful reply holds the same text each time.
pub proof fn lemma_repeated_invocations_agree(
    first: Result<Seq<char>, Seq<char>>,
    second: Result<Seq<char>, Seq<char>>,
)
    requires
        first == second,
    ensures
        invocation_reply(first) == invocation_reply(second),
        first is Ok ==> invocation_reply(first) == Ok::<Seq<char>, Seq<char>>(first->Ok_0)
            && invocation_reply(second) == Ok::<Seq<char>, Seq<char>>(first->Ok_0),
{
}

/// Two invocations do not mix: each reply is built from its own launch
/// outcome alone, and two different outcomes never give the same reply.
pub proof fn lemma_invocations_independent(
    first: Result<Seq<char>, Seq<char>>,
    second: Result<Seq<char>, Seq<char>>,
)
    ensures
        invocation_reply(first) == invocation_reply(second) <==> first == second,
        first is Ok ==> invocation_reply(first) == Ok::<Seq<char>, Seq<char>>(first->Ok_0),
        second is Ok ==> invocation_reply(second) == Ok::<Seq<char>, Seq<char>>(second->Ok_0),
{
    if invocation_reply(first) == invocation_reply(second) {
        if first is Err && second is Err {
            let p = spawn_failure_prefix();
            let a = p + first->Err_0;
            let b = p + second->Err_0;
            assert(a.subrange(p.len() as int, a.len() as int) =~= first->Err_0);
            assert(b.subrange(p.len() as int, b.len() as int) =~= second->Err_0);
        }
    }
}

/// Builds the operation's reply from the outcome of launching the process:
/// `Ok` with the captured standard output, or `Err` with the launch error.
pub fn test_process_spawn(launched: Result<String, String>) -> (r: Result<String, String>)
    ensures
        reply_view(r) == invocation_reply(reply_view(launched)),
{
    match launched {
        Ok(output) => Ok(output),
        Err(detail) => {
            let failure = BridgeError::SpawnFailure { detail };
            Err(failure.description())
        },
    }
}

} // verus!
