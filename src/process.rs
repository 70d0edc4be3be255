//! Exit statuses and outputs of child processes, carrying the command's description.
use vstd::prelude::*;
use crate::chain::{add_context, chain_of, error_msg, flatten, render};
use crate::describe::{decimal, decimal_text};

verus! {

/// How a child process ended, together with the description of its command. The process
/// succeeded exactly when it exited with code 0.
#[derive(Debug)]
pub struct ExitStatus {
    code: Option<i32>,
    cmddesc: String,
}

/// The outcome of a finished child process: its status and everything it wrote.
#[derive(Debug)]
pub struct Output {
    pub status: ExitStatus,
    pub stdout: Vec<u8>,
    pub stderr: Vec<u8>,
}

/// The layer that names the exit code of a failed status, or `n/a` where there is none.
pub open spec fn status_text(code: Option<i32>) -> Seq<char> {
    "status: "@ + match code {
        Some(c) => decimal_text(c as int),
        None => "n/a"@,
    }
}

/// The root message of a failed status.
pub open spec fn error_exit_text() -> Seq<char> {
    "error exit status"@
}

/// The chain of the failure that a failed status with exit code `code` reports.
pub open spec fn exit_failure_chain(code: Option<i32>) -> Seq<Seq<char>> {
    seq![status_text(code), error_exit_text()]
}

/// Whether a process with exit code `code` succeeded: it exited, with code 0.
pub open spec fn succeeded(code: Option<i32>) -> bool {
    code == Some(0i32)
}

/// The code that the process ends with when it mirrors a status: the exit code (0 on
/// success), or -1 where there is none.
pub open spec fn mirrored_exit_code(code: Option<i32>) -> i32 {
    match code {
        Some(c) => c,
        None => -1i32,
    }
}

impl ExitStatus {
    /// Whether the process reported success.
    pub open spec fn is_success(&self) -> bool {
        succeeded(self.exit_code())
    }

    /// The exit code, absent where the process ended otherwise (by a signal).
    pub closed spec fn exit_code(&self) -> Option<i32> {
        self.code
    }

    /// The description of the command that ran.
    pub closed spec fn command_of(&self) -> Seq<char> {
        self.cmddesc@
    }

    /// Pairs the exit code that the platform reported of a finished process (absent where
    /// it ended by a signal) with its command.
    pub fn new(code: Option<i32>, cmddesc: String) -> (r: Self)
        ensures
            r.exit_code() == code,
            r.command_of() == cmddesc@,
    {
        ExitStatus { code, cmddesc }
    }

    /// Whether the process reported success.
    pub fn success(&self) -> (r: bool)
        ensures
            r == self.is_success(),
    {
        match self.code {
            Some(c) => c == 0,
            None => false,
        }
    }

    /// The exit code, absent where the process ended otherwise.
    pub fn code(&self) -> (r: Option<i32>)
        ensures
            r == self.exit_code(),
    {
        self.code
    }

    /// The description of the command that ran.
    pub fn command(&self) -> (r: &str)
        ensures
            r@ == self.command_of(),
    {
        self.cmddesc.as_str()
    }

    /// Succeeds where the process did; else fails with the exit code (or `n/a`) as context
    /// above the message `error exit status`.
    pub fn exit_ok(&self) -> (r: Result<(), anyhow::Error>)
        ensures
            r is Ok <==> self.is_success(),
            r is Err ==> chain_of(r->Err_0) == exit_failure_chain(self.exit_code()),
    {
        if self.success() {
            Ok(())
        } else {
            let mut layer = "status: ".to_owned();
            match self.code {
                Some(c) => {
                    let d = decimal(c);
                    layer.append(d.as_str());
                },
                None => {
                    layer.append("n/a");
                },
            }
            let e = add_context(error_msg("error exit status".to_owned()), layer);
            assert(seq![layer@] + seq![error_exit_text()] =~= exit_failure_chain(self.code));
            Err(e)
        }
    }

    /// What ending the current process in the image of this status comes to: the exit code
    /// to end with, and on failure the one-line message to report first.
    pub fn exit_report(&self) -> (r: (i32, Option<String>))
        ensures
            r.0 == mirrored_exit_code(self.exit_code()),
            r.1 is None <==> self.is_success(),
            r.1 is Some ==> r.1->Some_0@ == flatten(exit_failure_chain(self.exit_code())),
    {
        match self.exit_ok() {
            Ok(()) => (0, None),
            Err(e) => {
                let code = match self.code {
                    Some(c) => c,
                    None => -1,
                };
                (code, Some(render(&e)))
            },
        }
    }
}

} // verus!
