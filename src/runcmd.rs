use vstd::prelude::*;
use vstd::utf8::{decode_utf8, valid_utf8};
use crate::report::{report_of, report_text};

verus! {

/// What one run of a command produced.
#[derive(Clone, Debug)]
pub struct RunCmdOutput {
    pub cmd: String,
    pub stdout: String,
    pub stderr: String,
    pub exitcode: i32,
}

/// The mathematical value of a [`RunCmdOutput`].
pub ghost struct OutputModel {
    pub cmd: Seq<char>,
    pub stdout: Seq<char>,
    pub stderr: Seq<char>,
    pub exitcode: i32,
}

impl View for RunCmdOutput {
    type V = OutputModel;

    open spec fn view(&self) -> OutputModel {
        OutputModel {
            cmd: self.cmd@,
            stdout: self.stdout@,
            stderr: self.stderr@,
            exitcode: self.exitcode,
        }
    }
}

/// A command to run, with its settings and the result of its last run.
pub struct RunCmd {
    retval: RunCmdOutput,
    verbose: bool,
    shell: bool,
}

/// The mathematical value of a [`RunCmd`]: the settings and the last result.
pub ghost struct RunCmdModel {
    pub last: OutputModel,
    pub verbose: bool,
    pub shell: bool,
}

impl View for RunCmd {
    type V = RunCmdModel;

    closed spec fn view(&self) -> RunCmdModel {
        RunCmdModel { last: self.retval@, verbose: self.verbose, shell: self.shell }
    }
}

/// How a launched process ended, as the operating system reported it: its
/// exit code, absent when a signal stopped it, and the bytes it wrote to the
/// captured streams (empty where the output was not captured).
pub struct Termination {
    pub code: Option<i32>,
    pub stdout: Vec<u8>,
    pub stderr: Vec<u8>,
}

/// The mathematical value of a [`Termination`].
pub ghost struct TerminationModel {
    pub code: Option<i32>,
    pub stdout: Seq<u8>,
    pub stderr: Seq<u8>,
}

impl View for Termination {
    type V = TerminationModel;

    open spec fn view(&self) -> TerminationModel {
        TerminationModel { code: self.code, stdout: self.stdout@, stderr: self.stderr@ }
    }
}

/// How to start a process: the command text, whether a shell interprets it,
/// and whether its stdout and stderr go to pipes (else the child inherits the
/// caller's streams).
pub struct Launch {
    pub cmd: String,
    pub shell: bool,
    pub capture: bool,
}

/// The mathematical value of a [`Launch`].
pub ghost struct LaunchModel {
    pub cmd: Seq<char>,
    pub shell: bool,
    pub capture: bool,
}

impl View for Launch {
    type V = LaunchModel;

    open spec fn view(&self) -> LaunchModel {
        LaunchModel { cmd: self.cmd@, shell: self.shell, capture: self.capture }
    }
}

/// Why a run did not succeed.
#[derive(Clone, Copy, Debug, PartialEq, Eq, Structural)]
pub enum RunError {
    /// A captured stream was not well-formed UTF-8.
    InvalidEncoding,
    /// The command had to succeed and ended with this code instead of 0
    /// (-1 where a signal stopped it).
    NonZeroExit(i32),
}

/// The exit code recorded for a process that a signal stopped.
pub const INTERRUPTED_CODE: i32 = -1;

/// The stderr text recorded for a process that a signal stopped.
pub open spec fn interrupted_text() -> Seq<char> {
    "Interrupted! in RunCmd"@
}

/// How a run of `s` is launched; `must_succeed` tells the checked run from
/// the run that returns its result. Output is captured when the report is
/// printed or the result goes back to the caller.
pub open spec fn launch_spec(s: RunCmdModel, must_succeed: bool) -> LaunchModel {
    LaunchModel { cmd: s.last.cmd, shell: s.shell, capture: s.verbose || !must_succeed }
}

/// The result of a run of `s` that ended as `t`: the decoded streams and the
/// exit code, where a captured stream that is not UTF-8 is an error. A process
/// stopped by a signal always has a result: the sentinel code, the fixed
/// stderr text, and its stdout where that decodes (else the stdout held from
/// before).
pub open spec fn output_spec(s: RunCmdModel, t: TerminationModel) -> Result<OutputModel, RunError> {
    match t.code {
        Some(c) => if valid_utf8(t.stdout) && valid_utf8(t.stderr) {
            Ok(
                OutputModel {
                    cmd: s.last.cmd,
                    stdout: decode_utf8(t.stdout),
                    stderr: decode_utf8(t.stderr),
                    exitcode: c,
                },
            )
        } else {
            Err(RunError::InvalidEncoding)
        },
        None => Ok(
            OutputModel {
                cmd: s.last.cmd,
                stdout: if valid_utf8(t.stdout) {
                    decode_utf8(t.stdout)
                } else {
                    s.last.stdout
                },
                stderr: interrupted_text(),
                exitcode: INTERRUPTED_CODE,
            },
        ),
    }
}

/// The state after a run of `s` that ended as `t`: it keeps the result when
/// there is one.
pub open spec fn after_spec(s: RunCmdModel, t: TerminationModel) -> RunCmdModel {
    match output_spec(s, t) {
        Ok(m) => RunCmdModel { last: m, ..s },
        Err(_) => s,
    }
}

/// The outcome of a run of `s` that ended as `t` and had to exit with 0.
pub open spec fn execute_spec(s: RunCmdModel, t: TerminationModel) -> Result<(), RunError> {
    match output_spec(s, t) {
        Ok(m) => if m.exitcode == 0 {
            Ok(())
        } else {
            Err(RunError::NonZeroExit(m.exitcode))
        },
        Err(e) => Err(e),
    }
}

/// Relies on String::from_utf8: it accepts exactly the well-formed UTF-8
/// byte sequences, and the string then holds the characters they encode.
#[verifier::external_body]
fn utf8_text(bytes: Vec<u8>) -> (r: Option<String>)
    ensures
        r is Some <==> valid_utf8(bytes@),
        r matches Some(s) ==> s@ == decode_utf8(bytes@),
{
    String::from_utf8(bytes).ok()
}

/// The result held by a command that has not run yet.
pub open spec fn fresh_output(cmd: Seq<char>) -> OutputModel {
    OutputModel { cmd, stdout: Seq::empty(), stderr: Seq::empty(), exitcode: 0 }
}

impl RunCmd {
    /// A command with the given text, run directly, not verbose.
    pub fn new(cmd: &str) -> (r: RunCmd)
        ensures
            r@ == (RunCmdModel { last: fresh_output(cmd@), verbose: false, shell: false }),
    {
        RunCmd {
            retval: RunCmdOutput {
                cmd: String::from_str(cmd),
                stdout: String::new(),
                stderr: String::new(),
                exitcode: 0,
            },
            verbose: false,
            shell: false,
        }
    }

    /// Print the command, its output and its exit code after each run; the
    /// output is then always captured.
    pub fn verbose(&mut self) -> (r: &mut RunCmd)
        ensures
            r@ == (RunCmdModel { verbose: true, ..old(self)@ }),
            final(self)@ == final(r)@,
    {
        self.verbose = true;
        self
    }

    /// Run the command text through the system shell.
    pub fn shell(&mut self) -> (r: &mut RunCmd)
        ensures
            r@ == (RunCmdModel { shell: true, ..old(self)@ }),
            final(self)@ == final(r)@,
    {
        self.shell = true;
        self
    }

    /// How to start the process for a run; `must_succeed` is set for
    /// [`RunCmd::execute`] and clear for [`RunCmd::execute_output`].
    pub fn launch(&self, must_succeed: bool) -> (r: Launch)
        ensures
            r@ == launch_spec(self@, must_succeed),
    {
        Launch {
            cmd: self.retval.cmd.clone(),
            shell: self.shell,
            capture: self.verbose || !must_succeed,
        }
    }

    /// Record how the process ended and return a copy of the result.
    pub fn execute_output(&mut self, t: Termination) -> (r: Result<RunCmdOutput, RunError>)
        ensures
            r matches Ok(o) ==> output_spec(old(self)@, t@) == Ok::<OutputModel, RunError>(o@),
            r matches Err(e) ==> output_spec(old(self)@, t@) == Err::<OutputModel, RunError>(e),
            final(self)@ == after_spec(old(self)@, t@),
    {
        let (exitcode, stdout, stderr) = match t.code {
            Some(c) => {
                let out = match utf8_text(t.stdout) {
                    Some(o) => o,
                    None => return Err(RunError::InvalidEncoding),
                };
                match utf8_text(t.stderr) {
                    Some(e) => (c, out, e),
                    None => return Err(RunError::InvalidEncoding),
                }
            },
            None => {
                let out = match utf8_text(t.stdout) {
                    Some(o) => o,
                    None => self.retval.stdout.clone(),
                };
                (INTERRUPTED_CODE, out, String::from_str("Interrupted! in RunCmd"))
            },
        };
        self.retval = RunCmdOutput { cmd: self.retval.cmd.clone(), stdout, stderr, exitcode };
        Ok(self.snapshot())
    }

    /// Record how the process ended; succeed only on exit code 0.
    pub fn execute(&mut self, t: Termination) -> (r: Result<(), RunError>)
        ensures
            r == execute_spec(old(self)@, t@),
            final(self)@ == after_spec(old(self)@, t@),
    {
        match self.execute_output(t) {
            Ok(o) => if o.exitcode == 0 {
                Ok(())
            } else {
                Err(RunError::NonZeroExit(o.exitcode))
            },
            Err(e) => Err(e),
        }
    }

    /// The report to print after the last run: present exactly when the
    /// command is verbose.
    pub fn report(&self) -> (r: Option<String>)
        ensures
            r matches Some(t) ==> self@.verbose && t@ == report_text(self@.last),
            r is None ==> !self@.verbose,
    {
        if self.verbose {
            Some(report_of(&self.retval))
        } else {
            None
        }
    }

    /// A copy of the last result.
    fn snapshot(&self) -> (r: RunCmdOutput)
        ensures
            r@ == self@.last,
    {
        RunCmdOutput {
            cmd: self.retval.cmd.clone(),
            stdout: self.retval.stdout.clone(),
            stderr: self.retval.stderr.clone(),
            exitcode: self.retval.exitcode,
        }
    }
}

/// A checked run of a command that exits with code 0 succeeds, provided what
/// it wrote to the captured streams is UTF-8 (as an empty stream is).
pub proof fn lemma_zero_exit_succeeds(s: RunCmdModel, t: TerminationModel)
    requires
        t.code == Some(0i32),
        valid_utf8(t.stdout),
        valid_utf8(t.stderr),
    ensures
        execute_spec(s, t) == Ok::<(), RunError>(()),
{
}

/// A checked run of a command that exits with a nonzero code fails, and with
/// that code when its output decodes.
pub proof fn lemma_nonzero_exit_fails(s: RunCmdModel, t: TerminationModel, c: i32)
    requires
        t.code == Some(c),
        c != 0,
    ensures
        execute_spec(s, t) is Err,
        valid_utf8(t.stdout) && valid_utf8(t.stderr) ==> execute_spec(s, t) == Err::<(), RunError>(
            RunError::NonZeroExit(c),
        ),
{
}

/// Verbose mode changes neither how a run that returns its result is
/// launched nor the result it records and returns.
pub proof fn lemma_verbose_keeps_result(s: RunCmdModel, t: TerminationModel)
    ensures
        launch_spec(RunCmdModel { verbose: true, ..s }, false) == launch_spec(
            RunCmdModel { verbose: false, ..s },
            false,
        ),
        output_spec(RunCmdModel { verbose: true, ..s }, t) == output_spec(
            RunCmdModel { verbose: false, ..s },
            t,
        ),
        after_spec(RunCmdModel { verbose: true, ..s }, t).last == after_spec(
            RunCmdModel { verbose: false, ..s },
            t,
        ).last,
{
}

/// Running a command a second time, where the process ends the same way,
/// launches it the same way and yields the same result and state as the
/// first run.
pub proof fn lemma_repeat_run_same_result(s: RunCmdModel, t: TerminationModel, must_succeed: bool)
    ensures
        launch_spec(after_spec(s, t), must_succeed) == launch_spec(s, must_succeed),
        output_spec(after_spec(s, t), t) == output_spec(s, t),
        execute_spec(after_spec(s, t), t) == execute_spec(s, t),
        after_spec(after_spec(s, t), t) == after_spec(s, t),
{
}

/// A process stopped by a signal yields a result, never an error, with the
/// sentinel exit code and the fixed stderr text, whatever it wrote to its real
/// stderr; its stdout is kept where it decodes.
pub proof fn lemma_signal_gives_sentinel(s: RunCmdModel, t: TerminationModel, other: Seq<u8>)
    requires
        t.code is None,
    ensures
        output_spec(s, t) matches Ok(m) && m.exitcode == -1i32 && m.stderr == interrupted_text()
            && m.cmd == s.last.cmd,
        valid_utf8(t.stdout) ==> (output_spec(s, t) matches Ok(m) && m.stdout == decode_utf8(
            t.stdout,
        )),
        output_spec(s, TerminationModel { stderr: other, ..t }) == output_spec(s, t),
{
}

} // verus!
