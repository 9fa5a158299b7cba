use vstd::prelude::*;

verus! {

/// What a CLI command hands back: an exit code and the texts for standard
/// output and standard error.
#[derive(Debug, PartialEq, Eq)]
pub struct CliOutput {
    pub code: i32,
    pub stdout: String,
    pub stderr: String,
}

/// The mathematical content of a `CliOutput`.
pub struct OutputView {
    pub code: int,
    pub stdout: Seq<char>,
    pub stderr: Seq<char>,
}

impl View for CliOutput {
    type V = OutputView;

    open spec fn view(&self) -> OutputView {
        OutputView { code: self.code as int, stdout: self.stdout@, stderr: self.stderr@ }
    }
}

/// A successful outcome: exit code 0, `text` on standard output.
pub open spec fn succeeded(text: Seq<char>) -> OutputView {
    OutputView { code: 0, stdout: text, stderr: Seq::empty() }
}

/// A failed outcome: exit code `code`, `text` on standard error.
pub open spec fn failed_with(code: int, text: Seq<char>) -> OutputView {
    OutputView { code, stdout: Seq::empty(), stderr: text }
}

/// The usual failure: exit code 1, `text` on standard error.
pub open spec fn failed(text: Seq<char>) -> OutputView {
    failed_with(1, text)
}

impl OutputView {
    /// Every outcome writes to one stream only: a zero exit code goes with an
    /// empty standard error, any other code with an empty standard output.
    pub open spec fn one_stream(self) -> bool {
        &&& self.code == 0 ==> self.stderr.len() == 0
        &&& self.code != 0 ==> self.stdout.len() == 0
    }
}

impl CliOutput {
    /// Exit code 0 with `stdout` as the output text.
    pub fn success(stdout: String) -> (o: CliOutput)
        ensures
            o@ == succeeded(stdout@),
    {
        CliOutput { code: 0, stdout, stderr: String::new() }
    }

    /// Exit code 1 with `stderr` as the error text.
    pub fn failure(stderr: String) -> (o: CliOutput)
        ensures
            o@ == failed(stderr@),
    {
        CliOutput { code: 1, stdout: String::new(), stderr }
    }

    /// Exit code `code` with `stderr` as the error text.
    pub fn failure_code(code: i32, stderr: String) -> (o: CliOutput)
        ensures
            o@ == failed_with(code as int, stderr@),
    {
        CliOutput { code, stdout: String::new(), stderr }
    }

    /// Exit code 1 with the error line `grok: <message>`.
    pub fn grok_error(message: &str) -> (o: CliOutput)
        ensures
            o@ == failed("grok: "@ + message@ + "\n"@),
    {
        CliOutput::failure(crate::text::join3("grok: ", message, "\n"))
    }
}

} // verus!
