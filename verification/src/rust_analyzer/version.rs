//! The version that the installed rust-analyzer reports about itself.
//!
//! The executable is run with [`VERSION_FLAG`]; the first line of what it
//! prints has the shape
//!
//! ```text
//! rust-analyzer 0.4.1173-standalone (82ff74050 2022-08-17)
//! ```
//!
//! that is: the program's name, a semantic version, and in parentheses a
//! build hash followed by the date of the build.

use vstd::prelude::*;
use vstd::slice::slice_subrange;
use vstd::utf8::{decode_utf8, valid_utf8};

use crate::io::{IoFailure, IoFailureView};
use crate::text::{
    after, after_last, chars_of, find_from, find_last, lemma_first_occurrence,
    lemma_no_occurrence, slice_of, until,
};

verus! {

/// Name of the executable that is asked for its version.
pub const PROGRAM: &'static str = "rust-analyzer";

/// The argument that makes it print its version.
pub const VERSION_FLAG: &'static str = "--version";

/// The two versions that rust-analyzer reports: the date of its build, which
/// is also the tag of the release it came from, and its semantic version.
#[derive(Debug, PartialEq, Eq)]
pub struct Version {
    pub date_version: String,
    pub semantic_version: String,
}

/// Mathematical model of a [`Version`].
pub struct VersionView {
    pub date_version: Seq<char>,
    pub semantic_version: Seq<char>,
}

impl View for Version {
    type V = VersionView;

    open spec fn view(&self) -> VersionView {
        VersionView {
            date_version: self.date_version@,
            semantic_version: self.semantic_version@,
        }
    }
}

impl DeepView for Version {
    type V = VersionView;

    open spec fn deep_view(&self) -> VersionView {
        self@
    }
}

/// Why no version could be had from the installed executable.
#[derive(Debug)]
pub enum Error {
    /// The executable could not be run at all.
    Io(IoFailure),
    /// It ran and reported failure; holds the command line.
    Command(String),
    /// Its first line of output does not have the expected shape; holds the
    /// reason, which quotes the line.
    Parse(String),
}

/// Mathematical model of an [`Error`].
pub enum ErrorView {
    Io(IoFailureView),
    Command(Seq<char>),
    Parse(Seq<char>),
}

impl View for Error {
    type V = ErrorView;

    open spec fn view(&self) -> ErrorView {
        match self {
            Error::Io(failure) => ErrorView::Io(failure@),
            Error::Command(command) => ErrorView::Command(command@),
            Error::Parse(reason) => ErrorView::Parse(reason@),
        }
    }
}

impl ErrorView {
    /// The text shown for the error.
    pub open spec fn message(self) -> Seq<char> {
        match self {
            ErrorView::Io(failure) => failure.message,
            ErrorView::Command(command) => "Failed to execute command: "@ + command,
            ErrorView::Parse(reason) => "Failed to parse rust-analyzer version, Reason: "@
                + reason,
        }
    }
}

impl Error {
    /// The text shown for the error.
    pub fn to_string(&self) -> (text: String)
        ensures
            text@ == self@.message(),
    {
        match self {
            Error::Io(failure) => failure.to_string(),
            Error::Command(command) => {
                let mut text = "Failed to execute command: ".to_owned();
                text.append(command.as_str());
                text
            },
            Error::Parse(reason) => {
                let mut text = "Failed to parse rust-analyzer version, Reason: ".to_owned();
                text.append(reason.as_str());
                text
            },
        }
    }
}

/// The semantic version in a version line: what stands between the first
/// space and the next one.
pub open spec fn semantic_version_of(line: Seq<char>) -> Seq<char> {
    until(after(line, ' '), ' ')
}

/// The date version in a version line: inside the last parenthesis, what
/// stands between the space that ends the build hash and the closing
/// parenthesis.
pub open spec fn date_version_of(line: Seq<char>) -> Seq<char> {
    until(after(after_last(line, '('), ' '), ')')
}

/// The reason given when a version line holds no `what`.
pub open spec fn missing(what: Seq<char>, line: Seq<char>) -> Seq<char> {
    "no "@ + what + " '"@ + line + "'"@
}

/// What a version line parses to.
pub open spec fn parsed_version(line: Seq<char>) -> Result<VersionView, ErrorView> {
    if semantic_version_of(line).len() == 0 {
        Err(ErrorView::Parse(missing("semantic version"@, line)))
    } else if date_version_of(line).len() == 0 {
        Err(ErrorView::Parse(missing("date version"@, line)))
    } else {
        Ok(
            VersionView {
                date_version: date_version_of(line),
                semantic_version: semantic_version_of(line),
            },
        )
    }
}

/// The model of a result of [`parse_version`] or [`get`].
pub open spec fn outcome_view(outcome: Result<Version, Error>) -> Result<VersionView, ErrorView> {
    match outcome {
        Ok(version) => Ok(version@),
        Err(error) => Err(error@),
    }
}

/// Where in `chars` the text after the first ` ` at or after `from` begins
/// and where it is cut by the next `stop` (or by the end of the line).
/// Both ends are the length of `chars` when there is no such space.
fn field_after_space(chars: &Vec<char>, from: usize, stop: char) -> (ends: (usize, usize))
    requires
        from <= chars.len(),
    ensures
        ends.0 <= ends.1 <= chars.len(),
        chars@.subrange(ends.0 as int, ends.1 as int) == until(
            after(chars@.skip(from as int), ' '),
            stop,
        ),
{
    let n = chars.len();
    let ghost tail = chars@.skip(from as int);
    let space = find_from(chars, from, ' ');
    if space < n {
        let start = space + 1;
        let end = find_from(chars, start, stop);
        proof {
            let rest = chars@.skip(start as int);
            assert(after(tail, ' ') =~= rest);
            if end < n {
                assert(rest.take(end - start) =~= chars@.subrange(start as int, end as int));
            } else {
                assert(rest =~= chars@.subrange(start as int, end as int));
            }
        }
        (start, end)
    } else {
        proof {
            lemma_no_occurrence(Seq::<char>::empty(), stop);
            assert(chars@.subrange(n as int, n as int) =~= Seq::<char>::empty());
        }
        (n, n)
    }
}

/// Builds the reason for a line that holds no `what`.
fn missing_reason(what: &str, line: &str) -> (reason: String)
    ensures
        reason@ == missing(what@, line@),
{
    let mut reason = "no ".to_owned();
    reason.append(what);
    reason.append(" '");
    reason.append(line);
    reason.append("'");
    reason
}

/// Parses the first line that rust-analyzer prints for its version.
///
/// The semantic version is what follows the first space, up to the next
/// space. The date version is looked for after the last `(`: it follows the
/// first space there and ends before the next `)`. A line in which either
/// comes out empty is refused with [`Error::Parse`], whose reason names the
/// missing part and quotes the line; a missing semantic version is reported
/// first.
pub fn parse_version(output: &str) -> (outcome: Result<Version, Error>)
    ensures
        outcome_view(outcome) == parsed_version(output@),
{
    let chars = chars_of(output);
    let n = chars.len();
    assert(chars@.skip(0) =~= output@);
    let (semantic_from, semantic_to) = field_after_space(&chars, 0, ' ');
    let (date_from, date_to) = match find_last(&chars, '(') {
        Some(paren) => field_after_space(&chars, paren + 1, ')'),
        None => {
            proof {
                lemma_no_occurrence(Seq::<char>::empty(), ' ');
                lemma_no_occurrence(Seq::<char>::empty(), ')');
                assert(chars@.subrange(n as int, n as int) =~= Seq::<char>::empty());
            }
            (n, n)
        },
    };
    if semantic_from == semantic_to {
        Err(Error::Parse(missing_reason("semantic version", output)))
    } else if date_from == date_to {
        Err(Error::Parse(missing_reason("date version", output)))
    } else {
        Ok(
            Version {
                date_version: slice_of(output, date_from, date_to),
                semantic_version: slice_of(output, semantic_from, semantic_to),
            },
        )
    }
}

/// What running the executable gave: whether it reported success, and what
/// it printed on standard output.
#[derive(Debug)]
pub struct CommandOutput {
    pub success: bool,
    pub stdout: Vec<u8>,
}

/// The first line of an output: what stands before the first line feed, or
/// all of it.
pub open spec fn first_line(stdout: Seq<u8>) -> Seq<u8> {
    match stdout.index_of_first(10u8) {
        Some(i) => stdout.take(i),
        None => stdout,
    }
}

/// The text that `String::from_utf8_lossy` makes of a sequence of bytes.
pub uninterp spec fn utf8_lossy(bytes: Seq<u8>) -> Seq<char>;

/// The command line that was run, for the error that reports its failure.
pub open spec fn command_line() -> Seq<char> {
    PROGRAM@ + " "@ + VERSION_FLAG@
}

/// What the output of the version command amounts to.
pub open spec fn probed_version(output: CommandOutput) -> Result<VersionView, ErrorView> {
    if output.success {
        parsed_version(utf8_lossy(first_line(output.stdout@)))
    } else {
        Err(ErrorView::Command(command_line()))
    }
}

/// `String::from_utf8_lossy` of std, as an owned string. The result is a
/// function of the bytes alone; for bytes that are valid UTF-8 it is the
/// text they encode. What it puts in place of invalid bytes is not stated.
#[verifier::external_body]
fn lossy_text(bytes: &[u8]) -> (text: String)
    ensures
        text@ == utf8_lossy(bytes@),
        valid_utf8(bytes@) ==> text@ == decode_utf8(bytes@),
{
    String::from_utf8_lossy(bytes).into_owned()
}

/// The bytes of `stdout` before its first line feed.
fn first_line_of(stdout: &[u8]) -> (line: &[u8])
    ensures
        line@ == first_line(stdout@),
{
    let mut end: usize = 0;
    while end < stdout.len() && stdout[end] != 10u8
        invariant
            end <= stdout.len(),
            forall|j: int| 0 <= j < end ==> stdout@[j] != 10u8,
        decreases stdout.len() - end,
    {
        end = end + 1;
    }
    proof {
        if end < stdout.len() {
            lemma_first_occurrence(stdout@, 10u8, end as int);
        } else {
            lemma_no_occurrence(stdout@, 10u8);
            assert(stdout@.subrange(0, end as int) =~= stdout@);
        }
    }
    slice_subrange(stdout, 0, end)
}

/// Turns the result of running `rust-analyzer --version` into the installed
/// version.
///
/// A command that could not be run gives [`Error::Io`] with the failure it
/// met. One that ran and reported failure gives [`Error::Command`] with the
/// command line. Otherwise the first line of its output, read as UTF-8 with
/// invalid bytes replaced, is parsed by [`parse_version`]; where the line is
/// valid UTF-8 that is the text it encodes.
pub fn get(run: Result<CommandOutput, IoFailure>) -> (outcome: Result<Version, Error>)
    ensures
        outcome_view(outcome) == match run {
            Ok(output) => probed_version(output),
            Err(failure) => Err(ErrorView::Io(failure@)),
        },
        run matches Ok(output) ==> (output.success && valid_utf8(first_line(output.stdout@))
            ==> outcome_view(outcome) == parsed_version(decode_utf8(first_line(output.stdout@)))),
{
    match run {
        Ok(output) => {
            if output.success {
                let line = lossy_text(first_line_of(output.stdout.as_slice()));
                parse_version(line.as_str())
            } else {
                let mut command = PROGRAM.to_owned();
                command.append(" ");
                command.append(VERSION_FLAG);
                Err(Error::Command(command))
            }
        },
        Err(failure) => Err(Error::Io(failure)),
    }
}

} // verus!
