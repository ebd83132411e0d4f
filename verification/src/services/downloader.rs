//! Installing a release: fetch the compressed executable, buffer it in a
//! temporary file, decompress it into the destination, and leave nothing
//! half-written behind when any of this fails.
//!
//! The installer does none of the work itself. An [`Install`] says which
//! [`Step`] is due; whoever drives it performs the step and reports what came
//! of it as an [`Event`]; [`Install::step`] then says what is due next.

use vstd::prelude::*;

use crate::io::{IoFailure, IoFailureView};
use crate::text::same_text;

verus! {

/// Where the executables of a release are downloaded from: this, the
/// release's tag, a slash and the file's name.
pub const DOWNLOAD_URL: &'static str =
    "https://github.com/rust-lang/rust-analyzer/releases/download/";

/// Name of the temporary file, in the cache directory, that buffers the
/// compressed executable.
pub const TEMP_FILE_NAME: &'static str = "rust-analyzer.gz";

/// Mode of the installed executable where files have one: readable and
/// executable by all, writable by the owner.
pub const EXECUTABLE_MODE: u32 = 0o755;

/// The platforms that releases hold an executable for.
#[derive(Debug, Clone, Copy, PartialEq, Eq, Structural)]
pub enum Platform {
    WindowsX86_64,
    LinuxX86_64,
    MacosAarch64,
    MacosX86_64,
}

/// The platform for an operating system and an architecture, under the
/// names that `std::env::consts` gives them; `None` for a pair that releases
/// hold no executable for.
pub open spec fn platform_of(os: Seq<char>, arch: Seq<char>) -> Option<Platform> {
    if os == "windows"@ && arch == "x86_64"@ {
        Some(Platform::WindowsX86_64)
    } else if os == "linux"@ && arch == "x86_64"@ {
        Some(Platform::LinuxX86_64)
    } else if os == "macos"@ && arch == "aarch64"@ {
        Some(Platform::MacosAarch64)
    } else if os == "macos"@ && arch == "x86_64"@ {
        Some(Platform::MacosX86_64)
    } else {
        None
    }
}

impl Platform {
    /// The platform for an operating system and an architecture.
    pub fn from_target(os: &str, arch: &str) -> (platform: Option<Platform>)
        ensures
            platform == platform_of(os@, arch@),
    {
        let x86_64 = same_text(arch, "x86_64");
        if same_text(os, "windows") && x86_64 {
            Some(Platform::WindowsX86_64)
        } else if same_text(os, "linux") && x86_64 {
            Some(Platform::LinuxX86_64)
        } else if same_text(os, "macos") && same_text(arch, "aarch64") {
            Some(Platform::MacosAarch64)
        } else if same_text(os, "macos") && x86_64 {
            Some(Platform::MacosX86_64)
        } else {
            None
        }
    }

    /// Name of the compressed executable in a release.
    pub open spec fn file_name(self) -> Seq<char> {
        match self {
            Platform::WindowsX86_64 => "rust-analyzer-x86_64-pc-windows-msvc.gz"@,
            Platform::LinuxX86_64 => "rust-analyzer-x86_64-unknown-linux-gnu.gz"@,
            Platform::MacosAarch64 => "rust-analyzer-aarch64-apple-darwin.gz"@,
            Platform::MacosX86_64 => "rust-analyzer-x86_64-apple-darwin.gz"@,
        }
    }

    /// Whether files on the platform carry a permission to execute them.
    pub open spec fn has_executable_bit(self) -> bool {
        self != Platform::WindowsX86_64
    }
}

/// Where the executable of the release tagged `version` is downloaded from.
pub open spec fn download_url(version: Seq<char>, platform: Platform) -> Seq<char> {
    DOWNLOAD_URL@ + version + "/"@ + platform.file_name()
}

/// Why a release could not be installed.
#[derive(Debug)]
pub enum Error {
    /// The download failed in transport, or was answered with a status that
    /// is no success; holds the message.
    Network(String),
    /// A file operation failed.
    File(IoFailure),
}

/// Mathematical model of an [`Error`].
pub enum ErrorView {
    Network(Seq<char>),
    File(IoFailureView),
}

impl View for Error {
    type V = ErrorView;

    open spec fn view(&self) -> ErrorView {
        match self {
            Error::Network(message) => ErrorView::Network(message@),
            Error::File(failure) => ErrorView::File(failure@),
        }
    }
}

impl ErrorView {
    /// The text shown for the error.
    pub open spec fn message(self) -> Seq<char> {
        match self {
            ErrorView::Network(message) => message,
            ErrorView::File(failure) => failure.message,
        }
    }
}

impl Error {
    /// The text shown for the error.
    pub fn to_string(&self) -> (text: String)
        ensures
            text@ == self@.message(),
    {
        match self {
            Error::Network(message) => message.clone(),
            Error::File(failure) => failure.to_string(),
        }
    }
}

/// What the driver of an [`Install`] has to do next.
#[derive(Debug, Clone, Copy, PartialEq, Eq, Structural)]
pub enum Step {
    /// Send the GET request for the URL and wait for the head of the answer.
    Fetch,
    /// Create the destination file, or truncate the one that is there.
    CreateDestination,
    /// Set the destination's mode to [`EXECUTABLE_MODE`].
    MakeExecutable,
    /// Create the temporary file.
    CreateTemp,
    /// Read the next chunk of the answer's body.
    ReadChunk,
    /// Write the chunk that was read to the temporary file.
    WriteChunk,
    /// Decompress the temporary file into the destination.
    Decompress,
    /// Remove the temporary file.
    RemoveTemp,
    /// Remove the destination file.
    RemoveDestination,
    /// Nothing: the install has ended.
    Finished,
}

/// What came of the step that was due.
#[derive(Debug)]
pub enum Event {
    /// The request was answered with this status. The text is how the
    /// status reads, for the error should it be no success.
    Responded(u16, String),
    /// The body gave another chunk.
    Chunk,
    /// The step was done. For a read of the body: the body has ended.
    Done,
    /// The step failed, in this way.
    Failed(IoFailure),
}

/// Mathematical model of an [`Event`].
pub enum EventView {
    Responded(u16, Seq<char>),
    Chunk,
    Done,
    Failed(IoFailureView),
}

impl View for Event {
    type V = EventView;

    open spec fn view(&self) -> EventView {
        match self {
            Event::Responded(status, text) => EventView::Responded(*status, text@),
            Event::Chunk => EventView::Chunk,
            Event::Done => EventView::Done,
            Event::Failed(failure) => EventView::Failed(failure@),
        }
    }
}

/// Whether an HTTP status reports success.
pub open spec fn is_success(status: u16) -> bool {
    200 <= status < 300
}

/// The error that a failure of a step is: a network error with the message
/// of the failure where the step is on the network, the request and the
/// reads of the body, and a file error for every other step.
pub open spec fn error_of(step: Step, failure: IoFailureView) -> ErrorView {
    if step == Step::Fetch || step == Step::ReadChunk {
        ErrorView::Network(failure.message)
    } else {
        ErrorView::File(failure)
    }
}

/// Mathematical model of an [`Install`]: the step that is due, what the
/// install is of, and what it has done to the file system so far.
pub struct InstallView {
    pub step: Step,
    pub platform: Platform,
    pub url: Seq<char>,
    pub destination: Seq<char>,
    pub temp_path: Seq<char>,
    /// The temporary file was created and not removed since.
    pub temp_exists: bool,
    /// The destination file was created or truncated and not removed since.
    pub destination_exists: bool,
    /// A removal failed, so that a file may be left behind.
    pub removal_failed: bool,
    /// The error that the install ends with, once there is one.
    pub failure: Option<ErrorView>,
}

impl InstallView {
    /// An install at its beginning: the request is due and no file was
    /// touched.
    pub open spec fn start(
        platform: Platform,
        url: Seq<char>,
        destination: Seq<char>,
        temp_path: Seq<char>,
    ) -> InstallView {
        InstallView {
            step: Step::Fetch,
            platform,
            url,
            destination,
            temp_path,
            temp_exists: false,
            destination_exists: false,
            removal_failed: false,
            failure: None,
        }
    }

    /// The same install with another step due.
    pub open spec fn at(self, step: Step) -> InstallView {
        InstallView { step, ..self }
    }

    /// The same install with `error` to report and the step `step` due.
    pub open spec fn failed(self, error: ErrorView, step: Step) -> InstallView {
        InstallView { step, failure: Some(error), ..self }
    }

    /// The install after `event` was reported for the step that is due.
    ///
    /// A request that is answered with a status that is no success ends the
    /// install with a network error, as one that fails does. Before the
    /// destination exists a failure ends the install. From then on a failure
    /// is followed by the removal of what was created: the temporary file
    /// first, then the destination. A failed removal takes the place of the
    /// error that led to it. An event that does not answer the step that is
    /// due changes nothing.
    pub open spec fn after(self, event: EventView) -> InstallView {
        match (self.step, event) {
            (Step::Fetch, EventView::Responded(status, text)) => if is_success(status) {
                self.at(Step::CreateDestination)
            } else {
                self.failed(ErrorView::Network(text), Step::Finished)
            },
            (Step::Fetch, EventView::Failed(failure)) => self.failed(
                error_of(Step::Fetch, failure),
                Step::Finished,
            ),
            (Step::CreateDestination, EventView::Done) => InstallView {
                step: if self.platform.has_executable_bit() {
                    Step::MakeExecutable
                } else {
                    Step::CreateTemp
                },
                destination_exists: true,
                ..self
            },
            (Step::CreateDestination, EventView::Failed(failure)) => self.failed(
                error_of(Step::CreateDestination, failure),
                Step::Finished,
            ),
            (Step::MakeExecutable, EventView::Done) => self.at(Step::CreateTemp),
            (Step::MakeExecutable, EventView::Failed(failure)) => self.failed(
                error_of(Step::MakeExecutable, failure),
                Step::RemoveDestination,
            ),
            (Step::CreateTemp, EventView::Done) => InstallView {
                step: Step::ReadChunk,
                temp_exists: true,
                ..self
            },
            (Step::CreateTemp, EventView::Failed(failure)) => self.failed(
                error_of(Step::CreateTemp, failure),
                Step::RemoveDestination,
            ),
            (Step::ReadChunk, EventView::Chunk) => self.at(Step::WriteChunk),
            (Step::ReadChunk, EventView::Done) => self.at(Step::Decompress),
            (Step::ReadChunk, EventView::Failed(failure)) => self.failed(
                error_of(Step::ReadChunk, failure),
                Step::RemoveTemp,
            ),
            (Step::WriteChunk, EventView::Done) => self.at(Step::ReadChunk),
            (Step::WriteChunk, EventView::Failed(failure)) => self.failed(
                error_of(Step::WriteChunk, failure),
                Step::RemoveTemp,
            ),
            (Step::Decompress, EventView::Done) => self.at(Step::RemoveTemp),
            (Step::Decompress, EventView::Failed(failure)) => self.failed(
                error_of(Step::Decompress, failure),
                Step::RemoveTemp,
            ),
            (Step::RemoveTemp, EventView::Done) => InstallView {
                step: if self.failure is None {
                    Step::Finished
                } else {
                    Step::RemoveDestination
                },
                temp_exists: false,
                ..self
            },
            (Step::RemoveTemp, EventView::Failed(failure)) => InstallView {
                step: Step::RemoveDestination,
                removal_failed: true,
                failure: Some(error_of(Step::RemoveTemp, failure)),
                ..self
            },
            (Step::RemoveDestination, EventView::Done) => InstallView {
                step: Step::Finished,
                destination_exists: false,
                ..self
            },
            (Step::RemoveDestination, EventView::Failed(failure)) => InstallView {
                step: Step::Finished,
                removal_failed: true,
                failure: Some(error_of(Step::RemoveDestination, failure)),
                ..self
            },
            _ => self,
        }
    }

    /// The install after a sequence of events, each reported for the step
    /// that was due when its turn came.
    pub open spec fn run(self, events: Seq<EventView>) -> InstallView
        decreases events.len(),
    {
        if events.len() == 0 {
            self
        } else {
            self.after(events[0]).run(events.drop_first())
        }
    }

    /// What holds of an install at every step: which files exist, and
    /// whether there is an error to report.
    pub open spec fn wf(self) -> bool {
        match self.step {
            Step::Fetch | Step::CreateDestination => {
                &&& !self.temp_exists
                &&& !self.destination_exists
                &&& !self.removal_failed
                &&& self.failure is None
            },
            Step::MakeExecutable | Step::CreateTemp => {
                &&& !self.temp_exists
                &&& self.destination_exists
                &&& !self.removal_failed
                &&& self.failure is None
            },
            Step::ReadChunk | Step::WriteChunk | Step::Decompress => {
                &&& self.temp_exists
                &&& self.destination_exists
                &&& !self.removal_failed
                &&& self.failure is None
            },
            Step::RemoveTemp => {
                &&& self.temp_exists
                &&& self.destination_exists
                &&& !self.removal_failed
            },
            Step::RemoveDestination => {
                &&& self.destination_exists
                &&& self.failure is Some
                &&& self.temp_exists == self.removal_failed
            },
            Step::Finished => if self.failure is None {
                &&& !self.temp_exists
                &&& self.destination_exists
                &&& !self.removal_failed
            } else {
                self.temp_exists || self.destination_exists ==> self.removal_failed
            },
        }
    }

    /// How the install ended, once it has.
    pub open spec fn result(self) -> Option<Result<(), ErrorView>> {
        if self.step != Step::Finished {
            None
        } else {
            match self.failure {
                Some(error) => Some(Err(error)),
                None => Some(Ok(())),
            }
        }
    }
}

/// One installation of a release, from the request to the end.
#[derive(Debug)]
pub struct Install {
    step: Step,
    platform: Platform,
    url: String,
    destination: String,
    temp_path: String,
    temp_exists: bool,
    destination_exists: bool,
    removal_failed: bool,
    failure: Option<Error>,
}

impl View for Install {
    type V = InstallView;

    closed spec fn view(&self) -> InstallView {
        InstallView {
            step: self.step,
            platform: self.platform,
            url: self.url@,
            destination: self.destination@,
            temp_path: self.temp_path@,
            temp_exists: self.temp_exists,
            destination_exists: self.destination_exists,
            removal_failed: self.removal_failed,
            failure: match self.failure {
                Some(error) => Some(error@),
                None => None,
            },
        }
    }
}

impl Install {
    #[verifier::type_invariant]
    spec fn inv(self) -> bool {
        self@.wf()
    }

    /// The step that is due.
    pub fn due(&self) -> (step: Step)
        ensures
            step == self@.step,
    {
        self.step
    }

    /// The URL that the compressed executable is fetched from.
    pub fn url(&self) -> (url: &str)
        ensures
            url@ == self@.url,
    {
        self.url.as_str()
    }

    /// The path of the file that the executable is installed as.
    pub fn destination(&self) -> (path: &str)
        ensures
            path@ == self@.destination,
    {
        self.destination.as_str()
    }

    /// The path of the temporary file.
    pub fn temp_path(&self) -> (path: &str)
        ensures
            path@ == self@.temp_path,
    {
        self.temp_path.as_str()
    }

    /// Whether the temporary file was created and not removed since.
    pub fn temp_exists(&self) -> (exists: bool)
        ensures
            exists == self@.temp_exists,
    {
        self.temp_exists
    }

    /// Whether the destination was created and not removed since.
    pub fn destination_exists(&self) -> (exists: bool)
        ensures
            exists == self@.destination_exists,
    {
        self.destination_exists
    }

    /// Whether a removal failed, so that a file may be left behind.
    pub fn removal_failed(&self) -> (failed: bool)
        ensures
            failed == self@.removal_failed,
    {
        self.removal_failed
    }

    /// Whether the install has ended.
    pub fn is_finished(&self) -> (finished: bool)
        ensures
            finished == (self@.step == Step::Finished),
    {
        self.step == Step::Finished
    }

    /// How the install ended; `None` while it has not.
    pub fn result(self) -> (result: Option<Result<(), Error>>)
        ensures
            match result {
                Some(Ok(_)) => self@.result() == Some(Ok::<(), ErrorView>(())),
                Some(Err(error)) => self@.result() == Some(Err::<(), ErrorView>(error@)),
                None => self@.result() is None,
            },
    {
        if self.step != Step::Finished {
            None
        } else {
            match self.failure {
                Some(error) => Some(Err(error)),
                None => Some(Ok(())),
            }
        }
    }

    /// Takes what came of the step that was due and says what is due next.
    pub fn step(self, event: Event) -> (next: Install)
        ensures
            next@ == self@.after(event@),
            next@.wf(),
    {
        proof {
            use_type_invariant(&self);
        }
        let Install {
            step,
            platform,
            url,
            destination,
            temp_path,
            temp_exists,
            destination_exists,
            removal_failed,
            failure,
        } = self;
        let mut step = step;
        let mut temp_exists = temp_exists;
        let mut destination_exists = destination_exists;
        let mut removal_failed = removal_failed;
        let mut failure = failure;
        match event {
            Event::Responded(status, text) => {
                if step == Step::Fetch {
                    if 200 <= status && status < 300 {
                        step = Step::CreateDestination;
                    } else {
                        failure = Some(Error::Network(text));
                        step = Step::Finished;
                    }
                }
            },
            Event::Chunk => {
                if step == Step::ReadChunk {
                    step = Step::WriteChunk;
                }
            },
            Event::Done => {
                match step {
                    Step::Fetch | Step::Finished => {},
                    Step::CreateDestination => {
                        destination_exists = true;
                        step = match platform {
                            Platform::WindowsX86_64 => Step::CreateTemp,
                            _ => Step::MakeExecutable,
                        };
                    },
                    Step::MakeExecutable => {
                        step = Step::CreateTemp;
                    },
                    Step::CreateTemp => {
                        temp_exists = true;
                        step = Step::ReadChunk;
                    },
                    Step::ReadChunk => {
                        step = Step::Decompress;
                    },
                    Step::WriteChunk => {
                        step = Step::ReadChunk;
                    },
                    Step::Decompress => {
                        step = Step::RemoveTemp;
                    },
                    Step::RemoveTemp => {
                        temp_exists = false;
                        step = if failure.is_none() {
                            Step::Finished
                        } else {
                            Step::RemoveDestination
                        };
                    },
                    Step::RemoveDestination => {
                        destination_exists = false;
                        step = Step::Finished;
                    },
                }
            },
            Event::Failed(failed) => {
                let error = match step {
                    Step::Fetch | Step::ReadChunk => Error::Network(failed.message),
                    _ => Error::File(failed),
                };
                match step {
                    Step::Finished => {},
                    Step::Fetch | Step::CreateDestination => {
                        failure = Some(error);
                        step = Step::Finished;
                    },
                    Step::MakeExecutable | Step::CreateTemp => {
                        failure = Some(error);
                        step = Step::RemoveDestination;
                    },
                    Step::ReadChunk | Step::WriteChunk | Step::Decompress => {
                        failure = Some(error);
                        step = Step::RemoveTemp;
                    },
                    Step::RemoveTemp => {
                        failure = Some(error);
                        removal_failed = true;
                        step = Step::RemoveDestination;
                    },
                    Step::RemoveDestination => {
                        failure = Some(error);
                        removal_failed = true;
                        step = Step::Finished;
                    },
                }
            },
        }
        Install {
            step,
            platform,
            url,
            destination,
            temp_path,
            temp_exists,
            destination_exists,
            removal_failed,
            failure,
        }
    }
}

/// The installer for one platform.
#[derive(Debug)]
pub struct Downloader {
    /// The platform whose executable is installed.
    pub platform: Platform,
    /// Path of the temporary file: [`TEMP_FILE_NAME`] in the cache directory.
    pub temp_path: String,
}

impl Downloader {
    /// The installer for `platform` that buffers downloads in `temp_path`.
    pub fn new(platform: Platform, temp_path: String) -> (downloader: Downloader)
        ensures
            downloader.platform == platform,
            downloader.temp_path == temp_path,
    {
        Downloader { platform, temp_path }
    }

    /// Name of the compressed executable in a release.
    pub fn get_file_name(&self) -> (name: &'static str)
        ensures
            name@ == self.platform.file_name(),
    {
        match self.platform {
            Platform::WindowsX86_64 => "rust-analyzer-x86_64-pc-windows-msvc.gz",
            Platform::LinuxX86_64 => "rust-analyzer-x86_64-unknown-linux-gnu.gz",
            Platform::MacosAarch64 => "rust-analyzer-aarch64-apple-darwin.gz",
            Platform::MacosX86_64 => "rust-analyzer-x86_64-apple-darwin.gz",
        }
    }

    /// Where the executable of the release tagged `version` is downloaded
    /// from.
    pub fn get_download_url(&self, version: &str) -> (url: String)
        ensures
            url@ == download_url(version@, self.platform),
    {
        let mut url = DOWNLOAD_URL.to_owned();
        url.append(version);
        url.append("/");
        url.append(self.get_file_name());
        url
    }

    /// Begins the installation of the release tagged `version` as the file
    /// `output`: the request for its executable is due, and no file was
    /// touched.
    pub fn download(&self, version: &str, output: &str) -> (install: Install)
        ensures
            install@ == InstallView::start(
                self.platform,
                download_url(version@, self.platform),
                output@,
                self.temp_path@,
            ),
    {
        Install {
            step: Step::Fetch,
            platform: self.platform,
            url: self.get_download_url(version),
            destination: output.to_owned(),
            temp_path: self.temp_path.clone(),
            temp_exists: false,
            destination_exists: false,
            removal_failed: false,
            failure: None,
        }
    }
}

/// Reporting an event keeps an install well-formed.
pub proof fn lemma_after_preserves_wf(install: InstallView, event: EventView)
    requires
        install.wf(),
    ensures
        install.after(event).wf(),
{
}

/// Whatever is reported, in whatever order, the install stays well-formed.
pub proof fn lemma_run_preserves_wf(install: InstallView, events: Seq<EventView>)
    requires
        install.wf(),
    ensures
        install.run(events).wf(),
    decreases events.len(),
{
    if events.len() > 0 {
        lemma_after_preserves_wf(install, events[0]);
        lemma_run_preserves_wf(install.after(events[0]), events.drop_first());
    }
}

/// An install never leaves a half-written executable behind: whatever was
/// reported on the way, once it has ended and no removal has failed, the
/// temporary file is gone, and the destination exists exactly if the install
/// succeeded.
pub proof fn lemma_finished_install_is_clean(
    platform: Platform,
    url: Seq<char>,
    destination: Seq<char>,
    temp_path: Seq<char>,
    events: Seq<EventView>,
)
    ensures
        ({
            let end = InstallView::start(platform, url, destination, temp_path).run(events);
            end.step == Step::Finished && !end.removal_failed ==> {
                &&& !end.temp_exists
                &&& end.destination_exists == (end.failure is None)
            }
        }),
{
    lemma_run_preserves_wf(InstallView::start(platform, url, destination, temp_path), events);
}

/// A decompression that fails is followed by the removal of the temporary
/// file and of the destination; when both are done the install ends with
/// the failure of the decompression as a file error, and neither file
/// exists.
pub proof fn lemma_failed_decompression_is_cleaned_up(install: InstallView, failure: IoFailureView)
    requires
        install.wf(),
        install.step == Step::Decompress,
    ensures
        install.after(EventView::Failed(failure)).step == Step::RemoveTemp,
        install.after(EventView::Failed(failure)).after(EventView::Done).step
            == Step::RemoveDestination,
        ({
            let end = install.after(EventView::Failed(failure)).after(EventView::Done).after(
                EventView::Done,
            );
            &&& end.result() == Some(Err::<(), ErrorView>(ErrorView::File(failure)))
            &&& !end.temp_exists
            &&& !end.destination_exists
        }),
{
}

/// A download that is answered with a status that is no success, or that
/// is not answered at all, ends the install at once with a network error,
/// and no file was touched.
pub proof fn lemma_failed_download_is_a_network_error(
    platform: Platform,
    url: Seq<char>,
    destination: Seq<char>,
    temp_path: Seq<char>,
    status: u16,
    text: Seq<char>,
    failure: IoFailureView,
)
    requires
        !is_success(status),
    ensures
        ({
            let start = InstallView::start(platform, url, destination, temp_path);
            let refused = start.after(EventView::Responded(status, text));
            let unanswered = start.after(EventView::Failed(failure));
            &&& refused.result() == Some(Err::<(), ErrorView>(ErrorView::Network(text)))
            &&& !refused.temp_exists && !refused.destination_exists
            &&& unanswered.result() == Some(
                Err::<(), ErrorView>(ErrorView::Network(failure.message)),
            )
            &&& !unanswered.temp_exists && !unanswered.destination_exists
        }),
{
}

/// The error of an install is a network error only for what happened on
/// the network: whatever is reported for a step on a file, a failure there
/// is a file error.
pub proof fn lemma_file_steps_give_file_errors(install: InstallView, failure: IoFailureView)
    requires
        install.step != Step::Fetch,
        install.step != Step::ReadChunk,
        install.step != Step::Finished,
    ensures
        install.after(EventView::Failed(failure)).failure == Some(ErrorView::File(failure)),
{
}

} // verus!
