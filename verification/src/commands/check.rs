//! The check for a newer release, and its installation.

use vstd::prelude::*;

use crate::commands::command::{Errors, ErrorsView};
use crate::date::{julian_day_of, parse_date, Day, DATE_FORMAT};
use crate::io::{IoFailure, IoFailureKind};
use crate::rust_analyzer::version::Error as CurrentVersionError;
use crate::rust_analyzer::version::ErrorView as CurrentVersionErrorView;
use crate::rust_analyzer::version::{
    get, outcome_view, probed_version, CommandOutput, Version, VersionView,
};
use crate::services::downloader::Error as DownloaderError;
use crate::services::downloader::ErrorView as DownloaderErrorView;
use crate::services::downloader::{download_url, Downloader, Install, InstallView};
use crate::services::versions::Error as VersionsError;
use crate::services::versions::ErrorView as VersionsErrorView;
use crate::services::versions::{
    listing_headers, Paging, ReleaseView, ReleasesJsonResponse, Request, Versions,
    PER_PAGE,
};
use crate::text::same_text;

verus! {

/// Whether a release of day `candidate` is newer than a build of day
/// `current`. A release dated the day after the build is the build itself,
/// published a day late: only a later one is newer.
pub open spec fn newer(current: int, candidate: int) -> bool {
    candidate > current + 1
}

/// What comparing two dates in writing gives: whether the second is newer
/// than the first, or the first of the two texts that is no date.
pub open spec fn compared(format: Seq<char>, current: Seq<char>, latest: Seq<char>) -> Result<
    bool,
    ErrorsView,
> {
    match julian_day_of(format, current) {
        None => Err(ErrorsView::ParseDate(current)),
        Some(current_day) => match julian_day_of(format, latest) {
            None => Err(ErrorsView::ParseDate(latest)),
            Some(latest_day) => Ok(newer(current_day, latest_day)),
        },
    }
}

/// Whether a release of day `candidate` is newer than a build of day
/// `current`.
pub fn is_newer(current: Day, candidate: Day) -> (is_newer: bool)
    ensures
        is_newer == newer(current@, candidate@),
{
    current.julian_day < i32::MAX && candidate.julian_day > current.julian_day + 1
}

/// Whether the release tagged `latest_version` is newer than the build of
/// date `current_version`, both written after the format description
/// `format`.
///
/// Fails exactly when one of the two is no date, with the first that is not:
/// a tag that cannot be read is reported, never taken for an old release.
/// Under a `format` that is no format description no text is a date, so the
/// installed date is the one that is refused.
pub fn compare_versions(format: &str, current_version: &str, latest_version: &str) -> (newer:
    Result<bool, Errors>)
    ensures
        match newer {
            Ok(is_newer) => compared(format@, current_version@, latest_version@) == Ok::<
                bool,
                ErrorsView,
            >(is_newer),
            Err(error) => compared(format@, current_version@, latest_version@) == Err::<
                bool,
                ErrorsView,
            >(error@),
        },
{
    let current = match parse_date(current_version, format) {
        Ok(day) => day,
        Err(error) => {
            return Err(Errors::ParseDate(error));
        },
    };
    let latest = match parse_date(latest_version, format) {
        Ok(day) => day,
        Err(error) => {
            return Err(Errors::ParseDate(error));
        },
    };
    Ok(is_newer(current, latest))
}

/// A release dated one day after the installed build is not newer than it;
/// one dated two days after it is.
pub proof fn lemma_one_day_of_grace(
    format: Seq<char>,
    current: Seq<char>,
    latest: Seq<char>,
    day: int,
)
    requires
        julian_day_of(format, current) == Some(day),
    ensures
        julian_day_of(format, latest) == Some(day + 1) ==> compared(format, current, latest)
            == Ok::<bool, ErrorsView>(false),
        julian_day_of(format, latest) == Some(day + 2) ==> compared(format, current, latest)
            == Ok::<bool, ErrorsView>(true),
{
}

/// Where one of the two texts is no date, the comparison fails: it gives no
/// answer.
pub proof fn lemma_malformed_date_is_refused(
    format: Seq<char>,
    current: Seq<char>,
    latest: Seq<char>,
)
    requires
        julian_day_of(format, current) is None || julian_day_of(format, latest) is None,
    ensures
        compared(format, current, latest) is Err,
{
}

/// The tag of the releases of the nightly channel.
pub const NIGHTLY: &'static str = "nightly";

/// The page of the listing that a check looks at.
pub const PAGE: u32 = 1;

/// How many releases a check asks the listing for.
pub const PAGE_SIZE: u32 = 2;

/// What a check makes of one release.
#[derive(Debug, Clone, Copy, PartialEq, Eq, Structural)]
pub enum Decision {
    /// The release is of the other channel.
    Skip,
    /// The release is not newer than what is installed.
    UpToDate,
    /// The release is newer; installing was not asked for.
    Available,
    /// The release is newer and is to be installed.
    Install,
}

/// The check for a newer release: where a release would be installed,
/// whether to install it or only to report it, and the channel to follow.
#[derive(Debug)]
pub struct CheckCommand {
    /// Path of the file that a release is installed as.
    pub output: String,
    /// Whether a newer release is installed, or only reported.
    pub should_download: bool,
    /// Whether the nightly channel is followed, or the dated releases.
    pub nightly: bool,
    pub downloader: Downloader,
    pub versions: Versions,
    /// The format description of release tags and build dates.
    pub date_format: &'static str,
}

/// One release of the page that a check looks at, and what became of it.
#[derive(Debug)]
pub struct Candidate {
    pub tag: String,
    /// What the check made of the release, or why it could not decide; for a
    /// release whose installation has failed, that failure.
    pub outcome: Result<Decision, Errors>,
    /// Whether the release is being installed and the end of that is not
    /// known yet.
    pub installing: bool,
}

/// Mathematical model of a [`Candidate`].
pub struct CandidateView {
    pub tag: Seq<char>,
    pub outcome: Result<Decision, ErrorsView>,
    pub installing: bool,
}

impl View for Candidate {
    type V = CandidateView;

    open spec fn view(&self) -> CandidateView {
        CandidateView {
            tag: self.tag@,
            outcome: match self.outcome {
                Ok(decision) => Ok(decision),
                Err(error) => Err(error@),
            },
            installing: self.installing,
        }
    }
}

impl DeepView for Candidate {
    type V = CandidateView;

    open spec fn deep_view(&self) -> CandidateView {
        self@
    }
}

impl CheckCommand {
    /// A check that reads dates after [`DATE_FORMAT`].
    pub fn new(
        output: String,
        downloader: Downloader,
        versions: Versions,
        should_download: bool,
        nightly: bool,
    ) -> (command: CheckCommand)
        ensures
            command.output == output,
            command.downloader == downloader,
            command.versions == versions,
            command.should_download == should_download,
            command.nightly == nightly,
            command.date_format@ == DATE_FORMAT@,
    {
        CheckCommand {
            output,
            should_download,
            nightly,
            downloader,
            versions,
            date_format: DATE_FORMAT,
        }
    }

    /// Whether the release tagged `tag` is newer than what is installed.
    ///
    /// With nothing installed every release is. On the nightly channel every
    /// release is, too: its tag holds no date to compare. Otherwise the tag
    /// is compared with the date of the installed build.
    pub open spec fn is_news(&self, current: Option<VersionView>, tag: Seq<char>) -> Result<
        bool,
        ErrorsView,
    > {
        match current {
            Some(version) => if self.nightly {
                Ok(true)
            } else {
                compared(self.date_format@, version.date_version, tag)
            },
            None => Ok(true),
        }
    }

    /// What the check makes of the release tagged `tag`, with `current`
    /// installed.
    ///
    /// A release of the other channel is skipped: on the nightly channel all
    /// but the one tagged [`NIGHTLY`], else that one. A release that is
    /// newer is installed if that was asked for, and reported if not.
    pub open spec fn decision(&self, current: Option<VersionView>, tag: Seq<char>) -> Result<
        Decision,
        ErrorsView,
    > {
        if self.nightly != (tag == NIGHTLY@) {
            Ok(Decision::Skip)
        } else {
            match self.is_news(current, tag) {
                Ok(true) => Ok(
                    if self.should_download {
                        Decision::Install
                    } else {
                        Decision::Available
                    },
                ),
                Ok(false) => Ok(Decision::UpToDate),
                Err(error) => Err(error),
            }
        }
    }

    /// What a release amounts to when the page is first looked at.
    pub open spec fn candidate(&self, current: Option<VersionView>, tag: Seq<char>) -> CandidateView {
        CandidateView {
            tag,
            outcome: self.decision(current, tag),
            installing: self.decision(current, tag) == Ok::<Decision, ErrorsView>(
                Decision::Install,
            ),
        }
    }

    /// What the releases of a page amount to, each by itself and in the
    /// order of the page.
    pub open spec fn plan(&self, current: Option<VersionView>, releases: Seq<ReleaseView>) -> Seq<
        CandidateView,
    > {
        Seq::new(releases.len(), |i: int| self.candidate(current, releases[i].tag_name))
    }

    /// Decides what to do about the release tagged `tag`, with `current`
    /// installed.
    pub fn decide(&self, current: &Option<Version>, tag: &str) -> (outcome: Result<
        Decision,
        Errors,
    >)
        ensures
            match outcome {
                Ok(decision) => self.decision(current.deep_view(), tag@) == Ok::<
                    Decision,
                    ErrorsView,
                >(decision),
                Err(error) => self.decision(current.deep_view(), tag@) == Err::<
                    Decision,
                    ErrorsView,
                >(error@),
            },
    {
        if self.nightly != same_text(tag, NIGHTLY) {
            return Ok(Decision::Skip);
        }
        let is_news = match current {
            Some(version) => if self.nightly {
                true
            } else {
                match compare_versions(self.date_format, version.date_version.as_str(), tag) {
                    Ok(is_newer) => is_newer,
                    Err(error) => {
                        return Err(error);
                    },
                }
            },
            None => true,
        };
        if !is_news {
            Ok(Decision::UpToDate)
        } else if self.should_download {
            Ok(Decision::Install)
        } else {
            Ok(Decision::Available)
        }
    }

    /// Decides, release by release, what to do about a page of the listing.
    ///
    /// Every release is decided by itself: one whose tag cannot be read has
    /// its error and leaves the others as they are. Those to be installed
    /// are marked as being installed.
    pub fn download(&self, data: &Vec<ReleasesJsonResponse>, current_version: &Option<Version>) -> (candidates:
        Vec<Candidate>)
        ensures
            candidates.deep_view() == self.plan(current_version.deep_view(), data.deep_view()),
    {
        let mut candidates: Vec<Candidate> = Vec::new();
        let mut i: usize = 0;
        while i < data.len()
            invariant
                i <= data.len(),
                candidates.len() == i,
                forall|j: int|
                    0 <= j < i ==> candidates@[j]@ == self.candidate(
                        current_version.deep_view(),
                        data@[j].tag_name@,
                    ),
            decreases data.len() - i,
        {
            let outcome = self.decide(current_version, data[i].tag_name.as_str());
            let installing = match outcome {
                Ok(Decision::Install) => true,
                _ => false,
            };
            candidates.push(Candidate { tag: data[i].tag_name.clone(), outcome, installing });
            i = i + 1;
        }
        assert(candidates.deep_view() =~= self.plan(
            current_version.deep_view(),
            data.deep_view(),
        ));
        candidates
    }
}

/// A release is installed only where installing was asked for, and only if
/// it is of the channel that is followed.
pub proof fn lemma_install_is_asked_for(
    command: CheckCommand,
    current: Option<VersionView>,
    tag: Seq<char>,
)
    requires
        command.decision(current, tag) == Ok::<Decision, ErrorsView>(Decision::Install),
    ensures
        command.should_download,
        command.nightly == (tag == NIGHTLY@),
        command.is_news(current, tag) == Ok::<bool, ErrorsView>(true),
{
}

/// With nothing installed, every release of the channel that is followed is
/// installed where installing was asked for, whatever its tag.
pub proof fn lemma_first_install(command: CheckCommand, tag: Seq<char>)
    requires
        command.should_download,
        command.nightly == (tag == NIGHTLY@),
    ensures
        command.decision(None, tag) == Ok::<Decision, ErrorsView>(Decision::Install),
{
}

/// What the driver of a [`Check`] has to do next.
#[derive(Debug, Clone, Copy, PartialEq, Eq, Structural)]
pub enum Stage {
    /// Run the installed executable for its version.
    Probe,
    /// Ask the listing for a page of releases.
    List,
    /// Drive the installs of the candidates that are being installed, all of
    /// them and in any order.
    Install,
    /// Nothing: the check has ended.
    Finished,
}

/// What came of the stage that was due.
#[derive(Debug)]
pub enum Event {
    /// The version command was run, or could not be.
    Probed(Result<CommandOutput, IoFailure>),
    /// The listing answered, or the request failed.
    Listed(Result<Vec<ReleasesJsonResponse>, VersionsError>),
    /// The install of the candidate of this index has ended.
    Installed(usize, Result<(), DownloaderError>),
}

/// What a probe of the installed executable says about what is installed:
/// its version, or nothing where no executable was found. Any other failure
/// of the probe is an error of the check.
pub open spec fn installed(probe: Result<VersionView, CurrentVersionErrorView>) -> Result<
    Option<VersionView>,
    ErrorsView,
> {
    match probe {
        Ok(version) => Ok(Some(version)),
        Err(CurrentVersionErrorView::Io(failure)) => if failure.kind == IoFailureKind::NotFound {
            Ok(None)
        } else {
            Err(ErrorsView::CurrentVersion(CurrentVersionErrorView::Io(failure)))
        },
        Err(error) => Err(ErrorsView::CurrentVersion(error)),
    }
}

/// Whether one of the candidates is still being installed.
pub open spec fn any_installing(candidates: Seq<CandidateView>) -> bool {
    exists|i: int| 0 <= i < candidates.len() && #[trigger] candidates[i].installing
}

/// The error of the first candidate, in the order of the page, that has one.
pub open spec fn first_error(candidates: Seq<CandidateView>) -> Option<ErrorsView>
    decreases candidates.len(),
{
    if candidates.len() == 0 {
        None
    } else {
        match first_error(candidates.drop_last()) {
            Some(error) => Some(error),
            None => match candidates.last().outcome {
                Err(error) => Some(error),
                Ok(_) => None,
            },
        }
    }
}

/// The stage after the candidates have changed: installs while one of them
/// is being installed, else the end.
pub open spec fn stage_for(candidates: Seq<CandidateView>) -> Stage {
    if any_installing(candidates) {
        Stage::Install
    } else {
        Stage::Finished
    }
}

/// Mathematical model of a [`Check`].
pub struct CheckView {
    pub command: CheckCommand,
    pub stage: Stage,
    /// What is installed, once the probe has told.
    pub current: Option<VersionView>,
    /// The releases of the page, once the listing has answered.
    pub candidates: Seq<CandidateView>,
    /// The failure of the probe or of the listing.
    pub failure: Option<ErrorsView>,
}

impl CheckView {
    /// A check at its beginning.
    pub open spec fn start(command: CheckCommand) -> CheckView {
        CheckView {
            command,
            stage: Stage::Probe,
            current: None,
            candidates: Seq::empty(),
            failure: None,
        }
    }

    /// The check after the probe: the listing is due, unless the probe
    /// failed otherwise than by finding no executable.
    pub open spec fn after_probe(self, probe: Result<VersionView, CurrentVersionErrorView>) -> CheckView {
        if self.stage != Stage::Probe {
            self
        } else {
            match installed(probe) {
                Ok(current) => CheckView { stage: Stage::List, current, ..self },
                Err(error) => CheckView { stage: Stage::Finished, failure: Some(error), ..self },
            }
        }
    }

    /// The check after the listing has answered: every release of the page
    /// is decided, and those to be installed are being installed.
    pub open spec fn after_list(self, listing: Result<Seq<ReleaseView>, VersionsErrorView>) -> CheckView {
        if self.stage != Stage::List {
            self
        } else {
            match listing {
                Ok(releases) => {
                    let candidates = self.command.plan(self.current, releases);
                    CheckView { stage: stage_for(candidates), candidates, ..self }
                },
                Err(error) => CheckView {
                    stage: Stage::Finished,
                    failure: Some(ErrorsView::GetVersions(error)),
                    ..self
                },
            }
        }
    }

    /// The check after the install of the candidate of index `index` has
    /// ended: a failed install is that candidate's error. The end of an
    /// install that is not under way changes nothing.
    pub open spec fn after_install(self, index: int, result: Result<(), DownloaderErrorView>) -> CheckView {
        if self.stage != Stage::Install || !(0 <= index < self.candidates.len())
            || !self.candidates[index].installing {
            self
        } else {
            let settled = CandidateView {
                tag: self.candidates[index].tag,
                outcome: match result {
                    Ok(_) => Ok(Decision::Install),
                    Err(error) => Err(ErrorsView::Download(error)),
                },
                installing: false,
            };
            let candidates = self.candidates.update(index, settled);
            CheckView { stage: stage_for(candidates), candidates, ..self }
        }
    }

    /// What holds of a check at every stage: there are candidates only once
    /// the listing has answered, installs are due exactly while one of them
    /// is being installed, and only a release to be installed ever is.
    pub open spec fn wf(self) -> bool {
        &&& self.stage == Stage::Probe || self.stage == Stage::List ==> self.candidates.len() == 0
        &&& self.stage == Stage::Install <==> any_installing(self.candidates)
        &&& self.failure is Some ==> self.stage == Stage::Finished && self.candidates.len() == 0
        &&& forall|i: int|
            0 <= i < self.candidates.len() && #[trigger] self.candidates[i].installing
                ==> self.candidates[i].outcome == Ok::<Decision, ErrorsView>(Decision::Install)
    }

    /// How the check ended, once it has: with the failure of the probe or of
    /// the listing, else with the error of the first candidate that has one,
    /// else well.
    pub open spec fn result(self) -> Option<Result<(), ErrorsView>> {
        if self.stage != Stage::Finished {
            None
        } else {
            match self.failure {
                Some(error) => Some(Err(error)),
                None => match first_error(self.candidates) {
                    Some(error) => Some(Err(error)),
                    None => Some(Ok(())),
                },
            }
        }
    }
}

/// The model of what the version command gave.
pub open spec fn probe_view(run: Result<CommandOutput, IoFailure>) -> Result<
    VersionView,
    CurrentVersionErrorView,
> {
    match run {
        Ok(output) => probed_version(output),
        Err(failure) => Err(CurrentVersionErrorView::Io(failure@)),
    }
}

/// The model of what the listing answered.
pub open spec fn listing_view(response: Result<Vec<ReleasesJsonResponse>, VersionsError>) -> Result<
    Seq<ReleaseView>,
    VersionsErrorView,
> {
    match response {
        Ok(releases) => Ok(releases.deep_view()),
        Err(error) => Err(error@),
    }
}

/// The model of how an install ended.
pub open spec fn install_view(result: Result<(), DownloaderError>) -> Result<
    (),
    DownloaderErrorView,
> {
    match result {
        Ok(_) => Ok(()),
        Err(error) => Err(error@),
    }
}

/// One run of the check: probe, listing, installs, end.
#[derive(Debug)]
pub struct Check {
    command: CheckCommand,
    stage: Stage,
    current: Option<Version>,
    candidates: Vec<Candidate>,
    failure: Option<Errors>,
}

impl View for Check {
    type V = CheckView;

    closed spec fn view(&self) -> CheckView {
        CheckView {
            command: self.command,
            stage: self.stage,
            current: self.current.deep_view(),
            candidates: self.candidates.deep_view(),
            failure: match self.failure {
                Some(error) => Some(error@),
                None => None,
            },
        }
    }
}

/// What a probe of the installed executable says about what is installed.
pub fn current_version(probe: Result<Version, CurrentVersionError>) -> (current: Result<
    Option<Version>,
    Errors,
>)
    ensures
        match current {
            Ok(version) => installed(outcome_view(probe)) == Ok::<Option<VersionView>, ErrorsView>(
                version.deep_view(),
            ),
            Err(error) => installed(outcome_view(probe)) == Err::<Option<VersionView>, ErrorsView>(
                error@,
            ),
        },
{
    match probe {
        Ok(version) => Ok(Some(version)),
        Err(CurrentVersionError::Io(failure)) => {
            if failure.is_not_found() {
                Ok(None)
            } else {
                Err(Errors::CurrentVersion(CurrentVersionError::Io(failure)))
            }
        },
        Err(error) => Err(Errors::CurrentVersion(error)),
    }
}

/// Whether one of the candidates is still being installed.
fn some_installing(candidates: &Vec<Candidate>) -> (some: bool)
    ensures
        some == any_installing(candidates.deep_view()),
{
    let mut i: usize = 0;
    while i < candidates.len()
        invariant
            i <= candidates.len(),
            forall|j: int| 0 <= j < i ==> !candidates@[j].installing,
        decreases candidates.len() - i,
    {
        if candidates[i].installing {
            assert(candidates.deep_view()[i as int].installing);
            return true;
        }
        i = i + 1;
    }
    false
}

impl CheckCommand {
    /// Begins a run of the check: the probe of the installed executable is
    /// due.
    pub fn execute(self) -> (check: Check)
        ensures
            check@ == CheckView::start(self),
            check@.wf(),
    {
        let check = Check {
            command: self,
            stage: Stage::Probe,
            current: None,
            candidates: Vec::new(),
            failure: None,
        };
        assert(check.candidates.deep_view() =~= Seq::<CandidateView>::empty());
        check
    }
}

impl Check {
    #[verifier::type_invariant]
    spec fn inv(self) -> bool {
        self@.wf()
    }

    /// The stage that is due.
    pub fn due(&self) -> (stage: Stage)
        ensures
            stage == self@.stage,
    {
        self.stage
    }

    /// What is installed, as far as the probe has told.
    pub fn current(&self) -> (current: &Option<Version>)
        ensures
            current.deep_view() == self@.current,
    {
        &self.current
    }

    /// The releases of the page and what became of each.
    pub fn candidates(&self) -> (candidates: &Vec<Candidate>)
        ensures
            candidates.deep_view() == self@.candidates,
    {
        &self.candidates
    }

    /// The request to send to the listing: for [`PAGE_SIZE`] releases.
    pub fn request(&self) -> (request: Request)
        ensures
            request.url@ == self@.command.versions.url()@,
            request.headers.deep_view() == listing_headers(),
            request.query.deep_view() == seq![(PER_PAGE@, PAGE_SIZE)],
    {
        self.command.versions.request(PAGE_SIZE)
    }

    /// The install to drive for the candidate of index `index`, if that
    /// candidate is being installed: of its release, to the output path of
    /// the check.
    pub fn install(&self, index: usize) -> (install: Option<Install>)
        ensures
            match install {
                Some(install) => {
                    &&& index < self@.candidates.len()
                    &&& self@.candidates[index as int].installing
                    &&& install@ == InstallView::start(
                        self@.command.downloader.platform,
                        download_url(
                            self@.candidates[index as int].tag,
                            self@.command.downloader.platform,
                        ),
                        self@.command.output@,
                        self@.command.downloader.temp_path@,
                    )
                },
                None => !(index < self@.candidates.len()
                    && self@.candidates[index as int].installing),
            },
    {
        if index < self.candidates.len() && self.candidates[index].installing {
            Some(
                self.command.downloader.download(
                    self.candidates[index].tag.as_str(),
                    self.command.output.as_str(),
                ),
            )
        } else {
            None
        }
    }

    /// Takes what the version command gave.
    pub fn probed(self, run: Result<CommandOutput, IoFailure>) -> (next: Check)
        ensures
            next@ == self@.after_probe(probe_view(run)),
            next@.wf(),
    {
        proof {
            use_type_invariant(&self);
        }
        let Check { command, stage, current, candidates, failure } = self;
        if stage != Stage::Probe {
            return Check { command, stage, current, candidates, failure };
        }
        match current_version(get(run)) {
            Ok(version) => Check { command, stage: Stage::List, current: version, candidates, failure },
            Err(error) => Check {
                command,
                stage: Stage::Finished,
                current,
                candidates,
                failure: Some(error),
            },
        }
    }

    /// Takes the answer of the listing.
    pub fn listed(self, response: Result<Vec<ReleasesJsonResponse>, VersionsError>) -> (next:
        Check)
        ensures
            next@ == self@.after_list(listing_view(response)),
            next@.wf(),
    {
        proof {
            use_type_invariant(&self);
        }
        let Check { command, stage, current, candidates, failure } = self;
        if stage != Stage::List {
            return Check { command, stage, current, candidates, failure };
        }
        match command.versions.get(PAGE, response) {
            Ok(Paging::Next(_, releases)) => {
                let planned = command.download(&releases, &current);
                let stage = if some_installing(&planned) {
                    Stage::Install
                } else {
                    Stage::Finished
                };
                Check { command, stage, current, candidates: planned, failure }
            },
            Ok(Paging::Done) => {
                let planned: Vec<Candidate> = Vec::new();
                proof {
                    let empty = Seq::<ReleaseView>::empty();
                    assert(response->Ok_0.deep_view() =~= empty);
                    assert(planned.deep_view() =~= command.plan(current.deep_view(), empty));
                }
                Check { command, stage: Stage::Finished, current, candidates: planned, failure }
            },
            Err(error) => Check {
                command,
                stage: Stage::Finished,
                current,
                candidates,
                failure: Some(Errors::GetVersions(error)),
            },
        }
    }

    /// Takes the end of the install of the candidate of index `index`.
    pub fn installed(self, index: usize, result: Result<(), DownloaderError>) -> (next: Check)
        ensures
            next@ == self@.after_install(index as int, install_view(result)),
            next@.wf(),
    {
        proof {
            use_type_invariant(&self);
        }
        let Check { command, stage, current, candidates, failure } = self;
        if stage != Stage::Install || index >= candidates.len() || !candidates[index].installing {
            return Check { command, stage, current, candidates, failure };
        }
        let ghost before = candidates.deep_view();
        let mut candidates = candidates;
        let tag = candidates[index].tag.clone();
        let outcome = match result {
            Ok(_) => Ok(Decision::Install),
            Err(error) => Err(Errors::Download(error)),
        };
        let settled = Candidate { tag, outcome, installing: false };
        let ghost settled_view = settled@;
        candidates.set(index, settled);
        assert(candidates.deep_view() =~= before.update(index as int, settled_view));
        let stage = if some_installing(&candidates) {
            Stage::Install
        } else {
            Stage::Finished
        };
        Check { command, stage, current, candidates, failure }
    }

    /// Takes what came of the stage that was due and says what is due next.
    /// An event that does not answer the stage that is due changes nothing.
    pub fn step(self, event: Event) -> (next: Check)
        ensures
            next@ == match event {
                Event::Probed(run) => self@.after_probe(probe_view(run)),
                Event::Listed(response) => self@.after_list(listing_view(response)),
                Event::Installed(index, result) => self@.after_install(
                    index as int,
                    install_view(result),
                ),
            },
            next@.wf(),
    {
        match event {
            Event::Probed(run) => self.probed(run),
            Event::Listed(response) => self.listed(response),
            Event::Installed(index, result) => self.installed(index, result),
        }
    }

    /// How the check ended; `None` while it has not.
    ///
    /// Every candidate has run to its end by then. The check fails if one of
    /// them did, with the error of the first that did, in the order of the
    /// page.
    pub fn result(self) -> (result: Option<Result<(), Errors>>)
        ensures
            match result {
                Some(Ok(_)) => self@.result() == Some(Ok::<(), ErrorsView>(())),
                Some(Err(error)) => self@.result() == Some(Err::<(), ErrorsView>(error@)),
                None => self@.result() is None,
            },
    {
        let Check { command, stage, current, candidates, failure } = self;
        if stage != Stage::Finished {
            return None;
        }
        if let Some(error) = failure {
            return Some(Err(error));
        }
        let ghost all = candidates.deep_view();
        let mut candidates = candidates;
        let mut found: Option<Errors> = None;
        while candidates.len() > 0
            invariant
                first_error(all) == match first_error(candidates.deep_view()) {
                    Some(error) => Some(error),
                    None => match found {
                        Some(error) => Some(error@),
                        None => None,
                    },
                },
            decreases candidates.len(),
        {
            let ghost before = candidates.deep_view();
            let candidate = candidates.pop().unwrap();
            assert(candidates.deep_view() =~= before.drop_last());
            assert(before.last() == candidate@);
            match candidate.outcome {
                Err(error) => {
                    found = Some(error);
                },
                Ok(_) => {},
            }
        }
        match found {
            Some(error) => Some(Err(error)),
            None => Some(Ok(())),
        }
    }
}

/// Whatever is reported to a check, it stays well-formed.
pub proof fn lemma_check_stays_wf(
    check: CheckView,
    probe: Result<VersionView, CurrentVersionErrorView>,
    listing: Result<Seq<ReleaseView>, VersionsErrorView>,
    index: int,
    result: Result<(), DownloaderErrorView>,
)
    requires
        check.wf(),
    ensures
        CheckView::start(check.command).wf(),
        check.after_probe(probe).wf(),
        check.after_list(listing).wf(),
        check.after_install(index, result).wf(),
{
    if let Ok(releases) = listing {
        let planned = check.command.plan(check.current, releases);
        assert(forall|i: int|
            0 <= i < planned.len() && #[trigger] planned[i].installing ==> planned[i].outcome
                == Ok::<Decision, ErrorsView>(Decision::Install));
    }
}

/// All candidates run to their end: a check that has a result has no
/// candidate that is still being installed.
pub proof fn lemma_result_waits_for_all_installs(check: CheckView)
    requires
        check.wf(),
        check.result() is Some,
    ensures
        !any_installing(check.candidates),
{
}

} // verus!
