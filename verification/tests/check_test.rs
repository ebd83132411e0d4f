use rust_analyzer_downloader::commands::check::{
    compare_versions, current_version, is_newer, Candidate, CheckCommand, Decision, Event, Stage,
    NIGHTLY, PAGE, PAGE_SIZE,
};
use rust_analyzer_downloader::commands::command::Errors;
use rust_analyzer_downloader::date::{parse_date, Day, DATE_FORMAT};
use rust_analyzer_downloader::io::{IoFailure, IoFailureKind};
use rust_analyzer_downloader::rust_analyzer::version::{CommandOutput, Error as VersionError, Version};
use rust_analyzer_downloader::services::downloader::{
    Downloader, Error as DownloaderError, Platform, Step,
};
use rust_analyzer_downloader::services::versions::{
    Error as VersionsError, ReleasesJsonResponse, Versions,
};

fn release(tag: &str) -> ReleasesJsonResponse {
    ReleasesJsonResponse { name: tag.to_string(), tag_name: tag.to_string(), prerelease: false }
}

fn installed(date: &str) -> Option<Version> {
    Some(Version { date_version: date.to_string(), semantic_version: "0.3.0".to_string() })
}

fn command(should_download: bool, nightly: bool) -> CheckCommand {
    CheckCommand::new(
        "/home/me/bin/rust-analyzer".to_string(),
        Downloader::new(Platform::LinuxX86_64, "/home/me/.cache/rust-analyzer.gz".to_string()),
        Versions::new(),
        should_download,
        nightly,
    )
}

fn probe(line: &str) -> Result<CommandOutput, IoFailure> {
    Ok(CommandOutput { success: true, stdout: line.as_bytes().to_vec() })
}

fn not_found() -> Result<CommandOutput, IoFailure> {
    Err(IoFailure::new(IoFailureKind::NotFound, "not found".to_string()))
}

#[test]
fn test_compare_versions_equal_with_one_day_offset() {
    let format = "[year]-[month]-[day]";
    let current_version = "2021-01-01";
    let latest_version = "2021-01-02";

    let result = compare_versions(format, current_version, latest_version);

    assert!(result.is_ok());
    assert!(!result.unwrap());
}

#[test]
fn test_compare_versions_return_true() {
    let format = "[year]-[month]-[day]";
    let current_version = "2020-01-01";
    let latest_version = "2021-01-02";

    let result = compare_versions(format, current_version, latest_version);

    assert!(result.is_ok());
    assert!(result.unwrap());
}

#[test]
fn check_test_compare_versions_equal_with_one_day_offset() {
    let format = "[year]-[month]-[day]";
    let current_version = "2021-01-01";
    let latest_version = "2021-01-02";

    let result = compare_versions(format, current_version, latest_version);

    assert!(result.is_ok());
    assert!(!result.unwrap());
}

#[test]
fn check_test_compare_versions_return_true() {
    let format = "[year]-[month]-[day]";
    let current_version = "2020-01-01";
    let latest_version = "2021-01-02";

    let result = compare_versions(format, current_version, latest_version);

    assert!(result.is_ok());
    assert!(result.unwrap());
}

#[test]
fn release_of_the_next_day_is_not_newer_two_days_after_is() {
    assert!(!compare_versions(DATE_FORMAT, "2022-08-16", "2022-08-17").unwrap());
    assert!(compare_versions(DATE_FORMAT, "2022-08-15", "2022-08-17").unwrap());
    assert!(!compare_versions(DATE_FORMAT, "2022-08-17", "2022-08-17").unwrap());
    assert!(!compare_versions(DATE_FORMAT, "2022-08-18", "2022-08-17").unwrap());
}

#[test]
fn one_day_of_grace_across_months_and_years() {
    assert!(!compare_versions(DATE_FORMAT, "2020-02-28", "2020-02-29").unwrap());
    assert!(compare_versions(DATE_FORMAT, "2020-02-28", "2020-03-01").unwrap());
    assert!(!compare_versions(DATE_FORMAT, "2021-02-28", "2021-03-01").unwrap());
    assert!(compare_versions(DATE_FORMAT, "2021-02-28", "2021-03-02").unwrap());
    assert!(!compare_versions(DATE_FORMAT, "2021-12-31", "2022-01-01").unwrap());
    assert!(compare_versions(DATE_FORMAT, "2021-12-31", "2022-01-02").unwrap());
}

#[test]
fn the_last_day_there_is_has_nothing_newer() {
    assert!(!compare_versions(DATE_FORMAT, "9999-12-31", "9999-12-31").unwrap());
    assert!(!compare_versions(DATE_FORMAT, "9999-12-30", "9999-12-31").unwrap());
    assert!(compare_versions(DATE_FORMAT, "9999-12-29", "9999-12-31").unwrap());
}

#[test]
fn is_newer_on_day_numbers() {
    let day = |julian_day: i32| Day { julian_day };
    assert!(!is_newer(day(100), day(100)));
    assert!(!is_newer(day(100), day(101)));
    assert!(is_newer(day(100), day(102)));
    assert!(!is_newer(day(100), day(-5)));
    assert!(is_newer(day(-3), day(-1)));
    assert!(!is_newer(day(i32::MAX), day(i32::MAX)));
    assert!(!is_newer(day(i32::MAX - 1), day(i32::MAX)));
    assert!(is_newer(day(i32::MAX - 2), day(i32::MAX)));
    assert!(is_newer(day(i32::MIN), day(i32::MAX)));
}

#[test]
fn parse_date_gives_the_julian_day() {
    assert_eq!(parse_date("2000-01-01", DATE_FORMAT).unwrap(), Day { julian_day: 2_451_545 });
    assert_eq!(parse_date("2019-12-31", DATE_FORMAT).unwrap(), Day { julian_day: 2_458_849 });
    let first = parse_date("2021-01-01", DATE_FORMAT).unwrap();
    let second = parse_date("2021-01-02", DATE_FORMAT).unwrap();
    assert_eq!(second.julian_day, first.julian_day + 1);
}

#[test]
fn parse_date_refuses_what_is_no_date() {
    for text in ["", "nightly", "2021-13-01", "2021-02-30", "2021-01-01x", "01-01-2021"] {
        let error = parse_date(text, DATE_FORMAT).unwrap_err();
        assert_eq!(error.text, text);
        assert!(!error.reason.is_empty());
        assert_eq!(error.to_string(), error.reason);
    }
}

#[test]
fn parse_date_refuses_what_is_no_format() {
    let error = parse_date("2021-01-01", "[nothing]").unwrap_err();
    assert_eq!(error.text, "2021-01-01");
}

#[test]
fn malformed_dates_are_errors_not_answers() {
    let current = compare_versions(DATE_FORMAT, "yesterday", "2021-01-02");
    assert!(matches!(&current, Err(Errors::ParseDate(error)) if error.text == "yesterday"));
    let latest = compare_versions(DATE_FORMAT, "2021-01-02", "nightly");
    assert!(matches!(&latest, Err(Errors::ParseDate(error)) if error.text == "nightly"));
    // The installed date is read first.
    let both = compare_versions(DATE_FORMAT, "a", "b");
    assert!(matches!(&both, Err(Errors::ParseDate(error)) if error.text == "a"));
    let message = both.unwrap_err().to_string();
    assert!(!message.is_empty());
}

#[test]
fn decide_skips_the_other_channel() {
    let stable = command(true, false);
    assert_eq!(stable.decide(&None, NIGHTLY).unwrap(), Decision::Skip);
    assert_eq!(stable.decide(&installed("2020-01-01"), "nightly").unwrap(), Decision::Skip);
    let nightly = command(true, true);
    assert_eq!(nightly.decide(&None, "2023-01-01").unwrap(), Decision::Skip);
    assert_eq!(nightly.decide(&installed("oops"), "also no date").unwrap(), Decision::Skip);
}

#[test]
fn decide_with_nothing_installed_takes_every_release() {
    assert_eq!(command(true, false).decide(&None, "2023-01-01").unwrap(), Decision::Install);
    assert_eq!(command(false, false).decide(&None, "2023-01-01").unwrap(), Decision::Available);
    // No date is read when nothing is installed.
    assert_eq!(command(true, false).decide(&None, "v1").unwrap(), Decision::Install);
    assert_eq!(command(true, true).decide(&None, "nightly").unwrap(), Decision::Install);
}

#[test]
fn decide_on_nightly_never_compares() {
    let current = installed("2022-08-17");
    assert_eq!(command(true, true).decide(&current, "nightly").unwrap(), Decision::Install);
    assert_eq!(command(false, true).decide(&current, "nightly").unwrap(), Decision::Available);
    assert_eq!(command(true, true).decide(&installed("?"), "nightly").unwrap(), Decision::Install);
}

#[test]
fn decide_compares_dated_releases() {
    let current = installed("2022-08-15");
    let check = command(true, false);
    assert_eq!(check.decide(&current, "2022-08-17").unwrap(), Decision::Install);
    assert_eq!(check.decide(&current, "2022-08-16").unwrap(), Decision::UpToDate);
    assert_eq!(check.decide(&current, "2022-08-15").unwrap(), Decision::UpToDate);
    assert_eq!(check.decide(&current, "2021-08-15").unwrap(), Decision::UpToDate);
    assert_eq!(command(false, false).decide(&current, "2022-08-17").unwrap(), Decision::Available);
    assert!(matches!(
        check.decide(&current, "v2022"),
        Err(Errors::ParseDate(error)) if error.text == "v2022"
    ));
    assert!(matches!(
        check.decide(&installed("unknown"), "2022-08-17"),
        Err(Errors::ParseDate(error)) if error.text == "unknown"
    ));
}

#[test]
fn download_decides_each_release_by_itself() {
    let data = vec![release("nightly"), release("2022-08-17"), release("broken"), release("2022-08-01")];
    let candidates = command(true, false).download(&data, &installed("2022-08-10"));
    assert_eq!(candidates.len(), 4);
    let tags: Vec<&str> = candidates.iter().map(|c| c.tag.as_str()).collect();
    assert_eq!(tags, vec!["nightly", "2022-08-17", "broken", "2022-08-01"]);
    assert!(matches!(candidates[0].outcome, Ok(Decision::Skip)));
    assert!(matches!(candidates[1].outcome, Ok(Decision::Install)));
    assert!(matches!(&candidates[2].outcome, Err(Errors::ParseDate(e)) if e.text == "broken"));
    assert!(matches!(candidates[3].outcome, Ok(Decision::UpToDate)));
    let installing: Vec<bool> = candidates.iter().map(|c| c.installing).collect();
    assert_eq!(installing, vec![false, true, false, false]);
    assert!(command(true, false).download(&Vec::new(), &None).is_empty());
}

#[test]
fn current_version_tells_absence_from_failure() {
    let version = installed("2022-08-17").unwrap();
    assert_eq!(current_version(Ok(version)).unwrap(), installed("2022-08-17"));
    let missing = VersionError::Io(IoFailure::new(IoFailureKind::NotFound, "gone".to_string()));
    assert_eq!(current_version(Err(missing)).unwrap(), None);
    let denied = VersionError::Io(IoFailure::new(IoFailureKind::Other, "denied".to_string()));
    assert!(matches!(
        current_version(Err(denied)),
        Err(Errors::CurrentVersion(VersionError::Io(failure))) if failure.message == "denied"
    ));
    assert!(matches!(
        current_version(Err(VersionError::Command("c".to_string()))),
        Err(Errors::CurrentVersion(VersionError::Command(c))) if c == "c"
    ));
    assert!(matches!(
        current_version(Err(VersionError::Parse("p".to_string()))),
        Err(Errors::CurrentVersion(VersionError::Parse(p))) if p == "p"
    ));
}

#[test]
fn first_release_is_installed_exactly_once() {
    let check = command(true, false).execute();
    assert_eq!(check.due(), Stage::Probe);
    let check = check.step(Event::Probed(not_found()));
    assert_eq!(check.due(), Stage::List);
    assert_eq!(*check.current(), None);
    let request = check.request();
    assert_eq!(request.query, vec![("per_page", PAGE_SIZE)]);
    assert_eq!(PAGE, 1);
    assert_eq!(PAGE_SIZE, 2);

    let check = check.step(Event::Listed(Ok(vec![release("2023-01-01")])));
    assert_eq!(check.due(), Stage::Install);
    let candidates: &Vec<Candidate> = check.candidates();
    assert_eq!(candidates.len(), 1);
    assert_eq!(candidates[0].tag, "2023-01-01");
    assert!(candidates[0].installing);
    assert!(matches!(candidates[0].outcome, Ok(Decision::Install)));
    assert_eq!(candidates.iter().filter(|c| c.installing).count(), 1);

    let install = check.install(0).unwrap();
    assert_eq!(install.due(), Step::Fetch);
    assert_eq!(
        install.url(),
        "https://github.com/rust-lang/rust-analyzer/releases/download/2023-01-01/rust-analyzer-x86_64-unknown-linux-gnu.gz"
    );
    assert_eq!(install.destination(), "/home/me/bin/rust-analyzer");
    assert_eq!(install.temp_path(), "/home/me/.cache/rust-analyzer.gz");
    assert!(check.install(1).is_none());

    let check = check.step(Event::Installed(0, Ok(())));
    assert_eq!(check.due(), Stage::Finished);
    assert!(check.install(0).is_none());
    assert!(matches!(check.result(), Some(Ok(()))));
}

#[test]
fn report_only_installs_nothing() {
    let check = command(false, false)
        .execute()
        .probed(not_found())
        .listed(Ok(vec![release("2023-01-01"), release("nightly")]));
    assert_eq!(check.due(), Stage::Finished);
    assert!(matches!(check.candidates()[0].outcome, Ok(Decision::Available)));
    assert!(matches!(check.candidates()[1].outcome, Ok(Decision::Skip)));
    assert!(check.install(0).is_none());
    assert!(matches!(check.result(), Some(Ok(()))));
}

#[test]
fn up_to_date_ends_well() {
    let check = command(true, false)
        .execute()
        .probed(probe("rust-analyzer 0.3.1 (abcdef 2022-08-16)\n"))
        .listed(Ok(vec![release("2022-08-17"), release("2022-08-10")]));
    assert_eq!(check.current().as_ref().unwrap().date_version, "2022-08-16");
    assert_eq!(check.due(), Stage::Finished);
    assert!(matches!(check.candidates()[0].outcome, Ok(Decision::UpToDate)));
    assert!(matches!(check.result(), Some(Ok(()))));
}

#[test]
fn a_failed_probe_ends_the_check() {
    let failed = Ok(CommandOutput { success: false, stdout: Vec::new() });
    let check = command(true, false).execute().probed(failed);
    assert_eq!(check.due(), Stage::Finished);
    assert!(matches!(
        check.result(),
        Some(Err(Errors::CurrentVersion(VersionError::Command(_))))
    ));
    let check = command(true, false).execute().probed(probe("garbage"));
    assert!(matches!(
        check.result(),
        Some(Err(Errors::CurrentVersion(VersionError::Parse(_))))
    ));
    let denied = Err(IoFailure::new(IoFailureKind::Other, "denied".to_string()));
    let check = command(true, false).execute().probed(denied);
    let error = check.result().unwrap().unwrap_err();
    assert_eq!(error.to_string(), "denied");
}

#[test]
fn a_failed_listing_ends_the_check() {
    let check = command(true, false)
        .execute()
        .probed(not_found())
        .listed(Err(VersionsError::Network("offline".to_string())));
    assert_eq!(check.due(), Stage::Finished);
    let error = check.result().unwrap().unwrap_err();
    assert!(matches!(&error, Errors::GetVersions(VersionsError::Network(m)) if m == "offline"));
    assert_eq!(error.to_string(), "offline");
}

#[test]
fn an_empty_page_ends_the_check_well() {
    let check = command(true, false).execute().probed(not_found()).listed(Ok(Vec::new()));
    assert_eq!(check.due(), Stage::Finished);
    assert!(check.candidates().is_empty());
    assert!(matches!(check.result(), Some(Ok(()))));
}

#[test]
fn installs_end_in_any_order() {
    let data = vec![release("2023-01-03"), release("bad tag"), release("2023-01-02")];
    let check = command(true, false)
        .execute()
        .probed(probe("rust-analyzer 0.3.1 (abcdef 2022-08-16)"))
        .listed(Ok(data));
    assert_eq!(check.due(), Stage::Install);
    assert!(check.install(0).is_some());
    assert!(check.install(1).is_none());
    assert!(check.install(2).is_some());

    // The later install ends first, and fails: the other one goes on.
    let late = DownloaderError::Network("second".to_string());
    let check = check.installed(2, Err(late));
    assert_eq!(check.due(), Stage::Install);
    assert!(check.install(2).is_none());
    assert!(check.install(0).is_some());
    assert!(check.candidates()[0].installing);
    assert!(!check.candidates()[2].installing);
}

#[test]
fn the_first_error_in_page_order_is_reported() {
    let start = || {
        command(true, false)
            .execute()
            .probed(probe("rust-analyzer 0.3.1 (abcdef 2022-08-16)"))
            .listed(Ok(vec![release("2023-01-03"), release("bad tag"), release("2023-01-02")]))
    };

    // Both installs succeed: the tag that is no date is the error.
    let check = start().installed(2, Ok(())).installed(0, Ok(()));
    assert_eq!(check.due(), Stage::Finished);
    assert!(matches!(
        check.result(),
        Some(Err(Errors::ParseDate(error))) if error.text == "bad tag"
    ));

    // The first install fails: it comes before the tag in the page.
    let first = DownloaderError::Network("first".to_string());
    let last = DownloaderError::Network("500 Internal Server Error".to_string());
    let check = start().installed(2, Err(last)).installed(0, Err(first));
    assert!(matches!(
        check.result(),
        Some(Err(Errors::Download(DownloaderError::Network(m)))) if m == "first"
    ));

    // Only the last install fails: the tag still comes first.
    let last = DownloaderError::Network("500 Internal Server Error".to_string());
    let check = start().installed(0, Ok(())).installed(2, Err(last));
    assert!(matches!(
        &check.candidates()[2].outcome,
        Err(Errors::Download(DownloaderError::Network(m))) if m == "500 Internal Server Error"
    ));
    assert!(matches!(check.result(), Some(Err(Errors::ParseDate(_)))));
}

#[test]
fn events_out_of_turn_change_nothing() {
    let check = command(true, false).execute();
    let check = check.step(Event::Listed(Ok(vec![release("2023-01-01")])));
    assert_eq!(check.due(), Stage::Probe);
    let check = check.step(Event::Installed(0, Ok(())));
    assert_eq!(check.due(), Stage::Probe);
    assert!(check.candidates().is_empty());

    let check = check.step(Event::Probed(not_found())).step(Event::Probed(probe("x y (a b)")));
    assert_eq!(check.due(), Stage::List);
    assert_eq!(*check.current(), None);

    let check = check.listed(Ok(vec![release("2023-01-01"), release("2023-01-02")]));
    let check = check.installed(7, Ok(()));
    assert_eq!(check.due(), Stage::Install);
    let check = check.installed(1, Ok(())).installed(1, Err(DownloaderError::Network("404 Not Found".to_string())));
    assert!(matches!(check.candidates()[1].outcome, Ok(Decision::Install)));
    let check = check.listed(Ok(Vec::new()));
    assert_eq!(check.candidates().len(), 2);
    let check = check.installed(0, Ok(()));
    assert_eq!(check.due(), Stage::Finished);
    let check = check.installed(0, Err(DownloaderError::Network("404 Not Found".to_string())));
    assert!(matches!(check.result(), Some(Ok(()))));
}

#[test]
fn no_result_before_the_end() {
    assert!(command(true, false).execute().result().is_none());
    assert!(command(true, false).execute().probed(not_found()).result().is_none());
    let check = command(true, false)
        .execute()
        .probed(not_found())
        .listed(Ok(vec![release("2023-01-01")]));
    assert!(check.result().is_none());
}
