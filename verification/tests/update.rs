use bzip2::write::BzEncoder;
use bzip2::Compression;
use std::io::Write;
use tar::{Builder, EntryType, Header};
use tb_updater::application_state::{Args, Config, DotDesktop};
use tb_updater::error::UpdateError;
use tb_updater::extract::ExtractionError;
use tb_updater::update::{
    Action, Event, Notice, Run, Stage, Step, Updater, EXIT_FAILURE, EXIT_OK,
};
use tb_updater::version::Version;

const HOME: &str = "/home/ada";

fn version(major: i32, minor: i32, patch: i32) -> Version {
    Version::new(major, minor, patch).unwrap()
}

fn page_with(texts: &[&str]) -> String {
    let mut page = String::new();
    for text in texts {
        page.push_str("<a class=\"inline-link\" href=\"/r/\">");
        page.push_str(text);
        page.push_str("</a>\n");
    }
    page
}

fn tar_with(path: &[u8]) -> Vec<u8> {
    let mut header = Header::new_gnu();
    header.as_old_mut().name[..path.len()].copy_from_slice(path);
    header.set_size(4);
    header.set_mode(0o755);
    header.set_entry_type(EntryType::Regular);
    header.set_cksum();
    let mut builder = Builder::new(Vec::new());
    builder.append(&header, &b"mail"[..]).unwrap();
    builder.into_inner().unwrap()
}

fn compressed(data: &[u8]) -> Vec<u8> {
    let mut encoder = BzEncoder::new(Vec::new(), Compression::default());
    encoder.write_all(data).unwrap();
    encoder.finish().unwrap()
}

fn run() -> Run {
    Run {
        home: String::from(HOME),
        dest_arg: String::from("~/Downloads"),
    }
}

fn at(stage: Stage) -> Updater {
    Updater { run: run(), stage }
}

fn told(error: bool, text: &str) -> Option<Notice> {
    Some(Notice {
        error,
        text: String::from(text),
    })
}

fn ended(code: i32, notice: Option<Notice>, failure: Option<UpdateError>) -> Step {
    Step {
        next: at(Stage::Finished),
        action: Action::Exit { code },
        notice,
        failure,
    }
}

fn failed(error: UpdateError, text: &str) -> Step {
    ended(EXIT_FAILURE, told(true, text), Some(error))
}

/// Runs to the point where the index page was asked for.
fn discovering(stored: Option<Config>) -> Updater {
    let step = Updater::start(HOME, Args::default());
    let step = step.next.step(Event::LauncherFound(true));
    let step = step.next.step(Event::ConfigRead(stored));
    assert!(matches!(step.next.stage, Stage::Discover(_)));
    step.next
}

#[test]
fn start_looks_for_the_launcher() {
    let step = Updater::start(HOME, Args::new(Some(String::from("/opt/tb"))));
    assert_eq!(
        step,
        Step {
            next: Updater {
                run: Run {
                    home: String::from(HOME),
                    dest_arg: String::from("/opt/tb"),
                },
                stage: Stage::Launcher,
            },
            action: Action::FindLauncher {
                path: String::from("/home/ada/.local/share/applications/thunderbird.desktop"),
            },
            notice: None,
            failure: None,
        }
    );
}

#[test]
fn missing_launcher_is_written_for_the_command_line_destination() {
    let step = at(Stage::Launcher).step(Event::LauncherFound(false));
    assert_eq!(
        step,
        Step {
            next: at(Stage::LauncherWrite),
            action: Action::WriteLauncher {
                directory: String::from("/home/ada/.local/share/applications"),
                path: String::from("/home/ada/.local/share/applications/thunderbird.desktop"),
                contents: DotDesktop::contents("~/Downloads"),
            },
            notice: None,
            failure: None,
        }
    );
}

#[test]
fn launcher_that_is_there_is_not_written_again() {
    let step = at(Stage::Launcher).step(Event::LauncherFound(true));
    assert_eq!(
        step,
        Step {
            next: at(Stage::Load),
            action: Action::ReadConfig {
                path: String::from("/home/ada/.config/tb-updater.json"),
            },
            notice: None,
            failure: None,
        }
    );
}

#[test]
fn two_runs_write_one_launcher() {
    let mut file: Option<String> = None;
    for dest in ["/first", "/second"] {
        let step = Updater::start(HOME, Args::new(Some(String::from(dest))));
        let step = step.next.step(Event::LauncherFound(file.is_some()));
        if let Action::WriteLauncher { contents, .. } = step.action {
            assert!(file.is_none());
            file = Some(contents);
        }
    }
    assert_eq!(file, Some(DotDesktop::contents("/first")));
}

#[test]
fn launcher_failure_is_reported_and_the_run_goes_on() {
    let step = at(Stage::LauncherWrite).step(Event::LauncherWritten(false));
    assert_eq!(
        step,
        Step {
            next: at(Stage::Load),
            action: Action::ReadConfig {
                path: String::from("/home/ada/.config/tb-updater.json"),
            },
            notice: told(
                true,
                "Failed to write .desktop to /home/ada/.local/share/applications/thunderbird.desktop"
            ),
            failure: Some(UpdateError::LauncherIo),
        }
    );
    let fine = at(Stage::LauncherWrite).step(Event::LauncherWritten(true));
    assert_eq!(fine.notice, None);
    assert_eq!(fine.next.stage, Stage::Load);
}

#[test]
fn absent_record_is_that_of_a_first_run() {
    let step = at(Stage::Load).step(Event::ConfigRead(None));
    assert_eq!(
        step,
        Step {
            next: at(Stage::Discover(Config::new("~/Downloads", Version::default()))),
            action: Action::FetchPage {
                url: String::from("https://www.thunderbird.net/en-US/thunderbird/releases/"),
            },
            notice: None,
            failure: None,
        }
    );
}

#[test]
fn stored_destination_wins() {
    let stored = Config::new("/stored/place", version(1, 0, 0));
    let step = at(Stage::Load).step(Event::ConfigRead(Some(stored.clone())));
    assert_eq!(step.next.stage, Stage::Discover(stored));
}

#[test]
fn first_run_with_the_network_up() {
    let step = Updater::start(HOME, Args::default());
    assert!(matches!(step.action, Action::FindLauncher { .. }));
    let step = step.next.step(Event::LauncherFound(false));
    assert!(matches!(step.action, Action::WriteLauncher { .. }));
    let step = step.next.step(Event::LauncherWritten(true));
    assert!(matches!(step.action, Action::ReadConfig { .. }));
    let step = step.next.step(Event::ConfigRead(None));
    assert!(matches!(step.action, Action::FetchPage { .. }));
    let step = step
        .next
        .step(Event::PageFetched(Some(page_with(&["1.2.3"]))));
    assert_eq!(
        step.action,
        Action::FetchArchive {
            url: String::from(
                "https://download-installer.cdn.mozilla.net/pub/thunderbird/releases/1.2.3/linux-x86_64/en-US/thunderbird-1.2.3.tar.bz2"
            ),
        }
    );
    assert_eq!(step.notice, told(false, "Downloading version 1.2.3"));
    let tar = tar_with(b"thunderbird/thunderbird");
    let step = step
        .next
        .step(Event::ArchiveFetched(Some(compressed(&tar))));
    assert_eq!(
        step.action,
        Action::Unpack {
            archive: tar,
            dest_dir: String::from("/home/ada/Downloads"),
        }
    );
    assert_eq!(step.notice, None);
    let step = step.next.step(Event::Unpacked(true));
    assert_eq!(
        step.action,
        Action::WriteConfig {
            path: String::from("/home/ada/.config/tb-updater.json"),
            config: Config::new("~/Downloads", version(1, 2, 3)),
        }
    );
    assert_eq!(
        step.notice,
        told(false, "Successfully updated thunderbird, please restart it")
    );
    let step = step.next.step(Event::ConfigWritten(true));
    assert_eq!(step, ended(EXIT_OK, None, None));
}

#[test]
fn upgrade_to_the_installed_version_does_nothing() {
    let stored = Config::new("/opt/tb", version(1, 2, 3));
    let step = discovering(Some(stored)).step(Event::PageFetched(Some(page_with(&["1.2.3"]))));
    assert_eq!(
        step,
        ended(
            EXIT_OK,
            told(false, "Latest release is 1.2.3 and we already have 1.2.3"),
            None
        )
    );
}

#[test]
fn older_release_is_not_installed() {
    let stored = Config::new("/opt/tb", version(2, 0, 0));
    let step = discovering(Some(stored)).step(Event::PageFetched(Some(page_with(&["1.9.9"]))));
    assert_eq!(
        step,
        ended(
            EXIT_OK,
            told(false, "Latest release is 1.9.9 and we already have 2.0.0"),
            None
        )
    );
}

#[test]
fn network_failure_during_discovery() {
    let stored = Config::new("/opt/tb", version(1, 0, 0));
    let step = discovering(Some(stored)).step(Event::PageFetched(None));
    assert_eq!(
        step,
        failed(
            UpdateError::Network,
            "Could not access thunderbird website: network error: the server could not be reached"
        )
    );
    assert!(step.notice.unwrap().text.contains("network"));
}

#[test]
fn truncated_archive_fails_the_run() {
    let config = Config::new("/opt/tb", version(1, 0, 0));
    let whole = compressed(&tar_with(b"thunderbird/thunderbird"));
    let cut = whole[..whole.len() - 7].to_vec();
    let step =
        at(Stage::Fetch(config, version(1, 2, 3))).step(Event::ArchiveFetched(Some(cut)));
    assert_eq!(
        step,
        failed(
            UpdateError::Extraction(ExtractionError::Decompress),
            "Encountered the following error: extraction error: the bzip2 stream is damaged"
        )
    );
}

#[test]
fn save_failure_after_an_install() {
    let config = Config::new("/opt/tb", Version::default());
    let step = at(Stage::Unpack(config, version(1, 2, 3))).step(Event::Unpacked(true));
    assert_eq!(
        step.notice,
        told(false, "Successfully updated thunderbird, please restart it")
    );
    assert!(matches!(step.action, Action::WriteConfig { .. }));
    let step = step.next.step(Event::ConfigWritten(false));
    assert_eq!(
        step,
        ended(
            EXIT_OK,
            told(
                true,
                "Failed to save config/state: config error: the state file could not be read or written"
            ),
            Some(UpdateError::ConfigIo)
        )
    );
}

#[test]
fn page_without_versions_fails_the_run() {
    let step = discovering(None).step(Event::PageFetched(Some(page_with(&["junk", "1.0"]))));
    assert_eq!(
        step,
        failed(UpdateError::Parse, "Could not parse version numbers")
    );
    let empty = discovering(None).step(Event::PageFetched(Some(String::new())));
    assert_eq!(
        empty,
        failed(UpdateError::Parse, "Could not parse version numbers")
    );
}

#[test]
fn installed_version_at_or_after_the_latest_fetches_nothing() {
    let installed = [version(1, 2, 3), version(1, 2, 4), version(1, 3, 0), version(2, 0, 0)];
    for have in installed.iter() {
        let config = Config::new("/opt/tb", *have);
        let step = run().after_discovery(config, Some(version(1, 2, 3)));
        assert_eq!(step.action, Action::Exit { code: EXIT_OK });
        assert_eq!(step.next.stage, Stage::Finished);
    }
    let older = [Version::default(), version(1, 2, 2), version(1, 1, 9), version(0, 9, 9)];
    for have in older.iter() {
        let config = Config::new("/opt/tb", *have);
        let step = run().after_discovery(config.clone(), Some(version(1, 2, 3)));
        assert!(matches!(step.action, Action::FetchArchive { .. }));
        assert_eq!(step.next.stage, Stage::Fetch(config, version(1, 2, 3)));
    }
}

#[test]
fn latest_of_several_is_fetched() {
    let step = discovering(None).step(Event::PageFetched(Some(page_with(&[
        "1.0.0", "junk", "1.2.3", "1.2.0",
    ]))));
    assert_eq!(
        step.next.stage,
        Stage::Fetch(Config::new("~/Downloads", Version::default()), version(1, 2, 3))
    );
}

#[test]
fn download_failure_fails_the_run() {
    let config = Config::new("/opt/tb", version(1, 0, 0));
    let step = at(Stage::Fetch(config, version(1, 2, 3))).step(Event::ArchiveFetched(None));
    assert_eq!(
        step,
        failed(
            UpdateError::Network,
            "Encountered the following error: network error: the server could not be reached"
        )
    );
}

#[test]
fn archive_with_a_path_that_leads_out_is_not_expanded() {
    let config = Config::new("/opt/tb", version(1, 0, 0));
    let archive = compressed(&tar_with(b"thunderbird/../../.bashrc"));
    let step =
        at(Stage::Fetch(config, version(1, 2, 3))).step(Event::ArchiveFetched(Some(archive)));
    assert_eq!(
        step,
        failed(
            UpdateError::Extraction(ExtractionError::PathEscape(
                b"thunderbird/../../.bashrc".to_vec()
            )),
            "Encountered the following error: extraction error: a path leads out of the destination directory: thunderbird/../../.bashrc"
        )
    );
}

#[test]
fn damaged_tar_fails_the_run() {
    let config = Config::new("/opt/tb", version(1, 0, 0));
    let mut tar = tar_with(b"thunderbird/thunderbird");
    tar[150] ^= 0x7f;
    let step = at(Stage::Fetch(config, version(1, 2, 3)))
        .step(Event::ArchiveFetched(Some(compressed(&tar))));
    assert_eq!(
        step,
        failed(
            UpdateError::Extraction(ExtractionError::Archive),
            "Encountered the following error: extraction error: the tar archive is damaged"
        )
    );
}

#[test]
fn failed_expansion_stores_nothing() {
    let config = Config::new("/opt/tb", version(1, 0, 0));
    let step = at(Stage::Unpack(config, version(1, 2, 3))).step(Event::Unpacked(false));
    assert_eq!(
        step,
        failed(
            UpdateError::Extraction(ExtractionError::Write),
            "Encountered the following error: extraction error: a file could not be written"
        )
    );
}

#[test]
fn record_is_stored_after_a_finished_expansion_only() {
    let config = Config::new("/opt/tb", version(1, 0, 0));
    let latest = version(1, 2, 3);
    let stages = [
        Stage::Launcher,
        Stage::LauncherWrite,
        Stage::Load,
        Stage::Discover(config.clone()),
        Stage::Fetch(config.clone(), latest),
        Stage::Unpack(config.clone(), latest),
        Stage::Save,
        Stage::Finished,
    ];
    let events = [
        Event::LauncherFound(true),
        Event::LauncherFound(false),
        Event::LauncherWritten(true),
        Event::LauncherWritten(false),
        Event::ConfigRead(None),
        Event::ConfigRead(Some(config.clone())),
        Event::PageFetched(None),
        Event::PageFetched(Some(page_with(&["1.2.3"]))),
        Event::ArchiveFetched(None),
        Event::ArchiveFetched(Some(compressed(&tar_with(b"thunderbird/thunderbird")))),
        Event::ArchiveFetched(Some(b"garbage".to_vec())),
        Event::Unpacked(true),
        Event::Unpacked(false),
        Event::ConfigWritten(true),
        Event::ConfigWritten(false),
    ];
    for stage in stages.iter() {
        for event in events.iter() {
            let step = at(stage.clone()).step(event.clone());
            if let Action::WriteConfig { config: stored, .. } = step.action {
                assert!(matches!(stage, Stage::Unpack(_, _)));
                assert_eq!(*event, Event::Unpacked(true));
                assert_eq!(stored, Config::new("/opt/tb", latest));
            }
        }
    }
}

#[test]
fn fatal_failures_end_the_run_and_others_do_not() {
    let config = Config::new("/opt/tb", version(1, 0, 0));
    let latest = version(1, 2, 3);
    let steps = [
        at(Stage::LauncherWrite).step(Event::LauncherWritten(false)),
        at(Stage::Discover(config.clone())).step(Event::PageFetched(None)),
        at(Stage::Discover(config.clone())).step(Event::PageFetched(Some(String::from("x")))),
        at(Stage::Fetch(config.clone(), latest)).step(Event::ArchiveFetched(None)),
        at(Stage::Fetch(config.clone(), latest)).step(Event::ArchiveFetched(Some(Vec::new()))),
        at(Stage::Unpack(config.clone(), latest)).step(Event::Unpacked(false)),
        at(Stage::Save).step(Event::ConfigWritten(false)),
    ];
    for step in steps.iter() {
        let failure = step.failure.clone().unwrap();
        assert!(step.notice.clone().unwrap().error);
        if failure.is_fatal() {
            assert_eq!(step.action, Action::Exit { code: EXIT_FAILURE });
            assert_eq!(step.next.stage, Stage::Finished);
        } else {
            assert_ne!(step.action, Action::Exit { code: EXIT_FAILURE });
        }
    }
    assert_eq!(steps[0].failure, Some(UpdateError::LauncherIo));
    assert_eq!(steps[6].failure, Some(UpdateError::ConfigIo));
}

#[test]
fn report_out_of_turn_fails_the_run() {
    let step = at(Stage::Load).step(Event::Unpacked(true));
    assert_eq!(
        step,
        ended(
            EXIT_FAILURE,
            told(true, "internal error: a report came out of turn"),
            None
        )
    );
    let over = at(Stage::Finished).step(Event::ConfigWritten(true));
    assert_eq!(over.action, Action::Exit { code: EXIT_FAILURE });
}

#[test]
fn exit_codes() {
    assert_eq!(EXIT_OK, 0);
    assert_eq!(EXIT_FAILURE, -1);
}

#[test]
fn which_failures_end_a_run() {
    assert!(UpdateError::Network.is_fatal());
    assert!(UpdateError::Parse.is_fatal());
    assert!(UpdateError::Extraction(ExtractionError::Decompress).is_fatal());
    assert!(UpdateError::Extraction(ExtractionError::Archive).is_fatal());
    assert!(UpdateError::Extraction(ExtractionError::Write).is_fatal());
    assert!(UpdateError::Extraction(ExtractionError::PathEscape(b"../x".to_vec())).is_fatal());
    assert!(!UpdateError::ConfigIo.is_fatal());
    assert!(!UpdateError::LauncherIo.is_fatal());
}

#[test]
fn failures_in_words() {
    assert_eq!(
        UpdateError::Network.message(),
        "network error: the server could not be reached"
    );
    assert_eq!(UpdateError::Parse.message(), "Could not parse version numbers");
    assert_eq!(
        UpdateError::ConfigIo.message(),
        "config error: the state file could not be read or written"
    );
    assert_eq!(
        UpdateError::LauncherIo.message(),
        "launcher error: the launcher file could not be written"
    );
    assert_eq!(
        UpdateError::Extraction(ExtractionError::Decompress).message(),
        "extraction error: the bzip2 stream is damaged"
    );
    assert_eq!(
        UpdateError::Extraction(ExtractionError::Archive).message(),
        "extraction error: the tar archive is damaged"
    );
    assert_eq!(
        UpdateError::Extraction(ExtractionError::Write).message(),
        "extraction error: a file could not be written"
    );
    assert_eq!(
        UpdateError::Extraction(ExtractionError::PathEscape(b"a/../b".to_vec())).message(),
        "extraction error: a path leads out of the destination directory: a/../b"
    );
}

#[test]
fn path_that_is_no_text_is_shown_with_replacement_characters() {
    assert_eq!(
        UpdateError::Extraction(ExtractionError::PathEscape(b"../\xff\xfe".to_vec())).message(),
        "extraction error: a path leads out of the destination directory: ../\u{fffd}\u{fffd}"
    );
    assert_eq!(
        UpdateError::Extraction(ExtractionError::PathEscape("../\u{e9}".as_bytes().to_vec()))
            .message(),
        "extraction error: a path leads out of the destination directory: ../\u{e9}"
    );
}
