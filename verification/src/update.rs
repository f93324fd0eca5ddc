//! One run of the updater as a sequence of decisions. The caller does what a
//! step asks for (look for a file, fetch a page, expand an archive) and
//! reports what came of it; each report decides the next step. The stored
//! record is written only after an archive was expanded to the end.

use crate::application_state::{
    expanded, joined, launcher_text, Args, Config, DotDesktop, APPLICATION_NAME, CONFIG_PATH,
    SHARE_APPLICATIONS_DIR,
};
use crate::discover::{latest_release, lemma_lists_one_latest, lists_latest, RELEASES};
use crate::download::{archive_url, archive_url_spec};
use crate::error::{message_spec, UpdateError};
use crate::extract::{
    all_inside, bzip2_decoded, open_archive, opens_to, tar_member_paths, ExtractionError,
};
use crate::version::{at_most, format_spec, Version};
use vstd::prelude::*;

verus! {

/// The exit status of a run that installed a release or found nothing newer.
pub const EXIT_OK: i32 = 0;

/// The exit status of a run that failed.
pub const EXIT_FAILURE: i32 = -1;

/// Said before the reason why the index page could not be had.
pub const SAY_ACCESS: &'static str = "Could not access thunderbird website: ";

/// Said before the reason why a release could not be installed.
pub const SAY_ERROR: &'static str = "Encountered the following error: ";

/// Said before the latest version, where nothing newer was found.
pub const SAY_LATEST: &'static str = "Latest release is ";

/// Said between the latest version and the installed one.
pub const SAY_HAVE: &'static str = " and we already have ";

/// Said before the version that is about to be fetched.
pub const SAY_DOWNLOADING: &'static str = "Downloading version ";

/// Said once a release was installed.
pub const SAY_UPDATED: &'static str = "Successfully updated thunderbird, please restart it";

/// Said before the reason why the record could not be stored.
pub const SAY_SAVE_FAILED: &'static str = "Failed to save config/state: ";

/// Said before the path of a launcher file that could not be written.
pub const SAY_LAUNCHER_FAILED: &'static str = "Failed to write .desktop to ";

/// Said of a report that does not answer the step before it.
pub const SAY_STRAY: &'static str = "internal error: a report came out of turn";

/// A line for the user.
#[derive(Debug, Clone, PartialEq, Eq)]
pub struct Notice {
    /// Whether the line is a diagnostic, for the error stream.
    pub error: bool,
    /// The line.
    pub text: String,
}

/// What the caller reports back.
#[derive(Debug, Clone, PartialEq, Eq)]
pub enum Event {
    /// Whether the launcher file is there.
    LauncherFound(bool),
    /// Whether the launcher file could be written.
    LauncherWritten(bool),
    /// The stored record, where one could be read.
    ConfigRead(Option<Config>),
    /// The body of the index page, where the server gave one.
    PageFetched(Option<String>),
    /// The body of the archive, where the server gave all of it.
    ArchiveFetched(Option<Vec<u8>>),
    /// Whether the archive was expanded to the end.
    Unpacked(bool),
    /// Whether the record could be stored.
    ConfigWritten(bool),
}

/// What the caller is asked to do.
#[derive(Debug, Clone, PartialEq, Eq)]
pub enum Action {
    /// Look whether the launcher file is there.
    FindLauncher { path: String },
    /// Create the directory with all that leads to it, and write the file.
    WriteLauncher { directory: String, path: String, contents: String },
    /// Read the stored record.
    ReadConfig { path: String },
    /// Fetch the index page.
    FetchPage { url: String },
    /// Fetch the archive.
    FetchArchive { url: String },
    /// Expand the tar archive into the directory.
    Unpack { archive: Vec<u8>, dest_dir: String },
    /// Store the record.
    WriteConfig { path: String, config: Config },
    /// End the run with this status.
    Exit { code: i32 },
}

/// How far a run has come: what it has asked for and waits to hear of.
#[derive(Debug, Clone, PartialEq, Eq)]
pub enum Stage {
    /// Whether the launcher file is there.
    Launcher,
    /// Whether the launcher file was written.
    LauncherWrite,
    /// The stored record.
    Load,
    /// The index page.
    Discover(Config),
    /// The archive of the version.
    Fetch(Config, Version),
    /// The expansion of the archive of the version.
    Unpack(Config, Version),
    /// The storing of the record.
    Save,
    /// Nothing: the run is over.
    Finished,
}

/// What stays the same through a run.
#[derive(Debug, Clone, PartialEq, Eq)]
pub struct Run {
    /// The user's home directory.
    pub home: String,
    /// The destination directory that the command line gave.
    pub dest_arg: String,
}

/// A run and how far it has come.
#[derive(Debug, Clone, PartialEq, Eq)]
pub struct Updater {
    /// What stays the same through the run.
    pub run: Run,
    /// What the run has asked for and waits to hear of.
    pub stage: Stage,
}

/// One step: where the run stands after it, what the caller does next, and
/// what the user is told.
#[derive(Debug, Clone, PartialEq, Eq)]
pub struct Step {
    /// The run after the step.
    pub next: Updater,
    /// What the caller does next.
    pub action: Action,
    /// What the user is told, if anything.
    pub notice: Option<Notice>,
    /// The failure that the step has met, if it has met one.
    pub failure: Option<UpdateError>,
}

/// The path of the launcher file below a home directory.
pub open spec fn launcher_path(home: Seq<char>) -> Seq<char> {
    joined(joined(home, SHARE_APPLICATIONS_DIR@), APPLICATION_NAME@)
}

/// The two runs have the same home directory and destination.
pub open spec fn same_run(a: Run, b: Run) -> bool {
    a.home@ == b.home@ && a.dest_arg@ == b.dest_arg@
}

/// The two records say the same.
pub open spec fn same_config(a: Config, b: Config) -> bool {
    a.version == b.version && a.dest_dir@ == b.dest_dir@
}

/// The user is told `text`, as a diagnostic or not.
pub open spec fn says(notice: Option<Notice>, error: bool, text: Seq<char>) -> bool {
    notice matches Some(n) && n.error == error && n.text@ == text
}

/// The step ends the run with `code`.
pub open spec fn ends(out: Step, code: i32) -> bool {
    out.next.stage is Finished && out.action == (Action::Exit { code })
}

/// The step has met `error`, ends the run as failed, and tells why: the
/// words of the failure, after `intro`.
pub open spec fn fails(out: Step, error: UpdateError, intro: Seq<char>) -> bool {
    &&& ends(out, EXIT_FAILURE)
    &&& out.failure == Some(error)
    &&& says(out.notice, true, intro + message_spec(error))
}

/// The step asks for the stored record.
pub open spec fn asks_for_config(run: Run, out: Step) -> bool {
    &&& out.next.stage is Load
    &&& out.action matches Action::ReadConfig { path }
    &&& path@ == joined(run.home@, CONFIG_PATH@)
}

/// The first step of a run: look for the launcher file.
pub open spec fn started(home: Seq<char>, dest_arg: Seq<char>, out: Step) -> bool {
    &&& out.next.run.home@ == home
    &&& out.next.run.dest_arg@ == dest_arg
    &&& out.next.stage is Launcher
    &&& out.action matches Action::FindLauncher { path }
    &&& path@ == launcher_path(home)
    &&& out.notice is None
    &&& out.failure is None
}

/// The step after the look for the launcher file: a file that is there is
/// left alone; else it is written, for the destination of the command line.
pub open spec fn launcher_sought(run: Run, found: bool, out: Step) -> bool {
    &&& same_run(out.next.run, run)
    &&& out.notice is None
    &&& out.failure is None
    &&& if found {
        asks_for_config(run, out)
    } else {
        &&& out.next.stage is LauncherWrite
        &&& out.action matches Action::WriteLauncher { directory, path, contents }
        &&& directory@ == joined(run.home@, SHARE_APPLICATIONS_DIR@)
        &&& path@ == launcher_path(run.home@)
        &&& contents@ == launcher_text(run.dest_arg@)
    }
}

/// The step after the launcher file was written, or not: the run goes on
/// either way, and a failure is reported.
pub open spec fn launcher_settled(run: Run, written: bool, out: Step) -> bool {
    &&& same_run(out.next.run, run)
    &&& asks_for_config(run, out)
    &&& if written {
        out.notice is None && out.failure is None
    } else {
        &&& out.failure == Some(UpdateError::LauncherIo)
        &&& says(out.notice, true, SAY_LAUNCHER_FAILED@ + launcher_path(run.home@))
    }
}

/// The step after the stored record was read, or not: the run works with
/// the stored record, or with that of a first run, and asks for the index
/// page.
pub open spec fn config_settled(run: Run, stored: Option<Config>, out: Step) -> bool {
    &&& same_run(out.next.run, run)
    &&& out.notice is None
    &&& out.failure is None
    &&& out.next.stage matches Stage::Discover(config)
    &&& match stored {
        Some(record) => same_config(config, record),
        None => config.version@ == (0int, 0int, 0int) && config.dest_dir@ == run.dest_arg@,
    }
    &&& out.action matches Action::FetchPage { url }
    &&& url@ == RELEASES@
}

/// The step after discovery. With no version found the run fails. With a
/// latest version that is not later than the installed one the run ends
/// well, and nothing is fetched. Else the archive of the latest version is
/// asked for.
pub open spec fn discovered(run: Run, config: Config, found: Option<Version>, out: Step) -> bool {
    &&& same_run(out.next.run, run)
    &&& match found {
        None => fails(out, UpdateError::Parse, Seq::empty()),
        Some(latest) => if at_most(latest@, config.version@) {
            &&& ends(out, EXIT_OK)
            &&& out.failure is None
            &&& says(
                out.notice,
                false,
                SAY_LATEST@ + format_spec(latest@) + SAY_HAVE@ + format_spec(config.version@),
            )
        } else {
            &&& out.next.stage matches Stage::Fetch(kept, version)
            &&& same_config(kept, config)
            &&& version == latest
            &&& out.action matches Action::FetchArchive { url }
            &&& url@ == archive_url_spec(latest@)
            &&& out.failure is None
            &&& says(out.notice, false, SAY_DOWNLOADING@ + format_spec(latest@))
        },
    }
}

/// The step after the index page came, or not.
pub open spec fn page_settled(run: Run, config: Config, page: Option<String>, out: Step) -> bool {
    match page {
        None => same_run(out.next.run, run) && fails(out, UpdateError::Network, SAY_ACCESS@),
        Some(body) => exists|found: Option<Version>| #[trigger]
            lists_latest(body@, found) && discovered(run, config, found, out),
    }
}

/// The step after the archive was opened: a sound archive is handed on to
/// be expanded into the record's destination; else the run fails with the
/// reason.
pub open spec fn opened(
    run: Run,
    config: Config,
    latest: Version,
    archive: Result<Vec<u8>, ExtractionError>,
    out: Step,
) -> bool {
    &&& same_run(out.next.run, run)
    &&& match archive {
        Ok(tar) => {
            &&& out.next.stage matches Stage::Unpack(kept, version)
            &&& same_config(kept, config)
            &&& version == latest
            &&& out.action matches Action::Unpack { archive: handed, dest_dir }
            &&& handed@ == tar@
            &&& dest_dir@ == expanded(config.dest_dir@, run.home@)
            &&& out.notice is None
            &&& out.failure is None
        },
        Err(reason) => fails(out, UpdateError::Extraction(reason), SAY_ERROR@),
    }
}

/// The step after the archive came, or not.
pub open spec fn archive_settled(
    run: Run,
    config: Config,
    latest: Version,
    body: Option<Vec<u8>>,
    out: Step,
) -> bool {
    match body {
        None => same_run(out.next.run, run) && fails(out, UpdateError::Network, SAY_ERROR@),
        Some(bytes) => exists|archive: Result<Vec<u8>, ExtractionError>| #[trigger]
            opens_to(bytes@, archive) && opened(run, config, latest, archive, out),
    }
}

/// The step after the archive was expanded, or not. Only an archive that
/// was expanded to the end moves the record on: its version becomes the
/// latest, its destination stays, and it is handed on to be stored.
pub open spec fn unpack_settled(
    run: Run,
    config: Config,
    latest: Version,
    done: bool,
    out: Step,
) -> bool {
    &&& same_run(out.next.run, run)
    &&& if done {
        &&& out.next.stage is Save
        &&& out.action matches Action::WriteConfig { path, config: record }
        &&& path@ == joined(run.home@, CONFIG_PATH@)
        &&& record.version == latest
        &&& record.dest_dir@ == config.dest_dir@
        &&& out.failure is None
        &&& says(out.notice, false, SAY_UPDATED@)
    } else {
        fails(out, UpdateError::Extraction(ExtractionError::Write), SAY_ERROR@)
    }
}

/// The last step: the run ends well whether the record was stored or not,
/// and a failure to store it is reported.
pub open spec fn save_settled(run: Run, stored: bool, out: Step) -> bool {
    &&& same_run(out.next.run, run)
    &&& ends(out, EXIT_OK)
    &&& if stored {
        out.notice is None && out.failure is None
    } else {
        &&& out.failure == Some(UpdateError::ConfigIo)
        &&& says(out.notice, true, SAY_SAVE_FAILED@ + message_spec(UpdateError::ConfigIo))
    }
}

/// What `step` gives for a run and a report. A report that does not answer
/// what the run has asked for ends the run as failed.
pub open spec fn steps_to(updater: Updater, event: Event, out: Step) -> bool {
    let run = updater.run;
    match (updater.stage, event) {
        (Stage::Launcher, Event::LauncherFound(found)) => launcher_sought(run, found, out),
        (Stage::LauncherWrite, Event::LauncherWritten(written)) => launcher_settled(
            run,
            written,
            out,
        ),
        (Stage::Load, Event::ConfigRead(stored)) => config_settled(run, stored, out),
        (Stage::Discover(config), Event::PageFetched(page)) => page_settled(
            run,
            config,
            page,
            out,
        ),
        (Stage::Fetch(config, latest), Event::ArchiveFetched(body)) => archive_settled(
            run,
            config,
            latest,
            body,
            out,
        ),
        (Stage::Unpack(config, latest), Event::Unpacked(done)) => unpack_settled(
            run,
            config,
            latest,
            done,
            out,
        ),
        (Stage::Save, Event::ConfigWritten(stored)) => save_settled(run, stored, out),
        _ => {
            &&& same_run(out.next.run, run)
            &&& ends(out, EXIT_FAILURE)
            &&& out.failure is None
            &&& says(out.notice, true, SAY_STRAY@)
        },
    }
}

/// A line for the user made of two parts.
fn notice(error: bool, head: &str, tail: &str) -> (n: Option<Notice>)
    ensures
        says(n, error, head@ + tail@),
{
    let mut text = String::from_str(head);
    text.append(tail);
    Some(Notice { error, text })
}

impl Run {
    /// The step that ends the run with a status.
    fn finish(self, code: i32, told: Option<Notice>, failure: Option<UpdateError>) -> (out: Step)
        ensures
            out.next.run == self,
            ends(out, code),
            out.notice == told,
            out.failure == failure,
    {
        Step {
            next: Updater { run: self, stage: Stage::Finished },
            action: Action::Exit { code },
            notice: told,
            failure,
        }
    }

    /// The step that ends the run as failed, for a failure and what is said
    /// before its words.
    fn fail(self, error: UpdateError, intro: &str) -> (out: Step)
        ensures
            out.next.run == self,
            fails(out, error, intro@),
    {
        let reason = error.message();
        let told = notice(true, intro, reason.as_str());
        self.finish(EXIT_FAILURE, told, Some(error))
    }

    /// The step that asks for the stored record.
    fn ask_for_config(self, told: Option<Notice>, failure: Option<UpdateError>) -> (out: Step)
        ensures
            out.next.run == self,
            asks_for_config(self, out),
            out.notice == told,
            out.failure == failure,
    {
        let path = Config::path(self.home.as_str());
        Step {
            next: Updater { run: self, stage: Stage::Load },
            action: Action::ReadConfig { path },
            notice: told,
            failure,
        }
    }

    /// Decides after the look for the launcher file.
    pub fn after_launcher_sought(self, found: bool) -> (out: Step)
        ensures
            launcher_sought(self, found, out),
    {
        match DotDesktop::install(found, self.dest_arg.as_str()) {
            None => self.ask_for_config(None, None),
            Some(contents) => {
                let directory = DotDesktop::directory(self.home.as_str());
                let path = DotDesktop::path(self.home.as_str());
                Step {
                    next: Updater { run: self, stage: Stage::LauncherWrite },
                    action: Action::WriteLauncher { directory, path, contents },
                    notice: None,
                    failure: None,
                }
            },
        }
    }

    /// Decides after the launcher file was written, or not.
    pub fn after_launcher_written(self, written: bool) -> (out: Step)
        ensures
            launcher_settled(self, written, out),
    {
        if written {
            self.ask_for_config(None, None)
        } else {
            let path = DotDesktop::path(self.home.as_str());
            let told = notice(true, SAY_LAUNCHER_FAILED, path.as_str());
            self.ask_for_config(told, Some(UpdateError::LauncherIo))
        }
    }

    /// Decides after the stored record was read, or not.
    pub fn after_config_read(self, stored: Option<Config>) -> (out: Step)
        ensures
            config_settled(self, stored, out),
    {
        let config = Config::or_first_run(stored, self.dest_arg.as_str());
        Step {
            next: Updater { run: self, stage: Stage::Discover(config) },
            action: Action::FetchPage { url: String::from_str(RELEASES) },
            notice: None,
            failure: None,
        }
    }

    /// Decides after discovery, for the record of this run and the latest
    /// version that the index page lists, if it lists any.
    pub fn after_discovery(self, config: Config, found: Option<Version>) -> (out: Step)
        ensures
            discovered(self, config, found, out),
    {
        match found {
            None => {
                proof {
                    reveal_strlit("");
                }
                self.fail(UpdateError::Parse, "")
            },
            Some(latest) => {
                let name = latest.to_string();
                if latest <= config.version {
                    let have = config.version.to_string();
                    let mut text = String::from_str(SAY_LATEST);
                    text.append(name.as_str());
                    text.append(SAY_HAVE);
                    text.append(have.as_str());
                    self.finish(EXIT_OK, Some(Notice { error: false, text }), None)
                } else {
                    let told = notice(false, SAY_DOWNLOADING, name.as_str());
                    let url = archive_url(&latest);
                    Step {
                        next: Updater { run: self, stage: Stage::Fetch(config, latest) },
                        action: Action::FetchArchive { url },
                        notice: told,
                        failure: None,
                    }
                }
            },
        }
    }

    /// Decides after the index page came, or not.
    pub fn after_page(self, config: Config, page: Option<String>) -> (out: Step)
        ensures
            page_settled(self, config, page, out),
    {
        match page {
            None => self.fail(UpdateError::Network, SAY_ACCESS),
            Some(body) => {
                let found = latest_release(body.as_str());
                self.after_discovery(config, found)
            },
        }
    }

    /// Decides after the archive was opened, for what opening it gave.
    pub fn after_opening(
        self,
        config: Config,
        latest: Version,
        archive: Result<Vec<u8>, ExtractionError>,
    ) -> (out: Step)
        ensures
            opened(self, config, latest, archive, out),
    {
        match archive {
            Ok(tar) => {
                let dest_dir = config.destination(self.home.as_str());
                Step {
                    next: Updater { run: self, stage: Stage::Unpack(config, latest) },
                    action: Action::Unpack { archive: tar, dest_dir },
                    notice: None,
                    failure: None,
                }
            },
            Err(reason) => self.fail(UpdateError::Extraction(reason), SAY_ERROR),
        }
    }

    /// Decides after the archive came, or not.
    pub fn after_archive(
        self,
        config: Config,
        latest: Version,
        body: Option<Vec<u8>>,
    ) -> (out: Step)
        ensures
            archive_settled(self, config, latest, body, out),
    {
        match body {
            None => self.fail(UpdateError::Network, SAY_ERROR),
            Some(bytes) => {
                let archive = open_archive(bytes.as_slice());
                self.after_opening(config, latest, archive)
            },
        }
    }

    /// Decides after the archive was expanded, or not.
    pub fn after_unpack(self, config: Config, latest: Version, done: bool) -> (out: Step)
        ensures
            unpack_settled(self, config, latest, done, out),
    {
        if done {
            let path = Config::path(self.home.as_str());
            let record = config.advanced(latest);
            Step {
                next: Updater { run: self, stage: Stage::Save },
                action: Action::WriteConfig { path, config: record },
                notice: Some(Notice { error: false, text: String::from_str(SAY_UPDATED) }),
                failure: None,
            }
        } else {
            self.fail(UpdateError::Extraction(ExtractionError::Write), SAY_ERROR)
        }
    }

    /// Decides after the record was stored, or not.
    pub fn after_save(self, stored: bool) -> (out: Step)
        ensures
            save_settled(self, stored, out),
    {
        if stored {
            self.finish(EXIT_OK, None, None)
        } else {
            let error = UpdateError::ConfigIo;
            let reason = error.message();
            let told = notice(true, SAY_SAVE_FAILED, reason.as_str());
            self.finish(EXIT_OK, told, Some(error))
        }
    }
}

impl Updater {
    /// Begins a run for a home directory and the command line's arguments.
    pub fn start(home: &str, args: Args) -> (out: Step)
        ensures
            started(home@, args.dest_dir@, out),
    {
        let path = DotDesktop::path(home);
        let run = Run { home: String::from_str(home), dest_arg: args.dest_dir };
        Step {
            next: Updater { run, stage: Stage::Launcher },
            action: Action::FindLauncher { path },
            notice: None,
            failure: None,
        }
    }

    /// Takes the caller's report and decides the next step.
    pub fn step(self, event: Event) -> (out: Step)
        ensures
            steps_to(self, event, out),
    {
        let Updater { run, stage } = self;
        match (stage, event) {
            (Stage::Launcher, Event::LauncherFound(found)) => run.after_launcher_sought(found),
            (Stage::LauncherWrite, Event::LauncherWritten(written)) => run.after_launcher_written(
                written,
            ),
            (Stage::Load, Event::ConfigRead(stored)) => run.after_config_read(stored),
            (Stage::Discover(config), Event::PageFetched(page)) => run.after_page(config, page),
            (Stage::Fetch(config, latest), Event::ArchiveFetched(body)) => run.after_archive(
                config,
                latest,
                body,
            ),
            (Stage::Unpack(config, latest), Event::Unpacked(done)) => run.after_unpack(
                config,
                latest,
                done,
            ),
            (Stage::Save, Event::ConfigWritten(stored)) => run.after_save(stored),
            (_, _) => {
                let told = Some(Notice { error: true, text: String::from_str(SAY_STRAY) });
                run.finish(EXIT_FAILURE, told, None)
            },
        }
    }
}

/// A run that finds the installed version to be the latest that the index
/// page lists, or later than it, fetches nothing and ends with status zero.
pub proof fn lemma_upgrade_gate(updater: Updater, page: String, latest: Version, out: Step)
    requires
        updater.stage matches Stage::Discover(config) && at_most(latest@, config.version@),
        lists_latest(page@, Some(latest)),
        steps_to(updater, Event::PageFetched(Some(page)), out),
    ensures
        ends(out, EXIT_OK),
        !(out.action is FetchArchive),
        out.failure is None,
{
    let config = updater.stage->Discover_0;
    let found = choose|found: Option<Version>| #[trigger]
        lists_latest(page@, found) && discovered(updater.run, config, found, out);
    lemma_lists_one_latest(page@, found, Some(latest));
}

/// A run that goes from the index page to the end of the expansion hands
/// on a record with the latest version that the page lists and with the
/// destination that the record had before.
pub proof fn lemma_install_advances_record(
    updater: Updater,
    page: String,
    fetch: Step,
    body: Vec<u8>,
    unpack: Step,
    save: Step,
)
    requires
        updater.stage is Discover,
        steps_to(updater, Event::PageFetched(Some(page)), fetch),
        steps_to(fetch.next, Event::ArchiveFetched(Some(body)), unpack),
        steps_to(unpack.next, Event::Unpacked(true), save),
        save.action is WriteConfig,
    ensures
        lists_latest(page@, Some(save.action->WriteConfig_config.version)),
        save.action->WriteConfig_config.dest_dir@ == updater.stage->Discover_0.dest_dir@,
        save.next.stage is Save,
{
}

/// The record is handed on to be stored by one step alone: the one that
/// hears that the archive was expanded to the end. The record then has the
/// version that was installed and the destination that it had.
pub proof fn lemma_record_moves_only_after_install(updater: Updater, event: Event, out: Step)
    requires
        steps_to(updater, event, out),
        out.action is WriteConfig,
    ensures
        updater.stage matches Stage::Unpack(config, latest) && event == Event::Unpacked(true)
            && out.action->WriteConfig_config.version == latest
            && out.action->WriteConfig_config.dest_dir@ == config.dest_dir@,
{
}

/// An archive is handed on to be expanded by one step alone: the one that
/// hears that the archive came. What is handed on is what the download
/// decodes to, a tar archive in which no member's path leads out of the
/// destination.
pub proof fn lemma_only_sound_archives_expand(updater: Updater, event: Event, out: Step)
    requires
        steps_to(updater, event, out),
        out.action is Unpack,
    ensures
        updater.stage is Fetch,
        event matches Event::ArchiveFetched(Some(bytes)) && bzip2_decoded(bytes@) == Some(
            out.action->archive@,
        ),
        tar_member_paths(out.action->archive@) matches Some(listed) && all_inside(listed),
{
}

/// A failure that a step has met ends the run exactly where it is one of
/// the network, of discovery or of extraction; the run then ends as failed.
/// After a failure of the launcher file or of the stored record the run goes
/// on or ends well. Either way the user is told.
pub proof fn lemma_fatal_failures_end_the_run(updater: Updater, event: Event, out: Step)
    requires
        steps_to(updater, event, out),
        out.failure is Some,
    ensures
        out.failure->0.fatal() ==> ends(out, EXIT_FAILURE),
        !out.failure->0.fatal() ==> !(out.action == (Action::Exit { code: EXIT_FAILURE })),
        out.notice matches Some(n) && n.error,
{
}

/// A failed expansion ends the run as failed, and nothing is stored.
pub proof fn lemma_failure_keeps_record(
    run: Run,
    config: Config,
    latest: Version,
    out: Step,
)
    requires
        unpack_settled(run, config, latest, false, out),
    ensures
        out.action == (Action::Exit { code: EXIT_FAILURE }),
        !(out.action is WriteConfig),
        out.next.stage is Finished,
{
}

} // verus!
