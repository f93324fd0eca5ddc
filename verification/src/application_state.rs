//! What the updater keeps between runs and where it keeps it: the stored
//! record, the command line's one option, and the launcher file.

use crate::text::{replace_all, replaced};
use crate::version::Version;
use vstd::prelude::*;

verus! {

/// The name of the launcher file.
pub const APPLICATION_NAME: &'static str = "thunderbird.desktop";

/// Where launcher files lie, below the home directory.
pub const SHARE_APPLICATIONS_DIR: &'static str = ".local/share/applications";

/// Where the stored record lies, below the home directory.
pub const CONFIG_PATH: &'static str = ".config/tb-updater.json";

/// The destination directory where the command line names none.
pub const DEFAULT_DEST_DIR: &'static str = "~/Downloads";

/// The token of the launcher template that stands for the destination
/// directory.
pub const PLACEHOLDER: &'static str = "PLACEHOLDER";

/// The launcher file, with `PLACEHOLDER` where the destination directory
/// goes.
pub const LAUNCHER_TEMPLATE: &'static str = "[Desktop Entry]\n\
Version=1.0\n\
Type=Application\n\
Name=Thunderbird\n\
GenericName=Mail Client\n\
Comment=Send and receive mail with Thunderbird\n\
Exec=PLACEHOLDER/thunderbird/thunderbird %u\n\
Icon=thunderbird\n\
Terminal=false\n\
Categories=Network;Email;\n\
MimeType=x-scheme-handler/mailto;message/rfc822;\n\
StartupNotify=true\n";

/// The path of `relative` below the directory `base`.
pub open spec fn joined(base: Seq<char>, relative: Seq<char>) -> Seq<char> {
    base + seq!['/'] + relative
}

/// `path` is `~` or starts with `~/`.
pub open spec fn starts_at_home(path: Seq<char>) -> bool {
    path.len() >= 1 && path[0] == '~' && (path.len() == 1 || path[1] == '/')
}

/// `path` with a leading `~` replaced by the home directory. A `~` anywhere
/// else stays.
pub open spec fn expanded(path: Seq<char>, home: Seq<char>) -> Seq<char> {
    if starts_at_home(path) {
        home + path.subrange(1, path.len() as int)
    } else {
        path
    }
}

/// The text of the launcher file for a destination directory.
pub open spec fn launcher_text(dest_dir: Seq<char>) -> Seq<char> {
    replaced(LAUNCHER_TEMPLATE@, PLACEHOLDER@, dest_dir)
}

/// The launcher file after a run that found `existing` and was given
/// `dest_dir`: a file that is there stays as it is.
pub open spec fn launcher_after(existing: Option<Seq<char>>, dest_dir: Seq<char>) -> Seq<char> {
    match existing {
        Some(text) => text,
        None => launcher_text(dest_dir),
    }
}

/// Joins a directory and a path below it.
pub fn join(base: &str, relative: &str) -> (path: String)
    ensures
        path@ == joined(base@, relative@),
{
    proof {
        reveal_strlit("/");
    }
    let mut path = String::from_str(base);
    path.append("/");
    path.append(relative);
    path
}

/// Expands a leading `~` against the home directory.
pub fn expand_home(path: &str, home: &str) -> (full: String)
    ensures
        full@ == expanded(path@, home@),
{
    let n = path.unicode_len();
    let at_home = n >= 1 && path.get_char(0) == '~' && (n == 1 || path.get_char(1) == '/');
    if at_home {
        let mut full = String::from_str(home);
        full.append(path.substring_char(1, n));
        full
    } else {
        String::from_str(path)
    }
}

/// The record that is kept between runs.
#[derive(Debug, Clone, PartialEq, Eq)]
pub struct Config {
    /// The version that was last installed; `0.0.0` before the first.
    pub version: Version,
    /// The directory into which archives are expanded.
    pub dest_dir: String,
}

impl Config {
    /// A record of the given destination and version.
    pub fn new(dest_dir: &str, version: Version) -> (config: Config)
        ensures
            config.version == version,
            config.dest_dir@ == dest_dir@,
    {
        Config { version, dest_dir: String::from_str(dest_dir) }
    }

    /// The path of the stored record for a home directory.
    pub fn path(home: &str) -> (path: String)
        ensures
            path@ == joined(home@, CONFIG_PATH@),
    {
        join(home, CONFIG_PATH)
    }

    /// The record that a run works with: the stored one where there is one,
    /// else that of a first run, with no version known and the destination
    /// that the command line gave.
    pub fn or_first_run(stored: Option<Config>, dest_dir: &str) -> (config: Config)
        ensures
            match stored {
                Some(record) => config == record,
                None => config.version@ == (0int, 0int, 0int) && config.dest_dir@ == dest_dir@,
            },
    {
        match stored {
            Some(record) => record,
            None => Config::new(dest_dir, Version::default()),
        }
    }

    /// The record after `latest` was installed: the version moves on, the
    /// destination stays.
    pub fn advanced(self, latest: Version) -> (config: Config)
        ensures
            config.version == latest,
            config.dest_dir == self.dest_dir,
    {
        Config { version: latest, dest_dir: self.dest_dir }
    }

    /// The directory into which archives are expanded, with a leading `~`
    /// expanded against the home directory.
    pub fn destination(&self, home: &str) -> (full: String)
        ensures
            full@ == expanded(self.dest_dir@, home@),
    {
        expand_home(self.dest_dir.as_str(), home)
    }
}

/// What the command line gives.
#[derive(Debug, Clone, PartialEq, Eq)]
pub struct Args {
    /// The destination directory for the expanded archive.
    pub dest_dir: String,
}

impl Args {
    /// The arguments for a command line that named `dest_dir`, or none.
    pub fn new(dest_dir: Option<String>) -> (args: Args)
        ensures
            args.dest_dir@ == match dest_dir {
                Some(dir) => dir@,
                None => DEFAULT_DEST_DIR@,
            },
    {
        match dest_dir {
            Some(dir) => Args { dest_dir: dir },
            None => Args { dest_dir: String::from_str(DEFAULT_DEST_DIR) },
        }
    }
}

impl Default for Args {
    /// The arguments of an empty command line.
    fn default() -> (args: Args)
        ensures
            args.dest_dir@ == DEFAULT_DEST_DIR@,
    {
        Args::new(None)
    }
}

/// The launcher file of the installed program.
pub struct DotDesktop;

impl DotDesktop {
    /// The directory of the launcher file for a home directory.
    pub fn directory(home: &str) -> (path: String)
        ensures
            path@ == joined(home@, SHARE_APPLICATIONS_DIR@),
    {
        join(home, SHARE_APPLICATIONS_DIR)
    }

    /// The path of the launcher file for a home directory.
    pub fn path(home: &str) -> (path: String)
        ensures
            path@ == joined(joined(home@, SHARE_APPLICATIONS_DIR@), APPLICATION_NAME@),
    {
        let directory = DotDesktop::directory(home);
        join(directory.as_str(), APPLICATION_NAME)
    }

    /// The text of the launcher file: the template with the destination
    /// directory in the place of `PLACEHOLDER`.
    pub fn contents(thunderbird_dest: &str) -> (text: String)
        ensures
            text@ == launcher_text(thunderbird_dest@),
    {
        replace_all(LAUNCHER_TEMPLATE, PLACEHOLDER, thunderbird_dest)
    }

    /// What a run writes to the launcher file: nothing where the file is
    /// there already, else its text.
    pub fn install(exists: bool, thunderbird_dest: &str) -> (text: Option<String>)
        ensures
            text is None <==> exists,
            text matches Some(t) ==> t@ == launcher_text(thunderbird_dest@),
    {
        if exists {
            None
        } else {
            Some(DotDesktop::contents(thunderbird_dest))
        }
    }
}

/// A second run leaves the launcher file of the first as it is, whatever
/// destination the second is given.
pub proof fn lemma_launcher_written_once(
    existing: Option<Seq<char>>,
    first_dest: Seq<char>,
    second_dest: Seq<char>,
)
    ensures
        launcher_after(Some(launcher_after(existing, first_dest)), second_dest) == launcher_after(
            existing,
            first_dest,
        ),
        existing is None ==> launcher_after(existing, first_dest) == launcher_text(first_dest),
{
}

} // verus!
