use tb_updater::application_state::{
    expand_home, join, Args, Config, DotDesktop, APPLICATION_NAME, CONFIG_PATH, DEFAULT_DEST_DIR,
    LAUNCHER_TEMPLATE, PLACEHOLDER, SHARE_APPLICATIONS_DIR,
};
use tb_updater::text::replace_all;
use tb_updater::version::Version;

#[test]
fn config_new_holds_what_it_is_given() {
    let version = Version::new(1, 2, 3).unwrap();
    let config = Config::new("~/Downloads", version);
    assert_eq!(config.version, version);
    assert_eq!(config.dest_dir, "~/Downloads");
}

#[test]
fn first_run_has_no_version_and_the_given_destination() {
    let config = Config::or_first_run(None, "/opt/mail");
    assert_eq!(config.version, Version::default());
    assert_eq!(config.dest_dir, "/opt/mail");
}

#[test]
fn stored_record_wins_over_the_command_line() {
    let stored = Config::new("/stored", Version::new(2, 0, 0).unwrap());
    let config = Config::or_first_run(Some(stored.clone()), "/from/cli");
    assert_eq!(config, stored);
}

#[test]
fn advanced_record_keeps_its_destination() {
    let config = Config::new("~/apps", Version::default());
    let latest = Version::new(115, 3, 1).unwrap();
    let after = config.advanced(latest);
    assert_eq!(after.version, latest);
    assert_eq!(after.dest_dir, "~/apps");
}

#[test]
fn paths_below_home() {
    assert_eq!(Config::path("/home/ada"), "/home/ada/.config/tb-updater.json");
    assert_eq!(
        DotDesktop::directory("/home/ada"),
        "/home/ada/.local/share/applications"
    );
    assert_eq!(
        DotDesktop::path("/home/ada"),
        "/home/ada/.local/share/applications/thunderbird.desktop"
    );
    assert_eq!(join("/a", "b/c"), "/a/b/c");
    assert_eq!(join("", ""), "/");
    assert_eq!(CONFIG_PATH, ".config/tb-updater.json");
    assert_eq!(SHARE_APPLICATIONS_DIR, ".local/share/applications");
    assert_eq!(APPLICATION_NAME, "thunderbird.desktop");
}

#[test]
fn tilde_expands_at_the_front_only() {
    assert_eq!(expand_home("~", "/home/ada"), "/home/ada");
    assert_eq!(expand_home("~/Downloads", "/home/ada"), "/home/ada/Downloads");
    assert_eq!(expand_home("~/", "/home/ada"), "/home/ada/");
    assert_eq!(expand_home("/abs/path", "/home/ada"), "/abs/path");
    assert_eq!(expand_home("relative/~/x", "/home/ada"), "relative/~/x");
    assert_eq!(expand_home("~ada/x", "/home/ada"), "~ada/x");
    assert_eq!(expand_home("/tmp/file~", "/home/ada"), "/tmp/file~");
    assert_eq!(expand_home("", "/home/ada"), "");
    assert_eq!(expand_home("~/\u{e9}t\u{e9}", "/home/zo\u{eb}"), "/home/zo\u{eb}/\u{e9}t\u{e9}");
}

#[test]
fn destination_of_a_record() {
    let config = Config::new("~/Downloads", Version::default());
    assert_eq!(config.destination("/home/ada"), "/home/ada/Downloads");
    let fixed = Config::new("/srv/mail", Version::default());
    assert_eq!(fixed.destination("/home/ada"), "/srv/mail");
}

#[test]
fn default_destination() {
    assert_eq!(DEFAULT_DEST_DIR, "~/Downloads");
    assert_eq!(Args::default().dest_dir, "~/Downloads");
    assert_eq!(Args::new(None).dest_dir, "~/Downloads");
    assert_eq!(Args::new(Some(String::from("/x"))).dest_dir, "/x");
}

#[test]
fn template_has_the_token_once() {
    assert_eq!(PLACEHOLDER, "PLACEHOLDER");
    assert_eq!(LAUNCHER_TEMPLATE.matches(PLACEHOLDER).count(), 1);
    assert!(LAUNCHER_TEMPLATE.starts_with("[Desktop Entry]\n"));
}

#[test]
fn launcher_text_has_the_destination_for_the_token() {
    let text = DotDesktop::contents("/home/ada/Downloads");
    assert!(!text.contains("PLACEHOLDER"));
    assert!(text.contains("Exec=/home/ada/Downloads/thunderbird/thunderbird %u\n"));
    assert_eq!(text, LAUNCHER_TEMPLATE.replace("PLACEHOLDER", "/home/ada/Downloads"));
    assert_eq!(
        text,
        "[Desktop Entry]\nVersion=1.0\nType=Application\nName=Thunderbird\nGenericName=Mail Client\nComment=Send and receive mail with Thunderbird\nExec=/home/ada/Downloads/thunderbird/thunderbird %u\nIcon=thunderbird\nTerminal=false\nCategories=Network;Email;\nMimeType=x-scheme-handler/mailto;message/rfc822;\nStartupNotify=true\n"
    );
}

#[test]
fn launcher_is_written_where_it_is_missing_only() {
    assert_eq!(DotDesktop::install(true, "/anywhere"), None);
    assert_eq!(
        DotDesktop::install(false, "/first"),
        Some(DotDesktop::contents("/first"))
    );
}

#[test]
fn second_run_leaves_the_launcher_alone() {
    let mut file: Option<String> = None;
    for dest in ["/first", "/second"] {
        if let Some(text) = DotDesktop::install(file.is_some(), dest) {
            file = Some(text);
        }
    }
    assert_eq!(file, Some(DotDesktop::contents("/first")));
}

#[test]
fn replace_all_replaces_every_occurrence() {
    assert_eq!(replace_all("a-b-c", "-", "+"), "a+b+c");
    assert_eq!(replace_all("aaa", "aa", "b"), "ba");
    assert_eq!(replace_all("aaaa", "aa", "b"), "bb");
    assert_eq!(replace_all("abc", "abc", ""), "");
    assert_eq!(replace_all("abc", "abcd", "x"), "abc");
    assert_eq!(replace_all("", "a", "x"), "");
    assert_eq!(replace_all("abc", "", "x"), "abc");
    assert_eq!(replace_all("xPLACEHOLDERyPLACEHOLDER", "PLACEHOLDER", "~/d"), "x~/dy~/d");
    assert_eq!(replace_all("ab", "b", "bb"), "abb");
    assert_eq!(replace_all("\u{e9}a\u{e9}", "\u{e9}", "e"), "eae");
}

#[test]
fn replace_all_agrees_with_str_replace() {
    let texts = ["", "a", "ab", "aab", "abab", "ababab", "bbaabb", "abba", "aaaaa"];
    let tokens = ["a", "b", "ab", "ba", "aa", "aba", "abab"];
    let values = ["", "x", "ab", "aa"];
    for text in texts.iter() {
        for token in tokens.iter() {
            for value in values.iter() {
                assert_eq!(replace_all(text, token, value), text.replace(token, value));
            }
        }
    }
}
