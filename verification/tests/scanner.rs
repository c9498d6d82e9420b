use steam_reset::prober::is_target_process_running;
use steam_reset::scanner::{scan_installed_programs, InstalledProgramRecord, KeyProbe, RootProbe};

fn opened(name: Option<&str>, command: Option<&str>) -> KeyProbe {
    KeyProbe::Opened {
        display_name: name.map(|s| s.to_string()),
        uninstall_command: command.map(|s| s.to_string()),
    }
}

fn record(name: &str, command: &str) -> InstalledProgramRecord {
    InstalledProgramRecord {
        display_name: name.to_string(),
        uninstall_command: command.to_string(),
    }
}

#[test]
fn nothing_scanned_gives_no_records() {
    assert_eq!(scan_installed_programs(&Vec::new()), Vec::new());
}

#[test]
fn unopened_listings_give_no_records() {
    let listing = vec![RootProbe::Unopened, RootProbe::Unopened];
    assert_eq!(scan_installed_programs(&listing), Vec::new());
}

#[test]
fn an_empty_listing_gives_no_records() {
    let listing = vec![RootProbe::Opened(Vec::new())];
    assert_eq!(scan_installed_programs(&listing), Vec::new());
}

#[test]
fn a_key_with_both_fields_gives_a_record() {
    let listing = vec![RootProbe::Opened(vec![opened(Some("Steam"), Some("C:\\Steam\\uninstall.exe"))])];
    assert_eq!(
        scan_installed_programs(&listing),
        vec![record("Steam", "C:\\Steam\\uninstall.exe")]
    );
}

#[test]
fn keys_that_failed_are_left_out() {
    let listing = vec![RootProbe::Opened(vec![
        KeyProbe::Unlisted,
        opened(Some("A"), Some("a")),
        KeyProbe::Unopened,
        opened(None, Some("no name")),
        opened(Some("no command"), None),
        opened(None, None),
        opened(Some("B"), Some("b")),
    ])];
    assert_eq!(scan_installed_programs(&listing), vec![record("A", "a"), record("B", "b")]);
}

#[test]
fn records_keep_the_order_of_the_walk() {
    let listing = vec![
        RootProbe::Opened(vec![opened(Some("Z"), Some("1")), opened(Some("A"), Some("2"))]),
        RootProbe::Unopened,
        RootProbe::Opened(vec![opened(Some("M"), Some("3"))]),
        RootProbe::Opened(Vec::new()),
        RootProbe::Opened(vec![KeyProbe::Unopened, opened(Some("B"), Some("4"))]),
    ];
    assert_eq!(
        scan_installed_programs(&listing),
        vec![record("Z", "1"), record("A", "2"), record("M", "3"), record("B", "4")]
    );
}

#[test]
fn equal_records_are_all_kept() {
    let listing = vec![
        RootProbe::Opened(vec![opened(Some("Steam"), Some("x")), opened(Some("Steam"), Some("x"))]),
        RootProbe::Opened(vec![opened(Some("Steam"), Some("x"))]),
    ];
    assert_eq!(
        scan_installed_programs(&listing),
        vec![record("Steam", "x"), record("Steam", "x"), record("Steam", "x")]
    );
}

#[test]
fn empty_strings_are_fields_that_were_read() {
    let listing = vec![RootProbe::Opened(vec![opened(Some(""), Some(""))])];
    assert_eq!(scan_installed_programs(&listing), vec![record("", "")]);
}

#[test]
fn a_listed_process_is_running() {
    let names = vec!["explorer.exe".to_string(), "steam.exe".to_string(), "cmd.exe".to_string()];
    assert!(is_target_process_running(&names, "steam.exe"));
    assert!(is_target_process_running(&names, "explorer.exe"));
    assert!(is_target_process_running(&names, "cmd.exe"));
}

#[test]
fn an_unlisted_process_is_not_running() {
    let names = vec!["explorer.exe".to_string(), "cmd.exe".to_string()];
    assert!(!is_target_process_running(&names, "steam.exe"));
    assert!(!is_target_process_running(&Vec::new(), "steam.exe"));
}

#[test]
fn process_names_are_matched_exactly() {
    let names = vec![
        "Steam.exe".to_string(),
        "STEAM.EXE".to_string(),
        "steam.exe ".to_string(),
        "steam".to_string(),
        "xsteam.exe".to_string(),
        "steam.exe.bak".to_string(),
    ];
    assert!(!is_target_process_running(&names, "steam.exe"));
}
