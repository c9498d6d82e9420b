use steam_reset::plan::RemovalPlan;
use steam_reset::resolver::{find_program, resolve_install_path};
use steam_reset::scanner::InstalledProgramRecord;
use steam_reset::text::{chars_of, find_first, matches_at, split_before};

fn record(name: &str, command: &str) -> InstalledProgramRecord {
    InstalledProgramRecord {
        display_name: name.to_string(),
        uninstall_command: command.to_string(),
    }
}

fn resolve(records: &Vec<InstalledProgramRecord>) -> Option<String> {
    let plan = RemovalPlan::standard();
    resolve_install_path(records, &plan.program_name, &plan.uninstaller_marker)
}

#[test]
fn path_is_what_precedes_the_uninstaller() {
    let records = vec![record("Steam", "C:\\Games\\Steam\\uninstall.exe /S")];
    assert_eq!(resolve(&records), Some("C:\\Games\\Steam".to_string()));
}

#[test]
fn command_without_the_marker_gives_no_path() {
    let records = vec![record("Steam", "C:\\Games\\Steam\\remove.exe /S")];
    assert_eq!(resolve(&records), None);
}

#[test]
fn no_records_give_no_path() {
    let records: Vec<InstalledProgramRecord> = Vec::new();
    assert_eq!(resolve(&records), None);
}

#[test]
fn no_record_of_that_name_gives_no_path() {
    let records = vec![
        record("Steam Link", "C:\\Link\\uninstall.exe"),
        record("steam", "C:\\lower\\uninstall.exe"),
        record("Steam ", "C:\\space\\uninstall.exe"),
    ];
    assert_eq!(resolve(&records), None);
}

#[test]
fn the_first_record_of_the_name_counts() {
    let records = vec![
        record("Other", "C:\\Other\\uninstall.exe"),
        record("Steam", "D:\\First\\uninstall.exe"),
        record("Steam", "E:\\Second\\uninstall.exe"),
    ];
    assert_eq!(resolve(&records), Some("D:\\First".to_string()));
}

#[test]
fn a_first_record_without_the_marker_is_not_skipped() {
    let records = vec![
        record("Steam", "D:\\First\\setup.exe"),
        record("Steam", "E:\\Second\\uninstall.exe"),
    ];
    assert_eq!(resolve(&records), None);
}

#[test]
fn the_first_occurrence_of_the_marker_cuts() {
    let records = vec![record("Steam", "C:\\a\\uninstall.exe\\b\\uninstall.exe")];
    assert_eq!(resolve(&records), Some("C:\\a".to_string()));
}

#[test]
fn a_command_that_starts_with_the_marker_gives_the_empty_path() {
    let records = vec![record("Steam", "\\uninstall.exe /S")];
    assert_eq!(resolve(&records), Some(String::new()));
}

#[test]
fn the_marker_is_matched_exactly() {
    let records = vec![record("Steam", "C:\\Steam\\Uninstall.exe")];
    assert_eq!(resolve(&records), None);
    let records = vec![record("Steam", "C:\\Steam/uninstall.exe")];
    assert_eq!(resolve(&records), None);
}

#[test]
fn paths_outside_ascii_are_cut_by_characters() {
    let records = vec![record("Steam", "C:\\Spiele\\Dämpfe\\uninstall.exe")];
    assert_eq!(resolve(&records), Some("C:\\Spiele\\Dämpfe".to_string()));
}

#[test]
fn find_program_gives_the_first_index() {
    let records = vec![record("A", "a"), record("B", "b"), record("A", "c"), record("B", "d")];
    assert_eq!(find_program(&records, "A"), Some(0));
    assert_eq!(find_program(&records, "B"), Some(1));
    assert_eq!(find_program(&records, "C"), None);
    assert_eq!(find_program(&Vec::new(), "A"), None);
}

#[test]
fn chars_of_keeps_every_character() {
    assert_eq!(chars_of("aé\\z"), vec!['a', 'é', '\\', 'z']);
    assert_eq!(chars_of(""), Vec::<char>::new());
}

#[test]
fn matches_at_compares_the_window() {
    let text = chars_of("abcabc");
    let pattern = chars_of("bc");
    assert!(!matches_at(&text, &pattern, 0));
    assert!(matches_at(&text, &pattern, 1));
    assert!(!matches_at(&text, &pattern, 2));
    assert!(matches_at(&text, &pattern, 4));
    assert!(matches_at(&text, &Vec::new(), 6));
}

#[test]
fn matches_at_finds_nothing_beyond_the_end() {
    let text = chars_of("abc");
    assert!(!matches_at(&text, &chars_of("bc"), 2));
    assert!(!matches_at(&text, &chars_of("c"), 3));
    assert!(!matches_at(&text, &Vec::new(), 4));
    assert!(!matches_at(&text, &chars_of("abcd"), 0));
    assert!(!matches_at(&text, &chars_of("a"), usize::MAX));
}

#[test]
fn find_first_gives_the_smallest_offset() {
    assert_eq!(find_first(&chars_of("abcabc"), &chars_of("bc")), Some(1));
    assert_eq!(find_first(&chars_of("abcabc"), &chars_of("abc")), Some(0));
    assert_eq!(find_first(&chars_of("abcabc"), &chars_of("cab")), Some(2));
    assert_eq!(find_first(&chars_of("abcabc"), &chars_of("abcabc")), Some(0));
    assert_eq!(find_first(&chars_of("aab"), &chars_of("ab")), Some(1));
}

#[test]
fn find_first_gives_none_where_the_pattern_is_missing() {
    assert_eq!(find_first(&chars_of("abcabc"), &chars_of("cb")), None);
    assert_eq!(find_first(&chars_of("abc"), &chars_of("abcd")), None);
    assert_eq!(find_first(&chars_of(""), &chars_of("a")), None);
}

#[test]
fn the_empty_pattern_stands_at_the_start() {
    assert_eq!(find_first(&chars_of("abc"), &chars_of("")), Some(0));
    assert_eq!(find_first(&chars_of(""), &chars_of("")), Some(0));
    assert_eq!(split_before("abc", ""), Some(String::new()));
}

#[test]
fn split_before_gives_the_prefix() {
    assert_eq!(split_before("key=value=more", "="), Some("key".to_string()));
    assert_eq!(split_before("key=value", "=value"), Some("key".to_string()));
    assert_eq!(split_before("key", "="), None);
    assert_eq!(split_before("", "="), None);
    assert_eq!(split_before("ééé|x", "|"), Some("ééé".to_string()));
}
