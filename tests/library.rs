use xdg_desktop_file_override::filter::filter_matches;
use xdg_desktop_file_override::marker::{is_generated, stamp, MARKER_KEY, TOOL_VERSION};
use xdg_desktop_file_override::overrides::{override_content, should_remove};
use xdg_desktop_file_override::paths::{is_desktop_file_name, join_path, split_paths, EnvError, XdgEnv};
use xdg_desktop_file_override::pipeline::{
    apply_outcomes, next_matching, validate_generators, ConfigError, Generator, GeneratorOutcome,
    PipelineState,
};
use xdg_desktop_file_override::text::{chars_of, contains_chars, find_seq};

fn generator(filter: &str, command: &[&str]) -> Generator {
    Generator {
        filter: filter.to_string(),
        name: "test".to_string(),
        command: command.iter().map(|s| s.to_string()).collect(),
    }
}

fn env(
    config_home: Option<&str>,
    config_dirs: Option<&str>,
    data_home: Option<&str>,
    data_dirs: Option<&str>,
    home: Option<&str>,
) -> XdgEnv {
    XdgEnv {
        config_home: config_home.map(|s| s.to_string()),
        config_dirs: config_dirs.map(|s| s.to_string()),
        data_home: data_home.map(|s| s.to_string()),
        data_dirs: data_dirs.map(|s| s.to_string()),
        home: home.map(|s| s.to_string()),
    }
}

#[test]
fn test_write_new_desktop_file() {
    let content = "[Desktop Entry]\nName=Test";
    let result = override_content(false, content).unwrap();
    assert!(result.contains("X-XDG-Desktop-File-Override-Version=0.1.0"));
}

#[test]
fn stamp_inserts_marker_right_after_header() {
    assert_eq!(
        stamp("[Desktop Entry]\nName=Test"),
        "[Desktop Entry]\nX-XDG-Desktop-File-Override-Version=0.1.0\nName=Test"
    );
}

#[test]
fn stamp_uses_first_header() {
    assert_eq!(
        stamp("# c\n[Desktop Entry]\nA=1\n[Desktop Entry]\n"),
        "# c\n[Desktop Entry]\nX-XDG-Desktop-File-Override-Version=0.1.0\nA=1\n[Desktop Entry]\n"
    );
}

#[test]
fn stamp_without_header_inserts_at_start() {
    assert_eq!(stamp("Name=X"), "\nX-XDG-Desktop-File-Override-Version=0.1.0Name=X");
    assert_eq!(stamp(""), "\nX-XDG-Desktop-File-Override-Version=0.1.0");
}

#[test]
fn stamp_keeps_existing_marker() {
    let c = "[Desktop Entry]\nX-XDG-Desktop-File-Override-Version=0.0.9\nName=A";
    assert_eq!(stamp(c), c);
    assert_eq!(stamp(&stamp("[Desktop Entry]")), stamp("[Desktop Entry]"));
}

#[test]
fn marker_constants() {
    assert_eq!(MARKER_KEY, "X-XDG-Desktop-File-Override-Version");
    assert_eq!(TOOL_VERSION, "0.1.0");
}

#[test]
fn generated_content_is_recognised() {
    assert!(is_generated("a\nX-XDG-Desktop-File-Override-Version=7\n"));
    assert!(!is_generated("[Desktop Entry]\nName=A"));
    assert!(!is_generated("X-XDG-Desktop-File-Override-Versio"));
    assert!(is_generated(&stamp("[Desktop Entry]\nName=A")));
}

#[test]
fn written_file_is_removable_and_original_is_not() {
    let original = "[Desktop Entry]\nName=A";
    let written = override_content(false, original).unwrap();
    assert!(should_remove("a.desktop", &written));
    assert!(!should_remove("a.desktop", original));
}

#[test]
fn only_desktop_files_are_removed() {
    let marked = "X-XDG-Desktop-File-Override-Version=0.1.0";
    assert!(should_remove("x.desktop", marked));
    assert!(!should_remove("x.txt", marked));
    assert!(!should_remove(".desktop", marked));
    assert!(!should_remove("x.desktop.bak", marked));
}

#[test]
fn clean_twice_removes_nothing_more() {
    let dir = vec![
        ("a.desktop", stamp("[Desktop Entry]\nName=A")),
        ("b.desktop", "[Desktop Entry]\nName=B".to_string()),
        ("c.txt", stamp("x")),
    ];
    let after: Vec<_> = dir.into_iter().filter(|(n, c)| !should_remove(n, c)).collect();
    assert_eq!(after.len(), 2);
    assert!(after.iter().all(|(n, c)| !should_remove(n, c)));
}

#[test]
fn existing_target_is_never_overwritten() {
    assert!(override_content(true, "[Desktop Entry]\nName=A").is_none());
}

#[test]
fn desktop_extension() {
    assert!(is_desktop_file_name("foo.desktop"));
    assert!(is_desktop_file_name("a..desktop"));
    assert!(!is_desktop_file_name(".desktop"));
    assert!(!is_desktop_file_name("foo.desktop."));
    assert!(!is_desktop_file_name("foodesktop"));
    assert!(!is_desktop_file_name(""));
}

#[test]
fn split_paths_on_colons() {
    assert_eq!(split_paths(""), vec![""]);
    assert_eq!(split_paths("/usr/local/share:/usr/share"), vec!["/usr/local/share", "/usr/share"]);
    assert_eq!(split_paths("a::b:"), vec!["a", "", "b", ""]);
}

#[test]
fn join_path_as_components() {
    assert_eq!(join_path("/etc/xdg", "x/config.yaml"), "/etc/xdg/x/config.yaml");
    assert_eq!(join_path("/etc/xdg/", "c"), "/etc/xdg/c");
    assert_eq!(join_path("", "c"), "c");
    assert_eq!(join_path("/a", "/b"), "/b");
    assert_eq!(join_path("/a", ""), "/a/");
}

#[test]
fn config_search_order() {
    let e = env(None, Some("/d1:/d2"), None, None, Some("/home/u"));
    assert_eq!(
        e.config_search_paths("t/config.yaml").unwrap(),
        vec![
            "/home/u/.config/t/config.yaml",
            "/d1/t/config.yaml",
            "/d2/t/config.yaml",
            "/etc/xdg/t/config.yaml",
        ]
    );
    let e = env(Some("/cfg"), None, None, None, None);
    assert_eq!(
        e.config_search_paths("c").unwrap(),
        vec!["/cfg/c", "/etc/xdg/c", "/etc/xdg/c"]
    );
}

#[test]
fn missing_home_is_an_error() {
    let e = env(None, None, None, None, None);
    assert_eq!(e.config_search_paths("c").unwrap_err(), EnvError::HomeMissing);
    assert_eq!(e.override_dir().unwrap_err(), EnvError::HomeMissing);
}

#[test]
fn data_directories() {
    let e = env(None, None, None, None, Some("/home/u"));
    assert_eq!(e.data_dirs_list(), vec!["/usr/local/share", "/usr/share"]);
    assert_eq!(
        e.application_dirs(),
        vec!["/usr/local/share/applications", "/usr/share/applications"]
    );
    assert_eq!(e.override_dir().unwrap(), "/home/u/.local/share/applications");
    let e = env(None, None, Some("/data"), Some("/x"), None);
    assert_eq!(e.application_dirs(), vec!["/x/applications"]);
    assert_eq!(e.override_dir().unwrap(), "/data/applications");
    assert_eq!(e.data_home_dir().unwrap(), "/data");
}

#[test]
fn filters_match_base_names() {
    assert_eq!(filter_matches("^foo.*\\.desktop$", "foo.desktop"), Some(true));
    assert_eq!(filter_matches("^foo.*\\.desktop$", "bar.desktop"), Some(false));
    assert_eq!(filter_matches("(", "foo.desktop"), None);
}

#[test]
fn validation_reports_first_bad_generator() {
    let ok = vec![generator("a", &["true"]), generator(".*", &["sed"])];
    assert_eq!(validate_generators(&ok), Ok(()));
    let bad = vec![generator("a", &["true"]), generator("[", &["x"]), generator("b", &[])];
    assert_eq!(validate_generators(&bad), Err(ConfigError::InvalidFilter { index: 1 }));
    let empty = vec![generator("a", &["true"]), generator("b", &[])];
    assert_eq!(validate_generators(&empty), Err(ConfigError::EmptyCommand { index: 1 }));
}

#[test]
fn next_matching_skips_other_names() {
    let gens = vec![
        generator("^bar", &["x"]),
        generator("^foo.*\\.desktop$", &["y"]),
        generator("desktop", &["z"]),
    ];
    assert_eq!(next_matching(&gens, 0, "foo.desktop"), Ok(Some(1)));
    assert_eq!(next_matching(&gens, 2, "foo.desktop"), Ok(Some(2)));
    assert_eq!(next_matching(&gens, 3, "foo.desktop"), Ok(None));
    assert_eq!(next_matching(&gens, 0, "baz.txt"), Ok(None));
    let bad = vec![generator("^foo", &["y"]), generator("(", &["y"])];
    assert_eq!(next_matching(&bad, 0, "bar"), Err(ConfigError::InvalidFilter { index: 1 }));
}

#[test]
fn scenario_sed_override() {
    let gens = vec![generator("^foo.*\\.desktop$", &["sed", "-e", "s/Name=.*/Name=Overridden/"])];
    assert_eq!(next_matching(&gens, 0, "foo.desktop"), Ok(Some(0)));
    let mut state = PipelineState::new("[Desktop Entry]\nName=Original".to_string());
    state.record(&GeneratorOutcome::Succeeded("[Desktop Entry]\nName=Overridden".to_string()));
    assert_eq!(
        state.override_content(false).unwrap(),
        "[Desktop Entry]\nX-XDG-Desktop-File-Override-Version=0.1.0\nName=Overridden"
    );
}

#[test]
fn scenario_unmatched_entry_not_written() {
    let gens = vec![generator("^foo.*\\.desktop$", &["sed", "-e", "s/a/b/"])];
    assert_eq!(next_matching(&gens, 0, "bar.desktop"), Ok(None));
    let state = PipelineState::new("[Desktop Entry]\nName=Bar".to_string());
    assert!(state.override_content(false).is_none());
}

#[test]
fn scenario_failed_then_succeeding_generator() {
    let outcomes = vec![GeneratorOutcome::Failed, GeneratorOutcome::Succeeded("second".to_string())];
    assert_eq!(apply_outcomes("orig", &outcomes), ("second".to_string(), true));
}

#[test]
fn all_failed_keeps_original() {
    let outcomes = vec![GeneratorOutcome::Failed, GeneratorOutcome::Failed];
    assert_eq!(apply_outcomes("orig", &outcomes), ("orig".to_string(), false));
    assert_eq!(apply_outcomes("orig", &vec![]), ("orig".to_string(), false));
}

#[test]
fn unmatched_generator_changes_nothing() {
    let outcomes = vec![GeneratorOutcome::NotMatched];
    assert_eq!(apply_outcomes("orig", &outcomes), ("orig".to_string(), false));
}

#[test]
fn identical_output_keeps_changed_flag() {
    let outcomes = vec![
        GeneratorOutcome::Succeeded("orig".to_string()),
    ];
    assert_eq!(apply_outcomes("orig", &outcomes), ("orig".to_string(), false));
    let outcomes = vec![
        GeneratorOutcome::Succeeded("a".to_string()),
        GeneratorOutcome::Succeeded("a".to_string()),
        GeneratorOutcome::Failed,
    ];
    assert_eq!(apply_outcomes("orig", &outcomes), ("a".to_string(), true));
}

#[test]
fn text_search() {
    let hay = chars_of("abcabc");
    assert_eq!(find_seq(&hay, &chars_of("ca")), Some(2));
    assert_eq!(find_seq(&hay, &chars_of("")), Some(0));
    assert_eq!(find_seq(&hay, &chars_of("abd")), None);
    assert!(contains_chars(&chars_of("héllo"), &chars_of("él")));
    assert!(!contains_chars(&chars_of("ab"), &chars_of("abc")));
}
