use yt_dwn::tools::{
    check_dependencies, file_if_there, locate, DependencyError, Lookup, Missing, Strategy, Tool,
    ToolHandle,
};

fn some(text: &str) -> Option<String> {
    Some(String::from(text))
}

#[test]
fn tools_have_their_names() {
    assert_eq!(Tool::Extractor.name(), "yt-dlp");
    assert_eq!(Tool::Transcoder.name(), "ffmpeg");
    assert_eq!(Tool::Extractor.homepage(), "https://github.com/yt-dlp/yt-dlp");
    assert_eq!(Tool::Transcoder.homepage(), "https://ffmpeg.org");
}

#[test]
fn search_path_looks_for_the_name() {
    assert_eq!(
        Strategy::SystemPath.lookup(Tool::Extractor),
        Lookup::SearchPath(String::from("yt-dlp"))
    );
    assert_eq!(
        Strategy::SystemPath.lookup(Tool::Transcoder),
        Lookup::SearchPath(String::from("ffmpeg"))
    );
}

#[test]
fn local_install_looks_in_libs() {
    assert_eq!(
        Strategy::LocalInstall.lookup(Tool::Extractor),
        Lookup::File(String::from("libs/yt-dlp"))
    );
    assert_eq!(
        Strategy::LocalInstall.lookup(Tool::Transcoder),
        Lookup::File(String::from("libs/ffmpeg"))
    );
}

#[test]
fn gate_passes_when_both_tools_are_there() {
    let checked = check_dependencies(
        Strategy::SystemPath,
        some("/usr/bin/yt-dlp"),
        some("/opt/ffmpeg/bin/ffmpeg"),
    );
    assert_eq!(
        checked,
        Ok((
            ToolHandle { tool: Tool::Extractor, path: String::from("/usr/bin/yt-dlp") },
            ToolHandle { tool: Tool::Transcoder, path: String::from("/opt/ffmpeg/bin/ffmpeg") },
        ))
    );
}

#[test]
fn gate_names_the_missing_extractor() {
    let checked = check_dependencies(Strategy::SystemPath, None, some("/usr/bin/ffmpeg"));
    let error = checked.unwrap_err();
    assert_eq!(
        error,
        DependencyError { strategy: Strategy::SystemPath, missing: Missing::Extractor }
    );
    assert_eq!(error.message(), "yt-dlp not found in system PATH");
    assert!(!error.message().contains("ffmpeg"));
}

#[test]
fn gate_names_the_missing_transcoder() {
    let checked = check_dependencies(Strategy::SystemPath, some("/usr/bin/yt-dlp"), None);
    let error = checked.unwrap_err();
    assert_eq!(
        error,
        DependencyError { strategy: Strategy::SystemPath, missing: Missing::Transcoder }
    );
    assert_eq!(error.message(), "ffmpeg not found in system PATH");
    assert!(!error.message().contains("yt-dlp"));
}

#[test]
fn gate_names_both_when_both_are_missing() {
    let checked = check_dependencies(Strategy::SystemPath, None, None);
    let error = checked.unwrap_err();
    assert_eq!(error, DependencyError { strategy: Strategy::SystemPath, missing: Missing::Both });
    assert_eq!(error.message(), "yt-dlp and ffmpeg not found in system PATH");
}

#[test]
fn gate_remembers_where_it_looked() {
    let error = check_dependencies(Strategy::LocalInstall, None, some("libs/ffmpeg")).unwrap_err();
    assert_eq!(error.strategy, Strategy::LocalInstall);
    assert_eq!(error.message(), "yt-dlp not found in libs/");
    let error = check_dependencies(Strategy::LocalInstall, None, None).unwrap_err();
    assert_eq!(error.message(), "yt-dlp and ffmpeg not found in libs/");
}

#[test]
fn missing_says_which_tools_it_includes() {
    assert!(Missing::Extractor.has(Tool::Extractor));
    assert!(!Missing::Extractor.has(Tool::Transcoder));
    assert!(!Missing::Transcoder.has(Tool::Extractor));
    assert!(Missing::Transcoder.has(Tool::Transcoder));
    assert!(Missing::Both.has(Tool::Extractor));
    assert!(Missing::Both.has(Tool::Transcoder));
}

#[test]
fn message_names_a_tool_exactly_when_it_is_missing() {
    for strategy in [Strategy::SystemPath, Strategy::LocalInstall] {
        for missing in [Missing::Extractor, Missing::Transcoder, Missing::Both] {
            let error = DependencyError { strategy, missing };
            for tool in [Tool::Extractor, Tool::Transcoder] {
                assert_eq!(error.message().contains(tool.name()), missing.has(tool));
            }
        }
    }
}

#[test]
fn advice_lists_the_missing_tools() {
    let error = DependencyError { strategy: Strategy::SystemPath, missing: Missing::Both };
    assert_eq!(
        error.advice(),
        vec![
            "Please install:",
            "- yt-dlp (https://github.com/yt-dlp/yt-dlp)",
            "- ffmpeg (https://ffmpeg.org)",
            "And make sure they're in your PATH.",
        ]
    );
    let error = DependencyError { strategy: Strategy::SystemPath, missing: Missing::Transcoder };
    assert_eq!(
        error.advice(),
        vec![
            "Please install:",
            "- ffmpeg (https://ffmpeg.org)",
            "And make sure they're in your PATH.",
        ]
    );
    let error = DependencyError { strategy: Strategy::LocalInstall, missing: Missing::Extractor };
    assert_eq!(
        error.advice(),
        vec![
            "Please install:",
            "- yt-dlp (https://github.com/yt-dlp/yt-dlp)",
            "And place them in libs/.",
        ]
    );
}

#[test]
fn locate_finds_what_is_on_disk() {
    assert_eq!(locate(&Lookup::File(String::from("/"))), Some(String::from("/")));
    assert_eq!(locate(&Lookup::File(String::from("."))), Some(String::from(".")));
}

#[test]
fn locate_finds_nothing_where_nothing_is() {
    assert_eq!(locate(&Lookup::File(String::from("/no/such/directory/yt-dlp"))), None);
    assert_eq!(locate(&Lookup::File(String::new())), None);
}

#[test]
fn locate_finds_no_program_of_an_unknown_name() {
    assert_eq!(locate(&Lookup::SearchPath(String::from("no-such-program-d41d8cd98f00b204"))), None);
}

#[test]
fn locate_finds_a_program_under_its_name() {
    match locate(&Lookup::SearchPath(String::from("sh"))) {
        Some(path) => assert!(path.ends_with("sh"), "{}", path),
        None => {},
    }
}

#[test]
fn a_file_is_found_at_its_path_if_it_is_there() {
    assert_eq!(file_if_there("libs/yt-dlp", true), Some(String::from("libs/yt-dlp")));
    assert_eq!(file_if_there("libs/yt-dlp", false), None);
    assert_eq!(file_if_there("", true), Some(String::new()));
}
