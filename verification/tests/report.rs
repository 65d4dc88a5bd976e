use yt_dwn::outcome::{DownloadError, DownloadOutcome, InputError, PipelineError};
use yt_dwn::report::{exit_code, report, size_text, report_success, Line, Stream};
use yt_dwn::tools::{DependencyError, Missing, Strategy};

fn out(text: &str) -> Line {
    Line { stream: Stream::Output, text: String::from(text) }
}

fn err(text: &str) -> Line {
    Line { stream: Stream::Error, text: String::from(text) }
}

fn in_floating_point(bytes: u64) -> String {
    let size_mb = bytes as f64 / 1024.0 / 1024.0;
    let size_gb = size_mb / 1024.0;
    if size_gb >= 1.0 {
        format!("{:.2} GB ({:.0} MB)", size_gb, size_mb)
    } else {
        format!("{:.2} MB", size_mb)
    }
}

#[test]
fn two_gibibytes_are_shown_in_gigabytes() {
    assert_eq!(size_text(2_147_483_648), "2.00 GB (2048 MB)");
}

#[test]
fn five_mebibytes_are_shown_in_megabytes() {
    assert_eq!(size_text(5_242_880), "5.00 MB");
}

#[test]
fn one_gibibyte_is_the_threshold() {
    assert_eq!(size_text(1_073_741_824), "1.00 GB (1024 MB)");
    assert_eq!(size_text(1_073_741_823), "1024.00 MB");
}

#[test]
fn small_sizes_are_fractions_of_a_megabyte() {
    assert_eq!(size_text(0), "0.00 MB");
    assert_eq!(size_text(1), "0.00 MB");
    assert_eq!(size_text(5_243), "0.01 MB");
    assert_eq!(size_text(524_288), "0.50 MB");
    assert_eq!(size_text(1_048_576), "1.00 MB");
    assert_eq!(size_text(1_572_864), "1.50 MB");
}

#[test]
fn sizes_in_the_middle_round_to_the_even_digit() {
    assert_eq!(size_text(131_072), "0.12 MB");
    assert_eq!(size_text(393_216), "0.38 MB");
    assert_eq!(size_text(1_073_741_824 + 1_073_741_824 / 8), "1.12 GB (1152 MB)");
    assert_eq!(size_text(2 * 1_073_741_824 + 524_288), "2.00 GB (2048 MB)");
    assert_eq!(size_text(2 * 1_073_741_824 + 3 * 524_288), "2.00 GB (2050 MB)");
}

#[test]
fn the_largest_size_is_shown() {
    assert_eq!(size_text(u64::MAX), "17179869184.00 GB (17592186044416 MB)");
}

#[test]
fn sizes_agree_with_floating_point() {
    let mut bytes: u64 = 0;
    let mut step: u64 = 1;
    while bytes < (1u64 << 53) {
        assert_eq!(size_text(bytes), in_floating_point(bytes), "{} bytes", bytes);
        bytes += step;
        step = step * 3 / 2 + 1;
    }
    for k in 0..2000u64 {
        let near_tie = 131_072 * (2 * k + 1);
        for bytes in [near_tie - 1, near_tie, near_tie + 1] {
            assert_eq!(size_text(bytes), in_floating_point(bytes), "{} bytes", bytes);
        }
        let near_half = 524_288 * (2 * k + 2047);
        for bytes in [near_half - 1, near_half, near_half + 1] {
            assert_eq!(size_text(bytes), in_floating_point(bytes), "{} bytes", bytes);
        }
    }
}

#[test]
fn success_with_size_is_four_lines() {
    assert_eq!(
        report_success("\"/tmp/out/video.mp4\"", Some(5_242_880)),
        vec![
            out("Video downloaded successfully!"),
            out("Saved to: \"/tmp/out/video.mp4\""),
            out("File size: 5.00 MB"),
            out("Download Complete!"),
        ]
    );
}

#[test]
fn success_without_size_omits_the_size_line() {
    assert_eq!(
        report_success("\"v.mp4\"", None),
        vec![
            out("Video downloaded successfully!"),
            out("Saved to: \"v.mp4\""),
            out("Download Complete!"),
        ]
    );
}

#[test]
fn report_shows_the_path_between_quotes() {
    let outcome = DownloadOutcome::Success {
        path: String::from("Downloads/video_20240101_000000.mp4"),
        size: Some(2_147_483_648),
    };
    assert_eq!(
        report(&outcome),
        vec![
            out("Video downloaded successfully!"),
            out("Saved to: \"Downloads/video_20240101_000000.mp4\""),
            out("File size: 2.00 GB (2048 MB)"),
            out("Download Complete!"),
        ]
    );
    assert_eq!(exit_code(&outcome), 0);
}

#[test]
fn report_escapes_what_would_not_print() {
    let outcome = DownloadOutcome::Success { path: String::from("a\"b\\c\n.mp4"), size: None };
    assert_eq!(report(&outcome)[1], out("Saved to: \"a\\\"b\\\\c\\n.mp4\""));
}

#[test]
fn report_of_unreadable_size_still_reports_success() {
    let outcome = DownloadOutcome::Success { path: String::from("gone.mp4"), size: None };
    assert_eq!(
        report(&outcome),
        vec![
            out("Video downloaded successfully!"),
            out("Saved to: \"gone.mp4\""),
            out("Download Complete!"),
        ]
    );
    assert_eq!(exit_code(&outcome), 0);
}

#[test]
fn report_of_fetch_failure_is_the_engine_message() {
    let outcome = DownloadOutcome::Failure {
        error: PipelineError::Download(DownloadError::FetchFailed(String::from(
            "network unreachable",
        ))),
    };
    assert_eq!(report(&outcome), vec![err("Error: network unreachable")]);
    assert_eq!(exit_code(&outcome), 1);
}

#[test]
fn report_of_init_failure_is_the_engine_message() {
    let outcome = DownloadOutcome::Failure {
        error: PipelineError::Download(DownloadError::InitFailed(String::from("bad binary"))),
    };
    assert_eq!(report(&outcome), vec![err("Error: bad binary")]);
    assert_eq!(exit_code(&outcome), 1);
}

#[test]
fn report_of_directory_failure_is_the_system_message() {
    let outcome = DownloadOutcome::Failure {
        error: PipelineError::Io(String::from("Permission denied (os error 13)")),
    };
    assert_eq!(report(&outcome), vec![err("Error: Permission denied (os error 13)")]);
    assert_eq!(exit_code(&outcome), 1);
}

#[test]
fn report_of_missing_tool_gives_advice() {
    let outcome = DownloadOutcome::Failure {
        error: PipelineError::Dependency(DependencyError {
            strategy: Strategy::SystemPath,
            missing: Missing::Extractor,
        }),
    };
    assert_eq!(
        report(&outcome),
        vec![
            err("Error: yt-dlp not found in system PATH"),
            err("Please install:"),
            err("- yt-dlp (https://github.com/yt-dlp/yt-dlp)"),
            err("And make sure they're in your PATH."),
        ]
    );
    assert_eq!(exit_code(&outcome), 1);
}

#[test]
fn report_of_wrong_input_names_the_input() {
    let cases = [
        (InputError::EmptyUrl, "URL cannot be empty"),
        (InputError::EmptyOutputDir, "Output directory cannot be empty"),
        (InputError::EmptyFilename, "Filename cannot be empty"),
    ];
    for (error, text) in cases {
        assert_eq!(error.message(), text);
        let outcome = DownloadOutcome::Failure { error: PipelineError::Input(error) };
        assert_eq!(report(&outcome), vec![err(text)]);
        assert_eq!(exit_code(&outcome), 1);
    }
}

#[test]
fn download_errors_keep_the_engine_words() {
    assert_eq!(DownloadError::InitFailed(String::from("no engine")).message(), "no engine");
    assert_eq!(DownloadError::FetchFailed(String::from("HTTP 403")).message(), "HTTP 403");
}

#[test]
fn description_of_a_failure_is_its_lines() {
    assert_eq!(
        PipelineError::Io(String::from("read-only file system")).description(),
        vec!["Error: read-only file system"]
    );
    assert_eq!(
        PipelineError::Dependency(DependencyError {
            strategy: Strategy::LocalInstall,
            missing: Missing::Both,
        })
        .description(),
        vec![
            "Error: yt-dlp and ffmpeg not found in libs/",
            "Please install:",
            "- yt-dlp (https://github.com/yt-dlp/yt-dlp)",
            "- ffmpeg (https://ffmpeg.org)",
            "And place them in libs/.",
        ]
    );
}

#[test]
fn report_shows_the_path_as_a_path_is_shown() {
    for path in ["Downloads/it's here.mp4", "a b/vidéo.mp4", "C:\\videos\\a.mp4", "tab\there"] {
        let outcome = DownloadOutcome::Success { path: String::from(path), size: None };
        let expected = format!("Saved to: {:?}", std::path::PathBuf::from(path));
        assert_eq!(report(&outcome)[1], out(&expected));
    }
}
