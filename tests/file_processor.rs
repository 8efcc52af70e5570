use video2audio_rs::{AudioFormat, FileProcessor, VideoToAudioError, WalkEntry};

fn entry(path: &str, is_file: bool) -> WalkEntry {
    WalkEntry { path: path.to_string(), is_file }
}

#[test]
fn supported_extensions_are_the_full_allow_list() {
    let processor = FileProcessor::new();
    assert_eq!(
        processor.supported_extensions(),
        &["mp4", "mkv", "avi", "mov", "webm", "flv", "wmv", "m4v", "3gp", "ts"]
    );
}

#[test]
fn video_file_check_ignores_extension_case() {
    let processor = FileProcessor::new();
    assert!(processor.is_supported_video_file("/v/a.mp4"));
    assert!(processor.is_supported_video_file("/v/a.MP4"));
    assert!(processor.is_supported_video_file("/v/a.MkV"));
    assert!(processor.is_supported_video_file("clip.3GP"));
    assert!(processor.is_supported_video_file("/v/archive.tar.ts"));
    assert!(!processor.is_supported_video_file("/v/a.mp3"));
    assert!(!processor.is_supported_video_file("/v/mp4"));
    assert!(!processor.is_supported_video_file("/v/.mp4"));
    assert!(!processor.is_supported_video_file("/v/a.mp4.txt"));
    assert!(!processor.is_supported_video_file(""));
}

#[test]
fn collect_keeps_regular_video_files_in_walk_order() {
    let processor = FileProcessor::new();
    let entries = vec![
        entry("/r", false),
        entry("/r/b.MOV", true),
        entry("/r/dir.mp4", false),
        entry("/r/dir.mp4/x.flv", true),
        entry("/r/readme.txt", true),
        entry("/r/a.wmv", true),
    ];
    assert_eq!(
        processor.collect_video_files(&entries),
        vec!["/r/b.MOV".to_string(), "/r/dir.mp4/x.flv".to_string(), "/r/a.wmv".to_string()]
    );
    assert!(processor.collect_video_files(&Vec::new()).is_empty());
}

#[test]
fn source_dir_checks() {
    match FileProcessor::check_source_dir("/missing", false, false) {
        Err(VideoToAudioError::InvalidPath(m)) => assert_eq!(m, "目录不存在: /missing"),
        other => panic!("unexpected {other:?}"),
    }
    match FileProcessor::check_source_dir("/f.mp4", true, false) {
        Err(VideoToAudioError::InvalidPath(m)) => assert_eq!(m, "路径不是目录: /f.mp4"),
        other => panic!("unexpected {other:?}"),
    }
    assert!(FileProcessor::check_source_dir("/d", true, true).is_ok());
}

#[test]
fn output_directory_is_audio_exports_under_source() {
    let processor = FileProcessor::new();
    assert_eq!(processor.output_directory_path("/media/videos"), "/media/videos/audio_exports");
}

#[test]
fn output_path_uses_stem_and_format_extension() {
    let processor = FileProcessor::new();
    assert_eq!(
        processor.build_output_path("/v/Holiday.MP4", "/out", AudioFormat::Mp3).unwrap(),
        "/out/Holiday.mp3"
    );
    assert_eq!(
        processor.build_output_path("a/b.tar.mkv", "/o", AudioFormat::Opus).unwrap(),
        "/o/b.tar.opus"
    );
    assert_eq!(
        processor.build_output_path("clip", "out", AudioFormat::AacCopy).unwrap(),
        "out/clip.aac"
    );
}

#[test]
fn output_path_is_deterministic() {
    let processor = FileProcessor::new();
    for f in AudioFormat::all_formats() {
        let a = processor.build_output_path("/v/x.avi", "/o", f).unwrap();
        let b = processor.build_output_path("/v/x.avi", "/o", f).unwrap();
        assert_eq!(a, b);
        assert!(a.ends_with(&format!(".{}", f.extension())));
    }
}

#[test]
fn output_path_without_file_name_is_invalid() {
    let processor = FileProcessor::new();
    match processor.build_output_path("", "/o", AudioFormat::Mp3) {
        Err(VideoToAudioError::InvalidPath(m)) => assert_eq!(m, "无法获取文件名: "),
        other => panic!("unexpected {other:?}"),
    }
    assert!(processor.build_output_path("/", "/o", AudioFormat::Mp3).is_err());
    assert!(processor.build_output_path("/v/..", "/o", AudioFormat::Mp3).is_err());
}

#[test]
fn tool_arguments_follow_the_template() {
    let args = FileProcessor::ffmpeg_command_args("/in/a.mp4", "/out/a.opus", AudioFormat::Opus);
    assert_eq!(
        args,
        vec![
            "-y", "-hide_banner", "-loglevel", "error", "-i", "/in/a.mp4", "-vn", "-c:a", "libopus",
            "-b:a", "192k", "/out/a.opus"
        ]
    );
    let args = FileProcessor::ffmpeg_command_args("x.mkv", "x.mp3", AudioFormat::Mp3);
    assert_eq!(
        args,
        vec!["-y", "-hide_banner", "-loglevel", "error", "-i", "x.mkv", "-vn", "-q:a", "0", "x.mp3"]
    );
}

#[test]
fn plan_for_existing_source() {
    let processor = FileProcessor::new();
    let plan = processor.plan_conversion("/v/a.webm", true, "/o", AudioFormat::AacCopy).unwrap();
    assert_eq!(plan.output_path, "/o/a.aac");
    assert_eq!(
        plan.args,
        vec!["-y", "-hide_banner", "-loglevel", "error", "-i", "/v/a.webm", "-vn", "-c:a", "copy", "/o/a.aac"]
    );
}

#[test]
fn plan_for_missing_source_is_invalid_path() {
    let processor = FileProcessor::new();
    match processor.plan_conversion("/v/gone.mp4", false, "/o", AudioFormat::Mp3) {
        Err(VideoToAudioError::InvalidPath(m)) => assert_eq!(m, "源文件不存在: /v/gone.mp4"),
        other => panic!("unexpected {other:?}"),
    }
}

#[test]
fn tool_probe_and_exit_status() {
    assert!(FileProcessor::tool_probe_result(true).is_ok());
    match FileProcessor::tool_probe_result(false) {
        Err(VideoToAudioError::MissingDependency(m)) => {
            assert_eq!(m, "FFmpeg 未安装或不在系统 PATH 中。请安装 FFmpeg 后重试。")
        }
        other => panic!("unexpected {other:?}"),
    }
    assert!(FileProcessor::conversion_result(true, "").is_ok());
    match FileProcessor::conversion_result(false, "bad codec") {
        Err(e @ VideoToAudioError::FfmpegError(_)) => {
            assert_eq!(e.to_string(), "FFmpeg 执行错误: 转换失败: bad codec")
        }
        other => panic!("unexpected {other:?}"),
    }
}
