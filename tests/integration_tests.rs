use rayon::prelude::ParallelIterator;
use rayon::slice::ParallelSlice;
use std::io::Write;
use std::path::{Path, PathBuf};
use std::sync::Mutex;
use tempfile::TempDir;
use video2audio_rs::{
    AudioFormat, BatchTally, FileProcessor, Result, VideoToAudioError, WalkEntry,
};

/// Walks `dir` and hands what was seen to the library, as the program does.
fn find_video_files(processor: &FileProcessor, dir: &Path) -> Result<Vec<String>> {
    let root = dir.to_str().unwrap();
    FileProcessor::check_source_dir(root, dir.exists(), dir.is_dir())?;
    let mut entries = Vec::new();
    for entry in walkdir::WalkDir::new(dir) {
        let entry = entry.map_err(|e| VideoToAudioError::Io(std::io::Error::other(e)))?;
        entries.push(WalkEntry {
            path: entry.path().to_str().unwrap().to_string(),
            is_file: entry.file_type().is_file(),
        });
    }
    Ok(processor.collect_video_files(&entries))
}

/// Creates the file `name` with `content` in `dir`.
fn write_file(dir: &Path, name: &str, content: &str) -> PathBuf {
    let mut f = tempfile::Builder::new()
        .prefix(name)
        .rand_bytes(0)
        .disable_cleanup(true)
        .tempfile_in(dir)
        .unwrap();
    f.write_all(content.as_bytes()).unwrap();
    f.path().to_path_buf()
}

/// Creates the directory `name` in `dir`.
fn make_dir(dir: &Path, name: &str) -> PathBuf {
    tempfile::Builder::new().prefix(name).rand_bytes(0).tempdir_in(dir).unwrap().keep()
}

fn path_text(p: &Path) -> String {
    p.to_str().unwrap().to_string()
}

/// Runs a batch through the tally from parallel workers. Only sources that
/// do not exist are used here, so every item fails before any tool runs.
fn batch_convert<F>(
    processor: &FileProcessor,
    files: &[String],
    output_dir: &str,
    format: AudioFormat,
    progress_callback: F,
) -> (usize, usize)
where
    F: Fn(usize, usize) + Send + Sync,
{
    if files.is_empty() {
        return (0, 0);
    }
    let tally = Mutex::new(BatchTally::new(files.len()));
    files.par_chunks(1).for_each(|chunk| {
        let source = &chunk[0];
        let exists = Path::new(source).exists();
        assert!(!exists);
        let ok = processor.plan_conversion(source, exists, output_dir, format).is_ok();
        let mut t = tally.lock().unwrap();
        let ev = t.record(ok);
        progress_callback(ev.current, ev.total);
    });
    let t = tally.into_inner().unwrap();
    t.counts()
}

#[test]
fn test_file_processor_creation() {
    let processor = FileProcessor::new();
    let extensions = processor.supported_extensions();

    assert!(!extensions.is_empty());
    assert!(extensions.contains(&"mp4"));
    assert!(extensions.contains(&"mkv"));
    assert!(extensions.contains(&"avi"));
}

#[test]
fn test_find_video_files_empty_directory() {
    let temp_dir = TempDir::new().unwrap();
    let processor = FileProcessor::new();

    let files = find_video_files(&processor, temp_dir.path()).unwrap();
    assert!(files.is_empty());
}

#[test]
fn test_find_video_files_with_videos() {
    let temp_dir = TempDir::new().unwrap();
    let processor = FileProcessor::new();

    let video_files = ["test1.mp4", "test2.mkv", "test3.avi"];
    let non_video_files = ["readme.txt", "image.jpg", "audio.mp3"];

    for file in &video_files {
        write_file(temp_dir.path(), file, "fake video content");
    }
    for file in &non_video_files {
        write_file(temp_dir.path(), file, "other content");
    }

    let found_files = find_video_files(&processor, temp_dir.path()).unwrap();

    assert_eq!(found_files.len(), video_files.len());
    for video_file in &video_files {
        let expected_path = path_text(&temp_dir.path().join(video_file));
        assert!(found_files.contains(&expected_path));
    }
}

#[test]
fn test_find_video_files_recursive() {
    let temp_dir = TempDir::new().unwrap();
    let processor = FileProcessor::new();

    let sub_dir = make_dir(temp_dir.path(), "subdir");
    let deep_dir = make_dir(&sub_dir, "deep");

    write_file(temp_dir.path(), "root.mp4", "content");
    write_file(&sub_dir, "sub.mkv", "content");
    write_file(&deep_dir, "deep.avi", "content");

    let found_files = find_video_files(&processor, temp_dir.path()).unwrap();
    assert_eq!(found_files.len(), 3);
}

#[test]
fn test_find_video_files_nonexistent_directory() {
    let processor = FileProcessor::new();
    let result = find_video_files(&processor, Path::new("/nonexistent/directory"));

    assert!(result.is_err());
    match result.unwrap_err() {
        VideoToAudioError::InvalidPath(_) => (),
        _ => panic!("应该返回 InvalidPath 错误"),
    }
}

#[test]
fn find_on_a_file_is_invalid_path() {
    let temp_dir = TempDir::new().unwrap();
    let file = write_file(temp_dir.path(), "movie.mp4", "content");
    let processor = FileProcessor::new();
    match find_video_files(&processor, &file) {
        Err(VideoToAudioError::InvalidPath(m)) => {
            assert_eq!(m, format!("路径不是目录: {}", file.display()))
        }
        other => panic!("unexpected {other:?}"),
    }
}

#[test]
fn test_audio_format_integration() {
    for format in AudioFormat::all_formats() {
        assert!(!format.extension().is_empty());
        assert!(!format.ffmpeg_args().is_empty());
        assert!(!format.description().is_empty());
    }
}

#[test]
fn test_batch_convert_empty_list() {
    let temp_dir = TempDir::new().unwrap();
    let processor = FileProcessor::new();
    let output_dir = processor.output_directory_path(temp_dir.path().to_str().unwrap());

    let files: Vec<String> = vec![];
    let (success, failure) =
        batch_convert(&processor, &files, &output_dir, AudioFormat::Mp3, |_current, _total| {});

    assert_eq!(success, 0);
    assert_eq!(failure, 0);
}

#[test]
fn test_error_handling_chain() {
    let io_error = std::io::Error::new(std::io::ErrorKind::NotFound, "文件不存在");
    let video_error: VideoToAudioError = io_error.into();

    match video_error {
        VideoToAudioError::Io(_) => (),
        _ => panic!("应该转换为 Io 错误"),
    }
}

#[test]
fn test_format_parsing_comprehensive() {
    let test_cases = vec![
        ("1", AudioFormat::Mp3),
        ("2", AudioFormat::AacCopy),
        ("3", AudioFormat::Opus),
        ("mp3", AudioFormat::Mp3),
        ("MP3", AudioFormat::Mp3),
        ("aac", AudioFormat::AacCopy),
        ("AAC", AudioFormat::AacCopy),
        ("opus", AudioFormat::Opus),
        ("OPUS", AudioFormat::Opus),
    ];

    for (input, expected) in test_cases {
        let result = AudioFormat::from_user_input(input).unwrap();
        assert_eq!(result, expected, "输入 '{input}' 应该解析为 {expected:?}");
    }

    let invalid_inputs = vec!["0", "4", "invalid", "", "   ", "mp4"];
    for input in invalid_inputs {
        assert!(AudioFormat::from_user_input(input).is_err(), "输入 '{input}' 应该返回错误");
    }
}

#[test]
fn test_file_processor_supported_extensions() {
    let processor = FileProcessor::new();
    let extensions = processor.supported_extensions();

    let expected_formats = ["mp4", "mkv", "avi", "mov", "webm", "flv", "wmv"];
    for format in &expected_formats {
        assert!(extensions.contains(format), "应该支持 {format} 格式");
    }
}

#[test]
fn test_progress_callback() {
    let temp_dir = TempDir::new().unwrap();
    let processor = FileProcessor::new();
    let output_dir = processor.output_directory_path(temp_dir.path().to_str().unwrap());

    let progress_calls = Mutex::new(Vec::new());
    let files: Vec<String> = vec![];
    batch_convert(&processor, &files, &output_dir, AudioFormat::Mp3, |current, total| {
        progress_calls.lock().unwrap().push((current, total));
    });

    assert!(progress_calls.lock().unwrap().is_empty());
}

#[test]
fn test_case_insensitive_extensions() {
    let temp_dir = TempDir::new().unwrap();
    let processor = FileProcessor::new();

    let files = ["test.MP4", "test.MKV", "test.Avi"];
    for file in &files {
        write_file(temp_dir.path(), file, "content");
    }

    let found_files = find_video_files(&processor, temp_dir.path()).unwrap();
    assert_eq!(found_files.len(), files.len());
}

#[test]
fn mixed_tree_yields_exactly_the_video_files() {
    let temp_dir = TempDir::new().unwrap();
    let processor = FileProcessor::new();
    let nested = make_dir(&make_dir(temp_dir.path(), "a"), "b.mp4");
    write_file(&nested, "inner.ts", "x");
    write_file(&nested, "notes.md", "x");
    write_file(temp_dir.path(), "Clip.WebM", "x");
    write_file(temp_dir.path(), "noext", "x");

    let mut found = find_video_files(&processor, temp_dir.path()).unwrap();
    found.sort();
    let mut expected = vec![
        path_text(&nested.join("inner.ts")),
        path_text(&temp_dir.path().join("Clip.WebM")),
    ];
    expected.sort();
    assert_eq!(found, expected);
}

#[test]
fn failing_batch_counts_every_item_once_in_parallel() {
    let processor = FileProcessor::new();
    let files: Vec<String> = (0..100).map(|i| format!("/nonexistent/source/{i}.mp4")).collect();
    for _ in 0..5 {
        let calls = Mutex::new(Vec::new());
        let pool = rayon::ThreadPoolBuilder::new().num_threads(4).build().unwrap();
        let (ok, failed) = pool.install(|| {
            batch_convert(&processor, &files, "/tmp/out", AudioFormat::Opus, |c, t| {
                calls.lock().unwrap().push((c, t));
            })
        });
        assert_eq!((ok, failed), (0, 100));
        let calls = calls.into_inner().unwrap();
        let expected: Vec<(usize, usize)> = (1..=100).map(|c| (c, 100)).collect();
        assert_eq!(calls, expected);
    }
}
