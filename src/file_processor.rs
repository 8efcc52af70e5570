//! Discovery of video files, output paths and the plan of one conversion.
//!
//! Reading the disk and running the transcoding tool happen outside this
//! module: it decides, from what was observed, which files are candidates,
//! where their output goes, what the tool is asked to do and what its exit
//! status means.

use crate::audio_format::AudioFormat;
use crate::error::{Result, VideoToAudioError};
use crate::paths::{extension_of, file_extension, file_stem, join_path, joined, stem_of};
use crate::text::{all_ascii, ascii_lower, lowercase_text, lowered, same_text};
use vstd::prelude::*;

verus! {

/// The video container extensions that are converted, in lower case.
pub open spec fn video_extensions() -> Seq<Seq<char>> {
    seq!["mp4"@, "mkv"@, "avi"@, "mov"@, "webm"@, "flv"@, "wmv"@, "m4v"@, "3gp"@, "ts"@]
}

/// A path whose extension, lower-cased, is a video extension.
pub open spec fn is_video_path(p: Seq<char>) -> bool {
    match extension_of(p) {
        Some(e) => video_extensions().contains(lowered(e)),
        None => false,
    }
}

/// One entry met while walking a directory tree.
#[derive(Debug, Clone)]
pub struct WalkEntry {
    /// The entry's full path.
    pub path: String,
    /// Whether the entry is a regular file (not a directory or a link).
    pub is_file: bool,
}

/// The candidates among walked entries: the regular files with a video
/// extension, in the order of the walk.
pub open spec fn video_files_of(entries: Seq<WalkEntry>) -> Seq<Seq<char>>
    decreases entries.len(),
{
    if entries.len() == 0 {
        seq![]
    } else {
        let rest = video_files_of(entries.drop_last());
        let e = entries.last();
        if e.is_file && is_video_path(e.path@) {
            rest.push(e.path@)
        } else {
            rest
        }
    }
}

/// The name of the output file: the input's stem, a dot, the format's
/// extension.
pub open spec fn output_file_name(stem: Seq<char>, format: AudioFormat) -> Seq<char> {
    stem + "."@ + format.extension_spec()
}

/// Where the output for `source` goes in `output_dir`, if `source` has a
/// file name.
pub open spec fn resolved_output(source: Seq<char>, output_dir: Seq<char>, format: AudioFormat) -> Option<
    Seq<char>,
> {
    match stem_of(source) {
        Some(stem) => Some(joined(output_dir, output_file_name(stem, format))),
        None => None,
    }
}

/// The arguments of the transcoding tool for one file: overwrite, quiet
/// logging, the input, no video stream, the format's encoder arguments and
/// the output.
pub open spec fn ffmpeg_invocation(source: Seq<char>, output: Seq<char>, format: AudioFormat) -> Seq<
    Seq<char>,
> {
    seq!["-y"@, "-hide_banner"@, "-loglevel"@, "error"@, "-i"@, source, "-vn"@]
        + format.args_spec() + seq![output]
}

/// The name of the default output directory under the source directory.
pub open spec fn export_dir_name() -> Seq<char> {
    "audio_exports"@
}

pub open spec fn missing_tool_message() -> Seq<char> {
    "FFmpeg 未安装或不在系统 PATH 中。请安装 FFmpeg 后重试。"@
}

/// What one conversion will do: where the output goes and the tool's
/// arguments.
#[derive(Debug)]
pub struct ConversionPlan {
    pub output_path: String,
    pub args: Vec<String>,
}

/// Discovers video files and plans their conversion.
pub struct FileProcessor {
    supported_extensions: Vec<&'static str>,
}

impl FileProcessor {
    #[verifier::type_invariant]
    spec fn inv(&self) -> bool {
        self.supported_extensions.deep_view() == video_extensions()
    }

    /// The extensions that this processor accepts.
    pub closed spec fn extension_list(&self) -> Seq<Seq<char>> {
        self.supported_extensions.deep_view()
    }

    /// A processor that accepts the video extensions of `video_extensions`.
    pub fn new() -> (r: Self)
        ensures
            r.extension_list() == video_extensions(),
    {
        let supported_extensions = vec![
            "mp4",
            "mkv",
            "avi",
            "mov",
            "webm",
            "flv",
            "wmv",
            "m4v",
            "3gp",
            "ts",
        ];
        assert(supported_extensions.deep_view() =~= video_extensions());
        FileProcessor { supported_extensions }
    }

    /// The accepted video extensions, in lower case.
    pub fn supported_extensions(&self) -> (r: &[&'static str])
        ensures
            r.deep_view() == self.extension_list(),
            r.deep_view() == video_extensions(),
    {
        proof {
            use_type_invariant(self);
        }
        self.supported_extensions.as_slice()
    }

    fn accepts_extension(&self, ext: &str) -> (r: bool)
        ensures
            r == video_extensions().contains(ext@),
    {
        proof {
            use_type_invariant(self);
        }
        let n = self.supported_extensions.len();
        let mut i: usize = 0;
        while i < n
            invariant
                n == self.supported_extensions@.len(),
                self.supported_extensions.deep_view() == video_extensions(),
                i <= n,
                forall|j: int| 0 <= j < i ==> video_extensions()[j] != ext@,
            decreases n - i,
        {
            if same_text(self.supported_extensions[i], ext) {
                assert(video_extensions()[i as int] == ext@);
                return true;
            }
            i = i + 1;
        }
        assert(!video_extensions().contains(ext@));
        false
    }

    /// Whether `path` names a video file: its extension, lower-cased, is one
    /// of the accepted extensions. For an ASCII extension that is its ASCII
    /// lower-case form, so letter case does not matter.
    pub fn is_supported_video_file(&self, path: &str) -> (r: bool)
        ensures
            r == is_video_path(path@),
            match extension_of(path@) {
                Some(e) => all_ascii(e) ==> r == video_extensions().contains(ascii_lower(e)),
                None => !r,
            },
    {
        match file_extension(path) {
            None => false,
            Some(e) => {
                let lower = lowercase_text(e.as_str());
                self.accepts_extension(lower.as_str())
            },
        }
    }

    /// The regular files among walked entries whose extension is accepted,
    /// in the order of the walk.
    pub fn collect_video_files(&self, entries: &Vec<WalkEntry>) -> (r: Vec<String>)
        ensures
            r.deep_view() == video_files_of(entries@),
    {
        let mut r: Vec<String> = Vec::new();
        let mut i: usize = 0;
        while i < entries.len()
            invariant
                i <= entries@.len(),
                r.deep_view() == video_files_of(entries@.take(i as int)),
            decreases entries@.len() - i,
        {
            let e = &entries[i];
            proof {
                assert(entries@.take(i + 1).drop_last() =~= entries@.take(i as int));
            }
            if e.is_file && self.is_supported_video_file(e.path.as_str()) {
                r.push(e.path.clone());
                assert(r.deep_view() =~= video_files_of(entries@.take(i + 1)));
            }
            i = i + 1;
        }
        assert(entries@.take(entries@.len() as int) =~= entries@);
        r
    }

    /// Checks the root of a search: it must exist and be a directory.
    pub fn check_source_dir(source_dir: &str, exists: bool, is_dir: bool) -> (r: Result<()>)
        ensures
            !exists ==> (r matches Err(VideoToAudioError::InvalidPath(m)) && m@ == "目录不存在: "@
                + source_dir@),
            exists && !is_dir ==> (r matches Err(VideoToAudioError::InvalidPath(m)) && m@
                == "路径不是目录: "@ + source_dir@),
            exists && is_dir ==> r is Ok,
    {
        if !exists {
            return Err(
                VideoToAudioError::InvalidPath(String::from_str("目录不存在: ").concat(source_dir)),
            );
        }
        if !is_dir {
            return Err(
                VideoToAudioError::InvalidPath(String::from_str("路径不是目录: ").concat(source_dir)),
            );
        }
        Ok(())
    }

    /// The default output directory: `audio_exports` under the source
    /// directory.
    pub fn output_directory_path(&self, source_dir: &str) -> (r: String)
        ensures
            r@ == joined(source_dir@, export_dir_name()),
    {
        join_path(source_dir, "audio_exports")
    }

    /// The output path of `source_file`: its stem with the format's
    /// extension, in `output_dir`; an error where it has no file name.
    pub fn build_output_path(&self, source_file: &str, output_dir: &str, format: AudioFormat) -> (r:
        Result<String>)
        ensures
            match resolved_output(source_file@, output_dir@, format) {
                Some(p) => r matches Ok(s) && s@ == p,
                None => r matches Err(VideoToAudioError::InvalidPath(m)) && m@ == "无法获取文件名: "@
                    + source_file@,
            },
    {
        match file_stem(source_file) {
            None => Err(
                VideoToAudioError::InvalidPath(String::from_str("无法获取文件名: ").concat(source_file)),
            ),
            Some(stem) => {
                let name = stem.concat(".").concat(format.extension());
                Ok(join_path(output_dir, name.as_str()))
            },
        }
    }

    /// The arguments of the transcoding tool that converts `source_file`
    /// into `output_path`.
    pub fn ffmpeg_command_args(source_file: &str, output_path: &str, format: AudioFormat) -> (r:
        Vec<String>)
        ensures
            r.deep_view() == ffmpeg_invocation(source_file@, output_path@, format),
    {
        let mut r: Vec<String> = Vec::new();
        r.push(String::from_str("-y"));
        r.push(String::from_str("-hide_banner"));
        r.push(String::from_str("-loglevel"));
        r.push(String::from_str("error"));
        r.push(String::from_str("-i"));
        r.push(String::from_str(source_file));
        r.push(String::from_str("-vn"));
        let head: Ghost<Seq<Seq<char>>> = Ghost(r.deep_view());
        assert(head@ =~= seq!["-y"@, "-hide_banner"@, "-loglevel"@, "error"@, "-i"@, source_file@, "-vn"@]);
        let extra = format.ffmpeg_args();
        let mut i: usize = 0;
        while i < extra.len()
            invariant
                i <= extra@.len(),
                extra.deep_view() == format.args_spec(),
                r.deep_view() == head@ + format.args_spec().take(i as int),
            decreases extra@.len() - i,
        {
            assert(extra.deep_view()[i as int] == extra@[i as int]@);
            let ghost prev = r.deep_view();
            r.push(String::from_str(extra[i]));
            assert(r.deep_view() =~= prev.push(extra@[i as int]@));
            assert(r.deep_view() =~= head@ + format.args_spec().take(i + 1));
            i = i + 1;
        }
        assert(format.args_spec().take(extra@.len() as int) =~= format.args_spec());
        r.push(String::from_str(output_path));
        assert(r.deep_view() =~= ffmpeg_invocation(source_file@, output_path@, format));
        r
    }

    /// Plans the conversion of one file: it must exist and have a file name;
    /// the plan holds the output path and the tool's arguments.
    pub fn plan_conversion(
        &self,
        source_file: &str,
        source_exists: bool,
        output_dir: &str,
        format: AudioFormat,
    ) -> (r: Result<ConversionPlan>)
        ensures
            !source_exists ==> (r matches Err(VideoToAudioError::InvalidPath(m)) && m@ == "源文件不存在: "@
                + source_file@),
            source_exists ==> match resolved_output(source_file@, output_dir@, format) {
                Some(p) => r matches Ok(plan) && plan.output_path@ == p && plan.args.deep_view()
                    == ffmpeg_invocation(source_file@, p, format),
                None => r matches Err(VideoToAudioError::InvalidPath(m)) && m@ == "无法获取文件名: "@
                    + source_file@,
            },
    {
        if !source_exists {
            return Err(
                VideoToAudioError::InvalidPath(String::from_str("源文件不存在: ").concat(source_file)),
            );
        }
        let output_path = self.build_output_path(source_file, output_dir, format)?;
        let args = Self::ffmpeg_command_args(source_file, output_path.as_str(), format);
        Ok(ConversionPlan { output_path, args })
    }

    /// The outcome of probing for the transcoding tool: an error exactly
    /// when it could not be launched.
    pub fn tool_probe_result(launched: bool) -> (r: Result<()>)
        ensures
            launched ==> r is Ok,
            !launched ==> (r matches Err(VideoToAudioError::MissingDependency(m)) && m@
                == missing_tool_message()),
    {
        if launched {
            Ok(())
        } else {
            Err(
                VideoToAudioError::MissingDependency(
                    String::from_str("FFmpeg 未安装或不在系统 PATH 中。请安装 FFmpeg 后重试。"),
                ),
            )
        }
    }

    /// The outcome of one run of the tool: an error carrying its diagnostic
    /// text exactly when it exited unsuccessfully.
    pub fn conversion_result(exit_success: bool, stderr: &str) -> (r: Result<()>)
        ensures
            exit_success ==> r is Ok,
            !exit_success ==> (r matches Err(VideoToAudioError::FfmpegError(m)) && m@ == "转换失败: "@
                + stderr@),
    {
        if exit_success {
            Ok(())
        } else {
            Err(VideoToAudioError::FfmpegError(String::from_str("转换失败: ").concat(stderr)))
        }
    }
}

impl Default for FileProcessor {
    fn default() -> (r: Self)
        ensures
            r.extension_list() == video_extensions(),
    {
        Self::new()
    }
}

/// Resolving an output path depends on its arguments alone, so equal
/// arguments give equal paths. A source with a file name resolves to its stem,
/// a dot and the format's extension, in the output directory; one without
/// resolves to nothing.
pub proof fn lemma_resolve_extension(source: Seq<char>, output_dir: Seq<char>, format: AudioFormat)
    ensures
        match stem_of(source) {
            Some(stem) => {
                let name = output_file_name(stem, format);
                &&& resolved_output(source, output_dir, format) == Some(joined(output_dir, name))
                &&& name.len() == stem.len() + 1 + format.extension_spec().len()
                &&& name.subrange(0, stem.len() as int) == stem
                &&& name[stem.len() as int] == '.'
                &&& name.subrange(stem.len() as int + 1, name.len() as int) == format.extension_spec()
            },
            None => resolved_output(source, output_dir, format) is None,
        },
{
    reveal_strlit(".");
    if let Some(stem) = stem_of(source) {
        let name = output_file_name(stem, format);
        assert(name.subrange(0, stem.len() as int) =~= stem);
        assert(name.subrange(stem.len() as int + 1, name.len() as int) =~= format.extension_spec());
    }
}

/// Discovery is exact: a path is a candidate if and only if some walked
/// entry is a regular file at that path with a video extension; every
/// candidate is a walked path, so directories and other files never are.
pub proof fn lemma_video_files_exact(entries: Seq<WalkEntry>, p: Seq<char>)
    ensures
        video_files_of(entries).contains(p) <==> exists|i: int|
            0 <= i < entries.len() && (#[trigger] entries[i]).is_file && entries[i].path@ == p
                && is_video_path(p),
    decreases entries.len(),
{
    if entries.len() > 0 {
        let init = entries.drop_last();
        lemma_video_files_exact(init, p);
        let e = entries.last();
        if video_files_of(entries).contains(p) {
            if e.is_file && is_video_path(e.path@) && p == e.path@ {
                assert(entries[entries.len() - 1] == e);
            } else {
                assert(video_files_of(init).contains(p)) by {
                    if e.is_file && is_video_path(e.path@) {
                        let k = choose|k: int| 0 <= k < video_files_of(entries).len()
                            && video_files_of(entries)[k] == p;
                        assert(video_files_of(init)[k] == p);
                    }
                }
                let i = choose|i: int|
                    0 <= i < init.len() && (#[trigger] init[i]).is_file && init[i].path@ == p
                        && is_video_path(p);
                assert(entries[i] == init[i]);
            }
        }
        if exists|i: int|
            0 <= i < entries.len() && (#[trigger] entries[i]).is_file && entries[i].path@ == p
                && is_video_path(p) {
            let i = choose|i: int|
                0 <= i < entries.len() && (#[trigger] entries[i]).is_file && entries[i].path@ == p
                    && is_video_path(p);
            if i == entries.len() - 1 {
                assert(video_files_of(entries) == video_files_of(init).push(p));
                assert(video_files_of(entries)[video_files_of(init).len() as int] == p);
            } else {
                assert(init[i] == entries[i]);
                let k = choose|k: int| 0 <= k < video_files_of(init).len()
                    && video_files_of(init)[k] == p;
                if e.is_file && is_video_path(e.path@) {
                    assert(video_files_of(entries)[k] == p);
                }
            }
        }
    }
}

} // verus!
