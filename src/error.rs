//! Error type shared by every part of the library.

use vstd::prelude::*;

verus! {

/// `std::io::Error`, carried as it is inside `VideoToAudioError::Io`.
#[verifier::external_type_specification]
#[verifier::external_body]
pub struct ExIoError(std::io::Error);

/// Everything that can go wrong while discovering and converting files.
#[derive(Debug)]
pub enum VideoToAudioError {
    /// A file-system or process operation failed.
    Io(std::io::Error),
    /// The transcoding tool ran and reported a failure (its diagnostic text).
    FfmpegError(String),
    /// A path does not exist, has the wrong kind, or yields no file name.
    InvalidPath(String),
    /// User-supplied text could not be understood.
    InvalidInput(String),
    /// A file format that is not handled.
    UnsupportedFormat(String),
    /// A required external program cannot be launched.
    MissingDependency(String),
}

/// Result type used throughout the library.
pub type Result<T> = std::result::Result<T, VideoToAudioError>;

/// Text shown before the detail of each kind of error.
pub open spec fn error_prefix(e: &VideoToAudioError) -> Seq<char> {
    match e {
        VideoToAudioError::Io(_) => "文件操作错误: "@,
        VideoToAudioError::FfmpegError(_) => "FFmpeg 执行错误: "@,
        VideoToAudioError::InvalidPath(_) => "无效的文件路径: "@,
        VideoToAudioError::InvalidInput(_) => "无效的用户输入: "@,
        VideoToAudioError::UnsupportedFormat(_) => "不支持的文件格式: "@,
        VideoToAudioError::MissingDependency(_) => "缺少系统依赖: "@,
    }
}

impl VideoToAudioError {
    /// The human-readable message: a prefix naming the kind of error,
    /// followed by its detail.
    pub fn to_string(&self) -> (r: String)
        ensures
            r@.len() >= error_prefix(self).len(),
            r@.subrange(0, error_prefix(self).len() as int) == error_prefix(self),
            match self {
                VideoToAudioError::Io(_) => true,
                VideoToAudioError::FfmpegError(m) => r@ == error_prefix(self) + m@,
                VideoToAudioError::InvalidPath(m) => r@ == error_prefix(self) + m@,
                VideoToAudioError::InvalidInput(m) => r@ == error_prefix(self) + m@,
                VideoToAudioError::UnsupportedFormat(m) => r@ == error_prefix(self) + m@,
                VideoToAudioError::MissingDependency(m) => r@ == error_prefix(self) + m@,
            },
    {
        let (prefix, detail): (&str, String) = match self {
            VideoToAudioError::Io(e) => ("文件操作错误: ", e.to_string()),
            VideoToAudioError::FfmpegError(m) => ("FFmpeg 执行错误: ", m.clone()),
            VideoToAudioError::InvalidPath(m) => ("无效的文件路径: ", m.clone()),
            VideoToAudioError::InvalidInput(m) => ("无效的用户输入: ", m.clone()),
            VideoToAudioError::UnsupportedFormat(m) => ("不支持的文件格式: ", m.clone()),
            VideoToAudioError::MissingDependency(m) => ("缺少系统依赖: ", m.clone()),
        };
        let r = String::from_str(prefix).concat(detail.as_str());
        assert(r@.subrange(0, prefix@.len() as int) =~= prefix@);
        r
    }

    /// The underlying I/O error, for the `Io` kind only.
    pub fn source(&self) -> (r: Option<&std::io::Error>)
        ensures
            match self {
                VideoToAudioError::Io(e) => r == Some(e),
                _ => r is None,
            },
    {
        match self {
            VideoToAudioError::Io(e) => Some(e),
            _ => None,
        }
    }
}

impl From<std::io::Error> for VideoToAudioError {
    fn from(err: std::io::Error) -> (r: Self)
        ensures
            r == VideoToAudioError::Io(err),
    {
        VideoToAudioError::Io(err)
    }
}

impl vstd::std_specs::convert::FromSpecImpl<std::io::Error> for VideoToAudioError {
    open spec fn obeys_from_spec() -> bool {
        true
    }

    open spec fn from_spec(err: std::io::Error) -> Self {
        VideoToAudioError::Io(err)
    }
}

} // verus!
