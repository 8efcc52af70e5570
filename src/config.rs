//! Settings: command-line arguments, the persisted configuration, and the
//! runtime settings that combine them.
//!
//! Parsing the command line and reading or writing the configuration file
//! happen outside the library, which holds the values and the rules that
//! relate them.

use crate::audio_format::{user_input_outcome, AudioFormat};
use crate::text::{ascii_lower, is_ascii_alnum};
use crate::error::{Result, VideoToAudioError};
use crate::file_processor::{export_dir_name, FileProcessor};
use crate::paths::{join_path, joined};
use crate::text::same_text;
use vstd::prelude::*;

verus! {

/// The most source directories remembered.
pub const MAX_RECENT_DIRS: usize = 10;

/// An output format as it is named on the command line.
#[derive(Debug, Clone, Copy, PartialEq, Eq, Structural)]
pub enum CliAudioFormat {
    Mp3,
    Aac,
    Opus,
}

pub open spec fn cli_format_spec(c: CliAudioFormat) -> AudioFormat {
    match c {
        CliAudioFormat::Mp3 => AudioFormat::Mp3,
        CliAudioFormat::Aac => AudioFormat::AacCopy,
        CliAudioFormat::Opus => AudioFormat::Opus,
    }
}

impl From<CliAudioFormat> for AudioFormat {
    fn from(cli_format: CliAudioFormat) -> (r: Self)
        ensures
            r == cli_format_spec(cli_format),
    {
        match cli_format {
            CliAudioFormat::Mp3 => AudioFormat::Mp3,
            CliAudioFormat::Aac => AudioFormat::AacCopy,
            CliAudioFormat::Opus => AudioFormat::Opus,
        }
    }
}

impl vstd::std_specs::convert::FromSpecImpl<CliAudioFormat> for AudioFormat {
    open spec fn obeys_from_spec() -> bool {
        true
    }

    open spec fn from_spec(cli_format: CliAudioFormat) -> Self {
        cli_format_spec(cli_format)
    }
}

/// The command-line arguments.
pub struct Args {
    /// Directory that holds the videos.
    pub source_dir: Option<String>,
    /// Output format.
    pub format: Option<CliAudioFormat>,
    /// Output directory (by default `audio_exports` under the source).
    pub output_dir: Option<String>,
    /// Run without any prompt.
    pub batch_mode: bool,
    /// Show more detail.
    pub verbose: bool,
    /// Show errors only.
    pub quiet: bool,
    /// Number of parallel workers.
    pub jobs: Option<usize>,
    /// Skip outputs that already exist.
    pub skip_existing: bool,
    /// List the supported formats and stop.
    pub list_formats: bool,
    /// Configuration file to use.
    pub config_file: Option<String>,
    /// Save the settings as the defaults.
    pub save_config: bool,
}

/// The persisted configuration.
#[derive(Debug, Clone)]
pub struct Config {
    pub default_format: String,
    pub default_jobs: Option<usize>,
    pub skip_existing: bool,
    pub verbose: bool,
    pub quiet: bool,
    /// Most recently used source directories, most recent first.
    pub recent_source_dirs: Vec<String>,
    pub language: String,
    pub progress_style: String,
}

/// The list `s` without any occurrence of `x`.
pub open spec fn remove_all(s: Seq<Seq<char>>, x: Seq<char>) -> Seq<Seq<char>>
    decreases s.len(),
{
    if s.len() == 0 {
        seq![]
    } else {
        let r = remove_all(s.drop_last(), x);
        if s.last() == x {
            r
        } else {
            r.push(s.last())
        }
    }
}

/// The recent directories after `dir` is used: `dir` first, then the
/// others in their order, at most `MAX_RECENT_DIRS` of them.
pub open spec fn recent_after(recent: Seq<Seq<char>>, dir: Seq<char>) -> Seq<Seq<char>> {
    let l = seq![dir] + remove_all(recent, dir);
    if l.len() > MAX_RECENT_DIRS {
        l.take(MAX_RECENT_DIRS as int)
    } else {
        l
    }
}

/// The configuration file under a configuration directory.
pub open spec fn config_file_spec(config_dir: Seq<char>) -> Seq<char> {
    joined(joined(config_dir, "video2audio-rs"@), "config.json"@)
}

pub open spec fn no_config_dir_message() -> Seq<char> {
    "无法获取配置目录"@
}

/// Relies on `dirs::config_dir`: the user's configuration directory, which
/// depends on the environment and may be unknown.
#[verifier::external_body]
fn user_config_dir() -> (r: Option<String>) {
    dirs::config_dir().map(|p| p.to_string_lossy().into_owned())
}

impl Default for Config {
    fn default() -> (r: Self)
        ensures
            r.default_format@ == "mp3"@,
            r.default_jobs is None,
            !r.skip_existing && !r.verbose && !r.quiet,
            r.recent_source_dirs@.len() == 0,
            r.language@ == "zh-CN"@,
            r.progress_style@ == "detailed"@,
    {
        Config {
            default_format: String::from_str("mp3"),
            default_jobs: None,
            skip_existing: false,
            verbose: false,
            quiet: false,
            recent_source_dirs: Vec::new(),
            language: String::from_str("zh-CN"),
            progress_style: String::from_str("detailed"),
        }
    }
}

impl Config {
    /// The configuration file in `config_dir`; an error where no
    /// configuration directory is known.
    pub fn config_file_in(config_dir: Option<&str>) -> (r: Result<String>)
        ensures
            match config_dir {
                Some(d) => r matches Ok(p) && p@ == config_file_spec(d@),
                None => r matches Err(VideoToAudioError::InvalidPath(m)) && m@
                    == no_config_dir_message(),
            },
    {
        match config_dir {
            Some(d) => {
                let app_dir = join_path(d, "video2audio-rs");
                Ok(join_path(app_dir.as_str(), "config.json"))
            },
            None => Err(VideoToAudioError::InvalidPath(String::from_str("无法获取配置目录"))),
        }
    }

    /// The configuration file in the user's configuration directory, if
    /// that directory is known.
    pub fn default_config_path() -> (r: Result<String>)
        ensures
            r matches Ok(p) ==> exists|d: Seq<char>| p@ == config_file_spec(d),
            r matches Err(e) ==> e matches VideoToAudioError::InvalidPath(m) && m@
                == no_config_dir_message(),
    {
        let dir = user_config_dir();
        match dir {
            Some(d) => Self::config_file_in(Some(d.as_str())),
            None => Self::config_file_in(None),
        }
    }

    /// Remembers `dir` as the most recently used source directory.
    pub fn add_recent_source_dir(&mut self, dir: &str)
        ensures
            final(self).recent_source_dirs.deep_view() == recent_after(
                old(self).recent_source_dirs.deep_view(),
                dir@,
            ),
            final(self).default_format == old(self).default_format,
            final(self).default_jobs == old(self).default_jobs,
            final(self).skip_existing == old(self).skip_existing,
            final(self).verbose == old(self).verbose,
            final(self).quiet == old(self).quiet,
            final(self).language == old(self).language,
            final(self).progress_style == old(self).progress_style,
    {
        let ghost before = self.recent_source_dirs.deep_view();
        let mut kept: Vec<String> = Vec::new();
        kept.push(String::from_str(dir));
        let n = self.recent_source_dirs.len();
        let mut i: usize = 0;
        while i < n
            invariant
                n == self.recent_source_dirs@.len(),
                before == self.recent_source_dirs.deep_view(),
                i <= n,
                kept.deep_view() == seq![dir@] + remove_all(before.take(i as int), dir@),
            decreases n - i,
        {
            proof {
                assert(before.take(i + 1).drop_last() =~= before.take(i as int));
                assert(before.take(i + 1).last() == self.recent_source_dirs@[i as int]@);
            }
            if !same_text(self.recent_source_dirs[i].as_str(), dir) {
                let ghost prev = kept.deep_view();
                kept.push(self.recent_source_dirs[i].clone());
                assert(kept.deep_view() =~= prev.push(self.recent_source_dirs@[i as int]@));
            }
            assert(kept.deep_view() =~= seq![dir@] + remove_all(before.take(i + 1), dir@));
            i = i + 1;
        }
        assert(before.take(n as int) =~= before);
        if kept.len() > MAX_RECENT_DIRS {
            let ghost full = kept.deep_view();
            kept.truncate(MAX_RECENT_DIRS);
            assert(kept.deep_view() =~= full.take(MAX_RECENT_DIRS as int));
        }
        self.recent_source_dirs = kept;
    }

    /// The default output format, parsed as user input.
    pub fn get_default_format(&self) -> (r: Result<AudioFormat>)
        ensures
            user_input_outcome(self.default_format@, r),
    {
        AudioFormat::from_user_input(self.default_format.as_str())
    }

    /// Sets the default output format, stored under its extension name.
    pub fn set_default_format(&mut self, format: AudioFormat)
        ensures
            final(self).default_format@ == format.extension_spec(),
            final(self).default_jobs == old(self).default_jobs,
            final(self).skip_existing == old(self).skip_existing,
            final(self).verbose == old(self).verbose,
            final(self).quiet == old(self).quiet,
            final(self).recent_source_dirs == old(self).recent_source_dirs,
            final(self).language == old(self).language,
            final(self).progress_style == old(self).progress_style,
    {
        self.default_format = match format {
            AudioFormat::Mp3 => String::from_str("mp3"),
            AudioFormat::AacCopy => String::from_str("aac"),
            AudioFormat::Opus => String::from_str("opus"),
        };
    }
}

/// Reading back a stored default format gives that format: the name under
/// which `set_default_format` stores it selects it.
pub proof fn lemma_default_format_round_trip(format: AudioFormat, r: Result<AudioFormat>)
    requires
        user_input_outcome(format.extension_spec(), r),
    ensures
        r == Ok::<AudioFormat, VideoToAudioError>(format),
{
    reveal_strlit("mp3");
    reveal_strlit("aac");
    reveal_strlit("opus");
    reveal_strlit("1");
    reveal_strlit("2");
    reveal_strlit("3");
    reveal_strlit("aac-copy");
    let name = format.extension_spec();
    assert(forall|i: int| 0 <= i < name.len() ==> is_ascii_alnum(#[trigger] name[i]));
    assert(ascii_lower(name) =~= name);
    assert(("1"@).len() == 1 && ("2"@).len() == 1 && ("aac-copy"@).len() == 8);
    assert(("mp3"@)[0] == 'm' && ("aac"@)[0] == 'a' && ("opus"@)[0] == 'o');
}

/// The settings of one run: the command line, completed by the
/// configuration.
#[derive(Debug, Clone)]
pub struct RuntimeConfig {
    pub source_dir: Option<String>,
    pub format: Option<AudioFormat>,
    pub output_dir: Option<String>,
    pub batch_mode: bool,
    pub verbose: bool,
    pub quiet: bool,
    pub jobs: Option<usize>,
    pub skip_existing: bool,
    pub list_formats: bool,
    pub save_config: bool,
}

/// Number of workers used when neither the settings nor the host give one.
pub const FALLBACK_THREADS: usize = 4;

impl RuntimeConfig {
    /// Combines the arguments with the configuration: a flag is set when
    /// either sets it, and the arguments' job count comes before the
    /// configuration's.
    pub fn from_args_and_config(args: Args, config: Config) -> (r: Self)
        ensures
            r.source_dir == args.source_dir,
            r.format == match args.format {
                Some(c) => Some(cli_format_spec(c)),
                None => None::<AudioFormat>,
            },
            r.output_dir == args.output_dir,
            r.batch_mode == args.batch_mode,
            r.verbose == (args.verbose || config.verbose),
            r.quiet == (args.quiet || config.quiet),
            r.jobs == match args.jobs {
                Some(j) => Some(j),
                None => config.default_jobs,
            },
            r.skip_existing == (args.skip_existing || config.skip_existing),
            r.list_formats == args.list_formats,
            r.save_config == args.save_config,
    {
        let format = match args.format {
            Some(c) => Some(AudioFormat::from(c)),
            None => None,
        };
        let jobs = match args.jobs {
            Some(j) => Some(j),
            None => config.default_jobs,
        };
        RuntimeConfig {
            source_dir: args.source_dir,
            format,
            output_dir: args.output_dir,
            batch_mode: args.batch_mode,
            verbose: args.verbose || config.verbose,
            quiet: args.quiet || config.quiet,
            jobs,
            skip_existing: args.skip_existing || config.skip_existing,
            list_formats: args.list_formats,
            save_config: args.save_config,
        }
    }

    /// Whether the user must be asked for something: outside batch mode,
    /// when the source directory or the format is missing.
    pub fn needs_interaction(&self) -> (r: bool)
        ensures
            r == (!self.batch_mode && (self.source_dir is None || self.format is None)),
    {
        !self.batch_mode && (self.source_dir.is_none() || self.format.is_none())
    }

    /// The number of workers: the configured count, else the host's
    /// available parallelism, else `FALLBACK_THREADS`.
    pub fn get_thread_count(&self, available_parallelism: Option<usize>) -> (r: usize)
        ensures
            r == match self.jobs {
                Some(j) => j,
                None => match available_parallelism {
                    Some(n) => n,
                    None => FALLBACK_THREADS,
                },
            },
    {
        match self.jobs {
            Some(j) => j,
            None => match available_parallelism {
                Some(n) => n,
                None => FALLBACK_THREADS,
            },
        }
    }

    /// The source directory and format of a batch run, both of which must
    /// be given.
    pub fn batch_inputs(&self) -> (r: Result<(String, AudioFormat)>)
        ensures
            self.source_dir is None ==> (r matches Err(VideoToAudioError::InvalidInput(m)) && m@
                == "批处理模式需要指定源目录 (--source)"@),
            self.source_dir is Some && self.format is None ==> (r matches Err(
                VideoToAudioError::InvalidInput(m),
            ) && m@ == "批处理模式需要指定音频格式 (--format)"@),
            match (self.source_dir, self.format) {
                (Some(s), Some(f)) => r matches Ok(v) && v.0@ == s@ && v.1 == f,
                _ => true,
            },
    {
        let source = match &self.source_dir {
            Some(s) => s.clone(),
            None => {
                return Err(
                    VideoToAudioError::InvalidInput(
                        String::from_str("批处理模式需要指定源目录 (--source)"),
                    ),
                );
            },
        };
        match self.format {
            Some(f) => Ok((source, f)),
            None => Err(
                VideoToAudioError::InvalidInput(
                    String::from_str("批处理模式需要指定音频格式 (--format)"),
                ),
            ),
        }
    }

    /// The output directory: the one given, else `audio_exports` under the
    /// source directory.
    pub fn output_dir_for(&self, processor: &FileProcessor, source_dir: &str) -> (r: String)
        ensures
            match &self.output_dir {
                Some(d) => r@ == d@,
                None => r@ == joined(source_dir@, export_dir_name()),
            },
    {
        match &self.output_dir {
            Some(d) => d.clone(),
            None => processor.output_directory_path(source_dir),
        }
    }
}

} // verus!
