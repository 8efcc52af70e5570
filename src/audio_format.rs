//! The catalogue of output audio formats and the parser of format selectors.

use crate::error::{Result, VideoToAudioError};
use crate::text::{
    all_ascii, ascii_lower, is_ascii_alnum, is_ascii_space, lowercase_text, lowered, same_text,
    trim_text, trimmed,
};
use vstd::prelude::*;

verus! {

/// An output audio encoding.
#[derive(Debug, Clone, Copy, PartialEq, Eq, Structural)]
pub enum AudioFormat {
    /// MP3 at the best variable-bit-rate quality.
    Mp3,
    /// The audio stream copied as it is into an AAC file.
    AacCopy,
    /// Opus at 192 kbit/s.
    Opus,
}

/// The formats in the order in which they are offered (and numbered from 1).
pub open spec fn format_list() -> Seq<AudioFormat> {
    seq![AudioFormat::Mp3, AudioFormat::AacCopy, AudioFormat::Opus]
}

/// The format that a selector names once trimmed and lower-cased: its
/// 1-based position in `format_list`, or one of its names.
pub open spec fn selector_spec(s: Seq<char>) -> Option<AudioFormat> {
    if s == "1"@ || s == "mp3"@ {
        Some(AudioFormat::Mp3)
    } else if s == "2"@ || s == "aac"@ || s == "aac-copy"@ {
        Some(AudioFormat::AacCopy)
    } else if s == "3"@ || s == "opus"@ {
        Some(AudioFormat::Opus)
    } else {
        None
    }
}

/// The text of a selector after surrounding white space is removed and
/// letters are lower-cased.
pub open spec fn normalized_selector(input: Seq<char>) -> Seq<char> {
    lowered(trimmed(input))
}

/// The format that raw user input selects, if any.
pub open spec fn parse_user_input(input: Seq<char>) -> Option<AudioFormat> {
    selector_spec(normalized_selector(input))
}

/// The message of the error for a selector that names no format.
pub open spec fn invalid_choice_message(s: Seq<char>) -> Seq<char> {
    "不支持的音频格式选择: '"@ + s + "'. 请选择 1-3 或格式名称 (mp3/aac/opus)"@
}

/// What parsing raw user input gives: the selected format, or an error that
/// quotes the normalized input; input of white space alone is refused, and
/// input of ASCII letters and digits is read without regard to letter case.
pub open spec fn user_input_outcome(input: Seq<char>, r: Result<AudioFormat>) -> bool {
    &&& match parse_user_input(input) {
        Some(f) => r == Ok::<AudioFormat, VideoToAudioError>(f),
        None => r matches Err(VideoToAudioError::InvalidInput(m)) && m@ == invalid_choice_message(
            normalized_selector(input),
        ),
    }
    &&& (forall|i: int| 0 <= i < input.len() ==> is_ascii_space(#[trigger] input[i])) ==> r is Err
    &&& (forall|i: int| 0 <= i < input.len() ==> is_ascii_alnum(#[trigger] input[i]))
        ==> match ascii_selector(input) {
        Some(f) => r == Ok::<AudioFormat, VideoToAudioError>(f),
        None => r is Err,
    }
}

impl AudioFormat {
    pub open spec fn extension_spec(self) -> Seq<char> {
        match self {
            AudioFormat::Mp3 => "mp3"@,
            AudioFormat::AacCopy => "aac"@,
            AudioFormat::Opus => "opus"@,
        }
    }

    pub open spec fn args_spec(self) -> Seq<Seq<char>> {
        match self {
            AudioFormat::Mp3 => seq!["-q:a"@, "0"@],
            AudioFormat::AacCopy => seq!["-c:a"@, "copy"@],
            AudioFormat::Opus => seq!["-c:a"@, "libopus"@, "-b:a"@, "192k"@],
        }
    }

    pub open spec fn description_spec(self) -> Seq<char> {
        match self {
            AudioFormat::Mp3 => "MP3 (高质量, 最佳兼容性)"@,
            AudioFormat::AacCopy => "AAC (直接复制, 速度最快, 零损耗)"@,
            AudioFormat::Opus => "Opus (现代化, 高效率)"@,
        }
    }

    /// File extension of the output, without the leading dot.
    pub fn extension(&self) -> (r: &'static str)
        ensures
            r@ == self.extension_spec(),
    {
        match self {
            AudioFormat::Mp3 => "mp3",
            AudioFormat::AacCopy => "aac",
            AudioFormat::Opus => "opus",
        }
    }

    /// Encoder arguments handed to the transcoding tool for this format.
    pub fn ffmpeg_args(&self) -> (r: Vec<&'static str>)
        ensures
            r.deep_view() == self.args_spec(),
    {
        let r = match self {
            AudioFormat::Mp3 => vec!["-q:a", "0"],
            AudioFormat::AacCopy => vec!["-c:a", "copy"],
            AudioFormat::Opus => vec!["-c:a", "libopus", "-b:a", "192k"],
        };
        assert(r.deep_view() =~= self.args_spec());
        r
    }

    /// Parses a selector that is already trimmed and lower-cased.
    pub fn from_normalized_input(s: &str) -> (r: Result<Self>)
        ensures
            match selector_spec(s@) {
                Some(f) => r == Ok::<AudioFormat, VideoToAudioError>(f),
                None => r matches Err(VideoToAudioError::InvalidInput(m))
                    && m@ == invalid_choice_message(s@),
            },
    {
        if same_text(s, "1") || same_text(s, "mp3") {
            Ok(AudioFormat::Mp3)
        } else if same_text(s, "2") || same_text(s, "aac") || same_text(s, "aac-copy") {
            Ok(AudioFormat::AacCopy)
        } else if same_text(s, "3") || same_text(s, "opus") {
            Ok(AudioFormat::Opus)
        } else {
            let m = String::from_str("不支持的音频格式选择: '").concat(s).concat(
                "'. 请选择 1-3 或格式名称 (mp3/aac/opus)",
            );
            Err(VideoToAudioError::InvalidInput(m))
        }
    }

    /// Parses user input: a 1-based position in `all_formats` or a format
    /// name, ignoring surrounding white space and letter case.
    pub fn from_user_input(input: &str) -> (r: Result<Self>)
        ensures
            user_input_outcome(input@, r),
    {
        let t = trim_text(input);
        let lower = lowercase_text(t);
        proof {
            if forall|i: int| 0 <= i < input@.len() ==> is_ascii_space(#[trigger] input@[i]) {
                assert(all_ascii(t@));
                assert(lower@ =~= Seq::<char>::empty());
                reveal_strlit("1");
                reveal_strlit("2");
                reveal_strlit("3");
                reveal_strlit("mp3");
                reveal_strlit("aac");
                reveal_strlit("aac-copy");
                reveal_strlit("opus");
                assert(selector_spec(lower@) is None);
            }
            if forall|i: int| 0 <= i < input@.len() ==> is_ascii_alnum(#[trigger] input@[i]) {
                assert(all_ascii(t@));
            }
        }
        Self::from_normalized_input(lower.as_str())
    }

    /// Description of the format for display.
    pub fn description(&self) -> (r: &'static str)
        ensures
            r@ == self.description_spec(),
    {
        match self {
            AudioFormat::Mp3 => "MP3 (高质量, 最佳兼容性)",
            AudioFormat::AacCopy => "AAC (直接复制, 速度最快, 零损耗)",
            AudioFormat::Opus => "Opus (现代化, 高效率)",
        }
    }

    /// Every format, in the order in which they are numbered.
    pub fn all_formats() -> (r: Vec<Self>)
        ensures
            r@ == format_list(),
    {
        let r = vec![AudioFormat::Mp3, AudioFormat::AacCopy, AudioFormat::Opus];
        assert(r@ =~= format_list());
        r
    }
}

/// The decimal texts of the positions of `format_list`, from 1.
pub open spec fn ordinal_texts() -> Seq<Seq<char>> {
    seq!["1"@, "2"@, "3"@]
}

/// The format that a selector of ASCII letters and digits names, in any
/// letter case (see `AudioFormat::from_user_input`).
pub open spec fn ascii_selector(s: Seq<char>) -> Option<AudioFormat> {
    selector_spec(ascii_lower(s))
}

/// Each format is selected by the decimal text of its 1-based position in
/// the catalogue, a text of digits alone; the positions select pairwise
/// different formats, and every format `f` is selected by one of them.
pub proof fn lemma_ordinals_select_in_order(f: AudioFormat)
    ensures
        forall|i: int|
            0 <= i < format_list().len() ==> ascii_selector(ordinal_texts()[i])
                == Some(#[trigger] format_list()[i]),
        ordinal_texts().len() == format_list().len(),
        forall|i: int|
            0 <= i < format_list().len() ==> all_digits(#[trigger] ordinal_texts()[i]),
        forall|i: int, j: int|
            0 <= i < format_list().len() && 0 <= j < format_list().len() && i != j
                ==> format_list()[i] != format_list()[j],
        exists|i: int| 0 <= i < format_list().len() && format_list()[i] == f,
{
    reveal_strlit("1");
    reveal_strlit("2");
    reveal_strlit("3");
    reveal_strlit("mp3");
    reveal_strlit("aac");
    reveal_strlit("aac-copy");
    assert forall|i: int| 0 <= i < format_list().len() implies ascii_selector(
        ordinal_texts()[i],
    ) == Some(#[trigger] format_list()[i]) by {
        let s = ordinal_texts()[i];
        assert(ascii_lower(s) =~= s);
        if i == 0 {
            assert(s == "1"@);
        } else if i == 1 {
            assert(s == "2"@);
            assert(s[0] == '2' && ("1"@)[0] == '1' && ("mp3"@).len() == 3);
        } else {
            assert(s == "3"@);
            assert(s[0] == '3' && ("1"@)[0] == '1' && ("2"@)[0] == '2');
            assert(("mp3"@).len() == 3 && ("aac"@).len() == 3 && ("aac-copy"@).len() == 8);
        }
    }
    let i: int = match f {
        AudioFormat::Mp3 => 0,
        AudioFormat::AacCopy => 1,
        AudioFormat::Opus => 2,
    };
    assert(format_list()[i] == f);
}

/// True when every character is an ASCII digit.
pub open spec fn all_digits(s: Seq<char>) -> bool {
    forall|i: int| 0 <= i < s.len() ==> '0' <= #[trigger] s[i] && s[i] <= '9'
}

/// A number other than a position of the catalogue selects nothing.
pub proof fn lemma_out_of_range_ordinal_rejected(s: Seq<char>)
    requires
        all_digits(s),
        s != "1"@ && s != "2"@ && s != "3"@,
    ensures
        forall|i: int| 0 <= i < s.len() ==> is_ascii_alnum(#[trigger] s[i]),
        ascii_selector(s) is None,
{
    reveal_strlit("mp3");
    reveal_strlit("aac");
    reveal_strlit("aac-copy");
    reveal_strlit("opus");
    assert forall|i: int| 0 <= i < s.len() implies is_ascii_alnum(#[trigger] s[i]) by {
        assert('0' <= s[i] && s[i] <= '9');
    }
    assert(ascii_lower(s) =~= s);
    if s.len() >= 1 {
        assert(s[0] != 'm' && s[0] != 'a' && s[0] != 'o');
    }
}

} // verus!
