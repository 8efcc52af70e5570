//! The user interface's own rules. Printing and reading the terminal happen
//! outside the library.

use crate::error::{Result, VideoToAudioError};
use crate::text::{trim_text, trimmed};
use vstd::prelude::*;

verus! {

pub open spec fn empty_input_message() -> Seq<char> {
    "输入不能为空，请重新输入"@
}

/// The terminal front end.
pub struct UserInterface {}

impl UserInterface {
    pub fn new() -> (r: Self) {
        UserInterface {  }
    }

    /// Reads one line the user typed: the line without surrounding white
    /// space, which must not be empty.
    pub fn parse_input_line(&self, line: &str) -> (r: Result<String>)
        ensures
            trimmed(line@).len() == 0 ==> (r matches Err(VideoToAudioError::InvalidInput(m)) && m@
                == empty_input_message()),
            trimmed(line@).len() > 0 ==> (r matches Ok(s) && s@ == trimmed(line@)),
    {
        let t = trim_text(line);
        if t.unicode_len() == 0 {
            Err(VideoToAudioError::InvalidInput(String::from_str("输入不能为空，请重新输入")))
        } else {
            Ok(String::from_str(t))
        }
    }
}

impl Default for UserInterface {
    fn default() -> (r: Self) {
        Self::new()
    }
}

} // verus!
