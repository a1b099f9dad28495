//! Classification of code points into the script classes the renderer knows.

use vstd::prelude::*;
use crate::FontError;

verus! {

/// The script class of a code point, derived purely from range membership.
/// `Other` absorbs every unsupported range and is never rendered.
#[derive(Clone, Copy, Debug, PartialEq, Eq, Hash, Structural)]
pub enum Languages {
    Ascii,
    Hangul,
    HangulJamo,
    Other,
}

/// The class of a UCS-2 code point: ASCII controls and printables, the
/// Hangul syllable block, the conjoining-jamo block, or anything else.
pub open spec fn spec_language(code: u32) -> Languages {
    if code < 0x80 {
        Languages::Ascii
    } else if 0xAC00 <= code && code <= 0xD7A3 {
        Languages::Hangul
    } else if 0x1100 <= code && code <= 0x11FF {
        Languages::HangulJamo
    } else {
        Languages::Other
    }
}

/// Classifies a code point; total, and pure range membership.
pub fn ucs2_language(code: u32) -> (lang: Languages)
    ensures
        lang == spec_language(code),
{
    if code < 0x80 {
        Languages::Ascii
    } else if 0xAC00 <= code && code <= 0xD7A3 {
        Languages::Hangul
    } else if 0x1100 <= code && code <= 0x11FF {
        Languages::HangulJamo
    } else {
        Languages::Other
    }
}

/// Narrows a character to a UCS-2 code point; characters above the basic
/// multilingual plane have no 16-bit code and are reported unsupported.
pub fn utf8_to_ucs2(c: &char) -> (r: Result<u32, FontError>)
    ensures
        *c as u32 <= 0xFFFF ==> r == Ok::<u32, FontError>(*c as u32),
        *c as u32 > 0xFFFF ==> r == Err::<u32, FontError>(FontError::UnsupportedCharacter),
{
    let code = *c as u32;
    if code <= 0xFFFF {
        Ok(code)
    } else {
        Err(FontError::UnsupportedCharacter)
    }
}

} // verus!
