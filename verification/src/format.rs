//! Audio and cover formats, each with a fixed file extension and MIME type.
//!
//! The enum variant is the single source of truth: the extension and the
//! MIME string of a format are functions of the variant tag alone, so the
//! three representations can never diverge.

use vstd::prelude::*;

use crate::error::Error;
use crate::strutil::{spec_ends_with, str_ends_with, str_eq};

verus! {

/// A format with a fixed extension/MIME pairing.
pub trait Format {
    /// The file extension the format carries.
    spec fn spec_extension(&self) -> Seq<char>;

    /// The MIME type the format carries.
    spec fn spec_mime_type(&self) -> Seq<char>;

    /// The file extension of this format.
    fn extension(&self) -> (r: &'static str)
        ensures
            r@ == self.spec_extension(),
    ;

    /// The MIME type of this format.
    fn mime_type(&self) -> (r: &'static str)
        ensures
            r@ == self.spec_mime_type(),
    ;
}

/// An audio elementary stream format. The bitrate carried by the lossy
/// variants is informational only and is never renegotiated during remux.
#[derive(Debug, Clone, PartialEq, Eq)]
pub enum AudioFormat {
    Flac,
    Mp3(u16),
    Aac(u16),
}

/// A cover art image format.
#[derive(Debug, Clone, PartialEq, Eq)]
pub enum CoverFormat {
    Png,
    Jpeg,
}

/// The fixed extension of each audio format variant.
pub open spec fn spec_audio_extension(f: AudioFormat) -> Seq<char> {
    match f {
        AudioFormat::Flac => "flac"@,
        AudioFormat::Mp3(_) => "mp3"@,
        AudioFormat::Aac(_) => "m4a"@,
    }
}

/// The fixed MIME type of each audio format variant.
pub open spec fn spec_audio_mime_type(f: AudioFormat) -> Seq<char> {
    match f {
        AudioFormat::Flac => "audio/flac"@,
        AudioFormat::Mp3(_) => "audio/mpeg"@,
        AudioFormat::Aac(_) => "audio/mp4"@,
    }
}

/// The fixed extension of each cover format variant.
pub open spec fn spec_cover_extension(f: CoverFormat) -> Seq<char> {
    match f {
        CoverFormat::Png => "png"@,
        CoverFormat::Jpeg => "jpg"@,
    }
}

/// The fixed MIME type of each cover format variant.
pub open spec fn spec_cover_mime_type(f: CoverFormat) -> Seq<char> {
    match f {
        CoverFormat::Png => "image/png"@,
        CoverFormat::Jpeg => "image/jpeg"@,
    }
}

impl Format for AudioFormat {
    open spec fn spec_extension(&self) -> Seq<char> {
        spec_audio_extension(*self)
    }

    open spec fn spec_mime_type(&self) -> Seq<char> {
        spec_audio_mime_type(*self)
    }

    fn extension(&self) -> (r: &'static str)
        ensures
            r@ == self.spec_extension(),
    {
        match self {
            AudioFormat::Flac => "flac",
            AudioFormat::Mp3(_) => "mp3",
            AudioFormat::Aac(_) => "m4a",
        }
    }

    fn mime_type(&self) -> (r: &'static str)
        ensures
            r@ == self.spec_mime_type(),
    {
        match self {
            AudioFormat::Flac => "audio/flac",
            AudioFormat::Mp3(_) => "audio/mpeg",
            AudioFormat::Aac(_) => "audio/mp4",
        }
    }
}

impl Format for CoverFormat {
    open spec fn spec_extension(&self) -> Seq<char> {
        spec_cover_extension(*self)
    }

    open spec fn spec_mime_type(&self) -> Seq<char> {
        spec_cover_mime_type(*self)
    }

    fn extension(&self) -> (r: &'static str)
        ensures
            r@ == self.spec_extension(),
    {
        match self {
            CoverFormat::Png => "png",
            CoverFormat::Jpeg => "jpg",
        }
    }

    fn mime_type(&self) -> (r: &'static str)
        ensures
            r@ == self.spec_mime_type(),
    {
        match self {
            CoverFormat::Png => "image/png",
            CoverFormat::Jpeg => "image/jpeg",
        }
    }
}

/// The audio format recognised from a MIME type or a file name, if any.
pub open spec fn spec_audio_format_from(s: Seq<char>) -> Result<AudioFormat, Error> {
    if s == "audio/flac"@ || s == "audio/x-flac"@ {
        Ok(AudioFormat::Flac)
    } else if s == "audio/mpeg"@ || s == "audio/mpg"@ {
        Ok(AudioFormat::Mp3(0))
    } else if s == "audio/mp4"@ || s == "video/mp4"@ || s == "audio/aac"@ {
        Ok(AudioFormat::Aac(0))
    } else if spec_ends_with(s, ".flac"@) {
        Ok(AudioFormat::Flac)
    } else if spec_ends_with(s, ".mp3"@) {
        Ok(AudioFormat::Mp3(0))
    } else if spec_ends_with(s, ".m4a"@) || spec_ends_with(s, ".mp4"@) {
        Ok(AudioFormat::Aac(0))
    } else {
        Err(Error::UnsupportedFormatError)
    }
}

/// The cover format recognised from a MIME type or a file name, if any.
pub open spec fn spec_cover_format_from(s: Seq<char>) -> Result<CoverFormat, Error> {
    if s == "image/jpeg"@ {
        Ok(CoverFormat::Jpeg)
    } else if s == "image/png"@ {
        Ok(CoverFormat::Png)
    } else if spec_ends_with(s, ".jpg"@) {
        Ok(CoverFormat::Jpeg)
    } else if spec_ends_with(s, ".png"@) {
        Ok(CoverFormat::Png)
    } else {
        Err(Error::UnsupportedFormatError)
    }
}

impl AudioFormat {
    /// Recognises an audio format from a MIME type, or, failing that,
    /// from the extension at the end of a file name or URL. Every other
    /// input is rejected as unsupported.
    pub fn try_from(value: &str) -> (r: Result<AudioFormat, Error>)
        ensures
            r == spec_audio_format_from(value@),
    {
        if str_eq(value, "audio/flac") || str_eq(value, "audio/x-flac") {
            Ok(AudioFormat::Flac)
        } else if str_eq(value, "audio/mpeg") || str_eq(value, "audio/mpg") {
            Ok(AudioFormat::Mp3(0))
        } else if str_eq(value, "audio/mp4") || str_eq(value, "video/mp4")
            || str_eq(value, "audio/aac") {
            Ok(AudioFormat::Aac(0))
        } else if str_ends_with(value, ".flac") {
            Ok(AudioFormat::Flac)
        } else if str_ends_with(value, ".mp3") {
            Ok(AudioFormat::Mp3(0))
        } else if str_ends_with(value, ".m4a") || str_ends_with(value, ".mp4") {
            Ok(AudioFormat::Aac(0))
        } else {
            Err(Error::UnsupportedFormatError)
        }
    }
}

impl CoverFormat {
    /// Recognises a cover format from a MIME type, or, failing that, from
    /// the extension at the end of a file name or URL. Every other input
    /// is rejected as unsupported.
    pub fn try_from(value: &str) -> (r: Result<CoverFormat, Error>)
        ensures
            r == spec_cover_format_from(value@),
    {
        if str_eq(value, "image/jpeg") {
            Ok(CoverFormat::Jpeg)
        } else if str_eq(value, "image/png") {
            Ok(CoverFormat::Png)
        } else if str_ends_with(value, ".jpg") {
            Ok(CoverFormat::Jpeg)
        } else if str_ends_with(value, ".png") {
            Ok(CoverFormat::Png)
        } else {
            Err(Error::UnsupportedFormatError)
        }
    }
}

/// The extension and MIME type of an audio format are a fixed pair: both
/// are functions of the variant tag alone, never of the carried bitrate,
/// and each extension is paired with exactly one MIME type.
pub proof fn lemma_audio_format_pairing(a: AudioFormat, b: AudioFormat)
    ensures
        spec_audio_extension(a) == spec_audio_extension(b)
            <==> spec_audio_mime_type(a) == spec_audio_mime_type(b),
{
    reveal_strlit("flac");
    reveal_strlit("mp3");
    reveal_strlit("m4a");
    reveal_strlit("audio/flac");
    reveal_strlit("audio/mpeg");
    reveal_strlit("audio/mp4");
    assert("flac"@.len() == 4 && "mp3"@.len() == 3 && "m4a"@.len() == 3);
    assert("m4a"@[0] == 'm' && "mp3"@[0] == 'm' && "m4a"@[1] == '4' && "mp3"@[1] == 'p');
    assert("audio/flac"@.len() == 10 && "audio/mpeg"@.len() == 10 && "audio/mp4"@.len() == 9);
    assert("audio/flac"@[6] == 'f' && "audio/mpeg"@[6] == 'm');
}

/// The extension and MIME type of a cover format are a fixed pair, as for
/// audio formats.
pub proof fn lemma_cover_format_pairing(a: CoverFormat, b: CoverFormat)
    ensures
        spec_cover_extension(a) == spec_cover_extension(b)
            <==> spec_cover_mime_type(a) == spec_cover_mime_type(b),
{
    reveal_strlit("png");
    reveal_strlit("jpg");
    reveal_strlit("image/png");
    reveal_strlit("image/jpeg");
    assert("png"@.len() == 3 && "jpg"@.len() == 3);
    assert("png"@[0] == 'p' && "jpg"@[0] == 'j');
    assert("image/png"@.len() == 9 && "image/jpeg"@.len() == 10);
}

} // verus!
