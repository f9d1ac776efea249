use fruityger::error::Error;
use fruityger::format::{AudioFormat, CoverFormat, Format};
use fruityger::{cover_format_for, output_filename};

#[test]
fn audio_format_pairs_are_fixed() {
    assert_eq!(AudioFormat::Flac.extension(), "flac");
    assert_eq!(AudioFormat::Flac.mime_type(), "audio/flac");
    assert_eq!(AudioFormat::Mp3(320).extension(), "mp3");
    assert_eq!(AudioFormat::Mp3(320).mime_type(), "audio/mpeg");
    assert_eq!(AudioFormat::Aac(256).extension(), "m4a");
    assert_eq!(AudioFormat::Aac(256).mime_type(), "audio/mp4");
}

#[test]
fn cover_format_pairs_are_fixed() {
    assert_eq!(CoverFormat::Png.extension(), "png");
    assert_eq!(CoverFormat::Png.mime_type(), "image/png");
    assert_eq!(CoverFormat::Jpeg.extension(), "jpg");
    assert_eq!(CoverFormat::Jpeg.mime_type(), "image/jpeg");
}

#[test]
fn bitrate_does_not_change_the_pair() {
    assert_eq!(AudioFormat::Mp3(0).extension(), AudioFormat::Mp3(9999).extension());
    assert_eq!(AudioFormat::Aac(0).mime_type(), AudioFormat::Aac(9999).mime_type());
}

#[test]
fn audio_format_from_mime() {
    assert_eq!(AudioFormat::try_from("audio/flac").unwrap(), AudioFormat::Flac);
    assert_eq!(AudioFormat::try_from("audio/x-flac").unwrap(), AudioFormat::Flac);
    assert_eq!(AudioFormat::try_from("audio/mpeg").unwrap(), AudioFormat::Mp3(0));
    assert_eq!(AudioFormat::try_from("audio/mpg").unwrap(), AudioFormat::Mp3(0));
    assert_eq!(AudioFormat::try_from("audio/mp4").unwrap(), AudioFormat::Aac(0));
    assert_eq!(AudioFormat::try_from("video/mp4").unwrap(), AudioFormat::Aac(0));
    assert_eq!(AudioFormat::try_from("audio/aac").unwrap(), AudioFormat::Aac(0));
}

#[test]
fn audio_format_from_file_name() {
    assert_eq!(AudioFormat::try_from("song.flac").unwrap(), AudioFormat::Flac);
    assert_eq!(AudioFormat::try_from("song.mp3").unwrap(), AudioFormat::Mp3(0));
    assert_eq!(AudioFormat::try_from("song.m4a").unwrap(), AudioFormat::Aac(0));
    assert_eq!(AudioFormat::try_from("song.mp4").unwrap(), AudioFormat::Aac(0));
}

#[test]
fn audio_format_rejects_unknown() {
    assert_eq!(AudioFormat::try_from("audio/ogg").unwrap_err(), Error::UnsupportedFormatError);
    assert_eq!(AudioFormat::try_from("").unwrap_err(), Error::UnsupportedFormatError);
}

#[test]
fn cover_format_from_mime_and_name() {
    assert_eq!(CoverFormat::try_from("image/jpeg").unwrap(), CoverFormat::Jpeg);
    assert_eq!(CoverFormat::try_from("image/png").unwrap(), CoverFormat::Png);
    assert_eq!(CoverFormat::try_from("cover.jpg").unwrap(), CoverFormat::Jpeg);
    assert_eq!(CoverFormat::try_from("cover.png").unwrap(), CoverFormat::Png);
    assert_eq!(CoverFormat::try_from("image/webp").unwrap_err(), Error::UnsupportedFormatError);
}

#[test]
fn cover_format_defaults_to_jpeg() {
    assert_eq!(cover_format_for(None).unwrap(), CoverFormat::Jpeg);
    assert_eq!(cover_format_for(Some("image/png")).unwrap(), CoverFormat::Png);
    assert_eq!(cover_format_for(Some("text/html")).unwrap_err(), Error::UnsupportedFormatError);
}

#[test]
fn output_filename_joins_extension() {
    assert_eq!(output_filename("track", &AudioFormat::Flac), "track.flac");
    assert_eq!(output_filename("cover", &CoverFormat::Jpeg), "cover.jpg");
}
