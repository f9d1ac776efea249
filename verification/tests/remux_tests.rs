use fruityger::dispatch::Client;
use fruityger::error::Error;
use fruityger::format::AudioFormat;
use fruityger::remux::{remux, InputContainer, MediaType, Metadata, Packet, StreamInfo};
use fruityger::session::{RemuxPhase, RemuxSession};

fn audio_stream() -> StreamInfo {
    StreamInfo {
        media_type: MediaType::Audio,
        codec_parameters: vec![1, 2, 3],
        codec_tag: 0x464c4143,
        time_base_num: 1,
        time_base_den: 44100,
        attached_picture: false,
    }
}

fn video_stream() -> StreamInfo {
    StreamInfo {
        media_type: MediaType::Video,
        codec_parameters: vec![9, 9],
        codec_tag: 7,
        time_base_num: 1,
        time_base_den: 25,
        attached_picture: false,
    }
}

fn tags(title: &str, artist: &str) -> Metadata {
    Metadata {
        title: title.to_string(),
        artist: artist.to_string(),
        ..Default::default()
    }
}

#[test]
fn remux_audio_only_has_one_stream_and_two_tags() {
    let audio = InputContainer { streams: vec![audio_stream()], packets: vec![] };
    let out = remux(&audio, None, &tags("T", "A")).unwrap();
    assert_eq!(out.streams.len(), 1);
    assert_eq!(out.streams[0].codec_tag, 0);
    assert!(!out.streams[0].attached_picture);
    assert_eq!(out.streams[0].codec_parameters, vec![1, 2, 3]);
    let dict: Vec<(String, String)> = out.metadata;
    assert_eq!(dict, vec![
        ("title".to_string(), "T".to_string()),
        ("artist".to_string(), "A".to_string()),
    ]);
}

#[test]
fn remux_with_cover_marks_attached_picture() {
    let audio = InputContainer { streams: vec![audio_stream()], packets: vec![] };
    let cover = InputContainer { streams: vec![video_stream()], packets: vec![] };
    let out = remux(&audio, Some(&cover), &tags("T", "A")).unwrap();
    assert_eq!(out.streams.len(), 2);
    assert!(!out.streams[0].attached_picture);
    assert!(out.streams[1].attached_picture);
    assert_eq!(out.streams[1].codec_tag, 0);
    assert_eq!(out.streams[1].media_type, MediaType::Video);
}

#[test]
fn remux_without_audio_stream_fails() {
    let audio = InputContainer { streams: vec![video_stream()], packets: vec![] };
    let r = remux(&audio, None, &tags("T", "A"));
    match r {
        Err(Error::RemuxError(msg)) => assert_eq!(msg, "cannot find stream"),
        _ => panic!("expected a remux error"),
    }
}

#[test]
fn remux_skips_cover_without_image_stream() {
    let audio = InputContainer { streams: vec![audio_stream()], packets: vec![] };
    let no_image = InputContainer {
        streams: vec![StreamInfo { media_type: MediaType::Data, ..audio_stream() }],
        packets: vec![],
    };
    let out = remux(&audio, Some(&no_image), &tags("T", "A")).unwrap();
    assert_eq!(out.streams.len(), 1);
}

#[test]
fn remux_selects_first_audio_stream_and_remaps_packets() {
    // The audio stream is the second stream; only its packets are copied,
    // remapped to output stream zero with the position hint cleared.
    let streams = vec![video_stream(), audio_stream(), audio_stream()];
    let packets = vec![
        Packet { stream_index: 0, pts: 1, dts: 1, position: 10, data: vec![0xaa] },
        Packet { stream_index: 1, pts: 2, dts: 1, position: 20, data: vec![0xbb] },
        Packet { stream_index: 2, pts: 3, dts: 2, position: 30, data: vec![0xcc] },
        Packet { stream_index: 1, pts: 4, dts: 3, position: 40, data: vec![0xdd] },
    ];
    let audio = InputContainer { streams, packets };
    let out = remux(&audio, None, &tags("T", "A")).unwrap();
    assert_eq!(out.streams.len(), 1);
    assert_eq!(out.packets.len(), 2);
    assert_eq!(out.packets[0].data, vec![0xbb]);
    assert_eq!(out.packets[1].data, vec![0xdd]);
    assert_eq!(out.packets[0].stream_index, 0);
    assert_eq!(out.packets[1].stream_index, 0);
    assert_eq!(out.packets[0].position, -1);
    // The output stream copies the source time base, so timestamps are
    // unchanged by the rescale.
    assert_eq!(out.packets[0].pts, 2);
    assert_eq!(out.packets[1].pts, 4);
    assert_eq!(out.packets[1].dts, 3);
}

#[test]
fn remux_writes_set_tags_and_omits_unset_ones() {
    let audio = InputContainer { streams: vec![audio_stream()], packets: vec![] };
    let metadata = Metadata {
        album: Some("L".to_string()),
        track: Some("3".to_string()),
        ..tags("T", "A")
    };
    let out = remux(&audio, None, &metadata).unwrap();
    assert_eq!(out.metadata, vec![
        ("title".to_string(), "T".to_string()),
        ("artist".to_string(), "A".to_string()),
        ("album".to_string(), "L".to_string()),
        ("track".to_string(), "3".to_string()),
    ]);
    // No tag is ever written as an empty string for an unset field.
    assert!(out.metadata.iter().all(|(_, v)| !v.is_empty()));
}

#[test]
fn client_remux_tags_with_the_original_format() {
    let client = Client::new();
    let audio = InputContainer { streams: vec![audio_stream()], packets: vec![] };
    let (format, out) = client.remux(AudioFormat::Flac, &audio, None, &tags("T", "A")).unwrap();
    assert_eq!(format, AudioFormat::Flac);
    assert_eq!(out.streams.len(), 1);
    let empty = InputContainer { streams: vec![], packets: vec![] };
    assert!(client.remux(AudioFormat::Flac, &empty, None, &tags("T", "A")).is_err());
}

#[test]
fn session_releases_workspace_on_success() {
    let mut s = RemuxSession::start();
    assert!(s.workspace_active());
    assert_eq!(s.phase(), RemuxPhase::Staging);
    s.staged();
    let audio = InputContainer { streams: vec![audio_stream()], packets: vec![] };
    s.mux(&audio, None, &tags("T", "A")).unwrap();
    assert_eq!(s.phase(), RemuxPhase::Restreaming);
    assert!(!s.workspace_active());
    s.restreamed();
    assert_eq!(s.phase(), RemuxPhase::Done);
    assert!(s.into_output().is_some());
}

#[test]
fn session_releases_workspace_on_failure() {
    let mut s = RemuxSession::start();
    s.staged();
    let no_audio = InputContainer { streams: vec![], packets: vec![] };
    let r = s.mux(&no_audio, None, &tags("T", "A"));
    assert!(r.is_err());
    assert_eq!(s.phase(), RemuxPhase::Failed);
    assert!(!s.workspace_active());
    assert!(s.into_output().is_none());
}

#[test]
fn session_releases_workspace_on_cancel() {
    let mut s = RemuxSession::start();
    assert!(s.workspace_active());
    s.cancel();
    assert_eq!(s.phase(), RemuxPhase::Cancelled);
    assert!(!s.workspace_active());
    assert!(s.into_output().is_none());
}
