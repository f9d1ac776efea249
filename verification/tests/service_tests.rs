use fruityger::error::Error;
use fruityger::format::AudioFormat;
use fruityger::{hifi, qobuz, yandex};

#[test]
fn qobuz_sign_payload_is_exact() {
    assert_eq!(
        qobuz::sign_payload("12345", 1700000000, "secret"),
        "trackgetFileUrlformat_id6intentstreamsamplefalsetrack_id123451700000000secret"
    );
}

#[test]
fn qobuz_request_sig_matches_known_digest() {
    // MD5 of the payload above, in lower-case hex; this fails if the
    // digest wrapper handed its input back unchanged.
    assert_eq!(
        qobuz::request_sig("12345", 1700000000, "secret"),
        "3052fcda1f6e0d4976fadf8560c4dbf9"
    );
}

#[test]
fn qobuz_stream_query_carries_the_signature() {
    let q = qobuz::stream_query_at("12345", "secret", 1700000000);
    assert_eq!(q.len(), 6);
    assert_eq!(q[0], ("format_id".to_string(), "6".to_string()));
    assert_eq!(q[1], ("intent".to_string(), "stream".to_string()));
    assert_eq!(q[2], ("sample".to_string(), "false".to_string()));
    assert_eq!(q[3], ("track_id".to_string(), "12345".to_string()));
    assert_eq!(q[4], ("request_ts".to_string(), "1700000000".to_string()));
    assert_eq!(q[5], ("request_sig".to_string(), "3052fcda1f6e0d4976fadf8560c4dbf9".to_string()));
}

#[test]
fn qobuz_api_path_prefixes_the_endpoint() {
    assert_eq!(qobuz::api_path("/catalog/search"), "/api.json/0.2//catalog/search");
}

#[test]
fn qobuz_track_id_comes_from_the_second_path_segment() {
    assert_eq!(qobuz::track_id_from_url("https://open.qobuz.com/track/12345").unwrap(), "12345");
    match qobuz::track_id_from_url("not a url") {
        Err(Error::ServiceError(m)) => assert_eq!(m, "invalid url"),
        _ => panic!("a non-URL must be rejected"),
    }
    match qobuz::track_id_from_url("mailto:someone@example.com") {
        Err(Error::ServiceError(m)) => assert_eq!(m, "invalid url"),
        _ => panic!("a URL without path segments must be rejected"),
    }
    assert!(qobuz::track_id_from_url("https://open.qobuz.com/track").is_err());
}

#[test]
fn qobuz_stream_decision() {
    let ok = qobuz::ApiResponse::Payload(qobuz::GetFileUrlResponse {
        url: "https://cdn.example/file.flac".to_string(),
        mime_type: "audio/flac".to_string(),
        sample: false,
    });
    let (url, format) = qobuz::stream_decision(&ok).unwrap();
    assert_eq!(url, "https://cdn.example/file.flac");
    assert_eq!(format, AudioFormat::Flac);

    let sample = qobuz::ApiResponse::Payload(qobuz::GetFileUrlResponse {
        url: String::new(),
        mime_type: "audio/flac".to_string(),
        sample: true,
    });
    match qobuz::stream_decision(&sample) {
        Err(Error::ServiceError(m)) => assert_eq!(m, "cannot get full song"),
        _ => panic!("a sample must be refused"),
    }

    let other = qobuz::ApiResponse::Payload(qobuz::GetFileUrlResponse {
        url: String::new(),
        mime_type: "audio/ogg".to_string(),
        sample: false,
    });
    assert_eq!(qobuz::stream_decision(&other).unwrap_err(), Error::UnsupportedFormatError);

    let failure: qobuz::ApiResponse<qobuz::GetFileUrlResponse> =
        qobuz::ApiResponse::Failure { message: "quota".to_string() };
    match qobuz::stream_decision(&failure) {
        Err(Error::ServiceError(m)) => assert_eq!(m, "quota"),
        _ => panic!("a service failure must surface"),
    }
}

#[test]
fn qobuz_tracks_convert() {
    let track = qobuz::Track {
        id: 9,
        title: "Song".to_string(),
        duration: 100,
        performer: qobuz::Performer { id: 4, name: "Band".to_string() },
        album: qobuz::Album {
            image: qobuz::Image { large: "https://img.example/c.jpg".to_string() },
        },
    };
    let t = track.to_track();
    assert_eq!(t.id, "9");
    assert_eq!(t.url, "https://open.qobuz.com/track/9");
    assert_eq!(t.duration_ms, 100000);
    assert_eq!(t.artists.len(), 1);
    assert_eq!(t.artists[0].id, "4");
    assert_eq!(t.artists[0].name, "Band");
    assert_eq!(t.cover_url, "https://img.example/c.jpg");
}

#[test]
fn qobuz_search_failure_becomes_service_error() {
    let failure: qobuz::ApiResponse<qobuz::SearchResponse> =
        qobuz::ApiResponse::Failure { message: "bad token".to_string() };
    match qobuz::search_results_from(&failure) {
        Err(Error::ServiceError(m)) => assert_eq!(m, "bad token"),
        _ => panic!("a service failure must surface"),
    }
}

#[test]
fn yandex_sign_payload_is_exact() {
    assert_eq!(
        yandex::sign_payload(1700000000, "123"),
        "1700000000123losslessflacflac-mp4aacaac-mp4mp3raw"
    );
}

#[test]
fn yandex_sign_matches_known_code() {
    // HMAC-SHA256 of the payload above under the fixed key, base64 without
    // padding; this fails if either wrapper handed its input back.
    assert_eq!(
        yandex::sign(1700000000, "123"),
        "kRXyxjGp+QsrsLCe+kYxqpjSXokedfBF+PRanIuBFcA"
    );
}

#[test]
fn yandex_stream_query_carries_the_signature() {
    let q = yandex::stream_query_at("123", 1700000000);
    assert_eq!(q.len(), 6);
    assert_eq!(q[0], ("ts".to_string(), "1700000000".to_string()));
    assert_eq!(q[1], ("trackId".to_string(), "123".to_string()));
    assert_eq!(q[2], ("quality".to_string(), "lossless".to_string()));
    assert_eq!(q[3], ("codecs".to_string(), "flac,flac-mp4,aac,aac-mp4,mp3".to_string()));
    assert_eq!(q[4], ("transports".to_string(), "raw".to_string()));
    assert_eq!(q[5].0, "sign");
    assert_eq!(q[5].1, "kRXyxjGp+QsrsLCe+kYxqpjSXokedfBF+PRanIuBFcA");
}

#[test]
fn yandex_auth_header() {
    assert_eq!(yandex::auth_header("tok"), "OAuth tok");
}

#[test]
fn yandex_codec_decision() {
    let reply = |codec: &str, bitrate: u16| yandex::ApiResponse {
        result: yandex::GetFileInfoResponse {
            download_info: yandex::DownloadInfo {
                codec: codec.to_string(),
                bitrate,
                url: "https://cdn.example/y".to_string(),
            },
        },
    };
    let (url, f) = yandex::stream_decision(&reply("mp3", 320)).unwrap();
    assert_eq!(url, "https://cdn.example/y");
    assert_eq!(f, AudioFormat::Mp3(320));
    assert_eq!(yandex::stream_decision(&reply("aac-mp4", 256)).unwrap().1, AudioFormat::Aac(256));
    assert_eq!(yandex::stream_decision(&reply("flac-mp4", 0)).unwrap().1, AudioFormat::Flac);
    assert_eq!(
        yandex::stream_decision(&reply("ogg", 0)).unwrap_err(),
        Error::UnsupportedFormatError
    );
}

#[test]
fn yandex_tracks_convert() {
    let track = yandex::Track {
        id: 55,
        title: "Song".to_string(),
        duration_ms: 123456,
        artists: vec![
            yandex::Artist { id: 1, name: "A".to_string() },
            yandex::Artist { id: 2, name: "B".to_string() },
        ],
        albums: vec![yandex::Album { id: 77 }],
        cover_uri: "avatars.example.net/get-music/55/%%".to_string(),
    };
    let t = track.to_track();
    assert_eq!(t.id, "55");
    assert_eq!(t.url, "https://music.yandex.ru/album/77/track/55");
    assert_eq!(t.duration_ms, 123456);
    assert_eq!(t.artists.len(), 2);
    assert_eq!(t.artists[1].id, "2");
    assert_eq!(t.cover_url, "https://avatars.example.net/get-music/55/orig");
}

#[test]
fn yandex_search_results_convert_in_order() {
    let resp = yandex::ApiResponse {
        result: yandex::SearchResponse {
            tracks: yandex::TracksData {
                results: vec![
                    yandex::Track {
                        id: 1,
                        title: "One".to_string(),
                        duration_ms: 1000,
                        artists: vec![],
                        albums: vec![yandex::Album { id: 5 }],
                        cover_uri: "c/%%".to_string(),
                    },
                    yandex::Track {
                        id: 2,
                        title: "Two".to_string(),
                        duration_ms: 2000,
                        artists: vec![],
                        albums: vec![yandex::Album { id: 6 }],
                        cover_uri: "d/%%".to_string(),
                    },
                ],
            },
        },
    };
    let results = yandex::search_results_from(&resp);
    assert_eq!(results.tracks.len(), 2);
    assert_eq!(results.tracks[0].title, "One");
    assert_eq!(results.tracks[1].url, "https://music.yandex.ru/album/6/track/2");
}

#[test]
fn hifi_tracks_convert() {
    let track = hifi::Track {
        id: 7,
        title: "Song".to_string(),
        url: "https://listen.example/track/7".to_string(),
        duration: 100,
        artist: hifi::Artist { id: 3, name: "Band".to_string() },
        album: hifi::Album { id: 1, title: "L".to_string(), cover: "ab-cd-ef".to_string() },
    };
    let t = track.to_track();
    assert_eq!(t.id, "7");
    assert_eq!(t.url, "https://listen.example/track/7");
    assert_eq!(t.duration_ms, 100000);
    assert_eq!(t.artists.len(), 1);
    assert_eq!(t.artists[0].id, "3");
    assert_eq!(t.cover_url, "https://resources.tidal.com/images/ab/cd/ef/750x750.jpg");
}

#[test]
fn hifi_search_results_convert_in_order() {
    let resp = hifi::SearchResponse {
        items: vec![
            hifi::Track {
                id: 1,
                title: "One".to_string(),
                url: "u1".to_string(),
                duration: 1,
                artist: hifi::Artist { id: 1, name: "A".to_string() },
                album: hifi::Album { id: 1, title: "T".to_string(), cover: "x".to_string() },
            },
        ],
    };
    let results = resp.to_search_results();
    assert_eq!(results.tracks.len(), 1);
    assert_eq!(results.tracks[0].duration_ms, 1000);
}

#[test]
fn hifi_selects_the_first_working_host() {
    assert_eq!(hifi::select_host(&vec![false, true, true]).unwrap(), 1);
    match hifi::select_host(&Vec::new()) {
        Err(Error::ServiceError(m)) => assert_eq!(m, "cannot find usable server"),
        _ => panic!("no host must be a service error"),
    }
}

#[test]
fn hifi_host_scan_selects_the_first_ok_host_incrementally() {
    let mut scan = hifi::HostScan::new(3);
    assert_eq!(scan.current(), Some(0));
    assert!(scan.record(false).is_none());
    assert_eq!(scan.current(), Some(1));
    assert_eq!(scan.record(true).unwrap().unwrap(), 1);
}

#[test]
fn hifi_host_scan_fails_after_the_last_host() {
    let mut scan = hifi::HostScan::new(2);
    assert!(scan.record(false).is_none());
    match scan.record(false) {
        Some(Err(Error::ServiceError(m))) => assert_eq!(m, "cannot find usable server"),
        _ => panic!("an exhausted scan must end with the service error"),
    }
    assert_eq!(scan.current(), None);
}

#[test]
fn hifi_host_scan_with_no_hosts_is_exhausted_at_once() {
    let scan = hifi::HostScan::new(0);
    assert_eq!(scan.current(), None);
    match scan.exhausted() {
        Error::ServiceError(m) => assert_eq!(m, "cannot find usable server"),
        _ => panic!("an empty host list must be a service error"),
    }
}

#[test]
fn search_queries_are_exact() {
    assert_eq!(hifi::search_query("periphery"), vec![
        ("s".to_string(), "periphery".to_string()),
    ]);
    assert_eq!(qobuz::search_query("periphery", 3), vec![
        ("query".to_string(), "periphery".to_string()),
        ("limit".to_string(), "20".to_string()),
        ("offset".to_string(), "60".to_string()),
    ]);
    assert_eq!(yandex::search_query("periphery", 2), vec![
        ("text".to_string(), "periphery".to_string()),
        ("type".to_string(), "track".to_string()),
        ("page".to_string(), "2".to_string()),
    ]);
}

#[test]
fn hifi_stream_request_decision() {
    let some = Some(hifi::TrackResponse {
        original_track_url: "https://cdn.example/t.flac".to_string(),
    });
    let (url, f) = hifi::stream_request(some).unwrap();
    assert_eq!(url, "https://cdn.example/t.flac");
    assert_eq!(f, AudioFormat::Flac);
    match hifi::stream_request(None) {
        Err(Error::ServiceError(m)) => assert_eq!(m, "service did not return valid json"),
        _ => panic!("a missing track response must be a service error"),
    }
}
