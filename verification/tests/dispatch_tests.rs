use fruityger::dispatch::{Client, ModuleInfo};
use fruityger::error::Error;
use fruityger::ffi::{add_module, cover_format_from_content_type, get_param, FfiResponse,
    ModuleParams};
use fruityger::format::CoverFormat;

fn client_with(names: &[&str]) -> Client {
    let mut c = Client::new();
    for n in names {
        c.add_module(ModuleInfo { name: n.to_string() });
    }
    c
}

#[test]
fn download_with_no_matching_module_fails() {
    let c = client_with(&["yandex", "qobuz"]);
    let r = c.select_download(&vec![false, false]);
    assert_eq!(r.unwrap_err(), Error::NoAvailableModules);
}

#[test]
fn download_picks_the_first_matching_module() {
    let c = client_with(&["yandex", "qobuz", "hifi"]);
    assert_eq!(c.select_download(&vec![false, true, true]).unwrap(), 1);
    assert_eq!(c.select_download(&vec![true, true, true]).unwrap(), 0);
    assert_eq!(c.select_download(&vec![false, false, true]).unwrap(), 2);
}

#[test]
fn search_with_unregistered_service_fails() {
    let c = client_with(&["yandex", "qobuz"]);
    assert_eq!(c.select_search("hifi").unwrap_err(), Error::NoAvailableModules);
    let empty = Client::new();
    assert_eq!(empty.select_search("yandex").unwrap_err(), Error::NoAvailableModules);
}

#[test]
fn search_matches_the_name_exactly_and_earliest_first() {
    let c = client_with(&["yandex", "qobuz", "yandex"]);
    assert_eq!(c.select_search("qobuz").unwrap(), 1);
    assert_eq!(c.select_search("yandex").unwrap(), 0);
    assert_eq!(c.select_search("Yandex").unwrap_err(), Error::NoAvailableModules);
}

#[test]
fn get_param_returns_the_first_match() {
    let params = vec![
        ("token".to_string(), "t1".to_string()),
        ("token".to_string(), "t2".to_string()),
    ];
    assert_eq!(get_param(&params, "token").unwrap(), "t1");
    assert!(get_param(&params, "app_id").is_none());
}

#[test]
fn add_module_registers_yandex_with_token() {
    let mut c = Client::new();
    let params = vec![("token".to_string(), "secret-token".to_string())];
    match add_module(&mut c, "yandex", &params) {
        FfiResponse::Success(ModuleParams::Yandex(cfg)) => assert_eq!(cfg.token, "secret-token"),
        _ => panic!("yandex with a token must register"),
    }
    assert_eq!(c.module_count(), 1);
    assert_eq!(c.module_name(0), "yandex");
}

#[test]
fn add_module_refuses_yandex_without_token() {
    let mut c = Client::new();
    match add_module(&mut c, "yandex", &vec![]) {
        FfiResponse::Failure(m) => assert_eq!(m, "token not provided"),
        _ => panic!("a missing token must be refused"),
    }
    assert_eq!(c.module_count(), 0);
}

#[test]
fn add_module_requires_all_qobuz_credentials() {
    let mut c = Client::new();
    let partial = vec![("token".to_string(), "t".to_string())];
    match add_module(&mut c, "qobuz", &partial) {
        FfiResponse::Failure(m) => assert_eq!(m, "app_id not provided"),
        _ => panic!("a missing app_id must be refused"),
    }
    let full = vec![
        ("token".to_string(), "t".to_string()),
        ("app_id".to_string(), "i".to_string()),
        ("app_secret".to_string(), "s".to_string()),
    ];
    match add_module(&mut c, "qobuz", &full) {
        FfiResponse::Success(ModuleParams::Qobuz(cfg)) => {
            assert_eq!(cfg.token, "t");
            assert_eq!(cfg.app_id, "i");
            assert_eq!(cfg.app_secret, "s");
        },
        _ => panic!("qobuz with all credentials must register"),
    }
    assert_eq!(c.module_count(), 1);
}

#[test]
fn cover_download_accepts_exactly_the_two_mime_types() {
    assert_eq!(cover_format_from_content_type(Some("image/jpeg")).unwrap(), CoverFormat::Jpeg);
    assert_eq!(cover_format_from_content_type(Some("image/png")).unwrap(), CoverFormat::Png);
    // A missing or unreadable header means JPEG.
    assert_eq!(cover_format_from_content_type(None).unwrap(), CoverFormat::Jpeg);
    // No recognition by file-name suffix at the boundary.
    assert_eq!(
        cover_format_from_content_type(Some("x.png")).unwrap_err(),
        Error::UnsupportedFormatError
    );
    assert_eq!(
        cover_format_from_content_type(Some("image/webp")).unwrap_err(),
        Error::UnsupportedFormatError
    );
    assert_eq!(
        cover_format_from_content_type(Some("")).unwrap_err(),
        Error::UnsupportedFormatError
    );
}

#[test]
fn add_module_refuses_unknown_modules() {
    let mut c = Client::new();
    match add_module(&mut c, "spotify", &vec![]) {
        FfiResponse::Failure(m) => assert_eq!(m, "module not available"),
        _ => panic!("an unknown module must be refused"),
    }
    assert_eq!(c.module_count(), 0);
}
