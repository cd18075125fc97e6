use sane_web_scanner::frontend_files::{FrontendFiles, FrontendFilesServiceError, Service};
use sane_web_scanner::log_str;

fn files() -> FrontendFiles {
    vec![
        (b"index.html".to_vec(), b"<html></html>".to_vec()),
        (b"_nuxt/app.js".to_vec(), b"js".to_vec()),
        (b"my file.txt".to_vec(), b"text".to_vec()),
    ]
}

#[test]
fn root_serves_index() {
    assert_eq!(Service::serve_static_file(&files(), "/"), Ok(0));
    assert_eq!(Service::serve_static_file(&files(), ""), Ok(0));
}

#[test]
fn path_names_file() {
    assert_eq!(Service::serve_static_file(&files(), "/_nuxt/app.js"), Ok(1));
    assert_eq!(Service::serve_static_file(&files(), "/index.html"), Ok(0));
}

#[test]
fn percent_encoded_path_is_decoded() {
    assert_eq!(Service::serve_static_file(&files(), "/my%20file.txt"), Ok(2));
}

#[test]
fn unknown_or_invalid_path_is_not_found() {
    assert_eq!(Service::serve_static_file(&files(), "/missing"), Err(FrontendFilesServiceError::NotFound));
    assert_eq!(Service::serve_static_file(&files(), "/%FF"), Err(FrontendFilesServiceError::NotFound));
    assert_eq!(FrontendFilesServiceError::NotFound.status_code(), 404);
}

#[test]
fn file_name_strips_one_slash() {
    assert_eq!(Service::file_name(&b"/a/b".to_vec()), b"a/b".to_vec());
    assert_eq!(Service::file_name(&b"//x".to_vec()), b"/x".to_vec());
    assert_eq!(Service::file_name(&b"/".to_vec()), b"index.html".to_vec());
    assert_eq!(Service::lookup(&files(), &b"my file.txt".to_vec()), Ok(2));
}

#[test]
fn log_level_follows_build() {
    assert_eq!(log_str(true), "debug");
    assert_eq!(log_str(false), "info");
}
