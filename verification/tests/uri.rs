use diagnostic_report::error::Failure;
use diagnostic_report::uri::Uri;

fn file_uri(text: &str, path: &str) -> Uri {
    Uri { text: text.to_string(), scheme: "file".to_string(), file_path: Some(path.to_string()) }
}

#[test]
fn parse_reads_scheme_and_path_of_a_file_uri() {
    assert_eq!(Uri::parse("file:///proj/a.lua"), Ok(file_uri("file:///proj/a.lua", "/proj/a.lua")));
}

#[test]
fn parse_brings_a_uri_into_normal_form() {
    assert_eq!(
        Uri::parse("FILE:///proj/a%20b.lua"),
        Ok(file_uri("file:///proj/a%20b.lua", "/proj/a b.lua"))
    );
}

#[test]
fn parse_rejects_what_is_no_uri() {
    assert_eq!(
        Uri::parse("not a uri"),
        Err(Failure::InvalidUri { uri: "not a uri".to_string() })
    );
    assert_eq!(Uri::parse(""), Err(Failure::InvalidUri { uri: String::new() }));
}

#[test]
fn parse_keeps_other_schemes_without_a_file_path() {
    assert_eq!(
        Uri::parse("https://example.com/a.lua"),
        Ok(Uri {
            text: "https://example.com/a.lua".to_string(),
            scheme: "https".to_string(),
            file_path: None,
        })
    );
}

#[test]
fn a_file_uri_on_another_host_names_no_path() {
    let uri = Uri::parse("file://elsewhere/proj/a.lua").unwrap();
    assert_eq!(uri.scheme, "file");
    assert_eq!(uri.file_path, None);
    assert_eq!(
        uri.to_relative_path("/proj"),
        Err(Failure::NoFilePath { uri: "file://elsewhere/proj/a.lua".to_string() })
    );
}

#[test]
fn a_file_uri_without_a_path_is_shown_as_it_is() {
    let uri = Uri::parse("file://elsewhere/proj/a.lua").unwrap();
    assert_eq!(uri.to_shown_path("/proj"), Ok("file://elsewhere/proj/a.lua".to_string()));
    let local = Uri::parse("file:///proj/src/a.lua").unwrap();
    assert_eq!(local.to_shown_path("/proj"), Ok("src/a.lua".to_string()));
    let other = Uri::parse("https://example.com/a.lua").unwrap();
    assert_eq!(
        other.to_shown_path("/proj"),
        Err(Failure::UnsupportedUriScheme {
            uri: "https://example.com/a.lua".to_string(),
            scheme: "https".to_string(),
        })
    );
}

#[test]
fn relative_path_is_taken_from_the_root() {
    let uri = Uri::parse("file:///proj/src/a.lua").unwrap();
    assert_eq!(uri.to_relative_path("/proj"), Ok("src/a.lua".to_string()));
    assert_eq!(uri.to_relative_path("/proj/src"), Ok("a.lua".to_string()));
    assert_eq!(uri.to_relative_path("/proj/lib"), Ok("../src/a.lua".to_string()));
    assert_eq!(uri.to_relative_path("/"), Ok("proj/src/a.lua".to_string()));
}

#[test]
fn relative_path_falls_back_to_the_absolute_path() {
    let uri = file_uri("file:///proj/a.lua", "/proj/a.lua");
    assert_eq!(uri.to_relative_path("relative/root"), Ok("/proj/a.lua".to_string()));
    assert_eq!(uri.to_relative_path("/proj/../x"), Ok("/proj/a.lua".to_string()));
}

#[test]
fn another_scheme_than_file_is_not_supported() {
    let uri = Uri::parse("https://example.com/a.lua").unwrap();
    assert_eq!(
        uri.to_relative_path("/proj"),
        Err(Failure::UnsupportedUriScheme {
            uri: "https://example.com/a.lua".to_string(),
            scheme: "https".to_string(),
        })
    );
    let odd = Uri {
        text: "untitled:Untitled-1".to_string(),
        scheme: "untitled".to_string(),
        file_path: Some("/proj/a.lua".to_string()),
    };
    assert_eq!(
        odd.to_relative_path("/proj"),
        Err(Failure::UnsupportedUriScheme {
            uri: "untitled:Untitled-1".to_string(),
            scheme: "untitled".to_string(),
        })
    );
}

#[test]
fn in_project_takes_whole_components() {
    let uri = Uri::parse("file:///proj/src/a.lua").unwrap();
    assert!(uri.in_project("/proj"));
    assert!(uri.in_project("/proj/"));
    assert!(uri.in_project("/proj/src"));
    assert!(uri.in_project("/proj/src/a.lua"));
    assert!(uri.in_project("/"));
    assert!(!uri.in_project("/pro"));
    assert!(!uri.in_project("/proj/sr"));
    assert!(!uri.in_project("/other"));
    assert!(!uri.in_project("proj"));
}

#[test]
fn a_uri_without_a_file_path_counts_as_inside_the_project() {
    let uri = Uri {
        text: "file://elsewhere/a.lua".to_string(),
        scheme: "file".to_string(),
        file_path: None,
    };
    assert!(uri.in_project("/proj"));
}
