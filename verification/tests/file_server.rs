use data_source::error::FetchError;
use data_source::file_server::{
    error_status, handle_file_request, status_line, trim_start, DataSourceService, Served,
};
use data_source::single::SingleFileSource;
use data_source::source::{DataSource, Lookup};

fn service() -> DataSourceService {
    DataSourceService::new(DataSource::FileMap(vec![
        ("index.html".to_string(), SingleFileSource::Inline(b"<html>".to_vec())),
        ("files/nested".to_string(), SingleFileSource::Inline(b"n".to_vec())),
    ]))
}

#[test]
fn other_methods_are_refused_with_405() {
    let service = service();
    for method in ["POST", "PUT", "DELETE", "get", ""] {
        match service.call(method, "/files/index.html") {
            Served::Refused(reply) => {
                assert_eq!(reply.status, 405);
                assert_eq!(reply.content_type, None);
                assert_eq!(reply.body, b"Method not allowed".to_vec());
            }
            Served::Resolve { .. } => panic!("{} must not be served", method),
        }
    }
}

#[test]
fn get_and_head_look_the_file_up() {
    let service = service();
    for method in ["GET", "HEAD"] {
        match service.call(method, "/files/index.html") {
            Served::Resolve { path, lookup } => {
                assert_eq!(path, "index.html");
                assert!(matches!(lookup, Lookup::Done(Ok((ref b, None))) if b == b"<html>"));
            }
            Served::Refused(_) => panic!("{} is served", method),
        }
    }
}

#[test]
fn route_handler_asks_with_get_behind_one_slash() {
    let service = service();
    match handle_file_request("files/index.html", &service) {
        Served::Resolve { path, lookup } => {
            assert_eq!(path, "index.html");
            assert!(matches!(lookup, Lookup::Done(Ok(_))));
        }
        Served::Refused(_) => panic!("a route request is served"),
    }
    match handle_file_request("index.html", &service) {
        Served::Resolve { path, lookup } => {
            assert_eq!(path, "/index.html");
            assert!(matches!(lookup, Lookup::Done(Err(FetchError::NF))));
        }
        Served::Refused(_) => panic!("a route request is served"),
    }
}

#[test]
fn prefix_is_stripped_as_often_as_it_leads() {
    assert_eq!(trim_start("/files/a.txt", "/files/"), "a.txt");
    assert_eq!(trim_start("/files//files/a.txt", "/files/"), "a.txt");
    assert_eq!(trim_start("/files/files/a.txt", "/files/"), "files/a.txt");
    assert_eq!(trim_start("/file/a.txt", "/files/"), "/file/a.txt");
    assert_eq!(trim_start("/files", "/files/"), "/files");
    assert_eq!(trim_start("/files/", "/files/"), "");
    assert_eq!(trim_start("", "/files/"), "");
    assert_eq!(trim_start("abc", ""), "abc");
    assert_eq!(trim_start("\u{e9}\u{e9}x", "\u{e9}"), "x");
    for s in ["/files/a", "/files//files/", "x/files/", "/files/files/"] {
        assert_eq!(trim_start(s, "/files/"), s.trim_start_matches("/files/"));
    }
}

#[test]
fn statuses_of_the_error_kinds() {
    assert_eq!(error_status(&FetchError::NF), 404);
    assert_eq!(error_status(&FetchError::NFD(vec![])), 404);
    assert_eq!(error_status(&FetchError::S), 413);
    assert_eq!(error_status(&FetchError::R("x".to_string())), 500);
    assert_eq!(error_status(&FetchError::I("x".to_string())), 500);
    assert_eq!(error_status(&FetchError::T), 500);
    assert_eq!(error_status(&FetchError::NC), 500);
}

#[test]
fn status_lines() {
    assert_eq!(status_line(404), "404 Not Found");
    assert_eq!(status_line(405), "405 Method Not Allowed");
    assert_eq!(status_line(413), "413 Payload Too Large");
    assert_eq!(status_line(500), "500 Internal Server Error");
    assert_eq!(status_line(200), "200 OK");
}

#[test]
fn content_is_sent_with_the_guessed_media_type() {
    let reply = DataSourceService::respond("site/index.html", Ok((b"<html>".to_vec(), None)));
    assert_eq!(reply.status, 200);
    assert_eq!(reply.content_type.as_deref(), Some("text/html"));
    assert_eq!(reply.body, b"<html>".to_vec());
    let json = DataSourceService::respond("a.JSON", Ok((vec![], Some("p".to_string()))));
    assert_eq!(json.content_type.as_deref(), Some("application/json"));
    let unknown = DataSourceService::respond("noextension", Ok((vec![1], None)));
    assert_eq!(unknown.content_type.as_deref(), Some("application/octet-stream"));
}

#[test]
fn failure_is_sent_with_its_status_and_a_text() {
    let missing = DataSourceService::respond("a/b.txt", Err(FetchError::NF));
    assert_eq!(missing.status, 404);
    assert_eq!(missing.content_type, None);
    assert_eq!(missing.body, b"404 Not Found\n\na/b.txt\n\nnot found".to_vec());

    let nowhere =
        DataSourceService::respond("f", Err(FetchError::NFD(vec!["/d".to_string()])));
    assert_eq!(nowhere.status, 404);
    assert_eq!(
        nowhere.body,
        b"404 Not Found\n\nf\n\nnot found in directories `[\"/d\"]`".to_vec()
    );

    let large = DataSourceService::respond("big", Err(FetchError::S));
    assert_eq!(large.status, 413);
    assert_eq!(large.body, b"413 Payload Too Large\n\nbig\n\nsize limit exceed".to_vec());

    let broken = DataSourceService::respond("x", Err(FetchError::I("disk".to_string())));
    assert_eq!(broken.status, 500);
    assert_eq!(broken.body, b"500 Internal Server Error\n\nx\n\nio err".to_vec());
}
