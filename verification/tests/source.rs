use data_source::cache::FileCache;
use data_source::error::FetchError;
use data_source::folders::SearchStep;
use data_source::http::HttpSource;
use data_source::single::{GetPath, SingleFileSource, SourceStep};
use data_source::source::{Content, DataSource, Lookup, SyncFolderSource};

/// Completes a lookup against files held in memory.
fn resolve(lookup: Lookup<'_>, files: &[(&str, &[u8])]) -> Content {
    let read = |path: &str| -> Result<Vec<u8>, FetchError> {
        files
            .iter()
            .find(|(p, _)| *p == path)
            .map(|(_, bytes)| bytes.to_vec())
            .ok_or_else(|| FetchError::I(format!("cannot read {}", path)))
    };
    match lookup {
        Lookup::Done(content) => content,
        Lookup::ReadFile { path, provenance } => read(&path).map(|bytes| (bytes, provenance)),
        Lookup::Search(mut search) => {
            let mut step = search.current();
            loop {
                match step {
                    SearchStep::Probe(path) => {
                        step = search.answer(files.iter().any(|(p, _)| *p == path))
                    }
                    SearchStep::Found { path, provenance } => {
                        return read(&path).map(|bytes| (bytes, Some(provenance)))
                    }
                    SearchStep::Failed(e) => return Err(e),
                }
            }
        }
        Lookup::Remote { .. } => panic!("no remote source in these tests"),
    }
}

fn remote() -> SingleFileSource {
    SingleFileSource::Http(
        HttpSource { url: "https://example.org/r".to_string(), ..HttpSource::default() },
        FileCache { update_interval_seconds: Some(5), cache_file_path: Some("/tmp/r".to_string()) },
    )
}

#[test]
fn test_data_source_read_from_folders() {
    let files: [(&str, &[u8]); 1] = [("/tmp/dir/test.txt", b"hello world")];

    let data_source = DataSource::Folders(vec!["/tmp/dir".to_string()]);

    let content =
        DataSource::read_to_string(resolve(data_source.get_file_content("test.txt"), &files))
            .unwrap();
    assert_eq!(content, "hello world");
}

#[test]
fn test_data_source_read_from_file_map() {
    let file_map = vec![(
        "config.json".to_string(),
        SingleFileSource::Inline(b"{\"key\": \"value\"}".to_vec()),
    )]
    .into_iter()
    .collect();

    let data_source = DataSource::FileMap(file_map);

    let content =
        DataSource::read_to_string(resolve(data_source.get_file_content("config.json"), &[]))
            .unwrap();
    assert_eq!(content, "{\"key\": \"value\"}");
}

#[test]
fn folders_report_the_directory_that_held_the_file() {
    let files: [(&str, &[u8]); 2] = [("/b/f", b"from b"), ("/c/f", b"from c")];
    let data_source = DataSource::Folders(vec!["/a".to_string(), "/b".to_string(), "/c".to_string()]);
    assert_eq!(
        resolve(data_source.get_file_content("f"), &files),
        Ok((b"from b".to_vec(), Some("/b".to_string())))
    );
    assert_eq!(
        resolve(data_source.get_file_content("g"), &files),
        Err(FetchError::NFD(vec!["/a".to_string(), "/b".to_string(), "/c".to_string()]))
    );
}

#[test]
fn plain_file_is_read_by_its_name_without_provenance() {
    let files: [(&str, &[u8]); 1] = [("some/where.txt", b"plain")];
    let data_source = DataSource::default();
    match data_source.get_file_content("some/where.txt") {
        Lookup::ReadFile { path, provenance } => {
            assert_eq!(path, "some/where.txt");
            assert_eq!(provenance, None);
        }
        _ => panic!("a plain file is read"),
    }
    assert_eq!(
        resolve(data_source.get_file_content("some/where.txt"), &files),
        Ok((b"plain".to_vec(), None))
    );
    assert!(matches!(
        resolve(data_source.get_file_content("missing"), &files),
        Err(FetchError::I(_))
    ));
}

#[test]
fn file_map_inline_entry_has_no_provenance() {
    let data_source = DataSource::FileMap(vec![
        ("a".to_string(), SingleFileSource::Inline(vec![1, 2, 3])),
        ("b".to_string(), SingleFileSource::Inline(vec![])),
    ]);
    assert!(matches!(
        data_source.get_file_content("a"),
        Lookup::Done(Ok((ref bytes, None))) if bytes == &vec![1, 2, 3]
    ));
    assert!(matches!(
        data_source.get_file_content("b"),
        Lookup::Done(Ok((ref bytes, None))) if bytes.is_empty()
    ));
}

#[test]
fn file_map_file_path_entry_is_read_with_its_path_as_provenance() {
    let files: [(&str, &[u8]); 1] = [("/etc/app.conf", b"current bytes")];
    let data_source = DataSource::FileMap(vec![
        ("inline".to_string(), SingleFileSource::Inline(vec![9])),
        ("conf".to_string(), SingleFileSource::FilePath("/etc/app.conf".to_string())),
    ]);
    assert_eq!(
        resolve(data_source.get_file_content("conf"), &files),
        Ok((b"current bytes".to_vec(), Some("/etc/app.conf".to_string())))
    );
}

#[test]
fn file_map_remote_entry_names_source_cache_and_address() {
    let data_source = DataSource::FileMap(vec![("r".to_string(), remote())]);
    match data_source.get_file_content("r") {
        Lookup::Remote { source, cache, provenance } => {
            assert_eq!(source.url, "https://example.org/r");
            assert_eq!(cache.cache_file_path.as_deref(), Some("/tmp/r"));
            assert_eq!(cache.update_interval_seconds, Some(5));
            assert_eq!(provenance.as_deref(), Some("https://example.org/r"));
        }
        _ => panic!("a remote entry is fetched"),
    }
}

#[test]
fn file_map_miss_is_not_found() {
    let data_source =
        DataSource::FileMap(vec![("a".to_string(), SingleFileSource::Inline(vec![1]))]);
    assert!(matches!(data_source.get_file_content("A"), Lookup::Done(Err(FetchError::NF))));
    assert!(matches!(data_source.get_file_content(""), Lookup::Done(Err(FetchError::NF))));
    let empty = DataSource::FileMap(vec![]);
    assert!(matches!(empty.get_file_content("a"), Lookup::Done(Err(FetchError::NF))));
}

#[test]
fn tar_source_answers_at_once() {
    let mut builder = tar::Builder::new(Vec::new());
    let mut header = tar::Header::new_gnu();
    header.set_size(4);
    header.set_mode(0o644);
    header.set_cksum();
    builder.append_data(&mut header, "in/tar.txt", &b"data"[..]).unwrap();
    let data_source = DataSource::Tar(builder.into_inner().unwrap());
    assert!(matches!(
        data_source.get_file_content("in/tar.txt"),
        Lookup::Done(Ok((ref bytes, Some(ref p)))) if bytes == b"data" && p == "in/tar.txt"
    ));
    assert!(matches!(data_source.get_file_content("tar.txt"), Lookup::Done(Err(FetchError::NF))));
}

struct Fixed;

impl SyncFolderSource for Fixed {
    fn get_file_content(&self, file_name: &str) -> Content {
        if file_name == "known" {
            Ok((b"from backend".to_vec(), Some("backend".to_string())))
        } else {
            Err(FetchError::NF)
        }
    }
}

#[test]
fn custom_backend_answers_for_itself() {
    let data_source = DataSource::Sync(Box::new(Fixed));
    assert_eq!(
        resolve(data_source.get_file_content("known"), &[]),
        Ok((b"from backend".to_vec(), Some("backend".to_string())))
    );
    assert_eq!(resolve(data_source.get_file_content("unknown"), &[]), Err(FetchError::NF));
}

#[test]
fn working_directory_is_appended_to_folders_only() {
    let mut folders = DataSource::Folders(vec!["/a".to_string()]);
    folders.insert_current_working_dir("/cwd".to_string());
    match &folders {
        DataSource::Folders(dirs) => assert_eq!(dirs, &vec!["/a".to_string(), "/cwd".to_string()]),
        _ => panic!("a list of directories stays one"),
    }
    let mut plain = DataSource::StdReadFile;
    plain.insert_current_working_dir("/cwd".to_string());
    assert!(matches!(plain, DataSource::StdReadFile));
    let mut tar = DataSource::Tar(vec![1, 2]);
    tar.insert_current_working_dir("/cwd".to_string());
    assert!(matches!(tar, DataSource::Tar(ref bytes) if bytes == &vec![1, 2]));
}

#[test]
fn read_to_string_replaces_invalid_utf8() {
    assert_eq!(
        DataSource::read_to_string(Ok((vec![b'a', 0xff, b'b'], None))),
        Ok("a\u{fffd}b".to_string())
    );
    assert_eq!(
        DataSource::read_to_string(Ok(("gr\u{fc}n".as_bytes().to_vec(), Some("p".to_string())))),
        Ok("gr\u{fc}n".to_string())
    );
    assert_eq!(DataSource::read_to_string(Err(FetchError::S)), Err(FetchError::S));
}

#[test]
fn single_source_paths() {
    assert_eq!(SingleFileSource::Inline(vec![1]).get_path(), None);
    assert_eq!(
        SingleFileSource::FilePath("/p".to_string()).get_path(),
        Some("/p".to_string())
    );
    assert_eq!(remote().get_path(), Some("https://example.org/r".to_string()));
}

#[test]
fn single_source_steps() {
    assert!(matches!(SingleFileSource::default().fetch(), SourceStep::Ready(ref b) if b.is_empty()));
    assert!(matches!(
        SingleFileSource::Inline(vec![4, 5]).fetch(),
        SourceStep::Ready(ref b) if b == &vec![4, 5]
    ));
    assert!(matches!(
        SingleFileSource::FilePath("/p".to_string()).fetch(),
        SourceStep::ReadFile(ref p) if p == "/p"
    ));
    let r = remote();
    assert!(matches!(
        r.fetch(),
        SourceStep::Remote(h, c) if h.url == "https://example.org/r" && c.update_interval_seconds == Some(5)
    ));
}

#[test]
fn file_map_constructor_keeps_the_later_of_two_equal_keys() {
    let data_source = DataSource::file_map(vec![
        ("a".to_string(), SingleFileSource::Inline(vec![1])),
        ("b".to_string(), SingleFileSource::Inline(vec![2])),
        ("a".to_string(), SingleFileSource::Inline(vec![3])),
        ("c".to_string(), SingleFileSource::FilePath("/c".to_string())),
        ("a".to_string(), SingleFileSource::Inline(vec![4])),
        ("b".to_string(), SingleFileSource::Inline(vec![5])),
    ]);
    match &data_source {
        DataSource::FileMap(table) => {
            let mut keys: Vec<&str> = table.iter().map(|(k, _)| k.as_str()).collect();
            keys.sort();
            assert_eq!(keys, vec!["a", "b", "c"]);
        }
        _ => panic!("a table is built"),
    }
    assert!(matches!(
        data_source.get_file_content("a"),
        Lookup::Done(Ok((ref bytes, None))) if bytes == &vec![4]
    ));
    assert!(matches!(
        data_source.get_file_content("b"),
        Lookup::Done(Ok((ref bytes, None))) if bytes == &vec![5]
    ));
    assert!(matches!(
        data_source.get_file_content("c"),
        Lookup::ReadFile { ref path, .. } if path == "/c"
    ));
    assert!(matches!(data_source.get_file_content("d"), Lookup::Done(Err(FetchError::NF))));
}

#[test]
fn file_map_constructor_agrees_with_a_hash_map() {
    let entries = |n: u8| -> Vec<(String, Vec<u8>)> {
        (0..n).map(|i| (format!("k{}", (i * 7) % 5), vec![i])).collect()
    };
    let expected: std::collections::HashMap<String, Vec<u8>> = entries(23).into_iter().collect();
    let data_source = DataSource::file_map(
        entries(23).into_iter().map(|(k, v)| (k, SingleFileSource::Inline(v))).collect(),
    );
    for (key, value) in &expected {
        assert!(matches!(
            data_source.get_file_content(key),
            Lookup::Done(Ok((ref bytes, None))) if bytes == value
        ));
    }
    match &data_source {
        DataSource::FileMap(table) => assert_eq!(table.len(), expected.len()),
        _ => panic!("a table is built"),
    }
    assert!(matches!(
        DataSource::file_map(vec![]).get_file_content("k0"),
        Lookup::Done(Err(FetchError::NF))
    ));
}

#[test]
fn read_to_string_decodes_valid_utf8_as_it_is() {
    assert_eq!(
        DataSource::read_to_string(Ok((b"hello world".to_vec(), None))),
        Ok("hello world".to_string())
    );
    assert_eq!(
        DataSource::read_to_string(Ok(("\u{2603} and \u{1f980}".as_bytes().to_vec(), None))),
        Ok("\u{2603} and \u{1f980}".to_string())
    );
    assert_eq!(DataSource::read_to_string(Ok((vec![], None))), Ok(String::new()));
}
