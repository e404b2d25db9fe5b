use data_source::error::FetchError;

#[test]
fn messages_of_the_plain_kinds() {
    assert_eq!(FetchError::R("refused".to_string()).message(), "reqwest err");
    assert_eq!(FetchError::I("denied".to_string()).message(), "io err");
    assert_eq!(FetchError::T.message(), "time err");
    assert_eq!(FetchError::S.message(), "size limit exceed");
    assert_eq!(FetchError::NC.message(), "no cache file");
    assert_eq!(FetchError::NF.message(), "not found");
}

#[test]
fn message_lists_the_directories() {
    let e = FetchError::NFD(vec!["/a".to_string(), "b \"c\"".to_string()]);
    assert_eq!(e.message(), "not found in directories `[\"/a\", \"b \\\"c\\\"\"]`");
    assert_eq!(FetchError::NFD(vec![]).message(), "not found in directories `[]`");
}
