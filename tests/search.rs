use philologus::controller::{Commit, SearchController};
use philologus::encoding::{build_query_parameter, build_request_url, REQUEST_BASE};
use philologus::lookup::{
    lookup_result, results_from_entries, GreekWords, HttpReply, LookupError, SearchResult,
};
use philologus::model::{create_model, ResultListModel};

const ENCODED_PREFIX: &str = "%7B%22regex%22%3A%220%22%2C%22lexicon%22%3A%22lsj%22%2C%22tag_id%22%3A%220%22%2C%22root_id%22%3A%220%22%2C%22w%22%3A%22";
const ENCODED_SUFFIX: &str = "%22%7D";

fn url_string(query: &str) -> String {
    String::from_utf8(build_request_url(query)).unwrap()
}

fn hex(c: u8) -> u8 {
    match c {
        b'0'..=b'9' => c - b'0',
        b'A'..=b'F' => c - b'A' + 10,
        _ => c - b'a' + 10,
    }
}

fn percent_decode(s: &[u8]) -> Vec<u8> {
    let mut out = Vec::new();
    let mut k = 0;
    while k < s.len() {
        if s[k] == b'%' {
            out.push(hex(s[k + 1]) * 16 + hex(s[k + 2]));
            k += 3;
        } else {
            out.push(s[k]);
            k += 1;
        }
    }
    out
}

fn json_unescape(s: &[u8]) -> Vec<u8> {
    let mut out = Vec::new();
    let mut k = 0;
    while k < s.len() {
        if s[k] == b'\\' && s[k + 1] == b'u' {
            out.push(hex(s[k + 4]) * 16 + hex(s[k + 5]));
            k += 6;
        } else if s[k] == b'\\' {
            out.push(s[k + 1]);
            k += 2;
        } else {
            out.push(s[k]);
            k += 1;
        }
    }
    out
}

/// Decodes a request URL as the server would and returns the searched word.
fn server_side_word(url: &str) -> String {
    assert!(url.starts_with(REQUEST_BASE));
    let value = &url.as_bytes()[REQUEST_BASE.len()..];
    let param = percent_decode(value);
    let prefix = b"{\"regex\":\"0\",\"lexicon\":\"lsj\",\"tag_id\":\"0\",\"root_id\":\"0\",\"w\":\"";
    assert!(param.starts_with(prefix));
    assert!(param.ends_with(b"\"}"));
    let body = &param[prefix.len()..param.len() - 2];
    String::from_utf8(json_unescape(body)).unwrap()
}

fn words(n: i32) -> Vec<GreekWords> {
    let mut v = Vec::new();
    for k in 0..n {
        v.push(GreekWords { i: 100 + k, r: (format!("word{}", k), 0, 0) });
    }
    v
}

fn row(id: i32, text: &str) -> SearchResult {
    SearchResult { id, text: text.to_string() }
}

fn rows_of(model: &ResultListModel) -> Vec<SearchResult> {
    (0..model.len()).map(|k| model.row(k).clone()).collect()
}

#[test]
fn url_of_plain_word() {
    let expected = format!("{}{}ab{}", REQUEST_BASE, ENCODED_PREFIX, ENCODED_SUFFIX);
    assert_eq!(url_string("ab"), expected);
}

#[test]
fn url_escapes_quote_backslash_and_space() {
    let expected = format!("{}{}a%5C%22b%20c%5C%5C{}", REQUEST_BASE, ENCODED_PREFIX, ENCODED_SUFFIX);
    assert_eq!(url_string("a\"b c\\"), expected);
}

#[test]
fn url_escapes_unicode_and_control() {
    let expected = format!("{}{}%CE%BB%5Cu000A{}", REQUEST_BASE, ENCODED_PREFIX, ENCODED_SUFFIX);
    assert_eq!(url_string("λ\n"), expected);
}

#[test]
fn query_parameter_is_json() {
    let p = String::from_utf8(build_query_parameter("a\"b")).unwrap();
    assert_eq!(
        p,
        "{\"regex\":\"0\",\"lexicon\":\"lsj\",\"tag_id\":\"0\",\"root_id\":\"0\",\"w\":\"a\\\"b\"}"
    );
}

#[test]
fn url_round_trips_server_side() {
    for q in ["", "ab", "a b", "\"quoted\"", "back\\slash", "λόγος", "tab\there", "100% ~-_.", "{}:,&=?#"] {
        let url = url_string(q);
        assert!(url.bytes().all(|b| b.is_ascii_graphic()));
        assert!(!url[REQUEST_BASE.len()..].contains('&'));
        assert_eq!(server_side_word(&url), q);
    }
}

#[test]
fn lookup_keeps_entries_in_order() {
    for n in [0, 1, 3, 101] {
        let entries = words(n);
        let rs = lookup_result(HttpReply::Received { status: 200, entries: Some(words(n)) }).unwrap();
        assert_eq!(rs.len(), n as usize);
        for k in 0..rs.len() {
            assert_eq!(rs[k].id, entries[k].i);
            assert_eq!(rs[k].text, entries[k].r.0);
        }
    }
}

#[test]
fn results_from_entries_maps_id_and_text() {
    let entries = vec![
        GreekWords { i: 7, r: ("λόγος".to_string(), 1, 2) },
        GreekWords { i: -3, r: ("ab".to_string(), 0, 9) },
    ];
    assert_eq!(results_from_entries(&entries), vec![row(7, "λόγος"), row(-3, "ab")]);
}

#[test]
fn status_500_is_status_error_and_model_unchanged() {
    let r = lookup_result(HttpReply::Received { status: 500, entries: Some(words(2)) });
    assert_eq!(r, Err(LookupError::HttpStatusError(500)));
    let mut c = SearchController::new(create_model());
    let before = rows_of(c.model());
    let t = c.text_changed("a");
    assert_eq!(c.lookup_finished(t.generation, r), Commit::Failed(LookupError::HttpStatusError(500)));
    assert_eq!(rows_of(c.model()), before);
    assert!(!c.is_awaiting());
}

#[test]
fn status_boundaries() {
    assert_eq!(lookup_result(HttpReply::Received { status: 199, entries: None }), Err(LookupError::HttpStatusError(199)));
    assert_eq!(lookup_result(HttpReply::Received { status: 300, entries: None }), Err(LookupError::HttpStatusError(300)));
    assert_eq!(lookup_result(HttpReply::Received { status: 404, entries: None }), Err(LookupError::HttpStatusError(404)));
    assert_eq!(lookup_result(HttpReply::Received { status: 299, entries: Some(words(1)) }), Ok(vec![row(100, "word0")]));
}

#[test]
fn missing_entries_is_decode_error_and_model_unchanged() {
    let r = lookup_result(HttpReply::Received { status: 200, entries: None });
    assert_eq!(r, Err(LookupError::DecodeError));
    let mut c = SearchController::new(create_model());
    let before = rows_of(c.model());
    let t = c.text_changed("a");
    assert_eq!(c.lookup_finished(t.generation, r), Commit::Failed(LookupError::DecodeError));
    assert_eq!(rows_of(c.model()), before);
}

#[test]
fn unreachable_is_network_error() {
    assert_eq!(lookup_result(HttpReply::Unreachable), Err(LookupError::NetworkError));
    let mut c = SearchController::new(ResultListModel::new());
    let t = c.text_changed("a");
    assert_eq!(
        c.lookup_finished(t.generation, Err(LookupError::NetworkError)),
        Commit::Failed(LookupError::NetworkError)
    );
    assert!(c.model().is_empty());
}

#[test]
fn late_answer_for_older_query_is_discarded() {
    let mut c = SearchController::new(create_model());
    let ta = c.text_changed("a");
    let tb = c.text_changed("ab");
    assert!(tb.generation > ta.generation);
    assert_eq!(c.lookup_finished(tb.generation, Ok(vec![row(2, "ab")])), Commit::Applied);
    assert_eq!(c.lookup_finished(ta.generation, Ok(vec![row(1, "a"), row(3, "ax")])), Commit::Stale);
    assert_eq!(rows_of(c.model()), vec![row(2, "ab")]);
    assert_eq!(c.query(), "ab");
}

#[test]
fn older_answer_before_newer_does_not_commit() {
    let mut c = SearchController::new(ResultListModel::new());
    let ta = c.text_changed("a");
    let tb = c.text_changed("ab");
    assert_eq!(c.lookup_finished(ta.generation, Ok(vec![row(1, "a")])), Commit::Stale);
    assert!(c.model().is_empty());
    assert!(c.is_awaiting());
    assert_eq!(c.lookup_finished(tb.generation, Ok(vec![row(2, "ab")])), Commit::Applied);
    assert_eq!(rows_of(c.model()), vec![row(2, "ab")]);
}

#[test]
fn repeated_completion_is_stale() {
    let mut c = SearchController::new(ResultListModel::new());
    let t = c.text_changed("a");
    assert_eq!(c.lookup_finished(t.generation, Ok(vec![row(1, "a")])), Commit::Applied);
    assert_eq!(c.lookup_finished(t.generation, Ok(vec![])), Commit::Stale);
    assert_eq!(rows_of(c.model()), vec![row(1, "a")]);
}

#[test]
fn text_changed_issues_new_generation_and_url() {
    let mut c = SearchController::new(ResultListModel::new());
    assert_eq!(c.latest_generation(), 0);
    assert!(!c.is_awaiting());
    let t = c.text_changed("λ");
    assert_eq!(t.generation, 1);
    assert_eq!(c.latest_generation(), 1);
    assert!(c.is_awaiting());
    assert_eq!(c.query(), "λ");
    assert_eq!(t.url, build_request_url("λ"));
}

#[test]
fn success_replaces_rows_in_order() {
    let mut c = SearchController::new(create_model());
    let t = c.text_changed("w");
    let rs = lookup_result(HttpReply::Received { status: 200, entries: Some(words(3)) });
    assert_eq!(c.lookup_finished(t.generation, rs), Commit::Applied);
    assert_eq!(rows_of(c.model()), vec![row(100, "word0"), row(101, "word1"), row(102, "word2")]);
}

#[test]
fn clear_without_append_is_empty() {
    let mut m = create_model();
    m.clear();
    assert_eq!(m.len(), 0);
    assert!(m.is_empty());
}

#[test]
fn append_adds_at_end() {
    let mut m = ResultListModel::new();
    m.append(row(1, "a"));
    m.append(row(2, "b"));
    assert_eq!(rows_of(&m), vec![row(1, "a"), row(2, "b")]);
    m.replace_all(vec![row(9, "z")]);
    assert_eq!(rows_of(&m), vec![row(9, "z")]);
}

#[test]
fn initial_model_has_placeholders() {
    let m = create_model();
    assert_eq!(rows_of(&m), vec![row(1, "test1"), row(2, "test2"), row(3, "test3")]);
}
