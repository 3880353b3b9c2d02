use local_ai_harness::stream::{
    json_string, json_values, response_token, JsonStep, LineBuffer, TextLineBuffer, TokenStream,
};

#[test]
fn lines_wait_for_their_line_feed() {
    let mut b = LineBuffer::new();
    assert_eq!(b.feed(b"  first"), Vec::<String>::new());
    assert_eq!(b.pending, b"  first".to_vec());
    assert_eq!(b.feed(b" line \n\n  \nsecond\nthi"), vec!["first line", "second"]);
    assert_eq!(b.pending, b"thi".to_vec());
    assert_eq!(b.feed(b"rd\r\n"), vec!["third"]);
    assert!(b.pending.is_empty());
}

#[test]
fn chunk_boundaries_do_not_matter_on_an_example() {
    let text = "{\"a\":\"가\"}\n  \n{\"b\":2}\n나머지".as_bytes();
    let mut whole = LineBuffer::new();
    let all = whole.feed(text);
    assert_eq!(all, vec!["{\"a\":\"가\"}", "{\"b\":2}"]);
    for cut in 0..=text.len() {
        let mut parts = LineBuffer::new();
        let mut got = parts.feed(&text[..cut]);
        got.extend(parts.feed(&text[cut..]));
        assert_eq!(got, all);
        assert_eq!(parts.pending, whole.pending);
    }
}

#[test]
fn invalid_utf8_becomes_replacement_characters() {
    let mut b = LineBuffer::new();
    let lines = b.feed(&[b'a', 0xff, b'b', b'\n']);
    assert_eq!(lines, vec!["a\u{fffd}b"]);
    let lines = b.feed("가\n".as_bytes());
    assert_eq!(lines, vec!["가"]);
}

#[test]
fn tokens_of_a_streamed_generation() {
    let mut s = TokenStream::new();
    let t1 = s.feed(b"{\"response\":\" Hel\",\"done\":false}\n{\"respo");
    assert_eq!(t1, vec![" Hel"]);
    let t2 = s.feed(b"nse\":\"lo \"}\nnot json\n{\"other\":1}\n{\"response\":7}\n");
    assert_eq!(t2, vec!["lo "]);
    assert_eq!(s.full, " Hello ");
    assert_eq!(s.finish(), "Hello");
}

#[test]
fn json_lines_that_parse() {
    let lines = vec![
        "{\"status\":\"pulling\"}".to_string(),
        "garbage".to_string(),
        "{\"completed\":10,\"total\":20}".to_string(),
    ];
    let v = json_values(&lines);
    assert_eq!(v.len(), 2);
    assert_eq!(v[0]["status"], "pulling");
    assert_eq!(v[1]["total"], 20);
    assert_eq!(v[0], serde_json::from_str::<serde_json::Value>(&lines[0]).unwrap());
    assert_eq!(v[1], serde_json::from_str::<serde_json::Value>(&lines[2]).unwrap());
}

#[test]
fn tokens_do_not_depend_on_chunk_boundaries_on_an_example() {
    let reply = "{\"response\":\"안녕\"}\n{\"response\":\"하세요\"}\n{\"done\":true}\n";
    let bytes = reply.as_bytes();
    let mut whole = TokenStream::new();
    let all = whole.feed(bytes);
    assert_eq!(all, vec!["안녕", "하세요"]);
    for cut in 0..=reply.len() {
        let mut parts = TokenStream::new();
        let mut got = parts.feed(&bytes[..cut]);
        got.extend(parts.feed(&bytes[cut..]));
        assert_eq!(got, all);
        assert_eq!(parts.finish(), "안녕하세요");
    }
}

#[test]
fn a_character_cut_between_chunks_is_decoded_whole() {
    let mut b = LineBuffer::new();
    let bytes = "한글\n".as_bytes();
    assert_eq!(b.feed(&bytes[..1]), Vec::<String>::new());
    assert_eq!(b.feed(&bytes[1..4]), Vec::<String>::new());
    assert_eq!(b.feed(&bytes[4..]), vec!["한글"]);
}

#[test]
fn strings_found_along_json_paths() {
    let text = "{\"a\":{\"b\":[[\"x\",\"y\"]]},\"n\":3}";
    let path = vec![JsonStep::Key("a".to_string()), JsonStep::Key("b".to_string()), JsonStep::Index(0), JsonStep::Index(1)];
    assert_eq!(json_string(text, &path), Some("y".to_string()));
    assert_eq!(json_string(text, &vec![JsonStep::Key("n".to_string())]), None);
    assert_eq!(json_string(text, &vec![JsonStep::Key("z".to_string())]), None);
    assert_eq!(json_string("not json", &vec![]), None);
    assert_eq!(json_string("\"top\"", &vec![]), Some("top".to_string()));
    assert_eq!(response_token("{\"response\":\"tok\"}"), Some("tok".to_string()));
    assert_eq!(response_token("{\"other\":\"tok\"}"), None);
}

#[test]
fn pull_progress_lines_decode_each_chunk_on_its_own() {
    let mut b = TextLineBuffer::new();
    assert_eq!(b.feed(b"{\"status\":\"pulling\"}\n{\"comp"), vec!["{\"status\":\"pulling\"}"]);
    assert_eq!(b.pending, "{\"comp");
    assert_eq!(b.feed(b"leted\":1}\r\n\n"), vec!["{\"completed\":1}"]);
    assert_eq!(b.pending, "");
    let bytes = "가\n".as_bytes();
    let mut c = TextLineBuffer::new();
    assert_eq!(c.feed(&bytes[..1]), Vec::<String>::new());
    assert_eq!(c.feed(&bytes[1..]), vec!["\u{fffd}\u{fffd}\u{fffd}"]);
}

#[test]
fn any_number_of_chunks() {
    let reply = "{\"response\":\"하나\"}\n{\"response\":\" 둘\"}\n\n{\"response\":\"셋 \"}\n".as_bytes();
    for step in 1..reply.len() {
        let mut s = TokenStream::new();
        let mut toks = Vec::new();
        for chunk in reply.chunks(step) {
            toks.extend(s.feed(chunk));
        }
        assert_eq!(toks, vec!["하나", " 둘", "셋 "]);
        assert_eq!(s.finish(), "하나 둘셋");
    }
}
