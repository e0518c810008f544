use hive_tui::ingest::StreamIngester;
use hive_tui::json::{decode_line, LineRecord};

fn feed_all(chunks: &[&[u8]]) -> Vec<LineRecord> {
    let mut reader = StreamIngester::new();
    let mut out = Vec::new();
    for c in chunks {
        out.extend(reader.ingest(c));
    }
    out.extend(reader.finish());
    out
}

fn rec(message: &str, success: bool) -> LineRecord {
    LineRecord { message: message.to_string(), success }
}

const STREAM: &[u8] = b"{\"status\":\"pulling manifest\"}\n{\"status\":\"downloading\",\"error\":null}\n{\"message\":\"verifying\"}\n{\"status\":\"success\"}\n";

#[test]
fn chunking_all_at_once_matches_byte_by_byte() {
    let whole = feed_all(&[STREAM]);
    let bytes: Vec<&[u8]> = STREAM.chunks(1).collect();
    let one_by_one = feed_all(&bytes);
    assert_eq!(whole, one_by_one);
    assert_eq!(
        whole,
        vec![
            rec("pulling manifest", true),
            rec("downloading", true),
            rec("verifying", true),
            rec("success", true),
        ]
    );
}

#[test]
fn chunking_split_mid_line_and_at_terminators() {
    let whole = feed_all(&[STREAM]);
    for cut in 0..STREAM.len() {
        let (a, b) = STREAM.split_at(cut);
        assert_eq!(feed_all(&[a, b]), whole, "cut at {}", cut);
    }
    for size in [2usize, 3, 5, 7, 13] {
        let parts: Vec<&[u8]> = STREAM.chunks(size).collect();
        assert_eq!(feed_all(&parts), whole, "chunks of {}", size);
    }
}

#[test]
fn crlf_terminator_split_across_chunks() {
    let recs = feed_all(&[b"{\"status\":\"a\"}\r", b"\n{\"status\":\"b\"}\r", b"\n"]);
    assert_eq!(recs, vec![rec("a", true), rec("b", true)]);
}

#[test]
fn ingest_returns_only_completed_lines() {
    let mut reader = StreamIngester::new();
    assert!(reader.ingest(b"{\"status\":\"par").is_empty());
    let got = reader.ingest(b"tial\"}\n{\"sta");
    assert_eq!(got, vec![rec("partial", true)]);
    let rest = reader.finish();
    assert_eq!(rest.len(), 1);
    assert!(!rest[0].success);
    assert!(rest[0].message.starts_with("Non-JSON final line: {\"sta (Parse Error: "));
}

#[test]
fn status_with_null_error_is_success() {
    let r = decode_line(b"{\"status\":\"downloading\",\"error\":null}", false);
    assert_eq!(r, rec("downloading", true));
}

#[test]
fn truthy_error_fails_and_falls_back_to_json_text() {
    let r = decode_line(b"{\"error\":\"not found\"}", false);
    assert_eq!(r, rec("{\"error\":\"not found\"}", false));
}

#[test]
fn error_false_is_success() {
    assert_eq!(decode_line(b"{\"status\":\"ok\",\"error\":false}", false), rec("ok", true));
    assert_eq!(decode_line(b"{\"status\":\"bad\",\"error\":true}", false), rec("bad", false));
}

#[test]
fn message_used_when_no_status() {
    assert_eq!(decode_line(b"{\"message\":\"hello\"}", false), rec("hello", true));
}

#[test]
fn non_string_status_falls_back_to_text() {
    assert_eq!(decode_line(b"{\"status\":5,\"message\":\"m\"}", false), rec("{\"status\":5,\"message\":\"m\"}", true));
}

#[test]
fn non_object_json_uses_its_text() {
    assert_eq!(decode_line(b"42", false), rec("42", true));
}

#[test]
fn non_json_line_is_failure_and_processing_continues() {
    let recs = feed_all(&[b"not json at all\n{\"status\":\"after\"}\n"]);
    assert_eq!(recs.len(), 2);
    assert!(!recs[0].success);
    assert!(recs[0].message.starts_with("Non-JSON line: not json at all (Parse Error: "));
    assert!(recs[0].message.ends_with(")"));
    assert!(recs[0].message.len() > "Non-JSON line: not json at all (Parse Error: )".len());
    assert_eq!(recs[1], rec("after", true));
}

#[test]
fn blank_and_whitespace_lines_are_skipped() {
    let recs = feed_all(&[b"\n   \n\t{\"status\":\"x\"}  \n\r\n"]);
    assert_eq!(recs, vec![rec("x", true)]);
}

#[test]
fn unterminated_last_line_is_read_at_the_end() {
    let recs = feed_all(&[b"{\"status\":\"one\"}\n{\"status\":\"two\"}"]);
    assert_eq!(recs, vec![rec("one", true), rec("two", true)]);
}

#[test]
fn empty_stream_gives_nothing() {
    assert!(feed_all(&[]).is_empty());
    assert!(feed_all(&[b"", b""]).is_empty());
}

#[test]
fn invalid_utf8_line_is_a_failure_record() {
    let recs = feed_all(&[b"\xff\xfe\n"]);
    assert_eq!(recs.len(), 1);
    assert!(!recs[0].success);
    assert!(recs[0].message.starts_with("Non-JSON line: \u{fffd}\u{fffd} (Parse Error: "));
}
