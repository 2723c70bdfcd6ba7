use deve_llama_gui::logs::{
    log_stream, push_log, scan_server_lines, trim_end_char, LineBuffer, LOG_LIMIT, LOG_TRIM,
};
use deve_llama_gui::messages::{join_with_newlines, log_file_name};

fn strings(v: &[&str]) -> Vec<String> {
    v.iter().map(|s| s.to_string()).collect()
}

#[test]
fn complete_lines_are_logged() {
    let mut b = LineBuffer::new();
    assert_eq!(b.feed(b"hello\nwor"), strings(&["hello"]));
    assert_eq!(b.feed(b"ld\n\n\nnext"), strings(&["world"]));
    assert_eq!(b.finish(), Some("next".to_string()));
}

#[test]
fn carriage_return_before_newline_stays() {
    let mut b = LineBuffer::new();
    assert_eq!(b.feed(b"a\r\nb\n"), strings(&["a\r", "b"]));
    assert_eq!(b.finish(), None);
}

#[test]
fn unfinished_line_loses_trailing_carriage_returns() {
    let mut b = LineBuffer::new();
    assert!(b.feed(b"tail\r\r").is_empty());
    assert_eq!(b.finish(), Some("tail".to_string()));
    let mut c = LineBuffer::new();
    assert!(c.feed(b"\r").is_empty());
    assert_eq!(c.finish(), None);
}

#[test]
fn invalid_utf8_is_replaced() {
    let mut b = LineBuffer::new();
    assert_eq!(b.feed(b"ab\xffc\n"), strings(&["ab\u{fffd}c"]));
    let mut c = LineBuffer::new();
    assert_eq!(c.feed("日本\n".as_bytes()), strings(&["日本"]));
    let mut d = LineBuffer::new();
    assert!(d.feed(b"\xe6\x97").is_empty());
    assert_eq!(d.finish(), Some("\u{fffd}".to_string()));
}

#[test]
fn chunks_split_inside_characters_join_up() {
    let bytes = "语言：中文\n".as_bytes();
    let mut b = LineBuffer::new();
    let mut got = Vec::new();
    for byte in bytes {
        got.extend(b.feed(std::slice::from_ref(byte)));
    }
    assert_eq!(got, strings(&["语言：中文"]));
}

#[test]
fn no_byte_is_lost_between_lines() {
    let data = b"first\nsecond line\n\nthird";
    let mut b = LineBuffer::new();
    let mut lines = Vec::new();
    for chunk in data.chunks(3) {
        lines.extend(b.feed(chunk));
    }
    let rest = b.finish().unwrap_or_default();
    let mut rebuilt = String::new();
    for l in &lines {
        rebuilt.push_str(l);
        rebuilt.push('\n');
    }
    assert_eq!(lines, strings(&["first", "second line"]));
    assert_eq!(format!("{}\n{}", rebuilt, rest), "first\nsecond line\n\nthird");
}

#[test]
fn trimming_one_character() {
    assert_eq!(trim_end_char("x\r\r", '\r'), "x");
    assert_eq!(trim_end_char("\r\rx", '\r'), "\r\rx");
    assert_eq!(trim_end_char("", '\n'), "");
}

#[test]
fn logs_are_capped() {
    assert_eq!(LOG_LIMIT, 200);
    assert_eq!(LOG_TRIM, 50);
    let mut logs: Vec<String> = (0..200).map(|i| i.to_string()).collect();
    push_log(&mut logs, "200".to_string());
    assert_eq!(logs.len(), 151);
    assert_eq!(logs[0], "50");
    assert_eq!(logs[150], "200");
    let mut small = strings(&["a"]);
    push_log(&mut small, "b".to_string());
    assert_eq!(small, strings(&["a", "b"]));
}

#[test]
fn pushing_never_passes_the_limit() {
    let mut logs: Vec<String> = Vec::new();
    for i in 0..1000 {
        push_log(&mut logs, i.to_string());
        assert!(logs.len() <= LOG_LIMIT);
        assert_eq!(logs.last().unwrap(), &i.to_string());
    }
}

#[test]
fn server_output_flags_the_context() {
    assert_eq!(scan_server_lines(false, false, &strings(&["all good"])), (false, false));
    assert_eq!(
        scan_server_lines(false, false, &strings(&["GGML_ASSERT(x) at line 3"])),
        (true, true)
    );
    assert_eq!(
        scan_server_lines(false, false, &strings(&["Assertion FAILED somewhere"])),
        (true, true)
    );
    assert_eq!(
        scan_server_lines(false, false, &strings(&["assert ok"])),
        (false, false)
    );
    assert_eq!(
        scan_server_lines(
            false,
            false,
            &strings(&["n_ctx_per_seq (4096) < n_ctx_train (32768)"])
        ),
        (true, true)
    );
    assert_eq!(
        scan_server_lines(
            false,
            false,
            &strings(&["the full capacity of the model will not be utilized"])
        ),
        (true, true)
    );
    assert_eq!(
        scan_server_lines(true, false, &strings(&["n_ctx_per_seq < n_ctx_train"])),
        (true, false)
    );
    assert_eq!(
        scan_server_lines(true, false, &strings(&["ggml_assert"])),
        (true, true)
    );
}

#[test]
fn upper_case_reports_are_recognised() {
    assert_eq!(
        scan_server_lines(false, false, &strings(&["ÄBC: ASSERTION FAILED"])),
        (true, true)
    );
    assert_eq!(
        scan_server_lines(false, false, &strings(&["THE FULL CAPACITY WILL NOT BE UTILIZED"])),
        (true, true)
    );
}

#[test]
fn joined_logs_and_file_names() {
    assert_eq!(join_with_newlines(&strings(&[])), "");
    assert_eq!(join_with_newlines(&strings(&["a"])), "a");
    assert_eq!(join_with_newlines(&strings(&["a", "", "b"])), "a\n\nb");
    assert_eq!(log_file_name(1700000000), "llama_log_1700000000.txt");
    assert_eq!(log_file_name(u64::MAX), format!("llama_log_{}.txt", u64::MAX));
}

#[test]
fn a_whole_stream_stays_within_the_cap() {
    let mut logs: Vec<String> = (0..199).map(|i| i.to_string()).collect();
    let mut b = LineBuffer::new();
    let chunks: [&[u8]; 3] = [b"one\ntw", b"o\n\nthr", b"ee\r"];
    for c in chunks.iter() {
        for line in b.feed(c) {
            push_log(&mut logs, line);
        }
    }
    if let Some(last) = b.finish() {
        push_log(&mut logs, last);
    }
    assert!(logs.len() <= 200);
    assert_eq!(logs.len(), 152);
    let tail: Vec<String> = logs[logs.len() - 3..].to_vec();
    assert_eq!(tail, strings(&["one", "two", "three"]));
    assert_eq!(logs[0], "50");
}

#[test]
fn logging_a_whole_stream() {
    let mut logs: Vec<String> = (0..199).map(|i| i.to_string()).collect();
    let chunks: Vec<Vec<u8>> = vec![
        b"one\ntw".to_vec(),
        b"o\r\n\n\xff thr".to_vec(),
        b"ee\r\r".to_vec(),
    ];
    log_stream(&mut logs, &chunks);
    assert_eq!(logs.len(), 152);
    assert_eq!(logs[0], "50");
    let tail: Vec<String> = logs[logs.len() - 3..].to_vec();
    assert_eq!(tail, strings(&["one", "two\r", "\u{fffd} three"]));
    assert!(logs.iter().all(|l| !l.is_empty() && !l.contains('\n')));

    let mut empty: Vec<String> = Vec::new();
    log_stream(&mut empty, &Vec::new());
    assert!(empty.is_empty());
}
