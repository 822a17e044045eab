use chess_app::text::csv_escape;

#[test]
fn csv_escape_leaves_plain_fields() {
    assert_eq!(csv_escape("e4"), "e4");
}

#[test]
fn csv_escape_quotes_special_fields() {
    assert_eq!(csv_escape("a,b"), "\"a,b\"");
    assert_eq!(csv_escape("say \"hi\""), "\"say \"\"hi\"\"\"");
    assert_eq!(csv_escape("line\nbreak"), "\"line\nbreak\"");
}

#[test]
fn csv_escape_handles_empty_and_carriage_return() {
    assert_eq!(csv_escape(""), "");
    assert_eq!(csv_escape("a\rb"), "\"a\rb\"");
    assert_eq!(csv_escape("\""), "\"\"\"\"");
}

/// Reads one CSV field back: strips surrounding quotes and undoubles quotes.
fn read_field(f: &str) -> String {
    if f.len() >= 2 && f.starts_with('"') && f.ends_with('"') {
        f[1..f.len() - 1].replace("\"\"", "\"")
    } else {
        f.to_owned()
    }
}

#[test]
fn csv_escape_reads_back() {
    for v in ["", "e4", "a,b", "\"", "\"\"", "say \"hi\", ok", "x\r\ny", "\"start", "end\""] {
        assert_eq!(read_field(&csv_escape(v)), v);
    }
}
