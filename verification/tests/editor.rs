use esp_csi_cli::editor::{recompute_quote_state, Echo, LineEditor, Step};

fn feed(ed: &mut LineEditor, bytes: &[u8]) -> (Vec<u8>, Vec<Echo>) {
    let mut fwd = Vec::new();
    let mut echo = Vec::new();
    for &b in bytes {
        let Step { echo: e, forward } = ed.step(b);
        echo.push(e);
        if let Some(f) = forward {
            fwd.push(f);
        }
    }
    (fwd, echo)
}

#[test]
fn quoted_value_is_forwarded_as_one_word() {
    let mut ed = LineEditor::new();
    let (fwd, _) = feed(&mut ed, b"set-wifi --sta-ssid='My WiFi'\r");
    assert_eq!(fwd, b"set-wifi --sta-ssid=My\x1fWiFi\r".to_vec());
    assert_eq!(ed.open_quote(), None);
}

#[test]
fn other_quote_style_is_literal_inside() {
    let mut ed = LineEditor::new();
    let (fwd, _) = feed(&mut ed, b"--sta-ssid=\"O'Brien\"");
    assert_eq!(fwd, b"--sta-ssid=O'Brien".to_vec());
    let mut ed = LineEditor::new();
    let (fwd, _) = feed(&mut ed, b"'He said \"hi\"'");
    assert_eq!(fwd, b"He\x1fsaid\x1f\"hi\"".to_vec());
}

#[test]
fn space_outside_quotes_is_plain() {
    let mut ed = LineEditor::new();
    let (fwd, echo) = feed(&mut ed, b"a b");
    assert_eq!(fwd, b"a b".to_vec());
    assert_eq!(echo, vec![Echo::Byte(b'a'), Echo::Byte(b' '), Echo::Byte(b'b')]);
}

#[test]
fn backspace_over_a_quote_reopens_nothing() {
    let mut ed = LineEditor::new();
    feed(&mut ed, b"x'");
    assert_eq!(ed.open_quote(), Some(b'\''));
    let s = ed.step(0x7f);
    assert_eq!(s, Step { echo: Echo::EraseChar, forward: None });
    assert_eq!(ed.open_quote(), None);
    let s = ed.step(0x08);
    assert_eq!(s, Step { echo: Echo::Nothing, forward: Some(0x08) });
    let s = ed.step(0x08);
    assert_eq!(s, Step { echo: Echo::Nothing, forward: None });
}

#[test]
fn backspace_after_closing_quote_reopens_the_group() {
    let mut ed = LineEditor::new();
    feed(&mut ed, b"'ab'");
    assert_eq!(ed.open_quote(), None);
    ed.step(0x7f);
    assert_eq!(ed.open_quote(), Some(b'\''));
    // a space is now inside the group again
    assert_eq!(ed.step(b' '), Step { echo: Echo::Space, forward: Some(0x1f) });
}

#[test]
fn newline_drops_a_half_open_quote() {
    let mut ed = LineEditor::new();
    feed(&mut ed, b"'abc");
    assert_eq!(ed.step(b'\r'), Step { echo: Echo::EraseLine, forward: Some(b'\r') });
    assert_eq!(ed.open_quote(), None);
    assert_eq!(ed.step(b' '), Step { echo: Echo::Byte(b' '), forward: Some(b' ') });
}

#[test]
fn full_line_rings_the_bell_once() {
    let mut ed = LineEditor::new();
    let line = vec![b'x'; 256];
    let (fwd, _) = feed(&mut ed, &line);
    assert_eq!(fwd.len(), 256);
    assert_eq!(ed.step(b'y'), Step { echo: Echo::Bell, forward: None });
    assert_eq!(ed.step(b'y'), Step { echo: Echo::Nothing, forward: None });
    assert_eq!(ed.step(b'y'), Step { echo: Echo::Nothing, forward: None });
    // backspace frees one byte and re-arms the bell
    assert_eq!(ed.step(0x7f), Step { echo: Echo::Nothing, forward: Some(0x7f) });
    assert_eq!(ed.step(b'z'), Step { echo: Echo::Byte(b'z'), forward: Some(b'z') });
    assert_eq!(ed.step(b'z'), Step { echo: Echo::Bell, forward: None });
    // submitting empties the line
    ed.step(b'\r');
    assert_eq!(ed.step(b'a'), Step { echo: Echo::Byte(b'a'), forward: Some(b'a') });
}

#[test]
fn line_feed_keeps_the_forwarded_count() {
    let mut ed = LineEditor::new();
    feed(&mut ed, &vec![b'x'; 256]);
    assert_eq!(ed.step(b'\n'), Step { echo: Echo::Nothing, forward: Some(b'\n') });
    assert_eq!(ed.step(b'a'), Step { echo: Echo::Bell, forward: None });
}

#[test]
fn end_of_collection_forgets_the_quote() {
    let mut ed = LineEditor::new();
    feed(&mut ed, b"\"abc");
    ed.end_collection();
    assert_eq!(ed.open_quote(), None);
}

#[test]
fn quote_state_of_a_line() {
    assert_eq!(recompute_quote_state(b""), None);
    assert_eq!(recompute_quote_state(b"'a"), Some(b'\''));
    assert_eq!(recompute_quote_state(b"'a'"), None);
    assert_eq!(recompute_quote_state(b"\"a'b"), Some(b'"'));
    assert_eq!(recompute_quote_state(b"'a\"b'\""), Some(b'"'));
}
