use json_buttons::clipboard::{copy_request, CopyRequest, Selection, Target};
use json_buttons::loader::{load, SourceRead};
use json_buttons::panel::Panel;
use json_buttons::report::{LogLine, Stream};
use json_buttons::snippet::Snippet;

fn contents(text: &str) -> SourceRead {
    SourceRead::Contents(text.to_string())
}

fn shown(panel: &Panel) -> Vec<String> {
    (0..panel.len()).map(|n| panel.label(n).unwrap().to_string()).collect()
}

#[test]
fn new_panel_has_no_buttons() {
    let panel = Panel::new();
    assert_eq!(panel.len(), 0);
    assert!(panel.is_empty());
    assert_eq!(panel.label(0), None);
    assert!(panel.click(0).is_none());
}

#[test]
fn example_source_gives_two_buttons_and_beta_copies_beta() {
    let mut panel = Panel::new();
    let line = panel.reload(&contents(r#"[{"item":"alpha"},{"item":"beta"},{"x":"ignored"}]"#));
    assert!(line.is_none());
    assert_eq!(panel.len(), 2);
    assert_eq!(panel.label(0), Some("alpha"));
    assert_eq!(panel.label(1), Some("beta"));
    let request = panel.click(1).unwrap();
    assert_eq!(request.data, b"beta".to_vec());
    assert_eq!(request.selection, Selection::Clipboard);
    assert_eq!(request.target, Target::Utf8Text);
}

#[test]
fn click_asks_for_the_payload_as_utf8_text_on_the_clipboard() {
    let mut panel = Panel::new();
    panel.reload(&contents(r#"[{"item":"alpha"},{"item":"beta"}]"#));
    assert_eq!(
        panel.click(1),
        Some(CopyRequest {
            selection: Selection::Clipboard,
            target: Target::Utf8Text,
            data: vec![0x62, 0x65, 0x74, 0x61],
        })
    );
    assert_eq!(panel.click(1), Some(copy_request("beta")));
}

#[test]
fn reload_returns_the_line_of_the_failure() {
    let mut panel = Panel::new();
    assert_eq!(
        panel.reload(&contents("oops")),
        Some(LogLine { stream: Stream::Stdout, text: "Failed to parse JSON data".to_string() })
    );
    assert_eq!(
        panel.reload(&SourceRead::OpenFailed),
        Some(LogLine { stream: Stream::Stdout, text: "Failed to open file".to_string() })
    );
    assert_eq!(panel.reload(&contents("[]")), None);
}

#[test]
fn click_copies_the_payload_of_the_button_clicked() {
    let mut panel = Panel::new();
    panel.reload(&contents(r#"[{"item":"one"},{"skip":true},{"item":"two"},{"item":"three"}]"#));
    assert_eq!(panel.click(0).unwrap().data, b"one".to_vec());
    assert_eq!(panel.click(1).unwrap().data, b"two".to_vec());
    assert_eq!(panel.click(2).unwrap().data, b"three".to_vec());
    assert_eq!(panel.payload(1), Some("two"));
}

#[test]
fn click_copies_the_payload_and_not_the_label() {
    let mut panel = Panel::new();
    panel.rebuild(&vec![Snippet { label: "shown".to_string(), payload: "copied".to_string() }]);
    assert_eq!(panel.label(0), Some("shown"));
    assert_eq!(panel.payload(0), Some("copied"));
    assert_eq!(panel.click(0).unwrap().data, b"copied".to_vec());
}

#[test]
fn click_encodes_the_payload_as_utf8() {
    let mut panel = Panel::new();
    panel.reload(&contents(r#"[{"item":"héllo ✓ 日本"},{"item":"tab\there"}]"#));
    assert_eq!(panel.click(0).unwrap().data, "héllo ✓ 日本".as_bytes().to_vec());
    assert_eq!(
        panel.click(0).unwrap().data,
        vec![
            0x68, 0xc3, 0xa9, 0x6c, 0x6c, 0x6f, 0x20, 0xe2, 0x9c, 0x93, 0x20, 0xe6, 0x97, 0xa5,
            0xe6, 0x9c, 0xac
        ]
    );
    assert_eq!(panel.click(1).unwrap().data, b"tab\there".to_vec());
}

#[test]
fn click_outside_the_panel_copies_nothing() {
    let mut panel = Panel::new();
    panel.reload(&contents(r#"[{"item":"a"},{"item":"b"}]"#));
    assert!(panel.click(2).is_none());
    assert!(panel.click(usize::MAX).is_none());
    assert_eq!(panel.label(2), None);
    assert_eq!(panel.payload(2), None);
}

#[test]
fn copy_request_asks_for_utf8_text_on_the_clipboard() {
    let request = copy_request("snippet");
    assert_eq!(request.selection, Selection::Clipboard);
    assert_eq!(request.target, Target::Utf8Text);
    assert_eq!(request.data, vec![0x73, 0x6e, 0x69, 0x70, 0x70, 0x65, 0x74]);
    assert!(copy_request("").data.is_empty());
    assert_eq!(copy_request("ß€𝄞").data, vec![0xc3, 0x9f, 0xe2, 0x82, 0xac, 0xf0, 0x9d, 0x84, 0x9e]);
}

#[test]
fn rebuild_shows_one_button_per_record() {
    let records = load(&contents(r#"[{"item":"x"},{"item":"y"},{"item":"z"}]"#)).records;
    let mut panel = Panel::new();
    panel.rebuild(&records);
    assert!(!panel.is_empty());
    assert_eq!(panel.len(), records.len());
    assert_eq!(shown(&panel), vec!["x", "y", "z"]);
}

#[test]
fn rebuild_from_no_records_empties_the_panel() {
    let mut panel = Panel::new();
    panel.reload(&contents(r#"[{"item":"x"}]"#));
    panel.rebuild(&Vec::new());
    assert_eq!(panel.len(), 0);
}

#[test]
fn clear_takes_every_button_off() {
    let mut panel = Panel::new();
    panel.reload(&contents(r#"[{"item":"x"},{"item":"y"}]"#));
    panel.clear();
    assert_eq!(panel.len(), 0);
    assert!(panel.click(0).is_none());
}

#[test]
fn reload_replaces_every_button() {
    let mut panel = Panel::new();
    panel.reload(&contents(r#"[{"item":"old one"},{"item":"old two"},{"item":"stays"}]"#));
    assert_eq!(shown(&panel), vec!["old one", "old two", "stays"]);
    panel.reload(&contents(r#"[{"item":"new"},{"other":"x"},{"item":"stays"}]"#));
    assert_eq!(panel.len(), 2);
    assert_eq!(shown(&panel), vec!["new", "stays"]);
    assert!(!shown(&panel).contains(&"old one".to_string()));
    assert!(!shown(&panel).contains(&"old two".to_string()));
    assert_eq!(panel.click(0).unwrap().data, b"new".to_vec());
}

#[test]
fn reload_with_the_same_source_shows_the_same_buttons() {
    let source = contents(r#"[{"item":"a"},{"item":"b"}]"#);
    let mut panel = Panel::new();
    panel.reload(&source);
    panel.reload(&source);
    assert_eq!(shown(&panel), vec!["a", "b"]);
}

#[test]
fn reload_from_malformed_json_shows_nothing_and_logs_the_parse_failure() {
    let mut panel = Panel::new();
    panel.reload(&contents(r#"[{"item":"before"}]"#));
    let line = panel.reload(&contents(r#"[{"item":"broken""#)).unwrap();
    assert_eq!(panel.len(), 0);
    assert_eq!(line.text, "Failed to parse JSON data");
    assert_eq!(line.stream, Stream::Stdout);
}

#[test]
fn reload_from_a_missing_file_shows_nothing_and_logs_the_open_failure() {
    let mut panel = Panel::new();
    let line = panel.reload(&SourceRead::OpenFailed).unwrap();
    assert_eq!(panel.len(), 0);
    assert_eq!(line.text, "Failed to open file");
    assert_eq!(line.stream, Stream::Stdout);
}

#[test]
fn reload_after_the_file_went_missing_empties_the_panel() {
    let mut panel = Panel::new();
    panel.reload(&contents(r#"[{"item":"before"}]"#));
    let line = panel.reload(&SourceRead::OpenFailed);
    assert!(line.is_some());
    assert_eq!(panel.len(), 0);
}

#[test]
fn reload_from_an_unreadable_file_shows_nothing_and_logs_the_read_failure() {
    let mut panel = Panel::new();
    panel.reload(&contents(r#"[{"item":"before"}]"#));
    let line = panel.reload(&SourceRead::ReadFailed).unwrap();
    assert_eq!(panel.len(), 0);
    assert_eq!(line.text, "Failed to read file");
    assert_eq!(line.stream, Stream::Stdout);
}
