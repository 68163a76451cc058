use pubq_client::chunk::Reassembler;

fn feed(reassembler: &mut Reassembler, frames: &[&str]) -> Vec<String> {
    let mut messages = Vec::new();
    for frame in frames {
        if let Some(message) = reassembler.push(frame.to_string()) {
            messages.push(message);
        }
    }
    messages
}

#[test]
fn three_announced_frames_make_one_message() {
    let mut reassembler = Reassembler::new();
    assert_eq!(reassembler.push("3".to_string()), None);
    assert!(reassembler.is_collecting());
    assert_eq!(reassembler.push("a".to_string()), None);
    assert_eq!(reassembler.push("b".to_string()), None);
    assert_eq!(reassembler.push("c".to_string()), Some("abc".to_string()));
    assert!(!reassembler.is_collecting());
}

#[test]
fn a_frame_that_is_no_count_is_a_message_by_itself() {
    let mut reassembler = Reassembler::new();
    assert_eq!(
        reassembler.push("{\"t\":\"d\"}".to_string()),
        Some("{\"t\":\"d\"}".to_string())
    );
    assert_eq!(reassembler.push("-3".to_string()), Some("-3".to_string()));
    assert_eq!(reassembler.push("".to_string()), Some("".to_string()));
    assert!(!reassembler.is_collecting());
}

#[test]
fn a_count_of_zero_gives_the_empty_message() {
    let mut reassembler = Reassembler::new();
    assert_eq!(reassembler.push("0".to_string()), Some("".to_string()));
    assert!(!reassembler.is_collecting());
}

#[test]
fn chunks_that_look_like_counts_are_text() {
    let mut reassembler = Reassembler::new();
    assert_eq!(feed(&mut reassembler, &["2", "1", "2"]), vec!["12".to_string()]);
    assert!(!reassembler.is_collecting());
}

#[test]
fn messages_follow_one_another() {
    let mut reassembler = Reassembler::new();
    let messages = feed(&mut reassembler, &["2", "{\"a\":", "1}", "plain", "1", "x"]);
    assert_eq!(
        messages,
        vec!["{\"a\":1}".to_string(), "plain".to_string(), "x".to_string()]
    );
}

#[test]
fn a_count_beyond_64_bits_is_text() {
    let mut reassembler = Reassembler::new();
    assert_eq!(
        reassembler.push("99999999999999999999999".to_string()),
        Some("99999999999999999999999".to_string())
    );
}
