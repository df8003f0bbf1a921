use peer_chat::{
    add_contact_command, decode, decode_frame, encode, handle_user_input, is_blank_text, is_ip_addr,
    is_whitespace_char, print_command, resolve, send_message, send_message_command, str_equals,
    Action, Contact, Inbox, Message, SendPlan, DELIMITER,
};
use peer_chat::text::{split_char, split_words, trim};

fn message(sender: &str, body: &str) -> Message {
    Message { sender: sender.to_string(), body: body.to_string() }
}

fn contact(name: &str, address: &str) -> Contact {
    Contact { name: name.to_string(), address: address.to_string() }
}

#[test]
fn encode_joins_sender_and_body() {
    assert_eq!(DELIMITER, "%%");
    assert_eq!(encode("bob", "hello"), "bob%%hello");
    assert_eq!(encode("", ""), "%%");
}

#[test]
fn round_trip_gives_sender_and_body_back() {
    for (s, b) in [("bob", "hello"), ("alice", "a longer message, with % signs"), ("x", ""), ("", "y")] {
        let m = decode(&encode(s, b)).expect("a frame with a delimiter is never blank");
        assert_eq!(m.sender, s);
        assert_eq!(m.body, b);
    }
}

#[test]
fn sender_ending_in_percent_merges_with_delimiter() {
    let m = decode(&encode("a%", "b")).unwrap();
    assert_eq!(m.sender, "a");
    assert_eq!(m.body, "%b");
}

#[test]
fn malformed_frame_without_delimiter_has_empty_body() {
    let m = decode("nodata").unwrap();
    assert_eq!(m.sender, "nodata");
    assert_eq!(m.body, "");
}

#[test]
fn body_is_cut_at_a_second_delimiter() {
    let m = decode("bob%%one%%two").unwrap();
    assert_eq!(m.sender, "bob");
    assert_eq!(m.body, "one");
    let m = decode("%%%x").unwrap();
    assert_eq!(m.sender, "");
    assert_eq!(m.body, "%x");
}

#[test]
fn frame_keeps_surrounding_whitespace() {
    let m = decode(" bob %%hi \n").unwrap();
    assert_eq!(m.sender, " bob ");
    assert_eq!(m.body, "hi \n");
}

#[test]
fn blank_frames_are_discarded() {
    for t in ["", " ", "\n", "\t \r\n", "\u{a0}\u{3000}"] {
        assert!(decode(t).is_none());
        let mut inbox = Inbox::new();
        assert!(!inbox.receive(t.as_bytes()));
        assert!(decode_frame(t.as_bytes()).is_none());
        assert!(inbox.is_empty());
    }
}

#[test]
fn whitespace_matches_std() {
    for u in 0u32..0x3100 {
        if let Some(c) = char::from_u32(u) {
            assert_eq!(is_whitespace_char(c), c.is_whitespace(), "{:x}", u);
        }
    }
    assert!(is_blank_text("  \t"));
    assert!(!is_blank_text(" x "));
}

#[test]
fn received_bytes_are_read_lossily() {
    let mut inbox = Inbox::new();
    assert!(inbox.receive(&[0xff, b'%', b'%', b'h', b'i']));
    let got = inbox.drain();
    assert_eq!(got.len(), 1);
    assert_eq!(got[0].sender, "\u{fffd}");
    assert_eq!(got[0].body, "hi");
}

#[test]
fn drain_yields_every_append_once_in_order() {
    let mut inbox = Inbox::new();
    let n = 50;
    for i in 0..n {
        inbox.append(message(&format!("peer{}", i % 3), &format!("m{}", i)));
    }
    assert_eq!(inbox.len(), n);
    let got = inbox.drain();
    assert_eq!(got.len(), n);
    for (i, m) in got.iter().enumerate() {
        assert_eq!(m.body, format!("m{}", i));
    }
    assert!(inbox.is_empty());
    assert_eq!(inbox.drain().len(), 0);
}

#[test]
fn appends_through_a_lock_are_all_drained() {
    let inbox = std::sync::Arc::new(std::sync::Mutex::new(Inbox::new()));
    for i in 0..20 {
        let frame = encode(&format!("p{}", i), "x");
        assert!(inbox.lock().unwrap().receive(frame.as_bytes()));
    }
    let got = inbox.lock().unwrap().drain();
    assert_eq!(got.len(), 20);
    let mut senders: Vec<String> = got.into_iter().map(|m| m.sender).collect();
    senders.sort();
    senders.dedup();
    assert_eq!(senders.len(), 20);
}

#[test]
fn draining_an_empty_inbox_gives_nothing() {
    let mut inbox = Inbox::new();
    assert!(inbox.drain().is_empty());
    assert!(inbox.is_empty());
    assert!(inbox.drain_lines().is_empty());
}

#[test]
fn drained_lines_show_sender_and_body() {
    let mut inbox = Inbox::new();
    inbox.append(message("bob", "hello"));
    inbox.append(message("amy", "hi"));
    assert_eq!(message("bob", "hello").render(), "<bob>: hello");
    assert_eq!(inbox.drain_lines(), vec!["<bob>: hello".to_string(), "<amy>: hi".to_string()]);
    assert_eq!(inbox.len(), 0);
}

#[test]
fn raw_addresses_are_recognised() {
    assert!(is_ip_addr("127.0.0.1:9001"));
    assert!(is_ip_addr("10.0.0.255:1"));
    assert!(!is_ip_addr("bob"));
    assert!(!is_ip_addr("127.0.0.1"));
    assert!(!is_ip_addr("127.0.0.1:90x"));
    assert!(!is_ip_addr("a127.0.0.1:9001"));
    assert!(!is_ip_addr(""));
}

#[test]
fn resolve_prefers_raw_address_then_first_contact() {
    let cs = vec![contact("bob", "127.0.0.1:9001"), contact("bob", "127.0.0.1:9005")];
    assert_eq!(resolve("bob", &cs).as_deref(), Some("127.0.0.1:9001"));
    assert_eq!(resolve("127.0.0.1:7000", &cs).as_deref(), Some("127.0.0.1:7000"));
    assert_eq!(resolve("carol", &cs), None);
    assert_eq!(resolve("Bob", &cs), None);
}

#[test]
fn tokenizer_helpers() {
    assert_eq!(trim("  send x \n"), "send x");
    assert_eq!(trim(" \t "), "");
    assert_eq!(split_char("a\"b\"\"c", '"'), vec!["a", "b", "", "c"]);
    assert_eq!(split_char("", '"'), vec![""]);
    assert_eq!(split_words("  send  bob\t x "), vec!["send", "bob", "x"]);
    assert!(split_words("   ").is_empty());
    assert!(str_equals("abc", "abc"));
    assert!(!str_equals("abc", "abd"));
    assert!(!str_equals("abc", "ab"));
}

#[test]
fn add_contact_command_saves_or_complains() {
    let mut cs = Vec::new();
    assert_eq!(add_contact_command(&mut cs, &["add"]), Err("Name not specified".to_string()));
    assert_eq!(add_contact_command(&mut cs, &["add", "bob"]), Err("Address not specified".to_string()));
    assert!(cs.is_empty());
    assert_eq!(add_contact_command(&mut cs, &["add", "bob", "127.0.0.1:9001", "extra"]), Ok(()));
    assert_eq!(cs.len(), 1);
    assert_eq!(cs[0].name, "bob");
    assert_eq!(cs[0].address, "127.0.0.1:9001");
}

#[test]
fn send_message_command_errors() {
    let cs = Vec::new();
    assert_eq!(
        send_message_command(&["send"], &["send"], &cs).err(),
        Some("Recipient not specified".to_string())
    );
    assert_eq!(
        send_message_command(&["send", "bob"], &["send bob "], &cs).err(),
        Some("Message not specified".to_string())
    );
}

#[test]
fn unknown_recipient_is_reported_without_delivery() {
    let mut cs = vec![contact("bob", "127.0.0.1:9001")];
    let r = handle_user_input("send carol \"hello\"", &mut cs);
    assert!(matches!(r, Ok(Action::UnknownRecipient)));
    let r = handle_user_input("send 127.0.0.1 \"hello\"", &mut cs);
    assert!(matches!(r, Ok(Action::UnknownRecipient)));
    assert_eq!(cs.len(), 1);
}

#[test]
fn command_lines_are_dispatched() {
    let mut cs = Vec::new();
    assert!(matches!(handle_user_input("  add bob 127.0.0.1:9001\n", &mut cs), Ok(Action::Continue)));
    assert_eq!(cs.len(), 1);
    match handle_user_input("send bob \"hello there\"", &mut cs) {
        Ok(Action::Deliver { address, body }) => {
            assert_eq!(address, "127.0.0.1:9001");
            assert_eq!(body, "hello there");
        }
        _ => panic!("expected a delivery"),
    }
    match handle_user_input("send 127.0.0.1:9002 \"x\" trailing \"y\"", &mut cs) {
        Ok(Action::Deliver { address, body }) => {
            assert_eq!(address, "127.0.0.1:9002");
            assert_eq!(body, "x");
        }
        _ => panic!("expected a delivery"),
    }
    assert_eq!(handle_user_input("send", &mut cs).err(), Some("Recipient not specified".to_string()));
    assert_eq!(handle_user_input("send bob", &mut cs).err(), Some("Message not specified".to_string()));
    assert_eq!(handle_user_input("add bob", &mut cs).err(), Some("Address not specified".to_string()));
    assert!(matches!(handle_user_input("print contacts", &mut cs), Ok(Action::ListContacts)));
    assert!(matches!(handle_user_input("print", &mut cs), Ok(Action::InvalidPrint)));
    assert!(matches!(handle_user_input("print people", &mut cs), Ok(Action::InvalidPrint)));
    assert!(matches!(handle_user_input("help", &mut cs), Ok(Action::Help)));
    assert!(matches!(handle_user_input("listen", &mut cs), Ok(Action::Listen)));
    assert!(matches!(handle_user_input("quit\n", &mut cs), Ok(Action::Quit)));
    assert!(matches!(handle_user_input("", &mut cs), Ok(Action::InvalidInput)));
    assert!(matches!(handle_user_input("SEND bob \"x\"", &mut cs), Ok(Action::InvalidInput)));
    assert!(matches!(print_command(&["print", "contacts"]), Action::ListContacts));
    assert_eq!(cs.len(), 1);
}

#[test]
fn delivery_between_two_peers() {
    // B sends ("bob", "hello") to A, which is reachable.
    let plan = send_message("bob", "127.0.0.1:9001", "hello", true);
    let frame = match plan {
        SendPlan::Transmit { address, frame } => {
            assert_eq!(address, "127.0.0.1:9001");
            frame
        }
        SendPlan::Offline => panic!("the peer is reachable"),
    };
    // A's listener receives the bytes and appends them to its inbox.
    let mut inbox_a = Inbox::new();
    assert!(inbox_a.receive(frame.as_bytes()));
    let got = inbox_a.drain();
    assert_eq!(got.len(), 1);
    assert_eq!(got[0].sender, "bob");
    assert_eq!(got[0].body, "hello");
    assert!(inbox_a.is_empty());
}

#[test]
fn unreachable_peer_is_reported_offline() {
    let plan = send_message("bob", "127.0.0.1:9999", "hello", false);
    assert!(matches!(plan, SendPlan::Offline));
}
