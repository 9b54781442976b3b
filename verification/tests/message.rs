use irsc::message::{Message, Mode, SetMode};
use irsc::text::{Text, TextSlice};
use irsc::IrscError;

fn raw(s: &str) -> Text {
    Text::Raw(s.as_bytes().to_vec())
}

#[test]
fn parse_message1() {
    let b = ":d PRIVMSG You :\u{1}ACTION sends you funny pictures of cats!\u{1}\r\n";
    let b2 = Message::new(raw(b), Some(1..2), 3..10, vec![11..14], Some(17..58));
    let parsed = Message::parse(b.as_bytes()).unwrap();
    assert_eq!(parsed.bytes(), b2.clone().bytes());
    assert_eq!(parsed.prefix_range(), b2.prefix_range());
    assert_eq!(parsed.command_range(), b2.command_range());
    assert_eq!(parsed.content_ranges(), b2.content_ranges());
    // The trailing parameter keeps both delimiters and ends in front of the terminator.
    assert_eq!(parsed.suffix_range(), Some(16..58));
    assert!(parsed.is_ctcp());
    assert_eq!(parsed.ctcp_range(), Some(17..57));
    assert_eq!(parsed.byte_range(&(17..58)), b"ACTION sends you funny pictures of cats!\x01");
    assert_eq!(b2.to_string(), b);
}

#[test]
fn parse_message2() {
    let a = ":a.b.c NOTICE AUTH :*** Looking up your hostname...\r\n";
    let a2 = Message::new(raw(a), Some(1..6), 7..13, vec![14..18], Some(20..52));
    let parsed = Message::parse(a.as_bytes()).unwrap();
    assert_eq!(parsed.bytes(), a2.clone().bytes());
    assert_eq!(parsed.prefix_range(), a2.prefix_range());
    assert_eq!(parsed.command_range(), a2.command_range());
    assert_eq!(parsed.content_ranges(), a2.content_ranges());
    // The trailing parameter ends in front of the terminator.
    assert_eq!(parsed.suffix_range(), Some(20..51));
    assert_eq!(parsed.byte_range(&(20..52)), b"*** Looking up your hostname...\r");
    assert!(!parsed.is_ctcp());
    assert_eq!(a2.to_string(), a);
}

#[test]
fn format_message() {
    let a = Message::format(
        Some("a.b.c".as_bytes()),
        "NOTICE".as_bytes(),
        vec!["AUTH".as_bytes()],
        Some("*** Looking up your hostname...".as_bytes()),
    );
    let a2 = ":a.b.c NOTICE AUTH :*** Looking up your hostname...\r\n";
    assert_eq!(a.to_string(), a2);
}

#[test]
fn format_records_where_the_parts_lie() {
    let a = Message::format(
        Some("a.b.c".as_bytes()),
        "NOTICE".as_bytes(),
        vec!["AUTH".as_bytes()],
        Some("*** Looking up your hostname...".as_bytes()),
    );
    assert_eq!(a.prefix_range(), Some(1..6));
    assert_eq!(a.command_range(), 7..13);
    assert_eq!(a.content_ranges(), vec![14..18]);
    assert_eq!(a.suffix_range(), Some(20..51));
    assert_eq!(a.prefix(), Some(TextSlice::Raw(b"a.b.c")));
    assert_eq!(a.command(), TextSlice::Raw(b"NOTICE"));
    assert_eq!(a.content(), vec![TextSlice::Raw(b"AUTH")]);
    assert_eq!(a.suffix(), Some(TextSlice::Raw(b"*** Looking up your hostname...")));
}

#[test]
fn parsed_parts_are_slices_of_the_line() {
    let m = Message::parse(b":a.b.c NOTICE AUTH :*** Looking up your hostname...").unwrap();
    assert_eq!(m.prefix(), Some(TextSlice::Raw(b"a.b.c")));
    assert_eq!(m.command(), TextSlice::Raw(b"NOTICE"));
    assert_eq!(m.content(), vec![TextSlice::Raw(b"AUTH")]);
    assert_eq!(m.suffix(), Some(TextSlice::Raw(b"*** Looking up your hostname...")));
    assert_eq!(m.last(), Some(TextSlice::Raw(b"*** Looking up your hostname...")));
    assert_eq!(
        m.elements(),
        vec![TextSlice::Raw(b"AUTH"), TextSlice::Raw(b"*** Looking up your hostname...")]
    );
    assert_eq!(m.tag_count(), 0);
}

#[test]
fn a_line_without_a_command_word_does_not_parse() {
    assert_eq!(Message::parse(b"").err(), Some(IrscError::NotFound));
    assert_eq!(Message::parse(b"\r\n").err(), Some(IrscError::NotFound));
    assert_eq!(Message::parse(b"   ").err(), Some(IrscError::NotFound));
    assert_eq!(Message::parse(b":prefix.only").err(), Some(IrscError::NotFound));
    assert_eq!(Message::parse(b":prefix.only \r\n").err(), Some(IrscError::NotFound));
}

#[test]
fn a_command_word_alone_parses() {
    let m = Message::parse(b"PING").unwrap();
    assert_eq!(m.prefix_range(), None);
    assert_eq!(m.command_range(), 0..4);
    assert_eq!(m.content_ranges(), vec![]);
    assert_eq!(m.suffix_range(), None);
    assert_eq!(m.last(), None);
}

#[test]
fn runs_of_spaces_give_no_empty_parameters() {
    let m = Message::parse(b"PRIVMSG  #a   b  :hi  there \r\n").unwrap();
    assert_eq!(m.command(), TextSlice::Raw(b"PRIVMSG"));
    assert_eq!(m.content(), vec![TextSlice::Raw(b"#a"), TextSlice::Raw(b"b")]);
    assert_eq!(m.suffix(), Some(TextSlice::Raw(b"hi  there ")));
    let spaces_at_the_end = Message::parse(b"JOIN #a   ").unwrap();
    assert_eq!(spaces_at_the_end.content(), vec![TextSlice::Raw(b"#a")]);
    assert_eq!(spaces_at_the_end.suffix(), None);
}

#[test]
fn the_trailing_parameter_may_be_empty() {
    let m = Message::parse(b"TOPIC #a :").unwrap();
    assert_eq!(m.suffix_range(), Some(10..10));
    assert_eq!(m.suffix(), Some(TextSlice::Raw(b"")));
    assert!(!m.is_ctcp());
}

#[test]
fn the_prefix_may_be_empty() {
    let m = Message::parse(b": NOTICE x").unwrap();
    assert_eq!(m.prefix_range(), Some(1..1));
    assert_eq!(m.command(), TextSlice::Raw(b"NOTICE"));
}

#[test]
fn only_one_terminator_is_taken_off() {
    let m = Message::parse(b"PRIVMSG a :text\r\n\r\n").unwrap();
    assert_eq!(m.suffix(), Some(TextSlice::Raw(b"text\r\n")));
    let lone = Message::parse(b"PRIVMSG a :text\n").unwrap();
    assert_eq!(lone.suffix(), Some(TextSlice::Raw(b"text\n")));
}

#[test]
fn a_line_too_long_for_its_offsets_does_not_parse() {
    let mut line = b"PRIVMSG a :".to_vec();
    line.resize(65535, b'x');
    assert!(Message::parse(&line).is_ok());
    line.push(b'x');
    assert_eq!(Message::parse(&line).err(), Some(IrscError::TooLong));
    assert_eq!(Message::parse(b"    ").err(), Some(IrscError::NotFound));
}

#[test]
fn a_line_too_long_for_its_offsets_is_not_formatted() {
    // "PRIVMSG " + "a " + ":" + text + terminator
    let text = vec![b'x'; 65535 - 13];
    let fits = Message::try_format(None, b"PRIVMSG", &vec![&b"a"[..]], Some(&text[..]));
    assert_eq!(fits.unwrap().bytes().len(), 65535);
    let text = vec![b'x'; 65535 - 12];
    assert!(Message::try_format(None, b"PRIVMSG", &vec![&b"a"[..]], Some(&text[..])).is_none());
    let line = Message::wire_bytes(None, b"PRIVMSG", &vec![&b"a"[..]], Some(&text[..]));
    assert_eq!(line.len(), 65536);
    assert!(line.starts_with(b"PRIVMSG a :xxx"));
    assert!(line.ends_with(b"xxx\r\n"));
}

#[test]
fn formatting_without_prefix_and_trailing() {
    let m = Message::format(None, b"JOIN", vec![&b"#a,#b"[..], &b"k1"[..]], None);
    assert_eq!(m.bytes(), b"JOIN #a,#b k1\r\n");
    assert_eq!(m.content_ranges(), vec![5..10, 11..13]);
    let bare = Message::format(None, b"QUIT", vec![], None);
    assert_eq!(bare.bytes(), b"QUIT\r\n");
    let nick = Message::format(None, b"NICK", vec![&b"Wiz"[..]], None);
    assert_eq!(nick.bytes(), b"NICK Wiz\r\n");
    assert_eq!(nick.bytes().len(), 10);
    let prefixed = Message::format(Some(b"a!b@c"), b"PART", vec![&b"#x"[..]], None);
    assert_eq!(prefixed.bytes(), b":a!b@c PART #x\r\n");
    assert_eq!(Message::wire_bytes(None, b"NICK", &vec![&b"Wiz"[..]], None), b"NICK Wiz\r\n");
    assert_eq!(bare.command_range(), 0..4);
}

#[test]
fn the_trailing_parameter_always_gets_its_colon() {
    let m = Message::format(None, b"PRIVMSG", vec![&b"#chan"[..]], Some(b"hello"));
    assert_eq!(m.bytes(), b"PRIVMSG #chan :hello\r\n");
}

#[test]
fn parsing_a_formatted_line_finds_the_parts_again() {
    let prefix: &[u8] = b"nick!user@host";
    let command: &[u8] = b"KICK";
    let params: Vec<&[u8]> = vec![b"#a,#b", b"x,y"];
    let trailing: &[u8] = b" :two  spaces and a colon ";
    let formatted = Message::format(Some(prefix), command, params.clone(), Some(trailing));
    let parsed = Message::parse(formatted.bytes()).unwrap();
    assert_eq!(parsed.prefix_range(), formatted.prefix_range());
    assert_eq!(parsed.command_range(), formatted.command_range());
    assert_eq!(parsed.content_ranges(), formatted.content_ranges());
    assert_eq!(parsed.suffix_range(), formatted.suffix_range());
    assert_eq!(parsed.prefix(), Some(TextSlice::Raw(prefix)));
    assert_eq!(parsed.command(), TextSlice::Raw(command));
    assert_eq!(parsed.content(), vec![TextSlice::Raw(b"#a,#b"), TextSlice::Raw(b"x,y")]);
    assert_eq!(parsed.suffix(), Some(TextSlice::Raw(trailing)));
    let again = Message::format(
        parsed.prefix().map(|p| p.as_bytes()),
        parsed.command().as_bytes(),
        parsed.content().iter().map(|p| p.as_bytes()).collect(),
        parsed.suffix().map(|p| p.as_bytes()),
    );
    assert_eq!(again.bytes(), formatted.bytes());
}

#[test]
fn ctcp_framing_is_recognised() {
    let m = Message::parse(b":d PRIVMSG You :\x01ACTION waves\x01").unwrap();
    assert_eq!(m.suffix(), Some(TextSlice::Raw(b"\x01ACTION waves\x01")));
    assert!(m.is_ctcp());
    assert_eq!(m.ctcp_content(), Some(TextSlice::Raw(b"ACTION waves")));
}

#[test]
fn one_delimiter_frames_nothing() {
    let m = Message::parse(b"PRIVMSG You :\x01").unwrap();
    assert!(!m.is_ctcp());
    assert_eq!(m.ctcp_content(), None);
    assert_eq!(m.ctcp_range(), None);
    let empty = Message::parse(b"PRIVMSG You :\x01\x01").unwrap();
    assert!(empty.is_ctcp());
    assert_eq!(empty.ctcp_content(), Some(TextSlice::Raw(b"")));
    let open = Message::parse(b"PRIVMSG You :\x01ACTION waves").unwrap();
    assert!(!open.is_ctcp());
    let no_trailing = Message::parse(b"PRIVMSG You \x01x\x01").unwrap();
    assert!(!no_trailing.is_ctcp());
}

#[test]
fn ranges_give_bytes_text_and_strings() {
    let m = Message::parse(b":a PRIVMSG b :caf\xc3\xa9 \xff").unwrap();
    assert_eq!(m.byte_range(&(3..10)), b"PRIVMSG");
    assert_eq!(m.text_range(&(3..10)), TextSlice::Raw(b"PRIVMSG"));
    assert_eq!(m.str_range(&(3..10)), Some("PRIVMSG"));
    assert_eq!(m.str_range(&(14..19)), Some("caf\u{e9}"));
    assert_eq!(m.str_range(&(14..21)), None);
    assert_eq!(m.string_range(&(14..21)), "caf\u{e9} \u{fffd}");
    assert_eq!(m.to_string(), ":a PRIVMSG b :caf\u{e9} \u{fffd}");
}

#[test]
fn a_message_over_a_string_gives_strings() {
    let line = "PRIVMSG b :caf\u{e9}";
    let m = Message::new(Text::Utf8(line.to_string()), None, 0..7, vec![8..9], Some(11..16));
    assert_eq!(m.command(), TextSlice::Utf8("PRIVMSG"));
    assert_eq!(m.suffix(), Some(TextSlice::Utf8("caf\u{e9}")));
    // A range that cuts a character in two gives its bytes.
    assert_eq!(m.text_range(&(11..15)), TextSlice::Raw(b"caf\xc3"));
    assert_eq!(m.source(), &Text::Utf8(line.to_string()));
}

#[test]
fn the_sender_is_taken_apart() {
    let m = Message::parse(b":WiZ!jto@tolsun.oulu.fi NICK Kilroy").unwrap();
    let who = m.ident().unwrap();
    assert_eq!(who.nickname, "WiZ");
    assert_eq!(who.user, "jto");
    assert_eq!(who.host, "tolsun.oulu.fi");
    let server = Message::parse(b":irc.example.net NOTICE AUTH :hi").unwrap();
    assert_eq!(server.ident(), None);
    let none = Message::parse(b"NOTICE AUTH :hi").unwrap();
    assert_eq!(none.ident(), None);
    let not_text = Message::parse(b":a\xff!b@c NOTICE AUTH :hi").unwrap();
    assert_eq!(not_text.ident(), None);
}

#[test]
fn a_copy_has_the_same_line_and_parts() {
    let m = Message::parse(b":a.b.c NOTICE AUTH :hi\r\n").unwrap();
    let copy = m.clone();
    assert_eq!(copy.bytes(), m.bytes());
    assert_eq!(copy.prefix_range(), m.prefix_range());
    assert_eq!(copy.command_range(), m.command_range());
    assert_eq!(copy.content_ranges(), m.content_ranges());
    assert_eq!(copy.suffix_range(), m.suffix_range());
    assert_eq!(copy.tag_count(), 0);
}

#[test]
fn ranges_must_lie_in_the_line_one_behind_the_other() {
    let line = ":a.b.c NOTICE AUTH :hi";
    let ok = Message::try_new(raw(line), Some(1..6), 7..13, vec![14..18], Some(20..22)).unwrap();
    assert_eq!(ok.suffix(), Some(TextSlice::Raw(b"hi")));
    assert!(Message::try_new(raw(line), None, 7..13, vec![], None).is_some());
    assert!(Message::try_new(raw(line), None, 0..0, vec![0..0, 0..0], Some(0..0)).is_some());
    // past the end
    assert!(Message::try_new(raw(line), None, 7..13, vec![], Some(20..23)).is_none());
    assert!(Message::try_new(raw(line), None, 7..23, vec![], None).is_none());
    assert!(Message::try_new(raw(line), None, 7..13, vec![14..30], None).is_none());
    // backwards
    assert!(Message::try_new(raw(line), None, 13..7, vec![], None).is_none());
    assert!(Message::try_new(raw(line), Some(6..1), 7..13, vec![], None).is_none());
    // out of order
    assert!(Message::try_new(raw(line), Some(1..8), 7..13, vec![], None).is_none());
    assert!(Message::try_new(raw(line), None, 7..13, vec![12..18], None).is_none());
    assert!(Message::try_new(raw(line), None, 7..13, vec![14..18, 16..19], None).is_none());
    assert!(Message::try_new(raw(line), None, 7..13, vec![14..18], Some(17..22)).is_none());
    assert!(Message::try_new(raw(line), None, 7..13, vec![], Some(12..22)).is_none());
    assert!(Message::ranges_are_parts(22, &Some(1..6), &(7..13), &vec![14..18], &Some(20..22)));
    assert!(!Message::ranges_are_parts(21, &Some(1..6), &(7..13), &vec![14..18], &Some(20..22)));
    assert!(ok.covers(&(0..22)));
    assert!(!ok.covers(&(0..23)));
    assert!(!ok.covers(&(5..4)));
}

#[test]
fn modes_are_plain_values() {
    assert_eq!(Mode::Custom("x".to_string()).clone(), Mode::Custom("x".to_string()));
    assert_ne!(Mode::Away, Mode::Invisible);
    assert_ne!(Mode::Operator, Mode::LocalOperator);
    assert_eq!(SetMode::Plus, SetMode::Plus);
    assert_ne!(SetMode::Plus, SetMode::Minus);
}

#[test]
fn an_empty_parameter_is_not_found_again() {
    let formatted = Message::format(None, b"TOPIC", vec![&b""[..]], None);
    assert_eq!(formatted.bytes(), b"TOPIC \r\n");
    assert_eq!(formatted.content(), vec![TextSlice::Raw(b"")]);
    let parsed = Message::parse(formatted.bytes()).unwrap();
    assert_eq!(parsed.command(), TextSlice::Raw(b"TOPIC"));
    assert_eq!(parsed.content(), vec![]);
}

#[test]
fn parts_of_a_raw_line_are_raw_and_parts_of_a_string_are_strings() {
    let raw_line = Message::parse(b":a PRIVMSG b :hi").unwrap();
    assert!(raw_line.elements().iter().all(|t| t.raw().is_some()));
    let line = "PRIVMSG b,c :caf\u{e9}";
    let m = Message::new(Text::Utf8(line.to_string()), None, 0..7, vec![8..11], Some(13..18));
    assert_eq!(m.elements(), vec![TextSlice::Utf8("b,c"), TextSlice::Utf8("caf\u{e9}")]);
    assert_eq!(m.last(), Some(TextSlice::Utf8("caf\u{e9}")));
    let cut = Message::new(Text::Utf8(line.to_string()), None, 0..7, vec![8..11], Some(13..17));
    assert_eq!(cut.last(), Some(TextSlice::Raw(b"caf\xc3")));
}
