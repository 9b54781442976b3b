use irsc::client::{Client, ConnectionState, Step};
use irsc::command::{BorrowedCommand, Command, OwnedCommand};
use irsc::message::Message;
use irsc::text::{Text, TextSlice};
use irsc::IrscError;

fn connected() -> Client {
    let mut client = Client::new();
    assert_eq!(client.opened(Ok(())), Ok(()));
    client
}

fn listening() -> Client {
    let mut client = connected();
    assert_eq!(client.listen(), Ok(()));
    client
}

fn u(s: &str) -> Text {
    Text::Utf8(s.to_string())
}

#[test]
fn a_new_client_is_disconnected() {
    let client = Client::new();
    assert_eq!(client.current(), ConnectionState::Disconnected);
    assert!(!client.is_connected());
}

#[test]
fn connecting_asks_for_the_endpoint() {
    let client = Client::new();
    let plain = client.connect("irc.example.net", 6667).unwrap();
    assert_eq!(plain.host, "irc.example.net");
    assert_eq!(plain.port, 6667);
    assert!(!plain.secure);
    let secure = client.connect_ssl("irc.example.net", 6697).unwrap();
    assert_eq!(secure.host, "irc.example.net");
    assert_eq!(secure.port, 6697);
    assert!(secure.secure);
    assert_eq!(client.current(), ConnectionState::Disconnected);
}

#[test]
fn connecting_twice_is_refused() {
    let mut client = Client::new();
    assert!(client.connect("irc.example.net", 6667).is_ok());
    assert_eq!(client.opened(Ok(())), Ok(()));
    assert_eq!(client.current(), ConnectionState::Connected);
    assert_eq!(client.connect("irc.example.net", 6667), Err(IrscError::AlreadyConnected));
    assert_eq!(client.connect_ssl("irc.example.net", 6697), Err(IrscError::AlreadyConnected));
    assert_eq!(client.opened(Ok(())), Err(IrscError::AlreadyConnected));
    assert_eq!(client.current(), ConnectionState::Connected);
    assert!(client.send_raw(b"PING :x\r\n").is_ok());
}

#[test]
fn a_failure_to_open_is_handed_back() {
    let mut client = Client::new();
    let refused = IrscError::Io("connection refused".to_string());
    assert_eq!(client.opened(Err(refused.clone())), Err(refused));
    assert_eq!(client.current(), ConnectionState::Disconnected);
    let handshake = IrscError::Ssl("handshake failed".to_string());
    assert_eq!(client.opened(Err(handshake.clone())), Err(handshake));
    assert_eq!(client.current(), ConnectionState::Disconnected);
    assert_eq!(client.opened(Ok(())), Ok(()));
}

#[test]
fn sending_needs_a_connection() {
    let client = Client::new();
    let join: BorrowedCommand = Command::JOIN(vec![TextSlice::Raw(b"#a")], vec![]);
    assert_eq!(client.send(&join), Err(IrscError::NotConnected));
    assert_eq!(client.send_raw(b"JOIN #a\r\n"), Err(IrscError::NotConnected));
    let msg = join.to_message();
    assert_eq!(client.send_message(&msg), Err(IrscError::NotConnected));
}

#[test]
fn a_join_is_sent_before_registration() {
    let client = connected();
    let join: BorrowedCommand = Command::JOIN(vec![TextSlice::Raw(b"#chan")], vec![]);
    assert_eq!(client.send(&join), Ok(b"JOIN #chan\r\n".to_vec()));
    let msg = join.to_message();
    assert_eq!(client.send_message(&msg), Ok(b"JOIN #chan\r\n".to_vec()));
    assert_eq!(client.send_raw(b"JOIN #chan"), Ok(b"JOIN #chan".to_vec()));
}

#[test]
fn listening_needs_a_connection() {
    let mut client = Client::new();
    assert_eq!(client.listen(), Err(IrscError::NotConnected));
    assert_eq!(client.current(), ConnectionState::Disconnected);
    let mut client = connected();
    assert_eq!(client.listen(), Ok(()));
    assert_eq!(client.current(), ConnectionState::Listening);
    assert!(client.send_raw(b"x").is_ok());
    assert_eq!(client.connect("h", 1), Err(IrscError::AlreadyConnected));
    client.closed();
    assert_eq!(client.current(), ConnectionState::Disconnected);
    assert_eq!(client.send_raw(b"x"), Err(IrscError::NotConnected));
    assert!(client.connect("h", 1).is_ok());
}

fn writes(steps: &Vec<Step>) -> Vec<Vec<u8>> {
    let mut all = Vec::new();
    for step in steps {
        if let Step::Write(bytes) = step {
            all.push(bytes.clone());
        }
    }
    all
}

#[test]
fn a_ping_is_answered_before_it_is_dispatched() {
    let client = listening();
    let steps = client.on_line(b"PING :abc123");
    assert_eq!(steps.len(), 2);
    assert_eq!(writes(&steps), vec![b"PONG :abc123\r\n".to_vec()]);
    match &steps[0] {
        Step::Write(bytes) => assert_eq!(bytes, b"PONG :abc123\r\n"),
        Step::Dispatch(_) => panic!("the answer comes first"),
    }
    match &steps[1] {
        Step::Dispatch(msg) => assert_eq!(msg.bytes(), b"PING :abc123"),
        Step::Write(_) => panic!("the message comes last"),
    }
}

#[test]
fn a_ping_is_answered_with_the_same_servers() {
    let one = Message::parse(b"PING :abc123\r\n").unwrap();
    assert_eq!(Client::handle_event(&one), Some(b"PONG :abc123\r\n".to_vec()));
    let two = Message::parse(b":x PING a b").unwrap();
    assert_eq!(Client::handle_event(&two), Some(b"PONG a :b\r\n".to_vec()));
    let spaces = Message::parse(b"PING :a b").unwrap();
    assert_eq!(Client::handle_event(&spaces), Some(b"PONG :a b\r\n".to_vec()));
    let none = Message::parse(b"PING").unwrap();
    assert_eq!(Client::handle_event(&none), None);
    let pong = Message::parse(b"PONG :abc123").unwrap();
    assert_eq!(Client::handle_event(&pong), None);
}

#[test]
fn other_lines_are_dispatched_only() {
    let client = listening();
    let steps = client.on_line(b":a PRIVMSG #c :hi\r\n");
    assert_eq!(steps.len(), 1);
    assert!(writes(&steps).is_empty());
    match &steps[0] {
        Step::Dispatch(msg) => {
            assert_eq!(msg.bytes(), b":a PRIVMSG #c :hi\r\n");
            assert_eq!(msg.command(), TextSlice::Raw(b"PRIVMSG"));
        }
        Step::Write(_) => panic!("nothing is written"),
    }
}

#[test]
fn a_line_that_does_not_parse_is_skipped() {
    let client = listening();
    assert!(client.on_line(b"").is_empty());
    assert!(client.on_line(b"\r\n").is_empty());
    assert!(client.on_line(b":only.a.prefix").is_empty());
    let long = vec![b'x'; 70000];
    assert!(client.on_line(&long).is_empty());
}

#[test]
fn registration_is_pass_nick_user() {
    let with: Vec<OwnedCommand> = Client::register("nick", "user", "A bot", Some("secret"));
    assert_eq!(
        with,
        vec![
            Command::PASS(u("secret")),
            Command::NICK(u("nick")),
            Command::USER(u("user"), u("0"), u("*"), u("A bot")),
        ]
    );
    let lines: Vec<Vec<u8>> = with.iter().map(|c| c.to_message().bytes().to_vec()).collect();
    assert_eq!(
        lines,
        vec![
            b"PASS :secret\r\n".to_vec(),
            b"NICK :nick\r\n".to_vec(),
            b"USER user 0 * :A bot\r\n".to_vec(),
        ]
    );
    let without = Client::register("nick", "user", "A bot", None);
    assert_eq!(
        without,
        vec![Command::NICK(u("nick")), Command::USER(u("user"), u("0"), u("*"), u("A bot"))]
    );
}

#[test]
fn joining_and_talking() {
    assert_eq!(Client::join("#a", None), Command::JOIN(vec![u("#a")], vec![]));
    assert_eq!(Client::join("#a", Some("k")), Command::JOIN(vec![u("#a")], vec![u("k")]));
    assert_eq!(Client::join("#a", Some("k")).to_message().bytes(), b"JOIN #a k\r\n");
    assert_eq!(Client::msg("#a", "hi there"), Command::PRIVMSG(u("#a"), u("hi there")));
    assert_eq!(Client::msg("#a", "hi there").to_message().bytes(), b"PRIVMSG #a :hi there\r\n");
    assert_eq!(
        Client::msg_many("#a", &vec!["one", "two"]),
        vec![Command::PRIVMSG(u("#a"), u("one")), Command::PRIVMSG(u("#a"), u("two"))]
    );
    assert_eq!(Client::msg_many("#a", &vec![]), vec![]);
}

#[test]
fn the_longest_line_is_512_bytes() {
    let text = vec![b'x'; 512 - 14];
    let fits = Message::format(None, b"PRIVMSG", vec![&b"#a"[..]], Some(&text[..]));
    assert_eq!(fits.bytes().len(), 512);
    assert!(!Client::exceeds_line_length(&fits));
    let text = vec![b'x'; 513 - 14];
    let long = Message::format(None, b"PRIVMSG", vec![&b"#a"[..]], Some(&text[..]));
    assert!(Client::exceeds_line_length(&long));
    assert_eq!(irsc::MAX_LINE_LENGTH, 512);
    assert!(Client::fits_line(fits.bytes()));
    assert!(!Client::fits_line(long.bytes()));
    assert_eq!(connected().send_message(&fits), Ok(fits.bytes().to_vec()));
}

#[test]
fn a_long_text_is_sent_in_lines() {
    let all = Client::msg_word_wrap("#a", "the quick  brown fox jumps", 10);
    let raw = |s: &str| Text::Raw(s.as_bytes().to_vec());
    assert_eq!(
        all,
        vec![
            Command::PRIVMSG(u("#a"), raw("the quick")),
            Command::PRIVMSG(u("#a"), raw("brown fox")),
            Command::PRIVMSG(u("#a"), raw("jumps")),
        ]
    );
    assert_eq!(all[0].to_message().bytes(), b"PRIVMSG #a :the quick\r\n");
    assert_eq!(Client::msg_word_wrap("#a", "   ", 10), vec![]);
}

#[test]
fn a_client_that_is_not_listening_takes_no_line() {
    assert!(Client::new().on_line(b"PING :abc123").is_empty());
    assert!(connected().on_line(b"PING :abc123").is_empty());
    let mut client = listening();
    assert_eq!(client.on_line(b"PING :abc123").len(), 2);
    client.closed();
    assert!(client.on_line(b"PING :abc123").is_empty());
}

#[test]
fn a_join_with_keys_is_sent_as_one_line() {
    let client = connected();
    let join: BorrowedCommand =
        Command::JOIN(vec![TextSlice::Raw(b"#a"), TextSlice::Raw(b"#b")], vec![TextSlice::Raw(b"k1")]);
    let sent = client.send(&join).unwrap();
    assert_eq!(sent, b"JOIN #a,#b k1\r\n");
    let parsed = Message::parse(&sent).unwrap();
    assert_eq!(Command::from_message(&parsed), Some(join));
}

#[test]
fn a_long_ping_is_answered_all_the_same() {
    let mut line = b"PING a :".to_vec();
    line.resize(65535, b'x');
    let msg = Message::parse(&line).unwrap();
    let pong = Client::handle_event(&msg).unwrap();
    assert_eq!(pong.len(), 65537);
    assert!(pong.starts_with(b"PONG a :xxx"));
    assert!(pong.ends_with(b"x\r\n"));
}
