use irsc::event::{BorrowedEvent, Event};
use irsc::message::Message;
use irsc::reply::{BorrowedReply, OwnedReply, Reply};
use irsc::command::Command;
use irsc::text::{Text, TextSlice};

fn r(s: &str) -> TextSlice<'_> {
    TextSlice::Raw(s.as_bytes())
}

fn t(s: &str) -> Text {
    Text::Raw(s.as_bytes().to_vec())
}

#[test]
fn a_welcome_is_read() {
    let msg = Message::parse(b":irc.example.net 001 nick :Welcome to the network nick").unwrap();
    assert_eq!(
        Reply::from_message(&msg),
        Some(Reply::RPL_WELCOME(r("Welcome to the network nick")))
    );
}

#[test]
fn the_text_of_a_reply_is_the_last_parameter() {
    let msg = Message::parse(b":server 433 * nick").unwrap();
    assert_eq!(Reply::from_message(&msg), Some(Reply::ERR_NICKNAMEINUSE(r("nick"))));
    let none = Message::parse(b":server 433").unwrap();
    assert_eq!(Reply::from_message(&none), None);
}

#[test]
fn the_start_of_a_list_has_no_text() {
    let msg = Message::parse(b":server 321 nick Channel :Users  Name").unwrap();
    assert_eq!(Reply::from_message(&msg), Some(Reply::RPL_LISTSTART));
    let bare = Message::parse(b"321").unwrap();
    assert_eq!(Reply::from_message(&bare), Some(Reply::RPL_LISTSTART));
    let written: BorrowedReply = Reply::RPL_LISTSTART;
    assert_eq!(written.to_message().bytes(), b"321\r\n");
}

#[test]
fn an_unknown_numeric_is_no_reply() {
    for line in ["000 x", "999 x", "320 x", "PRIVMSG a b", "01 x", "0011 x", "4o1 x"] {
        let msg = Message::parse(line.as_bytes()).unwrap();
        assert_eq!(Reply::from_message(&msg), None);
    }
}

#[test]
fn a_reply_is_written() {
    let reply: BorrowedReply = Reply::ERR_NOSUCHNICK(r("nick :No such nick/channel"));
    assert_eq!(reply.to_message().bytes(), b"401 :nick :No such nick/channel\r\n");
    let owned: OwnedReply = Reply::RPL_WELCOME(t("hi"));
    assert_eq!(owned.to_message().bytes(), b"001 :hi\r\n");
    let long = vec![b'x'; 70000];
    let too_long: BorrowedReply = Reply::RPL_MOTD(TextSlice::Raw(&long));
    assert!(too_long.try_to_message().is_none());
}

#[test]
fn written_replies_come_back() {
    let all: Vec<OwnedReply> = vec![
        Reply::RPL_WELCOME(t("Welcome")),
        Reply::RPL_BOUNCE(t("")),
        Reply::RPL_LISTSTART,
        Reply::RPL_TRYAGAIN(t("a b  c")),
        Reply::ERR_USERSDONTMATCH(t(":x")),
    ];
    for reply in all {
        let line = reply.to_message();
        let parsed = Message::parse(line.bytes()).unwrap();
        assert_eq!(Reply::from_message(&parsed).map(|r| r.to_owned()), Some(reply));
    }
}

#[test]
fn a_reply_has_its_numeric_and_its_text() {
    let reply: OwnedReply = Reply::ERR_NEEDMOREPARAMS(t("JOIN :Not enough parameters"));
    assert_eq!(reply.code(), 461);
    assert_eq!(reply.text(), Some(&t("JOIN :Not enough parameters")));
    assert_eq!(reply.borrow(), Reply::ERR_NEEDMOREPARAMS(r("JOIN :Not enough parameters")));
    assert_eq!(reply.borrow().to_owned(), reply);
    let start: OwnedReply = Reply::RPL_LISTSTART;
    assert_eq!(start.code(), 321);
    assert_eq!(start.text(), None);
    assert_eq!(start.borrow(), Reply::RPL_LISTSTART);
    assert_eq!(Reply::with_code(1, 7u8), Some(Reply::RPL_WELCOME(7u8)));
    assert_eq!(Reply::with_code(502, 7u8), Some(Reply::ERR_USERSDONTMATCH(7u8)));
    assert_eq!(Reply::with_code(321, 7u8), None);
    assert_eq!(Reply::with_code(2000, 7u8), None);
}

#[test]
fn a_message_is_classified_as_command_then_reply() {
    let notice = Message::parse(b":a.b.c NOTICE AUTH :*** Looking up your hostname...").unwrap();
    assert_eq!(
        Event::classify(&notice),
        Some(Event::Command(Command::NOTICE(r("AUTH"), r("*** Looking up your hostname..."))))
    );
    let welcome = Message::parse(b":a.b.c 001 nick :Welcome").unwrap();
    assert_eq!(Event::classify(&welcome), Some(Event::Reply(Reply::RPL_WELCOME(r("Welcome")))));
    let neither = Message::parse(b":a.b.c FROB x").unwrap();
    assert_eq!(Event::classify(&neither), None);
    let too_few = Message::parse(b"PRIVMSG #a").unwrap();
    assert_eq!(Event::classify(&too_few), None);
}

#[test]
fn classifying_twice_gives_the_same_event() {
    for line in [":a PRIVMSG #c :hi", ":s 372 n :- motd", "FROB", "JOIN #a,#b k", "JOIN"] {
        let msg = Message::parse(line.as_bytes()).unwrap();
        let first = Event::classify(&msg);
        let second = Event::classify(&msg);
        assert_eq!(first, second);
        let copy = msg.clone();
        assert_eq!(
            Event::classify(&copy).map(|e| e.to_static()),
            first.map(|e| e.to_static())
        );
    }
}

#[test]
fn an_owned_event_is_the_same_event() {
    let msg = Message::parse(b":a PRIVMSG #c :hi").unwrap();
    let event = Event::classify(&msg).unwrap();
    assert_eq!(event.to_static(), Event::Command(Command::PRIVMSG(t("#c"), t("hi"))));
    let reply = Message::parse(b":s 001 n :hi").unwrap();
    let event = Event::classify(&reply).unwrap();
    assert_eq!(event.to_static(), Event::Reply(Reply::RPL_WELCOME(t("hi"))));
    let connected: BorrowedEvent = Event::Connected;
    assert_eq!(connected.to_static(), Event::Connected);
    let disconnected: BorrowedEvent = Event::Disconnected;
    assert_eq!(disconnected.to_static(), Event::Disconnected);
}

#[test]
fn a_reply_keeps_the_form_of_its_text() {
    let m = Message::new(Text::Utf8("001 n :hi".to_string()), None, 0..3, vec![4..5], Some(7..9));
    let reply = Reply::from_message(&m).unwrap();
    assert_eq!(reply, Reply::RPL_WELCOME(TextSlice::Utf8("hi")));
    assert_eq!(reply.to_owned(), Reply::RPL_WELCOME(Text::Utf8("hi".to_string())));
    assert_eq!(reply.to_owned().borrow(), reply);
    let event = Event::classify(&m).unwrap();
    assert_eq!(event.to_static(), Event::Reply(Reply::RPL_WELCOME(Text::Utf8("hi".to_string()))));
}
