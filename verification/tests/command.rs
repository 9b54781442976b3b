use irsc::command::{BorrowedCommand, Command, OwnedCommand};
use irsc::list::{join, split};
use irsc::message::Message;
use irsc::text::{Text, TextSlice};
use irsc::token::{code_of, digits_of, key_of, word_of};

fn r(s: &str) -> TextSlice<'_> {
    TextSlice::Raw(s.as_bytes())
}

fn read(line: &str) -> Option<OwnedCommand> {
    let msg = Message::parse(line.as_bytes()).unwrap();
    Command::from_message(&msg).map(|c| c.to_owned())
}

fn t(s: &str) -> Text {
    Text::Raw(s.as_bytes().to_vec())
}

#[test]
fn a_notice_is_read() {
    let msg = Message::parse(b":a.b.c NOTICE AUTH :*** Looking up your hostname...").unwrap();
    assert_eq!(
        Command::from_message(&msg),
        Some(Command::NOTICE(r("AUTH"), r("*** Looking up your hostname...")))
    );
}

#[test]
fn a_privmsg_is_written() {
    let c: BorrowedCommand = Command::PRIVMSG(r("#chan"), r("hello"));
    assert_eq!(c.to_message().bytes(), b"PRIVMSG #chan :hello\r\n");
    let owned: OwnedCommand = Command::PRIVMSG(t("#chan"), t("hello"));
    assert_eq!(owned.to_message().bytes(), b"PRIVMSG #chan :hello\r\n");
}

#[test]
fn a_join_with_fewer_keys_than_channels_comes_back() {
    let c: BorrowedCommand = Command::JOIN(vec![r("#a"), r("#b")], vec![r("k1")]);
    let written = c.to_message();
    assert_eq!(written.bytes(), b"JOIN #a,#b k1\r\n");
    let parsed = Message::parse(written.bytes()).unwrap();
    assert_eq!(Command::from_message(&parsed), Some(c));
}

#[test]
fn a_join_without_keys_comes_back() {
    let c: BorrowedCommand = Command::JOIN(vec![r("#a")], vec![]);
    let written = c.to_message();
    assert_eq!(written.bytes(), b"JOIN #a\r\n");
    let parsed = Message::parse(written.bytes()).unwrap();
    assert_eq!(Command::from_message(&parsed), Some(c));
}

#[test]
fn too_few_parameters_are_no_command() {
    assert_eq!(read("PRIVMSG"), None);
    assert_eq!(read("PRIVMSG #chan"), None);
    assert_eq!(read("PRIVMSG :only text"), None);
    assert_eq!(read("USER guest 0 *"), None);
    assert_eq!(read("JOIN"), None);
    assert_eq!(read("KICK #a"), None);
    assert_eq!(read("PASS"), None);
    assert_eq!(read("NICK"), None);
    assert_eq!(read("OPER name"), None);
    assert_eq!(read("PING"), None);
    assert_eq!(read("PART"), None);
    assert_eq!(read("INVITE nick"), None);
}

#[test]
fn an_unknown_word_is_no_command() {
    assert_eq!(read("FROBNICATE a b"), None);
    assert_eq!(read("privmsg a b"), None);
    assert_eq!(read("001 nick :Welcome"), None);
    assert_eq!(read("AVERYLONGCOMMANDWORD a"), None);
    assert_eq!(read("PRIVMSGS a b"), None);
}

#[test]
fn every_shape_of_command_is_read() {
    assert_eq!(read("PASS secret"), Some(Command::PASS(t("secret"))));
    assert_eq!(read("NICK :Wiz"), Some(Command::NICK(t("Wiz"))));
    assert_eq!(
        read("USER guest 0 * :Ronnie Reagan"),
        Some(Command::USER(t("guest"), t("0"), t("*"), t("Ronnie Reagan")))
    );
    assert_eq!(read("OPER foo bar"), Some(Command::OPER(t("foo"), t("bar"))));
    assert_eq!(read("QUIT"), Some(Command::QUIT(None)));
    assert_eq!(read("QUIT :Gone to lunch"), Some(Command::QUIT(Some(t("Gone to lunch")))));
    assert_eq!(
        read("JOIN #foo,&bar fubar"),
        Some(Command::JOIN(vec![t("#foo"), t("&bar")], vec![t("fubar")]))
    );
    assert_eq!(read("JOIN #foo"), Some(Command::JOIN(vec![t("#foo")], vec![])));
    assert_eq!(
        read("PART #a,#b :bye now"),
        Some(Command::PART(vec![t("#a"), t("#b")], Some(t("bye now"))))
    );
    assert_eq!(read("TOPIC #test"), Some(Command::TOPIC(t("#test"), None)));
    assert_eq!(
        read("TOPIC #test :another topic"),
        Some(Command::TOPIC(t("#test"), Some(t("another topic"))))
    );
    assert_eq!(read("NAMES"), Some(Command::NAMES(vec![], None)));
    assert_eq!(read("LIST #a,#b"), Some(Command::LIST(vec![t("#a"), t("#b")], None)));
    assert_eq!(read("INVITE Wiz #x"), Some(Command::INVITE(t("Wiz"), t("#x"))));
    assert_eq!(
        read("KICK #a,#b x,y :out"),
        Some(Command::KICK(vec![t("#a"), t("#b")], vec![t("x"), t("y")], Some(t("out"))))
    );
    assert_eq!(read("KICK #a x"), Some(Command::KICK(vec![t("#a")], vec![t("x")], None)));
    assert_eq!(read("PING :abc123"), Some(Command::PING(t("abc123"), None)));
    assert_eq!(read("PONG a b"), Some(Command::PONG(t("a"), Some(t("b")))));
    assert_eq!(read("AWAY"), Some(Command::AWAY(None)));
    assert_eq!(read("REHASH"), Some(Command::REHASH));
    assert_eq!(read("DIE"), Some(Command::DIE));
    assert_eq!(read("RESTART"), Some(Command::RESTART));
    assert_eq!(read("ERROR :Closing link"), Some(Command::ERROR(t("Closing link"))));
    assert_eq!(read("WALLOPS :hi all"), Some(Command::WALLOPS(t("hi all"))));
    assert_eq!(read("KILL x :bad"), Some(Command::KILL(t("x"), t("bad"))));
    assert_eq!(read("SQUERY irchelp :HELP privmsg"), Some(Command::SQUERY(t("irchelp"), t("HELP privmsg"))));
    assert_eq!(read("SQUIT tolsun.oulu.fi :Bad Link"), Some(Command::SQUIT(t("tolsun.oulu.fi"), t("Bad Link"))));
    assert_eq!(read("MOTD"), Some(Command::MOTD(None)));
    assert_eq!(read("VERSION tolsun.oulu.fi"), Some(Command::VERSION(Some(t("tolsun.oulu.fi")))));
    assert_eq!(read("TIME"), Some(Command::TIME(None)));
    assert_eq!(read("TRACE"), Some(Command::TRACE(None)));
    assert_eq!(read("ADMIN"), Some(Command::ADMIN(None)));
    assert_eq!(read("INFO"), Some(Command::INFO(None)));
    assert_eq!(read("USERS"), Some(Command::USERS(None)));
}

#[test]
fn every_shape_of_command_is_written() {
    fn wire(c: OwnedCommand) -> String {
        String::from_utf8(c.to_message().bytes().to_vec()).unwrap()
    }
    assert_eq!(wire(Command::PASS(t("secret"))), "PASS :secret\r\n");
    assert_eq!(wire(Command::NICK(t("Wiz"))), "NICK :Wiz\r\n");
    assert_eq!(
        wire(Command::USER(t("guest"), t("0"), t("*"), t("Ronnie Reagan"))),
        "USER guest 0 * :Ronnie Reagan\r\n"
    );
    assert_eq!(wire(Command::OPER(t("foo"), t("bar"))), "OPER foo bar\r\n");
    assert_eq!(wire(Command::QUIT(None)), "QUIT\r\n");
    assert_eq!(wire(Command::QUIT(Some(t("bye")))), "QUIT :bye\r\n");
    assert_eq!(wire(Command::JOIN(vec![t("#a"), t("#b")], vec![t("k")])), "JOIN #a,#b k\r\n");
    assert_eq!(wire(Command::PART(vec![t("#a")], Some(t("bye")))), "PART #a :bye\r\n");
    assert_eq!(wire(Command::TOPIC(t("#a"), None)), "TOPIC #a\r\n");
    assert_eq!(wire(Command::NAMES(vec![], None)), "NAMES\r\n");
    assert_eq!(wire(Command::LIST(vec![t("#a"), t("#b")], None)), "LIST #a,#b\r\n");
    assert_eq!(wire(Command::INVITE(t("Wiz"), t("#x"))), "INVITE Wiz :#x\r\n");
    assert_eq!(
        wire(Command::KICK(vec![t("#a")], vec![t("x"), t("y")], Some(t("out")))),
        "KICK #a x,y :out\r\n"
    );
    assert_eq!(wire(Command::PING(t("abc123"), None)), "PING :abc123\r\n");
    assert_eq!(wire(Command::PONG(t("a"), Some(t("b")))), "PONG a :b\r\n");
    assert_eq!(wire(Command::REHASH), "REHASH\r\n");
    assert_eq!(wire(Command::WALLOPS(t("hi all"))), "WALLOPS :hi all\r\n");
}

#[test]
fn written_commands_come_back() {
    let all: Vec<OwnedCommand> = vec![
        Command::PASS(t("secret word")),
        Command::USER(t("guest"), t("0"), t("*"), t("Ronnie Reagan")),
        Command::OPER(t("foo"), t("bar")),
        Command::QUIT(None),
        Command::QUIT(Some(t(""))),
        Command::JOIN(vec![t("#a"), t("#b"), t("#c")], vec![t("k1"), t("k2")]),
        Command::PART(vec![t("#a")], None),
        Command::NAMES(vec![], None),
        Command::NAMES(vec![t("#a")], Some(t("target"))),
        Command::KICK(vec![t("#a")], vec![t("x"), t("y")], Some(t(":out "))),
        Command::PING(t("a b"), None),
        Command::PONG(t("a"), Some(t("b c"))),
        Command::DIE,
    ];
    for c in all {
        let line = c.to_message();
        let parsed = Message::parse(line.bytes()).unwrap();
        assert_eq!(Command::from_message(&parsed).map(|c| c.to_owned()), Some(c));
    }
}

#[test]
fn an_owned_command_is_the_same_command() {
    let msg = Message::parse(b"KICK #a,#b x :out").unwrap();
    let borrowed = Command::from_message(&msg).unwrap();
    let owned = borrowed.to_owned();
    assert_eq!(owned, Command::KICK(vec![t("#a"), t("#b")], vec![t("x")], Some(t("out"))));
    assert_eq!(owned.borrow(), borrowed);
    assert_eq!(owned.to_message().bytes(), borrowed.to_message().bytes());
}

#[test]
fn a_command_too_long_for_a_message_is_not_written() {
    let text = vec![b'x'; 70000];
    let c: BorrowedCommand = Command::PRIVMSG(r("#a"), TextSlice::Raw(&text));
    assert!(c.try_to_message().is_none());
    let short: BorrowedCommand = Command::PRIVMSG(r("#a"), r("hi"));
    assert_eq!(short.try_to_message().unwrap().bytes(), b"PRIVMSG #a :hi\r\n");
}

#[test]
fn words_are_packed_into_keys() {
    assert_eq!(key_of(b"PASS"), Some(0x50_41_53_53));
    assert_eq!(key_of(b"PASS"), Some(irsc::key::PASS));
    assert_eq!(key_of(b"PRIVMSG"), Some(irsc::key::PRIVMSG));
    assert_eq!(key_of(b"A"), Some(0x41));
    assert_eq!(key_of(b"ABCDEFGH"), Some(0x41_42_43_44_45_46_47_48));
    assert_eq!(key_of(b"ABCDEFGHI"), None);
    assert_eq!(key_of(b""), None);
    assert_eq!(key_of(b"\0A"), None);
    assert_eq!(word_of(irsc::key::RESTART), b"RESTART");
    assert_eq!(word_of(0x41_00), b"A\0");
    assert_eq!(word_of(0), b"");
    assert_eq!(word_of(u64::MAX), vec![0xff; 8]);
}

#[test]
fn numerics_are_read_and_spelled() {
    assert_eq!(code_of(b"001"), Some(1));
    assert_eq!(code_of(b"433"), Some(433));
    assert_eq!(code_of(b"999"), Some(999));
    assert_eq!(code_of(b"000"), Some(0));
    assert_eq!(code_of(b"01"), None);
    assert_eq!(code_of(b"0001"), None);
    assert_eq!(code_of(b"0a1"), None);
    assert_eq!(code_of(b"00:"), None);
    assert_eq!(code_of(b"/00"), None);
    assert_eq!(digits_of(1), b"001");
    assert_eq!(digits_of(433), b"433");
    assert_eq!(digits_of(0), b"000");
    assert_eq!(digits_of(999), b"999");
}

#[test]
fn lists_are_split_and_joined() {
    assert_eq!(split(b"#a,#b"), vec![r("#a"), r("#b")]);
    assert_eq!(split(b"#a"), vec![r("#a")]);
    assert_eq!(split(b""), vec![r("")]);
    assert_eq!(split(b","), vec![r(""), r("")]);
    assert_eq!(split(b"a,,b,"), vec![r("a"), r(""), r("b"), r("")]);
    assert_eq!(join(&vec![r("#a"), r("#b"), r("#c")]), b"#a,#b,#c");
    assert_eq!(join(&vec![r("#a")]), b"#a");
    assert_eq!(join(&vec![]), b"");
    assert_eq!(join(&vec![r(""), r("")]), b",");
}

#[test]
fn commands_of_the_less_common_shapes_are_read() {
    assert_eq!(
        read("MODE #Finnish +o Kilroy"),
        Some(Command::MODE(t("#Finnish"), vec![t("+o"), t("Kilroy")]))
    );
    assert_eq!(read("MODE WiZ :-w"), Some(Command::MODE(t("WiZ"), vec![t("-w")])));
    assert_eq!(read("MODE #Finnish"), Some(Command::MODE(t("#Finnish"), vec![])));
    assert_eq!(read("MODE"), None);
    assert_eq!(
        read("SERVICE dict * *.fr 0 0 :French Dictionary"),
        Some(Command::SERVICE(t("dict"), t("*"), t("*.fr"), t("0"), t("0"), t("French Dictionary")))
    );
    assert_eq!(read("SERVICE dict * *.fr 0 0"), None);
    assert_eq!(read("LUSERS"), Some(Command::LUSERS(None, None)));
    assert_eq!(read("LUSERS *.fi"), Some(Command::LUSERS(Some(t("*.fi")), None)));
    assert_eq!(read("STATS m tolsun"), Some(Command::STATS(Some(t("m")), Some(t("tolsun")))));
    assert_eq!(read("SERVLIST * 0"), Some(Command::SERVLIST(Some(t("*")), Some(t("0")))));
    assert_eq!(read("LINKS"), Some(Command::LINKS(None, None)));
    assert_eq!(read("LINKS *.au"), Some(Command::LINKS(None, Some(t("*.au")))));
    assert_eq!(
        read("LINKS *.edu *.bu.edu"),
        Some(Command::LINKS(Some(t("*.edu")), Some(t("*.bu.edu"))))
    );
    assert_eq!(
        read("CONNECT tolsun.oulu.fi 6667"),
        Some(Command::CONNECT(t("tolsun.oulu.fi"), t("6667"), None))
    );
    assert_eq!(
        read("CONNECT a 6667 b"),
        Some(Command::CONNECT(t("a"), t("6667"), Some(t("b"))))
    );
    assert_eq!(read("CONNECT tolsun.oulu.fi"), None);
    assert_eq!(read("WHO"), Some(Command::WHO(None, false)));
    assert_eq!(read("WHO *.fi"), Some(Command::WHO(Some(t("*.fi")), false)));
    assert_eq!(read("WHO jto* o"), Some(Command::WHO(Some(t("jto*")), true)));
    assert_eq!(read("WHO jto* x"), Some(Command::WHO(Some(t("jto*")), false)));
    assert_eq!(read("WHO jto* oo"), Some(Command::WHO(Some(t("jto*")), false)));
    assert_eq!(read("WHOIS wiz"), Some(Command::WHOIS(None, vec![t("wiz")])));
    assert_eq!(
        read("WHOIS eff.org trillian,wiz"),
        Some(Command::WHOIS(Some(t("eff.org")), vec![t("trillian"), t("wiz")]))
    );
    assert_eq!(read("WHOIS"), None);
    assert_eq!(read("WHOWAS Wiz"), Some(Command::WHOWAS(vec![t("Wiz")], None, None)));
    assert_eq!(
        read("WHOWAS Trillian,Wiz 1 *.edu"),
        Some(Command::WHOWAS(vec![t("Trillian"), t("Wiz")], Some(t("1")), Some(t("*.edu"))))
    );
    assert_eq!(read("WHOWAS"), None);
    assert_eq!(read("SUMMON jto"), Some(Command::SUMMON(t("jto"), None, None)));
    assert_eq!(
        read("SUMMON jto tolsun.oulu.fi #x"),
        Some(Command::SUMMON(t("jto"), Some(t("tolsun.oulu.fi")), Some(t("#x"))))
    );
    assert_eq!(read("SUMMON"), None);
    assert_eq!(
        read("USERHOST Wiz Michael syrk"),
        Some(Command::USERHOST(vec![t("Wiz"), t("Michael"), t("syrk")]))
    );
    assert_eq!(read("USERHOST"), None);
    assert_eq!(read("ISON phone trillian"), Some(Command::ISON(vec![t("phone"), t("trillian")])));
    assert_eq!(read("ISON"), None);
}

#[test]
fn commands_of_the_less_common_shapes_are_written() {
    fn wire(c: OwnedCommand) -> String {
        String::from_utf8(c.to_message().bytes().to_vec()).unwrap()
    }
    assert_eq!(wire(Command::MODE(t("#c"), vec![t("+o"), t("nick")])), "MODE #c +o nick\r\n");
    assert_eq!(wire(Command::MODE(t("#c"), vec![])), "MODE #c\r\n");
    assert_eq!(
        wire(Command::SERVICE(t("dict"), t("*"), t("*.fr"), t("0"), t("0"), t("French Dictionary"))),
        "SERVICE dict * *.fr 0 0 :French Dictionary\r\n"
    );
    assert_eq!(wire(Command::LUSERS(None, None)), "LUSERS\r\n");
    assert_eq!(wire(Command::LUSERS(Some(t("*.fi")), Some(t("x")))), "LUSERS *.fi :x\r\n");
    assert_eq!(wire(Command::LINKS(None, None)), "LINKS\r\n");
    assert_eq!(wire(Command::LINKS(None, Some(t("*.au")))), "LINKS *.au\r\n");
    assert_eq!(wire(Command::LINKS(Some(t("*.edu")), Some(t("*.bu.edu")))), "LINKS *.edu *.bu.edu\r\n");
    assert_eq!(wire(Command::LINKS(Some(t("*.edu")), None)), "LINKS\r\n");
    assert_eq!(wire(Command::CONNECT(t("a"), t("6667"), Some(t("b")))), "CONNECT a 6667 :b\r\n");
    assert_eq!(wire(Command::WHO(None, false)), "WHO\r\n");
    assert_eq!(wire(Command::WHO(None, true)), "WHO\r\n");
    assert_eq!(wire(Command::WHO(Some(t("jto*")), false)), "WHO jto*\r\n");
    assert_eq!(wire(Command::WHO(Some(t("jto*")), true)), "WHO jto* o\r\n");
    assert_eq!(wire(Command::WHOIS(None, vec![t("a"), t("b")])), "WHOIS a,b\r\n");
    assert_eq!(wire(Command::WHOIS(Some(t("s")), vec![t("a")])), "WHOIS s a\r\n");
    assert_eq!(wire(Command::WHOWAS(vec![t("a"), t("b")], Some(t("1")), Some(t("s")))), "WHOWAS a,b 1 :s\r\n");
    assert_eq!(wire(Command::WHOWAS(vec![t("a")], None, None)), "WHOWAS a\r\n");
    assert_eq!(wire(Command::SUMMON(t("jto"), Some(t("s")), None)), "SUMMON jto s\r\n");
    assert_eq!(wire(Command::USERHOST(vec![t("a"), t("b")])), "USERHOST a b\r\n");
    assert_eq!(wire(Command::ISON(vec![t("a")])), "ISON a\r\n");
}

#[test]
fn written_commands_of_the_less_common_shapes_come_back() {
    let all: Vec<OwnedCommand> = vec![
        Command::MODE(t("#c"), vec![t("+o"), t("nick")]),
        Command::MODE(t("#c"), vec![]),
        Command::SERVICE(t("dict"), t("*"), t("*.fr"), t("0"), t("0"), t("French  Dictionary")),
        Command::LUSERS(None, None),
        Command::LUSERS(Some(t("*.fi")), None),
        Command::STATS(Some(t("m")), Some(t("a b"))),
        Command::SERVLIST(Some(t("*")), Some(t("0"))),
        Command::LINKS(None, None),
        Command::LINKS(None, Some(t("*.au"))),
        Command::LINKS(Some(t("*.edu")), Some(t("*.bu.edu"))),
        Command::CONNECT(t("a"), t("6667"), None),
        Command::CONNECT(t("a"), t("6667"), Some(t("b"))),
        Command::WHO(None, false),
        Command::WHO(Some(t("jto*")), false),
        Command::WHO(Some(t("jto*")), true),
        Command::WHOIS(None, vec![t("a"), t("b")]),
        Command::WHOIS(Some(t("s")), vec![t("a")]),
        Command::WHOWAS(vec![t("a"), t("b")], Some(t("1")), Some(t("s"))),
        Command::WHOWAS(vec![t("a")], Some(t("1")), None),
        Command::WHOWAS(vec![t("a")], None, None),
        Command::SUMMON(t("jto"), None, None),
        Command::SUMMON(t("jto"), Some(t("s")), Some(t("#c"))),
        Command::USERHOST(vec![t("a"), t("b"), t("c")]),
        Command::ISON(vec![t("a")]),
    ];
    for c in all {
        let line = c.to_message();
        let parsed = Message::parse(line.bytes()).unwrap();
        assert_eq!(Command::from_message(&parsed).map(|c| c.to_owned()), Some(c.clone()));
        assert_eq!(c.borrow().to_owned(), c);
    }
}

#[test]
fn a_command_keeps_the_form_of_its_texts() {
    let line = "KICK #a,#b x :caf\u{e9}";
    let m = Message::new(Text::Utf8(line.to_string()), None, 0..4, vec![5..10, 11..12], Some(14..19));
    let borrowed = Command::from_message(&m).unwrap();
    assert_eq!(
        borrowed,
        Command::KICK(
            vec![r("#a"), r("#b")],
            vec![r("x")],
            Some(TextSlice::Utf8("caf\u{e9}"))
        )
    );
    let owned = borrowed.to_owned();
    assert_eq!(
        owned,
        Command::KICK(vec![t("#a"), t("#b")], vec![t("x")], Some(Text::Utf8("caf\u{e9}".to_string())))
    );
    assert_eq!(owned.borrow(), borrowed);
    let privmsg = Message::new(Text::Utf8("PRIVMSG b :hi".to_string()), None, 0..7, vec![8..9], Some(11..13));
    assert_eq!(
        Command::from_message(&privmsg),
        Some(Command::PRIVMSG(TextSlice::Utf8("b"), TextSlice::Utf8("hi")))
    );
}

#[test]
fn a_command_of_any_length_is_written_as_a_line() {
    let text = vec![b'x'; 70000];
    let c: BorrowedCommand = Command::PRIVMSG(r("#a"), TextSlice::Raw(&text));
    let line = c.to_wire();
    assert_eq!(line.len(), 70000 + 14);
    assert!(line.starts_with(b"PRIVMSG #a :x"));
    let join: OwnedCommand = Command::JOIN(vec![t("#a"), t("#b")], vec![t("k1")]);
    assert_eq!(join.to_wire(), b"JOIN #a,#b k1\r\n");
    assert_eq!(join.to_wire(), join.to_message().bytes());
}
