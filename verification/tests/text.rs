use irsc::callback::Callback;
use irsc::color::{background, bold, color, foreground, italic, normal, underline};
use irsc::ident::Ident;
use irsc::text::{
    def_lossy_decode, empty_raw, empty_utf8, encoding, lossy_decode, DecoderTrap, Encoding, Text,
    TextSlice,
};

#[test]
fn a_text_is_raw_bytes_or_a_string() {
    let raw = Text::Raw(b"abc".to_vec());
    assert_eq!(raw.raw(), Some(&b"abc"[..]));
    assert_eq!(raw.utf8(), None);
    assert_eq!(raw.as_bytes(), b"abc");
    assert_eq!(raw.length(), 3);
    assert_eq!(raw.as_slice(), TextSlice::Raw(b"abc"));
    let string = Text::Utf8("caf\u{e9}".to_string());
    assert_eq!(string.raw(), None);
    assert_eq!(string.utf8(), Some("caf\u{e9}"));
    assert_eq!(string.as_bytes(), b"caf\xc3\xa9");
    assert_eq!(string.length(), 5);
    assert_eq!(string.as_slice(), TextSlice::Utf8("caf\u{e9}"));
    assert_eq!(string.clone(), string);
    assert_eq!(raw.clone(), raw);
}

#[test]
fn a_slice_of_a_text_has_the_form_of_the_text() {
    let raw = Text::Raw(b"hello world".to_vec());
    assert_eq!(raw.slice(&(6..11)), TextSlice::Raw(b"world"));
    assert_eq!(raw.slice(&(0..0)), TextSlice::Raw(b""));
    assert_eq!(raw.slice_bytes(6, 11), TextSlice::Raw(b"world"));
    let string = Text::Utf8("caf\u{e9} au lait".to_string());
    assert_eq!(string.slice(&(0..5)), TextSlice::Utf8("caf\u{e9}"));
    assert_eq!(string.slice(&(6..8)), TextSlice::Utf8("au"));
    assert_eq!(string.slice_bytes(0, 5), TextSlice::Utf8("caf\u{e9}"));
    assert_eq!(string.slice_bytes(0, 4), TextSlice::Raw(b"caf\xc3"));
    assert_eq!(string.slice_bytes(4, 5), TextSlice::Raw(b"\xa9"));
}

#[test]
fn a_borrowed_text_is_raw_bytes_or_a_string() {
    let raw = TextSlice::Raw(b"abc");
    assert_eq!(raw.raw(), Some(&b"abc"[..]));
    assert_eq!(raw.utf8(), None);
    assert_eq!(raw.as_bytes(), b"abc");
    assert_eq!(raw.length(), 3);
    assert_eq!(raw.to_text(), Text::Raw(b"abc".to_vec()));
    let string = TextSlice::Utf8("abc");
    assert_eq!(string.raw(), None);
    assert_eq!(string.utf8(), Some("abc"));
    assert_eq!(string.as_bytes(), b"abc");
    assert_eq!(string.to_text(), Text::Utf8("abc".to_string()));
    assert_eq!(empty_raw(), TextSlice::Raw(b""));
    assert_eq!(empty_utf8(), TextSlice::Utf8(""));
}

#[test]
fn encodings_are_known_by_their_names() {
    assert_eq!(encoding("utf-8").unwrap().name(), "utf-8");
    assert_eq!(encoding("windows-1252").unwrap().name(), "windows-1252");
    assert_eq!(encoding("koi8-r").unwrap().name(), "koi8-r");
    assert!(encoding("no-such-encoding").is_none());
    assert!(encoding("").is_none());
    // Names are matched exactly: no other case, no alias, no space around them.
    assert!(encoding("UTF-8").is_none());
    assert!(encoding("utf8").is_none());
    assert!(encoding("latin1").is_none());
    assert!(encoding(" utf-8").is_none());
    for name in ["ascii", "iso-8859-1", "mac-roman", "hz", "error", "big5-2003", "utf-16le"] {
        assert_eq!(encoding(name).unwrap().name(), name);
    }
    assert_eq!(Encoding::utf8().name(), "utf-8");
    assert_eq!(Encoding::utf8().clone(), Encoding::utf8());
}

#[test]
fn raw_bytes_are_decoded() {
    let utf8 = Encoding::utf8();
    let latin = encoding("windows-1252").unwrap();
    let text = Text::Raw(b"caf\xc3\xa9".to_vec());
    assert_eq!(text.try_decode_with(&utf8), Text::Utf8("caf\u{e9}".to_string()));
    assert_eq!(text.decode_with(&utf8, DecoderTrap::Strict), Text::Utf8("caf\u{e9}".to_string()));
    assert_eq!(text.try_decode_with(&latin), Text::Utf8("caf\u{c3}\u{a9}".to_string()));
    assert_eq!(text.try_decode_as("utf-8"), Some(Text::Utf8("caf\u{e9}".to_string())));
    assert_eq!(text.try_decode_as("no-such-encoding"), None);
    let latin1 = encoding("iso-8859-1").unwrap();
    assert_eq!(
        Text::Raw(b"\x80\xe9".to_vec()).try_decode_with(&latin1),
        Text::Utf8("\u{80}\u{e9}".to_string())
    );
    assert_eq!(
        Text::Raw(b"\x80".to_vec()).try_decode_with(&latin),
        Text::Utf8("\u{20ac}".to_string())
    );
    let ascii = encoding("ascii").unwrap();
    assert_eq!(Text::Raw(b"abc".to_vec()).try_decode_with(&ascii), Text::Utf8("abc".to_string()));
    assert_eq!(Text::Raw(b"caf\xe9".to_vec()).try_decode_with(&ascii), Text::Raw(b"caf\xe9".to_vec()));
    assert_eq!(utf8.decode(b"caf\xc3\xa9", DecoderTrap::Strict), Some("caf\u{e9}".to_string()));
    assert_eq!(utf8.decode(b"caf\xe9", DecoderTrap::Strict), None);
    assert_eq!(def_lossy_decode(b"hello"), "hello");
    let one_byte = Text::Raw(b"caf\xe9".to_vec());
    assert_eq!(one_byte.try_decode_with(&latin), Text::Utf8("caf\u{e9}".to_string()));
    assert_eq!(one_byte.try_decode_as("windows-1252"), Some(Text::Utf8("caf\u{e9}".to_string())));
}

#[test]
fn bytes_that_cannot_be_decoded_stay_or_are_replaced() {
    let utf8 = Encoding::utf8();
    let text = Text::Raw(b"caf\xe9!".to_vec());
    assert_eq!(text.try_decode_with(&utf8), text);
    assert_eq!(text.try_decode_as("utf-8"), Some(text.clone()));
    assert_eq!(text.decode_with(&utf8, DecoderTrap::Strict), text);
    assert_eq!(
        text.decode_with(&utf8, DecoderTrap::Replace),
        Text::Utf8("caf\u{fffd}!".to_string())
    );
    assert_eq!(text.decode_with(&utf8, DecoderTrap::Ignore), Text::Utf8("caf!".to_string()));
    assert_eq!(text.lossy_decode_with(&utf8), Text::Utf8("caf\u{fffd}!".to_string()));
    assert_eq!(text.lossy_decode_as("utf-8"), Some(Text::Utf8("caf\u{fffd}!".to_string())));
    assert_eq!(text.lossy_decode_as("no-such-encoding"), None);
    assert_eq!(lossy_decode(b"caf\xe9!", &utf8), "caf\u{fffd}!");
    assert_eq!(def_lossy_decode(b"caf\xe9!"), "caf\u{fffd}!");
    assert_eq!(def_lossy_decode(b"caf\xc3\xa9"), "caf\u{e9}");
    assert_eq!(def_lossy_decode(b""), "");
}

#[test]
fn a_string_is_not_decoded_again() {
    let utf8 = Encoding::utf8();
    let latin = encoding("windows-1252").unwrap();
    let text = Text::Utf8("caf\u{e9}".to_string());
    assert_eq!(text.try_decode_with(&latin), text);
    assert_eq!(text.lossy_decode_with(&latin), text);
    assert_eq!(text.decode_with(&utf8, DecoderTrap::Ignore), text);
    assert_eq!(text.try_decode_as("windows-1252"), Some(text.clone()));
    assert_eq!(text.try_decode_as("no-such-encoding"), None);
}

#[test]
fn an_attempt_to_decode_leaves_a_string_or_the_bytes() {
    assert_eq!(
        Text::from_decoding(b"abc", Some("xyz".to_string())),
        Text::Utf8("xyz".to_string())
    );
    assert_eq!(Text::from_decoding(b"abc", None), Text::Raw(b"abc".to_vec()));
}

#[test]
fn a_prefix_is_taken_apart() {
    let who = Ident::parse("WiZ!jto@tolsun.oulu.fi").unwrap();
    assert_eq!(who.nickname, "WiZ");
    assert_eq!(who.user, "jto");
    assert_eq!(who.host, "tolsun.oulu.fi");
    let with_colon = Ident::parse(":WiZ!jto@tolsun.oulu.fi").unwrap();
    assert_eq!(with_colon, who);
    assert_eq!(Ident::parse("irc.example.net"), None);
    assert_eq!(Ident::parse("nick@host"), None);
    assert_eq!(Ident::parse("nick!user"), None);
    assert_eq!(Ident::parse(""), None);
    let greedy = Ident::parse("a!b!c@d@e").unwrap();
    assert_eq!(greedy.nickname, "a!b");
    assert_eq!(greedy.user, "c@d");
    assert_eq!(greedy.host, "e");
    let empty = Ident::parse("!@").unwrap();
    assert_eq!(empty.nickname, "");
    assert_eq!(empty.user, "");
    assert_eq!(empty.host, "");
}

#[test]
fn an_identity_is_the_first_three_groups() {
    let s = |s: &str| Some(s.to_string());
    let who = Ident::from_captures(Some(vec![s("n!u@h"), s("n"), s("u"), s("h")])).unwrap();
    assert_eq!(who.nickname, "n");
    assert_eq!(who.user, "u");
    assert_eq!(who.host, "h");
    let more = Ident::from_captures(Some(vec![s("w"), s("n"), s("u"), s("h"), s("x")])).unwrap();
    assert_eq!(more.host, "h");
    assert_eq!(Ident::from_captures(None), None);
    assert_eq!(Ident::from_captures(Some(vec![])), None);
    assert_eq!(Ident::from_captures(Some(vec![s("w"), s("n"), s("u")])), None);
    assert_eq!(Ident::from_captures(Some(vec![s("w"), None, s("u"), s("h")])), None);
    assert_eq!(Ident::from_captures(Some(vec![s("w"), s("n"), None, s("h")])), None);
    assert_eq!(Ident::from_captures(Some(vec![s("w"), s("n"), s("u"), None])), None);
    assert!(Ident::from_captures(Some(vec![None, s("n"), s("u"), s("h")])).is_some());
}

#[test]
fn text_is_marked() {
    assert_eq!(normal("hi"), "\x0Fhi\x0F");
    assert_eq!(bold("hi"), "\x02hi\x02");
    assert_eq!(italic("hi"), "\x1Dhi\x1D");
    assert_eq!(underline("hi"), "\x1Fhi\x1F");
    assert_eq!(foreground("hi", irsc::color::RED), "\x0304hi\x03");
    assert_eq!(background("hi", irsc::color::BLUE), "\x03,02hi\x03");
    assert_eq!(color("hi", irsc::color::WHITE, irsc::color::BLACK), "\x0300,01hi\x03");
    assert_eq!(bold(""), "\x02\x02");
    assert_eq!(irsc::color::TRANSPARENT, "99");
    assert_eq!(irsc::color::LIGHT_GREY, "15");
}

fn double(x: &i64) -> i64 {
    x * 2
}

fn add_three(x: &i64) -> i64 {
    x + 3
}

#[test]
fn callbacks_run_in_the_order_of_registration() {
    let mut callbacks: Callback<fn(&i64) -> i64> = Callback::new();
    assert_eq!(callbacks.len(), 0);
    let mut v = 5;
    callbacks.fire(&mut v);
    assert_eq!(v, 5);
    callbacks.register(double);
    callbacks.register(add_three);
    assert_eq!(callbacks.len(), 2);
    callbacks.fire(&mut v);
    assert_eq!(v, 13);
    callbacks.register(double);
    callbacks.fire(&mut v);
    assert_eq!(v, 58);
}
