//! The connection of a client, as a state machine.
//!
//! The machine holds no transport. It decides what is to be done next: which
//! connection to open, which bytes to write, which message to hand to the
//! handlers, and in which order. The caller performs those steps and reports
//! back what the transport did.

use crate::command::{
    command_of, forms, parts_of, BorrowedCommand, Command, CommandForms, CommandView,
    OwnedCommand,
};
use crate::grammar::{layout_of, params_wire, wire_format, MAX_OFFSET};
use crate::{IrscError, MAX_LINE_LENGTH};
use crate::key;
use crate::message::Message;
use crate::text::{list_forms, list_view, opt_view, Text};
use crate::token::unpack;
use crate::wrap::{lines_view, whitespace_words, word_bytes, word_wrap, wrap};
use vstd::prelude::*;
use vstd::slice::slice_to_vec;
use vstd::string::StringSliceAdditionalSpecFns;
use vstd::utf8::encode_utf8;

verus! {

/// Where a connection stands.
#[derive(Debug, Clone, Copy, PartialEq, Eq, Structural)]
pub enum ConnectionState {
    /// No transport is held.
    Disconnected,
    /// A transport is held; nothing is read from it yet.
    Connected,
    /// A transport is held and its lines are being read.
    Listening,
}

/// A connection that the caller is asked to open.
#[derive(Debug, Clone, PartialEq, Eq)]
pub struct Endpoint {
    pub host: String,
    pub port: u16,
    /// Whether the stream is to be encrypted.
    pub secure: bool,
}

/// What the caller is asked to do with a line that was read.
pub enum Step {
    /// Write these bytes to the transport, and flush it.
    Write(Vec<u8>),
    /// Classify this message and hand it to the handlers.
    Dispatch(Message),
}

/// The connection of a client.
pub struct Client {
    state: ConnectionState,
}

/// The line of the `PONG` that answers a `PING` with these servers.
pub open spec fn pong_line(server1: Seq<u8>, server2: Option<Seq<u8>>) -> Seq<u8> {
    wire_format(parts_of(Command::<Seq<u8>, Seq<Seq<u8>>>::PONG(server1, server2)))
}

/// The bytes that are to be written before a message is dispatched: the
/// `PONG` that a `PING` is owed, with the same servers; nothing for any
/// other message.
pub open spec fn keep_alive(msg: Message) -> Option<Seq<u8>> {
    match command_of(msg@) {
        Some(Command::PING(a, b)) => Some(pong_line(a, b)),
        _ => None,
    }
}

/// A `PING` with one server is answered by `PONG`, a space, a colon, the
/// same server and the terminator.
pub proof fn lemma_pong_echoes(server: Seq<u8>)
    ensures
        pong_line(server, None) == seq![0x50u8, 0x4f, 0x4e, 0x47, 0x20, 0x3a] + server + seq![
            0x0du8,
            0x0a,
        ],
{
    reveal_with_fuel(unpack, 5);
    let word = unpack(key::PONG as nat);
    assert(word =~= seq![0x50u8, 0x4f, 0x4e, 0x47]);
    let p = parts_of(Command::<Seq<u8>, Seq<Seq<u8>>>::PONG(server, None));
    assert(params_wire(p.params, 0) =~= Seq::<u8>::empty());
    assert(wire_format(p) =~= seq![0x50u8, 0x4f, 0x4e, 0x47, 0x20, 0x3a] + server + seq![
        0x0du8,
        0x0a,
    ]);
}

impl Client {
    /// Where the connection stands.
    pub closed spec fn state(&self) -> ConnectionState {
        self.state
    }

    /// A client that holds no transport.
    pub fn new() -> (c: Client)
        ensures
            c.state() == ConnectionState::Disconnected,
    {
        Client { state: ConnectionState::Disconnected }
    }

    /// Where the connection stands.
    pub fn current(&self) -> (s: ConnectionState)
        ensures
            s == self.state(),
    {
        self.state
    }

    /// Whether a transport is held.
    pub fn is_connected(&self) -> (b: bool)
        ensures
            b == (self.state() != ConnectionState::Disconnected),
    {
        match self.state {
            ConnectionState::Disconnected => false,
            _ => true,
        }
    }

    /// Asks for a plain connection to be opened.
    ///
    /// Fails with `AlreadyConnected` where a transport is held. Otherwise the
    /// caller opens the connection and reports the outcome to
    /// [`Client::opened`]. The client is left as it is either way.
    pub fn connect(&self, host: &str, port: u16) -> (r: Result<Endpoint, IrscError>)
        ensures
            match r {
                Ok(e) => self.state() == ConnectionState::Disconnected && e.host@ == host@
                    && e.port == port && !e.secure,
                Err(e) => self.state() != ConnectionState::Disconnected && e
                    == IrscError::AlreadyConnected,
            },
    {
        if self.is_connected() {
            Err(IrscError::AlreadyConnected)
        } else {
            Ok(Endpoint { host: host.to_owned(), port, secure: false })
        }
    }

    /// Asks for an encrypted connection to be opened.
    ///
    /// Fails with `AlreadyConnected` where a transport is held. Otherwise the
    /// caller opens the connection and reports the outcome to
    /// [`Client::opened`]. The client is left as it is either way.
    pub fn connect_ssl(&self, host: &str, port: u16) -> (r: Result<Endpoint, IrscError>)
        ensures
            match r {
                Ok(e) => self.state() == ConnectionState::Disconnected && e.host@ == host@
                    && e.port == port && e.secure,
                Err(e) => self.state() != ConnectionState::Disconnected && e
                    == IrscError::AlreadyConnected,
            },
    {
        if self.is_connected() {
            Err(IrscError::AlreadyConnected)
        } else {
            Ok(Endpoint { host: host.to_owned(), port, secure: true })
        }
    }

    /// Takes note of how opening the connection went.
    ///
    /// A client that holds a transport already refuses with
    /// `AlreadyConnected` and stays as it is. Otherwise a success makes the
    /// client connected, and a failure is handed back and leaves it
    /// disconnected.
    pub fn opened(&mut self, outcome: Result<(), IrscError>) -> (r: Result<(), IrscError>)
        ensures
            match r {
                Ok(_) => old(self).state() == ConnectionState::Disconnected && outcome is Ok
                    && final(self).state() == ConnectionState::Connected,
                Err(e) => final(self).state() == old(self).state() && if old(self).state()
                    != ConnectionState::Disconnected {
                    e == IrscError::AlreadyConnected
                } else {
                    outcome == Err::<(), IrscError>(e)
                },
            },
    {
        if self.is_connected() {
            return Err(IrscError::AlreadyConnected);
        }
        match outcome {
            Ok(_) => {
                self.state = ConnectionState::Connected;
                Ok(())
            },
            Err(e) => Err(e),
        }
    }

    /// Starts reading lines from the transport.
    ///
    /// Fails with `NotConnected` where no transport is held.
    pub fn listen(&mut self) -> (r: Result<(), IrscError>)
        ensures
            match r {
                Ok(_) => old(self).state() != ConnectionState::Disconnected && final(self).state()
                    == ConnectionState::Listening,
                Err(e) => old(self).state() == ConnectionState::Disconnected && final(self).state()
                    == ConnectionState::Disconnected && e == IrscError::NotConnected,
            },
    {
        if self.is_connected() {
            self.state = ConnectionState::Listening;
            Ok(())
        } else {
            Err(IrscError::NotConnected)
        }
    }

    /// Takes note that the transport reached its end or failed for good: no
    /// transport is held any more.
    pub fn closed(&mut self)
        ensures
            final(self).state() == ConnectionState::Disconnected,
    {
        self.state = ConnectionState::Disconnected;
    }

    /// The bytes to write for a line that is formatted already.
    ///
    /// Fails with `NotConnected` where no transport is held. A line longer
    /// than the protocol allows is a mistake of the caller and must not be
    /// handed in: see [`Client::fits_line`].
    pub fn send_raw(&self, line: &[u8]) -> (r: Result<Vec<u8>, IrscError>)
        requires
            line@.len() <= MAX_LINE_LENGTH,
        ensures
            match r {
                Ok(bytes) => self.state() != ConnectionState::Disconnected && bytes@ == line@,
                Err(e) => self.state() == ConnectionState::Disconnected && e
                    == IrscError::NotConnected,
            },
    {
        if self.is_connected() {
            Ok(slice_to_vec(line))
        } else {
            Err(IrscError::NotConnected)
        }
    }

    /// The bytes to write for a message.
    ///
    /// Fails with `NotConnected` where no transport is held. The line of the
    /// message must not be longer than the protocol allows.
    pub fn send_message(&self, msg: &Message) -> (r: Result<Vec<u8>, IrscError>)
        requires
            msg.wire().len() <= MAX_LINE_LENGTH,
        ensures
            match r {
                Ok(bytes) => self.state() != ConnectionState::Disconnected && bytes@ == msg.wire(),
                Err(e) => self.state() == ConnectionState::Disconnected && e
                    == IrscError::NotConnected,
            },
    {
        self.send_raw(msg.bytes())
    }

    /// The bytes to write for a command: the line that the formatter writes
    /// for it.
    ///
    /// Fails with `NotConnected` where no transport is held. Whether the
    /// client has registered is not looked at. The line must not be longer
    /// than the protocol allows.
    pub fn send(&self, cmd: &BorrowedCommand<'_>) -> (r: Result<Vec<u8>, IrscError>)
        requires
            wire_format(parts_of(cmd@)).len() <= MAX_LINE_LENGTH,
        ensures
            match r {
                Ok(bytes) => self.state() != ConnectionState::Disconnected && bytes@ == wire_format(
                    parts_of(cmd@),
                ),
                Err(e) => self.state() == ConnectionState::Disconnected && e
                    == IrscError::NotConnected,
            },
    {
        if self.is_connected() {
            Ok(cmd.to_wire())
        } else {
            Err(IrscError::NotConnected)
        }
    }

    /// Whether a line is no longer than the protocol allows, terminator
    /// included.
    pub fn fits_line(line: &[u8]) -> (b: bool)
        ensures
            b == (line@.len() <= MAX_LINE_LENGTH),
    {
        line.len() <= MAX_LINE_LENGTH
    }

    /// Whether a message is longer than the protocol allows a line to be.
    pub fn exceeds_line_length(msg: &Message) -> (b: bool)
        ensures
            b == (msg.wire().len() > MAX_LINE_LENGTH),
    {
        msg.bytes().len() > MAX_LINE_LENGTH
    }

    /// The answer that a message is owed before it is dispatched: the `PONG`
    /// for a `PING`, with the same servers.
    pub fn handle_event(msg: &Message) -> (r: Option<Vec<u8>>)
        ensures
            opt_view(r) == keep_alive(*msg),
    {
        match Command::from_message(msg) {
            Some(Command::PING(a, b)) => {
                let pong: BorrowedCommand<'_> = Command::PONG(a, b);
                Some(pong.to_wire())
            },
            _ => None,
        }
    }

    /// Decides what to do with a line that was read from the transport.
    ///
    /// A line that does not parse is skipped: there is nothing to do. For a
    /// `PING`, the answer is written first, and then the message is
    /// dispatched; for every other message, the message is dispatched. The
    /// steps are to be taken in the order given. A client that is not
    /// listening has nothing to do with a line.
    pub fn on_line(&self, line: &[u8]) -> (steps: Vec<Step>)
        ensures
            match layout_of(line@) {
                Some(l) if line@.len() <= MAX_OFFSET && self.state()
                    == ConnectionState::Listening => {
                    &&& steps@.len() >= 1
                    &&& steps@.last() matches Step::Dispatch(m)
                    &&& m.wire() == line@
                    &&& m.layout() == l
                    &&& match keep_alive(m) {
                        Some(pong) => {
                            &&& steps@.len() == 2
                            &&& steps@[0] matches Step::Write(w)
                            &&& w@ == pong
                        },
                        None => steps@.len() == 1,
                    }
                },
                _ => steps@.len() == 0,
            },
    {
        let mut steps: Vec<Step> = Vec::new();
        match self.state {
            ConnectionState::Listening => {},
            _ => {
                return steps;
            },
        }
        match Message::parse(line) {
            Ok(msg) => {
                match Client::handle_event(&msg) {
                    Some(pong) => {
                        steps.push(Step::Write(pong));
                    },
                    None => {},
                }
                steps.push(Step::Dispatch(msg));
            },
            Err(_) => {},
        }
        steps
    }

    /// The command that joins a channel, with its key where it has one. Its
    /// texts are strings.
    pub fn join(channel: &str, password: Option<&str>) -> (c: OwnedCommand)
        ensures
            c@ == Command::<Seq<u8>, Seq<Seq<u8>>>::JOIN(
                seq![encode_utf8(channel@)],
                match password {
                    Some(p) => seq![encode_utf8(p@)],
                    None => seq![],
                },
            ),
            forms(c) == Command::<bool, Seq<bool>>::JOIN(
                seq![false],
                if password is Some {
                    seq![false]
                } else {
                    seq![]
                },
            ),
    {
        let mut channels: Vec<Text> = Vec::new();
        channels.push(Text::Utf8(channel.to_owned()));
        let mut keys: Vec<Text> = Vec::new();
        match password {
            Some(p) => {
                keys.push(Text::Utf8(p.to_owned()));
            },
            None => {},
        }
        let c: OwnedCommand = Command::JOIN(channels, keys);
        proof {
            assert(list_view(channels@) =~= seq![encode_utf8(channel@)]);
            assert(list_view(keys@) =~= match password {
                Some(p) => seq![encode_utf8(p@)],
                None => seq![],
            });
            assert(list_forms(channels@) =~= seq![false]);
            assert(list_forms(keys@) =~= if password is Some {
                seq![false]
            } else {
                seq![]
            });
        }
        c
    }

    /// The command that sends `message` to a user or channel. Its texts are
    /// strings.
    pub fn msg(to: &str, message: &str) -> (c: OwnedCommand)
        ensures
            c@ == Command::<Seq<u8>, Seq<Seq<u8>>>::PRIVMSG(
                encode_utf8(to@),
                encode_utf8(message@),
            ),
            forms(c) == Command::<bool, Seq<bool>>::PRIVMSG(false, false),
    {
        Command::PRIVMSG(Text::Utf8(to.to_owned()), Text::Utf8(message.to_owned()))
    }

    /// The commands that send each of `messages` to a user or channel, in
    /// the order given.
    pub fn msg_many(to: &str, messages: &Vec<&str>) -> (v: Vec<OwnedCommand>)
        ensures
            v@.len() == messages@.len(),
            forall|i: int|
                0 <= i < v@.len() ==> (#[trigger] v@[i])@ == Command::<
                    Seq<u8>,
                    Seq<Seq<u8>>,
                >::PRIVMSG(encode_utf8(to@), encode_utf8(messages@[i]@)) && forms(v@[i])
                    == Command::<bool, Seq<bool>>::PRIVMSG(false, false),
    {
        let mut v: Vec<OwnedCommand> = Vec::new();
        let mut i: usize = 0;
        while i < messages.len()
            invariant
                i <= messages@.len(),
                v@.len() == i,
                forall|x: int|
                    0 <= x < i ==> (#[trigger] v@[x])@ == Command::<
                        Seq<u8>,
                        Seq<Seq<u8>>,
                    >::PRIVMSG(encode_utf8(to@), encode_utf8(messages@[x]@)) && forms(v@[x])
                        == Command::<bool, Seq<bool>>::PRIVMSG(false, false),
            decreases messages@.len() - i,
        {
            v.push(Client::msg(to, messages[i]));
            i += 1;
        }
        v
    }

    /// The commands that send `message` to a user or channel in lines of at
    /// most `limit` bytes, broken at whitespace, in the order of the lines.
    /// The name is a string, each line raw bytes.
    pub fn msg_word_wrap(to: &str, message: &str, limit: u16) -> (v: Vec<OwnedCommand>)
        ensures
            v@.len() == wrap(word_bytes(whitespace_words(message@)), limit as int).len(),
            forall|i: int|
                0 <= i < v@.len() ==> (#[trigger] v@[i])@ == Command::<
                    Seq<u8>,
                    Seq<Seq<u8>>,
                >::PRIVMSG(
                    encode_utf8(to@),
                    wrap(word_bytes(whitespace_words(message@)), limit as int)[i],
                ) && forms(v@[i]) == Command::<bool, Seq<bool>>::PRIVMSG(false, true),
    {
        let mut lines = word_wrap(message, limit);
        let ghost all = lines_view(lines@);
        let mut v: Vec<OwnedCommand> = Vec::new();
        let mut i: usize = 0;
        let n = lines.len();
        while i < n
            invariant
                i <= n == lines@.len() == all.len(),
                v@.len() == i,
                forall|x: int| i <= x < n ==> (#[trigger] lines@[x])@ == all[x],
                forall|x: int|
                    0 <= x < i ==> (#[trigger] v@[x])@ == Command::<
                        Seq<u8>,
                        Seq<Seq<u8>>,
                    >::PRIVMSG(encode_utf8(to@), all[x]) && forms(v@[x]) == Command::<
                        bool,
                        Seq<bool>,
                    >::PRIVMSG(false, true),
            decreases n - i,
        {
            let mut line: Vec<u8> = Vec::new();
            std::mem::swap(&mut line, &mut lines[i]);
            v.push(Command::PRIVMSG(Text::Utf8(to.to_owned()), Text::Raw(line)));
            i += 1;
        }
        v
    }

    /// The commands that register a client, in the order in which they are
    /// to be sent: `PASS` where there is a password, then `NICK`, then
    /// `USER` with mode `0` and `*` for the unused parameter. Their texts
    /// are strings.
    pub fn register(nick: &str, user: &str, desc: &str, pass: Option<&str>) -> (v: Vec<
        OwnedCommand,
    >)
        ensures
            list_of_views(v@) == registration(
                encode_utf8(nick@),
                encode_utf8(user@),
                encode_utf8(desc@),
                match pass {
                    Some(p) => Some(encode_utf8(p@)),
                    None => None,
                },
            ),
            list_of_forms(v@) == registration_forms(pass is Some),
    {
        let mut v: Vec<OwnedCommand> = Vec::new();
        match pass {
            Some(p) => {
                v.push(Command::PASS(Text::Utf8(p.to_owned())));
            },
            None => {},
        }
        v.push(Command::NICK(Text::Utf8(nick.to_owned())));
        let zero = "0";
        let star = "*";
        v.push(
            Command::USER(
                Text::Utf8(user.to_owned()),
                Text::Utf8(zero.to_owned()),
                Text::Utf8(star.to_owned()),
                Text::Utf8(desc.to_owned()),
            ),
        );
        proof {
            reveal_strlit("0");
            reveal_strlit("*");
            vstd::string::is_ascii_spec_bytes(zero);
            vstd::string::is_ascii_spec_bytes(star);
            assert(zero@.len() == 1 && zero@[0] == '0');
            assert(star@.len() == 1 && star@[0] == '*');
            assert(zero.spec_bytes() =~= seq![0x30u8]);
            assert(star.spec_bytes() =~= seq![0x2au8]);
            assert(list_of_forms(v@) =~= registration_forms(pass is Some));
            assert(list_of_views(v@) =~= registration(
                encode_utf8(nick@),
                encode_utf8(user@),
                encode_utf8(desc@),
                match pass {
                    Some(p) => Some(encode_utf8(p@)),
                    None => None,
                },
            ));
        }
        v
    }
}

/// The views of a list of commands.
pub open spec fn list_of_views(v: Seq<OwnedCommand>) -> Seq<CommandView> {
    Seq::new(v.len(), |i: int| v[i]@)
}

/// The forms of a list of commands.
pub open spec fn list_of_forms(v: Seq<OwnedCommand>) -> Seq<CommandForms> {
    Seq::new(v.len(), |i: int| forms(v[i]))
}

/// The forms of the commands that register a client: every text is a
/// string.
pub open spec fn registration_forms(with_password: bool) -> Seq<CommandForms> {
    let rest = seq![
        Command::<bool, Seq<bool>>::NICK(false),
        Command::<bool, Seq<bool>>::USER(false, false, false, false),
    ];
    if with_password {
        seq![Command::<bool, Seq<bool>>::PASS(false)] + rest
    } else {
        rest
    }
}

/// The commands that register a client, in the order in which they are to
/// be sent.
pub open spec fn registration(
    nick: Seq<u8>,
    user: Seq<u8>,
    desc: Seq<u8>,
    pass: Option<Seq<u8>>,
) -> Seq<CommandView> {
    let rest = seq![
        Command::<Seq<u8>, Seq<Seq<u8>>>::NICK(nick),
        Command::<Seq<u8>, Seq<Seq<u8>>>::USER(user, seq![0x30u8], seq![0x2au8], desc),
    ];
    match pass {
        Some(p) => seq![Command::<Seq<u8>, Seq<Seq<u8>>>::PASS(p)] + rest,
        None => rest,
    }
}

} // verus!
