//! The commands a client and a server exchange, as typed values.
//!
//! A command is read from the parameters of a parsed [`Message`] and written
//! back into one. The table of commands is closed: a word that is not in it
//! is no command.

use crate::key;
use crate::list::{commaless, join, join_list, lemma_split_join, split, split_list, COMMA};
use crate::grammar::{
    is_middle, layout_of, lemma_parse_format, wire_format, Parts, MAX_OFFSET, SPACE,
};
use crate::message::{given_parts, Message};
use crate::text::{list_forms, list_view, opt_form, opt_view, Form, Text, TextSlice};
use crate::token::{
    is_letters, key_of, lemma_key_of_unpacked, lemma_letters_unpack, unpack, word_key, word_of,
};
use vstd::prelude::*;
use vstd::slice::slice_to_vec;

verus! {

/// A command, with texts of type `T` and lists of type `L`.
///
/// Three forms are in use: [`BorrowedCommand`], whose texts are slices of the
/// message it was read from; [`OwnedCommand`], which owns its texts; and
/// [`CommandView`], the byte sequences that both stand for.
#[allow(non_camel_case_types)]
#[derive(Debug, Clone, PartialEq, Eq, Hash)]
pub enum Command<T, L> {
    /// `PASS <password>`: sets the connection password, before registration.
    PASS(T),
    /// `NICK <nickname>`: takes or changes a nickname.
    NICK(T),
    /// `USER <user> <mode> <unused> <realname>`: registers a user.
    USER(T, T, T, T),
    /// `OPER <name> <password>`: asks for operator privileges.
    OPER(T, T),
    /// `QUIT [<message>]`: ends the session.
    QUIT(Option<T>),
    /// `SQUIT <server> <comment>`: disconnects a server link.
    SQUIT(T, T),
    /// `JOIN <channel>{,<channel>} [<key>{,<key>}]`: joins channels. There may
    /// be fewer keys than channels: the channels at the end of the list have none.
    JOIN(L, L),
    /// `PART <channel>{,<channel>} [<message>]`: leaves channels.
    PART(L, Option<T>),
    /// `TOPIC <channel> [<topic>]`: asks for or sets the topic of a channel.
    TOPIC(T, Option<T>),
    /// `NAMES [<channel>{,<channel>} [<target>]]`: lists the users of channels.
    NAMES(L, Option<T>),
    /// `LIST [<channel>{,<channel>} [<target>]]`: lists channels and their topics.
    LIST(L, Option<T>),
    /// `INVITE <nickname> <channel>`: invites a user to a channel.
    INVITE(T, T),
    /// `KICK <channel>{,<channel>} <user>{,<user>} [<comment>]`: removes users
    /// from channels.
    KICK(L, L, Option<T>),
    /// `PRIVMSG <target> <text>`: sends text to a user or a channel.
    PRIVMSG(T, T),
    /// `NOTICE <target> <text>`: sends text that must not be answered automatically.
    NOTICE(T, T),
    /// `MOTD [<target>]`: asks for the message of the day.
    MOTD(Option<T>),
    /// `VERSION [<target>]`: asks for the version of the server program.
    VERSION(Option<T>),
    /// `TIME [<target>]`: asks for the local time of a server.
    TIME(Option<T>),
    /// `TRACE [<target>]`: asks for the route to a server or user.
    TRACE(Option<T>),
    /// `ADMIN [<target>]`: asks who administers a server.
    ADMIN(Option<T>),
    /// `INFO [<target>]`: asks for information about a server.
    INFO(Option<T>),
    /// `SQUERY <service> <text>`: sends text to a service.
    SQUERY(T, T),
    /// `KILL <nickname> <comment>`: closes the connection of a user.
    KILL(T, T),
    /// `PING <server1> [<server2>]`: tests that the other end is alive.
    PING(T, Option<T>),
    /// `PONG <server1> [<server2>]`: answers a `PING`.
    PONG(T, Option<T>),
    /// `ERROR <message>`: reports a fatal error.
    ERROR(T),
    /// `AWAY [<text>]`: marks the user as away, or as back without a text.
    AWAY(Option<T>),
    /// `REHASH`: makes the server read its configuration again.
    REHASH,
    /// `DIE`: shuts the server down.
    DIE,
    /// `RESTART`: restarts the server.
    RESTART,
    /// `USERS [<target>]`: lists the users logged into a server.
    USERS(Option<T>),
    /// `WALLOPS <text>`: sends text to all operators.
    WALLOPS(T),
    /// `MODE <target> {<mode or parameter>}`: asks for or changes the modes of a
    /// channel or user.
    MODE(T, L),
    /// `SERVICE <nickname> <reserved> <distribution> <type> <reserved> <info>`:
    /// registers a service.
    SERVICE(T, T, T, T, T, T),
    /// `LUSERS [<mask> [<target>]]`: asks for the size of the network.
    LUSERS(Option<T>, Option<T>),
    /// `STATS [<query> [<target>]]`: asks for statistics of a server.
    STATS(Option<T>, Option<T>),
    /// `LINKS [[<remote server>] <server mask>]`: lists the servers that a
    /// server knows. The mask is the second text.
    LINKS(Option<T>, Option<T>),
    /// `CONNECT <target server> <port> [<remote server>]`: makes a server
    /// connect to another.
    CONNECT(T, T, Option<T>),
    /// `SERVLIST [<mask> [<type>]]`: lists the services on the network.
    SERVLIST(Option<T>, Option<T>),
    /// `WHO [<mask> [o]]`: lists the users that match a mask; operators only
    /// where the flag is set.
    WHO(Option<T>, bool),
    /// `WHOIS [<target>] <mask>{,<mask>}`: asks about users.
    WHOIS(Option<T>, L),
    /// `WHOWAS <nickname>{,<nickname>} [<count> [<target>]]`: asks about users
    /// who have left.
    WHOWAS(L, Option<T>, Option<T>),
    /// `SUMMON <user> [<target> [<channel>]]`: calls a user of the host of a
    /// server to IRC.
    SUMMON(T, Option<T>, Option<T>),
    /// `USERHOST <nickname>{ <nickname>}`: asks for the hosts of users.
    USERHOST(L),
    /// `ISON <nickname>{ <nickname>}`: asks which of the users are on IRC.
    ISON(L),
}

/// A command whose texts are borrowed from a message.
pub type BorrowedCommand<'a> = Command<TextSlice<'a>, Vec<TextSlice<'a>>>;

/// A command that owns its texts.
pub type OwnedCommand = Command<Text, Vec<Text>>;

/// A command as byte sequences.
pub type CommandView = Command<Seq<u8>, Seq<Seq<u8>>>;

impl<T: View<V = Seq<u8>>> View for Command<T, Vec<T>> {
    type V = CommandView;

    /// The command with each text replaced by its bytes.
    open spec fn view(&self) -> CommandView {
        match *self {
            Command::PASS(a) => Command::PASS(a@),
            Command::NICK(a) => Command::NICK(a@),
            Command::USER(a, b, c, d) => Command::USER(a@, b@, c@, d@),
            Command::OPER(a, b) => Command::OPER(a@, b@),
            Command::QUIT(a) => Command::QUIT(opt_view(a)),
            Command::SQUIT(a, b) => Command::SQUIT(a@, b@),
            Command::JOIN(a, b) => Command::JOIN(list_view(a@), list_view(b@)),
            Command::PART(a, b) => Command::PART(list_view(a@), opt_view(b)),
            Command::TOPIC(a, b) => Command::TOPIC(a@, opt_view(b)),
            Command::NAMES(a, b) => Command::NAMES(list_view(a@), opt_view(b)),
            Command::LIST(a, b) => Command::LIST(list_view(a@), opt_view(b)),
            Command::INVITE(a, b) => Command::INVITE(a@, b@),
            Command::KICK(a, b, c) => Command::KICK(list_view(a@), list_view(b@), opt_view(c)),
            Command::PRIVMSG(a, b) => Command::PRIVMSG(a@, b@),
            Command::NOTICE(a, b) => Command::NOTICE(a@, b@),
            Command::MOTD(a) => Command::MOTD(opt_view(a)),
            Command::VERSION(a) => Command::VERSION(opt_view(a)),
            Command::TIME(a) => Command::TIME(opt_view(a)),
            Command::TRACE(a) => Command::TRACE(opt_view(a)),
            Command::ADMIN(a) => Command::ADMIN(opt_view(a)),
            Command::INFO(a) => Command::INFO(opt_view(a)),
            Command::SQUERY(a, b) => Command::SQUERY(a@, b@),
            Command::KILL(a, b) => Command::KILL(a@, b@),
            Command::PING(a, b) => Command::PING(a@, opt_view(b)),
            Command::PONG(a, b) => Command::PONG(a@, opt_view(b)),
            Command::ERROR(a) => Command::ERROR(a@),
            Command::AWAY(a) => Command::AWAY(opt_view(a)),
            Command::REHASH => Command::REHASH,
            Command::DIE => Command::DIE,
            Command::RESTART => Command::RESTART,
            Command::USERS(a) => Command::USERS(opt_view(a)),
            Command::WALLOPS(a) => Command::WALLOPS(a@),
            Command::MODE(a, b) => Command::MODE(a@, list_view(b@)),
            Command::SERVICE(a, b, c, d, f, g) => Command::SERVICE(a@, b@, c@, d@, f@, g@),
            Command::LUSERS(a, b) => Command::LUSERS(opt_view(a), opt_view(b)),
            Command::STATS(a, b) => Command::STATS(opt_view(a), opt_view(b)),
            Command::LINKS(a, b) => Command::LINKS(opt_view(a), opt_view(b)),
            Command::CONNECT(a, b, c) => Command::CONNECT(a@, b@, opt_view(c)),
            Command::SERVLIST(a, b) => Command::SERVLIST(opt_view(a), opt_view(b)),
            Command::WHO(a, b) => Command::WHO(opt_view(a), b),
            Command::WHOIS(a, b) => Command::WHOIS(opt_view(a), list_view(b@)),
            Command::WHOWAS(a, b, c) => Command::WHOWAS(list_view(a@), opt_view(b), opt_view(c)),
            Command::SUMMON(a, b, c) => Command::SUMMON(a@, opt_view(b), opt_view(c)),
            Command::USERHOST(a) => Command::USERHOST(list_view(a@)),
            Command::ISON(a) => Command::ISON(list_view(a@)),
        }
    }
}

/// A command with, in place of each text, whether the text is raw bytes.
pub type CommandForms = Command<bool, Seq<bool>>;

/// The forms of the texts of a command: for each, whether it is raw bytes
/// or a string.
pub open spec fn forms<T: Form>(c: Command<T, Vec<T>>) -> CommandForms {
    match c {
        Command::PASS(a) => Command::PASS(a.is_raw()),
        Command::NICK(a) => Command::NICK(a.is_raw()),
        Command::USER(a, b, c, d) => Command::USER(a.is_raw(), b.is_raw(), c.is_raw(), d.is_raw()),
        Command::OPER(a, b) => Command::OPER(a.is_raw(), b.is_raw()),
        Command::QUIT(a) => Command::QUIT(opt_form(a)),
        Command::SQUIT(a, b) => Command::SQUIT(a.is_raw(), b.is_raw()),
        Command::JOIN(a, b) => Command::JOIN(list_forms(a@), list_forms(b@)),
        Command::PART(a, b) => Command::PART(list_forms(a@), opt_form(b)),
        Command::TOPIC(a, b) => Command::TOPIC(a.is_raw(), opt_form(b)),
        Command::NAMES(a, b) => Command::NAMES(list_forms(a@), opt_form(b)),
        Command::LIST(a, b) => Command::LIST(list_forms(a@), opt_form(b)),
        Command::INVITE(a, b) => Command::INVITE(a.is_raw(), b.is_raw()),
        Command::KICK(a, b, c) => Command::KICK(list_forms(a@), list_forms(b@), opt_form(c)),
        Command::PRIVMSG(a, b) => Command::PRIVMSG(a.is_raw(), b.is_raw()),
        Command::NOTICE(a, b) => Command::NOTICE(a.is_raw(), b.is_raw()),
        Command::MOTD(a) => Command::MOTD(opt_form(a)),
        Command::VERSION(a) => Command::VERSION(opt_form(a)),
        Command::TIME(a) => Command::TIME(opt_form(a)),
        Command::TRACE(a) => Command::TRACE(opt_form(a)),
        Command::ADMIN(a) => Command::ADMIN(opt_form(a)),
        Command::INFO(a) => Command::INFO(opt_form(a)),
        Command::SQUERY(a, b) => Command::SQUERY(a.is_raw(), b.is_raw()),
        Command::KILL(a, b) => Command::KILL(a.is_raw(), b.is_raw()),
        Command::PING(a, b) => Command::PING(a.is_raw(), opt_form(b)),
        Command::PONG(a, b) => Command::PONG(a.is_raw(), opt_form(b)),
        Command::ERROR(a) => Command::ERROR(a.is_raw()),
        Command::AWAY(a) => Command::AWAY(opt_form(a)),
        Command::REHASH => Command::REHASH,
        Command::DIE => Command::DIE,
        Command::RESTART => Command::RESTART,
        Command::USERS(a) => Command::USERS(opt_form(a)),
        Command::WALLOPS(a) => Command::WALLOPS(a.is_raw()),
        Command::MODE(a, b) => Command::MODE(a.is_raw(), list_forms(b@)),
        Command::SERVICE(a, b, c, d, f, g) => Command::SERVICE(a.is_raw(), b.is_raw(), c.is_raw(), d.is_raw(), f.is_raw(), g.is_raw()),
        Command::LUSERS(a, b) => Command::LUSERS(opt_form(a), opt_form(b)),
        Command::STATS(a, b) => Command::STATS(opt_form(a), opt_form(b)),
        Command::LINKS(a, b) => Command::LINKS(opt_form(a), opt_form(b)),
        Command::CONNECT(a, b, c) => Command::CONNECT(a.is_raw(), b.is_raw(), opt_form(c)),
        Command::SERVLIST(a, b) => Command::SERVLIST(opt_form(a), opt_form(b)),
        Command::WHO(a, b) => Command::WHO(opt_form(a), b),
        Command::WHOIS(a, b) => Command::WHOIS(opt_form(a), list_forms(b@)),
        Command::WHOWAS(a, b, c) => Command::WHOWAS(list_forms(a@), opt_form(b), opt_form(c)),
        Command::SUMMON(a, b, c) => Command::SUMMON(a.is_raw(), opt_form(b), opt_form(c)),
        Command::USERHOST(a) => Command::USERHOST(list_forms(a@)),
        Command::ISON(a) => Command::ISON(list_forms(a@)),
    }
}

/// The forms of an optional command.
pub open spec fn opt_forms<T: Form>(o: Option<Command<T, Vec<T>>>) -> Option<CommandForms> {
    match o {
        Some(c) => Some(forms(c)),
        None => None,
    }
}

/// The view of an optional command.
pub open spec fn opt_command_view<T: View<V = Seq<u8>>>(o: Option<Command<T, Vec<T>>>) -> Option<
    CommandView,
> {
    match o {
        Some(c) => Some(c@),
        None => None,
    }
}

/// Element `i` of `e`, where there is one.
pub open spec fn opt_at(e: Seq<Seq<u8>>, i: int) -> Option<Seq<u8>> {
    if 0 <= i < e.len() {
        Some(e[i])
    } else {
        None
    }
}

/// The parameters that an optional text makes: one, or none.
pub open spec fn opt_seq(o: Option<Seq<u8>>) -> Seq<Seq<u8>> {
    match o {
        Some(x) => seq![x],
        None => seq![],
    }
}

/// The parameter `o`, which asks `WHO` for operators only.
pub open spec fn operators_flag() -> Seq<u8> {
    seq![0x6fu8]
}

/// The number of parameters that the command with key `k` needs at least,
/// or `None` where `k` is the key of no command.
pub open spec fn min_arity(k: u64) -> Option<nat> {
    if k == key::PASS {
        Some(1)
    } else if k == key::NICK {
        Some(1)
    } else if k == key::USER {
        Some(4)
    } else if k == key::OPER {
        Some(2)
    } else if k == key::QUIT {
        Some(0)
    } else if k == key::SQUIT {
        Some(2)
    } else if k == key::JOIN {
        Some(1)
    } else if k == key::PART {
        Some(1)
    } else if k == key::TOPIC {
        Some(1)
    } else if k == key::NAMES {
        Some(0)
    } else if k == key::LIST {
        Some(0)
    } else if k == key::INVITE {
        Some(2)
    } else if k == key::KICK {
        Some(2)
    } else if k == key::PRIVMSG {
        Some(2)
    } else if k == key::NOTICE {
        Some(2)
    } else if k == key::MOTD {
        Some(0)
    } else if k == key::VERSION {
        Some(0)
    } else if k == key::TIME {
        Some(0)
    } else if k == key::TRACE {
        Some(0)
    } else if k == key::ADMIN {
        Some(0)
    } else if k == key::INFO {
        Some(0)
    } else if k == key::SQUERY {
        Some(2)
    } else if k == key::KILL {
        Some(2)
    } else if k == key::PING {
        Some(1)
    } else if k == key::PONG {
        Some(1)
    } else if k == key::ERROR {
        Some(1)
    } else if k == key::AWAY {
        Some(0)
    } else if k == key::REHASH {
        Some(0)
    } else if k == key::DIE {
        Some(0)
    } else if k == key::RESTART {
        Some(0)
    } else if k == key::USERS {
        Some(0)
    } else if k == key::WALLOPS {
        Some(1)
    } else if k == key::MODE {
        Some(1)
    } else if k == key::SERVICE {
        Some(6)
    } else if k == key::LUSERS {
        Some(0)
    } else if k == key::STATS {
        Some(0)
    } else if k == key::LINKS {
        Some(0)
    } else if k == key::CONNECT {
        Some(2)
    } else if k == key::SERVLIST {
        Some(0)
    } else if k == key::WHO {
        Some(0)
    } else if k == key::WHOIS {
        Some(1)
    } else if k == key::WHOWAS {
        Some(1)
    } else if k == key::SUMMON {
        Some(1)
    } else if k == key::USERHOST {
        Some(1)
    } else if k == key::ISON {
        Some(1)
    } else {
        None
    }
}

/// The command that the word with key `k` and the parameters `e` stand for.
///
/// A text is taken from the parameter at its position, a list is the
/// parameter at its position split at the commas, and an optional text is
/// present where the message has a parameter at its position. A command of
/// one text takes the last parameter. Parameters beyond those the command
/// has a use for are ignored. Too few parameters, or a word that is not in
/// the table, give `None`.
pub open spec fn decode(k: u64, e: Seq<Seq<u8>>) -> Option<CommandView> {
    if k == key::PASS {
        if e.len() >= 1 { Some(Command::PASS(e.last())) } else { None }
    } else if k == key::NICK {
        if e.len() >= 1 { Some(Command::NICK(e.last())) } else { None }
    } else if k == key::USER {
        if e.len() >= 4 { Some(Command::USER(e[0], e[1], e[2], e[3])) } else { None }
    } else if k == key::OPER {
        if e.len() >= 2 { Some(Command::OPER(e[0], e[1])) } else { None }
    } else if k == key::QUIT {
        Some(Command::QUIT(opt_at(e, 0)))
    } else if k == key::SQUIT {
        if e.len() >= 2 { Some(Command::SQUIT(e[0], e[1])) } else { None }
    } else if k == key::JOIN {
        if e.len() >= 1 { Some(Command::JOIN(split_list(e[0]), if e.len() >= 2 { split_list(e[1]) } else { Seq::empty() })) } else { None }
    } else if k == key::PART {
        if e.len() >= 1 { Some(Command::PART(split_list(e[0]), opt_at(e, 1))) } else { None }
    } else if k == key::TOPIC {
        if e.len() >= 1 { Some(Command::TOPIC(e[0], opt_at(e, 1))) } else { None }
    } else if k == key::NAMES {
        Some(Command::NAMES(if e.len() >= 1 { split_list(e[0]) } else { Seq::empty() }, opt_at(e, 1)))
    } else if k == key::LIST {
        Some(Command::LIST(if e.len() >= 1 { split_list(e[0]) } else { Seq::empty() }, opt_at(e, 1)))
    } else if k == key::INVITE {
        if e.len() >= 2 { Some(Command::INVITE(e[0], e[1])) } else { None }
    } else if k == key::KICK {
        if e.len() >= 2 { Some(Command::KICK(split_list(e[0]), split_list(e[1]), opt_at(e, 2))) } else { None }
    } else if k == key::PRIVMSG {
        if e.len() >= 2 { Some(Command::PRIVMSG(e[0], e[1])) } else { None }
    } else if k == key::NOTICE {
        if e.len() >= 2 { Some(Command::NOTICE(e[0], e[1])) } else { None }
    } else if k == key::MOTD {
        Some(Command::MOTD(opt_at(e, 0)))
    } else if k == key::VERSION {
        Some(Command::VERSION(opt_at(e, 0)))
    } else if k == key::TIME {
        Some(Command::TIME(opt_at(e, 0)))
    } else if k == key::TRACE {
        Some(Command::TRACE(opt_at(e, 0)))
    } else if k == key::ADMIN {
        Some(Command::ADMIN(opt_at(e, 0)))
    } else if k == key::INFO {
        Some(Command::INFO(opt_at(e, 0)))
    } else if k == key::SQUERY {
        if e.len() >= 2 { Some(Command::SQUERY(e[0], e[1])) } else { None }
    } else if k == key::KILL {
        if e.len() >= 2 { Some(Command::KILL(e[0], e[1])) } else { None }
    } else if k == key::PING {
        if e.len() >= 1 { Some(Command::PING(e[0], opt_at(e, 1))) } else { None }
    } else if k == key::PONG {
        if e.len() >= 1 { Some(Command::PONG(e[0], opt_at(e, 1))) } else { None }
    } else if k == key::ERROR {
        if e.len() >= 1 { Some(Command::ERROR(e.last())) } else { None }
    } else if k == key::AWAY {
        Some(Command::AWAY(opt_at(e, 0)))
    } else if k == key::REHASH {
        Some(Command::REHASH)
    } else if k == key::DIE {
        Some(Command::DIE)
    } else if k == key::RESTART {
        Some(Command::RESTART)
    } else if k == key::USERS {
        Some(Command::USERS(opt_at(e, 0)))
    } else if k == key::WALLOPS {
        if e.len() >= 1 { Some(Command::WALLOPS(e.last())) } else { None }
    } else if k == key::MODE {
        if e.len() >= 1 { Some(Command::MODE(e[0], e.skip(1))) } else { None }
    } else if k == key::SERVICE {
        if e.len() >= 6 { Some(Command::SERVICE(e[0], e[1], e[2], e[3], e[4], e[5])) } else { None }
    } else if k == key::LUSERS {
        Some(Command::LUSERS(opt_at(e, 0), opt_at(e, 1)))
    } else if k == key::STATS {
        Some(Command::STATS(opt_at(e, 0), opt_at(e, 1)))
    } else if k == key::LINKS {
        if e.len() >= 2 { Some(Command::LINKS(Some(e[0]), Some(e[1]))) } else { Some(Command::LINKS(None, opt_at(e, 0))) }
    } else if k == key::CONNECT {
        if e.len() >= 2 { Some(Command::CONNECT(e[0], e[1], opt_at(e, 2))) } else { None }
    } else if k == key::SERVLIST {
        Some(Command::SERVLIST(opt_at(e, 0), opt_at(e, 1)))
    } else if k == key::WHO {
        Some(Command::WHO(opt_at(e, 0), e.len() >= 2 && e[1] == operators_flag()))
    } else if k == key::WHOIS {
        if e.len() >= 2 { Some(Command::WHOIS(Some(e[0]), split_list(e[1]))) } else if e.len() == 1 { Some(Command::WHOIS(None, split_list(e[0]))) } else { None }
    } else if k == key::WHOWAS {
        if e.len() >= 1 { Some(Command::WHOWAS(split_list(e[0]), opt_at(e, 1), opt_at(e, 2))) } else { None }
    } else if k == key::SUMMON {
        if e.len() >= 1 { Some(Command::SUMMON(e[0], opt_at(e, 1), opt_at(e, 2))) } else { None }
    } else if k == key::USERHOST {
        if e.len() >= 1 { Some(Command::USERHOST(e)) } else { None }
    } else if k == key::ISON {
        if e.len() >= 1 { Some(Command::ISON(e)) } else { None }
    } else {
        None
    }
}

/// Element `i` of `f`, where there is one.
pub open spec fn opt_flag(f: Seq<bool>, i: int) -> Option<bool> {
    if 0 <= i < f.len() {
        Some(f[i])
    } else {
        None
    }
}

/// The forms of the items of the list that a parameter holds: every item
/// is raw bytes.
pub open spec fn split_forms(x: Seq<u8>) -> Seq<bool> {
    Seq::new(split_list(x).len(), |i: int| true)
}

/// The forms of the texts of the command that the word with key `k` and the
/// parameters `e` stand for, where `f` holds the form of each parameter: a
/// text has the form of the parameter it is taken from, and every item of a
/// list is raw bytes.
pub open spec fn decode_forms(k: u64, e: Seq<Seq<u8>>, f: Seq<bool>) -> Option<CommandForms> {
    if k == key::PASS {
        if e.len() >= 1 { Some(Command::PASS(f.last())) } else { None }
    } else if k == key::NICK {
        if e.len() >= 1 { Some(Command::NICK(f.last())) } else { None }
    } else if k == key::USER {
        if e.len() >= 4 { Some(Command::USER(f[0], f[1], f[2], f[3])) } else { None }
    } else if k == key::OPER {
        if e.len() >= 2 { Some(Command::OPER(f[0], f[1])) } else { None }
    } else if k == key::QUIT {
        Some(Command::QUIT(opt_flag(f, 0)))
    } else if k == key::SQUIT {
        if e.len() >= 2 { Some(Command::SQUIT(f[0], f[1])) } else { None }
    } else if k == key::JOIN {
        if e.len() >= 1 { Some(Command::JOIN(split_forms(e[0]), if e.len() >= 2 { split_forms(e[1]) } else { Seq::empty() })) } else { None }
    } else if k == key::PART {
        if e.len() >= 1 { Some(Command::PART(split_forms(e[0]), opt_flag(f, 1))) } else { None }
    } else if k == key::TOPIC {
        if e.len() >= 1 { Some(Command::TOPIC(f[0], opt_flag(f, 1))) } else { None }
    } else if k == key::NAMES {
        Some(Command::NAMES(if e.len() >= 1 { split_forms(e[0]) } else { Seq::empty() }, opt_flag(f, 1)))
    } else if k == key::LIST {
        Some(Command::LIST(if e.len() >= 1 { split_forms(e[0]) } else { Seq::empty() }, opt_flag(f, 1)))
    } else if k == key::INVITE {
        if e.len() >= 2 { Some(Command::INVITE(f[0], f[1])) } else { None }
    } else if k == key::KICK {
        if e.len() >= 2 { Some(Command::KICK(split_forms(e[0]), split_forms(e[1]), opt_flag(f, 2))) } else { None }
    } else if k == key::PRIVMSG {
        if e.len() >= 2 { Some(Command::PRIVMSG(f[0], f[1])) } else { None }
    } else if k == key::NOTICE {
        if e.len() >= 2 { Some(Command::NOTICE(f[0], f[1])) } else { None }
    } else if k == key::MOTD {
        Some(Command::MOTD(opt_flag(f, 0)))
    } else if k == key::VERSION {
        Some(Command::VERSION(opt_flag(f, 0)))
    } else if k == key::TIME {
        Some(Command::TIME(opt_flag(f, 0)))
    } else if k == key::TRACE {
        Some(Command::TRACE(opt_flag(f, 0)))
    } else if k == key::ADMIN {
        Some(Command::ADMIN(opt_flag(f, 0)))
    } else if k == key::INFO {
        Some(Command::INFO(opt_flag(f, 0)))
    } else if k == key::SQUERY {
        if e.len() >= 2 { Some(Command::SQUERY(f[0], f[1])) } else { None }
    } else if k == key::KILL {
        if e.len() >= 2 { Some(Command::KILL(f[0], f[1])) } else { None }
    } else if k == key::PING {
        if e.len() >= 1 { Some(Command::PING(f[0], opt_flag(f, 1))) } else { None }
    } else if k == key::PONG {
        if e.len() >= 1 { Some(Command::PONG(f[0], opt_flag(f, 1))) } else { None }
    } else if k == key::ERROR {
        if e.len() >= 1 { Some(Command::ERROR(f.last())) } else { None }
    } else if k == key::AWAY {
        Some(Command::AWAY(opt_flag(f, 0)))
    } else if k == key::REHASH {
        Some(Command::REHASH)
    } else if k == key::DIE {
        Some(Command::DIE)
    } else if k == key::RESTART {
        Some(Command::RESTART)
    } else if k == key::USERS {
        Some(Command::USERS(opt_flag(f, 0)))
    } else if k == key::WALLOPS {
        if e.len() >= 1 { Some(Command::WALLOPS(f.last())) } else { None }
    } else if k == key::MODE {
        if e.len() >= 1 { Some(Command::MODE(f[0], f.skip(1))) } else { None }
    } else if k == key::SERVICE {
        if e.len() >= 6 { Some(Command::SERVICE(f[0], f[1], f[2], f[3], f[4], f[5])) } else { None }
    } else if k == key::LUSERS {
        Some(Command::LUSERS(opt_flag(f, 0), opt_flag(f, 1)))
    } else if k == key::STATS {
        Some(Command::STATS(opt_flag(f, 0), opt_flag(f, 1)))
    } else if k == key::LINKS {
        if e.len() >= 2 { Some(Command::LINKS(Some(f[0]), Some(f[1]))) } else { Some(Command::LINKS(None, opt_flag(f, 0))) }
    } else if k == key::CONNECT {
        if e.len() >= 2 { Some(Command::CONNECT(f[0], f[1], opt_flag(f, 2))) } else { None }
    } else if k == key::SERVLIST {
        Some(Command::SERVLIST(opt_flag(f, 0), opt_flag(f, 1)))
    } else if k == key::WHO {
        Some(Command::WHO(opt_flag(f, 0), e.len() >= 2 && e[1] == operators_flag()))
    } else if k == key::WHOIS {
        if e.len() >= 2 { Some(Command::WHOIS(Some(f[0]), split_forms(e[1]))) } else if e.len() == 1 { Some(Command::WHOIS(None, split_forms(e[0]))) } else { None }
    } else if k == key::WHOWAS {
        if e.len() >= 1 { Some(Command::WHOWAS(split_forms(e[0]), opt_flag(f, 1), opt_flag(f, 2))) } else { None }
    } else if k == key::SUMMON {
        if e.len() >= 1 { Some(Command::SUMMON(f[0], opt_flag(f, 1), opt_flag(f, 2))) } else { None }
    } else if k == key::USERHOST {
        if e.len() >= 1 { Some(Command::USERHOST(f)) } else { None }
    } else if k == key::ISON {
        if e.len() >= 1 { Some(Command::ISON(f)) } else { None }
    } else {
        None
    }
}

/// The forms of the texts of the command that the parts of a message stand
/// for, where `f` holds the form of each parameter.
pub open spec fn command_forms_of(p: Parts, f: Seq<bool>) -> Option<CommandForms> {
    match word_key(p.command) {
        Some(k) => decode_forms(k, p.elements(), f),
        None => None,
    }
}

/// The command that the parts of a message stand for, if any.
pub open spec fn command_of(p: Parts) -> Option<CommandView> {
    match word_key(p.command) {
        Some(k) => decode(k, p.elements()),
        None => None,
    }
}

/// The parts of a message without prefix, from the key of its command word.
pub open spec fn message_of(k: u64, params: Seq<Seq<u8>>, trailing: Option<Seq<u8>>) -> Parts {
    Parts { prefix: None, command: unpack(k as nat), params, trailing }
}

/// The parts of the message that carries a command.
///
/// Names and lists are parameters, a list with commas between its items;
/// free text is the trailing parameter. `JOIN` without keys has no second
/// parameter, and `NAMES` and `LIST` without channels have none at all.
/// `PING` and `PONG` send their last server as the trailing parameter.
pub open spec fn parts_of(c: CommandView) -> Parts {
    match c {
        Command::PASS(a) => message_of(key::PASS, seq![], Some(a)),
        Command::NICK(a) => message_of(key::NICK, seq![], Some(a)),
        Command::USER(a, b, c, d) => message_of(key::USER, seq![a, b, c], Some(d)),
        Command::OPER(a, b) => message_of(key::OPER, seq![a, b], None),
        Command::QUIT(a) => message_of(key::QUIT, seq![], a),
        Command::SQUIT(a, b) => message_of(key::SQUIT, seq![a], Some(b)),
        Command::JOIN(a, b) => message_of(
                key::JOIN,
                if b.len() == 0 { seq![join_list(a)] } else { seq![join_list(a), join_list(b)] },
                None,
            ),
        Command::PART(a, b) => message_of(key::PART, seq![join_list(a)], b),
        Command::TOPIC(a, b) => message_of(key::TOPIC, seq![a], b),
        Command::NAMES(a, b) => message_of(
                key::NAMES,
                if a.len() == 0 { seq![] } else { seq![join_list(a)] },
                b,
            ),
        Command::LIST(a, b) => message_of(
                key::LIST,
                if a.len() == 0 { seq![] } else { seq![join_list(a)] },
                b,
            ),
        Command::INVITE(a, b) => message_of(key::INVITE, seq![a], Some(b)),
        Command::KICK(a, b, c) => message_of(key::KICK, seq![join_list(a), join_list(b)], c),
        Command::PRIVMSG(a, b) => message_of(key::PRIVMSG, seq![a], Some(b)),
        Command::NOTICE(a, b) => message_of(key::NOTICE, seq![a], Some(b)),
        Command::MOTD(a) => message_of(key::MOTD, seq![], a),
        Command::VERSION(a) => message_of(key::VERSION, seq![], a),
        Command::TIME(a) => message_of(key::TIME, seq![], a),
        Command::TRACE(a) => message_of(key::TRACE, seq![], a),
        Command::ADMIN(a) => message_of(key::ADMIN, seq![], a),
        Command::INFO(a) => message_of(key::INFO, seq![], a),
        Command::SQUERY(a, b) => message_of(key::SQUERY, seq![a], Some(b)),
        Command::KILL(a, b) => message_of(key::KILL, seq![a], Some(b)),
        Command::PING(a, b) => match b {
                Some(x) => message_of(key::PING, seq![a], Some(x)),
                None => message_of(key::PING, seq![], Some(a)),
            },
        Command::PONG(a, b) => match b {
                Some(x) => message_of(key::PONG, seq![a], Some(x)),
                None => message_of(key::PONG, seq![], Some(a)),
            },
        Command::ERROR(a) => message_of(key::ERROR, seq![], Some(a)),
        Command::AWAY(a) => message_of(key::AWAY, seq![], a),
        Command::REHASH => message_of(key::REHASH, seq![], None),
        Command::DIE => message_of(key::DIE, seq![], None),
        Command::RESTART => message_of(key::RESTART, seq![], None),
        Command::USERS(a) => message_of(key::USERS, seq![], a),
        Command::WALLOPS(a) => message_of(key::WALLOPS, seq![], Some(a)),
        Command::MODE(a, b) => message_of(key::MODE, seq![a] + b, None),
        Command::SERVICE(a, b, c, d, f, g) => message_of(key::SERVICE, seq![a, b, c, d, f], Some(g)),
        Command::LUSERS(a, b) => message_of(key::LUSERS, opt_seq(a), b),
        Command::STATS(a, b) => message_of(key::STATS, opt_seq(a), b),
        Command::LINKS(a, b) => message_of(key::LINKS, if b is Some { opt_seq(a) + opt_seq(b) } else { seq![] }, None),
        Command::CONNECT(a, b, c) => message_of(key::CONNECT, seq![a, b], c),
        Command::SERVLIST(a, b) => message_of(key::SERVLIST, opt_seq(a), b),
        Command::WHO(a, b) => message_of(
                key::WHO,
                if a is Some && b { opt_seq(a) + seq![operators_flag()] } else { opt_seq(a) },
                None,
            ),
        Command::WHOIS(a, b) => message_of(key::WHOIS, opt_seq(a) + seq![join_list(b)], None),
        Command::WHOWAS(a, b, c) => message_of(key::WHOWAS, seq![join_list(a)] + opt_seq(b), c),
        Command::SUMMON(a, b, c) => message_of(key::SUMMON, seq![a] + opt_seq(b), c),
        Command::USERHOST(a) => message_of(key::USERHOST, a, None),
        Command::ISON(a) => message_of(key::ISON, a, None),
    }
}

/// Whether every item of a list can be found again after the list was
/// written into one parameter: the list is not empty, and no item is empty
/// or holds a comma, a space or a colon at its start.
pub open spec fn is_list(l: Seq<Seq<u8>>) -> bool {
    &&& l.len() > 0
    &&& forall|i: int| 0 <= i < l.len() ==> commaless(#[trigger] l[i]) && is_middle(l[i])
}

/// Whether every text of `l` can stand as a middle parameter.
pub open spec fn all_middle(l: Seq<Seq<u8>>) -> bool {
    forall|i: int| 0 <= i < l.len() ==> is_middle(#[trigger] l[i])
}

/// Whether reading the message that carries `c` gives `c` back: each text
/// that travels as a parameter in front of the trailing one is not empty,
/// holds no space and does not start with a colon; each list is not empty
/// and its items are such texts without commas. `JOIN` may have no keys,
/// and `NAMES` and `LIST` may have no channels if they have no target.
pub open spec fn round_trips(c: CommandView) -> bool {
    match c {
        Command::PASS(a) => true,
        Command::NICK(a) => true,
        Command::USER(a, b, c, d) => is_middle(a) && is_middle(b) && is_middle(c),
        Command::OPER(a, b) => is_middle(a) && is_middle(b),
        Command::QUIT(a) => true,
        Command::SQUIT(a, b) => is_middle(a),
        Command::JOIN(a, b) => is_list(a) && (b.len() == 0 || is_list(b)),
        Command::PART(a, b) => is_list(a),
        Command::TOPIC(a, b) => is_middle(a),
        Command::NAMES(a, b) => if a.len() == 0 { b is None } else { is_list(a) },
        Command::LIST(a, b) => if a.len() == 0 { b is None } else { is_list(a) },
        Command::INVITE(a, b) => is_middle(a),
        Command::KICK(a, b, c) => is_list(a) && is_list(b),
        Command::PRIVMSG(a, b) => is_middle(a),
        Command::NOTICE(a, b) => is_middle(a),
        Command::MOTD(a) => true,
        Command::VERSION(a) => true,
        Command::TIME(a) => true,
        Command::TRACE(a) => true,
        Command::ADMIN(a) => true,
        Command::INFO(a) => true,
        Command::SQUERY(a, b) => is_middle(a),
        Command::KILL(a, b) => is_middle(a),
        Command::PING(a, b) => b is Some ==> is_middle(a),
        Command::PONG(a, b) => b is Some ==> is_middle(a),
        Command::ERROR(a) => true,
        Command::AWAY(a) => true,
        Command::REHASH => true,
        Command::DIE => true,
        Command::RESTART => true,
        Command::USERS(a) => true,
        Command::WALLOPS(a) => true,
        Command::MODE(a, b) => is_middle(a) && all_middle(b),
        Command::SERVICE(a, b, c, d, f, g) => is_middle(a) && is_middle(b) && is_middle(c) && is_middle(d) && is_middle(f),
        Command::LUSERS(a, b) => match a {
            Some(x) => is_middle(x),
            None => b is None,
        },
        Command::STATS(a, b) => match a {
            Some(x) => is_middle(x),
            None => b is None,
        },
        Command::LINKS(a, b) => match b {
            Some(y) => is_middle(y) && (a matches Some(x) ==> is_middle(x)),
            None => a is None,
        },
        Command::CONNECT(a, b, c) => is_middle(a) && is_middle(b),
        Command::SERVLIST(a, b) => match a {
            Some(x) => is_middle(x),
            None => b is None,
        },
        Command::WHO(a, b) => match a {
            Some(x) => is_middle(x),
            None => !b,
        },
        Command::WHOIS(a, b) => is_list(b) && (a matches Some(x) ==> is_middle(x)),
        Command::WHOWAS(a, b, c) => is_list(a) && match b {
            Some(x) => is_middle(x),
            None => c is None,
        },
        Command::SUMMON(a, b, c) => is_middle(a) && match b {
            Some(x) => is_middle(x),
            None => c is None,
        },
        Command::USERHOST(a) => a.len() > 0 && all_middle(a),
        Command::ISON(a) => a.len() > 0 && all_middle(a),
    }
}

/// Element `i` of the parameters, where there is one.
fn get_opt<'a>(e: &Vec<TextSlice<'a>>, i: usize) -> (t: Option<TextSlice<'a>>)
    ensures
        opt_view(t) == opt_at(list_view(e@), i as int),
        opt_form(t) == opt_flag(list_forms(e@), i as int),
{
    if i < e.len() {
        Some(e[i])
    } else {
        None
    }
}

/// The list that element `i` of the parameters holds.
fn get_list<'a>(e: &Vec<TextSlice<'a>>, i: usize) -> (v: Vec<TextSlice<'a>>)
    requires
        i < e@.len(),
    ensures
        list_view(v@) == split_list(list_view(e@)[i as int]),
        list_forms(v@) == split_forms(list_view(e@)[i as int]),
{
    let v = split(e[i].as_bytes());
    assert(list_forms(v@) =~= split_forms(list_view(e@)[i as int]));
    v
}

/// The list that element `i` of the parameters holds, or the empty list
/// where there is no such element.
fn get_opt_list<'a>(e: &Vec<TextSlice<'a>>, i: usize) -> (v: Vec<TextSlice<'a>>)
    ensures
        list_view(v@) == if i < e@.len() {
            split_list(list_view(e@)[i as int])
        } else {
            Seq::empty()
        },
        list_forms(v@) == if i < e@.len() {
            split_forms(list_view(e@)[i as int])
        } else {
            Seq::empty()
        },
{
    if i < e.len() {
        get_list(e, i)
    } else {
        Vec::new()
    }
}

/// The parameters from element `from` on.
fn rest_of<'a>(e: &Vec<TextSlice<'a>>, from: usize) -> (v: Vec<TextSlice<'a>>)
    requires
        from <= e@.len(),
    ensures
        list_view(v@) == list_view(e@).skip(from as int),
        list_forms(v@) == list_forms(e@).skip(from as int),
{
    let mut v: Vec<TextSlice<'a>> = Vec::new();
    let mut i: usize = from;
    while i < e.len()
        invariant
            from <= i <= e@.len(),
            v@.len() == i - from,
            forall|x: int| 0 <= x < v@.len() ==> (#[trigger] v@[x]) == e@[from + x],
        decreases e@.len() - i,
    {
        v.push(e[i]);
        i += 1;
    }
    assert(list_view(v@) =~= list_view(e@).skip(from as int));
    assert(list_forms(v@) =~= list_forms(e@).skip(from as int));
    v
}

/// All the parameters.
fn all_of<'a>(e: &Vec<TextSlice<'a>>) -> (v: Vec<TextSlice<'a>>)
    ensures
        list_view(v@) == list_view(e@),
        list_forms(v@) == list_forms(e@),
{
    let v = rest_of(e, 0);
    assert(list_view(e@).skip(0) =~= list_view(e@));
    assert(list_forms(e@).skip(0) =~= list_forms(e@));
    v
}

/// Whether a parameter is the flag that asks `WHO` for operators only.
fn is_operators_flag(b: &[u8]) -> (r: bool)
    ensures
        r == (b@ == operators_flag()),
{
    let r = b.len() == 1 && b[0] == 0x6f;
    assert(r ==> b@ =~= operators_flag());
    assert(b@ == operators_flag() ==> b@.len() == 1 && b@[0] == 0x6f);
    r
}

/// The flag that asks `WHO` for operators only.
fn flag_bytes() -> (v: Vec<u8>)
    ensures
        v@ == operators_flag(),
{
    let mut v: Vec<u8> = Vec::new();
    v.push(0x6f);
    v
}

/// A copy of the bytes of a text.
fn owned(t: &TextSlice<'_>) -> (v: Vec<u8>)
    ensures
        v@ == t@,
{
    slice_to_vec(t.as_bytes())
}

/// A copy of the bytes of an optional text.
fn owned_opt(o: &Option<TextSlice<'_>>) -> (v: Option<Vec<u8>>)
    ensures
        opt_view(v) == opt_view(*o),
{
    match o {
        Some(t) => Some(owned(t)),
        None => None,
    }
}

/// No parameters.
fn params0() -> (v: Vec<Vec<u8>>)
    ensures
        list_view(v@) == Seq::<Seq<u8>>::empty(),
{
    Vec::new()
}

/// One parameter.
fn params1(a: Vec<u8>) -> (v: Vec<Vec<u8>>)
    ensures
        list_view(v@) == seq![a@],
{
    let mut v: Vec<Vec<u8>> = Vec::new();
    v.push(a);
    v
}

/// Two parameters.
fn params2(a: Vec<u8>, b: Vec<u8>) -> (v: Vec<Vec<u8>>)
    ensures
        list_view(v@) == seq![a@, b@],
{
    let mut v: Vec<Vec<u8>> = Vec::new();
    v.push(a);
    v.push(b);
    v
}

/// Three parameters.
fn params3(a: Vec<u8>, b: Vec<u8>, c: Vec<u8>) -> (v: Vec<Vec<u8>>)
    ensures
        list_view(v@) == seq![a@, b@, c@],
{
    let mut v: Vec<Vec<u8>> = Vec::new();
    v.push(a);
    v.push(b);
    v.push(c);
    v
}

/// Five parameters.
fn params5(a: Vec<u8>, b: Vec<u8>, c: Vec<u8>, d: Vec<u8>, f: Vec<u8>) -> (v: Vec<Vec<u8>>)
    ensures
        list_view(v@) == seq![a@, b@, c@, d@, f@],
{
    let mut v: Vec<Vec<u8>> = Vec::new();
    v.push(a);
    v.push(b);
    v.push(c);
    v.push(d);
    v.push(f);
    v
}

/// Each text of `l` as one parameter.
fn params_of(l: &Vec<TextSlice<'_>>) -> (v: Vec<Vec<u8>>)
    ensures
        list_view(v@) == list_view(l@),
{
    let v = params_with(params0(), l);
    assert(Seq::<Seq<u8>>::empty() + list_view(l@) =~= list_view(l@));
    v
}

/// The parameter that an optional text makes, or none.
fn params_opt(o: &Option<TextSlice<'_>>) -> (v: Vec<Vec<u8>>)
    ensures
        list_view(v@) == opt_seq(opt_view(*o)),
{
    match o {
        Some(t) => params1(owned(t)),
        None => params0(),
    }
}

/// The parameters of `first`, then those of `second`.
fn params_and(first: Vec<Vec<u8>>, second: Vec<Vec<u8>>) -> (v: Vec<Vec<u8>>)
    ensures
        list_view(v@) == list_view(first@) + list_view(second@),
{
    let mut v = first;
    let mut second = second;
    let ghost a = list_view(v@);
    let ghost b = list_view(second@);
    v.append(&mut second);
    assert(list_view(v@) =~= a + b);
    v
}

/// The parameters of `first`, then each text of `l` as one parameter.
fn params_with(first: Vec<Vec<u8>>, l: &Vec<TextSlice<'_>>) -> (v: Vec<Vec<u8>>)
    ensures
        list_view(v@) == list_view(first@) + list_view(l@),
{
    let mut v = first;
    let ghost a = list_view(v@);
    let mut i: usize = 0;
    while i < l.len()
        invariant
            i <= l@.len(),
            list_view(v@) == a + list_view(l@).subrange(0, i as int),
        decreases l@.len() - i,
    {
        let ghost before = list_view(v@);
        v.push(owned(&l[i]));
        i += 1;
        assert(list_view(v@) =~= before.push(l@[i - 1]@));
        assert(a + list_view(l@).subrange(0, i as int) =~= (a + list_view(l@).subrange(
            0,
            i - 1,
        )).push(l@[i - 1]@));
    }
    assert(list_view(l@).subrange(0, i as int) =~= list_view(l@));
    v
}

/// Owned copies of the texts of a list.
fn texts_of(l: &Vec<TextSlice<'_>>) -> (v: Vec<Text>)
    ensures
        list_view(v@) == list_view(l@),
        list_forms(v@) == list_forms(l@),
{
    let mut v: Vec<Text> = Vec::new();
    let mut i: usize = 0;
    while i < l.len()
        invariant
            i <= l@.len(),
            v@.len() == i,
            forall|x: int|
                0 <= x < i ==> (#[trigger] v@[x])@ == l@[x]@ && (v@[x] is Raw <==> l@[x] is Raw),
        decreases l@.len() - i,
    {
        v.push(l[i].to_text());
        i += 1;
    }
    assert(list_view(v@) =~= list_view(l@));
    assert(list_forms(v@) =~= list_forms(l@));
    v
}

/// The texts of a list, borrowed.
fn slices_of<'a>(l: &'a Vec<Text>) -> (v: Vec<TextSlice<'a>>)
    ensures
        list_view(v@) == list_view(l@),
        list_forms(v@) == list_forms(l@),
{
    let mut v: Vec<TextSlice<'a>> = Vec::new();
    let mut i: usize = 0;
    while i < l.len()
        invariant
            i <= l@.len(),
            v@.len() == i,
            forall|x: int|
                0 <= x < i ==> (#[trigger] v@[x])@ == l@[x]@ && (v@[x] is Raw <==> l@[x] is Raw),
        decreases l@.len() - i,
    {
        v.push(l[i].as_slice());
        i += 1;
    }
    assert(list_view(v@) =~= list_view(l@));
    assert(list_forms(v@) =~= list_forms(l@));
    v
}

/// An owned copy of an optional text.
fn text_of_opt(o: &Option<TextSlice<'_>>) -> (t: Option<Text>)
    ensures
        opt_view(t) == opt_view(*o),
        opt_form(t) == opt_form(*o),
{
    match o {
        Some(t) => Some(t.to_text()),
        None => None,
    }
}

/// An optional text, borrowed.
fn slice_of_opt<'a>(o: &'a Option<Text>) -> (t: Option<TextSlice<'a>>)
    ensures
        opt_view(t) == opt_view(*o),
        opt_form(t) == opt_form(*o),
{
    match o {
        Some(t) => Some(t.as_slice()),
        None => None,
    }
}

impl<'a> Command<TextSlice<'a>, Vec<TextSlice<'a>>> {
    /// Reads the command that a message carries.
    ///
    /// Returns `None` where the command word is not in the table or the
    /// message has fewer parameters than the command needs. The texts of the
    /// command are slices of the message: a text has the form of the
    /// parameter it is taken from, and the items of a list are raw bytes.
    #[verifier::rlimit(60)]
    pub fn from_message(msg: &'a Message) -> (r: Option<BorrowedCommand<'a>>)
        ensures
            opt_command_view(r) == command_of(msg@),
            opt_forms(r) == command_forms_of(msg@, msg.element_forms()),
    {
        let k = match key_of(msg.command().as_bytes()) {
            Some(k) => k,
            None => {
                return None;
            },
        };
        let e = msg.elements();
        let n = e.len();
        match k {
            key::PASS => if n >= 1 { Some(Command::PASS(e[n - 1])) } else { None },
            key::NICK => if n >= 1 { Some(Command::NICK(e[n - 1])) } else { None },
            key::USER => if n >= 4 { Some(Command::USER(e[0], e[1], e[2], e[3])) } else { None },
            key::OPER => if n >= 2 { Some(Command::OPER(e[0], e[1])) } else { None },
            key::QUIT => Some(Command::QUIT(get_opt(&e, 0))),
            key::SQUIT => if n >= 2 { Some(Command::SQUIT(e[0], e[1])) } else { None },
            key::JOIN => if n >= 1 { Some(Command::JOIN(get_list(&e, 0), get_opt_list(&e, 1))) } else { None },
            key::PART => if n >= 1 { Some(Command::PART(get_list(&e, 0), get_opt(&e, 1))) } else { None },
            key::TOPIC => if n >= 1 { Some(Command::TOPIC(e[0], get_opt(&e, 1))) } else { None },
            key::NAMES => Some(Command::NAMES(get_opt_list(&e, 0), get_opt(&e, 1))),
            key::LIST => Some(Command::LIST(get_opt_list(&e, 0), get_opt(&e, 1))),
            key::INVITE => if n >= 2 { Some(Command::INVITE(e[0], e[1])) } else { None },
            key::KICK => if n >= 2 { Some(Command::KICK(get_list(&e, 0), get_list(&e, 1), get_opt(&e, 2))) } else { None },
            key::PRIVMSG => if n >= 2 { Some(Command::PRIVMSG(e[0], e[1])) } else { None },
            key::NOTICE => if n >= 2 { Some(Command::NOTICE(e[0], e[1])) } else { None },
            key::MOTD => Some(Command::MOTD(get_opt(&e, 0))),
            key::VERSION => Some(Command::VERSION(get_opt(&e, 0))),
            key::TIME => Some(Command::TIME(get_opt(&e, 0))),
            key::TRACE => Some(Command::TRACE(get_opt(&e, 0))),
            key::ADMIN => Some(Command::ADMIN(get_opt(&e, 0))),
            key::INFO => Some(Command::INFO(get_opt(&e, 0))),
            key::SQUERY => if n >= 2 { Some(Command::SQUERY(e[0], e[1])) } else { None },
            key::KILL => if n >= 2 { Some(Command::KILL(e[0], e[1])) } else { None },
            key::PING => if n >= 1 { Some(Command::PING(e[0], get_opt(&e, 1))) } else { None },
            key::PONG => if n >= 1 { Some(Command::PONG(e[0], get_opt(&e, 1))) } else { None },
            key::ERROR => if n >= 1 { Some(Command::ERROR(e[n - 1])) } else { None },
            key::AWAY => Some(Command::AWAY(get_opt(&e, 0))),
            key::REHASH => Some(Command::REHASH),
            key::DIE => Some(Command::DIE),
            key::RESTART => Some(Command::RESTART),
            key::USERS => Some(Command::USERS(get_opt(&e, 0))),
            key::WALLOPS => if n >= 1 { Some(Command::WALLOPS(e[n - 1])) } else { None },
            key::MODE => if n >= 1 { Some(Command::MODE(e[0], rest_of(&e, 1))) } else { None },
            key::SERVICE => if n >= 6 { Some(Command::SERVICE(e[0], e[1], e[2], e[3], e[4], e[5])) } else { None },
            key::LUSERS => Some(Command::LUSERS(get_opt(&e, 0), get_opt(&e, 1))),
            key::STATS => Some(Command::STATS(get_opt(&e, 0), get_opt(&e, 1))),
            key::LINKS => if n >= 2 { Some(Command::LINKS(Some(e[0]), Some(e[1]))) } else { Some(Command::LINKS(None, get_opt(&e, 0))) },
            key::CONNECT => if n >= 2 { Some(Command::CONNECT(e[0], e[1], get_opt(&e, 2))) } else { None },
            key::SERVLIST => Some(Command::SERVLIST(get_opt(&e, 0), get_opt(&e, 1))),
            key::WHO => Some(Command::WHO(get_opt(&e, 0), n >= 2 && is_operators_flag(e[1].as_bytes()))),
            key::WHOIS => if n >= 2 { Some(Command::WHOIS(Some(e[0]), get_list(&e, 1))) } else if n == 1 { Some(Command::WHOIS(None, get_list(&e, 0))) } else { None },
            key::WHOWAS => if n >= 1 { Some(Command::WHOWAS(get_list(&e, 0), get_opt(&e, 1), get_opt(&e, 2))) } else { None },
            key::SUMMON => if n >= 1 { Some(Command::SUMMON(e[0], get_opt(&e, 1), get_opt(&e, 2))) } else { None },
            key::USERHOST => if n >= 1 { Some(Command::USERHOST(all_of(&e))) } else { None },
            key::ISON => if n >= 1 { Some(Command::ISON(all_of(&e))) } else { None },
            _ => None,
        }
    }

    /// The key of the command word, the parameters and the trailing
    /// parameter of the message that carries the command.
    fn encode(&self) -> (r: (u64, Vec<Vec<u8>>, Option<Vec<u8>>))
        ensures
            message_of(r.0, list_view(r.1@), opt_view(r.2)) == parts_of(self@),
    {
        match self {
            Command::PASS(a) => (key::PASS, params0(), Some(owned(a))),
            Command::NICK(a) => (key::NICK, params0(), Some(owned(a))),
            Command::USER(a, b, c, d) => (key::USER, params3(owned(a), owned(b), owned(c)), Some(owned(d))),
            Command::OPER(a, b) => (key::OPER, params2(owned(a), owned(b)), None),
            Command::QUIT(a) => (key::QUIT, params0(), owned_opt(a)),
            Command::SQUIT(a, b) => (key::SQUIT, params1(owned(a)), Some(owned(b))),
            Command::JOIN(a, b) => if b.len() == 0 {
                (key::JOIN, params1(join(a)), None)
            } else {
                (key::JOIN, params2(join(a), join(b)), None)
            },
            Command::PART(a, b) => (key::PART, params1(join(a)), owned_opt(b)),
            Command::TOPIC(a, b) => (key::TOPIC, params1(owned(a)), owned_opt(b)),
            Command::NAMES(a, b) => if a.len() == 0 {
                (key::NAMES, params0(), owned_opt(b))
            } else {
                (key::NAMES, params1(join(a)), owned_opt(b))
            },
            Command::LIST(a, b) => if a.len() == 0 {
                (key::LIST, params0(), owned_opt(b))
            } else {
                (key::LIST, params1(join(a)), owned_opt(b))
            },
            Command::INVITE(a, b) => (key::INVITE, params1(owned(a)), Some(owned(b))),
            Command::KICK(a, b, c) => (key::KICK, params2(join(a), join(b)), owned_opt(c)),
            Command::PRIVMSG(a, b) => (key::PRIVMSG, params1(owned(a)), Some(owned(b))),
            Command::NOTICE(a, b) => (key::NOTICE, params1(owned(a)), Some(owned(b))),
            Command::MOTD(a) => (key::MOTD, params0(), owned_opt(a)),
            Command::VERSION(a) => (key::VERSION, params0(), owned_opt(a)),
            Command::TIME(a) => (key::TIME, params0(), owned_opt(a)),
            Command::TRACE(a) => (key::TRACE, params0(), owned_opt(a)),
            Command::ADMIN(a) => (key::ADMIN, params0(), owned_opt(a)),
            Command::INFO(a) => (key::INFO, params0(), owned_opt(a)),
            Command::SQUERY(a, b) => (key::SQUERY, params1(owned(a)), Some(owned(b))),
            Command::KILL(a, b) => (key::KILL, params1(owned(a)), Some(owned(b))),
            Command::PING(a, b) => match b {
                Some(x) => (key::PING, params1(owned(a)), Some(owned(x))),
                None => (key::PING, params0(), Some(owned(a))),
            },
            Command::PONG(a, b) => match b {
                Some(x) => (key::PONG, params1(owned(a)), Some(owned(x))),
                None => (key::PONG, params0(), Some(owned(a))),
            },
            Command::ERROR(a) => (key::ERROR, params0(), Some(owned(a))),
            Command::AWAY(a) => (key::AWAY, params0(), owned_opt(a)),
            Command::REHASH => (key::REHASH, params0(), None),
            Command::DIE => (key::DIE, params0(), None),
            Command::RESTART => (key::RESTART, params0(), None),
            Command::USERS(a) => (key::USERS, params0(), owned_opt(a)),
            Command::WALLOPS(a) => (key::WALLOPS, params0(), Some(owned(a))),
            Command::MODE(a, b) => (key::MODE, params_with(params1(owned(a)), b), None),
            Command::SERVICE(a, b, c, d, f, g) => (
                key::SERVICE,
                params5(owned(a), owned(b), owned(c), owned(d), owned(f)),
                Some(owned(g)),
            ),
            Command::LUSERS(a, b) => (key::LUSERS, params_opt(a), owned_opt(b)),
            Command::STATS(a, b) => (key::STATS, params_opt(a), owned_opt(b)),
            Command::LINKS(a, b) => if b.is_some() {
                (key::LINKS, params_and(params_opt(a), params_opt(b)), None)
            } else {
                (key::LINKS, params0(), None)
            },
            Command::CONNECT(a, b, c) => (key::CONNECT, params2(owned(a), owned(b)), owned_opt(c)),
            Command::SERVLIST(a, b) => (key::SERVLIST, params_opt(a), owned_opt(b)),
            Command::WHO(a, b) => if a.is_some() && *b {
                (key::WHO, params_and(params_opt(a), params1(flag_bytes())), None)
            } else {
                (key::WHO, params_opt(a), None)
            },
            Command::WHOIS(a, b) => (key::WHOIS, params_and(params_opt(a), params1(join(b))), None),
            Command::WHOWAS(a, b, c) => (key::WHOWAS, params_and(params1(join(a)), params_opt(b)), owned_opt(c)),
            Command::SUMMON(a, b, c) => (key::SUMMON, params_and(params1(owned(a)), params_opt(b)), owned_opt(c)),
            Command::USERHOST(a) => (key::USERHOST, params_of(a), None),
            Command::ISON(a) => (key::ISON, params_of(a), None),
        }
    }

    /// The line that carries the command, of whatever length.
    pub fn to_wire(&self) -> (line: Vec<u8>)
        ensures
            line@ == wire_format(parts_of(self@)),
    {
        let (k, params, trailing) = self.encode();
        let word = word_of(k);
        let mut refs: Vec<&[u8]> = Vec::new();
        let mut i: usize = 0;
        while i < params.len()
            invariant
                i <= params@.len(),
                refs@.len() == i,
                forall|x: int| 0 <= x < i ==> (#[trigger] refs@[x])@ == params@[x]@,
            decreases params@.len() - i,
        {
            refs.push(params[i].as_slice());
            i += 1;
        }
        let last: Option<&[u8]> = match &trailing {
            Some(t) => Some(t.as_slice()),
            None => None,
        };
        let word = word.as_slice();
        proof {
            let given = given_parts(None, word, refs@, last);
            assert(given.params =~= list_view(params@));
            assert(given == parts_of(self@));
        }
        Message::wire_bytes(None, word, &refs, last)
    }

    /// Writes the command into a message, or returns `None` where the line
    /// would be too long for 16-bit offsets.
    pub fn try_to_message(&self) -> (r: Option<Message>)
        ensures
            match r {
                Some(m) => {
                    &&& wire_format(parts_of(self@)).len() <= MAX_OFFSET
                    &&& m.wire() == wire_format(parts_of(self@))
                    &&& m@ == parts_of(self@)
                },
                None => wire_format(parts_of(self@)).len() > MAX_OFFSET,
            },
    {
        let (k, params, trailing) = self.encode();
        let word = word_of(k);
        let mut refs: Vec<&[u8]> = Vec::new();
        let mut i: usize = 0;
        while i < params.len()
            invariant
                i <= params@.len(),
                refs@.len() == i,
                forall|x: int| 0 <= x < i ==> (#[trigger] refs@[x])@ == params@[x]@,
            decreases params@.len() - i,
        {
            refs.push(params[i].as_slice());
            i += 1;
        }
        let last: Option<&[u8]> = match &trailing {
            Some(t) => Some(t.as_slice()),
            None => None,
        };
        let word = word.as_slice();
        proof {
            let given = given_parts(None, word, refs@, last);
            assert(given.params =~= list_view(params@));
            assert(given == parts_of(self@));
        }
        Message::try_format(None, word, &refs, last)
    }

    /// Writes the command into a message. The line must be short enough for
    /// 16-bit offsets.
    pub fn to_message(&self) -> (m: Message)
        requires
            wire_format(parts_of(self@)).len() <= MAX_OFFSET,
        ensures
            m.wire() == wire_format(parts_of(self@)),
            m@ == parts_of(self@),
    {
        self.try_to_message().unwrap()
    }

    /// The same command with texts of its own, which no longer borrow from
    /// the message.
    #[verifier::rlimit(100)]
    pub fn to_owned(&self) -> (c: OwnedCommand)
        ensures
            c@ == self@,
            forms(c) == forms(*self),
    {
        match self {
            Command::PASS(a) => Command::PASS(a.to_text()),
            Command::NICK(a) => Command::NICK(a.to_text()),
            Command::USER(a, b, c, d) => Command::USER(a.to_text(), b.to_text(), c.to_text(), d.to_text()),
            Command::OPER(a, b) => Command::OPER(a.to_text(), b.to_text()),
            Command::QUIT(a) => Command::QUIT(text_of_opt(a)),
            Command::SQUIT(a, b) => Command::SQUIT(a.to_text(), b.to_text()),
            Command::JOIN(a, b) => Command::JOIN(texts_of(a), texts_of(b)),
            Command::PART(a, b) => Command::PART(texts_of(a), text_of_opt(b)),
            Command::TOPIC(a, b) => Command::TOPIC(a.to_text(), text_of_opt(b)),
            Command::NAMES(a, b) => Command::NAMES(texts_of(a), text_of_opt(b)),
            Command::LIST(a, b) => Command::LIST(texts_of(a), text_of_opt(b)),
            Command::INVITE(a, b) => Command::INVITE(a.to_text(), b.to_text()),
            Command::KICK(a, b, c) => Command::KICK(texts_of(a), texts_of(b), text_of_opt(c)),
            Command::PRIVMSG(a, b) => Command::PRIVMSG(a.to_text(), b.to_text()),
            Command::NOTICE(a, b) => Command::NOTICE(a.to_text(), b.to_text()),
            Command::MOTD(a) => Command::MOTD(text_of_opt(a)),
            Command::VERSION(a) => Command::VERSION(text_of_opt(a)),
            Command::TIME(a) => Command::TIME(text_of_opt(a)),
            Command::TRACE(a) => Command::TRACE(text_of_opt(a)),
            Command::ADMIN(a) => Command::ADMIN(text_of_opt(a)),
            Command::INFO(a) => Command::INFO(text_of_opt(a)),
            Command::SQUERY(a, b) => Command::SQUERY(a.to_text(), b.to_text()),
            Command::KILL(a, b) => Command::KILL(a.to_text(), b.to_text()),
            Command::PING(a, b) => Command::PING(a.to_text(), text_of_opt(b)),
            Command::PONG(a, b) => Command::PONG(a.to_text(), text_of_opt(b)),
            Command::ERROR(a) => Command::ERROR(a.to_text()),
            Command::AWAY(a) => Command::AWAY(text_of_opt(a)),
            Command::REHASH => Command::REHASH,
            Command::DIE => Command::DIE,
            Command::RESTART => Command::RESTART,
            Command::USERS(a) => Command::USERS(text_of_opt(a)),
            Command::WALLOPS(a) => Command::WALLOPS(a.to_text()),
            Command::MODE(a, b) => Command::MODE(a.to_text(), texts_of(b)),
            Command::SERVICE(a, b, c, d, f, g) => Command::SERVICE(a.to_text(), b.to_text(), c.to_text(), d.to_text(), f.to_text(), g.to_text()),
            Command::LUSERS(a, b) => Command::LUSERS(text_of_opt(a), text_of_opt(b)),
            Command::STATS(a, b) => Command::STATS(text_of_opt(a), text_of_opt(b)),
            Command::LINKS(a, b) => Command::LINKS(text_of_opt(a), text_of_opt(b)),
            Command::CONNECT(a, b, c) => Command::CONNECT(a.to_text(), b.to_text(), text_of_opt(c)),
            Command::SERVLIST(a, b) => Command::SERVLIST(text_of_opt(a), text_of_opt(b)),
            Command::WHO(a, b) => Command::WHO(text_of_opt(a), *b),
            Command::WHOIS(a, b) => Command::WHOIS(text_of_opt(a), texts_of(b)),
            Command::WHOWAS(a, b, c) => Command::WHOWAS(texts_of(a), text_of_opt(b), text_of_opt(c)),
            Command::SUMMON(a, b, c) => Command::SUMMON(a.to_text(), text_of_opt(b), text_of_opt(c)),
            Command::USERHOST(a) => Command::USERHOST(texts_of(a)),
            Command::ISON(a) => Command::ISON(texts_of(a)),
        }
    }
}

impl Command<Text, Vec<Text>> {
    /// The same command with its texts borrowed.
    #[verifier::rlimit(100)]
    pub fn borrow(&self) -> (c: BorrowedCommand<'_>)
        ensures
            c@ == self@,
            forms(c) == forms(*self),
    {
        match self {
            Command::PASS(a) => Command::PASS(a.as_slice()),
            Command::NICK(a) => Command::NICK(a.as_slice()),
            Command::USER(a, b, c, d) => Command::USER(a.as_slice(), b.as_slice(), c.as_slice(), d.as_slice()),
            Command::OPER(a, b) => Command::OPER(a.as_slice(), b.as_slice()),
            Command::QUIT(a) => Command::QUIT(slice_of_opt(a)),
            Command::SQUIT(a, b) => Command::SQUIT(a.as_slice(), b.as_slice()),
            Command::JOIN(a, b) => Command::JOIN(slices_of(a), slices_of(b)),
            Command::PART(a, b) => Command::PART(slices_of(a), slice_of_opt(b)),
            Command::TOPIC(a, b) => Command::TOPIC(a.as_slice(), slice_of_opt(b)),
            Command::NAMES(a, b) => Command::NAMES(slices_of(a), slice_of_opt(b)),
            Command::LIST(a, b) => Command::LIST(slices_of(a), slice_of_opt(b)),
            Command::INVITE(a, b) => Command::INVITE(a.as_slice(), b.as_slice()),
            Command::KICK(a, b, c) => Command::KICK(slices_of(a), slices_of(b), slice_of_opt(c)),
            Command::PRIVMSG(a, b) => Command::PRIVMSG(a.as_slice(), b.as_slice()),
            Command::NOTICE(a, b) => Command::NOTICE(a.as_slice(), b.as_slice()),
            Command::MOTD(a) => Command::MOTD(slice_of_opt(a)),
            Command::VERSION(a) => Command::VERSION(slice_of_opt(a)),
            Command::TIME(a) => Command::TIME(slice_of_opt(a)),
            Command::TRACE(a) => Command::TRACE(slice_of_opt(a)),
            Command::ADMIN(a) => Command::ADMIN(slice_of_opt(a)),
            Command::INFO(a) => Command::INFO(slice_of_opt(a)),
            Command::SQUERY(a, b) => Command::SQUERY(a.as_slice(), b.as_slice()),
            Command::KILL(a, b) => Command::KILL(a.as_slice(), b.as_slice()),
            Command::PING(a, b) => Command::PING(a.as_slice(), slice_of_opt(b)),
            Command::PONG(a, b) => Command::PONG(a.as_slice(), slice_of_opt(b)),
            Command::ERROR(a) => Command::ERROR(a.as_slice()),
            Command::AWAY(a) => Command::AWAY(slice_of_opt(a)),
            Command::REHASH => Command::REHASH,
            Command::DIE => Command::DIE,
            Command::RESTART => Command::RESTART,
            Command::USERS(a) => Command::USERS(slice_of_opt(a)),
            Command::WALLOPS(a) => Command::WALLOPS(a.as_slice()),
            Command::MODE(a, b) => Command::MODE(a.as_slice(), slices_of(b)),
            Command::SERVICE(a, b, c, d, f, g) => Command::SERVICE(a.as_slice(), b.as_slice(), c.as_slice(), d.as_slice(), f.as_slice(), g.as_slice()),
            Command::LUSERS(a, b) => Command::LUSERS(slice_of_opt(a), slice_of_opt(b)),
            Command::STATS(a, b) => Command::STATS(slice_of_opt(a), slice_of_opt(b)),
            Command::LINKS(a, b) => Command::LINKS(slice_of_opt(a), slice_of_opt(b)),
            Command::CONNECT(a, b, c) => Command::CONNECT(a.as_slice(), b.as_slice(), slice_of_opt(c)),
            Command::SERVLIST(a, b) => Command::SERVLIST(slice_of_opt(a), slice_of_opt(b)),
            Command::WHO(a, b) => Command::WHO(slice_of_opt(a), *b),
            Command::WHOIS(a, b) => Command::WHOIS(slice_of_opt(a), slices_of(b)),
            Command::WHOWAS(a, b, c) => Command::WHOWAS(slices_of(a), slice_of_opt(b), slice_of_opt(c)),
            Command::SUMMON(a, b, c) => Command::SUMMON(a.as_slice(), slice_of_opt(b), slice_of_opt(c)),
            Command::USERHOST(a) => Command::USERHOST(slices_of(a)),
            Command::ISON(a) => Command::ISON(slices_of(a)),
        }
    }

    /// The line that carries the command, of whatever length.
    pub fn to_wire(&self) -> (line: Vec<u8>)
        ensures
            line@ == wire_format(parts_of(self@)),
    {
        self.borrow().to_wire()
    }

    /// Writes the command into a message, or returns `None` where the line
    /// would be too long for 16-bit offsets.
    pub fn try_to_message(&self) -> (r: Option<Message>)
        ensures
            match r {
                Some(m) => {
                    &&& wire_format(parts_of(self@)).len() <= MAX_OFFSET
                    &&& m.wire() == wire_format(parts_of(self@))
                    &&& m@ == parts_of(self@)
                },
                None => wire_format(parts_of(self@)).len() > MAX_OFFSET,
            },
    {
        self.borrow().try_to_message()
    }

    /// Writes the command into a message. The line must be short enough for
    /// 16-bit offsets.
    pub fn to_message(&self) -> (m: Message)
        requires
            wire_format(parts_of(self@)).len() <= MAX_OFFSET,
        ensures
            m.wire() == wire_format(parts_of(self@)),
            m@ == parts_of(self@),
    {
        self.borrow().to_message()
    }
}


/// Every word of the table is made of capital letters.
pub proof fn lemma_command_words(k: u64)
    requires
        min_arity(k) is Some,
    ensures
        k > 0,
        is_letters(k as nat),
{
    reveal_with_fuel(is_letters, 9);
}

/// The parameter that holds a list of names is itself a name: it is not
/// empty, holds no space and does not start with a colon.
pub proof fn lemma_joined_is_middle(l: Seq<Seq<u8>>)
    requires
        is_list(l),
    ensures
        is_middle(join_list(l)),
        join_list(l)[0] == l[0][0],
    decreases l.len(),
{
    assert(is_middle(l[0]));
    if l.len() > 1 {
        let init = l.drop_last();
        assert forall|i: int| 0 <= i < init.len() implies commaless(#[trigger] init[i])
            && is_middle(init[i]) by {
            assert(init[i] == l[i]);
        }
        lemma_joined_is_middle(init);
        assert(is_middle(l.last()));
        let j = join_list(l);
        let a = join_list(init);
        assert(j == a + seq![COMMA] + l.last());
        assert forall|i: int| 0 <= i < j.len() implies j[i] != SPACE by {
            if i < a.len() {
                assert(j[i] == a[i]);
            } else if i > a.len() {
                assert(j[i] == l.last()[i - a.len() - 1]);
            }
        }
        assert(j[0] == a[0]);
    }
}

/// The flag that asks `WHO` for operators only can stand as a parameter.
pub proof fn lemma_flag_is_middle()
    ensures
        is_middle(operators_flag()),
{
    assert(operators_flag()[0] == 0x6fu8);
}

/// The parts of the message that carries a command that round-trips are
/// well formed: parsing the formatted line finds them again.
pub proof fn lemma_parts_well_formed(c: CommandView)
    requires
        round_trips(c),
    ensures
        parts_of(c).well_formed(),
{
    let p = parts_of(c);
    match c {
        Command::PASS(a) => {
            lemma_command_words(key::PASS);
            lemma_letters_unpack(key::PASS as nat);
        },
        Command::NICK(a) => {
            lemma_command_words(key::NICK);
            lemma_letters_unpack(key::NICK as nat);
        },
        Command::USER(a, b, c, d) => {
            lemma_command_words(key::USER);
            lemma_letters_unpack(key::USER as nat);
        },
        Command::OPER(a, b) => {
            lemma_command_words(key::OPER);
            lemma_letters_unpack(key::OPER as nat);
        },
        Command::QUIT(a) => {
            lemma_command_words(key::QUIT);
            lemma_letters_unpack(key::QUIT as nat);
        },
        Command::SQUIT(a, b) => {
            lemma_command_words(key::SQUIT);
            lemma_letters_unpack(key::SQUIT as nat);
        },
        Command::JOIN(a, b) => {
            lemma_command_words(key::JOIN);
            lemma_letters_unpack(key::JOIN as nat);
            lemma_joined_is_middle(a);
            if b.len() > 0 {
                lemma_joined_is_middle(b);
            }
        },
        Command::PART(a, b) => {
            lemma_command_words(key::PART);
            lemma_letters_unpack(key::PART as nat);
            lemma_joined_is_middle(a);
        },
        Command::TOPIC(a, b) => {
            lemma_command_words(key::TOPIC);
            lemma_letters_unpack(key::TOPIC as nat);
        },
        Command::NAMES(a, b) => {
            lemma_command_words(key::NAMES);
            lemma_letters_unpack(key::NAMES as nat);
            if a.len() > 0 {
                lemma_joined_is_middle(a);
            }
        },
        Command::LIST(a, b) => {
            lemma_command_words(key::LIST);
            lemma_letters_unpack(key::LIST as nat);
            if a.len() > 0 {
                lemma_joined_is_middle(a);
            }
        },
        Command::INVITE(a, b) => {
            lemma_command_words(key::INVITE);
            lemma_letters_unpack(key::INVITE as nat);
        },
        Command::KICK(a, b, c) => {
            lemma_command_words(key::KICK);
            lemma_letters_unpack(key::KICK as nat);
            lemma_joined_is_middle(a);
            lemma_joined_is_middle(b);
        },
        Command::PRIVMSG(a, b) => {
            lemma_command_words(key::PRIVMSG);
            lemma_letters_unpack(key::PRIVMSG as nat);
        },
        Command::NOTICE(a, b) => {
            lemma_command_words(key::NOTICE);
            lemma_letters_unpack(key::NOTICE as nat);
        },
        Command::MOTD(a) => {
            lemma_command_words(key::MOTD);
            lemma_letters_unpack(key::MOTD as nat);
        },
        Command::VERSION(a) => {
            lemma_command_words(key::VERSION);
            lemma_letters_unpack(key::VERSION as nat);
        },
        Command::TIME(a) => {
            lemma_command_words(key::TIME);
            lemma_letters_unpack(key::TIME as nat);
        },
        Command::TRACE(a) => {
            lemma_command_words(key::TRACE);
            lemma_letters_unpack(key::TRACE as nat);
        },
        Command::ADMIN(a) => {
            lemma_command_words(key::ADMIN);
            lemma_letters_unpack(key::ADMIN as nat);
        },
        Command::INFO(a) => {
            lemma_command_words(key::INFO);
            lemma_letters_unpack(key::INFO as nat);
        },
        Command::SQUERY(a, b) => {
            lemma_command_words(key::SQUERY);
            lemma_letters_unpack(key::SQUERY as nat);
        },
        Command::KILL(a, b) => {
            lemma_command_words(key::KILL);
            lemma_letters_unpack(key::KILL as nat);
        },
        Command::PING(a, b) => {
            lemma_command_words(key::PING);
            lemma_letters_unpack(key::PING as nat);
        },
        Command::PONG(a, b) => {
            lemma_command_words(key::PONG);
            lemma_letters_unpack(key::PONG as nat);
        },
        Command::ERROR(a) => {
            lemma_command_words(key::ERROR);
            lemma_letters_unpack(key::ERROR as nat);
        },
        Command::AWAY(a) => {
            lemma_command_words(key::AWAY);
            lemma_letters_unpack(key::AWAY as nat);
        },
        Command::REHASH => {
            lemma_command_words(key::REHASH);
            lemma_letters_unpack(key::REHASH as nat);
        },
        Command::DIE => {
            lemma_command_words(key::DIE);
            lemma_letters_unpack(key::DIE as nat);
        },
        Command::RESTART => {
            lemma_command_words(key::RESTART);
            lemma_letters_unpack(key::RESTART as nat);
        },
        Command::USERS(a) => {
            lemma_command_words(key::USERS);
            lemma_letters_unpack(key::USERS as nat);
        },
        Command::WALLOPS(a) => {
            lemma_command_words(key::WALLOPS);
            lemma_letters_unpack(key::WALLOPS as nat);
        },
        Command::MODE(a, b) => {
            lemma_command_words(key::MODE);
            lemma_letters_unpack(key::MODE as nat);
            assert forall|k: int| 0 <= k < p.params.len() implies is_middle(
                #[trigger] p.params[k],
            ) by {
                if k > 0 {
                    assert(p.params[k] == b[k - 1]);
                }
            }
        },
        Command::SERVICE(a, b, c, d, f, g) => {
            lemma_command_words(key::SERVICE);
            lemma_letters_unpack(key::SERVICE as nat);
        },
        Command::LUSERS(a, b) => {
            lemma_command_words(key::LUSERS);
            lemma_letters_unpack(key::LUSERS as nat);
        },
        Command::STATS(a, b) => {
            lemma_command_words(key::STATS);
            lemma_letters_unpack(key::STATS as nat);
        },
        Command::LINKS(a, b) => {
            lemma_command_words(key::LINKS);
            lemma_letters_unpack(key::LINKS as nat);
        },
        Command::CONNECT(a, b, c) => {
            lemma_command_words(key::CONNECT);
            lemma_letters_unpack(key::CONNECT as nat);
        },
        Command::SERVLIST(a, b) => {
            lemma_command_words(key::SERVLIST);
            lemma_letters_unpack(key::SERVLIST as nat);
        },
        Command::WHO(a, b) => {
            lemma_command_words(key::WHO);
            lemma_letters_unpack(key::WHO as nat);
            lemma_flag_is_middle();
        },
        Command::WHOIS(a, b) => {
            lemma_command_words(key::WHOIS);
            lemma_letters_unpack(key::WHOIS as nat);
            lemma_joined_is_middle(b);
        },
        Command::WHOWAS(a, b, c) => {
            lemma_command_words(key::WHOWAS);
            lemma_letters_unpack(key::WHOWAS as nat);
            lemma_joined_is_middle(a);
        },
        Command::SUMMON(a, b, c) => {
            lemma_command_words(key::SUMMON);
            lemma_letters_unpack(key::SUMMON as nat);
        },
        Command::USERHOST(a) => {
            lemma_command_words(key::USERHOST);
            lemma_letters_unpack(key::USERHOST as nat);
        },
        Command::ISON(a) => {
            lemma_command_words(key::ISON);
            lemma_letters_unpack(key::ISON as nat);
        },
    }
}

/// Reading the parts that a command was written into gives the command
/// back, if the command round-trips.
pub proof fn lemma_read_written(c: CommandView)
    requires
        round_trips(c),
    ensures
        command_of(parts_of(c)) == Some(c),
{
    let e = parts_of(c).elements();
    match c {
        Command::PASS(a) => {
            lemma_key_of_unpacked(key::PASS);
            assert(e =~= seq![a]);
        },
        Command::NICK(a) => {
            lemma_key_of_unpacked(key::NICK);
            assert(e =~= seq![a]);
        },
        Command::USER(a, b, c, d) => {
            lemma_key_of_unpacked(key::USER);
            assert(e =~= seq![a, b, c, d]);
        },
        Command::OPER(a, b) => {
            lemma_key_of_unpacked(key::OPER);
            assert(e =~= seq![a, b]);
        },
        Command::QUIT(a) => {
            lemma_key_of_unpacked(key::QUIT);
            match a {
                Some(x) => {
                    assert(e =~= seq![x]);
                },
                None => {
                    assert(e =~= seq![]);
                },
            }
        },
        Command::SQUIT(a, b) => {
            lemma_key_of_unpacked(key::SQUIT);
            assert(e =~= seq![a, b]);
        },
        Command::JOIN(a, b) => {
            lemma_key_of_unpacked(key::JOIN);
            lemma_split_join(a);
            if b.len() == 0 {
                assert(e =~= seq![join_list(a)]);
                assert(b =~= Seq::empty());
            } else {
                lemma_split_join(b);
                assert(e =~= seq![join_list(a), join_list(b)]);
            }
        },
        Command::PART(a, b) => {
            lemma_key_of_unpacked(key::PART);
            lemma_split_join(a);
            match b {
                Some(x) => {
                    assert(e =~= seq![join_list(a), x]);
                },
                None => {
                    assert(e =~= seq![join_list(a)]);
                },
            }
        },
        Command::TOPIC(a, b) => {
            lemma_key_of_unpacked(key::TOPIC);
            match b {
                Some(x) => {
                    assert(e =~= seq![a, x]);
                },
                None => {
                    assert(e =~= seq![a]);
                },
            }
        },
        Command::NAMES(a, b) => {
            lemma_key_of_unpacked(key::NAMES);
            if a.len() == 0 {
                assert(e =~= seq![]);
                assert(a =~= Seq::empty());
            } else {
                lemma_split_join(a);
                match b {
                    Some(x) => {
                        assert(e =~= seq![join_list(a), x]);
                    },
                    None => {
                        assert(e =~= seq![join_list(a)]);
                    },
                }
            }
        },
        Command::LIST(a, b) => {
            lemma_key_of_unpacked(key::LIST);
            if a.len() == 0 {
                assert(e =~= seq![]);
                assert(a =~= Seq::empty());
            } else {
                lemma_split_join(a);
                match b {
                    Some(x) => {
                        assert(e =~= seq![join_list(a), x]);
                    },
                    None => {
                        assert(e =~= seq![join_list(a)]);
                    },
                }
            }
        },
        Command::INVITE(a, b) => {
            lemma_key_of_unpacked(key::INVITE);
            assert(e =~= seq![a, b]);
        },
        Command::KICK(a, b, c) => {
            lemma_key_of_unpacked(key::KICK);
            lemma_split_join(a);
            lemma_split_join(b);
            match c {
                Some(x) => {
                    assert(e =~= seq![join_list(a), join_list(b), x]);
                },
                None => {
                    assert(e =~= seq![join_list(a), join_list(b)]);
                },
            }
        },
        Command::PRIVMSG(a, b) => {
            lemma_key_of_unpacked(key::PRIVMSG);
            assert(e =~= seq![a, b]);
        },
        Command::NOTICE(a, b) => {
            lemma_key_of_unpacked(key::NOTICE);
            assert(e =~= seq![a, b]);
        },
        Command::MOTD(a) => {
            lemma_key_of_unpacked(key::MOTD);
            match a {
                Some(x) => {
                    assert(e =~= seq![x]);
                },
                None => {
                    assert(e =~= seq![]);
                },
            }
        },
        Command::VERSION(a) => {
            lemma_key_of_unpacked(key::VERSION);
            match a {
                Some(x) => {
                    assert(e =~= seq![x]);
                },
                None => {
                    assert(e =~= seq![]);
                },
            }
        },
        Command::TIME(a) => {
            lemma_key_of_unpacked(key::TIME);
            match a {
                Some(x) => {
                    assert(e =~= seq![x]);
                },
                None => {
                    assert(e =~= seq![]);
                },
            }
        },
        Command::TRACE(a) => {
            lemma_key_of_unpacked(key::TRACE);
            match a {
                Some(x) => {
                    assert(e =~= seq![x]);
                },
                None => {
                    assert(e =~= seq![]);
                },
            }
        },
        Command::ADMIN(a) => {
            lemma_key_of_unpacked(key::ADMIN);
            match a {
                Some(x) => {
                    assert(e =~= seq![x]);
                },
                None => {
                    assert(e =~= seq![]);
                },
            }
        },
        Command::INFO(a) => {
            lemma_key_of_unpacked(key::INFO);
            match a {
                Some(x) => {
                    assert(e =~= seq![x]);
                },
                None => {
                    assert(e =~= seq![]);
                },
            }
        },
        Command::SQUERY(a, b) => {
            lemma_key_of_unpacked(key::SQUERY);
            assert(e =~= seq![a, b]);
        },
        Command::KILL(a, b) => {
            lemma_key_of_unpacked(key::KILL);
            assert(e =~= seq![a, b]);
        },
        Command::PING(a, b) => {
            lemma_key_of_unpacked(key::PING);
            match b {
                Some(x) => {
                    assert(e =~= seq![a, x]);
                },
                None => {
                    assert(e =~= seq![a]);
                },
            }
        },
        Command::PONG(a, b) => {
            lemma_key_of_unpacked(key::PONG);
            match b {
                Some(x) => {
                    assert(e =~= seq![a, x]);
                },
                None => {
                    assert(e =~= seq![a]);
                },
            }
        },
        Command::ERROR(a) => {
            lemma_key_of_unpacked(key::ERROR);
            assert(e =~= seq![a]);
        },
        Command::AWAY(a) => {
            lemma_key_of_unpacked(key::AWAY);
            match a {
                Some(x) => {
                    assert(e =~= seq![x]);
                },
                None => {
                    assert(e =~= seq![]);
                },
            }
        },
        Command::REHASH => {
            lemma_key_of_unpacked(key::REHASH);
            assert(e =~= seq![]);
        },
        Command::DIE => {
            lemma_key_of_unpacked(key::DIE);
            assert(e =~= seq![]);
        },
        Command::RESTART => {
            lemma_key_of_unpacked(key::RESTART);
            assert(e =~= seq![]);
        },
        Command::USERS(a) => {
            lemma_key_of_unpacked(key::USERS);
            match a {
                Some(x) => {
                    assert(e =~= seq![x]);
                },
                None => {
                    assert(e =~= seq![]);
                },
            }
        },
        Command::WALLOPS(a) => {
            lemma_key_of_unpacked(key::WALLOPS);
            assert(e =~= seq![a]);
        },
        Command::MODE(a, b) => {
            lemma_key_of_unpacked(key::MODE);
            assert(e =~= seq![a] + b);
            assert(e.skip(1) =~= b);
        },
        Command::SERVICE(a, b, c, d, f, g) => {
            lemma_key_of_unpacked(key::SERVICE);
            assert(e =~= seq![a, b, c, d, f, g]);
        },
        Command::LUSERS(a, b) => {
            lemma_key_of_unpacked(key::LUSERS);
            assert(e =~= opt_seq(a) + opt_seq(b));
        },
        Command::STATS(a, b) => {
            lemma_key_of_unpacked(key::STATS);
            assert(e =~= opt_seq(a) + opt_seq(b));
        },
        Command::LINKS(a, b) => {
            lemma_key_of_unpacked(key::LINKS);
            assert(e =~= if b is Some { opt_seq(a) + opt_seq(b) } else { seq![] });
        },
        Command::CONNECT(a, b, c) => {
            lemma_key_of_unpacked(key::CONNECT);
            assert(e =~= seq![a, b] + opt_seq(c));
        },
        Command::SERVLIST(a, b) => {
            lemma_key_of_unpacked(key::SERVLIST);
            assert(e =~= opt_seq(a) + opt_seq(b));
        },
        Command::WHO(a, b) => {
            lemma_key_of_unpacked(key::WHO);
            lemma_flag_is_middle();
            assert(e =~= if a is Some && b { opt_seq(a) + seq![operators_flag()] } else { opt_seq(a) });
        },
        Command::WHOIS(a, b) => {
            lemma_key_of_unpacked(key::WHOIS);
            lemma_split_join(b);
            assert(e =~= opt_seq(a) + seq![join_list(b)]);
        },
        Command::WHOWAS(a, b, c) => {
            lemma_key_of_unpacked(key::WHOWAS);
            lemma_split_join(a);
            assert(e =~= seq![join_list(a)] + opt_seq(b) + opt_seq(c));
        },
        Command::SUMMON(a, b, c) => {
            lemma_key_of_unpacked(key::SUMMON);
            assert(e =~= seq![a] + opt_seq(b) + opt_seq(c));
        },
        Command::USERHOST(a) => {
            lemma_key_of_unpacked(key::USERHOST);
            assert(e =~= a);
        },
        Command::ISON(a) => {
            lemma_key_of_unpacked(key::ISON);
            assert(e =~= a);
        },
    }
}

/// A command that round-trips survives the wire: the line that the
/// formatter writes for it parses, and the parsed message carries the same
/// command.
pub proof fn lemma_command_survives(c: CommandView)
    requires
        round_trips(c),
    ensures
        layout_of(wire_format(parts_of(c))) matches Some(l) && command_of(
            l.parts(wire_format(parts_of(c))),
        ) == Some(c),
{
    lemma_parts_well_formed(c);
    lemma_parse_format(parts_of(c));
    lemma_read_written(c);
}

/// A word of the table with enough parameters is a command, and with too
/// few it is none: never a command with a part missing.
pub proof fn lemma_arity_enforced(k: u64, e: Seq<Seq<u8>>)
    ensures
        decode(k, e) is Some <==> (min_arity(k) matches Some(n) && e.len() >= n),
{
}

/// A message whose word is in the table but which has fewer parameters than
/// the command needs carries no command.
pub proof fn lemma_too_few_parameters(p: Parts, k: u64, n: nat)
    requires
        word_key(p.command) == Some(k),
        min_arity(k) == Some(n),
        p.elements().len() < n,
    ensures
        command_of(p) is None,
{
    lemma_arity_enforced(k, p.elements());
}

} // verus!
