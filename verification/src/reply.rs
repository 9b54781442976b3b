//! The numeric replies of a server, as typed values.
//!
//! A reply is known by its three-digit numeric. Each reply carries one text,
//! the last parameter of its message; `RPL_LISTSTART` carries none.

use crate::grammar::{layout_of, lemma_parse_format, wire_format, Parts, MAX_OFFSET};
use crate::message::{given_parts, Message};
use crate::text::{opt_form, opt_view, Form, Text, TextSlice};
use crate::token::{code_digits, code_of, digits_of, lemma_code_of_digits, numeric_code};
use vstd::prelude::*;

verus! {

/// A reply with a text of type `T`.
///
/// Three forms are in use: [`BorrowedReply`], whose text is a slice of the
/// message it was read from; [`OwnedReply`], which owns its text; and
/// [`ReplyView`], the bytes that both stand for.
#[allow(non_camel_case_types)]
#[derive(Debug, Clone, PartialEq, Eq, Hash)]
pub enum Reply<T> {
    /// `001`: `Welcome to the Internet Relay Network <nick>!<user>@<host>`
    RPL_WELCOME(T),
    /// `002`: `Your host is <servername>, running version <ver>`
    RPL_YOURHOST(T),
    /// `003`: `This server was created <date>`
    RPL_CREATED(T),
    /// `004`: `<servername> <version> <available user modes> <available channel
    /// modes>`
    RPL_MYINFO(T),
    /// `005`: `Try server <server name>, port <port number>`
    RPL_BOUNCE(T),
    /// `302`: `":*1<reply> *( " " <reply> )"`
    RPL_USERHOST(T),
    /// `303`: `":*1<nick> *( " " <nick> )"`
    RPL_ISON(T),
    /// `301`: `<nick> :<away message>`
    RPL_AWAY(T),
    /// `305`: `:You are no longer marked as being away`
    RPL_UNAWAY(T),
    /// `306`: `:You have been marked as being away`
    RPL_NOWAWAY(T),
    /// `311`: `<nick> <user> <host> * :<real name>`
    RPL_WHOISUSER(T),
    /// `312`: `<nick> <server> :<server info>`
    RPL_WHOISSERVER(T),
    /// `313`: `<nick> :is an IRC operator`
    RPL_WHOISOPERATOR(T),
    /// `317`: `<nick> <integer> :seconds idle`
    RPL_WHOISIDLE(T),
    /// `318`: `<nick> :End of WHOIS list`
    RPL_ENDOFWHOIS(T),
    /// `319`: `"<nick> :*( ( "@" / "+" ) <channel> " " )"`
    RPL_WHOISCHANNELS(T),
    /// `314`: `<nick> <user> <host> * :<real name>`
    RPL_WHOWASUSER(T),
    /// `369`: `<nick> :End of WHOWAS`
    RPL_ENDOFWHOWAS(T),
    /// `321`
    RPL_LISTSTART,
    /// `322`: `<channel> <# visible> :<topic>`
    RPL_LIST(T),
    /// `323`: `:End of LIST`
    RPL_LISTEND(T),
    /// `325`: `<channel> <nickname>`
    RPL_UNIQOPIS(T),
    /// `324`: `<channel> <mode> <mode params>`
    RPL_CHANNELMODEIS(T),
    /// `331`: `<channel> :No topic is set`
    RPL_NOTOPIC(T),
    /// `332`: `<channel> :<topic>`
    RPL_TOPIC(T),
    /// `341`: `<channel> <nick>`
    RPL_INVITING(T),
    /// `342`: `<user> :Summoning user to IRC`
    RPL_SUMMONING(T),
    /// `346`: `<channel> <invitemask>`
    RPL_INVITELIST(T),
    /// `347`: `<channel> :End of channel invite list`
    RPL_ENDOFINVITELIST(T),
    /// `348`: `<channel> <exceptionmask>`
    RPL_EXCEPTLIST(T),
    /// `349`: `<channel> :End of channel exception list`
    RPL_ENDOFEXCEPTLIST(T),
    /// `351`: `<version>.<debuglevel> <server> :<comments>`
    RPL_VERSION(T),
    /// `352`: `"<channel> <user> <host> <server> <nick> ( "H" / "G" > ["*"] [ ( "@" /
    /// "+" ) ] :<hopcount> <real name>"`
    RPL_WHOREPLY(T),
    /// `315`: `<name> :End of WHO list`
    RPL_ENDOFWHO(T),
    /// `353`: `"( "=" / "*" / "@" ) <channel> :[ "@" / "+" ] <nick> *( " " [ "@" /
    /// "+" ] <nick> )`
    RPL_NAMREPLY(T),
    /// `366`: `<channel> :End of NAMES list`
    RPL_ENDOFNAMES(T),
    /// `364`: `<mask> <server> :<hopcount> <server info>`
    RPL_LINKS(T),
    /// `365`: `<mask> :End of LINKS list`
    RPL_ENDOFLINKS(T),
    /// `367`: `<channel> <banmask>`
    RPL_BANLIST(T),
    /// `368`: `<channel> :End of channel ban list`
    RPL_ENDOFBANLIST(T),
    /// `371`: `:<string>`
    RPL_INFO(T),
    /// `374`: `:End of INFO list`
    RPL_ENDOFINFO(T),
    /// `375`: `:- <server> Message of the day - `
    RPL_MOTDSTART(T),
    /// `372`: `:- <text>`
    RPL_MOTD(T),
    /// `376`: `:End of MOTD command`
    RPL_ENDOFMOTD(T),
    /// `381`: `:You are now an IRC operator`
    RPL_YOUREOPER(T),
    /// `382`: `<config file> :Rehashing`
    RPL_REHASHING(T),
    /// `383`: `You are service <servicename>`
    RPL_YOURESERVICE(T),
    /// `391`: `<server> :<string showing server's local time>`
    RPL_TIME(T),
    /// `392`: `:UserID   Terminal  Host`
    RPL_USERSSTART(T),
    /// `393`: `:<username> <ttyline> <hostname>`
    RPL_USERS(T),
    /// `394`: `:End of users`
    RPL_ENDOFUSERS(T),
    /// `395`: `:Nobody logged in`
    RPL_NOUSERS(T),
    /// `200`: `Link <version & debug level> <destination> <next server> V<protocol
    /// version> <link uptime in seconds> <backstream sendq> <upstream sendq>`
    RPL_TRACELINK(T),
    /// `201`: `Try. <class> <server>`
    RPL_TRACECONNECTING(T),
    /// `202`: `H.S. <class> <server>`
    RPL_TRACEHANDSHAKE(T),
    /// `203`: `???? <class> [<client IP address in dot form>]`
    RPL_TRACEUNKNOWN(T),
    /// `204`: `Oper <class> <nick>`
    RPL_TRACEOPERATOR(T),
    /// `205`: `User <class> <nick>`
    RPL_TRACEUSER(T),
    /// `206`: `Serv <class> <int>S <int>C <server> <nick!user|*!*>@<host|server>
    /// V<protocol version>`
    RPL_TRACESERVER(T),
    /// `207`: `Service <class> <name> <type> <active type>`
    RPL_TRACESERVICE(T),
    /// `208`: `<newtype> 0 <client name>`
    RPL_TRACENEWTYPE(T),
    /// `209`: `Class <class> <count>`
    RPL_TRACECLASS(T),
    /// `210`: `Unused.`
    RPL_TRACERECONNECT(T),
    /// `261`: `File <logfile> <debug level>`
    RPL_TRACELOG(T),
    /// `262`: `<server name> <version & debug level> :End of TRACE`
    RPL_TRACEEND(T),
    /// `211`: `<linkname> <sendq> <sent messages> <sent Kbytes> <received messages>
    /// <received Kbytes> <time open>`
    RPL_STATSLINKINFO(T),
    /// `212`: `<command> <count> <byte count> <remote count>`
    RPL_STATSCOMMANDS(T),
    /// `219`: `<stats letter> :End of STATS report`
    RPL_ENDOFSTATS(T),
    /// `242`: `:Server Up %d days %d:%02d:%02d`
    RPL_STATSUPTIME(T),
    /// `243`: `O <hostmask> * <name>`
    RPL_STATSOLINE(T),
    /// `221`: `<user mode string>`
    RPL_UMODEIS(T),
    /// `234`: `<name> <server> <mask> <type> <hopcount> <info>`
    RPL_SERVLIST(T),
    /// `235`: `<mask> <type> :End of service listing`
    RPL_SERVLISTEND(T),
    /// `251`: `:There are <integer> users and <integer> services on <integer>
    /// servers`
    RPL_LUSERCLIENT(T),
    /// `252`: `<integer> :operator(s) online`
    RPL_LUSEROP(T),
    /// `253`: `<integer> :unknown connection(s)`
    RPL_LUSERUNKNOWN(T),
    /// `254`: `<integer> :channels formed`
    RPL_LUSERCHANNELS(T),
    /// `255`: `:I have <integer> clients and <integer> servers`
    RPL_LUSERME(T),
    /// `256`: `<server> :Administrative info`
    RPL_ADMINME(T),
    /// `257`: `:<admin info>`
    RPL_ADMINLOC1(T),
    /// `258`: `:<admin info>`
    RPL_ADMINLOC2(T),
    /// `259`: `:<admin info>`
    RPL_ADMINEMAIL(T),
    /// `263`: `<command> :Please wait a while and try again.`
    RPL_TRYAGAIN(T),
    /// `401`: `<nickname> :No such nick/channel`
    ERR_NOSUCHNICK(T),
    /// `402`: `<server name> :No such server`
    ERR_NOSUCHSERVER(T),
    /// `403`: `<channel name> :No such channel`
    ERR_NOSUCHCHANNEL(T),
    /// `404`: `<channel name> :Cannot send to channel`
    ERR_CANNOTSENDTOCHAN(T),
    /// `405`: `<channel name> :You have joined too many channels`
    ERR_TOOMANYCHANNELS(T),
    /// `406`: `<nickname> :There was no such nickname`
    ERR_WASNOSUCHNICK(T),
    /// `407`: `<target> :<error code> recipients. <abort message>`
    ERR_TOOMANYTARGETS(T),
    /// `408`: `<service name> :No such service`
    ERR_NOSUCHSERVICE(T),
    /// `409`: `:No origin specified`
    ERR_NOORIGIN(T),
    /// `411`: `:No recipient given (<command>)`
    ERR_NORECIPIENT(T),
    /// `412`: `:No text to send`
    ERR_NOTEXTTOSEND(T),
    /// `413`: `<mask> :No toplevel domain specified`
    ERR_NOTOPLEVEL(T),
    /// `414`: `<mask> :Wildcard in toplevel domain`
    ERR_WILDTOPLEVEL(T),
    /// `415`: `<mask> :Bad Server/host mask`
    ERR_BADMASK(T),
    /// `421`: `<command> :Unknown command`
    ERR_UNKNOWNCOMMAND(T),
    /// `422`: `:MOTD File is missing`
    ERR_NOMOTD(T),
    /// `423`: `<server> :No administrative info available`
    ERR_NOADMININFO(T),
    /// `424`: `:File error doing <file op> on <file>`
    ERR_FILEERROR(T),
    /// `431`: `:No nickname given`
    ERR_NONICKNAMEGIVEN(T),
    /// `432`: `<nick> :Erroneous nickname`
    ERR_ERRONEUSNICKNAME(T),
    /// `433`: `<nick> :Nickname is already in use`
    ERR_NICKNAMEINUSE(T),
    /// `436`: `<nick> :Nickname collision KILL from <user>@<host>`
    ERR_NICKCOLLISION(T),
    /// `437`: `<nick/channel> :Nick/channel is temporarily unavailable`
    ERR_UNAVAILRESOURCE(T),
    /// `441`: `<nick> <channel> :They aren't on that channel`
    ERR_USERNOTINCHANNEL(T),
    /// `442`: `<channel> :You're not on that channel`
    ERR_NOTONCHANNEL(T),
    /// `443`: `<user> <channel> :is already on channel`
    ERR_USERONCHANNEL(T),
    /// `444`: `<user> :User not logged in`
    ERR_NOLOGIN(T),
    /// `445`: `:SUMMON has been disabled`
    ERR_SUMMONDISABLED(T),
    /// `446`: `:USERS has been disabled`
    ERR_USERSDISABLED(T),
    /// `451`: `:You have not registered`
    ERR_NOTREGISTERED(T),
    /// `461`: `<command> :Not enough parameters`
    ERR_NEEDMOREPARAMS(T),
    /// `462`: `:Unauthorized command (already registered)`
    ERR_ALREADYREGISTRED(T),
    /// `463`: `:Your host isn't among the privileged`
    ERR_NOPERMFORHOST(T),
    /// `464`: `:Password incorrect`
    ERR_PASSWDMISMATCH(T),
    /// `465`: `:You are banned from this server`
    ERR_YOUREBANNEDCREEP(T),
    /// `466`
    ERR_YOUWILLBEBANNED(T),
    /// `467`: `<channel> :Channel key already set`
    ERR_KEYSET(T),
    /// `471`: `<channel> :Cannot join channel (+l)`
    ERR_CHANNELISFULL(T),
    /// `472`: `<char> :is unknown mode char to me for <channel>`
    ERR_UNKNOWNMODE(T),
    /// `473`: `<channel> :Cannot join channel (+i)`
    ERR_INVITEONLYCHAN(T),
    /// `474`: `<channel> :Cannot join channel (+b)`
    ERR_BANNEDFROMCHAN(T),
    /// `475`: `<channel> :Cannot join channel (+k)`
    ERR_BADCHANNELKEY(T),
    /// `476`: `<channel> :Bad Channel Mask`
    ERR_BADCHANMASK(T),
    /// `477`: `<channel> :Channel doesn't support modes`
    ERR_NOCHANMODES(T),
    /// `478`: `<channel> <char> :Channel list is full`
    ERR_BANLISTFULL(T),
    /// `481`: `:Permission Denied- You're not an IRC operator`
    ERR_NOPRIVILEGES(T),
    /// `482`: `<channel> :You're not channel operator`
    ERR_CHANOPRIVSNEEDED(T),
    /// `483`: `:You can't kill a server!`
    ERR_CANTKILLSERVER(T),
    /// `484`: `:Your connection is restricted!`
    ERR_RESTRICTED(T),
    /// `485`
    ERR_UNIQOPPRIVSNEEDED(T),
    /// `491`: `:No O-lines for your host`
    ERR_NOOPERHOST(T),
    /// `501`: `:Unknown MODE flag`
    ERR_UMODEUNKNOWNFLAG(T),
    /// `502`: `:Cannot change mode for other users`
    ERR_USERSDONTMATCH(T),
}

/// A reply whose text is borrowed from a message.
pub type BorrowedReply<'a> = Reply<TextSlice<'a>>;

/// A reply that owns its text.
pub type OwnedReply = Reply<Text>;

/// A reply as bytes.
pub type ReplyView = Reply<Seq<u8>>;

/// The numeric of the one reply without text.
pub const LIST_START: u16 = 321;

impl<T: View<V = Seq<u8>>> View for Reply<T> {
    type V = ReplyView;

    /// The reply with its text replaced by its bytes.
    open spec fn view(&self) -> ReplyView {
        match *self {
            Reply::RPL_WELCOME(t) => Reply::RPL_WELCOME(t@),
            Reply::RPL_YOURHOST(t) => Reply::RPL_YOURHOST(t@),
            Reply::RPL_CREATED(t) => Reply::RPL_CREATED(t@),
            Reply::RPL_MYINFO(t) => Reply::RPL_MYINFO(t@),
            Reply::RPL_BOUNCE(t) => Reply::RPL_BOUNCE(t@),
            Reply::RPL_USERHOST(t) => Reply::RPL_USERHOST(t@),
            Reply::RPL_ISON(t) => Reply::RPL_ISON(t@),
            Reply::RPL_AWAY(t) => Reply::RPL_AWAY(t@),
            Reply::RPL_UNAWAY(t) => Reply::RPL_UNAWAY(t@),
            Reply::RPL_NOWAWAY(t) => Reply::RPL_NOWAWAY(t@),
            Reply::RPL_WHOISUSER(t) => Reply::RPL_WHOISUSER(t@),
            Reply::RPL_WHOISSERVER(t) => Reply::RPL_WHOISSERVER(t@),
            Reply::RPL_WHOISOPERATOR(t) => Reply::RPL_WHOISOPERATOR(t@),
            Reply::RPL_WHOISIDLE(t) => Reply::RPL_WHOISIDLE(t@),
            Reply::RPL_ENDOFWHOIS(t) => Reply::RPL_ENDOFWHOIS(t@),
            Reply::RPL_WHOISCHANNELS(t) => Reply::RPL_WHOISCHANNELS(t@),
            Reply::RPL_WHOWASUSER(t) => Reply::RPL_WHOWASUSER(t@),
            Reply::RPL_ENDOFWHOWAS(t) => Reply::RPL_ENDOFWHOWAS(t@),
            Reply::RPL_LISTSTART => Reply::RPL_LISTSTART,
            Reply::RPL_LIST(t) => Reply::RPL_LIST(t@),
            Reply::RPL_LISTEND(t) => Reply::RPL_LISTEND(t@),
            Reply::RPL_UNIQOPIS(t) => Reply::RPL_UNIQOPIS(t@),
            Reply::RPL_CHANNELMODEIS(t) => Reply::RPL_CHANNELMODEIS(t@),
            Reply::RPL_NOTOPIC(t) => Reply::RPL_NOTOPIC(t@),
            Reply::RPL_TOPIC(t) => Reply::RPL_TOPIC(t@),
            Reply::RPL_INVITING(t) => Reply::RPL_INVITING(t@),
            Reply::RPL_SUMMONING(t) => Reply::RPL_SUMMONING(t@),
            Reply::RPL_INVITELIST(t) => Reply::RPL_INVITELIST(t@),
            Reply::RPL_ENDOFINVITELIST(t) => Reply::RPL_ENDOFINVITELIST(t@),
            Reply::RPL_EXCEPTLIST(t) => Reply::RPL_EXCEPTLIST(t@),
            Reply::RPL_ENDOFEXCEPTLIST(t) => Reply::RPL_ENDOFEXCEPTLIST(t@),
            Reply::RPL_VERSION(t) => Reply::RPL_VERSION(t@),
            Reply::RPL_WHOREPLY(t) => Reply::RPL_WHOREPLY(t@),
            Reply::RPL_ENDOFWHO(t) => Reply::RPL_ENDOFWHO(t@),
            Reply::RPL_NAMREPLY(t) => Reply::RPL_NAMREPLY(t@),
            Reply::RPL_ENDOFNAMES(t) => Reply::RPL_ENDOFNAMES(t@),
            Reply::RPL_LINKS(t) => Reply::RPL_LINKS(t@),
            Reply::RPL_ENDOFLINKS(t) => Reply::RPL_ENDOFLINKS(t@),
            Reply::RPL_BANLIST(t) => Reply::RPL_BANLIST(t@),
            Reply::RPL_ENDOFBANLIST(t) => Reply::RPL_ENDOFBANLIST(t@),
            Reply::RPL_INFO(t) => Reply::RPL_INFO(t@),
            Reply::RPL_ENDOFINFO(t) => Reply::RPL_ENDOFINFO(t@),
            Reply::RPL_MOTDSTART(t) => Reply::RPL_MOTDSTART(t@),
            Reply::RPL_MOTD(t) => Reply::RPL_MOTD(t@),
            Reply::RPL_ENDOFMOTD(t) => Reply::RPL_ENDOFMOTD(t@),
            Reply::RPL_YOUREOPER(t) => Reply::RPL_YOUREOPER(t@),
            Reply::RPL_REHASHING(t) => Reply::RPL_REHASHING(t@),
            Reply::RPL_YOURESERVICE(t) => Reply::RPL_YOURESERVICE(t@),
            Reply::RPL_TIME(t) => Reply::RPL_TIME(t@),
            Reply::RPL_USERSSTART(t) => Reply::RPL_USERSSTART(t@),
            Reply::RPL_USERS(t) => Reply::RPL_USERS(t@),
            Reply::RPL_ENDOFUSERS(t) => Reply::RPL_ENDOFUSERS(t@),
            Reply::RPL_NOUSERS(t) => Reply::RPL_NOUSERS(t@),
            Reply::RPL_TRACELINK(t) => Reply::RPL_TRACELINK(t@),
            Reply::RPL_TRACECONNECTING(t) => Reply::RPL_TRACECONNECTING(t@),
            Reply::RPL_TRACEHANDSHAKE(t) => Reply::RPL_TRACEHANDSHAKE(t@),
            Reply::RPL_TRACEUNKNOWN(t) => Reply::RPL_TRACEUNKNOWN(t@),
            Reply::RPL_TRACEOPERATOR(t) => Reply::RPL_TRACEOPERATOR(t@),
            Reply::RPL_TRACEUSER(t) => Reply::RPL_TRACEUSER(t@),
            Reply::RPL_TRACESERVER(t) => Reply::RPL_TRACESERVER(t@),
            Reply::RPL_TRACESERVICE(t) => Reply::RPL_TRACESERVICE(t@),
            Reply::RPL_TRACENEWTYPE(t) => Reply::RPL_TRACENEWTYPE(t@),
            Reply::RPL_TRACECLASS(t) => Reply::RPL_TRACECLASS(t@),
            Reply::RPL_TRACERECONNECT(t) => Reply::RPL_TRACERECONNECT(t@),
            Reply::RPL_TRACELOG(t) => Reply::RPL_TRACELOG(t@),
            Reply::RPL_TRACEEND(t) => Reply::RPL_TRACEEND(t@),
            Reply::RPL_STATSLINKINFO(t) => Reply::RPL_STATSLINKINFO(t@),
            Reply::RPL_STATSCOMMANDS(t) => Reply::RPL_STATSCOMMANDS(t@),
            Reply::RPL_ENDOFSTATS(t) => Reply::RPL_ENDOFSTATS(t@),
            Reply::RPL_STATSUPTIME(t) => Reply::RPL_STATSUPTIME(t@),
            Reply::RPL_STATSOLINE(t) => Reply::RPL_STATSOLINE(t@),
            Reply::RPL_UMODEIS(t) => Reply::RPL_UMODEIS(t@),
            Reply::RPL_SERVLIST(t) => Reply::RPL_SERVLIST(t@),
            Reply::RPL_SERVLISTEND(t) => Reply::RPL_SERVLISTEND(t@),
            Reply::RPL_LUSERCLIENT(t) => Reply::RPL_LUSERCLIENT(t@),
            Reply::RPL_LUSEROP(t) => Reply::RPL_LUSEROP(t@),
            Reply::RPL_LUSERUNKNOWN(t) => Reply::RPL_LUSERUNKNOWN(t@),
            Reply::RPL_LUSERCHANNELS(t) => Reply::RPL_LUSERCHANNELS(t@),
            Reply::RPL_LUSERME(t) => Reply::RPL_LUSERME(t@),
            Reply::RPL_ADMINME(t) => Reply::RPL_ADMINME(t@),
            Reply::RPL_ADMINLOC1(t) => Reply::RPL_ADMINLOC1(t@),
            Reply::RPL_ADMINLOC2(t) => Reply::RPL_ADMINLOC2(t@),
            Reply::RPL_ADMINEMAIL(t) => Reply::RPL_ADMINEMAIL(t@),
            Reply::RPL_TRYAGAIN(t) => Reply::RPL_TRYAGAIN(t@),
            Reply::ERR_NOSUCHNICK(t) => Reply::ERR_NOSUCHNICK(t@),
            Reply::ERR_NOSUCHSERVER(t) => Reply::ERR_NOSUCHSERVER(t@),
            Reply::ERR_NOSUCHCHANNEL(t) => Reply::ERR_NOSUCHCHANNEL(t@),
            Reply::ERR_CANNOTSENDTOCHAN(t) => Reply::ERR_CANNOTSENDTOCHAN(t@),
            Reply::ERR_TOOMANYCHANNELS(t) => Reply::ERR_TOOMANYCHANNELS(t@),
            Reply::ERR_WASNOSUCHNICK(t) => Reply::ERR_WASNOSUCHNICK(t@),
            Reply::ERR_TOOMANYTARGETS(t) => Reply::ERR_TOOMANYTARGETS(t@),
            Reply::ERR_NOSUCHSERVICE(t) => Reply::ERR_NOSUCHSERVICE(t@),
            Reply::ERR_NOORIGIN(t) => Reply::ERR_NOORIGIN(t@),
            Reply::ERR_NORECIPIENT(t) => Reply::ERR_NORECIPIENT(t@),
            Reply::ERR_NOTEXTTOSEND(t) => Reply::ERR_NOTEXTTOSEND(t@),
            Reply::ERR_NOTOPLEVEL(t) => Reply::ERR_NOTOPLEVEL(t@),
            Reply::ERR_WILDTOPLEVEL(t) => Reply::ERR_WILDTOPLEVEL(t@),
            Reply::ERR_BADMASK(t) => Reply::ERR_BADMASK(t@),
            Reply::ERR_UNKNOWNCOMMAND(t) => Reply::ERR_UNKNOWNCOMMAND(t@),
            Reply::ERR_NOMOTD(t) => Reply::ERR_NOMOTD(t@),
            Reply::ERR_NOADMININFO(t) => Reply::ERR_NOADMININFO(t@),
            Reply::ERR_FILEERROR(t) => Reply::ERR_FILEERROR(t@),
            Reply::ERR_NONICKNAMEGIVEN(t) => Reply::ERR_NONICKNAMEGIVEN(t@),
            Reply::ERR_ERRONEUSNICKNAME(t) => Reply::ERR_ERRONEUSNICKNAME(t@),
            Reply::ERR_NICKNAMEINUSE(t) => Reply::ERR_NICKNAMEINUSE(t@),
            Reply::ERR_NICKCOLLISION(t) => Reply::ERR_NICKCOLLISION(t@),
            Reply::ERR_UNAVAILRESOURCE(t) => Reply::ERR_UNAVAILRESOURCE(t@),
            Reply::ERR_USERNOTINCHANNEL(t) => Reply::ERR_USERNOTINCHANNEL(t@),
            Reply::ERR_NOTONCHANNEL(t) => Reply::ERR_NOTONCHANNEL(t@),
            Reply::ERR_USERONCHANNEL(t) => Reply::ERR_USERONCHANNEL(t@),
            Reply::ERR_NOLOGIN(t) => Reply::ERR_NOLOGIN(t@),
            Reply::ERR_SUMMONDISABLED(t) => Reply::ERR_SUMMONDISABLED(t@),
            Reply::ERR_USERSDISABLED(t) => Reply::ERR_USERSDISABLED(t@),
            Reply::ERR_NOTREGISTERED(t) => Reply::ERR_NOTREGISTERED(t@),
            Reply::ERR_NEEDMOREPARAMS(t) => Reply::ERR_NEEDMOREPARAMS(t@),
            Reply::ERR_ALREADYREGISTRED(t) => Reply::ERR_ALREADYREGISTRED(t@),
            Reply::ERR_NOPERMFORHOST(t) => Reply::ERR_NOPERMFORHOST(t@),
            Reply::ERR_PASSWDMISMATCH(t) => Reply::ERR_PASSWDMISMATCH(t@),
            Reply::ERR_YOUREBANNEDCREEP(t) => Reply::ERR_YOUREBANNEDCREEP(t@),
            Reply::ERR_YOUWILLBEBANNED(t) => Reply::ERR_YOUWILLBEBANNED(t@),
            Reply::ERR_KEYSET(t) => Reply::ERR_KEYSET(t@),
            Reply::ERR_CHANNELISFULL(t) => Reply::ERR_CHANNELISFULL(t@),
            Reply::ERR_UNKNOWNMODE(t) => Reply::ERR_UNKNOWNMODE(t@),
            Reply::ERR_INVITEONLYCHAN(t) => Reply::ERR_INVITEONLYCHAN(t@),
            Reply::ERR_BANNEDFROMCHAN(t) => Reply::ERR_BANNEDFROMCHAN(t@),
            Reply::ERR_BADCHANNELKEY(t) => Reply::ERR_BADCHANNELKEY(t@),
            Reply::ERR_BADCHANMASK(t) => Reply::ERR_BADCHANMASK(t@),
            Reply::ERR_NOCHANMODES(t) => Reply::ERR_NOCHANMODES(t@),
            Reply::ERR_BANLISTFULL(t) => Reply::ERR_BANLISTFULL(t@),
            Reply::ERR_NOPRIVILEGES(t) => Reply::ERR_NOPRIVILEGES(t@),
            Reply::ERR_CHANOPRIVSNEEDED(t) => Reply::ERR_CHANOPRIVSNEEDED(t@),
            Reply::ERR_CANTKILLSERVER(t) => Reply::ERR_CANTKILLSERVER(t@),
            Reply::ERR_RESTRICTED(t) => Reply::ERR_RESTRICTED(t@),
            Reply::ERR_UNIQOPPRIVSNEEDED(t) => Reply::ERR_UNIQOPPRIVSNEEDED(t@),
            Reply::ERR_NOOPERHOST(t) => Reply::ERR_NOOPERHOST(t@),
            Reply::ERR_UMODEUNKNOWNFLAG(t) => Reply::ERR_UMODEUNKNOWNFLAG(t@),
            Reply::ERR_USERSDONTMATCH(t) => Reply::ERR_USERSDONTMATCH(t@),
        }
    }
}

/// The view of an optional reply.
pub open spec fn opt_reply_view<T: View<V = Seq<u8>>>(o: Option<Reply<T>>) -> Option<ReplyView> {
    match o {
        Some(r) => Some(r@),
        None => None,
    }
}

/// The reply with numeric `code` and text `t`, or `None` where no reply
/// with a text has that numeric.
pub open spec fn reply_with<T>(code: u16, t: T) -> Option<Reply<T>> {
    if code == 1 {
        Some(Reply::RPL_WELCOME(t))
    } else if code == 2 {
        Some(Reply::RPL_YOURHOST(t))
    } else if code == 3 {
        Some(Reply::RPL_CREATED(t))
    } else if code == 4 {
        Some(Reply::RPL_MYINFO(t))
    } else if code == 5 {
        Some(Reply::RPL_BOUNCE(t))
    } else if code == 302 {
        Some(Reply::RPL_USERHOST(t))
    } else if code == 303 {
        Some(Reply::RPL_ISON(t))
    } else if code == 301 {
        Some(Reply::RPL_AWAY(t))
    } else if code == 305 {
        Some(Reply::RPL_UNAWAY(t))
    } else if code == 306 {
        Some(Reply::RPL_NOWAWAY(t))
    } else if code == 311 {
        Some(Reply::RPL_WHOISUSER(t))
    } else if code == 312 {
        Some(Reply::RPL_WHOISSERVER(t))
    } else if code == 313 {
        Some(Reply::RPL_WHOISOPERATOR(t))
    } else if code == 317 {
        Some(Reply::RPL_WHOISIDLE(t))
    } else if code == 318 {
        Some(Reply::RPL_ENDOFWHOIS(t))
    } else if code == 319 {
        Some(Reply::RPL_WHOISCHANNELS(t))
    } else if code == 314 {
        Some(Reply::RPL_WHOWASUSER(t))
    } else if code == 369 {
        Some(Reply::RPL_ENDOFWHOWAS(t))
    } else if code == 322 {
        Some(Reply::RPL_LIST(t))
    } else if code == 323 {
        Some(Reply::RPL_LISTEND(t))
    } else if code == 325 {
        Some(Reply::RPL_UNIQOPIS(t))
    } else if code == 324 {
        Some(Reply::RPL_CHANNELMODEIS(t))
    } else if code == 331 {
        Some(Reply::RPL_NOTOPIC(t))
    } else if code == 332 {
        Some(Reply::RPL_TOPIC(t))
    } else if code == 341 {
        Some(Reply::RPL_INVITING(t))
    } else if code == 342 {
        Some(Reply::RPL_SUMMONING(t))
    } else if code == 346 {
        Some(Reply::RPL_INVITELIST(t))
    } else if code == 347 {
        Some(Reply::RPL_ENDOFINVITELIST(t))
    } else if code == 348 {
        Some(Reply::RPL_EXCEPTLIST(t))
    } else if code == 349 {
        Some(Reply::RPL_ENDOFEXCEPTLIST(t))
    } else if code == 351 {
        Some(Reply::RPL_VERSION(t))
    } else if code == 352 {
        Some(Reply::RPL_WHOREPLY(t))
    } else if code == 315 {
        Some(Reply::RPL_ENDOFWHO(t))
    } else if code == 353 {
        Some(Reply::RPL_NAMREPLY(t))
    } else if code == 366 {
        Some(Reply::RPL_ENDOFNAMES(t))
    } else if code == 364 {
        Some(Reply::RPL_LINKS(t))
    } else if code == 365 {
        Some(Reply::RPL_ENDOFLINKS(t))
    } else if code == 367 {
        Some(Reply::RPL_BANLIST(t))
    } else if code == 368 {
        Some(Reply::RPL_ENDOFBANLIST(t))
    } else if code == 371 {
        Some(Reply::RPL_INFO(t))
    } else if code == 374 {
        Some(Reply::RPL_ENDOFINFO(t))
    } else if code == 375 {
        Some(Reply::RPL_MOTDSTART(t))
    } else if code == 372 {
        Some(Reply::RPL_MOTD(t))
    } else if code == 376 {
        Some(Reply::RPL_ENDOFMOTD(t))
    } else if code == 381 {
        Some(Reply::RPL_YOUREOPER(t))
    } else if code == 382 {
        Some(Reply::RPL_REHASHING(t))
    } else if code == 383 {
        Some(Reply::RPL_YOURESERVICE(t))
    } else if code == 391 {
        Some(Reply::RPL_TIME(t))
    } else if code == 392 {
        Some(Reply::RPL_USERSSTART(t))
    } else if code == 393 {
        Some(Reply::RPL_USERS(t))
    } else if code == 394 {
        Some(Reply::RPL_ENDOFUSERS(t))
    } else if code == 395 {
        Some(Reply::RPL_NOUSERS(t))
    } else if code == 200 {
        Some(Reply::RPL_TRACELINK(t))
    } else if code == 201 {
        Some(Reply::RPL_TRACECONNECTING(t))
    } else if code == 202 {
        Some(Reply::RPL_TRACEHANDSHAKE(t))
    } else if code == 203 {
        Some(Reply::RPL_TRACEUNKNOWN(t))
    } else if code == 204 {
        Some(Reply::RPL_TRACEOPERATOR(t))
    } else if code == 205 {
        Some(Reply::RPL_TRACEUSER(t))
    } else if code == 206 {
        Some(Reply::RPL_TRACESERVER(t))
    } else if code == 207 {
        Some(Reply::RPL_TRACESERVICE(t))
    } else if code == 208 {
        Some(Reply::RPL_TRACENEWTYPE(t))
    } else if code == 209 {
        Some(Reply::RPL_TRACECLASS(t))
    } else if code == 210 {
        Some(Reply::RPL_TRACERECONNECT(t))
    } else if code == 261 {
        Some(Reply::RPL_TRACELOG(t))
    } else if code == 262 {
        Some(Reply::RPL_TRACEEND(t))
    } else if code == 211 {
        Some(Reply::RPL_STATSLINKINFO(t))
    } else if code == 212 {
        Some(Reply::RPL_STATSCOMMANDS(t))
    } else if code == 219 {
        Some(Reply::RPL_ENDOFSTATS(t))
    } else if code == 242 {
        Some(Reply::RPL_STATSUPTIME(t))
    } else if code == 243 {
        Some(Reply::RPL_STATSOLINE(t))
    } else if code == 221 {
        Some(Reply::RPL_UMODEIS(t))
    } else if code == 234 {
        Some(Reply::RPL_SERVLIST(t))
    } else if code == 235 {
        Some(Reply::RPL_SERVLISTEND(t))
    } else if code == 251 {
        Some(Reply::RPL_LUSERCLIENT(t))
    } else if code == 252 {
        Some(Reply::RPL_LUSEROP(t))
    } else if code == 253 {
        Some(Reply::RPL_LUSERUNKNOWN(t))
    } else if code == 254 {
        Some(Reply::RPL_LUSERCHANNELS(t))
    } else if code == 255 {
        Some(Reply::RPL_LUSERME(t))
    } else if code == 256 {
        Some(Reply::RPL_ADMINME(t))
    } else if code == 257 {
        Some(Reply::RPL_ADMINLOC1(t))
    } else if code == 258 {
        Some(Reply::RPL_ADMINLOC2(t))
    } else if code == 259 {
        Some(Reply::RPL_ADMINEMAIL(t))
    } else if code == 263 {
        Some(Reply::RPL_TRYAGAIN(t))
    } else if code == 401 {
        Some(Reply::ERR_NOSUCHNICK(t))
    } else if code == 402 {
        Some(Reply::ERR_NOSUCHSERVER(t))
    } else if code == 403 {
        Some(Reply::ERR_NOSUCHCHANNEL(t))
    } else if code == 404 {
        Some(Reply::ERR_CANNOTSENDTOCHAN(t))
    } else if code == 405 {
        Some(Reply::ERR_TOOMANYCHANNELS(t))
    } else if code == 406 {
        Some(Reply::ERR_WASNOSUCHNICK(t))
    } else if code == 407 {
        Some(Reply::ERR_TOOMANYTARGETS(t))
    } else if code == 408 {
        Some(Reply::ERR_NOSUCHSERVICE(t))
    } else if code == 409 {
        Some(Reply::ERR_NOORIGIN(t))
    } else if code == 411 {
        Some(Reply::ERR_NORECIPIENT(t))
    } else if code == 412 {
        Some(Reply::ERR_NOTEXTTOSEND(t))
    } else if code == 413 {
        Some(Reply::ERR_NOTOPLEVEL(t))
    } else if code == 414 {
        Some(Reply::ERR_WILDTOPLEVEL(t))
    } else if code == 415 {
        Some(Reply::ERR_BADMASK(t))
    } else if code == 421 {
        Some(Reply::ERR_UNKNOWNCOMMAND(t))
    } else if code == 422 {
        Some(Reply::ERR_NOMOTD(t))
    } else if code == 423 {
        Some(Reply::ERR_NOADMININFO(t))
    } else if code == 424 {
        Some(Reply::ERR_FILEERROR(t))
    } else if code == 431 {
        Some(Reply::ERR_NONICKNAMEGIVEN(t))
    } else if code == 432 {
        Some(Reply::ERR_ERRONEUSNICKNAME(t))
    } else if code == 433 {
        Some(Reply::ERR_NICKNAMEINUSE(t))
    } else if code == 436 {
        Some(Reply::ERR_NICKCOLLISION(t))
    } else if code == 437 {
        Some(Reply::ERR_UNAVAILRESOURCE(t))
    } else if code == 441 {
        Some(Reply::ERR_USERNOTINCHANNEL(t))
    } else if code == 442 {
        Some(Reply::ERR_NOTONCHANNEL(t))
    } else if code == 443 {
        Some(Reply::ERR_USERONCHANNEL(t))
    } else if code == 444 {
        Some(Reply::ERR_NOLOGIN(t))
    } else if code == 445 {
        Some(Reply::ERR_SUMMONDISABLED(t))
    } else if code == 446 {
        Some(Reply::ERR_USERSDISABLED(t))
    } else if code == 451 {
        Some(Reply::ERR_NOTREGISTERED(t))
    } else if code == 461 {
        Some(Reply::ERR_NEEDMOREPARAMS(t))
    } else if code == 462 {
        Some(Reply::ERR_ALREADYREGISTRED(t))
    } else if code == 463 {
        Some(Reply::ERR_NOPERMFORHOST(t))
    } else if code == 464 {
        Some(Reply::ERR_PASSWDMISMATCH(t))
    } else if code == 465 {
        Some(Reply::ERR_YOUREBANNEDCREEP(t))
    } else if code == 466 {
        Some(Reply::ERR_YOUWILLBEBANNED(t))
    } else if code == 467 {
        Some(Reply::ERR_KEYSET(t))
    } else if code == 471 {
        Some(Reply::ERR_CHANNELISFULL(t))
    } else if code == 472 {
        Some(Reply::ERR_UNKNOWNMODE(t))
    } else if code == 473 {
        Some(Reply::ERR_INVITEONLYCHAN(t))
    } else if code == 474 {
        Some(Reply::ERR_BANNEDFROMCHAN(t))
    } else if code == 475 {
        Some(Reply::ERR_BADCHANNELKEY(t))
    } else if code == 476 {
        Some(Reply::ERR_BADCHANMASK(t))
    } else if code == 477 {
        Some(Reply::ERR_NOCHANMODES(t))
    } else if code == 478 {
        Some(Reply::ERR_BANLISTFULL(t))
    } else if code == 481 {
        Some(Reply::ERR_NOPRIVILEGES(t))
    } else if code == 482 {
        Some(Reply::ERR_CHANOPRIVSNEEDED(t))
    } else if code == 483 {
        Some(Reply::ERR_CANTKILLSERVER(t))
    } else if code == 484 {
        Some(Reply::ERR_RESTRICTED(t))
    } else if code == 485 {
        Some(Reply::ERR_UNIQOPPRIVSNEEDED(t))
    } else if code == 491 {
        Some(Reply::ERR_NOOPERHOST(t))
    } else if code == 501 {
        Some(Reply::ERR_UMODEUNKNOWNFLAG(t))
    } else if code == 502 {
        Some(Reply::ERR_USERSDONTMATCH(t))
    } else {
        None
    }
}

/// The reply that the parts of a message stand for, if any: the command
/// word is the numeric, and the last parameter is the text.
pub open spec fn reply_of(p: Parts) -> Option<ReplyView> {
    match numeric_code(p.command) {
        Some(code) => if code == LIST_START {
            Some(Reply::RPL_LISTSTART)
        } else {
            match p.last() {
                Some(t) => reply_with(code, t),
                None => None,
            }
        },
        None => None,
    }
}

impl<T> Reply<T> {
    /// The numeric of the reply.
    pub open spec fn spec_code(&self) -> u16 {
        match *self {
            Reply::RPL_WELCOME(_) => 1,
            Reply::RPL_YOURHOST(_) => 2,
            Reply::RPL_CREATED(_) => 3,
            Reply::RPL_MYINFO(_) => 4,
            Reply::RPL_BOUNCE(_) => 5,
            Reply::RPL_USERHOST(_) => 302,
            Reply::RPL_ISON(_) => 303,
            Reply::RPL_AWAY(_) => 301,
            Reply::RPL_UNAWAY(_) => 305,
            Reply::RPL_NOWAWAY(_) => 306,
            Reply::RPL_WHOISUSER(_) => 311,
            Reply::RPL_WHOISSERVER(_) => 312,
            Reply::RPL_WHOISOPERATOR(_) => 313,
            Reply::RPL_WHOISIDLE(_) => 317,
            Reply::RPL_ENDOFWHOIS(_) => 318,
            Reply::RPL_WHOISCHANNELS(_) => 319,
            Reply::RPL_WHOWASUSER(_) => 314,
            Reply::RPL_ENDOFWHOWAS(_) => 369,
            Reply::RPL_LISTSTART => 321,
            Reply::RPL_LIST(_) => 322,
            Reply::RPL_LISTEND(_) => 323,
            Reply::RPL_UNIQOPIS(_) => 325,
            Reply::RPL_CHANNELMODEIS(_) => 324,
            Reply::RPL_NOTOPIC(_) => 331,
            Reply::RPL_TOPIC(_) => 332,
            Reply::RPL_INVITING(_) => 341,
            Reply::RPL_SUMMONING(_) => 342,
            Reply::RPL_INVITELIST(_) => 346,
            Reply::RPL_ENDOFINVITELIST(_) => 347,
            Reply::RPL_EXCEPTLIST(_) => 348,
            Reply::RPL_ENDOFEXCEPTLIST(_) => 349,
            Reply::RPL_VERSION(_) => 351,
            Reply::RPL_WHOREPLY(_) => 352,
            Reply::RPL_ENDOFWHO(_) => 315,
            Reply::RPL_NAMREPLY(_) => 353,
            Reply::RPL_ENDOFNAMES(_) => 366,
            Reply::RPL_LINKS(_) => 364,
            Reply::RPL_ENDOFLINKS(_) => 365,
            Reply::RPL_BANLIST(_) => 367,
            Reply::RPL_ENDOFBANLIST(_) => 368,
            Reply::RPL_INFO(_) => 371,
            Reply::RPL_ENDOFINFO(_) => 374,
            Reply::RPL_MOTDSTART(_) => 375,
            Reply::RPL_MOTD(_) => 372,
            Reply::RPL_ENDOFMOTD(_) => 376,
            Reply::RPL_YOUREOPER(_) => 381,
            Reply::RPL_REHASHING(_) => 382,
            Reply::RPL_YOURESERVICE(_) => 383,
            Reply::RPL_TIME(_) => 391,
            Reply::RPL_USERSSTART(_) => 392,
            Reply::RPL_USERS(_) => 393,
            Reply::RPL_ENDOFUSERS(_) => 394,
            Reply::RPL_NOUSERS(_) => 395,
            Reply::RPL_TRACELINK(_) => 200,
            Reply::RPL_TRACECONNECTING(_) => 201,
            Reply::RPL_TRACEHANDSHAKE(_) => 202,
            Reply::RPL_TRACEUNKNOWN(_) => 203,
            Reply::RPL_TRACEOPERATOR(_) => 204,
            Reply::RPL_TRACEUSER(_) => 205,
            Reply::RPL_TRACESERVER(_) => 206,
            Reply::RPL_TRACESERVICE(_) => 207,
            Reply::RPL_TRACENEWTYPE(_) => 208,
            Reply::RPL_TRACECLASS(_) => 209,
            Reply::RPL_TRACERECONNECT(_) => 210,
            Reply::RPL_TRACELOG(_) => 261,
            Reply::RPL_TRACEEND(_) => 262,
            Reply::RPL_STATSLINKINFO(_) => 211,
            Reply::RPL_STATSCOMMANDS(_) => 212,
            Reply::RPL_ENDOFSTATS(_) => 219,
            Reply::RPL_STATSUPTIME(_) => 242,
            Reply::RPL_STATSOLINE(_) => 243,
            Reply::RPL_UMODEIS(_) => 221,
            Reply::RPL_SERVLIST(_) => 234,
            Reply::RPL_SERVLISTEND(_) => 235,
            Reply::RPL_LUSERCLIENT(_) => 251,
            Reply::RPL_LUSEROP(_) => 252,
            Reply::RPL_LUSERUNKNOWN(_) => 253,
            Reply::RPL_LUSERCHANNELS(_) => 254,
            Reply::RPL_LUSERME(_) => 255,
            Reply::RPL_ADMINME(_) => 256,
            Reply::RPL_ADMINLOC1(_) => 257,
            Reply::RPL_ADMINLOC2(_) => 258,
            Reply::RPL_ADMINEMAIL(_) => 259,
            Reply::RPL_TRYAGAIN(_) => 263,
            Reply::ERR_NOSUCHNICK(_) => 401,
            Reply::ERR_NOSUCHSERVER(_) => 402,
            Reply::ERR_NOSUCHCHANNEL(_) => 403,
            Reply::ERR_CANNOTSENDTOCHAN(_) => 404,
            Reply::ERR_TOOMANYCHANNELS(_) => 405,
            Reply::ERR_WASNOSUCHNICK(_) => 406,
            Reply::ERR_TOOMANYTARGETS(_) => 407,
            Reply::ERR_NOSUCHSERVICE(_) => 408,
            Reply::ERR_NOORIGIN(_) => 409,
            Reply::ERR_NORECIPIENT(_) => 411,
            Reply::ERR_NOTEXTTOSEND(_) => 412,
            Reply::ERR_NOTOPLEVEL(_) => 413,
            Reply::ERR_WILDTOPLEVEL(_) => 414,
            Reply::ERR_BADMASK(_) => 415,
            Reply::ERR_UNKNOWNCOMMAND(_) => 421,
            Reply::ERR_NOMOTD(_) => 422,
            Reply::ERR_NOADMININFO(_) => 423,
            Reply::ERR_FILEERROR(_) => 424,
            Reply::ERR_NONICKNAMEGIVEN(_) => 431,
            Reply::ERR_ERRONEUSNICKNAME(_) => 432,
            Reply::ERR_NICKNAMEINUSE(_) => 433,
            Reply::ERR_NICKCOLLISION(_) => 436,
            Reply::ERR_UNAVAILRESOURCE(_) => 437,
            Reply::ERR_USERNOTINCHANNEL(_) => 441,
            Reply::ERR_NOTONCHANNEL(_) => 442,
            Reply::ERR_USERONCHANNEL(_) => 443,
            Reply::ERR_NOLOGIN(_) => 444,
            Reply::ERR_SUMMONDISABLED(_) => 445,
            Reply::ERR_USERSDISABLED(_) => 446,
            Reply::ERR_NOTREGISTERED(_) => 451,
            Reply::ERR_NEEDMOREPARAMS(_) => 461,
            Reply::ERR_ALREADYREGISTRED(_) => 462,
            Reply::ERR_NOPERMFORHOST(_) => 463,
            Reply::ERR_PASSWDMISMATCH(_) => 464,
            Reply::ERR_YOUREBANNEDCREEP(_) => 465,
            Reply::ERR_YOUWILLBEBANNED(_) => 466,
            Reply::ERR_KEYSET(_) => 467,
            Reply::ERR_CHANNELISFULL(_) => 471,
            Reply::ERR_UNKNOWNMODE(_) => 472,
            Reply::ERR_INVITEONLYCHAN(_) => 473,
            Reply::ERR_BANNEDFROMCHAN(_) => 474,
            Reply::ERR_BADCHANNELKEY(_) => 475,
            Reply::ERR_BADCHANMASK(_) => 476,
            Reply::ERR_NOCHANMODES(_) => 477,
            Reply::ERR_BANLISTFULL(_) => 478,
            Reply::ERR_NOPRIVILEGES(_) => 481,
            Reply::ERR_CHANOPRIVSNEEDED(_) => 482,
            Reply::ERR_CANTKILLSERVER(_) => 483,
            Reply::ERR_RESTRICTED(_) => 484,
            Reply::ERR_UNIQOPPRIVSNEEDED(_) => 485,
            Reply::ERR_NOOPERHOST(_) => 491,
            Reply::ERR_UMODEUNKNOWNFLAG(_) => 501,
            Reply::ERR_USERSDONTMATCH(_) => 502,
        }
    }

    /// The text of the reply, where it has one.
    pub open spec fn spec_text(&self) -> Option<T> {
        match *self {
            Reply::RPL_WELCOME(t) => Some(t),
            Reply::RPL_YOURHOST(t) => Some(t),
            Reply::RPL_CREATED(t) => Some(t),
            Reply::RPL_MYINFO(t) => Some(t),
            Reply::RPL_BOUNCE(t) => Some(t),
            Reply::RPL_USERHOST(t) => Some(t),
            Reply::RPL_ISON(t) => Some(t),
            Reply::RPL_AWAY(t) => Some(t),
            Reply::RPL_UNAWAY(t) => Some(t),
            Reply::RPL_NOWAWAY(t) => Some(t),
            Reply::RPL_WHOISUSER(t) => Some(t),
            Reply::RPL_WHOISSERVER(t) => Some(t),
            Reply::RPL_WHOISOPERATOR(t) => Some(t),
            Reply::RPL_WHOISIDLE(t) => Some(t),
            Reply::RPL_ENDOFWHOIS(t) => Some(t),
            Reply::RPL_WHOISCHANNELS(t) => Some(t),
            Reply::RPL_WHOWASUSER(t) => Some(t),
            Reply::RPL_ENDOFWHOWAS(t) => Some(t),
            Reply::RPL_LISTSTART => None,
            Reply::RPL_LIST(t) => Some(t),
            Reply::RPL_LISTEND(t) => Some(t),
            Reply::RPL_UNIQOPIS(t) => Some(t),
            Reply::RPL_CHANNELMODEIS(t) => Some(t),
            Reply::RPL_NOTOPIC(t) => Some(t),
            Reply::RPL_TOPIC(t) => Some(t),
            Reply::RPL_INVITING(t) => Some(t),
            Reply::RPL_SUMMONING(t) => Some(t),
            Reply::RPL_INVITELIST(t) => Some(t),
            Reply::RPL_ENDOFINVITELIST(t) => Some(t),
            Reply::RPL_EXCEPTLIST(t) => Some(t),
            Reply::RPL_ENDOFEXCEPTLIST(t) => Some(t),
            Reply::RPL_VERSION(t) => Some(t),
            Reply::RPL_WHOREPLY(t) => Some(t),
            Reply::RPL_ENDOFWHO(t) => Some(t),
            Reply::RPL_NAMREPLY(t) => Some(t),
            Reply::RPL_ENDOFNAMES(t) => Some(t),
            Reply::RPL_LINKS(t) => Some(t),
            Reply::RPL_ENDOFLINKS(t) => Some(t),
            Reply::RPL_BANLIST(t) => Some(t),
            Reply::RPL_ENDOFBANLIST(t) => Some(t),
            Reply::RPL_INFO(t) => Some(t),
            Reply::RPL_ENDOFINFO(t) => Some(t),
            Reply::RPL_MOTDSTART(t) => Some(t),
            Reply::RPL_MOTD(t) => Some(t),
            Reply::RPL_ENDOFMOTD(t) => Some(t),
            Reply::RPL_YOUREOPER(t) => Some(t),
            Reply::RPL_REHASHING(t) => Some(t),
            Reply::RPL_YOURESERVICE(t) => Some(t),
            Reply::RPL_TIME(t) => Some(t),
            Reply::RPL_USERSSTART(t) => Some(t),
            Reply::RPL_USERS(t) => Some(t),
            Reply::RPL_ENDOFUSERS(t) => Some(t),
            Reply::RPL_NOUSERS(t) => Some(t),
            Reply::RPL_TRACELINK(t) => Some(t),
            Reply::RPL_TRACECONNECTING(t) => Some(t),
            Reply::RPL_TRACEHANDSHAKE(t) => Some(t),
            Reply::RPL_TRACEUNKNOWN(t) => Some(t),
            Reply::RPL_TRACEOPERATOR(t) => Some(t),
            Reply::RPL_TRACEUSER(t) => Some(t),
            Reply::RPL_TRACESERVER(t) => Some(t),
            Reply::RPL_TRACESERVICE(t) => Some(t),
            Reply::RPL_TRACENEWTYPE(t) => Some(t),
            Reply::RPL_TRACECLASS(t) => Some(t),
            Reply::RPL_TRACERECONNECT(t) => Some(t),
            Reply::RPL_TRACELOG(t) => Some(t),
            Reply::RPL_TRACEEND(t) => Some(t),
            Reply::RPL_STATSLINKINFO(t) => Some(t),
            Reply::RPL_STATSCOMMANDS(t) => Some(t),
            Reply::RPL_ENDOFSTATS(t) => Some(t),
            Reply::RPL_STATSUPTIME(t) => Some(t),
            Reply::RPL_STATSOLINE(t) => Some(t),
            Reply::RPL_UMODEIS(t) => Some(t),
            Reply::RPL_SERVLIST(t) => Some(t),
            Reply::RPL_SERVLISTEND(t) => Some(t),
            Reply::RPL_LUSERCLIENT(t) => Some(t),
            Reply::RPL_LUSEROP(t) => Some(t),
            Reply::RPL_LUSERUNKNOWN(t) => Some(t),
            Reply::RPL_LUSERCHANNELS(t) => Some(t),
            Reply::RPL_LUSERME(t) => Some(t),
            Reply::RPL_ADMINME(t) => Some(t),
            Reply::RPL_ADMINLOC1(t) => Some(t),
            Reply::RPL_ADMINLOC2(t) => Some(t),
            Reply::RPL_ADMINEMAIL(t) => Some(t),
            Reply::RPL_TRYAGAIN(t) => Some(t),
            Reply::ERR_NOSUCHNICK(t) => Some(t),
            Reply::ERR_NOSUCHSERVER(t) => Some(t),
            Reply::ERR_NOSUCHCHANNEL(t) => Some(t),
            Reply::ERR_CANNOTSENDTOCHAN(t) => Some(t),
            Reply::ERR_TOOMANYCHANNELS(t) => Some(t),
            Reply::ERR_WASNOSUCHNICK(t) => Some(t),
            Reply::ERR_TOOMANYTARGETS(t) => Some(t),
            Reply::ERR_NOSUCHSERVICE(t) => Some(t),
            Reply::ERR_NOORIGIN(t) => Some(t),
            Reply::ERR_NORECIPIENT(t) => Some(t),
            Reply::ERR_NOTEXTTOSEND(t) => Some(t),
            Reply::ERR_NOTOPLEVEL(t) => Some(t),
            Reply::ERR_WILDTOPLEVEL(t) => Some(t),
            Reply::ERR_BADMASK(t) => Some(t),
            Reply::ERR_UNKNOWNCOMMAND(t) => Some(t),
            Reply::ERR_NOMOTD(t) => Some(t),
            Reply::ERR_NOADMININFO(t) => Some(t),
            Reply::ERR_FILEERROR(t) => Some(t),
            Reply::ERR_NONICKNAMEGIVEN(t) => Some(t),
            Reply::ERR_ERRONEUSNICKNAME(t) => Some(t),
            Reply::ERR_NICKNAMEINUSE(t) => Some(t),
            Reply::ERR_NICKCOLLISION(t) => Some(t),
            Reply::ERR_UNAVAILRESOURCE(t) => Some(t),
            Reply::ERR_USERNOTINCHANNEL(t) => Some(t),
            Reply::ERR_NOTONCHANNEL(t) => Some(t),
            Reply::ERR_USERONCHANNEL(t) => Some(t),
            Reply::ERR_NOLOGIN(t) => Some(t),
            Reply::ERR_SUMMONDISABLED(t) => Some(t),
            Reply::ERR_USERSDISABLED(t) => Some(t),
            Reply::ERR_NOTREGISTERED(t) => Some(t),
            Reply::ERR_NEEDMOREPARAMS(t) => Some(t),
            Reply::ERR_ALREADYREGISTRED(t) => Some(t),
            Reply::ERR_NOPERMFORHOST(t) => Some(t),
            Reply::ERR_PASSWDMISMATCH(t) => Some(t),
            Reply::ERR_YOUREBANNEDCREEP(t) => Some(t),
            Reply::ERR_YOUWILLBEBANNED(t) => Some(t),
            Reply::ERR_KEYSET(t) => Some(t),
            Reply::ERR_CHANNELISFULL(t) => Some(t),
            Reply::ERR_UNKNOWNMODE(t) => Some(t),
            Reply::ERR_INVITEONLYCHAN(t) => Some(t),
            Reply::ERR_BANNEDFROMCHAN(t) => Some(t),
            Reply::ERR_BADCHANNELKEY(t) => Some(t),
            Reply::ERR_BADCHANMASK(t) => Some(t),
            Reply::ERR_NOCHANMODES(t) => Some(t),
            Reply::ERR_BANLISTFULL(t) => Some(t),
            Reply::ERR_NOPRIVILEGES(t) => Some(t),
            Reply::ERR_CHANOPRIVSNEEDED(t) => Some(t),
            Reply::ERR_CANTKILLSERVER(t) => Some(t),
            Reply::ERR_RESTRICTED(t) => Some(t),
            Reply::ERR_UNIQOPPRIVSNEEDED(t) => Some(t),
            Reply::ERR_NOOPERHOST(t) => Some(t),
            Reply::ERR_UMODEUNKNOWNFLAG(t) => Some(t),
            Reply::ERR_USERSDONTMATCH(t) => Some(t),
        }
    }

    /// The numeric of the reply.
    #[verifier::when_used_as_spec(spec_code)]
    pub fn code(&self) -> (c: u16)
        ensures
            c == self.spec_code(),
            c < 1000,
    {
        match self {
            Reply::RPL_WELCOME(_) => 1,
            Reply::RPL_YOURHOST(_) => 2,
            Reply::RPL_CREATED(_) => 3,
            Reply::RPL_MYINFO(_) => 4,
            Reply::RPL_BOUNCE(_) => 5,
            Reply::RPL_USERHOST(_) => 302,
            Reply::RPL_ISON(_) => 303,
            Reply::RPL_AWAY(_) => 301,
            Reply::RPL_UNAWAY(_) => 305,
            Reply::RPL_NOWAWAY(_) => 306,
            Reply::RPL_WHOISUSER(_) => 311,
            Reply::RPL_WHOISSERVER(_) => 312,
            Reply::RPL_WHOISOPERATOR(_) => 313,
            Reply::RPL_WHOISIDLE(_) => 317,
            Reply::RPL_ENDOFWHOIS(_) => 318,
            Reply::RPL_WHOISCHANNELS(_) => 319,
            Reply::RPL_WHOWASUSER(_) => 314,
            Reply::RPL_ENDOFWHOWAS(_) => 369,
            Reply::RPL_LISTSTART => 321,
            Reply::RPL_LIST(_) => 322,
            Reply::RPL_LISTEND(_) => 323,
            Reply::RPL_UNIQOPIS(_) => 325,
            Reply::RPL_CHANNELMODEIS(_) => 324,
            Reply::RPL_NOTOPIC(_) => 331,
            Reply::RPL_TOPIC(_) => 332,
            Reply::RPL_INVITING(_) => 341,
            Reply::RPL_SUMMONING(_) => 342,
            Reply::RPL_INVITELIST(_) => 346,
            Reply::RPL_ENDOFINVITELIST(_) => 347,
            Reply::RPL_EXCEPTLIST(_) => 348,
            Reply::RPL_ENDOFEXCEPTLIST(_) => 349,
            Reply::RPL_VERSION(_) => 351,
            Reply::RPL_WHOREPLY(_) => 352,
            Reply::RPL_ENDOFWHO(_) => 315,
            Reply::RPL_NAMREPLY(_) => 353,
            Reply::RPL_ENDOFNAMES(_) => 366,
            Reply::RPL_LINKS(_) => 364,
            Reply::RPL_ENDOFLINKS(_) => 365,
            Reply::RPL_BANLIST(_) => 367,
            Reply::RPL_ENDOFBANLIST(_) => 368,
            Reply::RPL_INFO(_) => 371,
            Reply::RPL_ENDOFINFO(_) => 374,
            Reply::RPL_MOTDSTART(_) => 375,
            Reply::RPL_MOTD(_) => 372,
            Reply::RPL_ENDOFMOTD(_) => 376,
            Reply::RPL_YOUREOPER(_) => 381,
            Reply::RPL_REHASHING(_) => 382,
            Reply::RPL_YOURESERVICE(_) => 383,
            Reply::RPL_TIME(_) => 391,
            Reply::RPL_USERSSTART(_) => 392,
            Reply::RPL_USERS(_) => 393,
            Reply::RPL_ENDOFUSERS(_) => 394,
            Reply::RPL_NOUSERS(_) => 395,
            Reply::RPL_TRACELINK(_) => 200,
            Reply::RPL_TRACECONNECTING(_) => 201,
            Reply::RPL_TRACEHANDSHAKE(_) => 202,
            Reply::RPL_TRACEUNKNOWN(_) => 203,
            Reply::RPL_TRACEOPERATOR(_) => 204,
            Reply::RPL_TRACEUSER(_) => 205,
            Reply::RPL_TRACESERVER(_) => 206,
            Reply::RPL_TRACESERVICE(_) => 207,
            Reply::RPL_TRACENEWTYPE(_) => 208,
            Reply::RPL_TRACECLASS(_) => 209,
            Reply::RPL_TRACERECONNECT(_) => 210,
            Reply::RPL_TRACELOG(_) => 261,
            Reply::RPL_TRACEEND(_) => 262,
            Reply::RPL_STATSLINKINFO(_) => 211,
            Reply::RPL_STATSCOMMANDS(_) => 212,
            Reply::RPL_ENDOFSTATS(_) => 219,
            Reply::RPL_STATSUPTIME(_) => 242,
            Reply::RPL_STATSOLINE(_) => 243,
            Reply::RPL_UMODEIS(_) => 221,
            Reply::RPL_SERVLIST(_) => 234,
            Reply::RPL_SERVLISTEND(_) => 235,
            Reply::RPL_LUSERCLIENT(_) => 251,
            Reply::RPL_LUSEROP(_) => 252,
            Reply::RPL_LUSERUNKNOWN(_) => 253,
            Reply::RPL_LUSERCHANNELS(_) => 254,
            Reply::RPL_LUSERME(_) => 255,
            Reply::RPL_ADMINME(_) => 256,
            Reply::RPL_ADMINLOC1(_) => 257,
            Reply::RPL_ADMINLOC2(_) => 258,
            Reply::RPL_ADMINEMAIL(_) => 259,
            Reply::RPL_TRYAGAIN(_) => 263,
            Reply::ERR_NOSUCHNICK(_) => 401,
            Reply::ERR_NOSUCHSERVER(_) => 402,
            Reply::ERR_NOSUCHCHANNEL(_) => 403,
            Reply::ERR_CANNOTSENDTOCHAN(_) => 404,
            Reply::ERR_TOOMANYCHANNELS(_) => 405,
            Reply::ERR_WASNOSUCHNICK(_) => 406,
            Reply::ERR_TOOMANYTARGETS(_) => 407,
            Reply::ERR_NOSUCHSERVICE(_) => 408,
            Reply::ERR_NOORIGIN(_) => 409,
            Reply::ERR_NORECIPIENT(_) => 411,
            Reply::ERR_NOTEXTTOSEND(_) => 412,
            Reply::ERR_NOTOPLEVEL(_) => 413,
            Reply::ERR_WILDTOPLEVEL(_) => 414,
            Reply::ERR_BADMASK(_) => 415,
            Reply::ERR_UNKNOWNCOMMAND(_) => 421,
            Reply::ERR_NOMOTD(_) => 422,
            Reply::ERR_NOADMININFO(_) => 423,
            Reply::ERR_FILEERROR(_) => 424,
            Reply::ERR_NONICKNAMEGIVEN(_) => 431,
            Reply::ERR_ERRONEUSNICKNAME(_) => 432,
            Reply::ERR_NICKNAMEINUSE(_) => 433,
            Reply::ERR_NICKCOLLISION(_) => 436,
            Reply::ERR_UNAVAILRESOURCE(_) => 437,
            Reply::ERR_USERNOTINCHANNEL(_) => 441,
            Reply::ERR_NOTONCHANNEL(_) => 442,
            Reply::ERR_USERONCHANNEL(_) => 443,
            Reply::ERR_NOLOGIN(_) => 444,
            Reply::ERR_SUMMONDISABLED(_) => 445,
            Reply::ERR_USERSDISABLED(_) => 446,
            Reply::ERR_NOTREGISTERED(_) => 451,
            Reply::ERR_NEEDMOREPARAMS(_) => 461,
            Reply::ERR_ALREADYREGISTRED(_) => 462,
            Reply::ERR_NOPERMFORHOST(_) => 463,
            Reply::ERR_PASSWDMISMATCH(_) => 464,
            Reply::ERR_YOUREBANNEDCREEP(_) => 465,
            Reply::ERR_YOUWILLBEBANNED(_) => 466,
            Reply::ERR_KEYSET(_) => 467,
            Reply::ERR_CHANNELISFULL(_) => 471,
            Reply::ERR_UNKNOWNMODE(_) => 472,
            Reply::ERR_INVITEONLYCHAN(_) => 473,
            Reply::ERR_BANNEDFROMCHAN(_) => 474,
            Reply::ERR_BADCHANNELKEY(_) => 475,
            Reply::ERR_BADCHANMASK(_) => 476,
            Reply::ERR_NOCHANMODES(_) => 477,
            Reply::ERR_BANLISTFULL(_) => 478,
            Reply::ERR_NOPRIVILEGES(_) => 481,
            Reply::ERR_CHANOPRIVSNEEDED(_) => 482,
            Reply::ERR_CANTKILLSERVER(_) => 483,
            Reply::ERR_RESTRICTED(_) => 484,
            Reply::ERR_UNIQOPPRIVSNEEDED(_) => 485,
            Reply::ERR_NOOPERHOST(_) => 491,
            Reply::ERR_UMODEUNKNOWNFLAG(_) => 501,
            Reply::ERR_USERSDONTMATCH(_) => 502,
        }
    }

    /// The text of the reply, where it has one.
    pub fn text(&self) -> (t: Option<&T>)
        ensures
            match t {
                Some(t) => self.spec_text() == Some(*t),
                None => self.spec_text() is None,
            },
    {
        match self {
            Reply::RPL_WELCOME(t) => Some(t),
            Reply::RPL_YOURHOST(t) => Some(t),
            Reply::RPL_CREATED(t) => Some(t),
            Reply::RPL_MYINFO(t) => Some(t),
            Reply::RPL_BOUNCE(t) => Some(t),
            Reply::RPL_USERHOST(t) => Some(t),
            Reply::RPL_ISON(t) => Some(t),
            Reply::RPL_AWAY(t) => Some(t),
            Reply::RPL_UNAWAY(t) => Some(t),
            Reply::RPL_NOWAWAY(t) => Some(t),
            Reply::RPL_WHOISUSER(t) => Some(t),
            Reply::RPL_WHOISSERVER(t) => Some(t),
            Reply::RPL_WHOISOPERATOR(t) => Some(t),
            Reply::RPL_WHOISIDLE(t) => Some(t),
            Reply::RPL_ENDOFWHOIS(t) => Some(t),
            Reply::RPL_WHOISCHANNELS(t) => Some(t),
            Reply::RPL_WHOWASUSER(t) => Some(t),
            Reply::RPL_ENDOFWHOWAS(t) => Some(t),
            Reply::RPL_LISTSTART => None,
            Reply::RPL_LIST(t) => Some(t),
            Reply::RPL_LISTEND(t) => Some(t),
            Reply::RPL_UNIQOPIS(t) => Some(t),
            Reply::RPL_CHANNELMODEIS(t) => Some(t),
            Reply::RPL_NOTOPIC(t) => Some(t),
            Reply::RPL_TOPIC(t) => Some(t),
            Reply::RPL_INVITING(t) => Some(t),
            Reply::RPL_SUMMONING(t) => Some(t),
            Reply::RPL_INVITELIST(t) => Some(t),
            Reply::RPL_ENDOFINVITELIST(t) => Some(t),
            Reply::RPL_EXCEPTLIST(t) => Some(t),
            Reply::RPL_ENDOFEXCEPTLIST(t) => Some(t),
            Reply::RPL_VERSION(t) => Some(t),
            Reply::RPL_WHOREPLY(t) => Some(t),
            Reply::RPL_ENDOFWHO(t) => Some(t),
            Reply::RPL_NAMREPLY(t) => Some(t),
            Reply::RPL_ENDOFNAMES(t) => Some(t),
            Reply::RPL_LINKS(t) => Some(t),
            Reply::RPL_ENDOFLINKS(t) => Some(t),
            Reply::RPL_BANLIST(t) => Some(t),
            Reply::RPL_ENDOFBANLIST(t) => Some(t),
            Reply::RPL_INFO(t) => Some(t),
            Reply::RPL_ENDOFINFO(t) => Some(t),
            Reply::RPL_MOTDSTART(t) => Some(t),
            Reply::RPL_MOTD(t) => Some(t),
            Reply::RPL_ENDOFMOTD(t) => Some(t),
            Reply::RPL_YOUREOPER(t) => Some(t),
            Reply::RPL_REHASHING(t) => Some(t),
            Reply::RPL_YOURESERVICE(t) => Some(t),
            Reply::RPL_TIME(t) => Some(t),
            Reply::RPL_USERSSTART(t) => Some(t),
            Reply::RPL_USERS(t) => Some(t),
            Reply::RPL_ENDOFUSERS(t) => Some(t),
            Reply::RPL_NOUSERS(t) => Some(t),
            Reply::RPL_TRACELINK(t) => Some(t),
            Reply::RPL_TRACECONNECTING(t) => Some(t),
            Reply::RPL_TRACEHANDSHAKE(t) => Some(t),
            Reply::RPL_TRACEUNKNOWN(t) => Some(t),
            Reply::RPL_TRACEOPERATOR(t) => Some(t),
            Reply::RPL_TRACEUSER(t) => Some(t),
            Reply::RPL_TRACESERVER(t) => Some(t),
            Reply::RPL_TRACESERVICE(t) => Some(t),
            Reply::RPL_TRACENEWTYPE(t) => Some(t),
            Reply::RPL_TRACECLASS(t) => Some(t),
            Reply::RPL_TRACERECONNECT(t) => Some(t),
            Reply::RPL_TRACELOG(t) => Some(t),
            Reply::RPL_TRACEEND(t) => Some(t),
            Reply::RPL_STATSLINKINFO(t) => Some(t),
            Reply::RPL_STATSCOMMANDS(t) => Some(t),
            Reply::RPL_ENDOFSTATS(t) => Some(t),
            Reply::RPL_STATSUPTIME(t) => Some(t),
            Reply::RPL_STATSOLINE(t) => Some(t),
            Reply::RPL_UMODEIS(t) => Some(t),
            Reply::RPL_SERVLIST(t) => Some(t),
            Reply::RPL_SERVLISTEND(t) => Some(t),
            Reply::RPL_LUSERCLIENT(t) => Some(t),
            Reply::RPL_LUSEROP(t) => Some(t),
            Reply::RPL_LUSERUNKNOWN(t) => Some(t),
            Reply::RPL_LUSERCHANNELS(t) => Some(t),
            Reply::RPL_LUSERME(t) => Some(t),
            Reply::RPL_ADMINME(t) => Some(t),
            Reply::RPL_ADMINLOC1(t) => Some(t),
            Reply::RPL_ADMINLOC2(t) => Some(t),
            Reply::RPL_ADMINEMAIL(t) => Some(t),
            Reply::RPL_TRYAGAIN(t) => Some(t),
            Reply::ERR_NOSUCHNICK(t) => Some(t),
            Reply::ERR_NOSUCHSERVER(t) => Some(t),
            Reply::ERR_NOSUCHCHANNEL(t) => Some(t),
            Reply::ERR_CANNOTSENDTOCHAN(t) => Some(t),
            Reply::ERR_TOOMANYCHANNELS(t) => Some(t),
            Reply::ERR_WASNOSUCHNICK(t) => Some(t),
            Reply::ERR_TOOMANYTARGETS(t) => Some(t),
            Reply::ERR_NOSUCHSERVICE(t) => Some(t),
            Reply::ERR_NOORIGIN(t) => Some(t),
            Reply::ERR_NORECIPIENT(t) => Some(t),
            Reply::ERR_NOTEXTTOSEND(t) => Some(t),
            Reply::ERR_NOTOPLEVEL(t) => Some(t),
            Reply::ERR_WILDTOPLEVEL(t) => Some(t),
            Reply::ERR_BADMASK(t) => Some(t),
            Reply::ERR_UNKNOWNCOMMAND(t) => Some(t),
            Reply::ERR_NOMOTD(t) => Some(t),
            Reply::ERR_NOADMININFO(t) => Some(t),
            Reply::ERR_FILEERROR(t) => Some(t),
            Reply::ERR_NONICKNAMEGIVEN(t) => Some(t),
            Reply::ERR_ERRONEUSNICKNAME(t) => Some(t),
            Reply::ERR_NICKNAMEINUSE(t) => Some(t),
            Reply::ERR_NICKCOLLISION(t) => Some(t),
            Reply::ERR_UNAVAILRESOURCE(t) => Some(t),
            Reply::ERR_USERNOTINCHANNEL(t) => Some(t),
            Reply::ERR_NOTONCHANNEL(t) => Some(t),
            Reply::ERR_USERONCHANNEL(t) => Some(t),
            Reply::ERR_NOLOGIN(t) => Some(t),
            Reply::ERR_SUMMONDISABLED(t) => Some(t),
            Reply::ERR_USERSDISABLED(t) => Some(t),
            Reply::ERR_NOTREGISTERED(t) => Some(t),
            Reply::ERR_NEEDMOREPARAMS(t) => Some(t),
            Reply::ERR_ALREADYREGISTRED(t) => Some(t),
            Reply::ERR_NOPERMFORHOST(t) => Some(t),
            Reply::ERR_PASSWDMISMATCH(t) => Some(t),
            Reply::ERR_YOUREBANNEDCREEP(t) => Some(t),
            Reply::ERR_YOUWILLBEBANNED(t) => Some(t),
            Reply::ERR_KEYSET(t) => Some(t),
            Reply::ERR_CHANNELISFULL(t) => Some(t),
            Reply::ERR_UNKNOWNMODE(t) => Some(t),
            Reply::ERR_INVITEONLYCHAN(t) => Some(t),
            Reply::ERR_BANNEDFROMCHAN(t) => Some(t),
            Reply::ERR_BADCHANNELKEY(t) => Some(t),
            Reply::ERR_BADCHANMASK(t) => Some(t),
            Reply::ERR_NOCHANMODES(t) => Some(t),
            Reply::ERR_BANLISTFULL(t) => Some(t),
            Reply::ERR_NOPRIVILEGES(t) => Some(t),
            Reply::ERR_CHANOPRIVSNEEDED(t) => Some(t),
            Reply::ERR_CANTKILLSERVER(t) => Some(t),
            Reply::ERR_RESTRICTED(t) => Some(t),
            Reply::ERR_UNIQOPPRIVSNEEDED(t) => Some(t),
            Reply::ERR_NOOPERHOST(t) => Some(t),
            Reply::ERR_UMODEUNKNOWNFLAG(t) => Some(t),
            Reply::ERR_USERSDONTMATCH(t) => Some(t),
        }
    }

    /// The reply with numeric `code` and text `t`, or `None` where no reply
    /// with a text has that numeric.
    pub fn with_code(code: u16, t: T) -> (r: Option<Reply<T>>)
        ensures
            r == reply_with(code, t),
    {
        match code {
            1 => Some(Reply::RPL_WELCOME(t)),
            2 => Some(Reply::RPL_YOURHOST(t)),
            3 => Some(Reply::RPL_CREATED(t)),
            4 => Some(Reply::RPL_MYINFO(t)),
            5 => Some(Reply::RPL_BOUNCE(t)),
            302 => Some(Reply::RPL_USERHOST(t)),
            303 => Some(Reply::RPL_ISON(t)),
            301 => Some(Reply::RPL_AWAY(t)),
            305 => Some(Reply::RPL_UNAWAY(t)),
            306 => Some(Reply::RPL_NOWAWAY(t)),
            311 => Some(Reply::RPL_WHOISUSER(t)),
            312 => Some(Reply::RPL_WHOISSERVER(t)),
            313 => Some(Reply::RPL_WHOISOPERATOR(t)),
            317 => Some(Reply::RPL_WHOISIDLE(t)),
            318 => Some(Reply::RPL_ENDOFWHOIS(t)),
            319 => Some(Reply::RPL_WHOISCHANNELS(t)),
            314 => Some(Reply::RPL_WHOWASUSER(t)),
            369 => Some(Reply::RPL_ENDOFWHOWAS(t)),
            322 => Some(Reply::RPL_LIST(t)),
            323 => Some(Reply::RPL_LISTEND(t)),
            325 => Some(Reply::RPL_UNIQOPIS(t)),
            324 => Some(Reply::RPL_CHANNELMODEIS(t)),
            331 => Some(Reply::RPL_NOTOPIC(t)),
            332 => Some(Reply::RPL_TOPIC(t)),
            341 => Some(Reply::RPL_INVITING(t)),
            342 => Some(Reply::RPL_SUMMONING(t)),
            346 => Some(Reply::RPL_INVITELIST(t)),
            347 => Some(Reply::RPL_ENDOFINVITELIST(t)),
            348 => Some(Reply::RPL_EXCEPTLIST(t)),
            349 => Some(Reply::RPL_ENDOFEXCEPTLIST(t)),
            351 => Some(Reply::RPL_VERSION(t)),
            352 => Some(Reply::RPL_WHOREPLY(t)),
            315 => Some(Reply::RPL_ENDOFWHO(t)),
            353 => Some(Reply::RPL_NAMREPLY(t)),
            366 => Some(Reply::RPL_ENDOFNAMES(t)),
            364 => Some(Reply::RPL_LINKS(t)),
            365 => Some(Reply::RPL_ENDOFLINKS(t)),
            367 => Some(Reply::RPL_BANLIST(t)),
            368 => Some(Reply::RPL_ENDOFBANLIST(t)),
            371 => Some(Reply::RPL_INFO(t)),
            374 => Some(Reply::RPL_ENDOFINFO(t)),
            375 => Some(Reply::RPL_MOTDSTART(t)),
            372 => Some(Reply::RPL_MOTD(t)),
            376 => Some(Reply::RPL_ENDOFMOTD(t)),
            381 => Some(Reply::RPL_YOUREOPER(t)),
            382 => Some(Reply::RPL_REHASHING(t)),
            383 => Some(Reply::RPL_YOURESERVICE(t)),
            391 => Some(Reply::RPL_TIME(t)),
            392 => Some(Reply::RPL_USERSSTART(t)),
            393 => Some(Reply::RPL_USERS(t)),
            394 => Some(Reply::RPL_ENDOFUSERS(t)),
            395 => Some(Reply::RPL_NOUSERS(t)),
            200 => Some(Reply::RPL_TRACELINK(t)),
            201 => Some(Reply::RPL_TRACECONNECTING(t)),
            202 => Some(Reply::RPL_TRACEHANDSHAKE(t)),
            203 => Some(Reply::RPL_TRACEUNKNOWN(t)),
            204 => Some(Reply::RPL_TRACEOPERATOR(t)),
            205 => Some(Reply::RPL_TRACEUSER(t)),
            206 => Some(Reply::RPL_TRACESERVER(t)),
            207 => Some(Reply::RPL_TRACESERVICE(t)),
            208 => Some(Reply::RPL_TRACENEWTYPE(t)),
            209 => Some(Reply::RPL_TRACECLASS(t)),
            210 => Some(Reply::RPL_TRACERECONNECT(t)),
            261 => Some(Reply::RPL_TRACELOG(t)),
            262 => Some(Reply::RPL_TRACEEND(t)),
            211 => Some(Reply::RPL_STATSLINKINFO(t)),
            212 => Some(Reply::RPL_STATSCOMMANDS(t)),
            219 => Some(Reply::RPL_ENDOFSTATS(t)),
            242 => Some(Reply::RPL_STATSUPTIME(t)),
            243 => Some(Reply::RPL_STATSOLINE(t)),
            221 => Some(Reply::RPL_UMODEIS(t)),
            234 => Some(Reply::RPL_SERVLIST(t)),
            235 => Some(Reply::RPL_SERVLISTEND(t)),
            251 => Some(Reply::RPL_LUSERCLIENT(t)),
            252 => Some(Reply::RPL_LUSEROP(t)),
            253 => Some(Reply::RPL_LUSERUNKNOWN(t)),
            254 => Some(Reply::RPL_LUSERCHANNELS(t)),
            255 => Some(Reply::RPL_LUSERME(t)),
            256 => Some(Reply::RPL_ADMINME(t)),
            257 => Some(Reply::RPL_ADMINLOC1(t)),
            258 => Some(Reply::RPL_ADMINLOC2(t)),
            259 => Some(Reply::RPL_ADMINEMAIL(t)),
            263 => Some(Reply::RPL_TRYAGAIN(t)),
            401 => Some(Reply::ERR_NOSUCHNICK(t)),
            402 => Some(Reply::ERR_NOSUCHSERVER(t)),
            403 => Some(Reply::ERR_NOSUCHCHANNEL(t)),
            404 => Some(Reply::ERR_CANNOTSENDTOCHAN(t)),
            405 => Some(Reply::ERR_TOOMANYCHANNELS(t)),
            406 => Some(Reply::ERR_WASNOSUCHNICK(t)),
            407 => Some(Reply::ERR_TOOMANYTARGETS(t)),
            408 => Some(Reply::ERR_NOSUCHSERVICE(t)),
            409 => Some(Reply::ERR_NOORIGIN(t)),
            411 => Some(Reply::ERR_NORECIPIENT(t)),
            412 => Some(Reply::ERR_NOTEXTTOSEND(t)),
            413 => Some(Reply::ERR_NOTOPLEVEL(t)),
            414 => Some(Reply::ERR_WILDTOPLEVEL(t)),
            415 => Some(Reply::ERR_BADMASK(t)),
            421 => Some(Reply::ERR_UNKNOWNCOMMAND(t)),
            422 => Some(Reply::ERR_NOMOTD(t)),
            423 => Some(Reply::ERR_NOADMININFO(t)),
            424 => Some(Reply::ERR_FILEERROR(t)),
            431 => Some(Reply::ERR_NONICKNAMEGIVEN(t)),
            432 => Some(Reply::ERR_ERRONEUSNICKNAME(t)),
            433 => Some(Reply::ERR_NICKNAMEINUSE(t)),
            436 => Some(Reply::ERR_NICKCOLLISION(t)),
            437 => Some(Reply::ERR_UNAVAILRESOURCE(t)),
            441 => Some(Reply::ERR_USERNOTINCHANNEL(t)),
            442 => Some(Reply::ERR_NOTONCHANNEL(t)),
            443 => Some(Reply::ERR_USERONCHANNEL(t)),
            444 => Some(Reply::ERR_NOLOGIN(t)),
            445 => Some(Reply::ERR_SUMMONDISABLED(t)),
            446 => Some(Reply::ERR_USERSDISABLED(t)),
            451 => Some(Reply::ERR_NOTREGISTERED(t)),
            461 => Some(Reply::ERR_NEEDMOREPARAMS(t)),
            462 => Some(Reply::ERR_ALREADYREGISTRED(t)),
            463 => Some(Reply::ERR_NOPERMFORHOST(t)),
            464 => Some(Reply::ERR_PASSWDMISMATCH(t)),
            465 => Some(Reply::ERR_YOUREBANNEDCREEP(t)),
            466 => Some(Reply::ERR_YOUWILLBEBANNED(t)),
            467 => Some(Reply::ERR_KEYSET(t)),
            471 => Some(Reply::ERR_CHANNELISFULL(t)),
            472 => Some(Reply::ERR_UNKNOWNMODE(t)),
            473 => Some(Reply::ERR_INVITEONLYCHAN(t)),
            474 => Some(Reply::ERR_BANNEDFROMCHAN(t)),
            475 => Some(Reply::ERR_BADCHANNELKEY(t)),
            476 => Some(Reply::ERR_BADCHANMASK(t)),
            477 => Some(Reply::ERR_NOCHANMODES(t)),
            478 => Some(Reply::ERR_BANLISTFULL(t)),
            481 => Some(Reply::ERR_NOPRIVILEGES(t)),
            482 => Some(Reply::ERR_CHANOPRIVSNEEDED(t)),
            483 => Some(Reply::ERR_CANTKILLSERVER(t)),
            484 => Some(Reply::ERR_RESTRICTED(t)),
            485 => Some(Reply::ERR_UNIQOPPRIVSNEEDED(t)),
            491 => Some(Reply::ERR_NOOPERHOST(t)),
            501 => Some(Reply::ERR_UMODEUNKNOWNFLAG(t)),
            502 => Some(Reply::ERR_USERSDONTMATCH(t)),
            _ => None,
        }
    }
}

/// The form of the text of a reply, where it has one: whether the text is
/// raw bytes or a string.
pub open spec fn reply_form<T: Form>(r: Reply<T>) -> Option<bool> {
    opt_form(r.spec_text())
}

/// The parts of the message that carries a reply: the numeric as the
/// command word, no parameters, and the text as the trailing parameter.
pub open spec fn parts_of_reply(r: ReplyView) -> Parts {
    Parts {
        prefix: None,
        command: code_digits(r.spec_code()),
        params: Seq::empty(),
        trailing: r.spec_text(),
    }
}

/// Formats the message of a reply from its numeric and its text.
fn format_reply(code: u16, text: Option<&[u8]>) -> (r: Option<Message>)
    requires
        code < 1000,
    ensures
        match r {
            Some(m) => {
                &&& wire_format(reply_parts(code, text)).len() <= MAX_OFFSET
                &&& m.wire() == wire_format(reply_parts(code, text))
                &&& m@ == reply_parts(code, text)
            },
            None => wire_format(reply_parts(code, text)).len() > MAX_OFFSET,
        },
{
    let word = digits_of(code);
    let none: Vec<&[u8]> = Vec::new();
    let word = word.as_slice();
    proof {
        assert(given_parts(None, word, none@, text).params =~= Seq::<Seq<u8>>::empty());
    }
    Message::try_format(None, word, &none, text)
}

/// The parts of the message of a reply, from its numeric and its text.
pub open spec fn reply_parts(code: u16, text: Option<&[u8]>) -> Parts {
    Parts {
        prefix: None,
        command: code_digits(code),
        params: Seq::empty(),
        trailing: match text {
            Some(t) => Some(t@),
            None => None,
        },
    }
}

impl<'a> Reply<TextSlice<'a>> {
    /// Reads the reply that a message carries.
    ///
    /// Returns `None` where the command word is no numeric of the table, or
    /// where the message has no parameter to take the text from. The text of
    /// the reply is a slice of the message, in the form of the parameter it
    /// is taken from.
    pub fn from_message(msg: &'a Message) -> (r: Option<BorrowedReply<'a>>)
        ensures
            opt_reply_view(r) == reply_of(msg@),
            r matches Some(x) ==> (reply_form(x) matches Some(raw) ==> raw
                == msg.element_forms().last()),
    {
        let code = match code_of(msg.command().as_bytes()) {
            Some(code) => code,
            None => {
                return None;
            },
        };
        if code == LIST_START {
            return Some(Reply::RPL_LISTSTART);
        }
        match msg.last() {
            Some(t) => {
                proof {
                    lemma_reply_with(code, t);
                }
                Reply::with_code(code, t)
            },
            None => None,
        }
    }

    /// Writes the reply into a message, or returns `None` where the line
    /// would be too long for 16-bit offsets.
    pub fn try_to_message(&self) -> (r: Option<Message>)
        ensures
            match r {
                Some(m) => {
                    &&& wire_format(parts_of_reply(self@)).len() <= MAX_OFFSET
                    &&& m.wire() == wire_format(parts_of_reply(self@))
                    &&& m@ == parts_of_reply(self@)
                },
                None => wire_format(parts_of_reply(self@)).len() > MAX_OFFSET,
            },
    {
        let text: Option<&[u8]> = match self.text() {
            Some(t) => Some(t.as_bytes()),
            None => None,
        };
        assert(reply_parts(self.code(), text) == parts_of_reply(self@));
        format_reply(self.code(), text)
    }

    /// Writes the reply into a message. The line must be short enough for
    /// 16-bit offsets.
    pub fn to_message(&self) -> (m: Message)
        requires
            wire_format(parts_of_reply(self@)).len() <= MAX_OFFSET,
        ensures
            m.wire() == wire_format(parts_of_reply(self@)),
            m@ == parts_of_reply(self@),
    {
        self.try_to_message().unwrap()
    }

    /// The same reply with a text of its own, which no longer borrows from
    /// the message.
    pub fn to_owned(&self) -> (r: OwnedReply)
        ensures
            r@ == self@,
            reply_form(r) == reply_form(*self),
    {
        match self.text() {
            Some(t) => {
                let text = t.to_text();
                proof {
                    lemma_reply_codes(*self);
                    lemma_reply_with(self.spec_code(), *t);
                    lemma_reply_with(self.spec_code(), text);
                }
                let r = Reply::with_code(self.code(), text).unwrap();
                proof {
                    lemma_same_reply(r, *self);
                }
                r
            },
            None => {
                proof {
                    lemma_reply_codes(*self);
                }
                Reply::RPL_LISTSTART
            },
        }
    }
}

impl Reply<Text> {
    /// The same reply with its text borrowed.
    pub fn borrow(&self) -> (r: BorrowedReply<'_>)
        ensures
            r@ == self@,
            reply_form(r) == reply_form(*self),
    {
        match self.text() {
            Some(t) => {
                let text = t.as_slice();
                proof {
                    lemma_reply_codes(*self);
                    lemma_reply_with(self.spec_code(), *t);
                    lemma_reply_with(self.spec_code(), text);
                }
                let r = Reply::with_code(self.code(), text).unwrap();
                proof {
                    lemma_same_reply(r, *self);
                }
                r
            },
            None => {
                proof {
                    lemma_reply_codes(*self);
                }
                Reply::RPL_LISTSTART
            },
        }
    }

    /// Writes the reply into a message, or returns `None` where the line
    /// would be too long for 16-bit offsets.
    pub fn try_to_message(&self) -> (r: Option<Message>)
        ensures
            match r {
                Some(m) => {
                    &&& wire_format(parts_of_reply(self@)).len() <= MAX_OFFSET
                    &&& m.wire() == wire_format(parts_of_reply(self@))
                    &&& m@ == parts_of_reply(self@)
                },
                None => wire_format(parts_of_reply(self@)).len() > MAX_OFFSET,
            },
    {
        self.borrow().try_to_message()
    }

    /// Writes the reply into a message. The line must be short enough for
    /// 16-bit offsets.
    pub fn to_message(&self) -> (m: Message)
        requires
            wire_format(parts_of_reply(self@)).len() <= MAX_OFFSET,
        ensures
            m.wire() == wire_format(parts_of_reply(self@)),
            m@ == parts_of_reply(self@),
    {
        self.borrow().to_message()
    }
}

/// Every reply is found again under its numeric.
pub proof fn lemma_reply_codes<T>(r: Reply<T>)
    ensures
        r.spec_code() < 1000,
        match r.spec_text() {
            Some(t) => r.spec_code() != LIST_START && reply_with(r.spec_code(), t) == Some(r),
            None => r == Reply::<T>::RPL_LISTSTART,
        },
{
}

/// Whether a numeric has a reply does not depend on the text, and the
/// reply found under a numeric has that numeric and the text it was given.
pub proof fn lemma_reply_with<T>(code: u16, t: T)
    ensures
        reply_with(code, t) is Some <==> reply_with(code, ()) is Some,
        reply_with(code, t) matches Some(r) ==> r.spec_code() == code && r.spec_text() == Some(t),
{
}

/// The view of a reply has the numeric of the reply and the view of its
/// text.
pub proof fn lemma_view_of_reply<T: View<V = Seq<u8>>>(r: Reply<T>)
    ensures
        r@.spec_code() == r.spec_code(),
        r@.spec_text() == opt_view(r.spec_text()),
{
}

/// Two replies with the same numeric and texts of the same bytes have the
/// same view.
pub proof fn lemma_same_reply<T: View<V = Seq<u8>>, U: View<V = Seq<u8>>>(a: Reply<T>, b: Reply<U>)
    requires
        a.spec_code() == b.spec_code(),
        opt_view(a.spec_text()) == opt_view(b.spec_text()),
    ensures
        a@ == b@,
{
    lemma_view_of_reply(a);
    lemma_view_of_reply(b);
    lemma_reply_codes(a@);
    lemma_reply_codes(b@);
}

/// Reading the parts that a reply was written into gives the reply back.
pub proof fn lemma_reply_read_written(r: ReplyView)
    ensures
        reply_of(parts_of_reply(r)) == Some(r),
{
    lemma_reply_codes(r);
    lemma_code_of_digits(r.spec_code());
    let p = parts_of_reply(r);
    match r.spec_text() {
        Some(t) => {
            assert(p.elements() =~= seq![t]);
        },
        None => {},
    }
}

/// A reply survives the wire: the line that the formatter writes for it
/// parses, and the parsed message carries the same reply.
pub proof fn lemma_reply_survives(r: ReplyView)
    ensures
        layout_of(wire_format(parts_of_reply(r))) matches Some(l) && reply_of(
            l.parts(wire_format(parts_of_reply(r))),
        ) == Some(r),
{
    lemma_reply_codes(r);
    let p = parts_of_reply(r);
    let c = r.spec_code();
    assert(p.command[0] == (0x30 + c / 100) as u8);
    assert(p.command[1] == (0x30 + (c / 10) % 10) as u8);
    assert(p.command[2] == (0x30 + c % 10) as u8);
    assert(p.well_formed());
    lemma_parse_format(p);
    lemma_reply_read_written(r);
}

} // verus!
