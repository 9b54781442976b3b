//! The keys of the command words: each word packed into one number, first
//! byte most significant.

use vstd::prelude::*;

verus! {

/// `PASS`
pub const PASS: u64 = 0x50_41_53_53;

/// `NICK`
pub const NICK: u64 = 0x4e_49_43_4b;

/// `USER`
pub const USER: u64 = 0x55_53_45_52;

/// `OPER`
pub const OPER: u64 = 0x4f_50_45_52;

/// `QUIT`
pub const QUIT: u64 = 0x51_55_49_54;

/// `SQUIT`
pub const SQUIT: u64 = 0x53_51_55_49_54;

/// `JOIN`
pub const JOIN: u64 = 0x4a_4f_49_4e;

/// `PART`
pub const PART: u64 = 0x50_41_52_54;

/// `TOPIC`
pub const TOPIC: u64 = 0x54_4f_50_49_43;

/// `NAMES`
pub const NAMES: u64 = 0x4e_41_4d_45_53;

/// `LIST`
pub const LIST: u64 = 0x4c_49_53_54;

/// `INVITE`
pub const INVITE: u64 = 0x49_4e_56_49_54_45;

/// `KICK`
pub const KICK: u64 = 0x4b_49_43_4b;

/// `PRIVMSG`
pub const PRIVMSG: u64 = 0x50_52_49_56_4d_53_47;

/// `NOTICE`
pub const NOTICE: u64 = 0x4e_4f_54_49_43_45;

/// `MOTD`
pub const MOTD: u64 = 0x4d_4f_54_44;

/// `VERSION`
pub const VERSION: u64 = 0x56_45_52_53_49_4f_4e;

/// `TIME`
pub const TIME: u64 = 0x54_49_4d_45;

/// `TRACE`
pub const TRACE: u64 = 0x54_52_41_43_45;

/// `ADMIN`
pub const ADMIN: u64 = 0x41_44_4d_49_4e;

/// `INFO`
pub const INFO: u64 = 0x49_4e_46_4f;

/// `SQUERY`
pub const SQUERY: u64 = 0x53_51_55_45_52_59;

/// `KILL`
pub const KILL: u64 = 0x4b_49_4c_4c;

/// `PING`
pub const PING: u64 = 0x50_49_4e_47;

/// `PONG`
pub const PONG: u64 = 0x50_4f_4e_47;

/// `ERROR`
pub const ERROR: u64 = 0x45_52_52_4f_52;

/// `AWAY`
pub const AWAY: u64 = 0x41_57_41_59;

/// `REHASH`
pub const REHASH: u64 = 0x52_45_48_41_53_48;

/// `DIE`
pub const DIE: u64 = 0x44_49_45;

/// `RESTART`
pub const RESTART: u64 = 0x52_45_53_54_41_52_54;

/// `USERS`
pub const USERS: u64 = 0x55_53_45_52_53;

/// `WALLOPS`
pub const WALLOPS: u64 = 0x57_41_4c_4c_4f_50_53;

/// `MODE`
pub const MODE: u64 = 0x4d_4f_44_45;

/// `SERVICE`
pub const SERVICE: u64 = 0x53_45_52_56_49_43_45;

/// `LUSERS`
pub const LUSERS: u64 = 0x4c_55_53_45_52_53;

/// `STATS`
pub const STATS: u64 = 0x53_54_41_54_53;

/// `LINKS`
pub const LINKS: u64 = 0x4c_49_4e_4b_53;

/// `CONNECT`
pub const CONNECT: u64 = 0x43_4f_4e_4e_45_43_54;

/// `SERVLIST`
pub const SERVLIST: u64 = 0x53_45_52_56_4c_49_53_54;

/// `WHO`
pub const WHO: u64 = 0x57_48_4f;

/// `WHOIS`
pub const WHOIS: u64 = 0x57_48_4f_49_53;

/// `WHOWAS`
pub const WHOWAS: u64 = 0x57_48_4f_57_41_53;

/// `SUMMON`
pub const SUMMON: u64 = 0x53_55_4d_4d_4f_4e;

/// `USERHOST`
pub const USERHOST: u64 = 0x55_53_45_52_48_4f_53_54;

/// `ISON`
pub const ISON: u64 = 0x49_53_4f_4e;

} // verus!
