//! Who sent a message: the nickname, user and host of a prefix.

use regex::Regex;
use vstd::prelude::*;

verus! {

/// The parts of a prefix of the form `nick!user@host`.
#[derive(Debug, Clone, PartialEq, Eq)]
pub struct Ident {
    pub nickname: String,
    pub user: String,
    pub host: String,
}

/// What [`Ident`] stands for: three strings.
pub struct IdentView {
    pub nickname: Seq<char>,
    pub user: Seq<char>,
    pub host: Seq<char>,
}

impl View for Ident {
    type V = IdentView;

    open spec fn view(&self) -> IdentView {
        IdentView { nickname: self.nickname@, user: self.user@, host: self.host@ }
    }
}

/// The groups that the first match of the regular expression `pattern` in
/// `text` captures, the whole match first; `None` where there is no match
/// or the pattern is no regular expression. A group that took no part in
/// the match is `None`.
pub uninterp spec fn captured(pattern: Seq<char>, text: Seq<char>) -> Option<
    Seq<Option<Seq<char>>>,
>;

/// The characters of a list of optional strings.
pub open spec fn groups_view(g: Option<Vec<Option<String>>>) -> Option<Seq<Option<Seq<char>>>> {
    match g {
        Some(v) => Some(
            Seq::new(
                v@.len(),
                |i: int|
                    match v@[i] {
                        Some(s) => Some(s@),
                        None => None,
                    },
            ),
        ),
        None => None,
    }
}

/// `Regex::new` and `Regex::captures`: the groups of the first match of
/// the pattern in the text.
#[verifier::external_body]
fn captures(pattern: &str, text: &str) -> (r: Option<Vec<Option<String>>>)
    ensures
        groups_view(r) == captured(pattern@, text@),
{
    let re = Regex::new(pattern).ok()?;
    let found = re.captures(text)?;
    Some(found.iter().map(|m| m.map(|m| m.as_str().to_owned())).collect())
}

/// The identity that the groups of a match stand for: nickname, user and
/// host are the first three groups behind the whole match. Without a match,
/// or with one of the three missing, there is none.
pub open spec fn ident_of(groups: Option<Seq<Option<Seq<char>>>>) -> Option<IdentView> {
    match groups {
        Some(g) => if g.len() >= 4 && g[1] is Some && g[2] is Some && g[3] is Some {
            Some(IdentView { nickname: g[1]->0, user: g[2]->0, host: g[3]->0 })
        } else {
            None
        },
        None => None,
    }
}

/// The view of an optional identity.
pub open spec fn opt_ident_view(o: Option<Ident>) -> Option<IdentView> {
    match o {
        Some(i) => Some(i@),
        None => None,
    }
}

/// The pattern of a prefix that names a user: an optional colon, then
/// nickname, user and host, with `!` and `@` between them.
pub open spec fn pattern() -> Seq<char> {
    ":?(.*)!(.*)@(.*)"@
}

impl Ident {
    /// The identity that the groups of a match stand for.
    pub fn from_captures(groups: Option<Vec<Option<String>>>) -> (r: Option<Ident>)
        ensures
            opt_ident_view(r) == ident_of(groups_view(groups)),
    {
        match groups {
            Some(g) => {
                if g.len() < 4 {
                    return None;
                }
                match (&g[1], &g[2], &g[3]) {
                    (Some(nickname), Some(user), Some(host)) => Some(
                        Ident {
                            nickname: nickname.clone(),
                            user: user.clone(),
                            host: host.clone(),
                        },
                    ),
                    _ => None,
                }
            },
            None => None,
        }
    }

    /// Takes a prefix of the form `nick!user@host` apart. A colon in front
    /// of the nickname is left out. The nickname ends at the last `!` that
    /// an `@` follows, and the user at the last `@`.
    pub fn parse(s: &str) -> (r: Option<Ident>)
        ensures
            opt_ident_view(r) == ident_of(captured(pattern(), s@)),
    {
        Ident::from_captures(captures(":?(.*)!(.*)@(.*)", s))
    }
}

} // verus!
