//! The router: from a request's method and headers to what is done with it,
//! and from what was done to the reply.
//!
//! Resolving backend credentials and probing the backend are left to the
//! caller: `route` says which of them a request needs, and the `answer_`
//! functions turn what came of it into the reply.

use crate::auth::{authenticated, authorizes};
use crate::config::Config;
use crate::link::Operation;
use vstd::prelude::*;

verus! {

/// `200 OK`
pub const STATUS_OK: u16 = 200;

/// `301 Moved Permanently`
pub const STATUS_MOVED_PERMANENTLY: u16 = 301;

/// `401 Unauthorized`
pub const STATUS_UNAUTHORIZED: u16 = 401;

/// `404 Not Found`
pub const STATUS_NOT_FOUND: u16 = 404;

/// `405 Method Not Allowed`
pub const STATUS_METHOD_NOT_ALLOWED: u16 = 405;

/// The request methods that the router tells apart.
#[derive(Clone, Copy, PartialEq, Eq, Structural, Debug)]
pub enum Verb {
    Get,
    Put,
    Head,
    Other,
}

/// The bytes of `GET`.
pub open spec fn name_get() -> Seq<u8> {
    seq![71u8, 69u8, 84u8]
}

/// The bytes of `PUT`.
pub open spec fn name_put() -> Seq<u8> {
    seq![80u8, 85u8, 84u8]
}

/// The bytes of `HEAD`.
pub open spec fn name_head() -> Seq<u8> {
    seq![72u8, 69u8, 65u8, 68u8]
}

/// The method that a name stands for. Names are taken as they are written:
/// `get` is not `GET`.
pub open spec fn verb_of(name: Seq<u8>) -> Verb {
    if name == name_get() {
        Verb::Get
    } else if name == name_put() {
        Verb::Put
    } else if name == name_head() {
        Verb::Head
    } else {
        Verb::Other
    }
}

impl Verb {
    /// Reads a method from its name in a request line.
    pub fn parse(name: &[u8]) -> (verb: Verb)
        ensures
            verb == verb_of(name@),
    {
        let n: usize = name.len();
        if n == 3 && name[0] == 71 && name[1] == 69 && name[2] == 84 {
            assert(name@ =~= name_get());
            Verb::Get
        } else if n == 3 && name[0] == 80 && name[1] == 85 && name[2] == 84 {
            assert(name@ =~= name_put());
            assert(name_get()[0] != name@[0]);
            Verb::Put
        } else if n == 4 && name[0] == 72 && name[1] == 69 && name[2] == 65 && name[3] == 68 {
            assert(name@ =~= name_head());
            assert(name_get().len() != name@.len());
            assert(name_put().len() != name@.len());
            Verb::Head
        } else {
            assert(name@ == name_get() ==> name@.len() == 3 && name@[0] == 71 && name@[1] == 69
                && name@[2] == 84);
            assert(name@ == name_put() ==> name@.len() == 3 && name@[0] == 80 && name@[1] == 85
                && name@[2] == 84);
            assert(name@ == name_head() ==> name@.len() == 4 && name@[0] == 72 && name@[1] == 69
                && name@[2] == 65 && name@[3] == 68);
            Verb::Other
        }
    }
}

/// What a request calls for.
#[derive(Clone, Copy, PartialEq, Eq, Structural, Debug)]
pub enum Action {
    /// Answer `401` at once.
    Deny,
    /// Resolve backend credentials, sign a link, answer `301` with it.
    Sign(Operation),
    /// Ask the backend whether the object exists, answer `200` or `404`.
    Probe,
    /// Answer `405` at once.
    Refuse,
}

/// A reply: a status, and a `Location` header where there is one. It has no
/// body.
pub struct Reply {
    pub status: u16,
    pub location: Option<String>,
}

/// The header as the authorizer reads it.
pub open spec fn header_bytes(authz: Option<&[u8]>) -> Option<Seq<u8>> {
    match authz {
        Some(value) => Some(value@),
        None => None,
    }
}

/// Whether a request is turned away: it carries an `Authorization` header
/// and the authorizer confirms it.
pub open spec fn turned_away(config: &Config, header: Option<Seq<u8>>) -> bool {
    match header {
        Some(value) => authorizes(config, value),
        None => false,
    }
}

/// What the method alone calls for, once the request was not turned away.
pub open spec fn dispatch(verb: Verb) -> Action {
    match verb {
        Verb::Get => Action::Sign(Operation::Get),
        Verb::Put => Action::Sign(Operation::Put),
        Verb::Head => Action::Probe,
        Verb::Other => Action::Refuse,
    }
}

/// The transition of the router: the header is judged first, the method
/// second.
pub open spec fn next_action(config: &Config, verb: Verb, header: Option<Seq<u8>>) -> Action {
    if turned_away(config, header) {
        Action::Deny
    } else {
        dispatch(verb)
    }
}

/// The status of the reply that ends an action; `found` is what the probe
/// said and counts for `Probe` alone.
pub open spec fn final_status(action: Action, found: bool) -> u16 {
    match action {
        Action::Deny => STATUS_UNAUTHORIZED,
        Action::Sign(_) => STATUS_MOVED_PERMANENTLY,
        Action::Probe => if found {
            STATUS_OK
        } else {
            STATUS_NOT_FOUND
        },
        Action::Refuse => STATUS_METHOD_NOT_ALLOWED,
    }
}

/// Decides what a request calls for, from its method and the raw value of
/// its `Authorization` header, if it has one.
pub fn route(config: &Config, verb: Verb, authz: Option<&[u8]>) -> (action: Action)
    ensures
        action == next_action(config, verb, header_bytes(authz)),
{
    let closed = match authz {
        Some(value) => authenticated(config, value),
        None => false,
    };
    if closed {
        Action::Deny
    } else {
        match verb {
            Verb::Get => Action::Sign(Operation::Get),
            Verb::Put => Action::Sign(Operation::Put),
            Verb::Head => Action::Probe,
            Verb::Other => Action::Refuse,
        }
    }
}

/// The reply to a request that needs no outside work: `401` where it was
/// turned away, `405` for a method that is not served. For the two other
/// actions there is no reply yet.
pub fn answer_now(action: Action) -> (reply: Option<Reply>)
    ensures
        match action {
            Action::Deny | Action::Refuse => reply matches Some(r) && r.status == final_status(
                action,
                false,
            ) && r.location is None,
            Action::Sign(_) | Action::Probe => reply is None,
        },
{
    match action {
        Action::Deny => Some(Reply { status: STATUS_UNAUTHORIZED, location: None }),
        Action::Refuse => Some(Reply { status: STATUS_METHOD_NOT_ALLOWED, location: None }),
        Action::Sign(_) => None,
        Action::Probe => None,
    }
}

/// The reply that sends the caller to a signed link: `301`, with the link
/// as its `Location`.
pub fn answer_link(link: String) -> (reply: Reply)
    ensures
        reply.status == STATUS_MOVED_PERMANENTLY,
        reply.location == Some(link),
{
    Reply { status: STATUS_MOVED_PERMANENTLY, location: Some(link) }
}

/// The reply to an existence probe: `200` where the object was found,
/// `404` where it was not or the probe failed.
pub fn answer_probe(found: bool) -> (reply: Reply)
    ensures
        reply.status == final_status(Action::Probe, found),
        reply.location is None,
{
    Reply { status: if found { STATUS_OK } else { STATUS_NOT_FOUND }, location: None }
}

/// A request with a valid `Authorization` header is denied, whatever its
/// method: it ends in `401`.
pub proof fn lemma_valid_header_is_denied(config: &Config, verb: Verb, header: Seq<u8>, found: bool)
    requires
        authorizes(config, header),
    ensures
        next_action(config, verb, Some(header)) == Action::Deny,
        final_status(next_action(config, verb, Some(header)), found) == STATUS_UNAUTHORIZED,
{
}

/// A request without an `Authorization` header is dispatched on its method
/// alone: `GET` and `PUT` end in `301`, `HEAD` in `200` or `404` as the
/// probe says, any other method in `405`.
pub proof fn lemma_no_header_is_dispatched(config: &Config, verb: Verb, found: bool)
    ensures
        next_action(config, verb, None) == dispatch(verb),
        verb == Verb::Get || verb == Verb::Put ==> final_status(
            next_action(config, verb, None),
            found,
        ) == STATUS_MOVED_PERMANENTLY,
        verb == Verb::Head ==> final_status(next_action(config, verb, None), found) == (if found {
            STATUS_OK
        } else {
            STATUS_NOT_FOUND
        }),
        verb == Verb::Other ==> final_status(next_action(config, verb, None), found)
            == STATUS_METHOD_NOT_ALLOWED,
{
}

/// A request whose header the authorizer does not confirm fares as one
/// without a header.
pub proof fn lemma_invalid_header_is_ignored(config: &Config, verb: Verb, header: Seq<u8>)
    requires
        !authorizes(config, header),
    ensures
        next_action(config, verb, Some(header)) == next_action(config, verb, None),
{
}

/// A method that is not served ends in `405` on every request that is not
/// turned away.
pub proof fn lemma_other_method_refused(config: &Config, header: Option<Seq<u8>>, found: bool)
    requires
        !turned_away(config, header),
    ensures
        final_status(next_action(config, Verb::Other, header), found) == STATUS_METHOD_NOT_ALLOWED,
{
}

} // verus!
