//! Decides the service's settings from values that the environment holds.

use crate::text::{owned, trimmed, trimmed_text};
use vstd::prelude::*;

verus! {

/// The address that is used where nothing is configured.
pub open spec fn default_bind_addr() -> Seq<char> {
    "127.0.0.1:8080"@
}

/// Whether a configured value is present and holds more than whitespace.
pub open spec fn is_given(value: Option<String>) -> bool {
    match value {
        Some(text) => trimmed_text(text@).len() > 0,
        None => false,
    }
}

/// The bind address, given what is left of the configured address and of
/// the configured port once whitespace is trimmed: the configured address
/// as it stands where something is left of it, else every interface on the
/// trimmed port where something is left of that, else the default address.
pub open spec fn bind_addr_from(
    engine_bind: Option<String>,
    bind_rest: Seq<char>,
    port_rest: Seq<char>,
) -> Seq<char> {
    if engine_bind is Some && bind_rest.len() > 0 {
        engine_bind->Some_0@
    } else if port_rest.len() > 0 {
        "0.0.0.0:"@ + port_rest
    } else {
        default_bind_addr()
    }
}

/// What is left of a configured value once whitespace is trimmed; nothing
/// where no value is configured.
pub open spec fn rest_of(value: Option<String>) -> Seq<char> {
    match value {
        Some(text) => trimmed_text(text@),
        None => Seq::empty(),
    }
}

/// The bind address for a configured address and port.
pub open spec fn bind_addr(engine_bind: Option<String>, port: Option<String>) -> Seq<char> {
    bind_addr_from(engine_bind, rest_of(engine_bind), rest_of(port))
}

/// Picks the bind address, given the trimmed address and the trimmed port.
pub fn choose_bind_addr(engine_bind: Option<String>, bind_rest: &str, port_rest: &str) -> (addr:
    String)
    ensures
        addr@ == bind_addr_from(engine_bind, bind_rest@, port_rest@),
{
    if let Some(bind) = engine_bind {
        if !bind_rest.is_empty() {
            return bind;
        }
    }
    if !port_rest.is_empty() {
        let mut addr = owned("0.0.0.0:");
        addr.append(port_rest);
        return addr;
    }
    owned("127.0.0.1:8080")
}

/// Picks the bind address from the configured address and port.
pub fn resolve_bind_addr(engine_bind: Option<String>, port: Option<String>) -> (addr: String)
    ensures
        addr@ == bind_addr(engine_bind, port),
{
    let bind_rest = match &engine_bind {
        Some(bind) => owned(trimmed(bind.as_str())),
        None => String::new(),
    };
    let port_rest = match &port {
        Some(text) => owned(trimmed(text.as_str())),
        None => String::new(),
    };
    choose_bind_addr(engine_bind, bind_rest.as_str(), port_rest.as_str())
}

/// Accepts a database address of which something is left once whitespace
/// is trimmed, and rejects any other.
pub fn choose_database_url(value: Option<String>, rest: &str) -> (url: Option<String>)
    ensures
        url is Some <==> value is Some && rest@.len() > 0,
        url is Some ==> url == value,
{
    match value {
        Some(text) => {
            if !rest.is_empty() {
                Some(text)
            } else {
                None
            }
        },
        None => None,
    }
}

/// Accepts a database address that is given and rejects any other.
pub fn resolve_database_url(value: Option<String>) -> (url: Option<String>)
    ensures
        url is Some <==> is_given(value),
        url is Some ==> url == value,
{
    let rest = match &value {
        Some(text) => owned(trimmed(text.as_str())),
        None => String::new(),
    };
    choose_database_url(value, rest.as_str())
}

} // verus!
