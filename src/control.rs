//! Addressing on the control bus.
//!
//! Every supervisor sees every message. A message reads `"<tenant>:<command>"`;
//! the text before its first colon names the tenant it is meant for.
use vstd::prelude::*;
use vstd::string::*;
use crate::text::{chars_of, joined, text_eq};

verus! {

/// A lifecycle command that a supervisor acts upon.
#[derive(Clone, Copy, Debug, PartialEq, Eq, Structural)]
pub enum Command {
    Pause,
    Resume,
    Stop,
}

/// The word that names a command on the bus.
pub open spec fn command_word(c: Command) -> Seq<char> {
    match c {
        Command::Pause => "pause"@,
        Command::Resume => "resume"@,
        Command::Stop => "stop"@,
    }
}

/// The command that a word names, if any.
pub open spec fn command_of(w: Seq<char>) -> Option<Command> {
    if w == "pause"@ {
        Some(Command::Pause)
    } else if w == "resume"@ {
        Some(Command::Resume)
    } else if w == "stop"@ {
        Some(Command::Stop)
    } else {
        None
    }
}

/// The text holds no colon.
pub open spec fn colon_free(s: Seq<char>) -> bool {
    forall|i: int| 0 <= i < s.len() ==> s[i] != ':'
}

/// A message is addressed to `tenant` when the text before its first colon is
/// exactly `tenant`; what it asks for is the text after that colon.
pub open spec fn addressed_to(msg: Seq<char>, tenant: Seq<char>) -> bool {
    &&& colon_free(tenant)
    &&& tenant.len() < msg.len()
    &&& msg[tenant.len() as int] == ':'
    &&& msg.take(tenant.len() as int) == tenant
}

/// The command that `msg` carries for `tenant`: none when the message is meant
/// for another tenant or names no known command.
pub open spec fn route_spec(msg: Seq<char>, tenant: Seq<char>) -> Option<Command> {
    if addressed_to(msg, tenant) {
        command_of(msg.skip(tenant.len() as int + 1))
    } else {
        None
    }
}

/// The text of the message that asks `tenant` for `c`.
pub open spec fn message_spec(tenant: Seq<char>, c: Command) -> Seq<char> {
    tenant + seq![':'] + command_word(c)
}

/// The word of a command.
pub fn command_text(c: Command) -> (r: &'static str)
    ensures
        r@ == command_word(c),
{
    match c {
        Command::Pause => "pause",
        Command::Resume => "resume",
        Command::Stop => "stop",
    }
}

/// The command named by a word, if any.
pub fn parse_command_word(w: &str) -> (r: Option<Command>)
    ensures
        r == command_of(w@),
{
    if text_eq(w, "pause") {
        Some(Command::Pause)
    } else if text_eq(w, "resume") {
        Some(Command::Resume)
    } else if text_eq(w, "stop") {
        Some(Command::Stop)
    } else {
        None
    }
}

/// Builds the bus message that asks `tenant` for `c`.
pub fn control_message(tenant: &str, c: Command) -> (r: String)
    ensures
        r@ == message_spec(tenant@, c),
{
    let head = joined(tenant, ":");
    let r = joined(head.as_str(), command_text(c));
    proof {
        reveal_strlit(":");
    }
    r
}

/// The command that a bus message carries for the supervisor of `tenant`.
pub fn route(msg: &str, tenant: &str) -> (r: Option<Command>)
    ensures
        r == route_spec(msg@, tenant@),
{
    let m = chars_of(msg);
    let t = chars_of(tenant);
    let mut i: usize = 0;
    while i < m.len() && m[i] != ':'
        invariant
            m@ == msg@,
            i <= m@.len(),
            colon_free(m@.take(i as int)),
        decreases m@.len() - i,
    {
        i = i + 1;
        assert(colon_free(m@.take(i as int))) by {
            assert forall|j: int| 0 <= j < i implies m@.take(i as int)[j] != ':' by {
                if j < i - 1 {
                    assert(m@.take(i as int)[j] == m@.take(i - 1)[j]);
                }
            }
        }
    }
    if i == m.len() {
        // No colon at all: nothing is addressed by this message.
        assert(!addressed_to(msg@, tenant@)) by {
            if addressed_to(msg@, tenant@) {
                assert(m@.take(i as int)[tenant@.len() as int] == ':');
            }
        }
        return None;
    }
    if i != t.len() {
        assert(!addressed_to(msg@, tenant@)) by {
            if addressed_to(msg@, tenant@) {
                if i < t@.len() {
                    assert(tenant@[i as int] == msg@.take(tenant@.len() as int)[i as int]);
                } else {
                    assert(m@.take(i as int)[t@.len() as int] == ':');
                }
            }
        }
        return None;
    }
    let mut k: usize = 0;
    while k < i
        invariant
            m@ == msg@,
            t@ == tenant@,
            i == t@.len(),
            i < m@.len(),
            k <= i,
            forall|j: int| 0 <= j < k ==> m@[j] == t@[j],
        decreases i - k,
    {
        if m[k] != t[k] {
            assert(msg@.take(tenant@.len() as int)[k as int] != tenant@[k as int]);
            return None;
        }
        k = k + 1;
    }
    assert(msg@.take(tenant@.len() as int) =~= tenant@);
    assert(colon_free(tenant@)) by {
        assert forall|j: int| 0 <= j < tenant@.len() implies tenant@[j] != ':' by {
            assert(m@.take(i as int)[j] == m@[j]);
        }
    }
    let rest = msg.substring_char(i + 1, m.len());
    parse_command_word(rest)
}

/// Round trip of addressing: the message built for a tenant whose name holds
/// no colon reaches that tenant's supervisor with the command it was built for.
pub proof fn lemma_message_reaches_its_tenant(tenant: Seq<char>, c: Command)
    requires
        colon_free(tenant),
    ensures
        route_spec(message_spec(tenant, c), tenant) == Some(c),
{
    let m = message_spec(tenant, c);
    assert(m.take(tenant.len() as int) =~= tenant);
    assert(m.skip(tenant.len() as int + 1) =~= command_word(c));
    reveal_strlit("pause");
    reveal_strlit("resume");
    reveal_strlit("stop");
}

/// No wildcard addressing: the message built for one tenant carries nothing
/// for the supervisor of any other tenant.
pub proof fn lemma_message_skips_other_tenants(tenant: Seq<char>, other: Seq<char>, c: Command)
    requires
        colon_free(tenant),
        other != tenant,
    ensures
        route_spec(message_spec(tenant, c), other) == None::<Command>,
{
    let m = message_spec(tenant, c);
    if addressed_to(m, other) {
        if other.len() < tenant.len() {
            assert(m[other.len() as int] == tenant[other.len() as int]);
        } else if other.len() > tenant.len() {
            assert(other[tenant.len() as int] == m.take(other.len() as int)[tenant.len() as int]);
            assert(other[tenant.len() as int] == ':');
        } else {
            assert(other =~= tenant) by {
                assert forall|j: int| 0 <= j < other.len() implies other[j] == tenant[j] by {
                    assert(other[j] == m.take(other.len() as int)[j]);
                }
            }
        }
    }
}

} // verus!
