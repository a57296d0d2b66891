//! The presence advertisement a session publishes.
//!
//! A start registers one record under the shared service type: its instance
//! name combines the chosen nickname with the bound port (so two sessions on
//! one host never collide), and its metadata carries the nickname and — for
//! older metadata-only consumers — the port again as text.  The plan of that
//! record is computed and pinned down here; turning the plan into the
//! daemon's record type is the one outside call of this crate.

use crate::decimal::dec_seq;
use crate::decimal::u16_to_dec;
use crate::errors::DiscoveryError;
use vstd::prelude::*;
use vstd::string::StringExecFns;

verus! {

#[verifier::external_type_specification]
#[verifier::external_body]
pub struct ExServiceInfo(mdns_sd::ServiceInfo);

/// Everything the advertising subsystem is told when a session registers
/// its presence.
pub struct AdvertPlan {
    /// The shared service type all sessions advertise and browse.
    pub service_type: String,
    /// The session's unique instance name: nickname and bound port.
    pub instance_name: String,
    /// The host name for the record's address entries.
    pub hostname: String,
    /// Text of the local host's outward-facing address.
    pub ip: String,
    /// The bound receiver port.
    pub port: u16,
    /// The metadata entries, in order: the nickname, and the port as text.
    pub properties: Vec<(String, String)>,
}

/// The service type under which every session advertises.
pub open spec fn service_type_text() -> Seq<char> {
    "_theochallengers._tcp.local."@
}

/// The instance name of a session: the nickname, an underscore, the port.
pub open spec fn instance_name_text(nick: Seq<char>, port: u16) -> Seq<char> {
    nick + "_"@ + dec_seq(port as nat)
}

/// The host name placed in the record's address entries.
pub open spec fn hostname_text(nick: Seq<char>, port: u16) -> Seq<char> {
    instance_name_text(nick, port) + ".local."@
}

/// The metadata entries a session advertises, in order: the nickname, and
/// the port as text.
pub open spec fn advert_props(nick: Seq<char>, port: u16) -> Seq<(Seq<char>, Seq<char>)> {
    seq![("nickname"@, nick), ("port"@, dec_seq(port as nat))]
}

/// Whether `p` is exactly the advertisement plan for the given nickname,
/// bound port and local address text.
pub open spec fn advert_plan_is(p: AdvertPlan, nick: Seq<char>, port: u16, ip: Seq<char>) -> bool {
    &&& p.service_type@ == service_type_text()
    &&& p.instance_name@ == instance_name_text(nick, port)
    &&& p.hostname@ == hostname_text(nick, port)
    &&& p.ip@ == ip
    &&& p.port == port
    &&& p.properties@.len() == 2
    &&& p.properties@[0].0@ == "nickname"@
    &&& p.properties@[0].1@ == nick
    &&& p.properties@[1].0@ == "port"@
    &&& p.properties@[1].1@ == dec_seq(port as nat)
}

/// Computes the advertisement plan for a session.
pub fn build_advert_plan(nickname: &str, port: u16, ip: String) -> (p: AdvertPlan)
    ensures
        advert_plan_is(p, nickname@, port, ip@),
{
    let mut instance_name = String::from_str(nickname);
    instance_name.append("_");
    instance_name.append(u16_to_dec(port).as_str());
    let hostname = instance_name.clone().concat(".local.");
    let mut properties: Vec<(String, String)> = Vec::new();
    properties.push((String::from_str("nickname"), String::from_str(nickname)));
    properties.push((String::from_str("port"), u16_to_dec(port)));
    let p = AdvertPlan {
        service_type: String::from_str("_theochallengers._tcp.local."),
        instance_name,
        hostname,
        ip,
        port,
        properties,
    };
    proof {
        assert(p.instance_name@ =~= instance_name_text(nickname@, port));
        assert(p.hostname@ =~= hostname_text(nickname@, port));
    }
    p
}

/// Two sessions with the same nickname never advertise under the same
/// instance name: the embedded port distinguishes them, so concurrent
/// sessions on one host cannot collide.
pub proof fn lemma_instance_names_distinct(nick: Seq<char>, p1: u16, p2: u16)
    requires
        p1 != p2,
    ensures
        instance_name_text(nick, p1) != instance_name_text(nick, p2),
{
    if instance_name_text(nick, p1) == instance_name_text(nick, p2) {
        let prefix = nick + "_"@;
        let a = dec_seq(p1 as nat);
        let b = dec_seq(p2 as nat);
        assert(a =~= (prefix + a).skip(prefix.len() as int));
        assert(b =~= (prefix + b).skip(prefix.len() as int));
        crate::decimal::lemma_dec_seq_injective(p1 as nat, p2 as nat);
    }
}

/// Whether the advertising subsystem accepts this text as an address list.
pub uninterp spec fn ip_text_parses(ip: Seq<char>) -> bool;

/// Whether the advertising subsystem refuses to build a record from these
/// values.
pub uninterp spec fn record_refused(
    service_type: Seq<char>,
    instance_name: Seq<char>,
    hostname: Seq<char>,
    ip: Seq<char>,
    port: u16,
    properties: Seq<(Seq<char>, Seq<char>)>,
) -> bool;

/// The views of the metadata entries, in order.
pub open spec fn props_view(properties: Seq<(String, String)>) -> Seq<(Seq<char>, Seq<char>)> {
    properties.map_values(|p: (String, String)| (p.0@, p.1@))
}

/// Relies on `mdns_sd::ServiceInfo::new`: builds the record that the daemon
/// registers from the service type, instance name, host name, address text,
/// port and metadata.  Whether it refuses is decided from those values
/// alone, and it refuses at least whenever the address text does not parse
/// as an address list.
#[verifier::external_body]
fn new_service_info(plan: &AdvertPlan) -> (r: Result<mdns_sd::ServiceInfo, String>)
    ensures
        r is Err <==> record_refused(
            plan.service_type@,
            plan.instance_name@,
            plan.hostname@,
            plan.ip@,
            plan.port,
            props_view(plan.properties@),
        ),
        !ip_text_parses(plan.ip@) ==> r is Err,
{
    let info = mdns_sd::ServiceInfo::new(
        plan.service_type.as_str(),
        plan.instance_name.as_str(),
        plan.hostname.as_str(),
        plan.ip.as_str(),
        plan.port,
        &plan.properties[..],
    );
    match info {
        Ok(i) => Ok(i),
        Err(e) => Err(e.to_string()),
    }
}

/// Builds the service record for a plan.  The record comes back exactly
/// when the advertising subsystem does not refuse the plan's values; a
/// refusal — certain when the address text does not parse — is reported as
/// an advertisement error.
pub fn build_advertisement(plan: &AdvertPlan) -> (r: Result<mdns_sd::ServiceInfo, DiscoveryError>)
    ensures
        r matches Err(e) ==> e is Advertisement,
        r is Err <==> record_refused(
            plan.service_type@,
            plan.instance_name@,
            plan.hostname@,
            plan.ip@,
            plan.port,
            props_view(plan.properties@),
        ),
        !ip_text_parses(plan.ip@) ==> r is Err,
{
    match new_service_info(plan) {
        Ok(i) => Ok(i),
        Err(m) => Err(DiscoveryError::Advertisement(m)),
    }
}

} // verus!
