//! The engine's command line: how a valid set of options is written in the
//! engine's own flags.

use crate::options::{OptionSet, OptionSetView, Protocol};
use crate::text::{decimal, to_decimal};
use vstd::prelude::*;

verus! {

/// The decimal notation of a number that may be absent.
pub open spec fn number_text(number: Option<nat>) -> Option<Seq<char>> {
    match number {
        Some(n) => Some(decimal(n)),
        None => None,
    }
}

/// A port as a natural number.
pub open spec fn port_number(port: Option<u16>) -> nat {
    match port {
        Some(port) => port as nat,
        None => 0,
    }
}

/// A count of probes as a natural number, where there is one.
pub open spec fn count_number(count: Option<usize>) -> Option<nat> {
    match count {
        Some(count) => Some(count as nat),
        None => None,
    }
}

/// A number of hops as a natural number, where there is one.
pub open spec fn hops_number(hops: Option<u8>) -> Option<nat> {
    match hops {
        Some(hops) => Some(hops as nat),
        None => None,
    }
}

/// A flag that stands on the command line only when it is switched on.
pub open spec fn switch(on: bool, flag: Seq<char>) -> Seq<Seq<char>> {
    if on {
        seq![flag]
    } else {
        Seq::empty()
    }
}

/// A flag followed by its value, or nothing where there is no value.
pub open spec fn valued(flag: Seq<char>, value: Option<Seq<char>>) -> Seq<Seq<char>> {
    match value {
        Some(value) => seq![flag, value],
        None => Seq::empty(),
    }
}

/// How the protocol is chosen: not at all for ICMP, the engine's default,
/// and in the joint form `protocol:port` for TCP and UDP.
pub open spec fn protocol_arguments(protocol: Protocol, port: nat) -> Seq<Seq<char>> {
    match protocol {
        Protocol::Icmp => Seq::empty(),
        Protocol::Tcp => seq!["--protocol"@, "tcp:"@ + decimal(port)],
        Protocol::Udp => seq!["--protocol"@, "udp:"@ + decimal(port)],
    }
}

/// The engine's arguments for a set of options: the protocol, the host, and
/// then each option that was given, in a fixed order. An option that was not
/// given leaves no trace, so that the engine's own default applies.
pub open spec fn arguments(options: OptionSetView) -> Seq<Seq<char>> {
    protocol_arguments(options.protocol, port_number(options.port)) + seq![options.host]
        + switch(options.report_mode, "--report"@) + valued(
        "--max-rounds"@,
        number_text(count_number(options.ping_count)),
    ) + valued("--interval"@, options.interval_seconds) + valued(
        "--grace-duration"@,
        options.timeout_seconds,
    ) + switch(options.suppress_reverse_dns, "--no-dns"@) + valued(
        "--max-ttl"@,
        number_text(hops_number(options.max_hops)),
    )
}

/// The place of the host among the arguments.
pub open spec fn host_index(protocol: Protocol) -> int {
    match protocol {
        Protocol::Icmp => 0,
        Protocol::Tcp => 2,
        Protocol::Udp => 2,
    }
}

fn push_text(arguments: &mut Vec<String>, text: &str)
    ensures
        final(arguments).deep_view() == old(arguments).deep_view().push(text@),
{
    arguments.push(String::from_str(text));
    assert(arguments.deep_view() =~= old(arguments).deep_view().push(text@));
}

fn push_switch(arguments: &mut Vec<String>, on: bool, flag: &str)
    ensures
        final(arguments).deep_view() == old(arguments).deep_view() + switch(on, flag@),
{
    if on {
        push_text(arguments, flag);
    }
    assert(arguments.deep_view() =~= old(arguments).deep_view() + switch(on, flag@));
}

fn push_valued(arguments: &mut Vec<String>, flag: &str, value: Option<&str>)
    ensures
        final(arguments).deep_view() == old(arguments).deep_view() + valued(
            flag@,
            match value {
                Some(value) => Some(value@),
                None => None,
            },
        ),
{
    match value {
        Some(value) => {
            push_text(arguments, flag);
            push_text(arguments, value);
            assert(arguments.deep_view() =~= old(arguments).deep_view() + seq![flag@, value@]);
        },
        None => {
            assert(arguments.deep_view() =~= old(arguments).deep_view() + Seq::empty());
        },
    }
}

fn push_number(arguments: &mut Vec<String>, flag: &str, number: Option<u64>)
    ensures
        final(arguments).deep_view() == old(arguments).deep_view() + valued(
            flag@,
            number_text(
                match number {
                    Some(n) => Some(n as nat),
                    None => None,
                },
            ),
        ),
{
    match number {
        Some(n) => {
            let text = to_decimal(n);
            push_valued(arguments, flag, Some(text.as_str()));
        },
        None => {
            push_valued(arguments, flag, None);
        },
    }
}

fn push_protocol(arguments: &mut Vec<String>, name: &str, port: u16)
    ensures
        final(arguments).deep_view() == old(arguments).deep_view() + seq![
            "--protocol"@,
            name@ + decimal(port as nat),
        ],
{
    let mut joint = String::from_str(name);
    joint.append(to_decimal(port as u64).as_str());
    push_valued(arguments, "--protocol", Some(joint.as_str()));
}

fn widened_count(count: Option<usize>) -> (wide: Option<u64>)
    ensures
        match wide {
            Some(n) => count_number(count) == Some(n as nat),
            None => count_number(count) is None,
        },
{
    match count {
        Some(count) => Some(count as u64),
        None => None,
    }
}

fn widened_hops(hops: Option<u8>) -> (wide: Option<u64>)
    ensures
        match wide {
            Some(n) => hops_number(hops) == Some(n as nat),
            None => hops_number(hops) is None,
        },
{
    match hops {
        Some(hops) => Some(hops as u64),
        None => None,
    }
}

fn as_text(value: &Option<String>) -> (text: Option<&str>)
    ensures
        match text {
            Some(t) => *value matches Some(v) && v@ == t@,
            None => *value is None,
        },
{
    match value {
        Some(value) => Some(value.as_str()),
        None => None,
    }
}

/// Writes a valid set of options as the engine's arguments. The host is
/// always among them, right after the protocol.
pub fn translate(options: &OptionSet) -> (args: Vec<String>)
    ensures
        args.deep_view() == arguments(options@),
        args.deep_view()[host_index(options@.protocol)] == options@.host,
{
    let mut args: Vec<String> = Vec::new();
    assert(args.deep_view() =~= Seq::empty());
    let protocol = options.protocol();
    let port = options.port();
    match protocol {
        Protocol::Icmp => {},
        Protocol::Tcp => {
            push_protocol(&mut args, "tcp:", port.unwrap());
        },
        Protocol::Udp => {
            push_protocol(&mut args, "udp:", port.unwrap());
        },
    }
    assert(args.deep_view() =~= protocol_arguments(
        options@.protocol,
        port_number(options@.port),
    ));
    push_text(&mut args, options.host().as_str());
    push_switch(&mut args, options.report_mode(), "--report");
    push_number(&mut args, "--max-rounds", widened_count(options.ping_count()));
    push_valued(&mut args, "--interval", as_text(options.interval_seconds()));
    push_valued(&mut args, "--grace-duration", as_text(options.timeout_seconds()));
    push_switch(&mut args, options.suppress_reverse_dns(), "--no-dns");
    push_number(&mut args, "--max-ttl", widened_hops(options.max_hops()));
    args
}

} // verus!
