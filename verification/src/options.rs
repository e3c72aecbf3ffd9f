//! The options of a run: what the command line gave, and the checked set
//! that the rest of the front end works with.

use crate::error::{ErrorView, MtrError};
use crate::text::{decimal, to_decimal};
use vstd::prelude::*;

verus! {

/// The kind of probe that the engine sends.
#[derive(Debug, Clone, Copy, PartialEq, Eq, Structural)]
pub enum Protocol {
    Icmp,
    Tcp,
    Udp,
}

/// The smallest port that a probe can be sent to.
pub const PORT_MIN: u64 = 1;

/// The largest port that a probe can be sent to.
pub const PORT_MAX: u64 = 65535;

/// The options as the command line gave them, before any check.
#[derive(Debug, PartialEq, Eq)]
pub struct RawOptions {
    /// The target, a host name or an address.
    pub host: String,
    /// `-T`: probe with TCP.
    pub tcp: bool,
    /// `-U`: probe with UDP.
    pub udp: bool,
    /// `-P`: the port to probe.
    pub port: Option<u64>,
    /// `-r`: print a report and stop.
    pub report: bool,
    /// `-c`: the number of probes per hop.
    pub count: Option<usize>,
    /// `-i`: the seconds between probes, as a decimal number in text.
    pub interval: Option<String>,
    /// `-w`: the seconds to wait for an answer, as a decimal number in text.
    pub timeout: Option<String>,
    /// `-n`: do not look up the names of the hops.
    pub no_dns: bool,
    /// `-m`: the largest number of hops.
    pub max_hops: Option<u8>,
}

/// A set of options that passed every check. For TCP and UDP it holds a
/// port; a port that it holds lies between `PORT_MIN` and `PORT_MAX`.
#[derive(Debug, PartialEq, Eq)]
pub struct OptionSet {
    pub(crate) host: String,
    pub(crate) protocol: Protocol,
    pub(crate) port: Option<u16>,
    pub(crate) report_mode: bool,
    pub(crate) ping_count: Option<usize>,
    pub(crate) interval_seconds: Option<String>,
    pub(crate) timeout_seconds: Option<String>,
    pub(crate) suppress_reverse_dns: bool,
    pub(crate) max_hops: Option<u8>,
}

/// A set of options with its texts as sequences of characters.
pub struct OptionSetView {
    pub host: Seq<char>,
    pub protocol: Protocol,
    pub port: Option<u16>,
    pub report_mode: bool,
    pub ping_count: Option<usize>,
    pub interval_seconds: Option<Seq<char>>,
    pub timeout_seconds: Option<Seq<char>>,
    pub suppress_reverse_dns: bool,
    pub max_hops: Option<u8>,
}

impl OptionSetView {
    /// The rule that ties the port to the protocol.
    pub open spec fn wf(self) -> bool {
        &&& self.protocol != Protocol::Icmp ==> self.port is Some
        &&& self.port matches Some(port) ==> PORT_MIN <= port <= PORT_MAX
    }
}

/// The characters of a text that may be absent.
pub open spec fn text_of(text: Option<String>) -> Option<Seq<char>> {
    match text {
        Some(t) => Some(t@),
        None => None,
    }
}

impl View for OptionSet {
    type V = OptionSetView;

    closed spec fn view(&self) -> OptionSetView {
        OptionSetView {
            host: self.host@,
            protocol: self.protocol,
            port: self.port,
            report_mode: self.report_mode,
            ping_count: self.ping_count,
            interval_seconds: text_of(self.interval_seconds),
            timeout_seconds: text_of(self.timeout_seconds),
            suppress_reverse_dns: self.suppress_reverse_dns,
            max_hops: self.max_hops,
        }
    }
}

/// The protocol that the two flags choose together; both at once is a
/// contradiction.
pub open spec fn selected(tcp: bool, udp: bool) -> Result<Protocol, ErrorView> {
    if tcp && udp {
        Err(ErrorView::InvalidOption("-T cannot be used with -U"@))
    } else if tcp {
        Ok(Protocol::Tcp)
    } else if udp {
        Ok(Protocol::Udp)
    } else {
        Ok(Protocol::Icmp)
    }
}

/// The name under which a protocol is shown to the user.
pub open spec fn protocol_name(protocol: Protocol) -> Seq<char> {
    match protocol {
        Protocol::Icmp => "ICMP"@,
        Protocol::Tcp => "TCP"@,
        Protocol::Udp => "UDP"@,
    }
}

/// The letter of the flag that chooses a protocol; ICMP, the default, has
/// none.
pub open spec fn protocol_flag(protocol: Protocol) -> Option<char> {
    match protocol {
        Protocol::Icmp => None,
        Protocol::Tcp => Some('T'),
        Protocol::Udp => Some('U'),
    }
}

/// What is said of a port that lies outside the range.
pub open spec fn port_range_text(port: u64) -> Seq<char> {
    "Port number "@ + decimal(port as nat) + " is out of range (must be 1-65535)"@
}

/// Whether a number is a port.
pub open spec fn in_port_range(port: u64) -> bool {
    PORT_MIN <= port <= PORT_MAX
}

/// A port in the width in which a valid set holds it.
pub open spec fn narrowed(port: Option<u64>) -> Option<u16> {
    match port {
        Some(port) => Some(port as u16),
        None => None,
    }
}

/// The set that the options of a command line make with a protocol, once
/// they are found to be in order.
pub open spec fn accepted(raw: RawOptions, protocol: Protocol) -> OptionSetView {
    OptionSetView {
        host: raw.host@,
        protocol,
        port: narrowed(raw.port),
        report_mode: raw.report,
        ping_count: raw.count,
        interval_seconds: text_of(raw.interval),
        timeout_seconds: text_of(raw.timeout),
        suppress_reverse_dns: raw.no_dns,
        max_hops: raw.max_hops,
    }
}

/// The outcome of the checks: the contradiction between `-T` and `-U` comes
/// first; then a protocol that is chosen by a flag must come with a port;
/// and a port that is given must lie in the range. Nothing else is looked
/// at: the remaining options pass as they are.
pub open spec fn verified(raw: RawOptions) -> Result<OptionSetView, ErrorView> {
    match selected(raw.tcp, raw.udp) {
        Err(conflict) => Err(conflict),
        Ok(protocol) => match raw.port {
            None => match protocol_flag(protocol) {
                Some(flag) => Err(ErrorView::PortRequired(protocol_name(protocol), flag)),
                None => Ok(accepted(raw, protocol)),
            },
            Some(port) => if in_port_range(port) {
                Ok(accepted(raw, protocol))
            } else {
                Err(ErrorView::InvalidOption(port_range_text(port)))
            },
        },
    }
}

impl Protocol {
    /// The name under which this protocol is shown to the user.
    pub fn name(self) -> (name: String)
        ensures
            name@ == protocol_name(self),
    {
        match self {
            Protocol::Icmp => String::from_str("ICMP"),
            Protocol::Tcp => String::from_str("TCP"),
            Protocol::Udp => String::from_str("UDP"),
        }
    }

    /// The letter of the flag that chooses this protocol, if it has one.
    pub fn flag(self) -> (flag: Option<char>)
        ensures
            flag == protocol_flag(self),
    {
        match self {
            Protocol::Icmp => None,
            Protocol::Tcp => Some('T'),
            Protocol::Udp => Some('U'),
        }
    }
}

/// Reads the protocol off the two flags and refuses the pair `-T -U`,
/// whatever else the command line holds.
pub fn select_protocol(tcp: bool, udp: bool) -> (result: Result<Protocol, MtrError>)
    ensures
        match result {
            Ok(protocol) => selected(tcp, udp) == Ok::<Protocol, ErrorView>(protocol),
            Err(error) => selected(tcp, udp) == Err::<Protocol, ErrorView>(error@),
        },
{
    if tcp && udp {
        Err(MtrError::InvalidOption(String::from_str("-T cannot be used with -U")))
    } else if tcp {
        Ok(Protocol::Tcp)
    } else if udp {
        Ok(Protocol::Udp)
    } else {
        Ok(Protocol::Icmp)
    }
}

/// Accepts a number as a port if it lies in the range of ports.
pub fn check_port(port: u64) -> (result: Result<u16, MtrError>)
    ensures
        match result {
            Ok(accepted) => in_port_range(port) && accepted == port,
            Err(error) => !in_port_range(port) && error@ == ErrorView::InvalidOption(
                port_range_text(port),
            ),
        },
{
    if port < PORT_MIN || port > PORT_MAX {
        let mut reason = String::from_str("Port number ");
        reason.append(to_decimal(port).as_str());
        reason.append(" is out of range (must be 1-65535)");
        Err(MtrError::InvalidOption(reason))
    } else {
        Ok(port as u16)
    }
}

/// Checks the options of a command line and turns them into a valid set.
pub fn verify_options(raw: RawOptions) -> (result: Result<OptionSet, MtrError>)
    ensures
        match result {
            Ok(options) => verified(raw) == Ok::<OptionSetView, ErrorView>(options@)
                && options@.wf(),
            Err(error) => verified(raw) == Err::<OptionSetView, ErrorView>(error@),
        },
{
    let protocol = match select_protocol(raw.tcp, raw.udp) {
        Ok(protocol) => protocol,
        Err(conflict) => {
            return Err(conflict);
        },
    };
    let port: Option<u16> = match raw.port {
        None => match protocol.flag() {
            Some(flag) => {
                return Err(MtrError::PortRequired(protocol.name(), flag));
            },
            None => None,
        },
        Some(port) => match check_port(port) {
            Ok(port) => Some(port),
            Err(out_of_range) => {
                return Err(out_of_range);
            },
        },
    };
    Ok(
        OptionSet {
            host: raw.host,
            protocol,
            port,
            report_mode: raw.report,
            ping_count: raw.count,
            interval_seconds: raw.interval,
            timeout_seconds: raw.timeout,
            suppress_reverse_dns: raw.no_dns,
            max_hops: raw.max_hops,
        },
    )
}

impl OptionSet {
    /// The target, as it was given.
    pub fn host(&self) -> (host: &String)
        ensures
            host@ == self@.host,
            self@.wf(),
    {
        proof {
            use_type_invariant(self);
        }
        &self.host
    }

    /// The kind of probe.
    pub fn protocol(&self) -> (protocol: Protocol)
        ensures
            protocol == self@.protocol,
            self@.wf(),
    {
        proof {
            use_type_invariant(self);
        }
        self.protocol
    }

    /// The port to probe; always present for TCP and UDP.
    pub fn port(&self) -> (port: Option<u16>)
        ensures
            port == self@.port,
            self@.wf(),
    {
        proof {
            use_type_invariant(self);
        }
        self.port
    }

    /// Whether a report is printed in place of the running display.
    pub fn report_mode(&self) -> (report_mode: bool)
        ensures
            report_mode == self@.report_mode,
    {
        self.report_mode
    }

    /// The number of probes per hop, if one was given.
    pub fn ping_count(&self) -> (ping_count: Option<usize>)
        ensures
            ping_count == self@.ping_count,
    {
        self.ping_count
    }

    /// The seconds between probes, if they were given.
    pub fn interval_seconds(&self) -> (interval: &Option<String>)
        ensures
            text_of(*interval) == self@.interval_seconds,
    {
        &self.interval_seconds
    }

    /// The seconds to wait for an answer, if they were given.
    pub fn timeout_seconds(&self) -> (timeout: &Option<String>)
        ensures
            text_of(*timeout) == self@.timeout_seconds,
    {
        &self.timeout_seconds
    }

    /// Whether the names of the hops are left unresolved.
    pub fn suppress_reverse_dns(&self) -> (suppress: bool)
        ensures
            suppress == self@.suppress_reverse_dns,
    {
        self.suppress_reverse_dns
    }

    /// The largest number of hops, if one was given.
    pub fn max_hops(&self) -> (max_hops: Option<u8>)
        ensures
            max_hops == self@.max_hops,
    {
        self.max_hops
    }

    #[verifier::type_invariant]
    spec fn port_fits_protocol(&self) -> bool {
        &&& self.protocol != Protocol::Icmp ==> self.port is Some
        &&& self.port matches Some(port) ==> PORT_MIN <= port <= PORT_MAX
    }
}

/// Every set that the checks let through obeys the rule that ties the port
/// to the protocol.
pub proof fn verified_sets_are_valid(raw: RawOptions)
    requires
        verified(raw) is Ok,
    ensures
        verified(raw)->Ok_0.wf(),
{
}

/// With `-T` and `-U` together the checks fail on that pair, whatever the
/// port and the other options are.
pub proof fn both_protocols_are_refused(raw: RawOptions)
    requires
        raw.tcp && raw.udp,
    ensures
        verified(raw) == Err::<OptionSetView, ErrorView>(
            ErrorView::InvalidOption("-T cannot be used with -U"@),
        ),
{
}

/// With exactly one of `-T` and `-U` and without a port, the checks fail
/// with `PortRequired`, which names the chosen protocol and its flag.
pub proof fn port_is_required_for_tcp_and_udp(raw: RawOptions)
    requires
        raw.tcp != raw.udp,
        raw.port is None,
    ensures
        raw.tcp ==> verified(raw) == Err::<OptionSetView, ErrorView>(
            ErrorView::PortRequired("TCP"@, 'T'),
        ),
        raw.udp ==> verified(raw) == Err::<OptionSetView, ErrorView>(
            ErrorView::PortRequired("UDP"@, 'U'),
        ),
{
}

/// A port outside the range makes the checks fail with `InvalidOption`,
/// whatever the other options are.
pub proof fn port_outside_range_is_refused(raw: RawOptions)
    requires
        raw.port is Some,
        !in_port_range(raw.port->0),
    ensures
        verified(raw) is Err,
        verified(raw)->Err_0 is InvalidOption,
        !(raw.tcp && raw.udp) ==> verified(raw)->Err_0 == ErrorView::InvalidOption(
            port_range_text(raw.port->0),
        ),
{
}

/// A port inside the range passes the checks and is kept, unless `-T` and
/// `-U` contradict each other.
pub proof fn port_inside_range_is_accepted(raw: RawOptions)
    requires
        raw.port is Some,
        in_port_range(raw.port->0),
        !(raw.tcp && raw.udp),
    ensures
        verified(raw) is Ok,
        verified(raw)->Ok_0.port == Some(raw.port->0 as u16),
        verified(raw)->Ok_0.port->0 == raw.port->0,
{
}

} // verus!
