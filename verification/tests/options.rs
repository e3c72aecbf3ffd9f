use windows_mtr::error::MtrError;
use windows_mtr::options::{check_port, select_protocol, verify_options, Protocol, RawOptions};

fn raw(host: &str) -> RawOptions {
    RawOptions {
        host: host.to_string(),
        tcp: false,
        udp: false,
        port: None,
        report: false,
        count: None,
        interval: None,
        timeout: None,
        no_dns: false,
        max_hops: None,
    }
}

#[test]
fn plain_target_means_icmp() {
    let options = verify_options(raw("8.8.8.8")).unwrap();
    assert_eq!(options.host(), "8.8.8.8");
    assert_eq!(options.protocol(), Protocol::Icmp);
    assert_eq!(options.port(), None);
    assert!(!options.report_mode());
    assert!(!options.suppress_reverse_dns());
    assert_eq!(options.ping_count(), None);
    assert_eq!(options.max_hops(), None);
    assert_eq!(options.interval_seconds(), &None);
    assert_eq!(options.timeout_seconds(), &None);
}

#[test]
fn tcp_with_port_is_valid() {
    let options = verify_options(RawOptions { tcp: true, port: Some(443), ..raw("8.8.8.8") })
        .unwrap();
    assert_eq!(options.host(), "8.8.8.8");
    assert_eq!(options.protocol(), Protocol::Tcp);
    assert_eq!(options.port(), Some(443));
}

#[test]
fn udp_with_port_is_valid() {
    let options = verify_options(RawOptions { udp: true, port: Some(53), ..raw("8.8.8.8") })
        .unwrap();
    assert_eq!(options.protocol(), Protocol::Udp);
    assert_eq!(options.port(), Some(53));
}

#[test]
fn report_with_count_is_kept() {
    let options = verify_options(RawOptions { report: true, count: Some(10), ..raw("8.8.8.8") })
        .unwrap();
    assert!(options.report_mode());
    assert_eq!(options.ping_count(), Some(10));
}

#[test]
fn remaining_options_pass_as_given() {
    let options = verify_options(RawOptions {
        count: Some(0),
        interval: Some("0.5".to_string()),
        timeout: Some("-3".to_string()),
        no_dns: true,
        max_hops: Some(0),
        ..raw("example.com")
    })
    .unwrap();
    assert_eq!(options.ping_count(), Some(0));
    assert_eq!(options.interval_seconds(), &Some("0.5".to_string()));
    assert_eq!(options.timeout_seconds(), &Some("-3".to_string()));
    assert!(options.suppress_reverse_dns());
    assert_eq!(options.max_hops(), Some(0));
}

#[test]
fn udp_without_port_names_udp() {
    let error = verify_options(RawOptions { udp: true, ..raw("8.8.8.8") }).unwrap_err();
    assert_eq!(error, MtrError::PortRequired("UDP".to_string(), 'U'));
    assert_eq!(
        error.message(),
        "Port option required for UDP protocol\n\nExample: windows-mtr.exe -U -P 443 8.8.8.8"
    );
}

#[test]
fn tcp_without_port_names_tcp() {
    let error = verify_options(RawOptions { tcp: true, report: true, ..raw("8.8.8.8") })
        .unwrap_err();
    assert_eq!(error, MtrError::PortRequired("TCP".to_string(), 'T'));
}

#[test]
fn port_below_range_is_refused() {
    for flags in [(false, false), (true, false), (false, true)] {
        let error = verify_options(RawOptions {
            tcp: flags.0,
            udp: flags.1,
            port: Some(0),
            ..raw("8.8.8.8")
        })
        .unwrap_err();
        assert_eq!(
            error,
            MtrError::InvalidOption("Port number 0 is out of range (must be 1-65535)".to_string())
        );
    }
}

#[test]
fn port_above_range_is_refused() {
    let error = verify_options(RawOptions { tcp: true, port: Some(65536), ..raw("8.8.8.8") })
        .unwrap_err();
    assert_eq!(
        error,
        MtrError::InvalidOption("Port number 65536 is out of range (must be 1-65535)".to_string())
    );
    let error = verify_options(RawOptions { port: Some(u64::MAX), ..raw("8.8.8.8") })
        .unwrap_err();
    assert_eq!(
        error,
        MtrError::InvalidOption(
            "Port number 18446744073709551615 is out of range (must be 1-65535)".to_string()
        )
    );
}

#[test]
fn ports_at_the_edges_are_accepted() {
    let low = verify_options(RawOptions { udp: true, port: Some(1), ..raw("8.8.8.8") }).unwrap();
    assert_eq!(low.port(), Some(1));
    let high = verify_options(RawOptions { tcp: true, port: Some(65535), ..raw("8.8.8.8") })
        .unwrap();
    assert_eq!(high.port(), Some(65535));
}

#[test]
fn icmp_keeps_a_valid_port() {
    let options = verify_options(RawOptions { port: Some(80), ..raw("8.8.8.8") }).unwrap();
    assert_eq!(options.protocol(), Protocol::Icmp);
    assert_eq!(options.port(), Some(80));
}

#[test]
fn both_protocols_are_refused_before_anything_else() {
    let conflict = MtrError::InvalidOption("-T cannot be used with -U".to_string());
    for port in [None, Some(0), Some(443), Some(70000)] {
        let error = verify_options(RawOptions { tcp: true, udp: true, port, ..raw("8.8.8.8") })
            .unwrap_err();
        assert_eq!(error, conflict);
    }
    assert_eq!(select_protocol(true, true), Err(conflict));
}

#[test]
fn protocol_follows_the_flags() {
    assert_eq!(select_protocol(false, false), Ok(Protocol::Icmp));
    assert_eq!(select_protocol(true, false), Ok(Protocol::Tcp));
    assert_eq!(select_protocol(false, true), Ok(Protocol::Udp));
}

#[test]
fn protocol_names_and_flags() {
    assert_eq!(Protocol::Icmp.name(), "ICMP");
    assert_eq!(Protocol::Tcp.name(), "TCP");
    assert_eq!(Protocol::Udp.name(), "UDP");
    assert_eq!(Protocol::Icmp.flag(), None);
    assert_eq!(Protocol::Tcp.flag(), Some('T'));
    assert_eq!(Protocol::Udp.flag(), Some('U'));
}

#[test]
fn check_port_accepts_exactly_the_range() {
    assert_eq!(check_port(1), Ok(1));
    assert_eq!(check_port(443), Ok(443));
    assert_eq!(check_port(65535), Ok(65535));
    assert!(matches!(check_port(0), Err(MtrError::InvalidOption(_))));
    assert!(matches!(check_port(65536), Err(MtrError::InvalidOption(_))));
}
