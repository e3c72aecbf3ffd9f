use clap::{Arg, ArgAction, Command};
use windows_mtr::error::MtrError;
use windows_mtr::invocation::translate;
use windows_mtr::options::{verify_options, Protocol, RawOptions};

fn switch(name: &'static str, short: char) -> Arg {
    Arg::new(name).short(short).action(ArgAction::SetTrue)
}

fn value(name: &'static str, short: char) -> Arg {
    Arg::new(name).short(short).action(ArgAction::Set)
}

fn command() -> Command {
    Command::new("mtr")
        .arg(Arg::new("host").required(true))
        .arg(switch("tcp", 'T').conflicts_with("udp"))
        .arg(switch("udp", 'U').conflicts_with("tcp"))
        .arg(value("port", 'P'))
        .arg(switch("report", 'r'))
        .arg(value("count", 'c'))
        .arg(value("interval", 'i'))
        .arg(value("timeout", 'w'))
        .arg(switch("no_dns", 'n'))
        .arg(value("max_hops", 'm'))
}

fn try_parse_args(args: Vec<&str>) -> Result<RawOptions, clap::Error> {
    let matches = command().try_get_matches_from(args)?;
    let text = |name: &str| matches.get_one::<String>(name).cloned();
    Ok(RawOptions {
        host: text("host").unwrap(),
        tcp: matches.get_flag("tcp"),
        udp: matches.get_flag("udp"),
        port: text("port").map(|port| port.parse().unwrap()),
        report: matches.get_flag("report"),
        count: text("count").map(|count| count.parse().unwrap()),
        interval: text("interval"),
        timeout: text("timeout"),
        no_dns: matches.get_flag("no_dns"),
        max_hops: text("max_hops").map(|hops| hops.parse().unwrap()),
    })
}

fn parse_args(args: Vec<&str>) -> RawOptions {
    try_parse_args(args).unwrap()
}

#[test]
fn test_icmp_config() {
    let args = parse_args(vec!["mtr", "8.8.8.8"]);
    assert_eq!(args.host, "8.8.8.8");
    assert!(!args.tcp);
    assert!(!args.udp);
}

#[test]
fn test_tcp_config() {
    let args = parse_args(vec!["mtr", "8.8.8.8", "-T", "-P", "443"]);
    assert_eq!(args.host, "8.8.8.8");
    assert!(args.tcp);
    assert!(!args.udp);
    assert_eq!(args.port, Some(443));
}

#[test]
fn test_udp_config() {
    let args = parse_args(vec!["mtr", "8.8.8.8", "-U", "-P", "53"]);
    assert_eq!(args.host, "8.8.8.8");
    assert!(!args.tcp);
    assert!(args.udp);
    assert_eq!(args.port, Some(53));
}

#[test]
fn test_report_mode() {
    let args = parse_args(vec!["mtr", "8.8.8.8", "-r", "-c", "10"]);
    assert_eq!(args.host, "8.8.8.8");
    assert!(args.report);
    assert_eq!(args.count, Some(10));
}

#[test]
fn both_protocol_flags_are_refused_by_the_command_line() {
    assert!(try_parse_args(vec!["mtr", "8.8.8.8", "-T", "-U"]).is_err());
    assert!(try_parse_args(vec!["mtr", "-U", "-T", "-P", "443", "8.8.8.8"]).is_err());
}

#[test]
fn tcp_command_line_becomes_engine_arguments() {
    let args = parse_args(vec!["mtr", "8.8.8.8", "-T", "-P", "443"]);
    let options = verify_options(args).unwrap();
    assert_eq!(options.protocol(), Protocol::Tcp);
    assert_eq!(options.port(), Some(443));
    assert_eq!(translate(&options), vec!["--protocol", "tcp:443", "8.8.8.8"]);
}

#[test]
fn udp_command_line_without_port_is_refused() {
    let args = parse_args(vec!["mtr", "8.8.8.8", "-U"]);
    assert_eq!(
        verify_options(args),
        Err(MtrError::PortRequired("UDP".to_string(), 'U'))
    );
}

#[test]
fn every_flag_of_the_command_line() {
    let args = parse_args(vec![
        "mtr", "-U", "-P", "53", "-r", "-c", "3", "-i", "0.5", "-w", "2", "-n", "-m", "30",
        "1.1.1.1",
    ]);
    let options = verify_options(args).unwrap();
    assert_eq!(
        translate(&options),
        vec![
            "--protocol",
            "udp:53",
            "1.1.1.1",
            "--report",
            "--max-rounds",
            "3",
            "--interval",
            "0.5",
            "--grace-duration",
            "2",
            "--no-dns",
            "--max-ttl",
            "30",
        ]
    );
}
