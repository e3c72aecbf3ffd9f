use std::path::PathBuf;
use windows_mtr::error::MtrError;
use windows_mtr::locator::{
    Candidate, EngineLocation, EngineName, Platform, Provenance, Reply, Request,
};
use windows_mtr::options::{Protocol, RawOptions};
use windows_mtr::outcome::{InvocationResult, Report, Verdict};
use windows_mtr::session::{Event, Session, Progress, Task};

fn command_line(host: &str) -> RawOptions {
    RawOptions {
        host: host.to_string(),
        tcp: false,
        udp: false,
        port: None,
        report: false,
        count: None,
        interval: None,
        timeout: None,
        no_dns: false,
        max_hops: None,
    }
}

/// The surroundings of a run: whether the target resolves, whether it is a
/// literal address, where the engine lies, and what a run of it leaves.
struct Surroundings {
    resolves: bool,
    is_literal: bool,
    engine: Option<Provenance>,
    run: Event,
}

fn perform(surroundings: &mut Surroundings, task: &Task) -> Event {
    match task {
        Task::ResolveHost(_) => {
            if surroundings.resolves {
                Event::Accepted
            } else {
                Event::Refused
            }
        }
        Task::ParseAddress(_) => {
            if surroundings.is_literal {
                Event::Accepted
            } else {
                Event::Refused
            }
        }
        Task::Search(Request::Probe(candidate)) => {
            if Some(candidate.provenance) == surroundings.engine {
                Event::Searched(Reply::Found(PathBuf::from("/opt/engine/trip")))
            } else {
                Event::Searched(Reply::Missing)
            }
        }
        Task::Search(_) => Event::Searched(Reply::Failed),
        Task::Run(_, _) => std::mem::replace(&mut surroundings.run, Event::Refused),
    }
}

/// Drives a run to its end and returns the verdict with the tasks that were
/// handed out on the way.
fn drive(
    raw: RawOptions,
    platform: Platform,
    mut surroundings: Surroundings,
) -> (Verdict, Vec<Task>) {
    let mut tasks = Vec::new();
    let mut progress = Session::start(raw, platform);
    loop {
        match progress {
            Progress::Exit(verdict) => return (verdict, tasks),
            Progress::Continue(session, task) => {
                assert!(tasks.len() < 16, "the run does not end");
                let event = perform(&mut surroundings, &task);
                tasks.push(task);
                progress = session.step(event);
            }
        }
    }
}

fn healthy() -> Surroundings {
    Surroundings {
        resolves: true,
        is_literal: false,
        engine: Some(Provenance::SearchPath),
        run: Event::Ran(InvocationResult { exit_code: Some(0), captured_stderr: String::new() }),
    }
}

fn engine_was_started(tasks: &[Task]) -> bool {
    tasks.iter().any(|task| matches!(task, Task::Run(_, _)))
}

#[test]
fn tcp_run_from_command_line_to_engine() {
    let raw = RawOptions { tcp: true, port: Some(443), ..command_line("8.8.8.8") };
    let progress = Session::start(raw, Platform::Unix);
    let session = match progress {
        Progress::Continue(session, task) => {
            assert_eq!(task, Task::ResolveHost("8.8.8.8".to_string()));
            session
        }
        Progress::Exit(verdict) => panic!("the run ended early: {:?}", verdict),
    };
    assert_eq!(session.options().protocol(), Protocol::Tcp);
    assert_eq!(session.options().port(), Some(443));
    assert_eq!(session.platform(), Platform::Unix);
    let session = match session.step(Event::Accepted) {
        Progress::Continue(session, task) => {
            assert_eq!(
                task,
                Task::Search(Request::Probe(Candidate {
                    provenance: Provenance::SearchPath,
                    name: EngineName::Canonical,
                }))
            );
            session
        }
        Progress::Exit(verdict) => panic!("the run ended early: {:?}", verdict),
    };
    let found = Event::Searched(Reply::Found(PathBuf::from("/usr/bin/trippy")));
    let session = match session.step(found) {
        Progress::Continue(session, task) => {
            assert_eq!(
                task,
                Task::Run(
                    EngineLocation {
                        path: PathBuf::from("/usr/bin/trippy"),
                        provenance: Provenance::SearchPath,
                    },
                    vec!["--protocol".to_string(), "tcp:443".to_string(), "8.8.8.8".to_string()],
                )
            );
            session
        }
        Progress::Exit(verdict) => panic!("the run ended early: {:?}", verdict),
    };
    let ran = Event::Ran(InvocationResult { exit_code: Some(0), captured_stderr: String::new() });
    assert_eq!(
        session.step(ran),
        Progress::Exit(Verdict { exit_code: 0, report: Report::Silent })
    );
}

#[test]
fn udp_without_port_never_reaches_the_engine() {
    let raw = RawOptions { udp: true, ..command_line("8.8.8.8") };
    let (verdict, tasks) = drive(raw, Platform::Windows, healthy());
    assert_eq!(
        verdict,
        Verdict {
            exit_code: 1,
            report: Report::Failure(MtrError::PortRequired("UDP".to_string(), 'U')),
        }
    );
    assert_ne!(verdict.exit_code, 0);
    assert!(tasks.is_empty());
}

#[test]
fn unknown_host_never_reaches_the_engine() {
    let surroundings = Surroundings { resolves: false, is_literal: false, ..healthy() };
    let (verdict, tasks) =
        drive(command_line("not-a-real-host.invalid"), Platform::Unix, surroundings);
    assert_eq!(
        verdict,
        Verdict {
            exit_code: 1,
            report: Report::Failure(MtrError::HostResolutionError(
                "not-a-real-host.invalid".to_string()
            )),
        }
    );
    assert_eq!(
        tasks,
        vec![
            Task::ResolveHost("not-a-real-host.invalid".to_string()),
            Task::ParseAddress("not-a-real-host.invalid".to_string()),
        ]
    );
    assert!(!engine_was_started(&tasks));
}

#[test]
fn literal_address_is_enough() {
    let surroundings = Surroundings { resolves: false, is_literal: true, ..healthy() };
    let (verdict, tasks) = drive(command_line("192.0.2.1"), Platform::Unix, surroundings);
    assert_eq!(verdict, Verdict { exit_code: 0, report: Report::Silent });
    assert_eq!(tasks.len(), 4);
    assert_eq!(tasks[1], Task::ParseAddress("192.0.2.1".to_string()));
    assert!(engine_was_started(&tasks));
}

#[test]
fn resolved_name_is_not_parsed() {
    let (verdict, tasks) = drive(command_line("example.com"), Platform::Unix, healthy());
    assert_eq!(verdict, Verdict { exit_code: 0, report: Report::Silent });
    assert_eq!(tasks.len(), 3);
    assert!(!tasks.iter().any(|task| matches!(task, Task::ParseAddress(_))));
}

#[test]
fn missing_engine_exits_with_two() {
    let surroundings = Surroundings { engine: None, ..healthy() };
    let (verdict, tasks) = drive(command_line("example.com"), Platform::Windows, surroundings);
    assert_eq!(
        verdict,
        Verdict { exit_code: 2, report: Report::Failure(MtrError::TrippyNotFound) }
    );
    assert_eq!(tasks.len(), 8);
    assert_eq!(tasks[7], Task::Search(Request::CheckManager));
    assert!(!engine_was_started(&tasks));
}

#[test]
fn bundled_engine_is_run_with_all_options() {
    let raw = RawOptions {
        udp: true,
        port: Some(53),
        report: true,
        count: Some(5),
        no_dns: true,
        ..command_line("1.1.1.1")
    };
    let surroundings = Surroundings { engine: Some(Provenance::BesideExecutable), ..healthy() };
    let (verdict, tasks) = drive(raw, Platform::Windows, surroundings);
    assert_eq!(verdict, Verdict { exit_code: 0, report: Report::Silent });
    assert_eq!(
        tasks.last(),
        Some(&Task::Run(
            EngineLocation {
                path: PathBuf::from("/opt/engine/trip"),
                provenance: Provenance::BesideExecutable,
            },
            vec![
                "--protocol".to_string(),
                "udp:53".to_string(),
                "1.1.1.1".to_string(),
                "--report".to_string(),
                "--max-rounds".to_string(),
                "5".to_string(),
                "--no-dns".to_string(),
            ],
        ))
    );
}

#[test]
fn privilege_failure_keeps_the_exit_code() {
    let surroundings = Surroundings {
        run: Event::Ran(InvocationResult {
            exit_code: Some(13),
            captured_stderr: "Error: permission denied".to_string(),
        }),
        ..healthy()
    };
    let (verdict, _) = drive(command_line("example.com"), Platform::Unix, surroundings);
    assert_eq!(
        verdict,
        Verdict { exit_code: 13, report: Report::Failure(MtrError::InsufficientPrivileges) }
    );
}

#[test]
fn engine_failure_is_relayed() {
    let surroundings = Surroundings {
        run: Event::Ran(InvocationResult {
            exit_code: Some(4),
            captured_stderr: "no route to host".to_string(),
        }),
        ..healthy()
    };
    let (verdict, _) = drive(command_line("example.com"), Platform::Unix, surroundings);
    assert_eq!(
        verdict,
        Verdict { exit_code: 4, report: Report::Relay("no route to host".to_string()) }
    );
}

#[test]
fn engine_that_cannot_be_started() {
    let surroundings =
        Surroundings { run: Event::NotStarted("Exec format error".to_string()), ..healthy() };
    let (verdict, tasks) = drive(command_line("example.com"), Platform::Unix, surroundings);
    assert_eq!(
        verdict,
        Verdict {
            exit_code: 1,
            report: Report::Failure(MtrError::TrippyExecutionFailed(
                "Exec format error".to_string()
            )),
        }
    );
    assert!(engine_was_started(&tasks));
}

#[test]
fn run_without_report_counts_as_run_without_exit_code() {
    let surroundings = Surroundings { run: Event::Accepted, ..healthy() };
    let (verdict, _) = drive(command_line("example.com"), Platform::Unix, surroundings);
    assert_eq!(verdict, Verdict { exit_code: 2, report: Report::Silent });
}

#[test]
fn foreign_reports_count_as_failures() {
    let session = match Session::start(command_line("example.com"), Platform::Unix) {
        Progress::Continue(session, _) => session,
        Progress::Exit(verdict) => panic!("the run ended early: {:?}", verdict),
    };
    let session = match session.step(Event::Searched(Reply::Completed)) {
        Progress::Continue(session, task) => {
            assert_eq!(task, Task::ParseAddress("example.com".to_string()));
            session
        }
        Progress::Exit(verdict) => panic!("the run ended early: {:?}", verdict),
    };
    assert_eq!(
        session.step(Event::NotStarted("x".to_string())),
        Progress::Exit(Verdict {
            exit_code: 1,
            report: Report::Failure(MtrError::HostResolutionError("example.com".to_string())),
        })
    );
}

#[test]
fn foreign_report_during_the_search_is_a_miss() {
    let session = match Session::start(command_line("example.com"), Platform::Unix) {
        Progress::Continue(session, _) => session,
        Progress::Exit(verdict) => panic!("the run ended early: {:?}", verdict),
    };
    let session = match session.step(Event::Accepted) {
        Progress::Continue(session, _) => session,
        Progress::Exit(verdict) => panic!("the run ended early: {:?}", verdict),
    };
    match session.step(Event::Accepted) {
        Progress::Continue(_, task) => assert_eq!(
            task,
            Task::Search(Request::Probe(Candidate {
                provenance: Provenance::BesideExecutable,
                name: EngineName::Canonical,
            }))
        ),
        Progress::Exit(verdict) => panic!("the run ended early: {:?}", verdict),
    }
}
