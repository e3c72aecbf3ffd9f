//! A whole run of the front end, from the command line to the exit code.
//!
//! The run is a sequence of stages: the options are checked, the target is
//! checked, the engine is searched for, the engine is run, and its outcome is
//! judged. A stage that fails ends the run. The session hands out one task
//! at a time; the caller carries it out and reports what happened.

use crate::error::{exit_code_of, ErrorView, MtrError};
use crate::invocation::{arguments, translate};
use crate::locator::{
    next, pending, search, steps_left, EngineLocation, Locator, Outcome, Platform, Reply, Request,
    Stage, Step,
};
use crate::options::{verified, verify_options, OptionSet, OptionSetView, RawOptions};
use crate::outcome::{
    classified, classify, InvocationResult, Report, ReportView, Verdict, VerdictView,
};
use crate::target::validate_target;
use vstd::prelude::*;

verus! {

/// What the session asks the caller to do.
#[derive(Debug, PartialEq, Eq)]
pub enum Task {
    /// Resolve this host name, with any port.
    ResolveHost(String),
    /// Read this text as a literal address.
    ParseAddress(String),
    /// Carry out this step of the search for the engine.
    Search(Request),
    /// Run the engine at this location with these arguments, and collect
    /// what it writes to its standard error.
    Run(EngineLocation, Vec<String>),
}

/// What the caller reports after a task. A report that does not answer the
/// task at hand counts as the failure of that task.
#[derive(Debug, PartialEq, Eq)]
pub enum Event {
    /// The name resolved, or the text is a literal address.
    Accepted,
    /// The name did not resolve, or the text is no literal address.
    Refused,
    /// The report on a step of the search.
    Searched(Reply),
    /// The engine ran and ended.
    Ran(InvocationResult),
    /// The engine could not be started; holds the system's words.
    NotStarted(String),
}

/// The stage that a run is in.
#[derive(Debug, PartialEq, Eq)]
pub enum Phase {
    /// The resolver is looking at the target.
    Resolving,
    /// The address parser is looking at the target.
    Parsing,
    /// The engine is being searched for.
    Locating(Locator),
    /// The engine is running.
    Running,
}

/// A run in progress.
#[derive(Debug, PartialEq, Eq)]
pub struct Session {
    platform: Platform,
    options: OptionSet,
    phase: Phase,
}

/// What a run has come to.
#[derive(Debug, PartialEq, Eq)]
pub enum Progress {
    /// The run goes on once the task is carried out.
    Continue(Session, Task),
    /// The run is over.
    Exit(Verdict),
}

/// A task with its texts as sequences of characters.
pub enum TaskView {
    ResolveHost(Seq<char>),
    ParseAddress(Seq<char>),
    Search(Request),
    Run(EngineLocation, Seq<Seq<char>>),
}

/// A stage of a run, as the rules of the run see it.
pub enum PhaseView {
    Resolving,
    Parsing,
    Locating(Stage),
    Running,
}

/// A run in progress, as the rules of the run see it.
pub struct SessionView {
    pub platform: Platform,
    pub options: OptionSetView,
    pub phase: PhaseView,
}

/// What a run has come to, as the rules of the run see it.
pub enum ProgressView {
    Continue(SessionView, TaskView),
    Exit(VerdictView),
}

impl View for Task {
    type V = TaskView;

    open spec fn view(&self) -> TaskView {
        match *self {
            Task::ResolveHost(host) => TaskView::ResolveHost(host@),
            Task::ParseAddress(host) => TaskView::ParseAddress(host@),
            Task::Search(request) => TaskView::Search(request),
            Task::Run(location, arguments) => TaskView::Run(location, arguments.deep_view()),
        }
    }
}

impl View for Phase {
    type V = PhaseView;

    open spec fn view(&self) -> PhaseView {
        match *self {
            Phase::Resolving => PhaseView::Resolving,
            Phase::Parsing => PhaseView::Parsing,
            Phase::Locating(locator) => PhaseView::Locating(locator@.stage),
            Phase::Running => PhaseView::Running,
        }
    }
}

impl View for Session {
    type V = SessionView;

    closed spec fn view(&self) -> SessionView {
        SessionView { platform: self.platform, options: self.options@, phase: self.phase@ }
    }
}

impl View for Progress {
    type V = ProgressView;

    open spec fn view(&self) -> ProgressView {
        match *self {
            Progress::Continue(session, task) => ProgressView::Continue(session@, task@),
            Progress::Exit(verdict) => ProgressView::Exit(verdict@),
        }
    }
}

/// The end of a run on an error of the front end: the error's exit code and
/// the error as the last words.
pub open spec fn failure(error: ErrorView) -> VerdictView {
    VerdictView { exit_code: exit_code_of(error), report: ReportView::Failure(error) }
}

/// How a report is read as the report on a step of the search.
pub open spec fn reading(event: Event) -> Reply {
    match event {
        Event::Searched(reply) => reply,
        _ => Reply::Missing,
    }
}

/// The run with its stage replaced.
pub open spec fn in_phase(session: SessionView, phase: PhaseView) -> SessionView {
    SessionView { platform: session.platform, options: session.options, phase }
}

/// The beginning of the search, once the target is accepted.
pub open spec fn search_begun(session: SessionView) -> ProgressView {
    ProgressView::Continue(
        in_phase(session, PhaseView::Locating(Stage::Probing(0))),
        TaskView::Search(pending(session.platform, Stage::Probing(0))),
    )
}

/// The beginning of a run: the options are checked, and with valid options
/// the resolver is asked about the target.
pub open spec fn started(raw: RawOptions, platform: Platform) -> ProgressView {
    match verified(raw) {
        Err(error) => ProgressView::Exit(failure(error)),
        Ok(options) => ProgressView::Continue(
            SessionView { platform, options, phase: PhaseView::Resolving },
            TaskView::ResolveHost(options.host),
        ),
    }
}

/// The end of a run after the engine was started. An engine that ran is
/// judged by what it left; one that could not be started is an error of the
/// front end; and where nothing is known of the run, it counts as a run
/// that left no exit code and no words.
pub open spec fn judged(event: Event) -> VerdictView {
    match event {
        Event::Ran(result) => classified(result.exit_code, result.captured_stderr@),
        Event::NotStarted(reason) => failure(ErrorView::TrippyExecutionFailed(reason@)),
        _ => classified(None, Seq::empty()),
    }
}

/// Where one report leads a run.
pub open spec fn advanced(session: SessionView, event: Event) -> ProgressView {
    match session.phase {
        PhaseView::Resolving => if event is Accepted {
            search_begun(session)
        } else {
            ProgressView::Continue(
                in_phase(session, PhaseView::Parsing),
                TaskView::ParseAddress(session.options.host),
            )
        },
        PhaseView::Parsing => if event is Accepted {
            search_begun(session)
        } else {
            ProgressView::Exit(failure(ErrorView::HostResolutionError(session.options.host)))
        },
        PhaseView::Locating(stage) => match next(session.platform, stage, reading(event)) {
            Outcome::Continue(following) => ProgressView::Continue(
                in_phase(session, PhaseView::Locating(following)),
                TaskView::Search(pending(session.platform, following)),
            ),
            Outcome::Located(location) => ProgressView::Continue(
                in_phase(session, PhaseView::Running),
                TaskView::Run(location, arguments(session.options)),
            ),
            Outcome::Failed(error) => ProgressView::Exit(failure(error)),
        },
        PhaseView::Running => ProgressView::Exit(judged(event)),
    }
}

fn fail(error: MtrError) -> (progress: Progress)
    ensures
        progress@ == ProgressView::Exit(failure(error@)),
{
    let exit_code = error.exit_code();
    Progress::Exit(Verdict { exit_code, report: Report::Failure(error) })
}

impl Session {
    #[verifier::type_invariant]
    spec fn search_fits_platform(&self) -> bool {
        self.phase matches Phase::Locating(locator) ==> locator@.platform == self.platform
    }

    /// The options that this run works with.
    pub fn options(&self) -> (options: &OptionSet)
        ensures
            options@ == self@.options,
    {
        &self.options
    }

    /// The platform that this run searches on.
    pub fn platform(&self) -> (platform: Platform)
        ensures
            platform == self@.platform,
    {
        self.platform
    }

    /// Begins a run with the options of the command line.
    pub fn start(raw: RawOptions, platform: Platform) -> (progress: Progress)
        ensures
            progress@ == started(raw, platform),
    {
        match verify_options(raw) {
            Err(error) => fail(error),
            Ok(options) => {
                let host = options.host().clone();
                Progress::Continue(
                    Session { platform, options, phase: Phase::Resolving },
                    Task::ResolveHost(host),
                )
            },
        }
    }

    fn begin_search(self) -> (progress: Progress)
        ensures
            progress@ == search_begun(self@),
    {
        let locator = Locator::new(self.platform);
        let request = locator.request();
        Progress::Continue(
            Session {
                platform: self.platform,
                options: self.options,
                phase: Phase::Locating(locator),
            },
            Task::Search(request),
        )
    }

    /// Takes the report on the task at hand and decides how the run goes on.
    pub fn step(self, event: Event) -> (progress: Progress)
        ensures
            progress@ == advanced(self@, event),
    {
        proof {
            use_type_invariant(&self);
        }
        let Session { platform, options, phase } = self;
        match phase {
            Phase::Resolving => match event {
                Event::Accepted => {
                    let session = Session { platform, options, phase: Phase::Resolving };
                    session.begin_search()
                },
                _ => {
                    let host = options.host().clone();
                    Progress::Continue(
                        Session { platform, options, phase: Phase::Parsing },
                        Task::ParseAddress(host),
                    )
                },
            },
            Phase::Parsing => {
                let is_literal = match event {
                    Event::Accepted => true,
                    _ => false,
                };
                match validate_target(options.host().as_str(), false, is_literal) {
                    Ok(_) => {
                        let session = Session { platform, options, phase: Phase::Parsing };
                        session.begin_search()
                    },
                    Err(error) => fail(error),
                }
            },
            Phase::Locating(locator) => {
                let reply = match event {
                    Event::Searched(reply) => reply,
                    _ => Reply::Missing,
                };
                match locator.step(reply) {
                    Step::Continue(locator) => {
                        let request = locator.request();
                        Progress::Continue(
                            Session { platform, options, phase: Phase::Locating(locator) },
                            Task::Search(request),
                        )
                    },
                    Step::Located(location) => {
                        let arguments = translate(&options);
                        Progress::Continue(
                            Session { platform, options, phase: Phase::Running },
                            Task::Run(location, arguments),
                        )
                    },
                    Step::Failed(error) => fail(error),
                }
            },
            Phase::Running => match event {
                Event::Ran(result) => Progress::Exit(classify(result)),
                Event::NotStarted(reason) => fail(MtrError::TrippyExecutionFailed(reason)),
                _ => Progress::Exit(
                    classify(InvocationResult { exit_code: None, captured_stderr: String::new() }),
                ),
            },
        }
    }
}

/// An upper bound on the tasks that a run still hands out.
pub open spec fn tasks_left(progress: ProgressView) -> nat {
    match progress {
        ProgressView::Exit(_) => 0,
        ProgressView::Continue(session, _) => match session.phase {
            PhaseView::Resolving => 3 + steps_left(session.platform, Stage::Probing(0)),
            PhaseView::Parsing => 2 + steps_left(session.platform, Stage::Probing(0)),
            PhaseView::Locating(stage) => 1 + steps_left(session.platform, stage),
            PhaseView::Running => 1,
        },
    }
}

/// The end of a run, in a world that answers each task in a fixed way.
pub open spec fn ending(progress: ProgressView, world: spec_fn(TaskView) -> Event) -> VerdictView
    decreases tasks_left(progress),
{
    match progress {
        ProgressView::Exit(verdict) => verdict,
        ProgressView::Continue(session, task) => ending(advanced(session, world(task)), world),
    }
}

/// Whether a run comes to start the engine, in a world that answers each
/// task in a fixed way.
pub open spec fn engine_runs(progress: ProgressView, world: spec_fn(TaskView) -> Event) -> bool
    decreases tasks_left(progress),
{
    match progress {
        ProgressView::Exit(_) => false,
        ProgressView::Continue(session, task) => task is Run || engine_runs(
            advanced(session, world(task)),
            world,
        ),
    }
}

/// The world of the search inside the world of a run.
pub open spec fn search_world(world: spec_fn(TaskView) -> Event) -> spec_fn(Request) -> Reply {
    |request: Request| reading(world(TaskView::Search(request)))
}

/// Whether the world of a run accepts a target: the resolver does, or else
/// the address parser does.
pub open spec fn target_accepted(host: Seq<char>, world: spec_fn(TaskView) -> Event) -> bool {
    world(TaskView::ResolveHost(host)) is Accepted || world(TaskView::ParseAddress(host))
        is Accepted
}

/// The end of a run whose options are valid and whose target is accepted:
/// it is decided by the search, and after a find by the engine's run with
/// the translated options. (A search never stays open, so the last arm
/// stands for nothing that happens.)
pub open spec fn ending_after_search(
    platform: Platform,
    options: OptionSetView,
    world: spec_fn(TaskView) -> Event,
) -> VerdictView {
    match search(platform, Stage::Probing(0), search_world(world)) {
        Outcome::Located(location) => judged(
            world(TaskView::Run(location, arguments(options))),
        ),
        Outcome::Failed(error) => failure(error),
        Outcome::Continue(_) => failure(ErrorView::TrippyNotFound),
    }
}

/// Invalid options end the run at once, with the error of the check and a
/// code other than 0; no task is handed out, so no engine is started.
pub proof fn invalid_options_end_the_run(
    raw: RawOptions,
    platform: Platform,
    world: spec_fn(TaskView) -> Event,
)
    requires
        verified(raw) is Err,
    ensures
        started(raw, platform) == ProgressView::Exit(failure(verified(raw)->Err_0)),
        ending(started(raw, platform), world) == failure(verified(raw)->Err_0),
        ending(started(raw, platform), world).exit_code != 0,
        !engine_runs(started(raw, platform), world),
{
}

/// A target that neither resolves nor is a literal address ends the run
/// with `HostResolutionError`, which names the target as it was given; the
/// engine is neither searched for nor started.
pub proof fn unknown_target_ends_the_run(
    raw: RawOptions,
    platform: Platform,
    world: spec_fn(TaskView) -> Event,
)
    requires
        verified(raw) is Ok,
        !target_accepted(raw.host@, world),
    ensures
        ending(started(raw, platform), world) == failure(
            ErrorView::HostResolutionError(raw.host@),
        ),
        ending(started(raw, platform), world).exit_code != 0,
        !engine_runs(started(raw, platform), world),
{
    reveal_with_fuel(ending, 3);
    reveal_with_fuel(engine_runs, 3);
}

proof fn search_decides(
    session: SessionView,
    stage: Stage,
    world: spec_fn(TaskView) -> Event,
)
    ensures
        ({
            let searching = ProgressView::Continue(
                in_phase(session, PhaseView::Locating(stage)),
                TaskView::Search(pending(session.platform, stage)),
            );
            match search(session.platform, stage, search_world(world)) {
                Outcome::Located(location) => ending(searching, world) == judged(
                    world(TaskView::Run(location, arguments(session.options))),
                ) && engine_runs(searching, world),
                Outcome::Failed(error) => ending(searching, world) == failure(error)
                    && !engine_runs(searching, world),
                Outcome::Continue(_) => false,
            }
        }),
    decreases steps_left(session.platform, stage),
{
    let platform = session.platform;
    let reply = search_world(world)(pending(platform, stage));
    assert(reply == reading(world(TaskView::Search(pending(platform, stage)))));
    reveal_with_fuel(ending, 3);
    reveal_with_fuel(engine_runs, 3);
    match next(platform, stage, reply) {
        Outcome::Continue(following) => {
            search_decides(session, following, world);
        },
        _ => {},
    }
}

/// With valid options and an accepted target, the run ends as the search
/// decides: after a find the engine is started with the translated options
/// and judged by what it leaves; after a search that fails the run ends with
/// the error of the search, and no engine is started.
pub proof fn run_follows_search(
    raw: RawOptions,
    platform: Platform,
    world: spec_fn(TaskView) -> Event,
)
    requires
        verified(raw) is Ok,
        target_accepted(raw.host@, world),
    ensures
        ending(started(raw, platform), world) == ending_after_search(
            platform,
            verified(raw)->Ok_0,
            world,
        ),
        engine_runs(started(raw, platform), world) == (search(
            platform,
            Stage::Probing(0),
            search_world(world),
        ) is Located),
{
    let options = verified(raw)->Ok_0;
    let resolving = SessionView { platform, options, phase: PhaseView::Resolving };
    search_decides(resolving, Stage::Probing(0), world);
    reveal_with_fuel(ending, 3);
    reveal_with_fuel(engine_runs, 3);
}

} // verus!
