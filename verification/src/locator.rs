//! The search for the engine's executable.
//!
//! The places to look are an ordered list of candidates. The locator asks
//! for one step at a time; the caller performs it and reports back, and the
//! locator decides what to ask next. A candidate is only looked at after
//! every candidate before it turned out to be missing. When the list is
//! through, the package manager is asked to install the engine, and the
//! search path is gone through once more.

use crate::error::{ErrorView, MtrError};
use std::path::PathBuf;
use vstd::prelude::*;

verus! {

/// `std::path::PathBuf`, an owned path. The library carries such paths from
/// the caller's reports to its results and never looks inside.
#[verifier::external_type_specification]
#[verifier::external_body]
pub struct ExPathBuf(std::path::PathBuf);

/// The kind of system that the front end runs on, as far as the search
/// depends on it.
#[derive(Debug, Clone, Copy, PartialEq, Eq, Structural)]
pub enum Platform {
    Windows,
    Unix,
}

/// The names under which the engine's executable goes.
#[derive(Debug, Clone, Copy, PartialEq, Eq, Structural)]
pub enum EngineName {
    /// `trippy`, the name of the package.
    Canonical,
    /// `trip`, the name that the package's own installation gives it.
    Alternate,
}

/// Where a location was found. The order of the variants is the order of
/// preference.
#[derive(Debug, Clone, Copy, PartialEq, Eq, Structural)]
pub enum Provenance {
    /// On the search path for executables.
    SearchPath,
    /// In the directory of the running executable.
    BesideExecutable,
    /// In the directory where an installer puts the bundle.
    InstallDir,
    /// On the search path, after the package manager installed it.
    Provisioned,
}

/// One place to look: a kind of place and a name to look for there.
#[derive(Debug, Clone, Copy, PartialEq, Eq, Structural)]
pub struct Candidate {
    pub provenance: Provenance,
    pub name: EngineName,
}

/// The path of a usable engine and the kind of place where it was found.
#[derive(Debug, PartialEq, Eq)]
pub struct EngineLocation {
    pub path: PathBuf,
    pub provenance: Provenance,
}

/// What the locator asks the caller to do.
#[derive(Debug, Clone, Copy, PartialEq, Eq, Structural)]
pub enum Request {
    /// Look for the engine in this place.
    Probe(Candidate),
    /// Find out whether the package manager can be run.
    CheckManager,
    /// Let the package manager install the engine.
    Install,
}

/// What the caller reports after a step.
#[derive(Debug, PartialEq, Eq)]
pub enum Reply {
    /// The engine lies at this path.
    Found(PathBuf),
    /// Nothing was found, or the place could not be looked at.
    Missing,
    /// The process cannot tell where its own executable lies; holds the
    /// system's words. Counts for a probe beside the executable only.
    Lost(String),
    /// The path of the running executable names no directory. Counts for a
    /// probe beside the executable only.
    Detached,
    /// The package manager answered, or the installation ended well.
    Completed,
    /// The package manager is absent, or the installation ended badly.
    Failed,
    /// The installation could not be started; holds the system's words.
    Unstarted(String),
}

/// How far a search has come: the step whose report it is waiting for.
#[derive(Debug, Clone, Copy, PartialEq, Eq, Structural)]
pub enum Stage {
    /// The candidate at this place of the list is being looked at.
    Probing(usize),
    CheckingManager,
    Installing,
    /// After an installation, the candidate at this place of the list for
    /// the second look at the search path is being looked at.
    Rechecking(usize),
}

/// Where one step leads.
pub enum Outcome {
    /// The search goes on with this stage.
    Continue(Stage),
    Located(EngineLocation),
    Failed(ErrorView),
}

/// The rank of a kind of place; a lower rank is preferred.
pub open spec fn rank(provenance: Provenance) -> nat {
    match provenance {
        Provenance::SearchPath => 0,
        Provenance::BesideExecutable => 1,
        Provenance::InstallDir => 2,
        Provenance::Provisioned => 3,
    }
}

/// The candidates of a platform, in the order in which they are looked at.
pub open spec fn plan(platform: Platform) -> Seq<Candidate> {
    match platform {
        Platform::Unix => seq![
            Candidate { provenance: Provenance::SearchPath, name: EngineName::Canonical },
            Candidate { provenance: Provenance::BesideExecutable, name: EngineName::Canonical },
        ],
        Platform::Windows => seq![
            Candidate { provenance: Provenance::SearchPath, name: EngineName::Canonical },
            Candidate { provenance: Provenance::SearchPath, name: EngineName::Alternate },
            Candidate { provenance: Provenance::BesideExecutable, name: EngineName::Canonical },
            Candidate { provenance: Provenance::BesideExecutable, name: EngineName::Alternate },
            Candidate { provenance: Provenance::InstallDir, name: EngineName::Canonical },
            Candidate { provenance: Provenance::InstallDir, name: EngineName::Alternate },
        ],
    }
}

/// The number of candidates on the search path; they stand at the head of
/// the list.
pub open spec fn search_path_count(platform: Platform) -> nat {
    match platform {
        Platform::Unix => 1,
        Platform::Windows => 2,
    }
}

/// The candidates that are looked at after an installation: the search path
/// once more, under the same names and in the same order as at the head of
/// the list, each marked as provisioned.
pub open spec fn recheck_plan(platform: Platform) -> Seq<Candidate> {
    Seq::new(
        search_path_count(platform),
        |i: int|
            Candidate { provenance: Provenance::Provisioned, name: plan(platform)[i].name },
    )
}

/// The step that a stage waits for.
pub open spec fn pending(platform: Platform, stage: Stage) -> Request {
    match stage {
        Stage::Probing(index) => Request::Probe(plan(platform)[index as int]),
        Stage::CheckingManager => Request::CheckManager,
        Stage::Installing => Request::Install,
        Stage::Rechecking(index) => Request::Probe(recheck_plan(platform)[index as int]),
    }
}

/// Where the search goes when the step of a stage brought nothing.
pub open spec fn after_miss(platform: Platform, stage: Stage) -> Outcome {
    match stage {
        Stage::Probing(index) => if index + 1 < plan(platform).len() {
            Outcome::Continue(Stage::Probing((index + 1) as usize))
        } else {
            Outcome::Continue(Stage::CheckingManager)
        },
        Stage::CheckingManager => Outcome::Failed(ErrorView::TrippyNotFound),
        Stage::Installing => Outcome::Failed(ErrorView::TrippyNotFound),
        Stage::Rechecking(index) => if index + 1 < recheck_plan(platform).len() {
            Outcome::Continue(Stage::Rechecking((index + 1) as usize))
        } else {
            Outcome::Failed(ErrorView::TrippyNotFound)
        },
    }
}

/// Whether a report says that the process cannot tell where its own
/// executable lies. Only a probe beside the executable asks about that, so
/// only there does such a report count.
pub open spec fn is_broken(candidate: Candidate, reply: Reply) -> bool {
    candidate.provenance == Provenance::BesideExecutable && (reply is Lost || reply is Detached)
}

/// Whether a report on a probe of a candidate is a miss: it is neither a
/// find nor the news of a broken process.
pub open spec fn is_miss(candidate: Candidate, reply: Reply) -> bool {
    !(reply is Found) && !is_broken(candidate, reply)
}

/// The error of a search that ends because the process cannot tell where
/// its own executable lies.
pub open spec fn breakage(reply: Reply) -> ErrorView {
    match reply {
        Reply::Lost(reason) => ErrorView::IoError(reason@),
        _ => ErrorView::Other("Failed to get executable directory"@),
    }
}

/// Where a report on a probe leads. A find ends the search. Beside the
/// executable, a process that cannot tell where it lies is broken, and the
/// search ends with that. Every other report counts as a miss.
pub open spec fn after_probe(platform: Platform, stage: Stage, reply: Reply) -> Outcome {
    let candidate = pending(platform, stage)->Probe_0;
    match reply {
        Reply::Found(path) => Outcome::Located(
            EngineLocation { path, provenance: candidate.provenance },
        ),
        _ => if is_broken(candidate, reply) {
            Outcome::Failed(breakage(reply))
        } else {
            after_miss(platform, stage)
        },
    }
}

/// Where one report leads from a stage.
pub open spec fn next(platform: Platform, stage: Stage, reply: Reply) -> Outcome {
    match stage {
        Stage::Probing(_) => after_probe(platform, stage, reply),
        Stage::Rechecking(_) => after_probe(platform, stage, reply),
        Stage::CheckingManager => match reply {
            Reply::Completed => Outcome::Continue(Stage::Installing),
            _ => after_miss(platform, stage),
        },
        Stage::Installing => match reply {
            Reply::Completed => Outcome::Continue(Stage::Rechecking(0)),
            Reply::Unstarted(reason) => Outcome::Failed(
                ErrorView::TrippyInstallFailed(reason@),
            ),
            _ => after_miss(platform, stage),
        },
    }
}

/// Whether a stage is one that a search can be in.
pub open spec fn reachable(platform: Platform, stage: Stage) -> bool {
    match stage {
        Stage::Probing(index) => index < plan(platform).len(),
        Stage::Rechecking(index) => index < recheck_plan(platform).len(),
        _ => true,
    }
}

/// The name under which the engine is looked for on the search path.
pub open spec fn command_text(name: EngineName) -> Seq<char> {
    match name {
        EngineName::Canonical => "trippy"@,
        EngineName::Alternate => "trip"@,
    }
}

/// What a platform appends to the name of an executable file.
pub open spec fn suffix_text(platform: Platform) -> Seq<char> {
    match platform {
        Platform::Windows => ".exe"@,
        Platform::Unix => Seq::empty(),
    }
}

/// The name of the engine's file in a directory.
pub open spec fn file_text(platform: Platform, name: EngineName) -> Seq<char> {
    command_text(name) + suffix_text(platform)
}

/// The package manager's arguments for a step; a probe is no step of the
/// package manager.
pub open spec fn manager_arguments_text(request: Request) -> Option<Seq<Seq<char>>> {
    match request {
        Request::Probe(_) => None,
        Request::CheckManager => Some(seq!["--version"@]),
        Request::Install => Some(seq!["install"@, "trippy"@]),
    }
}

/// The program that installs the engine.
pub const MANAGER_PROGRAM: &'static str = "cargo";

/// The folder of the bundle below the directory for installed programs.
pub const INSTALL_FOLDER: &'static str = "Windows-MTR";

/// The variable of the environment that names the directory for installed
/// programs.
pub const PROGRAM_FILES_VARIABLE: &'static str = "ProgramFiles";

/// The directory for installed programs where the variable is not set.
pub const PROGRAM_FILES_DEFAULT: &'static str = "C:\\Program Files";

impl EngineName {
    /// The name under which the engine is looked for on the search path.
    pub fn command(self) -> (command: &'static str)
        ensures
            command@ == command_text(self),
    {
        match self {
            EngineName::Canonical => "trippy",
            EngineName::Alternate => "trip",
        }
    }
}

impl Platform {
    /// What this platform appends to the name of an executable file.
    pub fn executable_suffix(self) -> (suffix: &'static str)
        ensures
            suffix@ == suffix_text(self),
    {
        proof {
            reveal_strlit("");
        }
        match self {
            Platform::Windows => ".exe",
            Platform::Unix => {
                assert(""@ =~= Seq::<char>::empty());
                ""
            },
        }
    }

    /// The name of the engine's file in a directory.
    pub fn file_name(self, name: EngineName) -> (file: String)
        ensures
            file@ == file_text(self, name),
    {
        let mut file = String::from_str(name.command());
        file.append(self.executable_suffix());
        file
    }

    /// The candidates of this platform, in the order in which they are
    /// looked at.
    pub fn search_plan(self) -> (candidates: Vec<Candidate>)
        ensures
            candidates@ == plan(self),
    {
        let mut candidates: Vec<Candidate> = Vec::new();
        candidates.push(
            Candidate { provenance: Provenance::SearchPath, name: EngineName::Canonical },
        );
        match self {
            Platform::Unix => {
                candidates.push(
                    Candidate {
                        provenance: Provenance::BesideExecutable,
                        name: EngineName::Canonical,
                    },
                );
            },
            Platform::Windows => {
                candidates.push(
                    Candidate { provenance: Provenance::SearchPath, name: EngineName::Alternate },
                );
                candidates.push(
                    Candidate {
                        provenance: Provenance::BesideExecutable,
                        name: EngineName::Canonical,
                    },
                );
                candidates.push(
                    Candidate {
                        provenance: Provenance::BesideExecutable,
                        name: EngineName::Alternate,
                    },
                );
                candidates.push(
                    Candidate { provenance: Provenance::InstallDir, name: EngineName::Canonical },
                );
                candidates.push(
                    Candidate { provenance: Provenance::InstallDir, name: EngineName::Alternate },
                );
            },
        }
        assert(candidates@ =~= plan(self));
        candidates
    }

    /// The candidates that are looked at after an installation, in their
    /// order.
    pub fn recheck_plan(self) -> (candidates: Vec<Candidate>)
        ensures
            candidates@ == recheck_plan(self),
    {
        let mut candidates: Vec<Candidate> = Vec::new();
        candidates.push(
            Candidate { provenance: Provenance::Provisioned, name: EngineName::Canonical },
        );
        match self {
            Platform::Unix => {},
            Platform::Windows => {
                candidates.push(
                    Candidate {
                        provenance: Provenance::Provisioned,
                        name: EngineName::Alternate,
                    },
                );
            },
        }
        assert(candidates@ =~= recheck_plan(self));
        candidates
    }
}

impl Request {
    /// The package manager's arguments for this step, if it is a step of
    /// the package manager.
    pub fn manager_arguments(self) -> (arguments: Option<Vec<String>>)
        ensures
            arguments.deep_view() == manager_arguments_text(self),
    {
        let mut arguments: Vec<String> = Vec::new();
        match self {
            Request::Probe(_) => {
                return None;
            },
            Request::CheckManager => {
                arguments.push(String::from_str("--version"));
            },
            Request::Install => {
                arguments.push(String::from_str("install"));
                arguments.push(String::from_str("trippy"));
            },
        }
        assert(Some(arguments).deep_view() =~= manager_arguments_text(self));
        Some(arguments)
    }
}

/// `which::which`: looks through the directories of the search path for an
/// executable file of this name. What it finds depends on the environment
/// and on the disk, so nothing is claimed of the result.
#[verifier::external_body]
fn which_executable(name: &str) -> (found: Option<PathBuf>) {
    which::which(name).ok()
}

/// Looks for the engine on the search path and reports what a probe of the
/// search path has to report: a find or a miss.
pub fn look_on_search_path(name: EngineName) -> (reply: Reply)
    ensures
        reply is Found || reply is Missing,
{
    probe_reply(which_executable(name.command()))
}

/// The report on a probe that came back with a path or with nothing.
pub open spec fn reply_of(found: Option<PathBuf>) -> Reply {
    match found {
        Some(path) => Reply::Found(path),
        None => Reply::Missing,
    }
}

/// Turns what a lookup came back with into the report on the probe: a path
/// is a find at that path, and nothing is a miss.
pub fn probe_reply(found: Option<PathBuf>) -> (reply: Reply)
    ensures
        reply == reply_of(found),
{
    match found {
        Some(path) => Reply::Found(path),
        None => Reply::Missing,
    }
}

/// A search in progress.
#[derive(Debug, PartialEq, Eq)]
pub struct Locator {
    platform: Platform,
    stage: Stage,
}

/// A search in progress, as the rules of the search see it.
pub struct LocatorView {
    pub platform: Platform,
    pub stage: Stage,
}

impl View for Locator {
    type V = LocatorView;

    closed spec fn view(&self) -> LocatorView {
        LocatorView { platform: self.platform, stage: self.stage }
    }
}

/// What a search has come to after a report.
#[derive(Debug, PartialEq, Eq)]
pub enum Step {
    /// The search goes on; the locator holds the next request.
    Continue(Locator),
    /// The engine is found.
    Located(EngineLocation),
    /// The search is over and brought no engine.
    Failed(MtrError),
}

impl Locator {
    #[verifier::type_invariant]
    spec fn stage_is_reachable(&self) -> bool {
        reachable(self.platform, self.stage)
    }

    /// Begins a search with the first candidate of the platform.
    pub fn new(platform: Platform) -> (locator: Locator)
        ensures
            locator@.platform == platform,
            locator@.stage == Stage::Probing(0),
    {
        Locator { platform, stage: Stage::Probing(0) }
    }

    /// The platform whose candidates this search goes through.
    pub fn platform(&self) -> (platform: Platform)
        ensures
            platform == self@.platform,
    {
        self.platform
    }

    /// The stage that this search is in.
    pub fn stage(&self) -> (stage: Stage)
        ensures
            stage == self@.stage,
            reachable(self@.platform, stage),
    {
        proof {
            use_type_invariant(self);
        }
        self.stage
    }

    /// The step that this search waits for.
    pub fn request(&self) -> (request: Request)
        ensures
            request == pending(self@.platform, self@.stage),
    {
        proof {
            use_type_invariant(self);
        }
        match self.stage {
            Stage::Probing(index) => {
                let candidates = self.platform.search_plan();
                Request::Probe(candidates[index])
            },
            Stage::CheckingManager => Request::CheckManager,
            Stage::Installing => Request::Install,
            Stage::Rechecking(index) => {
                let candidates = self.platform.recheck_plan();
                Request::Probe(candidates[index])
            },
        }
    }

    fn miss(self) -> (step: Step)
        ensures
            match step {
                Step::Continue(locator) => after_miss(self@.platform, self@.stage)
                    == Outcome::Continue(locator@.stage) && locator@.platform
                    == self@.platform,
                Step::Located(location) => false,
                Step::Failed(error) => after_miss(self@.platform, self@.stage)
                    == Outcome::Failed(error@),
            },
    {
        proof {
            use_type_invariant(&self);
        }
        match self.stage {
            Stage::Probing(index) => {
                let candidates = self.platform.search_plan();
                if index + 1 < candidates.len() {
                    Step::Continue(
                        Locator { platform: self.platform, stage: Stage::Probing(index + 1) },
                    )
                } else {
                    Step::Continue(
                        Locator { platform: self.platform, stage: Stage::CheckingManager },
                    )
                }
            },
            Stage::Rechecking(index) => {
                let candidates = self.platform.recheck_plan();
                if index + 1 < candidates.len() {
                    Step::Continue(
                        Locator { platform: self.platform, stage: Stage::Rechecking(index + 1) },
                    )
                } else {
                    Step::Failed(MtrError::TrippyNotFound)
                }
            },
            _ => Step::Failed(MtrError::TrippyNotFound),
        }
    }

    /// Takes the report on the pending step and decides how the search goes
    /// on.
    pub fn step(self, reply: Reply) -> (step: Step)
        ensures
            match step {
                Step::Continue(locator) => next(self@.platform, self@.stage, reply)
                    == Outcome::Continue(locator@.stage) && locator@.platform
                    == self@.platform,
                Step::Located(location) => next(self@.platform, self@.stage, reply)
                    == Outcome::Located(location),
                Step::Failed(error) => next(self@.platform, self@.stage, reply)
                    == Outcome::Failed(error@),
            },
    {
        let request = self.request();
        match request {
            Request::Probe(candidate) => match reply {
                Reply::Found(path) => Step::Located(
                    EngineLocation { path, provenance: candidate.provenance },
                ),
                Reply::Lost(reason) => if candidate.provenance == Provenance::BesideExecutable {
                    Step::Failed(MtrError::IoError(reason))
                } else {
                    self.miss()
                },
                Reply::Detached => if candidate.provenance == Provenance::BesideExecutable {
                    Step::Failed(
                        MtrError::Other(String::from_str("Failed to get executable directory")),
                    )
                } else {
                    self.miss()
                },
                _ => self.miss(),
            },
            Request::CheckManager => match reply {
                Reply::Completed => Step::Continue(
                    Locator { platform: self.platform, stage: Stage::Installing },
                ),
                _ => self.miss(),
            },
            Request::Install => match reply {
                Reply::Completed => Step::Continue(
                    Locator { platform: self.platform, stage: Stage::Rechecking(0) },
                ),
                Reply::Unstarted(reason) => Step::Failed(MtrError::TrippyInstallFailed(reason)),
                _ => self.miss(),
            },
        }
    }
}

/// An upper bound on the steps that a search still takes from a stage.
pub open spec fn steps_left(platform: Platform, stage: Stage) -> nat {
    let rechecks = recheck_plan(platform).len();
    match stage {
        Stage::Probing(index) => if index < plan(platform).len() {
            (plan(platform).len() - index + rechecks + 2) as nat
        } else {
            rechecks + 3
        },
        Stage::CheckingManager => rechecks + 2,
        Stage::Installing => rechecks + 1,
        Stage::Rechecking(index) => if index < rechecks {
            (rechecks - index) as nat
        } else {
            1
        },
    }
}

/// The end of a search from a stage on, in a world that answers each
/// request in a fixed way.
pub open spec fn search(
    platform: Platform,
    stage: Stage,
    world: spec_fn(Request) -> Reply,
) -> Outcome
    decreases steps_left(platform, stage),
{
    match next(platform, stage, world(pending(platform, stage))) {
        Outcome::Continue(following) => search(platform, following, world),
        Outcome::Located(location) => Outcome::Located(location),
        Outcome::Failed(error) => Outcome::Failed(error),
    }
}

/// A search always comes to an end: it finds the engine or fails.
pub proof fn search_ends(platform: Platform, stage: Stage, world: spec_fn(Request) -> Reply)
    ensures
        !(search(platform, stage, world) is Continue),
    decreases steps_left(platform, stage),
{
    match next(platform, stage, world(pending(platform, stage))) {
        Outcome::Continue(following) => {
            search_ends(platform, following, world);
        },
        _ => {},
    }
}

/// Whether every candidate of the list from `from` up to `to` is missing.
pub open spec fn all_missing(
    platform: Platform,
    world: spec_fn(Request) -> Reply,
    from: int,
    to: int,
) -> bool {
    forall|j: int|
        from <= j < to ==> is_miss(
            plan(platform)[j],
            #[trigger] world(Request::Probe(plan(platform)[j])),
        )
}

/// Whether, after an installation, every candidate of the second look at
/// the search path from `from` up to `to` is missing.
pub open spec fn all_missing_again(
    platform: Platform,
    world: spec_fn(Request) -> Reply,
    from: int,
    to: int,
) -> bool {
    forall|j: int|
        from <= j < to ==> !(#[trigger] world(Request::Probe(recheck_plan(platform)[j]))
            is Found)
}

/// The candidates come in the order of preference: search path, beside the
/// executable, installation directory; and each of them before those that
/// are looked at after an installation.
pub proof fn plan_is_ordered(platform: Platform, i: int, j: int)
    requires
        0 <= i <= j < plan(platform).len(),
    ensures
        rank(plan(platform)[i].provenance) <= rank(plan(platform)[j].provenance),
        rank(plan(platform)[j].provenance) < rank(Provenance::Provisioned),
{
}

/// The second look at the search path goes through the search-path
/// candidates of the list, under the same names and in the same order, and
/// through nothing else.
pub proof fn recheck_follows_the_search_path(platform: Platform, i: int)
    requires
        0 <= i < plan(platform).len(),
    ensures
        i < recheck_plan(platform).len() <==> plan(platform)[i].provenance
            == Provenance::SearchPath,
        i < recheck_plan(platform).len() ==> recheck_plan(platform)[i] == (Candidate {
            provenance: Provenance::Provisioned,
            name: plan(platform)[i].name,
        }),
        recheck_plan(platform).len() <= plan(platform).len(),
{
}

/// On the search path, in the installation directory and after an
/// installation, a report of a process that cannot tell where it lies is a
/// miss like any other: only beside the executable does it end the search.
pub proof fn only_the_place_beside_the_executable_breaks(
    platform: Platform,
    stage: Stage,
    reply: Reply,
)
    requires
        reachable(platform, stage),
        pending(platform, stage) matches Request::Probe(candidate) && candidate.provenance
            != Provenance::BesideExecutable,
        !(reply is Found),
    ensures
        next(platform, stage, reply) == after_miss(platform, stage),
{
}

proof fn misses_are_passed_over(
    platform: Platform,
    world: spec_fn(Request) -> Reply,
    from: int,
    to: int,
)
    requires
        0 <= from <= to < plan(platform).len(),
        all_missing(platform, world, from, to),
    ensures
        search(platform, Stage::Probing(from as usize), world) == search(
            platform,
            Stage::Probing(to as usize),
            world,
        ),
    decreases to - from,
{
    if from < to {
        assert(is_miss(plan(platform)[from], world(Request::Probe(plan(platform)[from]))));
        misses_are_passed_over(platform, world, from + 1, to);
    }
}

proof fn second_misses_are_passed_over(
    platform: Platform,
    world: spec_fn(Request) -> Reply,
    from: int,
    to: int,
)
    requires
        0 <= from <= to < recheck_plan(platform).len(),
        all_missing_again(platform, world, from, to),
    ensures
        search(platform, Stage::Rechecking(from as usize), world) == search(
            platform,
            Stage::Rechecking(to as usize),
            world,
        ),
    decreases to - from,
{
    if from < to {
        assert(!(world(Request::Probe(recheck_plan(platform)[from])) is Found));
        second_misses_are_passed_over(platform, world, from + 1, to);
    }
}

/// The first candidate of the list that is found is the engine's location,
/// with the kind of place that the candidate stands for: a search never
/// returns a candidate while one before it in the list is there.
pub proof fn first_find_wins(platform: Platform, world: spec_fn(Request) -> Reply, k: int)
    requires
        0 <= k < plan(platform).len(),
        world(Request::Probe(plan(platform)[k])) is Found,
        all_missing(platform, world, 0, k),
    ensures
        search(platform, Stage::Probing(0), world) == Outcome::Located(
            EngineLocation {
                path: world(Request::Probe(plan(platform)[k]))->Found_0,
                provenance: plan(platform)[k].provenance,
            },
        ),
{
    misses_are_passed_over(platform, world, 0, k);
}

/// The location that a search returns is of the most preferred kind among
/// the places where the engine is: no candidate that is there stands for a
/// kind of place with a lower rank.
pub proof fn no_better_place_is_there(
    platform: Platform,
    world: spec_fn(Request) -> Reply,
    k: int,
    other: int,
)
    requires
        0 <= k < plan(platform).len(),
        world(Request::Probe(plan(platform)[k])) is Found,
        all_missing(platform, world, 0, k),
        0 <= other < plan(platform).len(),
        world(Request::Probe(plan(platform)[other])) is Found,
    ensures
        search(platform, Stage::Probing(0), world) is Located,
        search(platform, Stage::Probing(0), world)->Located_0.provenance == plan(
            platform,
        )[k].provenance,
        rank(plan(platform)[k].provenance) <= rank(plan(platform)[other].provenance),
{
    first_find_wins(platform, world, k);
    if other < k {
        assert(is_miss(plan(platform)[other], world(Request::Probe(plan(platform)[other]))));
    }
    plan_is_ordered(platform, k, other);
}

/// Where no candidate of the list is there, the search ends as the attempt
/// to install the engine ends.
pub proof fn exhausted_plan_leads_to_installation(
    platform: Platform,
    world: spec_fn(Request) -> Reply,
)
    requires
        all_missing(platform, world, 0, plan(platform).len() as int),
    ensures
        search(platform, Stage::Probing(0), world) == search(
            platform,
            Stage::CheckingManager,
            world,
        ),
{
    let last = plan(platform).len() - 1;
    misses_are_passed_over(platform, world, 0, last);
    assert(is_miss(plan(platform)[last], world(Request::Probe(plan(platform)[last]))));
}

/// Without a package manager the search ends with `TrippyNotFound` once the
/// list is through.
pub proof fn no_manager_no_engine(platform: Platform, world: spec_fn(Request) -> Reply)
    requires
        all_missing(platform, world, 0, plan(platform).len() as int),
        !(world(Request::CheckManager) is Completed),
    ensures
        search(platform, Stage::Probing(0), world) == Outcome::Failed(ErrorView::TrippyNotFound),
{
    exhausted_plan_leads_to_installation(platform, world);
}

proof fn completed_installation_leads_to_second_look(
    platform: Platform,
    world: spec_fn(Request) -> Reply,
)
    requires
        all_missing(platform, world, 0, plan(platform).len() as int),
        world(Request::CheckManager) is Completed,
        world(Request::Install) is Completed,
    ensures
        search(platform, Stage::Probing(0), world) == search(
            platform,
            Stage::Rechecking(0),
            world,
        ),
{
    exhausted_plan_leads_to_installation(platform, world);
    assert(search(platform, Stage::CheckingManager, world) == search(
        platform,
        Stage::Installing,
        world,
    ));
    assert(search(platform, Stage::Installing, world) == search(
        platform,
        Stage::Rechecking(0),
        world,
    ));
}

/// After an installation that ended well, the search path is gone through
/// once more, and the first name under which the engine is then found gives
/// its location, marked as provisioned.
pub proof fn installed_engine_is_found(
    platform: Platform,
    world: spec_fn(Request) -> Reply,
    k: int,
)
    requires
        all_missing(platform, world, 0, plan(platform).len() as int),
        world(Request::CheckManager) is Completed,
        world(Request::Install) is Completed,
        0 <= k < recheck_plan(platform).len(),
        world(Request::Probe(recheck_plan(platform)[k])) is Found,
        all_missing_again(platform, world, 0, k),
    ensures
        search(platform, Stage::Probing(0), world) == Outcome::Located(
            EngineLocation {
                path: world(Request::Probe(recheck_plan(platform)[k]))->Found_0,
                provenance: Provenance::Provisioned,
            },
        ),
{
    completed_installation_leads_to_second_look(platform, world);
    second_misses_are_passed_over(platform, world, 0, k);
}

/// After an installation that ended well, the search ends with
/// `TrippyNotFound` only when the engine is on the search path under none of
/// its names.
pub proof fn installation_without_engine(platform: Platform, world: spec_fn(Request) -> Reply)
    requires
        all_missing(platform, world, 0, plan(platform).len() as int),
        world(Request::CheckManager) is Completed,
        world(Request::Install) is Completed,
        all_missing_again(platform, world, 0, recheck_plan(platform).len() as int),
    ensures
        search(platform, Stage::Probing(0), world) == Outcome::Failed(ErrorView::TrippyNotFound),
{
    completed_installation_leads_to_second_look(platform, world);
    let last = recheck_plan(platform).len() - 1;
    second_misses_are_passed_over(platform, world, 0, last);
    assert(!(world(Request::Probe(recheck_plan(platform)[last])) is Found));
}

} // verus!
