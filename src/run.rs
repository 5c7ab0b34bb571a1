use vstd::prelude::*;
use vstd::string::StringExecFns;

use crate::discovery::{check_entry, checks_for, discover, discovery_error, CheckTarget, DiscoveryError};
use crate::json::{json_document, Json};
use crate::nix::{
    build_args, build_args_spec, build_entries, current_system_args, error_text, failed_run, log_args, ran, read_build,
    read_text, show, texts, unreadable, utf8_text, BuildMode, ToolError, ToolOutput,
};

verus! {

/// How a check ended.
#[derive(Debug)]
pub enum Outcome {
    Success,
    /// The build failed; `log` is its build log, or a message saying why
    /// the log could not be had.
    Failure { log: String },
}

/// The outcome of one check.
#[derive(Debug)]
pub struct CheckCase {
    /// The name of the check's derivation.
    pub name: String,
    pub outcome: Outcome,
    /// How long the real build took, in milliseconds.
    pub millis: u64,
}

/// What the caller is to do next for a run.
#[derive(Debug)]
pub enum Action {
    /// Run the tool with `args` and hand its result to `dry_run_done`.
    DryRun { args: Vec<String> },
    /// Run the tool with `args`, time it, and hand both to `build_done`.
    Build { args: Vec<String> },
    /// Run the tool with `args` and hand its result to `log_done`.
    FetchLog { args: Vec<String> },
    /// Every check has an outcome: take them with `finish`.
    Report,
    /// A dry run failed: the run ends and no report is made.
    Abort,
}

/// Why a check could not be resolved to a derivation, which ends the run.
#[derive(Debug)]
pub enum ResolveError {
    Tool(ToolError),
    /// The dry run reported no derivation for `address`.
    NoDerivation { address: String },
}

#[derive(Debug)]
pub enum Phase {
    /// The next check is to be resolved by a dry run.
    Resolve,
    /// The next check resolved to `drv_path` and is to be built.
    Build { drv_path: String },
    /// The next check's build failed after `millis`; its log is to be fetched.
    FetchLog { drv_path: String, millis: u64 },
    Aborted,
}

/// The attribute path of check `key` for `platform`.
pub open spec fn address_spec(platform: Seq<char>, key: Seq<char>) -> Seq<char> {
    ".#checks."@ + platform + "."@ + key
}

pub fn check_address(platform: &String, key: &String) -> (r: String)
    ensures
        r@ == address_spec(platform@, key@),
{
    let mut r = String::from_str(".#checks.");
    r.append(platform.as_str());
    r.append(".");
    r.append(key.as_str());
    r
}

/// The derivation that a dry run resolved its target to: the first one it
/// reports.
pub open spec fn resolved(out: Result<ToolOutput, String>) -> Option<Seq<char>> {
    if ran(out) {
        match json_document(out->Ok_0.stdout@) {
            Some(d) => match build_entries(d) {
                Some(entries) => if entries.len() > 0 {
                    Some(entries[0].0)
                } else {
                    None
                },
                None => None,
            },
            None => None,
        }
    } else {
        None
    }
}

/// A build succeeded: the tool exited with status zero and reported its
/// derivations.
pub open spec fn build_succeeded(out: Result<ToolOutput, String>) -> bool {
    ran(out) && (json_document(out->Ok_0.stdout@) matches Some(d) && build_entries(d) is Some)
}

/// The log text that a failed check carries: the fetched log as it is, or
/// a message naming why fetching it failed.
pub open spec fn log_text(args: Seq<Seq<char>>, out: Result<ToolOutput, String>, text: Seq<char>) -> bool {
    if ran(out) && utf8_text(out->Ok_0.stdout@) is Some {
        text == utf8_text(out->Ok_0.stdout@)->0
    } else {
        exists|e: ToolError|
            #![trigger error_text(e)]
            (if ran(out) {
                unreadable(args, e)
            } else {
                failed_run(args, out, e)
            }) && text == "nix-log call failed: "@ + error_text(e)
    }
}

/// The text that a failed check carries where its log could not be had.
fn log_failure_text(e: &ToolError) -> (r: String)
    ensures
        r@ == "nix-log call failed: "@ + error_text(*e),
        r@.len() > 0,
{
    let mut r = String::from_str("nix-log call failed: ");
    proof {
        reveal_strlit("nix-log call failed: ");
    }
    r.append(e.message().as_str());
    r
}

/// The checks of a flake, run one after another: each is resolved by a dry
/// run, then built; the log of a failed build is fetched.
pub struct CheckRun {
    platform: String,
    options: Vec<String>,
    targets: Vec<CheckTarget>,
    next: usize,
    phase: Phase,
    cases: Vec<CheckCase>,
    built: Ghost<Seq<bool>>,
}

impl CheckRun {
    pub closed spec fn platform(&self) -> Seq<char> {
        self.platform@
    }

    pub closed spec fn options(&self) -> Seq<Seq<char>> {
        texts(self.options@)
    }

    pub closed spec fn targets(&self) -> Seq<CheckTarget> {
        self.targets@
    }

    /// How many checks have an outcome.
    pub closed spec fn done(&self) -> nat {
        self.next as nat
    }

    pub closed spec fn phase(&self) -> Phase {
        self.phase
    }

    /// The outcomes so far, in the order of the targets.
    pub closed spec fn cases(&self) -> Seq<CheckCase> {
        self.cases@
    }

    /// For each check with an outcome, whether its real build succeeded.
    pub closed spec fn built(&self) -> Seq<bool> {
        self.built@
    }

    pub closed spec fn wf(&self) -> bool {
        &&& self.next <= self.targets@.len()
        &&& self.cases@.len() == self.next
        &&& self.built@.len() == self.next
        &&& self.next == self.targets@.len() ==> (self.phase is Resolve || self.phase is Aborted)
        &&& forall|i: int|
            0 <= i < self.next ==> #[trigger] self.cases@[i].name == self.targets@[i].name && (
            self.cases@[i].outcome is Success <==> self.built@[i])
    }

    pub open spec fn is_aborted(&self) -> bool {
        self.phase() is Aborted
    }

    pub open spec fn is_finished(&self) -> bool {
        !self.is_aborted() && self.done() == self.targets().len()
    }

    /// The address of the check that is being run.
    pub open spec fn current_address(&self) -> Seq<char> {
        address_spec(self.platform(), self.targets()[self.done() as int].key@)
    }

    /// A run over `targets`, in their order, for `platform`; `options` go to
    /// every build after the built-in flags.
    pub fn new(platform: String, targets: Vec<CheckTarget>, options: Vec<String>) -> (r: CheckRun)
        ensures
            r.wf(),
            r.platform() == platform@,
            r.targets() == targets@,
            r.options() == texts(options@),
            r.done() == 0,
            r.phase() is Resolve,
            r.cases().len() == 0,
    {
        CheckRun {
            platform,
            options,
            targets,
            next: 0,
            phase: Phase::Resolve,
            cases: Vec::new(),
            built: Ghost(Seq::empty()),
        }
    }

    /// The checks of this run, in the order they are run.
    pub fn check_targets(&self) -> (r: &Vec<CheckTarget>)
        ensures
            r@ == self.targets(),
    {
        &self.targets
    }

    /// What to do next.
    pub fn action(&self) -> (r: Action)
        requires
            self.wf(),
        ensures
            self.is_aborted() ==> r is Abort,
            self.is_finished() ==> r is Report,
            !self.is_aborted() && !self.is_finished() ==> match self.phase() {
                Phase::Resolve => r matches Action::DryRun { args } && texts(args@) == build_args_spec(
                    self.current_address(),
                    BuildMode::DryRun,
                    self.options(),
                ),
                Phase::Build { .. } => r matches Action::Build { args } && texts(args@)
                    == build_args_spec(self.current_address(), BuildMode::Real, self.options()),
                Phase::FetchLog { drv_path, .. } => r matches Action::FetchLog { args } && texts(args@)
                    == seq!["log"@, drv_path@],
                Phase::Aborted => false,
            },
    {
        if self.next == self.targets.len() {
            return match self.phase {
                Phase::Aborted => Action::Abort,
                _ => Action::Report,
            };
        }
        match &self.phase {
            Phase::Resolve => {
                let address = check_address(&self.platform, &self.targets[self.next].key);
                Action::DryRun { args: build_args(&address, BuildMode::DryRun, &self.options) }
            },
            Phase::Build { .. } => {
                let address = check_address(&self.platform, &self.targets[self.next].key);
                Action::Build { args: build_args(&address, BuildMode::Real, &self.options) }
            },
            Phase::FetchLog { drv_path, .. } => Action::FetchLog { args: log_args(drv_path) },
            Phase::Aborted => Action::Abort,
        }
    }

    /// Takes the result of the current check's dry run. A dry run that fails,
    /// or reports no derivation, aborts the run.
    pub fn dry_run_done(&mut self, out: Result<ToolOutput, String>) -> (r: Result<(), ResolveError>)
        requires
            old(self).wf(),
            old(self).phase() is Resolve,
            old(self).done() < old(self).targets().len(),
        ensures
            final(self).wf(),
            final(self).platform() == old(self).platform(),
            final(self).options() == old(self).options(),
            final(self).targets() == old(self).targets(),
            final(self).done() == old(self).done(),
            final(self).cases() == old(self).cases(),
            final(self).built() == old(self).built(),
            match resolved(out) {
                Some(p) => r is Ok && (final(self).phase() matches Phase::Build { drv_path } && drv_path@ == p),
                None => r is Err && final(self).is_aborted(),
            },
    {
        let address = check_address(&self.platform, &self.targets[self.next].key);
        let args = build_args(&address, BuildMode::DryRun, &self.options);
        match read_build(&args, out) {
            Ok(ds) => {
                if ds.len() > 0 {
                    self.phase = Phase::Build { drv_path: ds[0].drv_path.clone() };
                    Ok(())
                } else {
                    self.phase = Phase::Aborted;
                    Err(ResolveError::NoDerivation { address })
                }
            },
            Err(e) => {
                self.phase = Phase::Aborted;
                Err(ResolveError::Tool(e))
            },
        }
    }

    /// Takes the result of the current check's real build and how long it
    /// took. A success gives the check its outcome; a failure leads to
    /// fetching the log of the derivation that the dry run resolved.
    pub fn build_done(&mut self, out: Result<ToolOutput, String>, millis: u64)
        requires
            old(self).wf(),
            old(self).phase() is Build,
            old(self).done() < old(self).targets().len(),
        ensures
            final(self).wf(),
            final(self).platform() == old(self).platform(),
            final(self).options() == old(self).options(),
            final(self).targets() == old(self).targets(),
            build_succeeded(out) ==> {
                &&& final(self).done() == old(self).done() + 1
                &&& final(self).phase() is Resolve
                &&& final(self).built() == old(self).built().push(true)
                &&& final(self).cases().len() == old(self).cases().len() + 1
                &&& final(self).cases().drop_last() == old(self).cases()
                &&& final(self).cases().last().name == old(self).targets()[old(self).done() as int].name
                &&& final(self).cases().last().outcome is Success
                &&& final(self).cases().last().millis == millis
            },
            !build_succeeded(out) ==> {
                &&& final(self).done() == old(self).done()
                &&& final(self).cases() == old(self).cases()
                &&& final(self).built() == old(self).built()
                &&& final(self).phase() matches Phase::FetchLog { drv_path, millis: m }
                &&& old(self).phase() matches Phase::Build { drv_path: d }
                &&& drv_path == d
                &&& m == millis
            },
    {
        let address = check_address(&self.platform, &self.targets[self.next].key);
        let args = build_args(&address, BuildMode::Real, &self.options);
        let succeeded = read_build(&args, out).is_ok();
        assert(self.next < self.targets.len());
        let mut phase = Phase::Resolve;
        std::mem::swap(&mut self.phase, &mut phase);
        let drv_path = match phase {
            Phase::Build { drv_path } => drv_path,
            _ => String::new(),
        };
        if succeeded {
            let name = self.targets[self.next].name.clone();
            self.cases.push(CheckCase { name, outcome: Outcome::Success, millis });
            self.built = Ghost(self.built@.push(true));
            self.next = self.next + 1;
            assert(self.cases@.drop_last() =~= old(self).cases@);
        } else {
            self.phase = Phase::FetchLog { drv_path, millis };
        }
    }

    /// Takes the result of fetching the current check's build log and gives
    /// the check a failed outcome that carries the log, or a message saying
    /// why it could not be had.
    pub fn log_done(&mut self, out: Result<ToolOutput, String>)
        requires
            old(self).wf(),
            old(self).phase() is FetchLog,
            old(self).done() < old(self).targets().len(),
        ensures
            final(self).wf(),
            final(self).platform() == old(self).platform(),
            final(self).options() == old(self).options(),
            final(self).targets() == old(self).targets(),
            final(self).done() == old(self).done() + 1,
            final(self).phase() is Resolve,
            final(self).built() == old(self).built().push(false),
            final(self).cases().len() == old(self).cases().len() + 1,
            final(self).cases().drop_last() == old(self).cases(),
            final(self).cases().last().name == old(self).targets()[old(self).done() as int].name,
            old(self).phase() matches Phase::FetchLog { drv_path, millis } && {
                &&& final(self).cases().last().millis == millis
                &&& final(self).cases().last().outcome matches Outcome::Failure { log }
                &&& log_text(seq!["log"@, drv_path@], out, log@)
            },
            !(ran(out) && utf8_text(out->Ok_0.stdout@) is Some) ==> (final(self).cases().last().outcome matches Outcome::Failure { log } && log@.len() > 0),
    {
        assert(self.next < self.targets.len());
        let mut phase = Phase::Resolve;
        std::mem::swap(&mut self.phase, &mut phase);
        let (drv_path, millis) = match phase {
            Phase::FetchLog { drv_path, millis } => (drv_path, millis),
            _ => (String::new(), 0),
        };
        let args = log_args(&drv_path);
        let log = match read_text(&args, out) {
            Ok(text) => text,
            Err(e) => log_failure_text(&e),
        };
        let name = self.targets[self.next].name.clone();
        self.cases.push(CheckCase { name, outcome: Outcome::Failure { log }, millis });
        self.built = Ghost(self.built@.push(false));
        self.next = self.next + 1;
        assert(self.cases@.drop_last() =~= old(self).cases@);
    }

    /// The outcomes of all checks, in the order of the targets; `None` where
    /// the run was aborted or has checks left.
    pub fn finish(self) -> (r: Option<Vec<CheckCase>>)
        requires
            self.wf(),
        ensures
            r is Some <==> self.is_finished(),
            r matches Some(cases) ==> cases@ == self.cases(),
    {
        match self.phase {
            Phase::Aborted => None,
            _ => if self.next == self.targets.len() {
                Some(self.cases)
            } else {
                None
            },
        }
    }
}

/// An option that the caller may not pass to builds, since the library
/// adds it itself and reads the output it shapes.
pub open spec fn reserved_option(o: Seq<char>) -> bool {
    o == "--json"@ || o == "--dry-run"@
}

/// Checks the caller's build options: `Err` with the position of the first
/// reserved one, if there is one.
pub fn check_options(options: &Vec<String>) -> (r: Result<(), usize>)
    ensures
        match r {
            Ok(()) => forall|i: int| 0 <= i < options@.len() ==> !reserved_option(#[trigger] options@[i]@),
            Err(i) => i < options@.len() && reserved_option(options@[i as int]@) && forall|j: int|
                0 <= j < i ==> !reserved_option(#[trigger] options@[j]@),
        },
{
    let json = String::from_str("--json");
    let dry_run = String::from_str("--dry-run");
    let mut i: usize = 0;
    while i < options.len()
        invariant
            0 <= i <= options.len(),
            json@ == "--json"@,
            dry_run@ == "--dry-run"@,
            forall|j: int| 0 <= j < i ==> !reserved_option(#[trigger] options@[j]@),
        decreases options.len() - i,
    {
        if options[i] == json || options[i] == dry_run {
            return Err(i);
        }
        i = i + 1;
    }
    Ok(())
}

/// Appends `--max-jobs <jobs>` to the build options.
pub fn add_max_jobs(options: &mut Vec<String>, jobs: String)
    ensures
        texts(final(options)@) == texts(old(options)@) + seq!["--max-jobs"@, jobs@],
{
    options.push(String::from_str("--max-jobs"));
    options.push(jobs);
    assert(texts(options@) =~= texts(old(options)@) + seq!["--max-jobs"@, jobs@]);
}

/// Why a run could not start.
#[derive(Debug)]
pub enum StartError {
    /// Listing the flake's outputs failed.
    Outputs(ToolError),
    /// Asking for the current platform failed.
    Platform(ToolError),
    Discovery(DiscoveryError),
}

/// The checks (key and name) that `doc` declares for `platform`, where it
/// declares a set of them and each is a derivation.
pub open spec fn discovered(doc: Json, platform: Seq<char>) -> Option<Seq<(Seq<char>, Seq<char>)>> {
    match checks_for(doc, platform) {
        Json::Object(m) => if forall|i: int| 0 <= i < m@.len() ==> #[trigger] check_entry(m@[i].1) is Some {
            Some(m@.map_values(|e: (String, Json)| (e.0@, check_entry(e.1)->0)))
        } else {
            None
        },
        _ => None,
    }
}

/// The keys and names of a list of targets.
pub open spec fn target_texts(ts: Seq<CheckTarget>) -> Seq<(Seq<char>, Seq<char>)> {
    ts.map_values(|t: CheckTarget| (t.key@, t.name@))
}

/// The arguments that ask for the current platform.
pub open spec fn platform_args() -> Seq<Seq<char>> {
    seq!["eval"@, "--impure"@, "--raw"@, "--expr"@, "builtins.currentSystem"@]
}

/// Starts a run from the flake's listed outputs and the current platform,
/// which the caller got by running the tool with `show_args` and
/// `current_system_args`.
pub fn start_run(outputs: Result<ToolOutput, String>, system: Result<ToolOutput, String>, options: Vec<String>) -> (r: Result<CheckRun, StartError>)
    ensures
        r is Ok <==> {
            &&& ran(outputs)
            &&& ran(system)
            &&& json_document(outputs->Ok_0.stdout@) is Some
            &&& utf8_text(system->Ok_0.stdout@) is Some
            &&& discovered(json_document(outputs->Ok_0.stdout@)->0, utf8_text(system->Ok_0.stdout@)->0) is Some
        },
        r matches Ok(run) ==> {
            &&& run.wf()
            &&& run.platform() == utf8_text(system->Ok_0.stdout@)->0
            &&& Some(target_texts(run.targets())) == discovered(
                json_document(outputs->Ok_0.stdout@)->0,
                utf8_text(system->Ok_0.stdout@)->0,
            )
            &&& run.options() == texts(options@)
            &&& run.done() == 0
            &&& run.phase() is Resolve
        },
        !ran(outputs) ==> (r matches Err(StartError::Outputs(e)) && failed_run(
            seq!["flake"@, "show"@, "--json"@],
            outputs,
            e,
        )),
        ran(outputs) && json_document(outputs->Ok_0.stdout@) is None ==> (r matches Err(
            StartError::Outputs(e),
        ) && unreadable(seq!["flake"@, "show"@, "--json"@], e)),
        ran(outputs) && json_document(outputs->Ok_0.stdout@) is Some && !ran(system) ==> (r matches Err(
            StartError::Platform(e),
        ) && failed_run(platform_args(), system, e)),
        ran(outputs) && json_document(outputs->Ok_0.stdout@) is Some && ran(system) && utf8_text(
            system->Ok_0.stdout@,
        ) is None ==> (r matches Err(StartError::Platform(e)) && unreadable(platform_args(), e)),
        r matches Err(StartError::Discovery(e)) ==> discovery_error(
            json_document(outputs->Ok_0.stdout@)->0,
            utf8_text(system->Ok_0.stdout@)->0,
            e,
        ),
{
    let doc = match show(outputs) {
        Ok(d) => d,
        Err(e) => {
            return Err(StartError::Outputs(e));
        },
    };
    let platform = match read_text(&current_system_args(), system) {
        Ok(p) => p,
        Err(e) => {
            return Err(StartError::Platform(e));
        },
    };
    let ghost d = doc;
    match discover(doc, &platform) {
        Ok(targets) => {
            proof {
                if let Json::Object(m) = checks_for(d, platform@) {
                    assert forall|i: int| 0 <= i < m@.len() implies #[trigger] check_entry(m@[i].1) is Some by {
                        assert(targets@[i].key@ == m@[i].0@);
                    }
                    assert(target_texts(targets@) =~= m@.map_values(
                        |e: (String, Json)| (e.0@, check_entry(e.1)->0),
                    ));
                }
            }
            Ok(CheckRun::new(platform, targets, options))
        },
        Err(e) => {
            proof {
                if let Json::Object(m) = checks_for(d, platform@) {
                    let i = choose|i: int|
                        0 <= i < m@.len() && check_entry(#[trigger] m@[i].1) is None && (forall|j: int|
                            0 <= j < i ==> check_entry(#[trigger] m@[j].1) is Some) && e
                            == DiscoveryError::NotADerivation { key: m@[i].0, entry: m@[i].1 };
                    assert(!(check_entry(m@[i].1) is Some));
                }
            }
            Err(StartError::Discovery(e))
        },
    }
}

/// What a well-formed run holds: one outcome for each check that is done,
/// named after its target, a success exactly where the real build
/// succeeded.
pub proof fn lemma_outcomes(run: &CheckRun)
    requires
        run.wf(),
    ensures
        run.done() <= run.targets().len(),
        run.cases().len() == run.done(),
        run.built().len() == run.done(),
        forall|i: int|
            0 <= i < run.done() ==> #[trigger] run.cases()[i].name == run.targets()[i].name && (
            run.cases()[i].outcome is Success <==> run.built()[i]),
{
}

/// A run that a failed dry run aborted never counts as finished: `finish`
/// gives no outcomes for it and `action` only says to abort, so no report
/// can be made from it.
pub proof fn lemma_abort_is_final(run: &CheckRun)
    requires
        run.wf(),
        run.is_aborted(),
    ensures
        !run.is_finished(),
{
}

/// Where fetching the log of a failed build fails, the failed check still
/// carries a message, never an empty text.
pub proof fn lemma_log_text_not_empty(args: Seq<Seq<char>>, out: Result<ToolOutput, String>, text: Seq<char>)
    requires
        log_text(args, out, text),
        !(ran(out) && utf8_text(out->Ok_0.stdout@) is Some),
    ensures
        text.len() > 0,
{
    reveal_strlit("nix-log call failed: ");
    let e = choose|e: ToolError|
        #![trigger error_text(e)]
        (if ran(out) {
            unreadable(args, e)
        } else {
            failed_run(args, out, e)
        }) && text == "nix-log call failed: "@ + error_text(e);
    assert(text.len() == "nix-log call failed: "@.len() + error_text(e).len());
}

} // verus!
