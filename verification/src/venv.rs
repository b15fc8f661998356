//! Python virtual environments: location, naming, and lifecycle decisions.
//!
//! A `Venv` is identified by its root path; the value may refer to a path
//! that does not yet exist on disk.  Locating one probes ancestor
//! directories, nearest first, for a small ordered set of candidate names.
//! Creating one is idempotent: when the root is already present nothing is
//! done, otherwise an exact external creation command is produced for the
//! caller to run.

use vstd::prelude::*;

use crate::command::{opt_view, CommandSpec, CommandSpecView, RunOutcome};
use crate::error::{HuakError, HuakErrorView};
use crate::paths::{
    final_component, final_component_spec, join_spec, join_under, parent_dir, parent_spec,
};
use crate::probe::path_exists;

verus! {

/// Name given to an environment directory when none is specified.
pub const DEFAULT_VENV_NAME: &'static str = ".venv";

/// Executable directory name away from Windows.
pub const BIN_NAME: &'static str = "bin";

/// Executable directory name on Windows.
pub const WINDOWS_BIN_NAME: &'static str = "Scripts";

/// How many parent-directory hops a search may take beyond its start.
pub const DEFAULT_SEARCH_STEPS: usize = 5;

/// The platform family an environment's executable directory depends on.
#[derive(Clone, Copy, PartialEq, Eq, Structural, Debug)]
pub enum Platform {
    Windows,
    Other,
}

/// A Python virtual environment, identified by its root path.
#[derive(Clone, Debug)]
pub struct Venv {
    pub path: String,
}

/// The executable directory name a platform calls for.
pub open spec fn bin_dir_spec(platform: Platform) -> Seq<char> {
    match platform {
        Platform::Windows => seq!['S', 'c', 'r', 'i', 'p', 't', 's'],
        Platform::Other => seq!['b', 'i', 'n'],
    }
}

/// The candidate environment names a search looks for, in preference
/// order: the hidden-name variant first, the bare-name variant second.
pub open spec fn venv_names() -> Seq<Seq<char>> {
    seq![seq!['.', 'v', 'e', 'n', 'v'], seq!['v', 'e', 'n', 'v']]
}

/// The chain of directories a search visits: the start, then each
/// successive parent, at most `hops` of them.
pub open spec fn ancestors_spec(from: Seq<char>, hops: nat) -> Seq<Seq<char>>
    decreases hops,
{
    seq![from] + if hops == 0 {
        Seq::<Seq<char>>::empty()
    } else {
        match parent_spec(from) {
            Option::None => Seq::<Seq<char>>::empty(),
            Option::Some(q) => ancestors_spec(q, (hops - 1) as nat),
        }
    }
}

/// Every path a search examines, in examination order: both candidate
/// names under the start, then both under its parent, and so on.
pub open spec fn candidate_paths(from: Seq<char>, hops: nat) -> Seq<Seq<char>>
    decreases hops,
{
    let here = seq![
        join_spec(from, venv_names()[0]),
        join_spec(from, venv_names()[1]),
    ];
    here + if hops == 0 {
        Seq::<Seq<char>>::empty()
    } else {
        match parent_spec(from) {
            Option::None => Seq::<Seq<char>>::empty(),
            Option::Some(q) => candidate_paths(q, (hops - 1) as nat),
        }
    }
}

/// A search examines one directory per ancestor, two candidates per
/// directory, and the candidate at position `2*d + k` is candidate name
/// `k` under ancestor `d`: candidates of a nearer ancestor stand before
/// every candidate of a farther one, whatever the name preference order.
pub proof fn lemma_candidates_by_depth(from: Seq<char>, hops: nat)
    ensures
        candidate_paths(from, hops).len() == 2 * ancestors_spec(from, hops).len(),
        forall|d: int, k: int|
            0 <= d < ancestors_spec(from, hops).len() && 0 <= k < 2 ==> candidate_paths(
                from,
                hops,
            )[2 * d + k] == join_spec(ancestors_spec(from, hops)[d], venv_names()[k]),
    decreases hops,
{
    if hops > 0 && parent_spec(from) is Some {
        let q = parent_spec(from).unwrap();
        lemma_candidates_by_depth(q, (hops - 1) as nat);
        assert forall|d: int, k: int|
            0 <= d < ancestors_spec(from, hops).len() && 0 <= k < 2 implies candidate_paths(
            from,
            hops,
        )[2 * d + k] == join_spec(ancestors_spec(from, hops)[d], venv_names()[k]) by {
            if d > 0 {
                assert(ancestors_spec(from, hops)[d] == ancestors_spec(q, (hops - 1) as nat)[d
                    - 1]);
                assert(candidate_paths(from, hops)[2 * d + k] == candidate_paths(
                    q,
                    (hops - 1) as nat,
                )[2 * (d - 1) + k]);
            }
        }
    }
}

/// A search never examines more than `hops + 1` directories, so never
/// more than `2 * (hops + 1)` candidate paths: it is bounded.
pub proof fn lemma_search_bounded(from: Seq<char>, hops: nat)
    ensures
        ancestors_spec(from, hops).len() <= hops + 1,
        candidate_paths(from, hops).len() <= 2 * (hops + 1),
    decreases hops,
{
    if hops > 0 && parent_spec(from) is Some {
        lemma_search_bounded(parent_spec(from).unwrap(), (hops - 1) as nat);
    }
    lemma_candidates_by_depth(from, hops);
}

/// Append every candidate path of a search from `from` with `hops`
/// remaining parent hops.
fn push_candidates(from: &str, hops: usize, out: &mut Vec<String>)
    ensures
        final(out).deep_view() == old(out).deep_view() + candidate_paths(from@, hops as nat),
    decreases hops,
{
    let c0 = join_under(from, ".venv");
    let c1 = join_under(from, "venv");
    proof {
        reveal_strlit(".venv");
        reveal_strlit("venv");
        assert((".venv")@ =~= venv_names()[0]);
        assert(("venv")@ =~= venv_names()[1]);
    }
    out.push(c0);
    out.push(c1);
    let ghost mid = out.deep_view();
    proof {
        assert(mid =~= old(out).deep_view() + seq![
            join_spec(from@, venv_names()[0]),
            join_spec(from@, venv_names()[1]),
        ]);
    }
    if hops > 0 {
        match parent_dir(from) {
            Option::None => {
                proof {
                    assert(out.deep_view() =~= old(out).deep_view() + candidate_paths(
                        from@,
                        hops as nat,
                    ));
                }
            },
            Option::Some(q) => {
                push_candidates(q.as_str(), hops - 1, out);
                proof {
                    assert(out.deep_view() =~= old(out).deep_view() + candidate_paths(
                        from@,
                        hops as nat,
                    ));
                }
            },
        }
    } else {
        proof {
            assert(out.deep_view() =~= old(out).deep_view() + candidate_paths(
                from@,
                hops as nat,
            ));
        }
    }
}

/// Every path a search from `from` examines, in examination order.
pub fn search_candidates(from: &str) -> (r: Vec<String>)
    ensures
        r.deep_view() == candidate_paths(from@, DEFAULT_SEARCH_STEPS as nat),
{
    let mut out: Vec<String> = Vec::new();
    proof {
        assert(out.deep_view() =~= Seq::<Seq<char>>::empty());
    }
    push_candidates(from, DEFAULT_SEARCH_STEPS, &mut out);
    proof {
        assert(out.deep_view() =~= candidate_paths(from@, DEFAULT_SEARCH_STEPS as nat));
    }
    out
}

/// Probe each candidate path; the answers depend on the filesystem.
fn probe_all(cands: &Vec<String>) -> (hits: Vec<bool>)
    ensures
        hits@.len() == cands@.len(),
{
    let mut hits: Vec<bool> = Vec::new();
    let n = cands.len();
    let mut i: usize = 0;
    while i < n
        invariant
            i <= n,
            n == cands@.len(),
            hits@.len() == i,
        decreases n - i,
    {
        hits.push(path_exists(cands[i].as_str()));
        i = i + 1;
    }
    hits
}

/// Index of the first hit among the probe answers: the earliest candidate
/// that was found, and none when nothing was.
pub fn first_hit(hits: &Vec<bool>) -> (r: Option<usize>)
    ensures
        match r {
            Option::Some(i) => i < hits@.len() && hits@[i as int] && forall|j: int|
                0 <= j < i ==> !hits@[j],
            Option::None => forall|j: int| 0 <= j < hits@.len() ==> !hits@[j],
        },
{
    let n = hits.len();
    let mut i: usize = 0;
    while i < n
        invariant
            i <= n,
            n == hits@.len(),
            forall|j: int| 0 <= j < i ==> !hits@[j],
        decreases n - i,
    {
        if hits[i] {
            return Option::Some(i);
        }
        i = i + 1;
    }
    Option::None
}

/// Nearest wins: when the first probe hit over the candidate list falls at
/// index `i`, every candidate of every strictly nearer ancestor — both the
/// preferred and the bare name — was absent.  The name preference order
/// never overrides ancestor nearness.
pub proof fn lemma_nearest_wins(from: Seq<char>, hops: nat, hits: Seq<bool>, i: int)
    requires
        hits.len() == candidate_paths(from, hops).len(),
        0 <= i < hits.len(),
        hits[i],
        forall|j: int| 0 <= j < i ==> !hits[j],
    ensures
        forall|d: int, k: int| 0 <= d < i / 2 && 0 <= k < 2 ==> !hits[#[trigger] (2 * d + k)],
        candidate_paths(from, hops)[i] == join_spec(
            ancestors_spec(from, hops)[i / 2],
            venv_names()[i % 2],
        ),
{
    lemma_candidates_by_depth(from, hops);
    assert(i == 2 * (i / 2) + (i % 2)) by (nonlinear_arith);
    assert(0 <= i / 2 < ancestors_spec(from, hops).len() && 0 <= i % 2 < 2) by (nonlinear_arith)
        requires
            0 <= i,
            hits.len() == 2 * ancestors_spec(from, hops).len(),
            i < hits.len(),
    ;
}

/// What an already-settled creation decides: nothing is left to do, or one
/// exact external command must be run.
#[derive(Debug)]
pub enum CreateDecision {
    /// The root path is already present: creation is a no-op.
    AlreadyPresent,
    /// The root is absent: run this command to create it.
    Invoke(CommandSpec),
}

/// Mathematical image of a `CreateDecision`.
pub enum CreateDecisionView {
    AlreadyPresent,
    Invoke(CommandSpecView),
}

impl View for CreateDecision {
    type V = CreateDecisionView;

    open spec fn view(&self) -> CreateDecisionView {
        match self {
            CreateDecision::AlreadyPresent => CreateDecisionView::AlreadyPresent,
            CreateDecision::Invoke(c) => CreateDecisionView::Invoke(c@),
        }
    }
}

/// The external command that creates the environment at `path`: the
/// system interpreter's venv module, run in the parent directory, handed
/// the environment's name.
pub open spec fn create_command_spec(path: Seq<char>) -> CommandSpecView
    recommends
        parent_spec(path) is Some,
        final_component_spec(path) is Some,
{
    CommandSpecView {
        program: seq!['p', 'y', 't', 'h', 'o', 'n'],
        args: seq![
            seq!['-', 'm'],
            seq!['v', 'e', 'n', 'v'],
            final_component_spec(path).unwrap(),
        ],
        cwd: parent_spec(path).unwrap(),
    }
}

/// Exactly what a creation decision for root `path`, with the root
/// `present` or not, must be.
pub open spec fn create_decision_matches(
    path: Seq<char>,
    present: bool,
    r: Result<CreateDecision, HuakError>,
) -> bool {
    if present {
        r == Result::<CreateDecision, HuakError>::Ok(CreateDecision::AlreadyPresent)
    } else {
        match r {
            Result::Ok(d) => parent_spec(path) is Some && final_component_spec(path) is Some
                && d@ == CreateDecisionView::Invoke(create_command_spec(path)),
            Result::Err(e) => e@ == HuakErrorView::InvalidPath && (parent_spec(path) is None
                || final_component_spec(path) is None),
        }
    }
}

impl Venv {
    /// A `Venv` at the given root path.
    pub fn new(path: String) -> (r: Venv)
        ensures
            r.path@ == path@,
    {
        Venv { path }
    }

    /// The environment's name: the final component of its root path.
    pub fn name(&self) -> (r: Result<String, HuakError>)
        ensures
            match r {
                Result::Ok(n) => final_component_spec(self.path@) == Some(n@),
                Result::Err(e) => e@ == HuakErrorView::InvalidPath && final_component_spec(
                    self.path@,
                ) is None,
            },
    {
        match final_component(self.path.as_str()) {
            Option::Some(n) => Result::Ok(n),
            Option::None => Result::Err(HuakError::InvalidPath),
        }
    }

    /// The directory holding the environment's runnable tools.
    pub fn bin_path(&self, platform: Platform) -> (r: String)
        ensures
            r@ == join_spec(self.path@, bin_dir_spec(platform)),
    {
        match platform {
            Platform::Windows => {
                let r = join_under(self.path.as_str(), WINDOWS_BIN_NAME);
                proof {
                    reveal_strlit("Scripts");
                    assert(WINDOWS_BIN_NAME@ =~= bin_dir_spec(Platform::Windows));
                }
                r
            },
            Platform::Other => {
                let r = join_under(self.path.as_str(), BIN_NAME);
                proof {
                    reveal_strlit("bin");
                    assert(BIN_NAME@ =~= bin_dir_spec(Platform::Other));
                }
                r
            },
        }
    }

    /// The path a module is expected at inside the executable directory.
    pub fn tool_path(&self, module: &str, platform: Platform) -> (r: String)
        ensures
            r@ == join_spec(join_spec(self.path@, bin_dir_spec(platform)), module@),
    {
        let bin = self.bin_path(platform);
        join_under(bin.as_str(), module)
    }

    /// Search `from` and then each successive parent, at most
    /// `DEFAULT_SEARCH_STEPS` hops, for an environment directory under a
    /// candidate name; the first candidate found at the nearest directory
    /// wins.  Fails with `VenvNotFound` carrying the searched root when no
    /// candidate within the bound was found.
    pub fn find(from: &str) -> (r: Result<Venv, HuakError>)
        ensures
            match r {
                Result::Ok(v) => exists|i: int|
                    0 <= i < candidate_paths(from@, DEFAULT_SEARCH_STEPS as nat).len()
                        && v.path@ == candidate_paths(from@, DEFAULT_SEARCH_STEPS as nat)[i],
                Result::Err(e) => e@ == HuakErrorView::VenvNotFound { from: from@ },
            },
    {
        let cands = search_candidates(from);
        let hits = probe_all(&cands);
        match first_hit(&hits) {
            Option::Some(i) => {
                let path = cands[i].clone();
                proof {
                    assert(path@ == cands.deep_view()[i as int]);
                }
                Result::Ok(Venv::new(path))
            },
            Option::None => Result::Err(
                HuakError::VenvNotFound { from: from.to_owned() },
            ),
        }
    }

    /// The creation decision for this root, given whether the root is
    /// already `present` on disk: present roots decide a no-op, absent
    /// ones decide the exact creation command — or `InvalidPath` when the
    /// root has no parent directory or no usable name.
    pub fn create_decision(&self, present: bool) -> (r: Result<CreateDecision, HuakError>)
        ensures
            create_decision_matches(self.path@, present, r),
    {
        if present {
            return Result::Ok(CreateDecision::AlreadyPresent);
        }
        match self.create_command() {
            Result::Ok(cmd) => Result::Ok(CreateDecision::Invoke(cmd)),
            Result::Err(e) => Result::Err(e),
        }
    }

    /// The exact external command that would create the environment at
    /// this root, or `InvalidPath` when the root has no parent directory
    /// or no usable name.
    pub fn create_command(&self) -> (r: Result<CommandSpec, HuakError>)
        ensures
            match r {
                Result::Ok(c) => parent_spec(self.path@) is Some && final_component_spec(
                    self.path@,
                ) is Some && c@ == create_command_spec(self.path@),
                Result::Err(e) => e@ == HuakErrorView::InvalidPath && (parent_spec(
                    self.path@,
                ) is None || final_component_spec(self.path@) is None),
            },
    {
        let parent = match parent_dir(self.path.as_str()) {
            Option::None => {
                return Result::Err(HuakError::InvalidPath);
            },
            Option::Some(p) => p,
        };
        let name = match final_component(self.path.as_str()) {
            Option::None => {
                return Result::Err(HuakError::InvalidPath);
            },
            Option::Some(n) => n,
        };
        let ghost name_view = name@;
        let mut args: Vec<String> = Vec::new();
        args.push("-m".to_owned());
        args.push("venv".to_owned());
        args.push(name);
        let cmd = CommandSpec { program: "python".to_owned(), args, cwd: parent };
        proof {
            reveal_strlit("-m");
            reveal_strlit("venv");
            reveal_strlit("python");
            assert(("-m")@ =~= seq!['-', 'm']);
            assert(("venv")@ =~= seq!['v', 'e', 'n', 'v']);
            assert(("python")@ =~= seq!['p', 'y', 't', 'h', 'o', 'n']);
            assert(cmd@.args =~= seq![("-m")@, ("venv")@, name_view]);
            assert(cmd@.args =~= create_command_spec(self.path@).args);
            assert(cmd@.program =~= create_command_spec(self.path@).program);
        }
        Result::Ok(cmd)
    }

    /// Decide creation of the environment at this root: probes the root on
    /// disk and settles on a no-op when it is already present — creation
    /// is idempotent — or on the exact external creation command
    /// otherwise.  The caller runs the command and reports its outcome to
    /// `create_outcome`.
    pub fn create(&self) -> (r: Result<CreateDecision, HuakError>)
        ensures
            exists|present: bool| create_decision_matches(self.path@, present, r),
    {
        let present = path_exists(self.path.as_str());
        let r = self.create_decision(present);
        proof {
            assert(create_decision_matches(self.path@, present, r));
        }
        r
    }
}

/// Creating an environment whose root is already present decides no work
/// at all: a second creation on a never-deleted root is a no-op.
pub proof fn lemma_create_idempotent(path: Seq<char>, r: Result<CreateDecision, HuakError>)
    requires
        create_decision_matches(path, true, r),
    ensures
        r == Result::<CreateDecision, HuakError>::Ok(CreateDecision::AlreadyPresent),
{
}

/// Map the outcome of the external creation command to the creation
/// result: success passes through, and any failure is wrapped as a
/// creation failure carrying the underlying cause when one is available.
pub fn create_outcome(outcome: RunOutcome) -> (r: Result<(), HuakError>)
    ensures
        match outcome {
            RunOutcome::Completed => r is Ok,
            RunOutcome::Failed { cause } => match r {
                Result::Ok(_) => false,
                Result::Err(e) => e@ == HuakErrorView::CreationFailed { cause: opt_view(cause) },
            },
        },
{
    match outcome {
        RunOutcome::Completed => Result::Ok(()),
        RunOutcome::Failed { cause } => Result::Err(HuakError::CreationFailed { cause }),
    }
}

impl Default for Venv {
    /// The environment under the default name in the current directory.
    fn default() -> (r: Venv)
        ensures
            r.path@ == DEFAULT_VENV_NAME@,
    {
        Venv { path: DEFAULT_VENV_NAME.to_owned() }
    }
}

/// Build a `Venv` at `path` together with its creation decision.
pub fn create_venv(path: String) -> (r: Result<(Venv, CreateDecision), HuakError>)
    ensures
        match r {
            Result::Ok((v, d)) => v.path@ == path@ && exists|present: bool|
                create_decision_matches(path@, present, Result::Ok(d)),
            Result::Err(e) => exists|present: bool|
                create_decision_matches(path@, present, Result::Err(e)),
        },
{
    let venv = Venv::new(path);
    match venv.create() {
        Result::Ok(d) => Result::Ok((venv, d)),
        Result::Err(e) => Result::Err(e),
    }
}

} // verus!
