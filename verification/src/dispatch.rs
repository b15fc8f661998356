//! The command dispatcher: lazy provisioning and invocation of tools
//! inside an environment.
//!
//! Running a tool may first have to create the environment and install the
//! tool — invocation is deliberately not a read-only operation.  The
//! dispatcher is a small state machine: `next_action` probes the
//! filesystem and decides the next external command, the caller runs it
//! and reports how it went to `absorb`, and the stage field records where
//! the dispatch stands.  Every decision is pinned down; only the probe
//! answers and the run outcomes come from outside.
//!
//! The package manager is always invoked at its expected path inside the
//! environment's executable directory, which environment creation
//! provides.

use vstd::prelude::*;

use crate::command::{clone_string_vec, CommandSpec, CommandSpecView, RunOutcome, RunOutcomeView};
use crate::error::{DispatchStepKind, HuakError, HuakErrorView};
use crate::package::{install_arg_spec, PythonPackage};
use crate::paths::{final_component_spec, join_spec, parent_spec};
use crate::probe::path_exists;
use crate::venv::{bin_dir_spec, create_command_spec, Platform, Venv};

verus! {

/// Where a dispatch stands.
#[derive(Clone, Copy, PartialEq, Eq, Structural, Debug)]
pub enum Stage {
    /// Nothing has been decided yet; the environment must be ensured.
    Start,
    /// The creation command was issued; its outcome is awaited.
    Creating,
    /// The environment is ensured; the module's presence must be checked.
    CheckModule,
    /// The install command was issued; its outcome is awaited.
    Installing,
    /// The module is present or freshly installed; invoke it next.
    Ready,
    /// The module's own command was issued; its outcome is awaited.
    Running,
    /// The dispatch is over, successfully or not.
    Finished,
}

/// What the caller must do next.
#[derive(Debug)]
pub enum StepAction {
    /// Run this external command and report its outcome to `absorb`.
    Run(CommandSpec),
    /// Nothing external to do; ask `next_action` again.
    Proceed,
}

/// Mathematical image of a `StepAction`.
pub enum StepActionView {
    Run(CommandSpecView),
    Proceed,
}

impl View for StepAction {
    type V = StepActionView;

    open spec fn view(&self) -> StepActionView {
        match self {
            StepAction::Run(c) => StepActionView::Run(c@),
            StepAction::Proceed => StepActionView::Proceed,
        }
    }
}

/// One dispatch of a module inside an environment.
#[derive(Debug)]
pub struct Dispatch {
    /// The environment the module runs in.
    pub env: Venv,
    /// The module to run, also the package installed when it is missing.
    pub module: String,
    /// Arguments handed to the module.
    pub args: Vec<String>,
    /// Working directory for the module's own invocation.
    pub from: String,
    /// The caller's current directory: working directory for installs.
    pub cwd: String,
    /// Platform the executable directory name depends on.
    pub platform: Platform,
    /// Where the dispatch stands.
    pub stage: Stage,
}

/// Mathematical image of a `Dispatch`.
pub struct DispatchView {
    pub env: Seq<char>,
    pub module: Seq<char>,
    pub args: Seq<Seq<char>>,
    pub from: Seq<char>,
    pub cwd: Seq<char>,
    pub platform: Platform,
    pub stage: Stage,
}

impl View for Dispatch {
    type V = DispatchView;

    open spec fn view(&self) -> DispatchView {
        DispatchView {
            env: self.env.path@,
            module: self.module@,
            args: self.args.deep_view(),
            from: self.from@,
            cwd: self.cwd@,
            platform: self.platform,
            stage: self.stage,
        }
    }
}

/// The package manager's module name.
pub open spec fn pip_name() -> Seq<char> {
    seq!['p', 'i', 'p']
}

/// The path a module is expected at inside the executable directory.
pub open spec fn tool_path_spec(d: DispatchView, module: Seq<char>) -> Seq<char> {
    join_spec(join_spec(d.env, bin_dir_spec(d.platform)), module)
}

/// The command that installs the dispatched module: the environment's
/// package manager, run in the caller's current directory, handed the
/// bare module name — an unconstrained package descriptor.
pub open spec fn install_command_spec(d: DispatchView) -> CommandSpecView {
    CommandSpecView {
        program: tool_path_spec(d, pip_name()),
        args: seq![
            seq!['i', 'n', 's', 't', 'a', 'l', 'l'],
            install_arg_spec(d.module, Seq::<char>::empty()),
        ],
        cwd: d.cwd,
    }
}

/// The command that runs the dispatched module itself, in the caller's
/// chosen working directory.
pub open spec fn invoke_command_spec(d: DispatchView) -> CommandSpecView {
    CommandSpecView { program: tool_path_spec(d, d.module), args: d.args, cwd: d.from }
}

/// Both dispatches describe the same work; only the stage may differ.
pub open spec fn params_eq(a: DispatchView, b: DispatchView) -> bool {
    a.env == b.env && a.module == b.module && a.args == b.args && a.from == b.from && a.cwd
        == b.cwd && a.platform == b.platform
}

/// Stages in which `next_action` decides.
pub open spec fn expects_action(s: Stage) -> bool {
    s == Stage::Start || s == Stage::CheckModule || s == Stage::Ready
}

/// Stages in which an issued command's outcome is awaited by `absorb`.
pub open spec fn expects_outcome(s: Stage) -> bool {
    s == Stage::Creating || s == Stage::Installing || s == Stage::Running
}

/// The result carries no command: the caller should just ask again.
pub open spec fn r_is_proceed(r: Result<StepAction, HuakError>) -> bool {
    match r {
        Result::Ok(a) => a@ == StepActionView::Proceed,
        Result::Err(_) => false,
    }
}

/// The result tells the caller to run exactly the command `c`.
pub open spec fn r_is_run(r: Result<StepAction, HuakError>, c: CommandSpecView) -> bool {
    match r {
        Result::Ok(a) => a@ == StepActionView::Run(c),
        Result::Err(_) => false,
    }
}

/// Exactly what one `next_action` decision must be, given the probe's
/// answer `present` about the path the pre-stage examines.
pub open spec fn next_action_matches(
    pre: DispatchView,
    post: DispatchView,
    present: bool,
    r: Result<StepAction, HuakError>,
) -> bool {
    params_eq(pre, post) && match pre.stage {
        Stage::Start => if present {
            post.stage == Stage::CheckModule && r_is_proceed(r)
        } else {
            if parent_spec(pre.env) is Some && final_component_spec(pre.env) is Some {
                post.stage == Stage::Creating && r_is_run(r, create_command_spec(pre.env))
            } else {
                post.stage == Stage::Finished && match r {
                    Result::Ok(_) => false,
                    Result::Err(e) => e@ == HuakErrorView::InvalidPath,
                }
            }
        },
        Stage::CheckModule => if present {
            post.stage == Stage::Ready && r_is_proceed(r)
        } else {
            post.stage == Stage::Installing && r_is_run(r, install_command_spec(pre))
        },
        Stage::Ready => post.stage == Stage::Running && r_is_run(r, invoke_command_spec(pre)),
        _ => false,
    }
}

/// Exactly what absorbing one run outcome must do: a completed command
/// advances the dispatch, and a failed one ends it with the failure
/// wrapped and tagged with the step it belonged to.
pub open spec fn absorb_matches(
    pre: DispatchView,
    post: DispatchView,
    outcome: RunOutcomeView,
    r: Result<(), HuakError>,
) -> bool {
    params_eq(pre, post) && match pre.stage {
        Stage::Creating => match outcome {
            RunOutcomeView::Completed => post.stage == Stage::CheckModule && r is Ok,
            RunOutcomeView::Failed { cause } => post.stage == Stage::Finished && match r {
                Result::Ok(_) => false,
                Result::Err(e) => e@ == HuakErrorView::CreationFailed { cause },
            },
        },
        Stage::Installing => match outcome {
            RunOutcomeView::Completed => post.stage == Stage::Ready && r is Ok,
            RunOutcomeView::Failed { cause } => post.stage == Stage::Finished && match r {
                Result::Ok(_) => false,
                Result::Err(e) => e@ == HuakErrorView::ProcessFailed {
                    step: DispatchStepKind::Install,
                    cause,
                },
            },
        },
        Stage::Running => match outcome {
            RunOutcomeView::Completed => post.stage == Stage::Finished && r is Ok,
            RunOutcomeView::Failed { cause } => post.stage == Stage::Finished && match r {
                Result::Ok(_) => false,
                Result::Err(e) => e@ == HuakErrorView::ProcessFailed {
                    step: DispatchStepKind::Invoke,
                    cause,
                },
            },
        },
        _ => false,
    }
}

impl Dispatch {
    /// Decide the next step: probe the filesystem where the stage calls
    /// for it and hand back either a command to run or nothing to do.
    pub fn next_action(&mut self) -> (r: Result<StepAction, HuakError>)
        requires
            expects_action(old(self)@.stage),
        ensures
            exists|present: bool| next_action_matches(old(self)@, final(self)@, present, r),
    {
        match self.stage {
            Stage::Start => {
                let present = path_exists(self.env.path.as_str());
                if present {
                    self.stage = Stage::CheckModule;
                    let r = Result::Ok(StepAction::Proceed);
                    proof {
                        assert(next_action_matches(old(self)@, self@, true, r));
                    }
                    r
                } else {
                    match self.env.create_command() {
                        Result::Ok(cmd) => {
                            self.stage = Stage::Creating;
                            let r = Result::Ok(StepAction::Run(cmd));
                            proof {
                                assert(next_action_matches(old(self)@, self@, false, r));
                            }
                            r
                        },
                        Result::Err(e) => {
                            self.stage = Stage::Finished;
                            let r = Result::Err(e);
                            proof {
                                assert(next_action_matches(old(self)@, self@, false, r));
                            }
                            r
                        },
                    }
                }
            },
            Stage::CheckModule => {
                let path = self.env.tool_path(self.module.as_str(), self.platform);
                let present = path_exists(path.as_str());
                if present {
                    self.stage = Stage::Ready;
                    let r = Result::Ok(StepAction::Proceed);
                    proof {
                        assert(next_action_matches(old(self)@, self@, true, r));
                    }
                    r
                } else {
                    let cmd = self.install_command();
                    self.stage = Stage::Installing;
                    let r = Result::Ok(StepAction::Run(cmd));
                    proof {
                        assert(next_action_matches(old(self)@, self@, false, r));
                    }
                    r
                }
            },
            _ => {
                let cmd = self.invoke_command();
                self.stage = Stage::Running;
                let r = Result::Ok(StepAction::Run(cmd));
                proof {
                    assert(next_action_matches(old(self)@, self@, true, r));
                }
                r
            },
        }
    }

    /// Take in the outcome of the command `next_action` issued.
    pub fn absorb(&mut self, outcome: RunOutcome) -> (r: Result<(), HuakError>)
        requires
            expects_outcome(old(self)@.stage),
        ensures
            absorb_matches(old(self)@, final(self)@, outcome@, r),
    {
        match self.stage {
            Stage::Creating => match outcome {
                RunOutcome::Completed => {
                    self.stage = Stage::CheckModule;
                    Result::Ok(())
                },
                RunOutcome::Failed { cause } => {
                    self.stage = Stage::Finished;
                    Result::Err(HuakError::CreationFailed { cause })
                },
            },
            Stage::Installing => match outcome {
                RunOutcome::Completed => {
                    self.stage = Stage::Ready;
                    Result::Ok(())
                },
                RunOutcome::Failed { cause } => {
                    self.stage = Stage::Finished;
                    Result::Err(
                        HuakError::ProcessFailed { step: DispatchStepKind::Install, cause },
                    )
                },
            },
            _ => match outcome {
                RunOutcome::Completed => {
                    self.stage = Stage::Finished;
                    Result::Ok(())
                },
                RunOutcome::Failed { cause } => {
                    self.stage = Stage::Finished;
                    Result::Err(
                        HuakError::ProcessFailed { step: DispatchStepKind::Invoke, cause },
                    )
                },
            },
        }
    }

    /// The exact install command for the dispatched module.
    fn install_command(&self) -> (c: CommandSpec)
        ensures
            c@ == install_command_spec(self@),
    {
        let program = self.env.tool_path("pip", self.platform);
        let package = PythonPackage::new(self.module.clone());
        let arg = package.install_arg();
        let ghost arg_view = arg@;
        let mut args: Vec<String> = Vec::new();
        args.push("install".to_owned());
        args.push(arg);
        let c = CommandSpec { program, args, cwd: self.cwd.clone() };
        proof {
            reveal_strlit("pip");
            reveal_strlit("install");
            assert(("pip")@ =~= pip_name());
            assert(("install")@ =~= seq!['i', 'n', 's', 't', 'a', 'l', 'l']);
            assert(c@.args =~= seq![("install")@, arg_view]);
            assert(c@.args =~= install_command_spec(self@).args);
        }
        c
    }

    /// The exact invocation command for the dispatched module.
    fn invoke_command(&self) -> (c: CommandSpec)
        ensures
            c@ == invoke_command_spec(self@),
    {
        let program = self.env.tool_path(self.module.as_str(), self.platform);
        let args = clone_string_vec(&self.args);
        let c = CommandSpec { program, args, cwd: self.from.clone() };
        c
    }
}

impl Venv {
    /// Begin dispatching `module` with `args` inside this environment: the
    /// module will run with working directory `from`, installs run in the
    /// caller's current directory `cwd`.  The caller drives the returned
    /// dispatch with `next_action` and `absorb` until its stage is
    /// `Finished`; missing environments and missing modules are
    /// provisioned on the way, so merely running a tool may create
    /// directories and install packages.
    pub fn exec_module(
        &self,
        module: String,
        args: Vec<String>,
        from: String,
        cwd: String,
        platform: Platform,
    ) -> (d: Dispatch)
        ensures
            d@ == (DispatchView {
                env: self.path@,
                module: module@,
                args: args.deep_view(),
                from: from@,
                cwd: cwd@,
                platform,
                stage: Stage::Start,
            }),
    {
        Dispatch {
            env: Venv::new(self.path.clone()),
            module,
            args,
            from,
            cwd,
            platform,
            stage: Stage::Start,
        }
    }

    /// Begin installing a package into this environment: dispatch the
    /// package manager with the exactly pinned install argument, in the
    /// caller's current directory.
    pub fn install_package(&self, package: &PythonPackage, cwd: String, platform: Platform) -> (d:
        Dispatch)
        ensures
            d@ == (DispatchView {
                env: self.path@,
                module: pip_name(),
                args: seq![
                    seq!['i', 'n', 's', 't', 'a', 'l', 'l'],
                    install_arg_spec(package.name@, package.version@),
                ],
                from: cwd@,
                cwd: cwd@,
                platform,
                stage: Stage::Start,
            }),
    {
        let arg = package.install_arg();
        let ghost arg_view = arg@;
        let mut args: Vec<String> = Vec::new();
        args.push("install".to_owned());
        args.push(arg);
        let d = Dispatch {
            env: Venv::new(self.path.clone()),
            module: "pip".to_owned(),
            args,
            from: cwd.clone(),
            cwd,
            platform,
            stage: Stage::Start,
        };
        proof {
            reveal_strlit("pip");
            reveal_strlit("install");
            assert(("pip")@ =~= pip_name());
            assert(("install")@ =~= seq!['i', 'n', 's', 't', 'a', 'l', 'l']);
            assert(d@.args =~= seq![("install")@, arg_view]);
            assert(d@.args =~= seq![
                seq!['i', 'n', 's', 't', 'a', 'l', 'l'],
                install_arg_spec(package.name@, package.version@),
            ]);
        }
        d
    }

    /// Begin uninstalling a package from this environment: dispatch the
    /// package manager with the package name and the non-interactive
    /// confirmation flag, in the caller's current directory.
    pub fn uninstall_package(&self, name: &str, cwd: String, platform: Platform) -> (d: Dispatch)
        ensures
            d@ == (DispatchView {
                env: self.path@,
                module: pip_name(),
                args: seq![
                    seq!['u', 'n', 'i', 'n', 's', 't', 'a', 'l', 'l'],
                    name@,
                    seq!['-', 'y'],
                ],
                from: cwd@,
                cwd: cwd@,
                platform,
                stage: Stage::Start,
            }),
    {
        let mut args: Vec<String> = Vec::new();
        args.push("uninstall".to_owned());
        args.push(name.to_owned());
        args.push("-y".to_owned());
        let d = Dispatch {
            env: Venv::new(self.path.clone()),
            module: "pip".to_owned(),
            args,
            from: cwd.clone(),
            cwd,
            platform,
            stage: Stage::Start,
        };
        proof {
            reveal_strlit("pip");
            reveal_strlit("uninstall");
            reveal_strlit("-y");
            assert(("pip")@ =~= pip_name());
            assert(("uninstall")@ =~= seq!['u', 'n', 'i', 'n', 's', 't', 'a', 'l', 'l']);
            assert(("-y")@ =~= seq!['-', 'y']);
            assert(d@.args =~= seq![("uninstall")@, name@, ("-y")@]);
            assert(d@.args =~= seq![
                seq!['u', 'n', 'i', 'n', 's', 't', 'a', 'l', 'l'],
                name@,
                seq!['-', 'y'],
            ]);
        }
        d
    }
}

/// How far along a dispatch is; every step strictly advances it.
pub open spec fn stage_rank(s: Stage) -> int {
    match s {
        Stage::Start => 0,
        Stage::Creating => 1,
        Stage::CheckModule => 2,
        Stage::Installing => 3,
        Stage::Ready => 4,
        Stage::Running => 5,
        Stage::Finished => 6,
    }
}

/// Every decision strictly advances the dispatch, so each stage is passed
/// at most once: in particular at most one install attempt is ever made,
/// and none after the module was found or installed.
pub proof fn lemma_dispatch_advances(
    pre: DispatchView,
    post: DispatchView,
    present: bool,
    r: Result<StepAction, HuakError>,
)
    requires
        next_action_matches(pre, post, present, r),
    ensures
        stage_rank(post.stage) > stage_rank(pre.stage),
{
}

/// Absorbing an outcome strictly advances the dispatch as well.
pub proof fn lemma_absorb_advances(
    pre: DispatchView,
    post: DispatchView,
    outcome: RunOutcomeView,
    r: Result<(), HuakError>,
)
    requires
        absorb_matches(pre, post, outcome, r),
    ensures
        stage_rank(post.stage) > stage_rank(pre.stage),
{
}

/// A module already present under the executable directory is invoked
/// with zero install attempts: the presence check proceeds straight to
/// `Ready`, whose only decision is the module's own invocation.
pub proof fn lemma_no_install_when_present(
    pre: DispatchView,
    post: DispatchView,
    r: Result<StepAction, HuakError>,
)
    requires
        pre.stage == Stage::CheckModule,
        next_action_matches(pre, post, true, r),
    ensures
        post.stage == Stage::Ready && r_is_proceed(r),
        forall|post2: DispatchView, pr2: bool, r2: Result<StepAction, HuakError>|
            next_action_matches(post, post2, pr2, r2) ==> r_is_run(r2, invoke_command_spec(post))
                && post2.stage == Stage::Running,
{
}

/// A module not yet present is installed exactly once before its
/// invocation: the presence check issues the install command, and after a
/// successful install the only decision left is the module's invocation.
pub proof fn lemma_one_install_when_missing(
    pre: DispatchView,
    post: DispatchView,
    r: Result<StepAction, HuakError>,
)
    requires
        pre.stage == Stage::CheckModule,
        next_action_matches(pre, post, false, r),
    ensures
        post.stage == Stage::Installing && r_is_run(r, install_command_spec(pre)),
        forall|post2: DispatchView, r2: Result<(), HuakError>|
            absorb_matches(post, post2, RunOutcomeView::Completed, r2) ==> post2.stage
                == Stage::Ready,
        forall|post2: DispatchView, r2: Result<(), HuakError>, post3: DispatchView, pr3: bool, r3: Result<StepAction, HuakError>|
            absorb_matches(post, post2, RunOutcomeView::Completed, r2) && next_action_matches(
                post2,
                post3,
                pr3,
                r3,
            ) ==> r_is_run(r3, invoke_command_spec(post2)) && post3.stage == Stage::Running,
{
}

} // verus!
