//! External command descriptions and outcomes.
//!
//! The library never spawns a process itself: it produces `CommandSpec`
//! values describing exactly what to run and where, and consumes
//! `RunOutcome` values reporting how such a run went.

use vstd::prelude::*;

verus! {

/// An external command: a program, its arguments, and the working
/// directory it must run in.
#[derive(Debug)]
pub struct CommandSpec {
    pub program: String,
    pub args: Vec<String>,
    pub cwd: String,
}

/// Mathematical image of a `CommandSpec`.
pub struct CommandSpecView {
    pub program: Seq<char>,
    pub args: Seq<Seq<char>>,
    pub cwd: Seq<char>,
}

impl View for CommandSpec {
    type V = CommandSpecView;

    open spec fn view(&self) -> CommandSpecView {
        CommandSpecView {
            program: self.program@,
            args: self.args.deep_view(),
            cwd: self.cwd@,
        }
    }
}

/// How a spawned command ended: it ran and exited successfully, or it
/// failed — with the underlying cause, when one is available.
#[derive(Debug)]
pub enum RunOutcome {
    Completed,
    Failed { cause: Option<String> },
}

/// Mathematical image of a `RunOutcome`.
pub enum RunOutcomeView {
    Completed,
    Failed { cause: Option<Seq<char>> },
}

/// View of an optional owned string.
pub open spec fn opt_view(o: Option<String>) -> Option<Seq<char>> {
    match o {
        Option::None => Option::None,
        Option::Some(s) => Option::Some(s@),
    }
}

/// Clone a vector of strings, keeping its contents.
pub fn clone_string_vec(v: &Vec<String>) -> (r: Vec<String>)
    ensures
        r.deep_view() == v.deep_view(),
{
    let mut r: Vec<String> = Vec::new();
    let n = v.len();
    let mut i: usize = 0;
    while i < n
        invariant
            i <= n,
            n == v@.len(),
            r@.len() == i,
            forall|j: int| 0 <= j < i ==> r.deep_view()[j] == v.deep_view()[j],
        decreases n - i,
    {
        let ghost prev = r@;
        let x = v[i].clone();
        let ghost xv = x@;
        r.push(x);
        proof {
            assert(r@ == prev.push(x));
            assert forall|j: int| 0 <= j <= i implies r.deep_view()[j] == v.deep_view()[j] by {
                if j < i {
                    assert(r@[j] == prev[j]);
                } else {
                    assert(r@[j]@ == xv);
                }
            }
        }
        i = i + 1;
    }
    proof {
        assert(r.deep_view() =~= v.deep_view());
    }
    r
}

impl View for RunOutcome {
    type V = RunOutcomeView;

    open spec fn view(&self) -> RunOutcomeView {
        match self {
            RunOutcome::Completed => RunOutcomeView::Completed,
            RunOutcome::Failed { cause } => RunOutcomeView::Failed { cause: opt_view(*cause) },
        }
    }
}

} // verus!
