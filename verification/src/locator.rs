//! What every source of environments has in common.

use crate::messaging::{
    EnvManager, EnvManagerView, PythonEnvironment, PythonEnvironmentCategory,
    PythonEnvironmentView,
};
use crate::utils::PythonEnv;
use vstd::prelude::*;

verus! {

/// What one source found: the managers and the environments.
#[derive(Debug, PartialEq, Eq)]
pub struct LocatorResult {
    pub managers: Vec<EnvManager>,
    pub environments: Vec<PythonEnvironment>,
}

pub struct LocatorResultView {
    pub managers: Seq<EnvManagerView>,
    pub environments: Seq<PythonEnvironmentView>,
}

impl DeepView for LocatorResult {
    type V = LocatorResultView;

    open spec fn deep_view(&self) -> LocatorResultView {
        LocatorResultView {
            managers: self.managers.deep_view(),
            environments: self.environments.deep_view(),
        }
    }
}

/// The result that holds `managers` and `environments`, or nothing where both are empty.
pub open spec fn some_unless_empty(
    managers: Seq<EnvManagerView>,
    environments: Seq<PythonEnvironmentView>,
) -> Option<LocatorResultView> {
    if managers.len() == 0 && environments.len() == 0 {
        None
    } else {
        Some(LocatorResultView { managers, environments })
    }
}

/// `env` is of a kind that a manager looks after: pyenv or Conda.
pub open spec fn of_managed_kind(env: PythonEnvironmentView) -> bool {
    env.category == PythonEnvironmentCategory::Pyenv || env.category
        == PythonEnvironmentCategory::PyenvVirtualEnv || env.category
        == PythonEnvironmentCategory::Conda
}

/// `env` is on its own: it has no manager and is of no kind that has one.
pub open spec fn unmanaged(env: PythonEnvironmentView) -> bool {
    env.env_manager is None && !of_managed_kind(env)
}

/// `result` holds no manager: none of its own, and each environment is on its own.
pub open spec fn without_managers(result: Option<LocatorResultView>) -> bool {
    match result {
        None => true,
        Some(result) => result.managers.len() == 0 && forall|k: int|
            0 <= k < result.environments.len() ==> unmanaged(#[trigger] result.environments[k]),
    }
}

/// A source of environments. It can say whether one candidate is of its kind,
/// and it can look for everything of its kind without being told where.
pub trait Locator {
    /// The environment that the candidate `env` is, where it is of this kind.
    fn resolve(&self, env: &PythonEnv) -> Option<PythonEnvironment>;

    /// Everything of this kind. `None` where the kind is not on the machine at all.
    fn find(&mut self) -> Option<LocatorResult>;
}

/// A copy of `list`.
pub fn clone_managers(list: &Vec<EnvManager>) -> (r: Vec<EnvManager>)
    ensures
        r.deep_view() == list.deep_view(),
{
    let mut out: Vec<EnvManager> = Vec::new();
    let mut i: usize = 0;
    while i < list.len()
        invariant
            i <= list.len(),
            out.deep_view() == list.deep_view().take(i as int),
        decreases list.len() - i,
    {
        let ghost before = out.deep_view();
        out.push(list[i].clone());
        assert(out.deep_view() =~= before.push(list[i as int].deep_view()));
        i = i + 1;
        assert(out.deep_view() =~= list.deep_view().take(i as int));
    }
    assert(list.deep_view().take(list.len() as int) =~= list.deep_view());
    out
}

/// A copy of `list`.
pub fn clone_environments(list: &Vec<PythonEnvironment>) -> (r: Vec<PythonEnvironment>)
    ensures
        r.deep_view() == list.deep_view(),
{
    let mut out: Vec<PythonEnvironment> = Vec::new();
    let mut i: usize = 0;
    while i < list.len()
        invariant
            i <= list.len(),
            out.deep_view() == list.deep_view().take(i as int),
        decreases list.len() - i,
    {
        let ghost before = out.deep_view();
        out.push(list[i].clone());
        assert(out.deep_view() =~= before.push(list[i as int].deep_view()));
        i = i + 1;
        assert(out.deep_view() =~= list.deep_view().take(i as int));
    }
    assert(list.deep_view().take(list.len() as int) =~= list.deep_view());
    out
}

impl Clone for LocatorResult {
    fn clone(&self) -> (r: Self)
        ensures
            r.deep_view() == self.deep_view(),
    {
        LocatorResult {
            managers: clone_managers(&self.managers),
            environments: clone_environments(&self.environments),
        }
    }
}

} // verus!
