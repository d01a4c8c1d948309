//! The environments that a thread selected, and the one that a turn would
//! work in.

use vstd::prelude::*;

use crate::absolute_path::AbsolutePathBuf;

verus! {

/// How far a selected environment has come.
#[derive(Clone, Copy, Debug, PartialEq, Eq, Structural)]
pub enum EnvironmentReadiness {
    /// It can be worked in.
    Ready,
    /// It is still connecting: whether it will be ready is open.
    Starting,
    /// No environment of that name is known, so it never becomes ready.
    Unknown,
}

/// A selected environment. The earlier one in a thread's list takes precedence.
#[derive(Debug, PartialEq, Eq)]
pub struct TurnEnvironment {
    pub environment_id: String,
    pub cwd: AbsolutePathBuf,
    pub workspace_roots: Vec<AbsolutePathBuf>,
    pub readiness: EnvironmentReadiness,
}

/// `environments[i]` is the first that is ready.
pub open spec fn is_first_ready(environments: Seq<TurnEnvironment>, i: int) -> bool {
    &&& 0 <= i < environments.len()
    &&& environments[i].readiness is Ready
    &&& forall|j: int| 0 <= j < i ==> !(#[trigger] environments[j].readiness is Ready)
}

/// Some environment is starting and none before it is ready, so that which one
/// comes first is not settled.
pub open spec fn starting_first(environments: Seq<TurnEnvironment>) -> bool {
    exists|i: int|
        #![trigger environments[i]]
        0 <= i < environments.len() && environments[i].readiness is Starting && forall|j: int|
            0 <= j < i ==> !(#[trigger] environments[j].readiness is Ready)
}

/// The directory of the first ready environment, if there is one.
pub open spec fn primary_cwd(environments: Seq<TurnEnvironment>) -> Option<AbsolutePathBuf>
    decreases environments.len(),
{
    if environments.len() == 0 {
        None
    } else if environments[0].readiness is Ready {
        Some(environments[0].cwd)
    } else {
        primary_cwd(environments.drop_first())
    }
}

/// [`primary_cwd`] names the directory of the first ready environment, and
/// nothing when none is ready.
pub proof fn primary_cwd_is_first_ready(environments: Seq<TurnEnvironment>)
    ensures
        forall|i: int|
            is_first_ready(environments, i) ==> primary_cwd(environments) == Some(
                #[trigger] environments[i].cwd,
            ),
        primary_cwd(environments) is None <==> forall|j: int|
            0 <= j < environments.len() ==> !(#[trigger] environments[j].readiness is Ready),
    decreases environments.len(),
{
    if environments.len() > 0 && !(environments[0].readiness is Ready) {
        let rest = environments.drop_first();
        primary_cwd_is_first_ready(rest);
        assert forall|i: int| is_first_ready(environments, i) implies primary_cwd(environments)
            == Some(#[trigger] environments[i].cwd) by {
            assert(rest[i - 1] == environments[i]);
            assert forall|j: int| 0 <= j < i - 1 implies !(#[trigger] rest[j].readiness is Ready) by {
                assert(rest[j] == environments[j + 1]);
            }
            assert(is_first_ready(rest, i - 1));
        }
        if primary_cwd(environments) is None {
            assert forall|j: int| 0 <= j < environments.len() implies !(
            #[trigger] environments[j].readiness is Ready) by {
                if j > 0 {
                    assert(rest[j - 1] == environments[j]);
                }
            }
        } else {
            let k = choose|j: int| 0 <= j < rest.len() && #[trigger] rest[j].readiness is Ready;
            assert(environments[k + 1] == rest[k]);
        }
    } else if environments.len() > 0 {
        assert forall|i: int| is_first_ready(environments, i) implies i == 0 by {
            if i > 0 {
                assert(environments[0].readiness is Ready);
            }
        }
    }
}

/// Whether an environment that is still starting comes before every ready one.
pub fn has_starting_first(environments: &Vec<TurnEnvironment>) -> (found: bool)
    ensures
        found == starting_first(environments@),
{
    for i in 0..environments.len()
        invariant
            forall|j: int| 0 <= j < i ==> (#[trigger] environments@[j]).readiness is Unknown,
    {
        match environments[i].readiness {
            EnvironmentReadiness::Ready => {
                assert(environments@[i as int].readiness is Ready);
                return false;
            },
            EnvironmentReadiness::Starting => {
                assert(environments@[i as int].readiness is Starting);
                return true;
            },
            EnvironmentReadiness::Unknown => {},
        }
    }
    false
}

/// The directory of the first ready environment, if there is one.
pub fn first_ready_cwd(environments: &Vec<TurnEnvironment>) -> (cwd: Option<AbsolutePathBuf>)
    ensures
        cwd == primary_cwd(environments@),
{
    proof {
        primary_cwd_is_first_ready(environments@);
    }
    for i in 0..environments.len()
        invariant
            forall|j: int|
                0 <= j < i ==> !((#[trigger] environments@[j]).readiness is Ready),
            forall|k: int|
                is_first_ready(environments@, k) ==> primary_cwd(environments@) == Some(
                    #[trigger] environments@[k].cwd,
                ),
            primary_cwd(environments@) is None <==> forall|j: int|
                0 <= j < environments@.len() ==> !(#[trigger] environments@[j].readiness is Ready),
    {
        if let EnvironmentReadiness::Ready = environments[i].readiness {
            assert(is_first_ready(environments@, i as int));
            return Some(environments[i].cwd.clone());
        }
    }
    None
}

} // verus!
