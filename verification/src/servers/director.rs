//! The director: reconciles the projectors recorded in the repository with the
//! projectors found running on the machine.

use vstd::prelude::*;

use crate::projector::{ProjectorEntity, ProjectorStatus};

verus! {

/// What to do with a directory found under the projectors' root.
#[derive(Debug)]
pub enum ProjectorDirAction {
    /// The directory holds no pidfile: leave it alone.
    Ignore,
    /// The pidfile names a process that no longer exists: remove the directory.
    Remove,
    /// The pidfile names a running process: this projector is running.
    Running(ProjectorEntity),
}

/// Decides what a directory under the projectors' root means: `pid` is the
/// process id its pidfile names (if it holds one) and `alive` whether a
/// process with that id exists.  The directory's name is the namespace.
pub fn projector_dir_action(namespace: &str, root: &str, pid: Option<i32>, alive: bool) -> (a:
    ProjectorDirAction)
    ensures
        match pid {
            None => a is Ignore,
            Some(p) => if alive {
                a matches ProjectorDirAction::Running(e) && e.namespace_spec() == namespace@
                    && e.id_spec() == namespace@ && e.root_spec() == root@ && e.status_spec()
                    == ProjectorStatus::Running(p as u32)
            } else {
                a is Remove
            },
        },
{
    match pid {
        None => ProjectorDirAction::Ignore,
        Some(p) => if alive {
            let mut e = ProjectorEntity::new(namespace, root);
            e.set_status(ProjectorStatus::Running(p as u32));
            ProjectorDirAction::Running(e)
        } else {
            ProjectorDirAction::Remove
        },
    }
}

/// Errors reported by the director.
#[derive(Debug)]
pub enum DirectorError {
    /// A projector could not be spawned (a description).
    ProjectorSpawn(String),
    /// A projector could not be terminated (a description).
    ProjectorTermination(String),
    /// A subroutine could not be spawned (a description).
    SubroutineSpawn(String),
    /// A subroutine could not be terminated (a description).
    SubroutineTermination(String),
    /// Something unexpected happened (a description).
    Unexpected(String),
}

/// Position of the first projector of `s` with the given status, or -1.
pub open spec fn first_with_status(s: Seq<ProjectorEntity>, st: ProjectorStatus) -> int
    decreases s.len(),
{
    if s.len() == 0 {
        -1
    } else if s[0].status_spec() == st {
        0
    } else {
        let r = first_with_status(s.drop_first(), st);
        if r < 0 {
            -1
        } else {
            r + 1
        }
    }
}

/// Reconciliation, one running projector at a time, taken from the back of
/// `running`: a running projector whose status matches a recorded one claims
/// the first such record; one that matches none is an orphan.  Yields the
/// orphans, in the order they were taken, and the records left unclaimed.
pub open spec fn reconcile(repo: Seq<ProjectorEntity>, running: Seq<ProjectorEntity>) -> (Seq<
    ProjectorEntity,
>, Seq<ProjectorEntity>)
    decreases running.len(),
{
    if running.len() == 0 {
        (Seq::empty(), repo)
    } else {
        let r = running.last();
        let i = first_with_status(repo, r.status_spec());
        if i >= 0 {
            reconcile(repo.remove(i), running.drop_last())
        } else {
            let (orphans, left) = reconcile(repo, running.drop_last());
            (seq![r] + orphans, left)
        }
    }
}

/// Reconciliation accounts for every running projector and keeps only what it was given:
/// each running projector either claims a record or is an orphan; the records left
/// unclaimed come from the repository and the orphans from the machine; no orphan has
/// the status of a record left unclaimed; with nothing running every record is left
/// unclaimed, and with nothing recorded every running projector is an orphan.
pub proof fn lemma_reconcile(repo: Seq<ProjectorEntity>, running: Seq<ProjectorEntity>)
    ensures
        reconcile(repo, running).0.len() + (repo.len() - reconcile(repo, running).1.len())
            == running.len(),
        forall|p: ProjectorEntity| #[trigger] reconcile(repo, running).1.contains(p) ==> repo.contains(p),
        forall|o: ProjectorEntity| #[trigger] reconcile(repo, running).0.contains(o) ==> running.contains(o),
        forall|a: int, b: int|
            0 <= a < reconcile(repo, running).0.len() && 0 <= b < reconcile(repo, running).1.len()
                ==> (#[trigger] reconcile(repo, running).0[a]).status_spec() != (
            #[trigger] reconcile(repo, running).1[b]).status_spec(),
        running.len() == 0 ==> reconcile(repo, running) == (Seq::<ProjectorEntity>::empty(), repo),
        repo.len() == 0 ==> reconcile(repo, running) == (running.reverse(), repo),
    decreases running.len(),
{
    if running.len() > 0 {
        let r = running.last();
        let rest = running.drop_last();
        let i = first_with_status(repo, r.status_spec());
        lemma_first_with_status_bounds(repo, r.status_spec());
        assert forall|o: ProjectorEntity| rest.contains(o) implies running.contains(o) by {
            let j = choose|j: int| 0 <= j < rest.len() && rest[j] == o;
            assert(running[j] == rest[j]);
        }
        assert(running.contains(r)) by {
            assert(running[running.len() - 1] == r);
        }
        if i >= 0 {
            let repo2 = repo.remove(i);
            lemma_reconcile(repo2, rest);
            assert forall|p: ProjectorEntity| repo2.contains(p) implies repo.contains(p) by {
                let j = choose|j: int| 0 <= j < repo2.len() && repo2[j] == p;
                if j < i {
                    assert(repo[j] == repo2[j]);
                } else {
                    assert(repo[j + 1] == repo2[j]);
                }
            }
        } else {
            lemma_reconcile(repo, rest);
            let (orph, left) = reconcile(repo, rest);
            let o2 = seq![r] + orph;
            assert(reconcile(repo, running) == (o2, left));
            assert forall|o: ProjectorEntity| o2.contains(o) implies running.contains(o) by {
                let j = choose|j: int| 0 <= j < o2.len() && o2[j] == o;
                if j > 0 {
                    assert(orph[j - 1] == o2[j]);
                    assert(orph.contains(o));
                }
            }
            assert forall|a: int, b: int| 0 <= a < o2.len() && 0 <= b < left.len() implies (
            #[trigger] o2[a]).status_spec() != (#[trigger] left[b]).status_spec() by {
                if a == 0 {
                    assert(left.contains(left[b]));
                    assert(repo.contains(left[b]));
                    let j = choose|j: int| 0 <= j < repo.len() && repo[j] == left[b];
                    assert(repo[j].status_spec() != r.status_spec());
                } else {
                    assert(o2[a] == orph[a - 1]);
                }
            }
            if repo.len() == 0 {
                assert(running.reverse() == seq![r] + rest.reverse());
            }
        }
    }
}

/// No two records share a status.
pub open spec fn statuses_distinct(repo: Seq<ProjectorEntity>) -> bool {
    forall|a: int, b: int|
        0 <= a < repo.len() && 0 <= b < repo.len() && a != b ==> (#[trigger] repo[a]).status_spec() != (
        #[trigger] repo[b]).status_spec()
}

/// No running projector has the given status.
pub open spec fn unmatched(running: Seq<ProjectorEntity>, st: ProjectorStatus) -> bool {
    forall|j: int| 0 <= j < running.len() ==> (#[trigger] running[j]).status_spec() != st
}

/// When no two records share a status, the records whose deletion the
/// reconciliation asks for are exactly the records that no running projector
/// matches by status.
pub proof fn lemma_reconcile_deletes_unmatched(repo: Seq<ProjectorEntity>, running: Seq<ProjectorEntity>)
    requires
        statuses_distinct(repo),
    ensures
        forall|p: ProjectorEntity|
            #[trigger] reconcile(repo, running).1.contains(p) <==> (repo.contains(p) && unmatched(
                running,
                p.status_spec(),
            )),
    decreases running.len(),
{
    if running.len() == 0 {
        assert forall|p: ProjectorEntity| #[trigger] reconcile(repo, running).1.contains(p) <==> (repo.contains(p)
            && unmatched(running, p.status_spec())) by {}
    } else {
        let r = running.last();
        let rest = running.drop_last();
        let i = first_with_status(repo, r.status_spec());
        lemma_first_with_status_bounds(repo, r.status_spec());
        if i >= 0 {
            let repo2 = repo.remove(i);
            assert(statuses_distinct(repo2)) by {
                assert forall|a: int, b: int|
                    0 <= a < repo2.len() && 0 <= b < repo2.len() && a != b implies (#[trigger] repo2[a]).status_spec()
                    != (#[trigger] repo2[b]).status_spec() by {
                    let a2 = if a < i { a } else { a + 1 };
                    let b2 = if b < i { b } else { b + 1 };
                    assert(repo2[a] == repo[a2] && repo2[b] == repo[b2]);
                }
            }
            lemma_reconcile_deletes_unmatched(repo2, rest);
            assert(reconcile(repo, running) == reconcile(repo2, rest));
            assert forall|p: ProjectorEntity| #[trigger] reconcile(repo, running).1.contains(p) <==> (repo.contains(p)
                && unmatched(running, p.status_spec())) by {
                if repo2.contains(p) && unmatched(rest, p.status_spec()) {
                    let j = choose|j: int| 0 <= j < repo2.len() && repo2[j] == p;
                    let j2 = if j < i { j } else { j + 1 };
                    assert(repo[j2] == p);
                    assert(j2 != i);
                    assert(p.status_spec() != r.status_spec());
                    assert forall|q: int| 0 <= q < running.len() implies (#[trigger] running[q]).status_spec()
                        != p.status_spec() by {
                        if q < rest.len() {
                            assert(running[q] == rest[q]);
                        }
                    }
                }
                if repo.contains(p) && unmatched(running, p.status_spec()) {
                    let j = choose|j: int| 0 <= j < repo.len() && repo[j] == p;
                    assert(running[running.len() - 1] == r);
                    assert(j != i);
                    let j2 = if j < i { j } else { j - 1 };
                    assert(repo2[j2] == p);
                    assert forall|q: int| 0 <= q < rest.len() implies (#[trigger] rest[q]).status_spec()
                        != p.status_spec() by {
                        assert(running[q] == rest[q]);
                    }
                }
            }
        } else {
            lemma_reconcile_deletes_unmatched(repo, rest);
            assert(reconcile(repo, running).1 == reconcile(repo, rest).1);
            assert forall|p: ProjectorEntity| #[trigger] reconcile(repo, running).1.contains(p) <==> (repo.contains(p)
                && unmatched(running, p.status_spec())) by {
                if repo.contains(p) && unmatched(rest, p.status_spec()) {
                    let j = choose|j: int| 0 <= j < repo.len() && repo[j] == p;
                    assert(repo[j].status_spec() != r.status_spec());
                    assert forall|q: int| 0 <= q < running.len() implies (#[trigger] running[q]).status_spec()
                        != p.status_spec() by {
                        if q < rest.len() {
                            assert(running[q] == rest[q]);
                        }
                    }
                }
                if repo.contains(p) && unmatched(running, p.status_spec()) {
                    assert forall|q: int| 0 <= q < rest.len() implies (#[trigger] rest[q]).status_spec()
                        != p.status_spec() by {
                        assert(running[q] == rest[q]);
                    }
                }
            }
        }
    }
}

/// What the director does to bring the repository in line with the machine.
#[derive(Debug)]
pub struct SyncPlan {
    /// running projectors with no record: to be terminated, in this order
    pub terminate: Vec<ProjectorEntity>,
    /// recorded projectors that are not running: their records are to be deleted
    pub delete: Vec<ProjectorEntity>,
}

proof fn lemma_first_with_status(s: Seq<ProjectorEntity>, st: ProjectorStatus, i: int)
    requires
        0 <= i <= s.len(),
        forall|j: int| 0 <= j < i ==> (#[trigger] s[j]).status_spec() != st,
    ensures
        i < s.len() && s[i].status_spec() == st ==> first_with_status(s, st) == i,
        i == s.len() ==> first_with_status(s, st) == -1,
        first_with_status(s, st) == -1 || i <= first_with_status(s, st) < s.len(),
    decreases i,
{
    if i > 0 {
        let t = s.drop_first();
        assert forall|j: int| 0 <= j < i - 1 implies (#[trigger] t[j]).status_spec() != st by {
            assert(t[j] == s[j + 1]);
        }
        lemma_first_with_status(t, st, i - 1);
        assert(s[0].status_spec() != st);
    } else if s.len() > 0 {
        if s[0].status_spec() != st {
            lemma_first_with_status_bounds(s.drop_first(), st);
        }
    }
}

proof fn lemma_first_with_status_bounds(s: Seq<ProjectorEntity>, st: ProjectorStatus)
    ensures
        first_with_status(s, st) == -1 || (0 <= first_with_status(s, st) < s.len() && s[first_with_status(
            s,
            st,
        )].status_spec() == st),
        first_with_status(s, st) == -1 ==> forall|j: int| 0 <= j < s.len() ==> (#[trigger] s[j]).status_spec()
            != st,
    decreases s.len(),
{
    if s.len() > 0 && s[0].status_spec() != st {
        let t = s.drop_first();
        lemma_first_with_status_bounds(t, st);
        if first_with_status(t, st) >= 0 {
            assert(s[first_with_status(t, st) + 1] == t[first_with_status(t, st)]);
        } else {
            assert forall|j: int| 0 <= j < s.len() implies (#[trigger] s[j]).status_spec() != st by {
                if j > 0 {
                    assert(s[j] == t[j - 1]);
                }
            }
        }
    }
}

/// Position of the first projector of `s` with the given status.
fn position_with_status(s: &Vec<ProjectorEntity>, st: ProjectorStatus) -> (r: Option<usize>)
    ensures
        match r {
            Some(i) => first_with_status(s@, st) == i as int && i < s@.len(),
            None => first_with_status(s@, st) == -1,
        },
{
    let mut i: usize = 0;
    while i < s.len()
        invariant
            i <= s@.len(),
            forall|j: int| 0 <= j < i ==> (#[trigger] s@[j]).status_spec() != st,
        decreases s@.len() - i,
    {
        if s[i].status() == st {
            proof {
                lemma_first_with_status(s@, st, i as int);
            }
            return Some(i);
        }
        i += 1;
    }
    proof {
        lemma_first_with_status(s@, st, i as int);
    }
    None
}

/// Works out which running projectors are orphans (no record claims them) and
/// which records describe projectors that are no longer running.
pub fn plan_projector_sync(repo_projectors: Vec<ProjectorEntity>, running: Vec<ProjectorEntity>) -> (plan:
    SyncPlan)
    ensures
        (plan.terminate@, plan.delete@) == reconcile(repo_projectors@, running@),
{
    let mut repo = repo_projectors;
    let mut running = running;
    let mut terminate: Vec<ProjectorEntity> = Vec::new();
    let ghost repo0 = repo@;
    let ghost running0 = running@;
    while running.len() > 0
        invariant
            (terminate@ + reconcile(repo@, running@).0, reconcile(repo@, running@).1) == reconcile(
                repo0,
                running0,
            ),
        decreases running@.len(),
    {
        let r = running.pop().unwrap();
        let ghost before_repo = repo@;
        let ghost before_running = running@.push(r);
        assert(before_running.drop_last() == running@);
        assert(before_running.last() == r);
        match position_with_status(&repo, r.status()) {
            Some(i) => {
                repo.remove(i);
            },
            None => {
                proof {
                    assert(terminate@.push(r) + reconcile(repo@, running@).0 == terminate@ + (seq![r]
                        + reconcile(repo@, running@).0));
                }
                terminate.push(r);
            },
        }
    }
    SyncPlan { terminate, delete: repo }
}

} // verus!
