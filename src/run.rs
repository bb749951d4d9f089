use vstd::prelude::*;

use crate::metadata::{MetaRecord, MetaStatus, Metadata};
use crate::plan::{
    Direction, direction_of, is_plan, latest_of, latest_version, plan_steps, version_after,
    version_when_done,
};

verus! {

/// What the driver of a run does next.
#[derive(Debug, Clone, Copy, PartialEq, Eq, Structural)]
pub enum Action {
    /// Apply `up` of the migration at this position of the list.
    Up(usize),
    /// Apply `down` of the migration at this position of the list.
    Down(usize),
    /// The run is over and succeeded.
    Done,
    /// The run stopped on the failing step.
    Failed,
}

/// The action that applies the migration at position `p` in direction `d`.
pub open spec fn step_action(d: Direction, p: usize) -> Action {
    match d {
        Direction::Up => Action::Up(p),
        Direction::Down => Action::Down(p),
    }
}

/// The target of a step up from `current`: one above it while it is below
/// the latest version of the list, else `current` itself (nothing to do).
pub open spec fn next_target(versions: Seq<i32>, current: i32) -> i32 {
    if current >= latest_of(versions) {
        current
    } else {
        (current + 1) as i32
    }
}

/// The target of a step down from `current`: one below it while it is
/// above 0, else `current` itself (nothing to do).
pub open spec fn prev_target(current: i32) -> i32 {
    if current <= 0 {
        current
    } else {
        (current - 1) as i32
    }
}

/// A run from the metadata's version to a target: the migrations it applies,
/// in order, and how many of them have completed. The run decides; its driver
/// applies each migration it asks for and reports how that went.
pub struct MigrationRun {
    direction: Direction,
    steps: Vec<usize>,
    reached: Vec<i32>,
    next: usize,
    awaiting: bool,
    versions: Ghost<Seq<i32>>,
    current: Ghost<i32>,
    target: Ghost<i32>,
}

/// What starting a run towards `target` over `versions` does: `before` and
/// `after` are the metadata's record around the call, `run` and `a` its result.
pub open spec fn started(
    versions: Seq<i32>,
    target: i32,
    before: MetaRecord,
    after: MetaRecord,
    run: MigrationRun,
    a: Action,
) -> bool {
    &&& run.versions() == versions
    &&& run.current() == before.version
    &&& run.target() == target
    &&& is_plan(versions, before.version, target, run.steps())
    &&& run.completed() == 0
    &&& if target == before.version {
        &&& after == before
        &&& a == Action::Done
        &&& !run.is_awaiting()
    } else if run.steps().len() == 0 {
        &&& before.with_status(MetaStatus::Clean).restamped(after)
        &&& after.version == version_when_done(versions, before.version, target, run.steps())
        &&& a == Action::Done
        &&& !run.is_awaiting()
    } else {
        &&& before.with_status(MetaStatus::Migrating).restamped(after)
        &&& a == step_action(direction_of(before.version, target), run.steps()[0])
        &&& run.is_awaiting()
    }
}

/// What reporting the outcome of the awaited step does: `run0`/`run1` and
/// `before`/`after` are the run and the metadata's record around the call,
/// `a` the next action.
pub open spec fn stepped(
    run0: MigrationRun,
    run1: MigrationRun,
    before: MetaRecord,
    after: MetaRecord,
    succeeded: bool,
    a: Action,
) -> bool {
    let k = run0.completed() as int;
    let d = direction_of(run0.current(), run0.target());
    let v = version_after(run0.versions(), d, run0.steps()[k]) as i32;
    &&& run1.versions() == run0.versions()
    &&& run1.current() == run0.current()
    &&& run1.target() == run0.target()
    &&& run1.steps() == run0.steps()
    &&& if !succeeded {
        &&& run1.completed() == k
        &&& before.with_status(MetaStatus::Failed).restamped(after)
        &&& a == Action::Failed
        &&& !run1.is_awaiting()
    } else if k + 1 < run0.steps().len() {
        &&& run1.completed() == k + 1
        &&& before.with_version(v).restamped(after)
        &&& a == step_action(d, run0.steps()[k + 1])
        &&& run1.is_awaiting()
    } else {
        &&& run1.completed() == k + 1
        &&& before.with_version(v).with_status(MetaStatus::Clean).restamped(after)
        &&& after.version == version_when_done(
            run0.versions(),
            run0.current(),
            run0.target(),
            run0.steps(),
        )
        &&& a == Action::Done
        &&& !run1.is_awaiting()
    }
}

impl MigrationRun {
    /// The versions of the migration list, in list order.
    pub closed spec fn versions(self) -> Seq<i32> {
        self.versions@
    }

    /// The metadata's version when the run started.
    pub closed spec fn current(self) -> i32 {
        self.current@
    }

    /// The version the run was asked to reach.
    pub closed spec fn target(self) -> i32 {
        self.target@
    }

    /// The positions of the migrations the run applies, in order.
    pub closed spec fn steps(self) -> Seq<usize> {
        self.steps@
    }

    /// How many steps have completed.
    pub closed spec fn completed(self) -> nat {
        self.next as nat
    }

    /// A step has been handed out and its outcome not yet reported.
    pub closed spec fn is_awaiting(self) -> bool {
        self.awaiting
    }

    #[verifier::type_invariant]
    closed spec fn wf(self) -> bool {
        &&& is_plan(self.versions@, self.current@, self.target@, self.steps@)
        &&& self.direction == direction_of(self.current@, self.target@)
        &&& self.reached@.len() == self.steps@.len()
        &&& forall|k: int|
            0 <= k < self.steps@.len() ==> #[trigger] self.reached@[k] == version_after(
                self.versions@,
                self.direction,
                self.steps@[k],
            )
        &&& self.next <= self.steps@.len()
        &&& self.awaiting ==> self.next < self.steps@.len()
    }

    /// Starts a run from the metadata's version to `target` over a migration
    /// list with these versions. When `target` is the current version nothing
    /// at all happens; else the metadata is marked `Migrating` and the first
    /// step handed out (or, with nothing to apply, the metadata marked `Clean`).
    pub fn start<M: Metadata>(meta: &mut M, versions: &Vec<i32>, target: i32) -> (r: (
        MigrationRun,
        Action,
    ))
        ensures
            started(versions@, target, old(meta).record(), final(meta).record(), r.0, r.1),
            target == old(meta).record().version ==> *final(meta) == *old(meta),
    {
        let current = meta.version();
        let steps = plan_steps(versions, current, target);
        let direction = if target > current {
            Direction::Up
        } else {
            Direction::Down
        };
        let mut reached: Vec<i32> = Vec::new();
        let mut k: usize = 0;
        while k < steps.len()
            invariant
                is_plan(versions@, current, target, steps@),
                direction == direction_of(current, target),
                k <= steps@.len(),
                reached@.len() == k,
                forall|j: int|
                    0 <= j < k ==> #[trigger] reached@[j] == version_after(
                        versions@,
                        direction,
                        steps@[j],
                    ),
            decreases steps.len() - k,
        {
            let p = steps[k];
            let v = versions[p];
            let after = match direction {
                Direction::Up => v,
                Direction::Down => v - 1,
            };
            reached.push(after);
            k += 1;
        }
        let mut run = MigrationRun {
            direction,
            steps,
            reached,
            next: 0,
            awaiting: false,
            versions: Ghost(versions@),
            current: Ghost(current),
            target: Ghost(target),
        };
        if target == current {
            return (run, Action::Done);
        }
        meta.mark_migrating();
        if run.steps.len() == 0 {
            meta.mark_clean();
            (run, Action::Done)
        } else {
            run.awaiting = true;
            let first = run.steps[0];
            let a = match direction {
                Direction::Up => Action::Up(first),
                Direction::Down => Action::Down(first),
            };
            (run, a)
        }
    }

    /// Starts a run one version up from the metadata's: nothing happens when
    /// the metadata is already at or above the latest version of the list.
    pub fn start_next<M: Metadata>(meta: &mut M, versions: &Vec<i32>) -> (r: (
        MigrationRun,
        Action,
    ))
        ensures
            started(
                versions@,
                next_target(versions@, old(meta).record().version),
                old(meta).record(),
                final(meta).record(),
                r.0,
                r.1,
            ),
            old(meta).record().version >= latest_of(versions@) ==> *final(meta) == *old(meta),
    {
        let current = meta.version();
        let latest = latest_version(versions);
        if current >= latest {
            Self::start(meta, versions, current)
        } else {
            Self::start(meta, versions, current + 1)
        }
    }

    /// Starts a run one version down from the metadata's: nothing happens when
    /// the metadata is at or below 0.
    pub fn start_prev<M: Metadata>(meta: &mut M, versions: &Vec<i32>) -> (r: (
        MigrationRun,
        Action,
    ))
        ensures
            started(
                versions@,
                prev_target(old(meta).record().version),
                old(meta).record(),
                final(meta).record(),
                r.0,
                r.1,
            ),
            old(meta).record().version <= 0 ==> *final(meta) == *old(meta),
    {
        let current = meta.version();
        if current <= 0 {
            Self::start(meta, versions, current)
        } else {
            Self::start(meta, versions, current - 1)
        }
    }

    /// Reports the outcome of the step handed out last. On success the
    /// metadata's version moves to the one that step reaches and the next step
    /// is handed out, or, after the last one, the metadata is marked `Clean`.
    /// On failure the metadata is marked `Failed` and its version kept.
    pub fn on_step<M: Metadata>(&mut self, meta: &mut M, succeeded: bool) -> (a: Action)
        requires
            old(self).is_awaiting(),
        ensures
            stepped(*old(self), *final(self), old(meta).record(), final(meta).record(), succeeded, a),
    {
        proof {
            use_type_invariant(&*self);
        }
        self.awaiting = false;
        if !succeeded {
            meta.mark_failed();
            return Action::Failed;
        }
        let v = self.reached[self.next];
        let n = self.steps.len();
        meta.set_version(v);
        self.next = self.next + 1;
        if self.next < n {
            self.awaiting = true;
            let p = self.steps[self.next];
            match self.direction {
                Direction::Up => Action::Up(p),
                Direction::Down => Action::Down(p),
            }
        } else {
            meta.mark_clean();
            Action::Done
        }
    }

    /// A step has been handed out and its outcome is still to be reported.
    pub fn awaits_outcome(&self) -> (r: bool)
        ensures
            r == self.is_awaiting(),
    {
        self.awaiting
    }
}

} // verus!
