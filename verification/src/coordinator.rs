//! The supervision state machine: one shared decision point that every
//! supervisor task and the shutdown coordinator report into.
//!
//! The process is `Running` until either an external termination signal
//! moves it to `Draining` (the only trigger for a drain), or the last
//! remaining mount point fails and it moves to `Aborted` (abnormal
//! termination, decided atomically with the failure that completed the
//! set). Both `Draining` and `Aborted` are terminal.

use vstd::prelude::*;

use crate::failures::{lemma_subset_full, FailedSet};
use crate::models::Fleet;

verus! {

/// The lifecycle phase of the whole process.
#[derive(Debug, Clone, Copy, PartialEq, Eq, Structural)]
pub enum Phase {
    /// Supervisor tasks run; no shutdown has been requested.
    Running,
    /// A termination signal arrived: unmount everything still mounted.
    Draining,
    /// Every enabled mount point failed to come up: terminate abnormally.
    Aborted,
}

/// What a supervisor task or the signal listener reports.
pub enum FleetEvent {
    /// This mount point's process ended in an expected way.
    MountSucceeded(String),
    /// This mount point failed to start or exited with an unexpected code.
    MountFailed(String),
    /// An external termination signal arrived.
    SignalReceived,
}

/// What the caller must do after reporting an event.
#[derive(Debug, Clone, Copy, PartialEq, Eq, Structural)]
pub enum Action {
    /// Nothing: keep supervising.
    Continue,
    /// Every enabled mount point has failed: terminate the process
    /// abnormally, without a drain. Returned exactly once.
    AbortProcess,
    /// A signal arrived while running: begin the drain sequence.
    BeginDrain,
}

/// The mathematical state of the supervision: the fleet's names, the names
/// recorded as failed, and the lifecycle phase.
#[verifier::ext_equal]
pub ghost struct SupervisionModel {
    pub fleet: Set<Seq<char>>,
    pub failed: Set<Seq<char>>,
    pub phase: Phase,
}

/// The model invariant: failures only ever name fleet members, and the
/// process is `Aborted` exactly when a non-empty fleet has wholly failed.
pub open spec fn model_wf(m: SupervisionModel) -> bool {
    &&& m.fleet.finite()
    &&& m.failed.subset_of(m.fleet)
    &&& (m.phase is Aborted <==> (m.failed =~= m.fleet && m.fleet.len() > 0))
}

/// The name a failure event carries, if it is one.
pub open spec fn failed_name(ev: FleetEvent) -> Option<Seq<char>> {
    match ev {
        FleetEvent::MountFailed(n) => Some(n@),
        _ => None,
    }
}

/// Whether an event may be reported in a given state: outcome reports must
/// name a fleet member.
pub open spec fn event_wf(m: SupervisionModel, ev: FleetEvent) -> bool {
    match ev {
        FleetEvent::MountSucceeded(n) => m.fleet.contains(n@),
        FleetEvent::MountFailed(n) => m.fleet.contains(n@),
        FleetEvent::SignalReceived => true,
    }
}

/// One step of the supervision: how the state changes on an event.
/// `Draining` and `Aborted` are terminal; in particular the failure record
/// is only read, never extended, once the drain has begun.
pub open spec fn step_model(m: SupervisionModel, ev: FleetEvent) -> SupervisionModel {
    if m.phase is Running {
        match ev {
            FleetEvent::SignalReceived => SupervisionModel { phase: Phase::Draining, ..m },
            FleetEvent::MountFailed(n) => SupervisionModel {
                failed: m.failed.insert(n@),
                phase: if m.failed.insert(n@) =~= m.fleet {
                    Phase::Aborted
                } else {
                    Phase::Running
                },
                ..m
            },
            FleetEvent::MountSucceeded(_) => m,
        }
    } else {
        m
    }
}

/// The action a step demands of the caller.
pub open spec fn step_action(m: SupervisionModel, ev: FleetEvent) -> Action {
    if m.phase is Running {
        match ev {
            FleetEvent::SignalReceived => Action::BeginDrain,
            FleetEvent::MountFailed(n) => if m.failed.insert(n@) =~= m.fleet {
                Action::AbortProcess
            } else {
                Action::Continue
            },
            FleetEvent::MountSucceeded(_) => Action::Continue,
        }
    } else {
        Action::Continue
    }
}

/// The state after a whole sequence of events, one step per event.
pub open spec fn run_model(m: SupervisionModel, evs: Seq<FleetEvent>) -> SupervisionModel
    decreases evs.len(),
{
    if evs.len() == 0 {
        m
    } else {
        run_model(step_model(m, evs[0]), evs.drop_first())
    }
}

/// How many steps of a run demand `AbortProcess` of the caller.
pub open spec fn abort_count(m: SupervisionModel, evs: Seq<FleetEvent>) -> nat
    decreases evs.len(),
{
    if evs.len() == 0 {
        0nat
    } else {
        (if step_action(m, evs[0]) is AbortProcess {
            1nat
        } else {
            0nat
        }) + abort_count(step_model(m, evs[0]), evs.drop_first())
    }
}

/// The names that the failure events of a run carry.
pub open spec fn failure_names(evs: Seq<FleetEvent>) -> Set<Seq<char>> {
    Set::new(
        |x: Seq<char>| exists|i: int| 0 <= i < evs.len() && failed_name(evs[i]) == Some(x),
    )
}

proof fn lemma_abort_count_run(m: SupervisionModel, evs: Seq<FleetEvent>)
    requires
        model_wf(m),
        m.fleet.len() >= 1,
        m.phase is Running || m.phase is Aborted,
        forall|i: int| 0 <= i < evs.len() ==> evs[i] is MountFailed,
        forall|i: int| 0 <= i < evs.len() ==> event_wf(m, #[trigger] evs[i]),
    ensures
        abort_count(m, evs) == if m.phase is Aborted {
            0int
        } else if m.fleet.subset_of(m.failed.union(failure_names(evs))) {
            1int
        } else {
            0int
        },
        run_model(m, evs).phase is Aborted <==> (m.phase is Aborted || m.fleet.subset_of(
            m.failed.union(failure_names(evs)),
        )),
    decreases evs.len(),
{
    if evs.len() == 0 {
        if m.phase is Running {
            // a non-empty fleet cannot already be wholly failed while running
            if m.fleet.subset_of(m.failed.union(failure_names(evs))) {
                assert forall|x: Seq<char>| m.fleet.contains(x) implies m.failed.contains(x) by {
                    assert(!failure_names(evs).contains(x));
                }
                assert(m.failed =~= m.fleet);
                assert(false);
            }
        }
    } else {
        let ev = evs[0];
        let tail = evs.drop_first();
        let m2 = step_model(m, ev);
        assert(evs[0] is MountFailed);
        let n = ev->MountFailed_0;
        assert(m.fleet.contains(n@));
        assert forall|i: int| 0 <= i < tail.len() implies tail[i] is MountFailed && event_wf(
            m2,
            #[trigger] tail[i],
        ) by {
            assert(tail[i] == evs[i + 1]);
            assert(event_wf(m, evs[i + 1]));
        }
        // the failure names of the whole run are those of the tail plus this one
        assert(failure_names(evs) =~= failure_names(tail).insert(n@)) by {
            assert forall|x: Seq<char>| failure_names(evs).contains(x) implies failure_names(
                tail,
            ).insert(n@).contains(x) by {
                let i = choose|i: int| 0 <= i < evs.len() && failed_name(evs[i]) == Some(x);
                if i > 0 {
                    assert(tail[i - 1] == evs[i]);
                    assert(failure_names(tail).contains(x));
                }
            }
            assert forall|x: Seq<char>| failure_names(tail).insert(n@).contains(x) implies
                failure_names(evs).contains(x) by {
                if x == n@ {
                    assert(failed_name(evs[0]) == Some(x));
                } else {
                    let i = choose|i: int| 0 <= i < tail.len() && failed_name(tail[i]) == Some(x);
                    assert(evs[i + 1] == tail[i]);
                }
            }
        }
        if m.phase is Aborted {
            assert(m2 == m);
            lemma_abort_count_run(m, tail);
        } else {
            let failed2 = m.failed.insert(n@);
            assert(m2.fleet == m.fleet);
            assert(m2.failed == failed2);
            if failed2 =~= m.fleet {
                assert(step_action(m, ev) is AbortProcess);
                assert(m2.phase is Aborted);
                assert(model_wf(m2));
                lemma_abort_count_run(m2, tail);
                assert(m.fleet.subset_of(m.failed.union(failure_names(evs)))) by {
                    assert forall|x: Seq<char>| m.fleet.contains(x) implies m.failed.union(
                        failure_names(evs),
                    ).contains(x) by {
                        assert(failed2.contains(x));
                    }
                }
            } else {
                assert(step_action(m, ev) is Continue);
                assert(m2.phase is Running);
                assert(model_wf(m2));
                lemma_abort_count_run(m2, tail);
                assert(m.failed.union(failure_names(evs)) =~= failed2.union(
                    failure_names(tail),
                ));
            }
        }
    }
}

/// If every enabled mount point's start attempt fails — in any order, with
/// any repetitions — a run that starts fresh ends aborted, and the abort
/// decision is handed out exactly once, whatever the interleaving.
pub proof fn lemma_all_failed_aborts_once(fleet: Set<Seq<char>>, evs: Seq<FleetEvent>)
    requires
        fleet.finite(),
        fleet.len() >= 1,
        forall|i: int| 0 <= i < evs.len() ==> evs[i] is MountFailed,
        forall|i: int|
            0 <= i < evs.len() ==> event_wf(
                SupervisionModel { fleet, failed: Set::empty(), phase: Phase::Running },
                #[trigger] evs[i],
            ),
        fleet.subset_of(failure_names(evs)),
    ensures
        abort_count(
            SupervisionModel { fleet, failed: Set::empty(), phase: Phase::Running },
            evs,
        ) == 1,
        run_model(
            SupervisionModel { fleet, failed: Set::empty(), phase: Phase::Running },
            evs,
        ).phase is Aborted,
{
    let m = SupervisionModel { fleet, failed: Set::empty(), phase: Phase::Running };
    assert(model_wf(m)) by {
        if m.failed =~= m.fleet {
            assert(fleet.len() == 0);
        }
    }
    assert(m.failed.union(failure_names(evs)) =~= failure_names(evs));
    lemma_abort_count_run(m, evs);
}

/// With no termination signal and one mount point that never fails, the
/// supervision stays in `Running`: it neither drains spontaneously nor
/// aborts.
pub proof fn lemma_no_signal_no_drain(
    m: SupervisionModel,
    evs: Seq<FleetEvent>,
    survivor: Seq<char>,
)
    requires
        model_wf(m),
        m.phase is Running,
        m.fleet.contains(survivor),
        !m.failed.contains(survivor),
        forall|i: int| 0 <= i < evs.len() ==> !((#[trigger] evs[i]) is SignalReceived),
        forall|i: int| 0 <= i < evs.len() ==> event_wf(m, #[trigger] evs[i]),
        forall|i: int| 0 <= i < evs.len() ==> failed_name(#[trigger] evs[i]) != Some(survivor),
    ensures
        run_model(m, evs).phase is Running,
        !run_model(m, evs).failed.contains(survivor),
    decreases evs.len(),
{
    if evs.len() > 0 {
        let ev = evs[0];
        let tail = evs.drop_first();
        let m2 = step_model(m, ev);
        assert forall|i: int| 0 <= i < tail.len() implies !((#[trigger] tail[i])
            is SignalReceived) && event_wf(m2, tail[i]) && failed_name(tail[i])
            != Some(survivor) by {
            assert(tail[i] == evs[i + 1]);
            assert(event_wf(m, evs[i + 1]));
        }
        match ev {
            FleetEvent::SignalReceived => {
                assert(false);
            },
            FleetEvent::MountSucceeded(_) => {
                lemma_no_signal_no_drain(m2, tail, survivor);
            },
            FleetEvent::MountFailed(n) => {
                assert(failed_name(ev) == Some(n@));
                assert(n@ != survivor);
                let failed2 = m.failed.insert(n@);
                assert(!failed2.contains(survivor));
                // the surviving mount point keeps the fleet from being covered
                assert(!(failed2 =~= m.fleet));
                assert(m2.phase is Running);
                assert(model_wf(m2));
                lemma_no_signal_no_drain(m2, tail, survivor);
            },
        }
    }
}

/// The shared supervision state. The surrounding program holds it behind a
/// mutual exclusion lock, so each `on_event` call is one atomic step.
pub struct Supervision {
    fleet_names: Vec<String>,
    failed: FailedSet,
    phase: Phase,
}

impl View for Supervision {
    type V = SupervisionModel;

    closed spec fn view(&self) -> SupervisionModel {
        SupervisionModel {
            fleet: self.fleet_names@.map_values(|s: String| s@).to_set(),
            failed: self.failed@,
            phase: self.phase,
        }
    }
}

/// The fleet names not recorded as failed, in fleet order: the mount points
/// that are still mounted at drain entry and must be unmounted.
pub open spec fn mounted_names(names: Seq<Seq<char>>, failed: Set<Seq<char>>) -> Seq<Seq<char>>
    decreases names.len(),
{
    if names.len() == 0 {
        Seq::empty()
    } else if failed.contains(names.last()) {
        mounted_names(names.drop_last(), failed)
    } else {
        mounted_names(names.drop_last(), failed).push(names.last())
    }
}

/// The fleet names recorded as failed, in fleet order: skipped by the drain.
pub open spec fn skipped_names(names: Seq<Seq<char>>, failed: Set<Seq<char>>) -> Seq<Seq<char>>
    decreases names.len(),
{
    if names.len() == 0 {
        Seq::empty()
    } else if failed.contains(names.last()) {
        skipped_names(names.drop_last(), failed).push(names.last())
    } else {
        skipped_names(names.drop_last(), failed)
    }
}

/// The drain sequence, computed once from the failure record at drain entry:
/// one unmount per still-mounted point, a log note per skipped point, and a
/// wait on every supervisor task — the skipped tasks included, since they
/// have already completed and joining them costs nothing.
pub struct DrainPlan {
    /// Mount points to unmount, concurrently and in no promised order.
    pub to_unmount: Vec<String>,
    /// Mount points that never came up: noted and left alone.
    pub skipped: Vec<String>,
    /// How many supervisor tasks the coordinator waits for before exiting.
    pub tasks_to_await: usize,
}

impl Supervision {
    /// The fleet's names in their construction order.
    pub closed spec fn fleet_name_seq(self) -> Seq<Seq<char>> {
        self.fleet_names@.map_values(|s: String| s@)
    }

    /// The exec-level invariant behind the model's.
    pub closed spec fn wf(self) -> bool {
        &&& self.fleet_names@.map_values(|s: String| s@).no_duplicates()
        &&& self.failed.wf()
        &&& model_wf(self@)
    }

    /// Fresh supervision for a fleet: nothing failed, phase `Running`.
    pub fn new(fleet: &Fleet) -> (s: Supervision)
        requires
            fleet.wf(),
        ensures
            s.wf(),
            s.fleet_name_seq() == fleet.names(),
            s@.fleet =~= fleet.name_set(),
            s@.failed =~= Set::<Seq<char>>::empty(),
            s@.phase is Running,
    {
        let names = fleet.names_vec();
        let s = Supervision { fleet_names: names, failed: FailedSet::new(), phase: Phase::Running };
        proof {
            assert(s.fleet_names@.map_values(|s2: String| s2@) =~= fleet.names());
            assert(s@.fleet =~= fleet.name_set());
        }
        s
    }

    /// How many mount points the supervision watches.
    pub fn fleet_len(&self) -> (n: usize)
        requires
            self.wf(),
        ensures
            n == self@.fleet.len(),
    {
        proof {
            self.fleet_names@.map_values(|s: String| s@).unique_seq_to_set();
        }
        self.fleet_names.len()
    }

    /// How many mount points have been recorded as failed.
    pub fn failed_len(&self) -> (n: usize)
        requires
            self.wf(),
        ensures
            n == self@.failed.len(),
    {
        self.failed.len()
    }

    /// Whether this mount point has been recorded as failed.
    pub fn failed_contains(&self, name: &String) -> (r: bool)
        ensures
            r == self@.failed.contains(name@),
    {
        self.failed.contains(name)
    }

    /// The current lifecycle phase.
    pub fn phase(&self) -> (p: Phase)
        ensures
            p == self@.phase,
    {
        self.phase
    }

    /// Partitions the fleet against the failure record as it stands now:
    /// mount points not recorded as failed are to be unmounted, the failed
    /// ones are skipped, and every supervisor task is waited for.
    pub fn drain_plan(&self) -> (p: DrainPlan)
        requires
            self.wf(),
        ensures
            p.to_unmount@.map_values(|s: String| s@) == mounted_names(
                self.fleet_name_seq(),
                self@.failed,
            ),
            p.skipped@.map_values(|s: String| s@) == skipped_names(
                self.fleet_name_seq(),
                self@.failed,
            ),
            p.tasks_to_await == self.fleet_name_seq().len(),
    {
        let ghost all = self.fleet_name_seq();
        let ghost failed_set = self@.failed;
        let mut to_unmount: Vec<String> = Vec::new();
        let mut skipped: Vec<String> = Vec::new();
        let mut i: usize = 0;
        while i < self.fleet_names.len()
            invariant
                self.wf(),
                all == self.fleet_name_seq(),
                failed_set == self@.failed,
                i <= self.fleet_names@.len(),
                to_unmount@.map_values(|s: String| s@) == mounted_names(
                    all.subrange(0, i as int),
                    failed_set,
                ),
                skipped@.map_values(|s: String| s@) == skipped_names(
                    all.subrange(0, i as int),
                    failed_set,
                ),
            decreases self.fleet_names@.len() - i,
        {
            let ghost pre = all.subrange(0, i as int);
            let ghost old_unmount = to_unmount@;
            let ghost old_skipped = skipped@;
            proof {
                assert(old_unmount.map_values(|s: String| s@).len()
                    == mounted_names(pre, failed_set).len());
                assert(old_skipped.map_values(|s: String| s@).len()
                    == skipped_names(pre, failed_set).len());
                assert(all.subrange(0, i + 1).drop_last() =~= pre);
                assert(all.subrange(0, i + 1).last() == all[i as int]);
            }
            let name = self.fleet_names[i].clone();
            if self.failed.contains(&name) {
                skipped.push(name);
            } else {
                to_unmount.push(name);
            }
            proof {
                assert(to_unmount@.map_values(|s: String| s@)
                    =~= mounted_names(all.subrange(0, i + 1), failed_set));
                assert(skipped@.map_values(|s: String| s@)
                    =~= skipped_names(all.subrange(0, i + 1), failed_set));
            }
            i = i + 1;
        }
        proof {
            assert(all.subrange(0, all.len() as int) =~= all);
        }
        DrainPlan { to_unmount, skipped, tasks_to_await: self.fleet_names.len() }
    }

    /// Report one event and learn what to do: the state takes one step of
    /// the supervision machine. The abort decision is taken in the same
    /// step as the failure insert that triggered it, so two racing failure
    /// reports can never both see "not yet all failed" — and `AbortProcess`
    /// is returned at most once over the whole run.
    pub fn on_event(&mut self, ev: FleetEvent) -> (a: Action)
        requires
            old(self).wf(),
            event_wf(old(self)@, ev),
        ensures
            final(self).wf(),
            final(self)@ =~= step_model(old(self)@, ev),
            a == step_action(old(self)@, ev),
            final(self).fleet_name_seq() == old(self).fleet_name_seq(),
    {
        let ghost gev = ev;
        proof {
            self.fleet_names@.map_values(|s: String| s@).unique_seq_to_set();
        }
        match self.phase {
            Phase::Running => {
                match ev {
                    FleetEvent::SignalReceived => {
                        self.phase = Phase::Draining;
                        Action::BeginDrain
                    },
                    FleetEvent::MountFailed(name) => {
                        let ghost name_view = name@;
                        let ghost m0 = old(self)@;
                        let _is_new = self.failed.insert(name);
                        let all_failed = self.failed.len() >= self.fleet_names.len();
                        proof {
                            assert(self@.failed =~= m0.failed.insert(name_view));
                            assert(self@.failed.subset_of(m0.fleet));
                            if all_failed {
                                lemma_subset_full(self@.failed, m0.fleet);
                            } else {
                                assert(!(self@.failed =~= m0.fleet));
                            }
                        }
                        if all_failed {
                            self.phase = Phase::Aborted;
                            proof {
                                assert(self@.fleet.contains(name_view));
                                vstd::set_lib::lemma_len_subset(
                                    Set::<Seq<char>>::empty().insert(name_view),
                                    self@.fleet,
                                );
                                assert(self@.fleet.len() > 0);
                                assert(self@ =~= step_model(m0, gev));
                            }
                            Action::AbortProcess
                        } else {
                            proof {
                                assert(self@ =~= step_model(m0, gev));
                            }
                            Action::Continue
                        }
                    },
                    FleetEvent::MountSucceeded(_name) => Action::Continue,
                }
            },
            Phase::Draining => Action::Continue,
            Phase::Aborted => Action::Continue,
        }
    }
}

/// What holds of any well-formed supervision, stated for callers: failures
/// only ever name fleet members, the fleet is the set of its name sequence,
/// and the failure record never outgrows the fleet.
pub proof fn lemma_supervision_invariant(s: &Supervision)
    requires
        s.wf(),
    ensures
        model_wf(s@),
        s@.fleet =~= s.fleet_name_seq().to_set(),
        s@.failed.len() <= s@.fleet.len(),
{
    vstd::set_lib::lemma_len_subset(s@.failed, s@.fleet);
}

} // verus!
