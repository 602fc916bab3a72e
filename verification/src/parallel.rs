use crate::game::{GameInfo, Observation, ObservationView, ProgramView};
use crate::rom::BundledRom;
use crate::session::{Ale, AleView};
use crate::step::{StepReport, StepReportView, Transition, TransitionView};
use vstd::prelude::*;

verus! {

/// The views of the items of a sequence, in order.
pub open spec fn views<T: View>(items: Seq<T>) -> Seq<T::V> {
    Seq::new(items.len(), |i: int| items[i]@)
}

/// A fixed number of sessions that are stepped together, and the record of
/// every step they took.
pub struct ParallelAtariView {
    pub envs: Seq<AleView>,
    pub transitions: Seq<TransitionView>,
}

impl ParallelAtariView {
    pub open spec fn wf(self) -> bool {
        forall|i: int|
            0 <= i < self.envs.len() ==> (#[trigger] self.envs[i]).wf() && self.envs[i].episode_step
                < u32::MAX
    }

    /// Whether `seen` holds one item for each session, each one that the
    /// emulator of that session can show.
    pub open spec fn fits(self, seen: Seq<ObservationView>) -> bool {
        &&& seen.len() == self.envs.len()
        &&& forall|i: int| 0 <= i < self.envs.len() ==> self.envs[i].fits(#[trigger] seen[i])
    }

    /// The batch after every session was reset and then showed its item of
    /// `seen`. The record of steps is as it was.
    pub open spec fn reset(self, seen: Seq<ObservationView>) -> ParallelAtariView {
        ParallelAtariView {
            envs: Seq::new(self.envs.len(), |i: int| self.envs[i].reset_game(seen[i])),
            transitions: self.transitions,
        }
    }

    /// Whether there is one action for each session, and each session has
    /// the action that is meant for it.
    pub open spec fn has_actions(self, actions: Seq<u8>) -> bool {
        &&& actions.len() == self.envs.len()
        &&& forall|i: int|
            0 <= i < self.envs.len() ==> #[trigger] actions[i] < self.envs[i].actions.len()
    }

    /// Whether there is one action and one report for each session, and
    /// each session takes its own.
    pub open spec fn takes(self, actions: Seq<u8>, reports: Seq<StepReportView>) -> bool {
        &&& actions.len() == self.envs.len()
        &&& reports.len() == self.envs.len()
        &&& forall|i: int|
            0 <= i < self.envs.len() ==> (#[trigger] self.envs[i]).takes(actions[i], reports[i])
    }

    /// The batch after one step: every session has taken its own step, and
    /// the record has grown by one transition for each session, in the
    /// order of the sessions.
    pub open spec fn step(self, actions: Seq<u8>, reports: Seq<StepReportView>) -> ParallelAtariView {
        ParallelAtariView {
            envs: Seq::new(self.envs.len(), |i: int| self.envs[i].step(reports[i])),
            transitions: self.transitions + Seq::new(
                self.envs.len(),
                |i: int| self.envs[i].transition(actions[i], reports[i]),
            ),
        }
    }
}

/// Sessions of one game that are reset and stepped together.
#[derive(Debug)]
pub struct ParallelAtari {
    envs: Vec<Ale>,
    transitions: Vec<Transition>,
}

impl View for ParallelAtari {
    type V = ParallelAtariView;

    closed spec fn view(&self) -> ParallelAtariView {
        ParallelAtariView { envs: views(self.envs@), transitions: views(self.transitions@) }
    }
}

impl ParallelAtari {
    pub open spec fn wf(&self) -> bool {
        self@.wf()
    }

    /// Makes one session for each item of `loads`, each with the bundled
    /// game `rom` installed as its item describes. An item is `None` where
    /// the game could not be brought to that session's emulator; then
    /// there is no batch at all.
    pub fn new(max_frames: u32, rom: BundledRom, loads: &[Option<GameInfo>]) -> (batch: Option<
        ParallelAtari,
    >)
        requires
            forall|i: int| 0 <= i < loads@.len() ==> (#[trigger] loads@[i] matches Some(g) ==> g.wf()),
        ensures
            batch is Some == (forall|i: int| 0 <= i < loads@.len() ==> #[trigger] loads@[i] is Some),
            batch matches Some(b) ==> {
                &&& b.wf()
                &&& b@.transitions.len() == 0
                &&& b@.envs.len() == loads@.len()
                &&& forall|i: int|
                    0 <= i < loads@.len() ==> #[trigger] b@.envs[i] == AleView::fresh(
                        max_frames as nat,
                    ).load(ProgramView::Bundled(rom), loads@[i].unwrap()@)
            },
    {
        let mut envs: Vec<Ale> = Vec::with_capacity(loads.len());
        let mut i: usize = 0;
        while i < loads.len()
            invariant
                i <= loads@.len(),
                envs@.len() == i,
                forall|j: int| 0 <= j < loads@.len() ==> (#[trigger] loads@[j] matches Some(g) ==> g.wf()),
                forall|j: int| 0 <= j < i ==> #[trigger] loads@[j] is Some,
                forall|j: int|
                    0 <= j < i ==> {
                        &&& (#[trigger] envs@[j]).wf()
                        &&& envs@[j]@ == AleView::fresh(max_frames as nat).load(
                            ProgramView::Bundled(rom),
                            loads@[j].unwrap()@,
                        )
                    },
            decreases loads@.len() - i,
        {
            match &loads[i] {
                Some(info) => {
                    let mut env = Ale::new(max_frames);
                    env.load_rom(rom, info);
                    envs.push(env);
                },
                None => {
                    return None;
                },
            }
            i += 1;
        }
        let batch = ParallelAtari { envs, transitions: Vec::new() };
        Some(batch)
    }

    /// The number of sessions.
    pub fn len(&self) -> (n: usize)
        ensures
            n == self@.envs.len(),
    {
        self.envs.len()
    }

    /// The session at place `i`.
    pub fn env(&self, i: usize) -> (env: &Ale)
        requires
            i < self@.envs.len(),
        ensures
            env@ == self@.envs[i as int],
    {
        &self.envs[i]
    }

    /// The record of every step taken so far: one transition for each
    /// session and step, step after step, in the order of the sessions
    /// within a step.
    pub fn transitions(&self) -> (log: &Vec<Transition>)
        ensures
            views(log@) == self@.transitions,
    {
        &self.transitions
    }

    /// Whether `seen` holds one item for each session, each one that the
    /// emulator of that session can show.
    pub fn fits(&self, seen: &[Observation]) -> (ok: bool)
        requires
            self.wf(),
        ensures
            ok == self@.fits(views(seen@)),
    {
        if seen.len() != self.envs.len() {
            return false;
        }
        let mut i: usize = 0;
        while i < seen.len()
            invariant
                self.wf(),
                seen@.len() == self.envs@.len(),
                i <= seen@.len(),
                forall|j: int| 0 <= j < i ==> self@.envs[j].fits(#[trigger] views(seen@)[j]),
            decreases seen@.len() - i,
        {
            if !self.envs[i].fits(&seen[i]) {
                assert(!self@.envs[i as int].fits(views(seen@)[i as int]));
                return false;
            }
            i += 1;
        }
        true
    }

    /// Records that every session was reset, and what each then showed.
    /// Returns the picture of each session, in the order of the sessions.
    pub fn reset(&mut self, seen: &[Observation]) -> (pictures: Vec<Vec<u8>>)
        requires
            old(self).wf(),
            old(self)@.fits(views(seen@)),
        ensures
            final(self).wf(),
            final(self)@ == old(self)@.reset(views(seen@)),
            pictures@.len() == seen@.len(),
            forall|i: int| 0 <= i < seen@.len() ==> (#[trigger] pictures@[i])@ == seen@[i].screen@,
    {
        let n = self.envs.len();
        let mut pictures: Vec<Vec<u8>> = Vec::with_capacity(n);
        let mut i: usize = 0;
        while i < n
            invariant
                n == old(self).envs@.len(),
                self.envs@.len() == n,
                seen@.len() == n,
                i <= n,
                old(self).wf(),
                old(self)@.fits(views(seen@)),
                self.transitions == old(self).transitions,
                pictures@.len() == i,
                forall|j: int| 0 <= j < i ==> (#[trigger] pictures@[j])@ == seen@[j].screen@,
                forall|j: int|
                    0 <= j < i ==> {
                        &&& (#[trigger] self.envs@[j]).wf()
                        &&& self.envs@[j]@ == old(self).envs@[j]@.reset_game(seen@[j]@)
                    },
                forall|j: int| i <= j < n ==> #[trigger] self.envs@[j] == old(self).envs@[j],
            decreases n - i,
        {
            assert(old(self)@.envs[i as int].fits(views(seen@)[i as int]));
            self.envs[i].reset_game(&seen[i]);
            pictures.push(self.envs[i].screen());
            i += 1;
        }
        assert(self@.envs =~= old(self)@.reset(views(seen@)).envs);
        pictures
    }

    /// Whether there is one action for each session, and each session has
    /// the action that is meant for it. Where this fails no step can be
    /// taken, so it is asked before any emulator acts.
    pub fn has_actions(&self, actions: &Vec<u8>) -> (ok: bool)
        requires
            self.wf(),
        ensures
            ok == self@.has_actions(actions@),
            !ok ==> forall|reports: Seq<StepReportView>| !self@.takes(actions@, reports),
    {
        if actions.len() != self.envs.len() {
            return false;
        }
        let mut i: usize = 0;
        while i < actions.len()
            invariant
                self.wf(),
                actions@.len() == self.envs@.len(),
                i <= actions@.len(),
                forall|j: int| 0 <= j < i ==> #[trigger] actions@[j] < self@.envs[j].actions.len(),
            decreases actions@.len() - i,
        {
            assert(self@.envs[i as int].wf());
            if actions[i] >= self.envs[i].action_dim() {
                assert forall|reports: Seq<StepReportView>| !self@.takes(actions@, reports) by {
                    if self@.takes(actions@, reports) {
                        assert(self@.envs[i as int].takes(actions@[i as int], reports[i as int]));
                    }
                }
                return false;
            }
            i += 1;
        }
        true
    }

    /// Whether there is one action and one report for each session, and
    /// each session takes its own.
    pub fn takes(&self, actions: &Vec<u8>, reports: &[StepReport]) -> (ok: bool)
        requires
            self.wf(),
        ensures
            ok == self@.takes(actions@, views(reports@)),
    {
        if actions.len() != self.envs.len() || reports.len() != self.envs.len() {
            return false;
        }
        let mut i: usize = 0;
        while i < reports.len()
            invariant
                self.wf(),
                actions@.len() == self.envs@.len(),
                reports@.len() == self.envs@.len(),
                i <= reports@.len(),
                forall|j: int|
                    0 <= j < i ==> (#[trigger] self@.envs[j]).takes(actions@[j], views(reports@)[j]),
            decreases reports@.len() - i,
        {
            assert(self@.envs[i as int].wf());
            if !self.envs[i].takes(actions[i], &reports[i]) {
                assert(!self@.envs[i as int].takes(actions@[i as int], views(reports@)[i as int]));
                return false;
            }
            i += 1;
        }
        true
    }

    /// Records one step of every session: `actions` holds the index of the
    /// action of each session and `reports` what the emulator of each
    /// session did, both in the order of the sessions.
    ///
    /// A session whose game ended or whose step horizon was reached is
    /// recorded as reset, and the picture to act on next in its transition
    /// is the one after the reset. One transition for each session is
    /// added to the record, in the order of the sessions.
    pub fn step(&mut self, actions: Vec<u8>, reports: &[StepReport])
        requires
            old(self).wf(),
            old(self)@.takes(actions@, views(reports@)),
        ensures
            final(self).wf(),
            final(self)@ == old(self)@.step(actions@, views(reports@)),
    {
        let n = self.envs.len();
        let mut i: usize = 0;
        while i < n
            invariant
                n == old(self).envs@.len(),
                self.envs@.len() == n,
                i <= n,
                old(self).wf(),
                old(self)@.takes(actions@, views(reports@)),
                self.transitions@.len() == old(self).transitions@.len() + i,
                forall|j: int|
                    0 <= j < old(self).transitions@.len() ==> #[trigger] self.transitions@[j]
                        == old(self).transitions@[j],
                forall|j: int|
                    0 <= j < i ==> (#[trigger] self.transitions@[old(self).transitions@.len() + j])@
                        == old(self).envs@[j]@.transition(actions@[j], reports@[j]@),
                forall|j: int|
                    0 <= j < i ==> {
                        &&& (#[trigger] self.envs@[j]).wf()
                        &&& self.envs@[j]@.episode_step < u32::MAX
                        &&& self.envs@[j]@ == old(self).envs@[j]@.step(reports@[j]@)
                    },
                forall|j: int| i <= j < n ==> #[trigger] self.envs@[j] == old(self).envs@[j],
            decreases n - i,
        {
            assert(old(self)@.envs[i as int].takes(actions@[i as int], views(reports@)[i as int]));
            let record = self.envs[i].step(actions[i], &reports[i]);
            self.transitions.push(record);
            i += 1;
        }
        assert(self@.envs =~= old(self)@.step(actions@, views(reports@)).envs);
        assert forall|k: int| 0 <= k < self@.transitions.len() implies self@.transitions[k] == old(
            self,
        )@.step(actions@, views(reports@)).transitions[k] by {
            let before = old(self).transitions@.len() as int;
            if k >= before {
                assert(self.transitions@[before + (k - before)]@ == old(self).envs@[k - before]@.transition(
                    actions@[k - before],
                    reports@[k - before]@,
                ));
            }
        }
        assert(self@.transitions =~= old(self)@.step(actions@, views(reports@)).transitions);
    }
}

/// A step neither adds nor drops a session, and it adds one transition
/// for each session to the record and changes none that was there.
pub proof fn lemma_step_keeps_the_record(
    batch: ParallelAtariView,
    actions: Seq<u8>,
    reports: Seq<StepReportView>,
)
    ensures
        batch.step(actions, reports).envs.len() == batch.envs.len(),
        batch.step(actions, reports).transitions.len() == batch.transitions.len() + batch.envs.len(),
        forall|k: int|
            0 <= k < batch.transitions.len() ==> batch.step(actions, reports).transitions[k]
                == #[trigger] batch.transitions[k],
{
}

/// The picture in a transition to act on next is the picture that the
/// session holds after the step, and the picture before the action is the
/// one that it held before: the record of a session can be read as one
/// unbroken chain of pictures, across the ends of episodes too.
pub proof fn lemma_step_chains_pictures(
    batch: ParallelAtariView,
    actions: Seq<u8>,
    reports: Seq<StepReportView>,
    i: int,
)
    requires
        batch.takes(actions, reports),
        0 <= i < batch.envs.len(),
    ensures
        batch.step(actions, reports).transitions[batch.transitions.len() + i].prev_observation
            == batch.envs[i].screen,
        batch.step(actions, reports).transitions[batch.transitions.len() + i].next_observation
            == batch.step(actions, reports).envs[i].screen,
{
    assert(batch.envs[i].takes(actions[i], reports[i]));
}

/// A session is reset with a step exactly if its transition says done or
/// truncated: done tells that the game ended, truncated that the step
/// horizon was reached, and nothing else makes a reset. A lost life alone
/// does not: it has its own mark in the transition.
pub proof fn lemma_step_resets_where_the_flags_say(
    batch: ParallelAtariView,
    actions: Seq<u8>,
    reports: Seq<StepReportView>,
    i: int,
)
    requires
        batch.takes(actions, reports),
        0 <= i < batch.envs.len(),
    ensures
        ({
            let record = batch.step(actions, reports).transitions[batch.transitions.len() + i];
            &&& record.done == reports[i].game_over
            &&& record.truncated == batch.envs[i].truncates()
            &&& record.life_lost == (reports[i].seen.lives < batch.envs[i].lives)
            &&& reports[i].restart is Some == (record.done || record.truncated)
            &&& record.action == actions[i]
            &&& record.reward == reports[i].reward
        }),
{
    assert(batch.envs[i].takes(actions[i], reports[i]));
}

/// Where the game of a session ends with a step, or its step horizon is
/// reached, the transition tells so, the picture to act on next is the one
/// shown after the reset and not the last one of the episode that ended,
/// and the session starts its next episode with no score and no step.
pub proof fn lemma_step_restarts_at_episode_end(
    batch: ParallelAtariView,
    actions: Seq<u8>,
    reports: Seq<StepReportView>,
    i: int,
)
    requires
        batch.takes(actions, reports),
        0 <= i < batch.envs.len(),
        reports[i].game_over || batch.envs[i].truncates(),
    ensures
        reports[i].restart is Some,
        ({
            let after = batch.step(actions, reports);
            let record = after.transitions[batch.transitions.len() + i];
            &&& record.done == reports[i].game_over
            &&& record.truncated == batch.envs[i].truncates()
            &&& record.next_observation == reports[i].restart.unwrap().screen
            &&& after.envs[i].score == 0
            &&& after.envs[i].episode_step == 0
        }),
{
    assert(batch.envs[i].takes(actions[i], reports[i]));
}

} // verus!
