use crate::game::{Observation, ObservationView};
use crate::session::{Ale, AleView};
use vstd::prelude::*;

verus! {

/// What the emulator did in one step of one session: the reward for the
/// action, what it showed afterwards, whether the game was then over, and,
/// where the game was reset after the action, what it showed after the
/// reset.
#[derive(Clone, Debug, PartialEq, Eq)]
pub struct StepReport {
    pub reward: i32,
    pub seen: Observation,
    pub game_over: bool,
    pub restart: Option<Observation>,
}

pub struct StepReportView {
    pub reward: i32,
    pub seen: ObservationView,
    pub game_over: bool,
    pub restart: Option<ObservationView>,
}

impl View for StepReport {
    type V = StepReportView;

    open spec fn view(&self) -> StepReportView {
        StepReportView {
            reward: self.reward,
            seen: self.seen@,
            game_over: self.game_over,
            restart: match self.restart {
                Some(fresh) => Some(fresh@),
                None => None,
            },
        }
    }
}

/// The record of one step of one session.
#[derive(Clone, Debug, PartialEq, Eq)]
pub struct Transition {
    /// The picture before the action.
    pub prev_observation: Vec<u8>,
    /// The index of the action.
    pub action: u8,
    pub reward: i32,
    /// Whether the game ended with the action.
    pub done: bool,
    /// Whether a life was lost with the action.
    pub life_lost: bool,
    /// Whether the episode reached its step horizon.
    pub truncated: bool,
    /// The picture to act on next: the one after the reset where the
    /// episode ended with this step, the one after the action otherwise.
    pub next_observation: Vec<u8>,
}

pub struct TransitionView {
    pub prev_observation: Seq<u8>,
    pub action: u8,
    pub reward: i32,
    pub done: bool,
    pub life_lost: bool,
    pub truncated: bool,
    pub next_observation: Seq<u8>,
}

impl View for Transition {
    type V = TransitionView;

    open spec fn view(&self) -> TransitionView {
        TransitionView {
            prev_observation: self.prev_observation@,
            action: self.action,
            reward: self.reward,
            done: self.done,
            life_lost: self.life_lost,
            truncated: self.truncated,
            next_observation: self.next_observation@,
        }
    }
}

impl AleView {
    /// Whether the game has to be reset after the next action: it is over
    /// (the step is done), or the action reaches the step horizon (the step
    /// is truncated).
    pub open spec fn reset_due(self, game_over: bool) -> bool {
        game_over || self.truncates()
    }

    /// Whether `report` can be the emulator's account of the action with
    /// index `action` in this session: the action exists, the step count
    /// has room for one more, what was shown are counts of lives and
    /// pictures of this session's screen, and the game was reset exactly if a
    /// reset was due.
    pub open spec fn takes(self, action: u8, report: StepReportView) -> bool {
        &&& action < self.actions.len()
        &&& self.episode_step < u32::MAX
        &&& self.fits(report.seen)
        &&& report.restart is Some == self.reset_due(report.game_over)
        &&& report.restart matches Some(fresh) ==> self.fits(fresh)
    }

    /// The session after the step that `report` gives account of.
    pub open spec fn step(self, report: StepReportView) -> AleView {
        let acted = self.act(report.reward as int, report.seen);
        if self.reset_due(report.game_over) {
            acted.reset_game(report.restart.unwrap())
        } else {
            acted
        }
    }

    /// The record of the step that `report` gives account of.
    pub open spec fn transition(self, action: u8, report: StepReportView) -> TransitionView {
        TransitionView {
            prev_observation: self.screen,
            action,
            reward: report.reward,
            done: report.game_over,
            life_lost: report.seen.lives < self.lives,
            truncated: self.truncates(),
            next_observation: if self.reset_due(report.game_over) {
                report.restart.unwrap().screen
            } else {
                report.seen.screen
            },
        }
    }
}

impl Ale {
    /// Whether the game has to be reset after the next action, given
    /// whether the emulator then says that the game is over.
    pub fn reset_due(&self, game_over: bool) -> (due: bool)
        ensures
            due == self@.reset_due(game_over),
    {
        game_over || self.truncates()
    }

    /// Whether `report` can be the emulator's account of the action with
    /// index `action` in this session.
    pub fn takes(&self, action: u8, report: &StepReport) -> (ok: bool)
        requires
            self.wf(),
        ensures
            ok == self@.takes(action, report@),
    {
        action < self.action_dim() && self.episode_step() < u32::MAX && self.fits(&report.seen)
            && match &report.restart {
            Some(fresh) => self.reset_due(report.game_over) && self.fits(fresh),
            None => !self.reset_due(report.game_over),
        }
    }

    /// Records one step: the action, and the reset after it where the game
    /// ended or the step horizon was reached with it. Returns the record of
    /// the step.
    pub fn step(&mut self, action: u8, report: &StepReport) -> (record: Transition)
        requires
            old(self).wf(),
            old(self)@.takes(action, report@),
        ensures
            final(self).wf(),
            final(self)@ == old(self)@.step(report@),
            record@ == old(self)@.transition(action, report@),
    {
        let cur_obs = self.screen();
        let (r, live_loss, truncation) = self.act(action, report.reward, &report.seen);
        let terminal = report.game_over;
        if terminal || truncation {
            if let Some(fresh) = &report.restart {
                self.reset_game(fresh);
            }
        }
        let next_obs = self.screen();
        Transition {
            prev_observation: cur_obs,
            action,
            reward: r,
            done: terminal,
            life_lost: live_loss,
            truncated: truncation,
            next_observation: next_obs,
        }
    }
}

} // verus!
