use crate::bytes::{copy_into, copy_of};
use crate::game::{
    rgb_len, GameInfo, GameInfoView, Observation, ObservationView, Program, ProgramView, MAX_ACTIONS,
    RGB_CHANNELS,
};
use crate::rom::BundledRom;
use crate::state::{AleState, AleStateView, StateKind, MAX_ENCODED_LEN};
use vstd::prelude::*;

verus! {

/// The smallest reward the emulator can report for one action.
pub const MIN_REWARD: i64 = -0x8000_0000;

/// The largest reward the emulator can report for one action.
pub const MAX_REWARD: i64 = 0x7fff_ffff;

/// One emulator session as its caller sees it: the game that runs, the
/// actions it accepts, the picture last shown, and the running counts of the
/// episode.
pub struct AleView {
    /// The game that is installed, if one is.
    pub program: Option<ProgramView>,
    /// The emulator's code for each action, by the index the caller uses.
    pub actions: Seq<i32>,
    pub width: nat,
    pub height: nat,
    /// The picture shown after the last action or reset, in colour.
    pub screen: Seq<u8>,
    /// The sum of the rewards since the last reset.
    pub score: int,
    /// The number of lives last seen, as the emulator counted them.
    pub lives: i32,
    /// The number of actions after which an episode is cut short.
    pub max_frames: nat,
    /// The number of actions since the last reset.
    pub episode_step: nat,
}

impl AleView {
    pub open spec fn wf(self) -> bool {
        &&& self.actions.len() <= MAX_ACTIONS
        &&& self.screen.len() == rgb_len(self.width as int, self.height as int)
        &&& 0 <= self.lives
        &&& self.max_frames <= u32::MAX
        &&& self.episode_step <= u32::MAX
        &&& MIN_REWARD * self.episode_step <= self.score <= MAX_REWARD * self.episode_step
    }

    /// A session that has no game yet.
    pub open spec fn fresh(max_frames: nat) -> AleView {
        AleView {
            program: None,
            actions: Seq::empty(),
            width: 0,
            height: 0,
            screen: Seq::empty(),
            score: 0,
            lives: 0,
            max_frames,
            episode_step: 0,
        }
    }

    /// The session once the game `program` is installed and the emulator
    /// has described it: the action set and the geometry are the game's,
    /// and the picture is black until the first reset or action.
    pub open spec fn load(self, program: ProgramView, info: GameInfoView) -> AleView {
        AleView {
            program: Some(program),
            actions: info.actions,
            width: info.width,
            height: info.height,
            screen: Seq::new(rgb_len(info.width as int, info.height as int) as nat, |i: int| 0u8),
            ..self
        }
    }

    /// Whether `seen` can be what the emulator of this session shows: a
    /// count of lives that is not negative, and a picture of this session's
    /// screen.
    pub open spec fn fits(self, seen: ObservationView) -> bool {
        &&& 0 <= seen.lives
        &&& seen.screen.len() == self.screen.len()
    }

    /// Whether the next action reaches the step horizon.
    pub open spec fn truncates(self) -> bool {
        self.episode_step + 1 >= self.max_frames
    }

    /// The session after an action for which the emulator gave `reward` and
    /// then showed `seen`.
    pub open spec fn act(self, reward: int, seen: ObservationView) -> AleView {
        AleView {
            score: self.score + reward,
            lives: seen.lives,
            screen: seen.screen,
            episode_step: self.episode_step + 1,
            ..self
        }
    }

    /// The session after a reset of the game, after which the emulator
    /// showed `seen`.
    pub open spec fn reset_game(self, seen: ObservationView) -> AleView {
        AleView { score: 0, lives: seen.lives, screen: seen.screen, episode_step: 0, ..self }
    }

    /// The session after the actions in `steps`, one after the other, with
    /// no reset between them. Each step is the reward that the emulator
    /// gave and what it then showed.
    pub open spec fn run(self, steps: Seq<(int, ObservationView)>) -> AleView
        decreases steps.len(),
    {
        if steps.len() == 0 {
            self
        } else {
            self.run(steps.drop_last()).act(steps.last().0, steps.last().1)
        }
    }

    /// Whether `state` may be put back into this session as a state of
    /// kind `kind`: it is of that kind, the session runs a game, and the
    /// state was taken from a session that ran the same game, or was
    /// decoded from bytes whose origin nobody recorded.
    pub open spec fn restores(self, state: AleStateView, kind: StateKind) -> bool {
        &&& state.kind == kind
        &&& self.program is Some
        &&& state.origin is Some ==> state.origin == self.program
    }
}

/// The bookkeeping of one emulator session.
///
/// The emulator runs elsewhere; a session is told what the emulator
/// answered and keeps the action set, the last picture, the score, the
/// lives and the step count in step with it.
#[derive(Debug)]
pub struct Ale {
    program: Option<Program>,
    action_set: Vec<i32>,
    screen_data: Vec<u8>,
    screen_size: (usize, usize),
    score: i64,
    max_frames: u32,
    lives: i32,
    episode_step: u32,
}

impl View for Ale {
    type V = AleView;

    closed spec fn view(&self) -> AleView {
        AleView {
            program: match self.program {
                Some(p) => Some(p@),
                None => None,
            },
            actions: self.action_set@,
            width: self.screen_size.1 as nat,
            height: self.screen_size.0 as nat,
            screen: self.screen_data@,
            score: self.score as int,
            lives: self.lives,
            max_frames: self.max_frames as nat,
            episode_step: self.episode_step as nat,
        }
    }
}

impl Ale {
    pub open spec fn wf(&self) -> bool {
        self@.wf()
    }

    /// Creates the bookkeeping for a new emulator instance. No game is
    /// installed yet: the action set is empty and there is no picture.
    pub fn new(max_frames: u32) -> (ale: Ale)
        ensures
            ale.wf(),
            ale@ == AleView::fresh(max_frames as nat),
    {
        Ale {
            program: None,
            action_set: Vec::new(),
            screen_data: Vec::new(),
            screen_size: (0, 0),
            score: 0,
            max_frames,
            lives: 0,
            episode_step: 0,
        }
    }

    /// Records that the emulator was reset and a bundled game installed,
    /// and takes the action set and the geometry that the emulator then
    /// reported.
    pub fn load_rom(&mut self, rom: BundledRom, info: &GameInfo)
        requires
            old(self).wf(),
            info.wf(),
        ensures
            final(self).wf(),
            final(self)@ == old(self)@.load(ProgramView::Bundled(rom), info@),
    {
        self.install(Program::Bundled(rom), info);
    }

    /// Records that the emulator was reset and the game in the file named
    /// `rom_file` installed, and takes the action set and the geometry that
    /// the emulator then reported.
    pub fn load_rom_file(&mut self, rom_file: &[u8], info: &GameInfo)
        requires
            old(self).wf(),
            info.wf(),
        ensures
            final(self).wf(),
            final(self)@ == old(self)@.load(ProgramView::File(rom_file@), info@),
    {
        self.install(Program::File(copy_of(rom_file)), info);
    }

    fn install(&mut self, program: Program, info: &GameInfo)
        requires
            old(self).wf(),
            info.wf(),
        ensures
            final(self).wf(),
            final(self)@ == old(self)@.load(program@, info@),
    {
        let len = info.width() * info.height() * RGB_CHANNELS;
        self.program = Some(program);
        self.action_set = info.actions().clone();
        self.screen_size = (info.height(), info.width());
        self.screen_data = vec![0u8; len];
        assert(self.screen_data@ == Seq::new(len as nat, |i: int| 0u8));
    }

    /// The game that is installed, if one is.
    pub fn program(&self) -> (program: &Option<Program>)
        ensures
            program is Some == self@.program is Some,
            program matches Some(p) ==> self@.program == Some(p@),
    {
        &self.program
    }

    /// The number of actions to choose from.
    pub fn action_dim(&self) -> (n: u8)
        requires
            self.wf(),
        ensures
            n == self@.actions.len(),
    {
        self.action_set.len() as u8
    }

    /// The emulator's code for the action with the given index.
    pub fn action_code(&self, action: u8) -> (code: i32)
        requires
            action < self@.actions.len(),
        ensures
            code == self@.actions[action as int],
    {
        self.action_set[action as usize]
    }

    /// Returns the vector of legal actions, by index.
    pub fn legal_action_set(&self) -> (actions: Vec<i32>)
        ensures
            actions@ == self@.actions,
    {
        self.action_set.clone()
    }

    /// Records one action: the emulator applied the action with index
    /// `action`, gave `reward` for it and then showed `seen`.
    ///
    /// Returns the reward, whether a life was lost, and whether the episode
    /// has reached its step horizon. The whole picture is replaced by the
    /// new one. It is the caller's responsibility to reset when the game
    /// has ended.
    pub fn act(&mut self, action: u8, reward: i32, seen: &Observation) -> (out: (i32, bool, bool))
        requires
            old(self).wf(),
            action < old(self)@.actions.len(),
            old(self)@.fits(seen@),
            old(self)@.episode_step < u32::MAX,
        ensures
            final(self).wf(),
            final(self)@ == old(self)@.act(reward as int, seen@),
            out.0 == reward,
            out.1 == (seen.lives < old(self)@.lives),
            out.2 == old(self)@.truncates(),
    {
        proof {
            lemma_score_stays_in_bounds(self@.score, self@.episode_step, reward as int);
        }
        self.score = self.score + reward as i64;
        copy_into(self.screen_data.as_mut_slice(), seen.screen.as_slice());
        let live_loss = seen.lives < self.lives;
        self.lives = seen.lives;
        self.episode_step = self.episode_step + 1;
        let truncation = self.episode_step >= self.max_frames;
        (reward, live_loss, truncation)
    }

    /// Whether the next action reaches the step horizon: counted with it,
    /// the actions since the last reset are no fewer than `max_frames`.
    pub fn truncates(&self) -> (reached: bool)
        ensures
            reached == self@.truncates(),
    {
        self.episode_step >= self.max_frames || self.episode_step + 1 >= self.max_frames
    }

    /// Whether `seen` can be what the emulator of this session shows.
    pub fn fits(&self, seen: &Observation) -> (ok: bool)
        ensures
            ok == self@.fits(seen@),
    {
        0 <= seen.lives && seen.screen.len() == self.screen_data.len()
    }

    /// Records a reset of the game, after which the emulator showed `seen`.
    /// The score and the step count start again from zero.
    pub fn reset_game(&mut self, seen: &Observation)
        requires
            old(self).wf(),
            old(self)@.fits(seen@),
        ensures
            final(self).wf(),
            final(self)@ == old(self)@.reset_game(seen@),
            final(self)@.score == 0,
            final(self)@.episode_step == 0,
    {
        self.score = 0;
        self.episode_step = 0;
        self.lives = seen.lives;
        copy_into(self.screen_data.as_mut_slice(), seen.screen.as_slice());
    }

    /// A copy of the picture shown after the last action or reset.
    pub fn screen(&self) -> (picture: Vec<u8>)
        ensures
            picture@ == self@.screen,
    {
        self.screen_data.clone()
    }

    /// Writes the picture shown after the last action or reset to the
    /// buffer provided, in RGB format. The buffer must have exactly the
    /// length of the picture.
    pub fn get_screen_rgb(&self, screen_data: &mut [u8])
        requires
            old(screen_data)@.len() == self@.screen.len(),
        ensures
            final(screen_data)@ == self@.screen,
    {
        copy_into(screen_data, self.screen_data.as_slice());
    }

    /// Get the screen's width in pixels.
    pub fn screen_width(&self) -> (width: usize)
        ensures
            width == self@.width,
    {
        self.screen_size.1
    }

    /// Get the screen's height in pixels.
    pub fn screen_height(&self) -> (height: usize)
        ensures
            height == self@.height,
    {
        self.screen_size.0
    }

    /// The length of a colour picture of the screen.
    pub fn rgb_size(&self) -> (len: usize)
        requires
            self.wf(),
        ensures
            len == rgb_len(self@.width as int, self@.height as int),
    {
        self.screen_data.len()
    }

    /// The length of a grayscale picture of the screen: one byte for each
    /// pixel.
    pub fn grayscale_size(&self) -> (len: usize)
        requires
            self.wf(),
        ensures
            len == self@.width * self@.height,
    {
        let width = self.screen_size.1;
        let height = self.screen_size.0;
        assert(width * height <= rgb_len(width as int, height as int)) by (nonlinear_arith);
        assert(rgb_len(width as int, height as int) == self.screen_data.len());
        width * height
    }

    /// The sum of the rewards since the last reset.
    pub fn score(&self) -> (score: i64)
        ensures
            score == self@.score,
    {
        self.score
    }

    /// The number of lives last seen, as the emulator counted them.
    pub fn lives(&self) -> (lives: i32)
        ensures
            lives == self@.lives,
    {
        self.lives
    }

    /// The number of actions since the last reset.
    pub fn episode_step(&self) -> (steps: u32)
        ensures
            steps == self@.episode_step,
    {
        self.episode_step
    }

    /// The number of actions after which an episode is cut short.
    pub fn max_frames(&self) -> (horizon: u32)
        ensures
            horizon == self@.max_frames,
    {
        self.max_frames
    }

    /// Keeps the bytes in which the emulator encoded a copy of the
    /// environment state. This copy does *not* include pseudorandomness,
    /// making it suitable for planning purposes. By contrast, see
    /// [`Ale::clone_system_state()`].
    pub fn clone_state(&self, encoded: Vec<u8>) -> (state: AleState)
        requires
            self@.program is Some,
            encoded@.len() <= MAX_ENCODED_LEN,
        ensures
            state.wf(),
            state@ == (AleStateView {
                kind: StateKind::Planning,
                origin: self@.program,
                bytes: encoded@,
            }),
    {
        match &self.program {
            Some(p) => AleState::tagged(StateKind::Planning, p.duplicate(), encoded),
            None => unreached(),
        }
    }

    /// Keeps the bytes in which the emulator encoded a copy of the system
    /// and environment state, suitable for serialization. This includes
    /// pseudorandomness and so is *not* suitable for planning purposes.
    pub fn clone_system_state(&self, encoded: Vec<u8>) -> (state: AleState)
        requires
            self@.program is Some,
            encoded@.len() <= MAX_ENCODED_LEN,
        ensures
            state.wf(),
            state@ == (AleStateView {
                kind: StateKind::System,
                origin: self@.program,
                bytes: encoded@,
            }),
    {
        match &self.program {
            Some(p) => AleState::tagged(StateKind::System, p.duplicate(), encoded),
            None => unreached(),
        }
    }

    /// Whether `state` may be put back into this session as a state of
    /// kind `kind`.
    pub fn can_restore(&self, state: &AleState, kind: StateKind) -> (ok: bool)
        ensures
            ok == self@.restores(state@, kind),
    {
        state.kind() == kind && match &self.program {
            None => false,
            Some(mine) => match state.origin() {
                None => true,
                Some(theirs) => theirs.same_as(mine),
            },
        }
    }

    /// Reverse operation of [`Ale::clone_state`]: hands out the bytes to
    /// put back into the emulator. This does not restore pseudorandomness,
    /// so that repeated restores in the stochastic controls setting will
    /// not lead to the same outcomes.
    ///
    /// The state must be a planning state, and not one of another game.
    pub fn restore_state<'a>(&self, state: &'a AleState) -> (bytes: &'a [u8])
        requires
            self@.restores(state@, StateKind::Planning),
        ensures
            bytes@ == state@.encoded(),
    {
        state.bytes()
    }

    /// Reverse operation of [`Ale::clone_system_state`]: hands out the
    /// bytes to put back into the emulator.
    ///
    /// The state must be a system state, and not one of another game.
    pub fn restore_system_state<'a>(&self, state: &'a AleState) -> (bytes: &'a [u8])
        requires
            self@.restores(state@, StateKind::System),
        ensures
            bytes@ == state@.encoded(),
    {
        state.bytes()
    }
}

/// Once a game is loaded, nothing that happens in play changes it: an
/// action and a reset leave the game, its action set, the geometry of the
/// screen and the step horizon as they were, and the picture keeps its
/// length.
pub proof fn lemma_play_keeps_the_game(
    session: AleView,
    reward: int,
    seen: ObservationView,
    after: AleView,
)
    requires
        session.fits(seen),
        after == session.act(reward, seen) || after == session.reset_game(seen),
    ensures
        after.program == session.program,
        after.actions == session.actions,
        after.width == session.width,
        after.height == session.height,
        after.max_frames == session.max_frames,
        after.screen.len() == session.screen.len(),
{
}

/// The sum of the rewards of a run of actions.
pub open spec fn total_reward(steps: Seq<(int, ObservationView)>) -> int
    decreases steps.len(),
{
    if steps.len() == 0 {
        0
    } else {
        total_reward(steps.drop_last()) + steps.last().0
    }
}

/// An action leaves no byte of an earlier picture: whatever the session
/// held before, afterwards it holds the picture that the emulator showed,
/// all of it, and that picture has three bytes for each pixel of the screen.
pub proof fn lemma_act_replaces_the_picture(session: AleView, reward: int, seen: ObservationView)
    requires
        session.wf(),
        session.fits(seen),
    ensures
        session.act(reward, seen).screen == seen.screen,
        session.act(reward, seen).screen.len() == rgb_len(
            session.width as int,
            session.height as int,
        ),
{
}

/// A run of actions adds its length to the step count and the sum of its
/// rewards to the score, and leaves the horizon where it was.
pub proof fn lemma_run_counts_steps(start: AleView, steps: Seq<(int, ObservationView)>)
    ensures
        start.run(steps).episode_step == start.episode_step + steps.len(),
        start.run(steps).score == start.score + total_reward(steps),
        start.run(steps).max_frames == start.max_frames,
    decreases steps.len(),
{
    if steps.len() > 0 {
        lemma_run_counts_steps(start, steps.drop_last());
    }
}

/// The score is the sum of the rewards since the last reset, and the step
/// count is the number of actions since then.
pub proof fn lemma_score_is_the_sum_since_reset(
    before: AleView,
    shown: ObservationView,
    steps: Seq<(int, ObservationView)>,
)
    ensures
        before.reset_game(shown).run(steps).score == total_reward(steps),
        before.reset_game(shown).run(steps).episode_step == steps.len(),
{
    lemma_run_counts_steps(before.reset_game(shown), steps);
}

/// An episode is cut short exactly at its horizon. Of the actions that
/// follow a reset, with no other reset between them, the one that comes
/// after `steps.len()` others reports truncation if and only if, counted
/// with it, they are no fewer than `max_frames`.
pub proof fn lemma_truncation_horizon(
    before: AleView,
    shown: ObservationView,
    steps: Seq<(int, ObservationView)>,
)
    ensures
        before.reset_game(shown).run(steps).truncates() == (steps.len() + 1 >= before.max_frames),
{
    lemma_run_counts_steps(before.reset_game(shown), steps);
}

/// A score within the bounds of `steps` rewards stays within the bounds of
/// one more after one more reward.
proof fn lemma_score_stays_in_bounds(score: int, steps: nat, reward: int)
    requires
        MIN_REWARD * steps <= score <= MAX_REWARD * steps,
        MIN_REWARD <= reward <= MAX_REWARD,
        steps < u32::MAX,
    ensures
        MIN_REWARD * (steps + 1) <= score + reward <= MAX_REWARD * (steps + 1),
        i64::MIN <= score + reward <= i64::MAX,
{
    assert(MIN_REWARD * (steps + 1) == MIN_REWARD * steps + MIN_REWARD) by (nonlinear_arith);
    assert(MAX_REWARD * (steps + 1) == MAX_REWARD * steps + MAX_REWARD) by (nonlinear_arith);
    assert(MIN_REWARD * (steps + 1) >= -0x8000_0000 * 0xffff_ffff) by (nonlinear_arith)
        requires
            steps + 1 <= 0xffff_ffff,
            MIN_REWARD == -0x8000_0000,
    ;
    assert(MAX_REWARD * (steps + 1) <= 0x7fff_ffff * 0xffff_ffff) by (nonlinear_arith)
        requires
            steps + 1 <= 0xffff_ffff,
            MAX_REWARD == 0x7fff_ffff,
    ;
}

} // verus!
