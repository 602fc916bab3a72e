use crate::bytes::bytes_equal;
use crate::rom::BundledRom;
use vstd::prelude::*;

verus! {

/// The largest action set a session can index: an action is chosen by a byte,
/// and the size of the set is itself reported as a byte.
pub const MAX_ACTIONS: usize = 255;

/// Bytes per pixel of a colour observation.
pub const RGB_CHANNELS: usize = 3;

/// The number of bytes in a colour picture of the given size.
pub open spec fn rgb_len(width: int, height: int) -> int {
    width * height * 3
}

/// Whether a session can hold a game whose screen has the given size and
/// which accepts the given number of actions.
pub open spec fn describable(width: int, height: int, actions: nat) -> bool {
    &&& 0 <= width
    &&& 0 <= height
    &&& rgb_len(width, height) <= usize::MAX
    &&& actions <= MAX_ACTIONS
}

/// What the emulator reports once a game is installed: the size of its
/// screen and the codes of the actions it accepts, in the emulator's order.
#[derive(Debug)]
pub struct GameInfo {
    width: usize,
    height: usize,
    actions: Vec<i32>,
}

pub struct GameInfoView {
    pub width: nat,
    pub height: nat,
    pub actions: Seq<i32>,
}

impl View for GameInfo {
    type V = GameInfoView;

    closed spec fn view(&self) -> GameInfoView {
        GameInfoView {
            width: self.width as nat,
            height: self.height as nat,
            actions: self.actions@,
        }
    }
}

impl GameInfo {
    /// Every `GameInfo` describes a game that a session can hold.
    pub open spec fn wf(&self) -> bool {
        describable(self@.width as int, self@.height as int, self@.actions.len())
    }

    /// Takes the screen size and the action set as the emulator reported
    /// them. The emulator counts in signed integers; a negative size, a
    /// picture too large to index, or more actions than a byte can choose
    /// from cannot be described.
    pub fn new(width: i32, height: i32, actions: Vec<i32>) -> (info: Option<GameInfo>)
        ensures
            info.is_some() == describable(width as int, height as int, actions@.len()),
            info matches Some(g) ==> {
                &&& g.wf()
                &&& g@.width == width
                &&& g@.height == height
                &&& g@.actions == actions@
            },
    {
        if width < 0 || height < 0 || actions.len() > MAX_ACTIONS {
            return None;
        }
        let w: usize = width as usize;
        let h: usize = height as usize;
        match frame_len(w, h) {
            Some(_) => Some(GameInfo { width: w, height: h, actions }),
            None => None,
        }
    }

    pub fn width(&self) -> (w: usize)
        ensures
            w == self@.width,
    {
        self.width
    }

    pub fn height(&self) -> (h: usize)
        ensures
            h == self@.height,
    {
        self.height
    }

    pub fn actions(&self) -> (a: &Vec<i32>)
        ensures
            a@ == self@.actions,
    {
        &self.actions
    }
}

/// The number of bytes in a colour picture of the given size, where that
/// number can be a length.
pub fn frame_len(width: usize, height: usize) -> (len: Option<usize>)
    ensures
        len.is_some() == (rgb_len(width as int, height as int) <= usize::MAX),
        len matches Some(n) ==> n == rgb_len(width as int, height as int),
{
    match width.checked_mul(height) {
        Some(pixels) => pixels.checked_mul(RGB_CHANNELS),
        None => {
            assert(width * height * 3 >= width * height) by (nonlinear_arith);
            None
        },
    }
}

/// What the emulator shows after an action or a reset: the number of lives
/// left, as the emulator counts them, and the colour picture on the screen.
#[derive(Clone, Debug, PartialEq, Eq)]
pub struct Observation {
    pub lives: i32,
    pub screen: Vec<u8>,
}

pub struct ObservationView {
    pub lives: i32,
    pub screen: Seq<u8>,
}

impl View for Observation {
    type V = ObservationView;

    open spec fn view(&self) -> ObservationView {
        ObservationView { lives: self.lives, screen: self.screen@ }
    }
}

/// The game a session runs: one of the bundled games, or a file named by
/// its path.
#[derive(Debug)]
pub enum Program {
    Bundled(BundledRom),
    File(Vec<u8>),
}

pub enum ProgramView {
    Bundled(BundledRom),
    File(Seq<u8>),
}

impl View for Program {
    type V = ProgramView;

    open spec fn view(&self) -> ProgramView {
        match self {
            Program::Bundled(rom) => ProgramView::Bundled(*rom),
            Program::File(path) => ProgramView::File(path@),
        }
    }
}

impl Program {
    /// Whether two sessions run the same game.
    pub fn same_as(&self, other: &Program) -> (same: bool)
        ensures
            same == (self@ == other@),
    {
        match (self, other) {
            (Program::Bundled(a), Program::Bundled(b)) => *a == *b,
            (Program::File(a), Program::File(b)) => bytes_equal(a.as_slice(), b.as_slice()),
            _ => false,
        }
    }

    /// A copy of this value.
    pub fn duplicate(&self) -> (copy: Program)
        ensures
            copy@ == self@,
    {
        match self {
            Program::Bundled(rom) => Program::Bundled(*rom),
            Program::File(path) => Program::File(path.clone()),
        }
    }
}

} // verus!
