use vstd::prelude::*;

verus! {

/// The games that the library knows by name.
///
/// The emulator recognises a game by the name of the file it is loaded from,
/// so every game has one fixed file name.
#[derive(Clone, Copy, Debug, PartialEq, Eq, Hash, Structural)]
pub enum BundledRom {
    Adventure,
    AirRaid,
    Alien,
    Amidar,
    Assault,
    Asterix,
    Asteroids,
    Atlantis,
    Atlantis2,
    Backgammon,
    BankHeist,
    BasicMath,
    BattleZone,
    BeamRider,
    Berzerk,
    Blackjack,
    Bowling,
    Boxing,
    Breakout,
    Carnival,
    Casino,
    Centipede,
    ChopperCommand,
    Combat,
    CrazyClimber,
    Crossbow,
    Darkchambers,
    Defender,
    DemonAttack,
    DonkeyKong,
    DoubleDunk,
    Earthworld,
    ElevatorAction,
    Enduro,
    Entombed,
    Et,
    FishingDerby,
    FlagCapture,
    Freeway,
    Frogger,
    Frostbite,
    Galaxian,
    Gopher,
    Gravitar,
    Hangman,
    HauntedHouse,
    Hero,
    HumanCannonball,
    IceHockey,
    Jamesbond,
    JourneyEscape,
    Joust,
    Kaboom,
    Kangaroo,
    KeystoneKapers,
    KingKong,
    Klax,
    Koolaid,
    Krull,
    KungFuMaster,
    LaserGates,
    LostLuggage,
    MarioBros,
    MazeCraze,
    MiniatureGolf,
    MontezumaRevenge,
    MrDo,
    MsPacman,
    NameThisGame,
    Othello,
    Pacman,
    Phoenix,
    Pitfall,
    Pitfall2,
    Pong,
    Pooyan,
    PrivateEye,
    Qbert,
    Riverraid,
    RoadRunner,
    Robotank,
    Seaquest,
    SirLancelot,
    Skiing,
    Solaris,
    SpaceInvaders,
    SpaceWar,
    StarGunner,
    Superman,
    Surround,
    Tennis,
    Tetris,
    TicTacToe3d,
    TimePilot,
    Trondead,
    Turmoil,
    Tutankham,
    UpNDown,
    Venture,
    VideoCheckers,
    VideoChess,
    VideoCube,
    VideoPinball,
    Warlords,
    WizardOfWor,
    WordZapper,
    YarsRevenge,
    Zaxxon,
}

impl BundledRom {
    /// The file name under which the emulator recognises this game.
    pub open spec fn file_name(self) -> Seq<char> {
        match self {
            BundledRom::Adventure => "adventure.bin"@,
            BundledRom::AirRaid => "air_raid.bin"@,
            BundledRom::Alien => "alien.bin"@,
            BundledRom::Amidar => "amidar.bin"@,
            BundledRom::Assault => "assault.bin"@,
            BundledRom::Asterix => "asterix.bin"@,
            BundledRom::Asteroids => "asteroids.bin"@,
            BundledRom::Atlantis => "atlantis.bin"@,
            BundledRom::Atlantis2 => "atlantis2.bin"@,
            BundledRom::Backgammon => "backgammon.bin"@,
            BundledRom::BankHeist => "bank_heist.bin"@,
            BundledRom::BasicMath => "basic_math.bin"@,
            BundledRom::BattleZone => "battle_zone.bin"@,
            BundledRom::BeamRider => "beam_rider.bin"@,
            BundledRom::Berzerk => "berzerk.bin"@,
            BundledRom::Blackjack => "blackjack.bin"@,
            BundledRom::Bowling => "bowling.bin"@,
            BundledRom::Boxing => "boxing.bin"@,
            BundledRom::Breakout => "breakout.bin"@,
            BundledRom::Carnival => "carnival.bin"@,
            BundledRom::Casino => "casino.bin"@,
            BundledRom::Centipede => "centipede.bin"@,
            BundledRom::ChopperCommand => "chopper_command.bin"@,
            BundledRom::Combat => "combat.bin"@,
            BundledRom::CrazyClimber => "crazy_climber.bin"@,
            BundledRom::Crossbow => "crossbow.bin"@,
            BundledRom::Darkchambers => "darkchambers.bin"@,
            BundledRom::Defender => "defender.bin"@,
            BundledRom::DemonAttack => "demon_attack.bin"@,
            BundledRom::DonkeyKong => "donkey_kong.bin"@,
            BundledRom::DoubleDunk => "double_dunk.bin"@,
            BundledRom::Earthworld => "earthworld.bin"@,
            BundledRom::ElevatorAction => "elevator_action.bin"@,
            BundledRom::Enduro => "enduro.bin"@,
            BundledRom::Entombed => "entombed.bin"@,
            BundledRom::Et => "et.bin"@,
            BundledRom::FishingDerby => "fishing_derby.bin"@,
            BundledRom::FlagCapture => "flag_capture.bin"@,
            BundledRom::Freeway => "freeway.bin"@,
            BundledRom::Frogger => "frogger.bin"@,
            BundledRom::Frostbite => "frostbite.bin"@,
            BundledRom::Galaxian => "galaxian.bin"@,
            BundledRom::Gopher => "gopher.bin"@,
            BundledRom::Gravitar => "gravitar.bin"@,
            BundledRom::Hangman => "hangman.bin"@,
            BundledRom::HauntedHouse => "haunted_house.bin"@,
            BundledRom::Hero => "hero.bin"@,
            BundledRom::HumanCannonball => "human_cannonball.bin"@,
            BundledRom::IceHockey => "ice_hockey.bin"@,
            BundledRom::Jamesbond => "jamesbond.bin"@,
            BundledRom::JourneyEscape => "journey_escape.bin"@,
            BundledRom::Joust => "joust.bin"@,
            BundledRom::Kaboom => "kaboom.bin"@,
            BundledRom::Kangaroo => "kangaroo.bin"@,
            BundledRom::KeystoneKapers => "keystone_kapers.bin"@,
            BundledRom::KingKong => "king_kong.bin"@,
            BundledRom::Klax => "klax.bin"@,
            BundledRom::Koolaid => "koolaid.bin"@,
            BundledRom::Krull => "krull.bin"@,
            BundledRom::KungFuMaster => "kung_fu_master.bin"@,
            BundledRom::LaserGates => "laser_gates.bin"@,
            BundledRom::LostLuggage => "lost_luggage.bin"@,
            BundledRom::MarioBros => "mario_bros.bin"@,
            BundledRom::MazeCraze => "maze_craze.bin"@,
            BundledRom::MiniatureGolf => "miniature_golf.bin"@,
            BundledRom::MontezumaRevenge => "montezuma_revenge.bin"@,
            BundledRom::MrDo => "mr_do.bin"@,
            BundledRom::MsPacman => "ms_pacman.bin"@,
            BundledRom::NameThisGame => "name_this_game.bin"@,
            BundledRom::Othello => "othello.bin"@,
            BundledRom::Pacman => "pacman.bin"@,
            BundledRom::Phoenix => "phoenix.bin"@,
            BundledRom::Pitfall => "pitfall.bin"@,
            BundledRom::Pitfall2 => "pitfall2.bin"@,
            BundledRom::Pong => "pong.bin"@,
            BundledRom::Pooyan => "pooyan.bin"@,
            BundledRom::PrivateEye => "private_eye.bin"@,
            BundledRom::Qbert => "qbert.bin"@,
            BundledRom::Riverraid => "riverraid.bin"@,
            BundledRom::RoadRunner => "road_runner.bin"@,
            BundledRom::Robotank => "robotank.bin"@,
            BundledRom::Seaquest => "seaquest.bin"@,
            BundledRom::SirLancelot => "sir_lancelot.bin"@,
            BundledRom::Skiing => "skiing.bin"@,
            BundledRom::Solaris => "solaris.bin"@,
            BundledRom::SpaceInvaders => "space_invaders.bin"@,
            BundledRom::SpaceWar => "space_war.bin"@,
            BundledRom::StarGunner => "star_gunner.bin"@,
            BundledRom::Superman => "superman.bin"@,
            BundledRom::Surround => "surround.bin"@,
            BundledRom::Tennis => "tennis.bin"@,
            BundledRom::Tetris => "tetris.bin"@,
            BundledRom::TicTacToe3d => "tic_tac_toe_3d.bin"@,
            BundledRom::TimePilot => "time_pilot.bin"@,
            BundledRom::Trondead => "trondead.bin"@,
            BundledRom::Turmoil => "turmoil.bin"@,
            BundledRom::Tutankham => "tutankham.bin"@,
            BundledRom::UpNDown => "up_n_down.bin"@,
            BundledRom::Venture => "venture.bin"@,
            BundledRom::VideoCheckers => "video_checkers.bin"@,
            BundledRom::VideoChess => "video_chess.bin"@,
            BundledRom::VideoCube => "video_cube.bin"@,
            BundledRom::VideoPinball => "video_pinball.bin"@,
            BundledRom::Warlords => "warlords.bin"@,
            BundledRom::WizardOfWor => "wizard_of_wor.bin"@,
            BundledRom::WordZapper => "word_zapper.bin"@,
            BundledRom::YarsRevenge => "yars_revenge.bin"@,
            BundledRom::Zaxxon => "zaxxon.bin"@,
        }
    }

    /// Returns the filename that the ROM should be named, in order for the
    /// emulator to pick up on it and use the correct settings.
    pub fn filename(&self) -> (name: &'static str)
        ensures
            name@ == self.file_name(),
    {
        match self {
            BundledRom::Adventure => "adventure.bin",
            BundledRom::AirRaid => "air_raid.bin",
            BundledRom::Alien => "alien.bin",
            BundledRom::Amidar => "amidar.bin",
            BundledRom::Assault => "assault.bin",
            BundledRom::Asterix => "asterix.bin",
            BundledRom::Asteroids => "asteroids.bin",
            BundledRom::Atlantis => "atlantis.bin",
            BundledRom::Atlantis2 => "atlantis2.bin",
            BundledRom::Backgammon => "backgammon.bin",
            BundledRom::BankHeist => "bank_heist.bin",
            BundledRom::BasicMath => "basic_math.bin",
            BundledRom::BattleZone => "battle_zone.bin",
            BundledRom::BeamRider => "beam_rider.bin",
            BundledRom::Berzerk => "berzerk.bin",
            BundledRom::Blackjack => "blackjack.bin",
            BundledRom::Bowling => "bowling.bin",
            BundledRom::Boxing => "boxing.bin",
            BundledRom::Breakout => "breakout.bin",
            BundledRom::Carnival => "carnival.bin",
            BundledRom::Casino => "casino.bin",
            BundledRom::Centipede => "centipede.bin",
            BundledRom::ChopperCommand => "chopper_command.bin",
            BundledRom::Combat => "combat.bin",
            BundledRom::CrazyClimber => "crazy_climber.bin",
            BundledRom::Crossbow => "crossbow.bin",
            BundledRom::Darkchambers => "darkchambers.bin",
            BundledRom::Defender => "defender.bin",
            BundledRom::DemonAttack => "demon_attack.bin",
            BundledRom::DonkeyKong => "donkey_kong.bin",
            BundledRom::DoubleDunk => "double_dunk.bin",
            BundledRom::Earthworld => "earthworld.bin",
            BundledRom::ElevatorAction => "elevator_action.bin",
            BundledRom::Enduro => "enduro.bin",
            BundledRom::Entombed => "entombed.bin",
            BundledRom::Et => "et.bin",
            BundledRom::FishingDerby => "fishing_derby.bin",
            BundledRom::FlagCapture => "flag_capture.bin",
            BundledRom::Freeway => "freeway.bin",
            BundledRom::Frogger => "frogger.bin",
            BundledRom::Frostbite => "frostbite.bin",
            BundledRom::Galaxian => "galaxian.bin",
            BundledRom::Gopher => "gopher.bin",
            BundledRom::Gravitar => "gravitar.bin",
            BundledRom::Hangman => "hangman.bin",
            BundledRom::HauntedHouse => "haunted_house.bin",
            BundledRom::Hero => "hero.bin",
            BundledRom::HumanCannonball => "human_cannonball.bin",
            BundledRom::IceHockey => "ice_hockey.bin",
            BundledRom::Jamesbond => "jamesbond.bin",
            BundledRom::JourneyEscape => "journey_escape.bin",
            BundledRom::Joust => "joust.bin",
            BundledRom::Kaboom => "kaboom.bin",
            BundledRom::Kangaroo => "kangaroo.bin",
            BundledRom::KeystoneKapers => "keystone_kapers.bin",
            BundledRom::KingKong => "king_kong.bin",
            BundledRom::Klax => "klax.bin",
            BundledRom::Koolaid => "koolaid.bin",
            BundledRom::Krull => "krull.bin",
            BundledRom::KungFuMaster => "kung_fu_master.bin",
            BundledRom::LaserGates => "laser_gates.bin",
            BundledRom::LostLuggage => "lost_luggage.bin",
            BundledRom::MarioBros => "mario_bros.bin",
            BundledRom::MazeCraze => "maze_craze.bin",
            BundledRom::MiniatureGolf => "miniature_golf.bin",
            BundledRom::MontezumaRevenge => "montezuma_revenge.bin",
            BundledRom::MrDo => "mr_do.bin",
            BundledRom::MsPacman => "ms_pacman.bin",
            BundledRom::NameThisGame => "name_this_game.bin",
            BundledRom::Othello => "othello.bin",
            BundledRom::Pacman => "pacman.bin",
            BundledRom::Phoenix => "phoenix.bin",
            BundledRom::Pitfall => "pitfall.bin",
            BundledRom::Pitfall2 => "pitfall2.bin",
            BundledRom::Pong => "pong.bin",
            BundledRom::Pooyan => "pooyan.bin",
            BundledRom::PrivateEye => "private_eye.bin",
            BundledRom::Qbert => "qbert.bin",
            BundledRom::Riverraid => "riverraid.bin",
            BundledRom::RoadRunner => "road_runner.bin",
            BundledRom::Robotank => "robotank.bin",
            BundledRom::Seaquest => "seaquest.bin",
            BundledRom::SirLancelot => "sir_lancelot.bin",
            BundledRom::Skiing => "skiing.bin",
            BundledRom::Solaris => "solaris.bin",
            BundledRom::SpaceInvaders => "space_invaders.bin",
            BundledRom::SpaceWar => "space_war.bin",
            BundledRom::StarGunner => "star_gunner.bin",
            BundledRom::Superman => "superman.bin",
            BundledRom::Surround => "surround.bin",
            BundledRom::Tennis => "tennis.bin",
            BundledRom::Tetris => "tetris.bin",
            BundledRom::TicTacToe3d => "tic_tac_toe_3d.bin",
            BundledRom::TimePilot => "time_pilot.bin",
            BundledRom::Trondead => "trondead.bin",
            BundledRom::Turmoil => "turmoil.bin",
            BundledRom::Tutankham => "tutankham.bin",
            BundledRom::UpNDown => "up_n_down.bin",
            BundledRom::Venture => "venture.bin",
            BundledRom::VideoCheckers => "video_checkers.bin",
            BundledRom::VideoChess => "video_chess.bin",
            BundledRom::VideoCube => "video_cube.bin",
            BundledRom::VideoPinball => "video_pinball.bin",
            BundledRom::Warlords => "warlords.bin",
            BundledRom::WizardOfWor => "wizard_of_wor.bin",
            BundledRom::WordZapper => "word_zapper.bin",
            BundledRom::YarsRevenge => "yars_revenge.bin",
            BundledRom::Zaxxon => "zaxxon.bin",
        }
    }
}

/// Whether a character can stand in the name of a bundled game, before the
/// ending of its file: a small letter, a digit or an underscore.
pub open spec fn plain(c: char) -> bool {
    ||| 'a' <= c <= 'z'
    ||| '0' <= c <= '9'
    ||| c == '_'
}

/// What the spelled-out names show of any two games: each name is a run
/// of plain characters followed by `.bin`, and the names of two games
/// differ.
proof fn lemma_spelled_out(a: BundledRom, b: BundledRom)
    ensures
        forall|i: int| 0 <= i < a.file_name().len() - 4 ==> plain(#[trigger] a.file_name()[i]),
        a.file_name().len() > 4,
        a.file_name().skip(a.file_name().len() - 4) == seq!['.', 'b', 'i', 'n'],
        a != b ==> a.file_name() != b.file_name(),
{
    reveal_strlit("adventure.bin");
    reveal_strlit("air_raid.bin");
    reveal_strlit("alien.bin");
    reveal_strlit("amidar.bin");
    reveal_strlit("assault.bin");
    reveal_strlit("asterix.bin");
    reveal_strlit("asteroids.bin");
    reveal_strlit("atlantis.bin");
    reveal_strlit("atlantis2.bin");
    reveal_strlit("backgammon.bin");
    reveal_strlit("bank_heist.bin");
    reveal_strlit("basic_math.bin");
    reveal_strlit("battle_zone.bin");
    reveal_strlit("beam_rider.bin");
    reveal_strlit("berzerk.bin");
    reveal_strlit("blackjack.bin");
    reveal_strlit("bowling.bin");
    reveal_strlit("boxing.bin");
    reveal_strlit("breakout.bin");
    reveal_strlit("carnival.bin");
    reveal_strlit("casino.bin");
    reveal_strlit("centipede.bin");
    reveal_strlit("chopper_command.bin");
    reveal_strlit("combat.bin");
    reveal_strlit("crazy_climber.bin");
    reveal_strlit("crossbow.bin");
    reveal_strlit("darkchambers.bin");
    reveal_strlit("defender.bin");
    reveal_strlit("demon_attack.bin");
    reveal_strlit("donkey_kong.bin");
    reveal_strlit("double_dunk.bin");
    reveal_strlit("earthworld.bin");
    reveal_strlit("elevator_action.bin");
    reveal_strlit("enduro.bin");
    reveal_strlit("entombed.bin");
    reveal_strlit("et.bin");
    reveal_strlit("fishing_derby.bin");
    reveal_strlit("flag_capture.bin");
    reveal_strlit("freeway.bin");
    reveal_strlit("frogger.bin");
    reveal_strlit("frostbite.bin");
    reveal_strlit("galaxian.bin");
    reveal_strlit("gopher.bin");
    reveal_strlit("gravitar.bin");
    reveal_strlit("hangman.bin");
    reveal_strlit("haunted_house.bin");
    reveal_strlit("hero.bin");
    reveal_strlit("human_cannonball.bin");
    reveal_strlit("ice_hockey.bin");
    reveal_strlit("jamesbond.bin");
    reveal_strlit("journey_escape.bin");
    reveal_strlit("joust.bin");
    reveal_strlit("kaboom.bin");
    reveal_strlit("kangaroo.bin");
    reveal_strlit("keystone_kapers.bin");
    reveal_strlit("king_kong.bin");
    reveal_strlit("klax.bin");
    reveal_strlit("koolaid.bin");
    reveal_strlit("krull.bin");
    reveal_strlit("kung_fu_master.bin");
    reveal_strlit("laser_gates.bin");
    reveal_strlit("lost_luggage.bin");
    reveal_strlit("mario_bros.bin");
    reveal_strlit("maze_craze.bin");
    reveal_strlit("miniature_golf.bin");
    reveal_strlit("montezuma_revenge.bin");
    reveal_strlit("mr_do.bin");
    reveal_strlit("ms_pacman.bin");
    reveal_strlit("name_this_game.bin");
    reveal_strlit("othello.bin");
    reveal_strlit("pacman.bin");
    reveal_strlit("phoenix.bin");
    reveal_strlit("pitfall.bin");
    reveal_strlit("pitfall2.bin");
    reveal_strlit("pong.bin");
    reveal_strlit("pooyan.bin");
    reveal_strlit("private_eye.bin");
    reveal_strlit("qbert.bin");
    reveal_strlit("riverraid.bin");
    reveal_strlit("road_runner.bin");
    reveal_strlit("robotank.bin");
    reveal_strlit("seaquest.bin");
    reveal_strlit("sir_lancelot.bin");
    reveal_strlit("skiing.bin");
    reveal_strlit("solaris.bin");
    reveal_strlit("space_invaders.bin");
    reveal_strlit("space_war.bin");
    reveal_strlit("star_gunner.bin");
    reveal_strlit("superman.bin");
    reveal_strlit("surround.bin");
    reveal_strlit("tennis.bin");
    reveal_strlit("tetris.bin");
    reveal_strlit("tic_tac_toe_3d.bin");
    reveal_strlit("time_pilot.bin");
    reveal_strlit("trondead.bin");
    reveal_strlit("turmoil.bin");
    reveal_strlit("tutankham.bin");
    reveal_strlit("up_n_down.bin");
    reveal_strlit("venture.bin");
    reveal_strlit("video_checkers.bin");
    reveal_strlit("video_chess.bin");
    reveal_strlit("video_cube.bin");
    reveal_strlit("video_pinball.bin");
    reveal_strlit("warlords.bin");
    reveal_strlit("wizard_of_wor.bin");
    reveal_strlit("word_zapper.bin");
    reveal_strlit("yars_revenge.bin");
    reveal_strlit("zaxxon.bin");
    let x = a.file_name();
    let y = b.file_name();
    assert(x.skip(x.len() - 4) =~= seq!['.', 'b', 'i', 'n']);
    // The length, the first and the third character together tell any two
    // names apart.
    assert(a != b ==> x.len() != y.len() || x[0] != y[0] || x[2] != y[2]);
}

/// No two games share a file name, so the emulator never takes one game for
/// another.
pub proof fn lemma_file_names_differ(a: BundledRom, b: BundledRom)
    requires
        a != b,
    ensures
        a.file_name() != b.file_name(),
{
    lemma_spelled_out(a, b);
}

/// Every file name is a name and no path: it is a name of small letters,
/// digits and underscores, at least one of them, followed by `.bin`. The
/// only dot is the one of the ending.
pub proof fn lemma_file_names_are_plain(rom: BundledRom)
    ensures
        forall|i: int|
            0 <= i < rom.file_name().len() - 4 ==> plain(#[trigger] rom.file_name()[i]),
        rom.file_name().len() > 4,
        rom.file_name().skip(rom.file_name().len() - 4) == seq!['.', 'b', 'i', 'n'],
{
    lemma_spelled_out(rom, rom);
}

} // verus!
