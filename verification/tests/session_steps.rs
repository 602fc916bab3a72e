use ale::{Ale, BundledRom, GameInfo, Observation};

fn tiny_game() -> GameInfo {
    GameInfo::new(2, 1, vec![0, 1, 3, 4]).unwrap()
}

fn loaded(max_frames: u32) -> Ale {
    let mut ale = Ale::new(max_frames);
    ale.load_rom(BundledRom::Breakout, &tiny_game());
    ale
}

fn shows(lives: i32, fill: u8) -> Observation {
    Observation { lives, screen: vec![fill; 6] }
}

#[test]
fn a_new_session_has_no_game() {
    let ale = Ale::new(108_000);
    assert!(ale.program().is_none());
    assert_eq!(ale.action_dim(), 0);
    assert_eq!(ale.legal_action_set(), Vec::<i32>::new());
    assert_eq!(ale.screen(), Vec::<u8>::new());
    assert_eq!(ale.screen_width(), 0);
    assert_eq!(ale.screen_height(), 0);
    assert_eq!(ale.score(), 0);
    assert_eq!(ale.lives(), 0);
    assert_eq!(ale.episode_step(), 0);
    assert_eq!(ale.max_frames(), 108_000);
}

#[test]
fn loading_takes_the_action_set_and_the_geometry() {
    let mut ale = Ale::new(5);
    let info = GameInfo::new(160, 210, vec![0, 1, 3, 4]).unwrap();
    ale.load_rom(BundledRom::Breakout, &info);
    assert!(ale.program().as_ref().unwrap().same_as(&ale::Program::Bundled(BundledRom::Breakout)));
    assert_eq!(ale.action_dim(), 4);
    assert_eq!(ale.legal_action_set(), vec![0, 1, 3, 4]);
    assert_eq!(ale.screen_width(), 160);
    assert_eq!(ale.screen_height(), 210);
    assert_eq!(ale.rgb_size(), 100_800);
    assert_eq!(ale.grayscale_size(), 33_600);
    assert_eq!(ale.screen(), vec![0u8; 100_800]);
    assert_eq!(ale.max_frames(), 5);
}

#[test]
fn loading_a_file_remembers_its_path() {
    let mut ale = Ale::new(5);
    ale.load_rom_file(b"/tmp/roms/pong.bin", &tiny_game());
    let program = ale.program().as_ref().unwrap();
    assert!(program.same_as(&ale::Program::File(b"/tmp/roms/pong.bin".to_vec())));
    assert!(!program.same_as(&ale::Program::Bundled(BundledRom::Pong)));
}

#[test]
fn loading_keeps_score_and_step_count() {
    let mut ale = loaded(100);
    ale.act(0, 4, &shows(3, 1));
    ale.load_rom(BundledRom::Pong, &GameInfo::new(1, 1, vec![0, 2]).unwrap());
    assert_eq!(ale.score(), 4);
    assert_eq!(ale.episode_step(), 1);
    assert_eq!(ale.lives(), 3);
    assert_eq!(ale.action_dim(), 2);
    assert_eq!(ale.screen(), vec![0, 0, 0]);
}

#[test]
fn action_codes_follow_the_emulators_order() {
    let ale = loaded(10);
    assert_eq!(ale.action_code(0), 0);
    assert_eq!(ale.action_code(1), 1);
    assert_eq!(ale.action_code(2), 3);
    assert_eq!(ale.action_code(3), 4);
}

#[test]
fn act_returns_the_reward_and_adds_it_to_the_score() {
    let mut ale = loaded(100);
    assert_eq!(ale.act(1, 7, &shows(5, 1)), (7, false, false));
    assert_eq!(ale.score(), 7);
    assert_eq!(ale.act(2, -2, &shows(5, 2)), (-2, false, false));
    assert_eq!(ale.score(), 5);
    assert_eq!(ale.act(3, 0, &shows(5, 3)), (0, false, false));
    assert_eq!(ale.score(), 5);
    assert_eq!(ale.episode_step(), 3);
}

#[test]
fn act_with_the_largest_rewards() {
    let mut ale = loaded(100);
    assert_eq!(ale.act(0, i32::MAX, &shows(1, 0)), (i32::MAX, false, false));
    assert_eq!(ale.act(0, i32::MAX, &shows(1, 0)), (i32::MAX, false, false));
    assert_eq!(ale.score(), 4_294_967_294);
    ale.reset_game(&shows(1, 0));
    assert_eq!(ale.act(0, i32::MIN, &shows(1, 0)), (i32::MIN, false, false));
    assert_eq!(ale.act(0, i32::MIN, &shows(1, 0)), (i32::MIN, false, false));
    assert_eq!(ale.score(), -4_294_967_296);
}

#[test]
fn act_replaces_the_whole_picture() {
    let mut ale = loaded(100);
    ale.act(0, 0, &Observation { lives: 5, screen: vec![1, 2, 3, 4, 5, 6] });
    assert_eq!(ale.screen(), vec![1, 2, 3, 4, 5, 6]);
    ale.act(0, 0, &Observation { lives: 5, screen: vec![9, 8, 7, 0, 0, 0] });
    assert_eq!(ale.screen(), vec![9, 8, 7, 0, 0, 0]);
}

#[test]
fn act_reports_a_lost_life() {
    let mut ale = loaded(100);
    ale.reset_game(&shows(5, 0));
    assert_eq!(ale.act(0, 0, &shows(5, 0)), (0, false, false));
    assert_eq!(ale.act(0, 0, &shows(4, 0)), (0, true, false));
    assert_eq!(ale.lives(), 4);
    assert_eq!(ale.act(0, 0, &shows(4, 0)), (0, false, false));
    assert_eq!(ale.act(0, 3, &shows(0, 0)), (3, true, false));
    assert_eq!(ale.lives(), 0);
}

#[test]
fn a_gained_life_is_no_lost_life() {
    let mut ale = loaded(100);
    ale.reset_game(&shows(2, 0));
    assert_eq!(ale.act(0, 0, &shows(3, 0)), (0, false, false));
    assert_eq!(ale.lives(), 3);
}

#[test]
fn truncation_comes_with_the_tenth_step_and_not_before() {
    let mut ale = loaded(10);
    ale.reset_game(&shows(5, 0));
    for step in 1..=9u32 {
        assert!(!ale.truncates());
        assert_eq!(ale.act(0, 1, &shows(5, 0)), (1, false, false));
        assert_eq!(ale.episode_step(), step);
    }
    assert!(ale.truncates());
    assert_eq!(ale.act(0, 1, &shows(5, 0)), (1, false, true));
    assert_eq!(ale.episode_step(), 10);
    assert_eq!(ale.act(0, 1, &shows(5, 0)), (1, false, true));
}

#[test]
fn truncation_starts_over_after_a_reset() {
    let mut ale = loaded(2);
    ale.reset_game(&shows(5, 0));
    assert_eq!(ale.act(0, 0, &shows(5, 0)), (0, false, false));
    assert_eq!(ale.act(0, 0, &shows(5, 0)), (0, false, true));
    ale.reset_game(&shows(5, 0));
    assert_eq!(ale.act(0, 0, &shows(5, 0)), (0, false, false));
    assert_eq!(ale.act(0, 0, &shows(5, 0)), (0, false, true));
}

#[test]
fn a_horizon_of_one_or_none_truncates_every_step() {
    let mut ale = loaded(1);
    assert_eq!(ale.act(0, 0, &shows(5, 0)), (0, false, true));
    let mut ale = loaded(0);
    assert!(ale.truncates());
    assert_eq!(ale.act(0, 0, &shows(5, 0)), (0, false, true));
}

#[test]
fn reset_zeroes_score_and_step_count() {
    let mut ale = loaded(10);
    ale.act(1, 7, &shows(5, 1));
    ale.act(1, 7, &shows(4, 1));
    assert_eq!(ale.score(), 14);
    assert_eq!(ale.episode_step(), 2);
    ale.reset_game(&shows(5, 9));
    assert_eq!(ale.score(), 0);
    assert_eq!(ale.episode_step(), 0);
    assert_eq!(ale.lives(), 5);
    assert_eq!(ale.screen(), vec![9; 6]);
}

#[test]
fn reset_of_a_fresh_session() {
    let mut ale = loaded(10);
    ale.reset_game(&shows(3, 2));
    assert_eq!(ale.score(), 0);
    assert_eq!(ale.episode_step(), 0);
    assert_eq!(ale.lives(), 3);
    assert_eq!(ale.legal_action_set(), vec![0, 1, 3, 4]);
    assert_eq!(ale.max_frames(), 10);
}

#[test]
fn reset_keeps_the_game_and_its_actions() {
    let mut ale = loaded(10);
    ale.act(0, 1, &shows(1, 1));
    ale.reset_game(&shows(1, 1));
    assert!(ale.program().is_some());
    assert_eq!(ale.action_dim(), 4);
    assert_eq!(ale.screen_width(), 2);
    assert_eq!(ale.screen_height(), 1);
}

#[test]
fn get_screen_rgb_fills_the_callers_buffer() {
    let mut ale = loaded(10);
    ale.act(0, 0, &Observation { lives: 1, screen: vec![1, 2, 3, 4, 5, 6] });
    let mut buf = [0u8; 6];
    ale.get_screen_rgb(&mut buf);
    assert_eq!(buf, [1, 2, 3, 4, 5, 6]);
}

#[test]
fn screen_is_a_copy() {
    let mut ale = loaded(10);
    let mut picture = ale.screen();
    picture[0] = 77;
    assert_eq!(ale.screen(), vec![0; 6]);
    ale.act(0, 0, &shows(1, 3));
    assert_eq!(picture[0], 77);
}

#[test]
fn lives_are_kept_as_the_emulator_counts_them() {
    let mut ale = loaded(100);
    ale.reset_game(&shows(5, 0));
    assert_eq!(ale.act(0, 0, &shows(256, 0)), (0, false, false));
    assert_eq!(ale.lives(), 256);
    assert_eq!(ale.act(0, 0, &shows(255, 0)), (0, true, false));
    assert_eq!(ale.lives(), 255);
    ale.reset_game(&shows(256, 0));
    assert_eq!(ale.lives(), 256);
    ale.reset_game(&shows(i32::MAX, 0));
    assert_eq!(ale.lives(), 2_147_483_647);
    assert_eq!(ale.act(0, 0, &shows(0, 0)), (0, true, false));
    assert_eq!(ale.lives(), 0);
}

#[test]
fn fits_wants_lives_that_are_not_negative_and_a_picture_of_the_screen() {
    let ale = loaded(100);
    assert!(ale.fits(&shows(0, 1)));
    assert!(ale.fits(&shows(5, 1)));
    assert!(ale.fits(&shows(i32::MAX, 1)));
    assert!(!ale.fits(&shows(-1, 1)));
    assert!(!ale.fits(&shows(i32::MIN, 1)));
    assert!(!ale.fits(&Observation { lives: 5, screen: vec![0; 5] }));
    assert!(!ale.fits(&Observation { lives: 5, screen: vec![0; 7] }));
    assert!(!ale.fits(&Observation { lives: 5, screen: vec![] }));
    assert!(Ale::new(1).fits(&Observation { lives: 0, screen: vec![] }));
}

#[test]
fn act_keeps_the_game_and_its_actions() {
    let mut ale = loaded(10);
    ale.act(3, 1, &shows(1, 1));
    assert!(ale.program().as_ref().unwrap().same_as(&ale::Program::Bundled(BundledRom::Breakout)));
    assert_eq!(ale.legal_action_set(), vec![0, 1, 3, 4]);
    assert_eq!(ale.screen_width(), 2);
    assert_eq!(ale.screen_height(), 1);
    assert_eq!(ale.max_frames(), 10);
    assert_eq!(ale.screen().len(), 6);
}
