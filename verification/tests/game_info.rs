use ale::game::frame_len;
use ale::{BundledRom, GameInfo, Program};

#[test]
fn game_info_keeps_what_the_emulator_reported() {
    let info = GameInfo::new(160, 210, vec![0, 1, 3, 4]).unwrap();
    assert_eq!(info.width(), 160);
    assert_eq!(info.height(), 210);
    assert_eq!(info.actions(), &vec![0, 1, 3, 4]);
}

#[test]
fn game_info_of_an_empty_screen() {
    let info = GameInfo::new(0, 0, vec![]).unwrap();
    assert_eq!(info.width(), 0);
    assert_eq!(info.height(), 0);
    assert!(info.actions().is_empty());
}

#[test]
fn game_info_rejects_a_negative_width() {
    assert!(GameInfo::new(-1, 210, vec![0]).is_none());
}

#[test]
fn game_info_rejects_a_negative_height() {
    assert!(GameInfo::new(160, -210, vec![0]).is_none());
}

#[test]
fn game_info_takes_as_many_actions_as_a_byte_counts() {
    assert!(GameInfo::new(1, 1, vec![7; 255]).is_some());
    assert!(GameInfo::new(1, 1, vec![7; 256]).is_none());
}

#[test]
fn frame_len_is_three_bytes_a_pixel() {
    assert_eq!(frame_len(160, 210), Some(100_800));
    assert_eq!(frame_len(0, 210), Some(0));
    assert_eq!(frame_len(1, 1), Some(3));
}

#[test]
fn frame_len_of_a_picture_too_large_to_index() {
    assert_eq!(frame_len(usize::MAX, 2), None);
    assert_eq!(frame_len(usize::MAX / 2, 1), None);
    assert_eq!(frame_len(usize::MAX / 3, 1), Some(usize::MAX / 3 * 3));
}

#[test]
fn programs_are_the_same_by_game_or_by_path() {
    let breakout = Program::Bundled(BundledRom::Breakout);
    let pong = Program::Bundled(BundledRom::Pong);
    let file = Program::File(b"/roms/breakout.bin".to_vec());
    let other_file = Program::File(b"/roms/breakout.bim".to_vec());
    let shorter_file = Program::File(b"/roms/breakout".to_vec());
    assert!(breakout.same_as(&Program::Bundled(BundledRom::Breakout)));
    assert!(!breakout.same_as(&pong));
    assert!(!breakout.same_as(&file));
    assert!(!file.same_as(&breakout));
    assert!(file.same_as(&Program::File(b"/roms/breakout.bin".to_vec())));
    assert!(!file.same_as(&other_file));
    assert!(!file.same_as(&shorter_file));
}

#[test]
fn a_duplicate_is_the_same_program() {
    let file = Program::File(vec![1, 2, 3]);
    assert!(file.duplicate().same_as(&file));
    let game = Program::Bundled(BundledRom::Seaquest);
    assert!(game.duplicate().same_as(&game));
}
