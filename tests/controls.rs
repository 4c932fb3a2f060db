use asteroids::command::{
    decode_key, Command, Key, MODIFIER_ALT, MODIFIER_CONTROL, MODIFIER_SHIFT,
};
use asteroids::direction::Direction;

#[test]
fn quit_keys() {
    assert_eq!(decode_key(Key::Char('q'), 0), Some(Command::Quit));
    assert_eq!(decode_key(Key::Char('Q'), MODIFIER_SHIFT), Some(Command::Quit));
    assert_eq!(decode_key(Key::Esc, 0), Some(Command::Quit));
}

#[test]
fn control_c_quits() {
    assert_eq!(decode_key(Key::Char('c'), MODIFIER_CONTROL), Some(Command::Quit));
    assert_eq!(decode_key(Key::Char('C'), MODIFIER_CONTROL), Some(Command::Quit));
}

#[test]
fn plain_c_does_nothing() {
    assert_eq!(decode_key(Key::Char('c'), 0), None);
    assert_eq!(decode_key(Key::Char('C'), MODIFIER_SHIFT), None);
    assert_eq!(decode_key(Key::Char('c'), MODIFIER_ALT), None);
    assert_eq!(decode_key(Key::Char('c'), MODIFIER_CONTROL | MODIFIER_SHIFT), None);
}

#[test]
fn arrows_move() {
    assert_eq!(decode_key(Key::Right, 0), Some(Command::Move(Direction::Right)));
    assert_eq!(decode_key(Key::Left, 0), Some(Command::Move(Direction::Left)));
}

#[test]
fn f_shoots() {
    assert_eq!(decode_key(Key::Char('f'), 0), Some(Command::Shoot));
    assert_eq!(decode_key(Key::Char('F'), 0), None);
}

#[test]
fn other_keys_give_nothing() {
    assert_eq!(decode_key(Key::Other, 0), None);
    assert_eq!(decode_key(Key::Char('x'), 0), None);
    assert_eq!(decode_key(Key::Char(' '), MODIFIER_CONTROL), None);
}
