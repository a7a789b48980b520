use dungeon::command::{AsCommand, Command};
use dungeon::coord::{AsDirection, Direction};
use dungeon::input::{Input, InputState, Key};

#[test]
fn held_direction_keys_decode_to_moves() {
    let w = InputState::Active(Input::Key(Key::Char('w')));
    let arrow = InputState::Active(Input::Key(Key::Left));
    assert_eq!(w.as_command(), Some(Command::Move(Direction::Up)));
    assert_eq!(arrow.as_command(), Some(Command::Move(Direction::Left)));
}

#[test]
fn one_shot_commands_fire_on_press_only() {
    let press = InputState::Press(Input::Key(Key::Char('l')));
    let held = InputState::Active(Input::Key(Key::Char('l')));
    assert_eq!(press.as_command(), Some(Command::Evoke(Direction::Right)));
    assert_eq!(held.as_command(), None);

    let cycle = InputState::Press(Input::Key(Key::Char('o')));
    assert_eq!(cycle.as_command(), Some(Command::CycleSpell(true)));
    let back = InputState::Press(Input::Key(Key::Char('q')));
    assert_eq!(back.as_command(), Some(Command::CycleSpell(false)));

    let select = InputState::Press(Input::Key(Key::Char('4')));
    assert_eq!(select.as_command(), Some(Command::SelectSpell(3)));

    let mouse = InputState::Press(Input::MouseLeft);
    assert_eq!(mouse.as_command(), Some(Command::EvokeMouse));
}

#[test]
fn releases_and_strangers_decode_to_nothing() {
    assert_eq!(InputState::Release(Input::Key(Key::Char('w'))).as_command(), None);
    assert_eq!(InputState::Press(Input::Key(Key::Char('x'))).as_command(), None);
    assert_eq!(InputState::Active(Input::MouseRight).as_command(), None);
}

#[test]
fn keys_name_their_directions() {
    assert_eq!(Key::Char('a').as_direction(), Some(Direction::Left));
    assert_eq!(Key::Down.as_direction(), Some(Direction::Down));
    assert_eq!(Key::Char('z').as_direction(), None);
}
