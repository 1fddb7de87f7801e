use libfmod_demos::keys::{
    command_for_key, heading_for_key, slot_for_digit, Axis, Command, Key, Step,
};

#[test]
fn escape_quits() {
    assert_eq!(command_for_key(Key::Escape, false, 6), Command::Quit);
    assert_eq!(command_for_key(Key::Escape, true, 0), Command::Quit);
}

#[test]
fn help_key_toggles_help() {
    assert_eq!(command_for_key(Key::Char('h'), false, 6), Command::ToggleHelp);
    assert_eq!(command_for_key(Key::Char('H'), true, 6), Command::ToggleHelp);
}

#[test]
fn digits_toggle_their_slots() {
    let digits = ['1', '2', '3', '4', '5', '6'];
    for (slot, digit) in digits.iter().enumerate() {
        assert_eq!(command_for_key(Key::Char(*digit), false, 6), Command::ToggleEvent { slot });
        assert_eq!(slot_for_digit(*digit), Some(slot));
    }
}

#[test]
fn digits_beyond_the_loaded_events_are_ignored() {
    assert_eq!(command_for_key(Key::Char('3'), false, 3), Command::ToggleEvent { slot: 2 });
    assert_eq!(command_for_key(Key::Char('4'), false, 3), Command::Ignore);
    assert_eq!(command_for_key(Key::Char('6'), false, 5), Command::Ignore);
    assert_eq!(command_for_key(Key::Char('1'), false, 0), Command::Ignore);
}

#[test]
fn other_digits_are_no_slots() {
    assert_eq!(slot_for_digit('0'), None);
    assert_eq!(slot_for_digit('7'), None);
    assert_eq!(slot_for_digit('9'), None);
    assert_eq!(command_for_key(Key::Char('0'), false, 6), Command::Ignore);
    assert_eq!(command_for_key(Key::Char('7'), false, 60), Command::Ignore);
}

#[test]
fn space_stops_all() {
    assert_eq!(command_for_key(Key::Char(' '), false, 6), Command::StopAll);
}

#[test]
fn movement_keys_move_the_source() {
    let table = [
        ('w', Axis::Z, true),
        ('s', Axis::Z, false),
        ('a', Axis::X, true),
        ('d', Axis::X, false),
        ('q', Axis::Y, false),
        ('e', Axis::Y, true),
    ];
    for (c, axis, negative) in table {
        let upper = c.to_ascii_uppercase();
        assert_eq!(heading_for_key(c), Some((axis, negative)));
        assert_eq!(heading_for_key(upper), Some((axis, negative)));
        assert_eq!(
            command_for_key(Key::Char(c), false, 6),
            Command::MoveSource { axis, negative, step: Step::Coarse }
        );
        assert_eq!(
            command_for_key(Key::Char(upper), true, 6),
            Command::MoveSource { axis, negative, step: Step::Fine }
        );
        assert_eq!(
            command_for_key(Key::Char(upper), false, 0),
            Command::MoveSource { axis, negative, step: Step::Coarse }
        );
    }
}

#[test]
fn reset_key_resets_the_source() {
    assert_eq!(command_for_key(Key::Char('r'), false, 6), Command::ResetSource);
    assert_eq!(command_for_key(Key::Char('R'), true, 6), Command::ResetSource);
}

#[test]
fn plus_and_minus_nudge_the_parameters() {
    assert_eq!(command_for_key(Key::Char('+'), false, 6), Command::NudgeParameter { up: true });
    assert_eq!(command_for_key(Key::Char('='), false, 6), Command::NudgeParameter { up: true });
    assert_eq!(command_for_key(Key::Char('-'), false, 6), Command::NudgeParameter { up: false });
    assert_eq!(command_for_key(Key::Char('_'), true, 6), Command::NudgeParameter { up: false });
}

#[test]
fn unknown_keys_are_ignored() {
    assert_eq!(command_for_key(Key::Other, false, 6), Command::Ignore);
    assert_eq!(command_for_key(Key::Other, true, 6), Command::Ignore);
    for c in ['x', 'Z', '\n', '\t', '*', 'é', '0'] {
        assert_eq!(command_for_key(Key::Char(c), false, 6), Command::Ignore);
        assert_eq!(heading_for_key(c), None);
    }
}
