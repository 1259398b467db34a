use iced_baseview::conversion::update_modifiers;
use iced_baseview::foreign;
use iced_baseview::target;

fn snapshot(bits: u32) -> foreign::Modifiers {
    foreign::Modifiers { bits }
}

fn held(shift: bool, ctrl: bool, alt: bool, logo: bool) -> target::Modifiers {
    target::Modifiers { shift, ctrl, alt, logo }
}

fn changed(modifiers: target::Modifiers) -> Option<target::Event> {
    Some(target::Event::Keyboard(target::KeyboardEvent::ModifiersChanged(modifiers)))
}

#[test]
fn modifier_bits_are_those_of_the_keyboard_types() {
    assert_eq!(foreign::Modifiers::ALT, keyboard_types::Modifiers::ALT.bits());
    assert_eq!(foreign::Modifiers::CONTROL, keyboard_types::Modifiers::CONTROL.bits());
    assert_eq!(foreign::Modifiers::META, keyboard_types::Modifiers::META.bits());
    assert_eq!(foreign::Modifiers::SHIFT, keyboard_types::Modifiers::SHIFT.bits());
}

#[test]
fn contains_agrees_with_the_keyboard_types() {
    let flags = [
        keyboard_types::Modifiers::ALT,
        keyboard_types::Modifiers::CONTROL,
        keyboard_types::Modifiers::META,
        keyboard_types::Modifiers::SHIFT,
    ];
    let mut bits: u32 = 0;
    while bits < 0x4000 {
        let theirs = keyboard_types::Modifiers::from_bits_retain(bits);
        let ours = snapshot(bits);
        for flag in flags {
            assert_eq!(ours.contains(flag.bits()), theirs.contains(flag));
        }
        assert_eq!(
            ours.contains(foreign::Modifiers::ALT | foreign::Modifiers::SHIFT),
            theirs.contains(keyboard_types::Modifiers::ALT | keyboard_types::Modifiers::SHIFT)
        );
        bits += 1;
    }
}

#[test]
fn empty_set_holds_nothing() {
    assert_eq!(target::Modifiers::empty(), held(false, false, false, false));
}

#[test]
fn each_flag_maps_to_its_counterpart() {
    let mut current = target::Modifiers::empty();
    assert_eq!(
        update_modifiers(&mut current, snapshot(foreign::Modifiers::SHIFT)),
        changed(held(true, false, false, false))
    );
    assert_eq!(current, held(true, false, false, false));
    assert_eq!(
        update_modifiers(&mut current, snapshot(foreign::Modifiers::CONTROL)),
        changed(held(false, true, false, false))
    );
    assert_eq!(current, held(false, true, false, false));
    assert_eq!(
        update_modifiers(&mut current, snapshot(foreign::Modifiers::ALT)),
        changed(held(false, false, true, false))
    );
    assert_eq!(current, held(false, false, true, false));
    assert_eq!(
        update_modifiers(&mut current, snapshot(foreign::Modifiers::META)),
        changed(held(false, false, false, true))
    );
    assert_eq!(current, held(false, false, false, true));
}

#[test]
fn all_sixteen_combinations_translate_flag_by_flag() {
    let mut combination: u32 = 0;
    while combination < 16 {
        let shift = combination & 1 != 0;
        let ctrl = combination & 2 != 0;
        let alt = combination & 4 != 0;
        let logo = combination & 8 != 0;
        let mut bits: u32 = 0;
        if shift {
            bits |= foreign::Modifiers::SHIFT;
        }
        if ctrl {
            bits |= foreign::Modifiers::CONTROL;
        }
        if alt {
            bits |= foreign::Modifiers::ALT;
        }
        if logo {
            bits |= foreign::Modifiers::META;
        }
        let mut current = held(!shift, ctrl, alt, logo);
        assert_eq!(
            update_modifiers(&mut current, snapshot(bits)),
            changed(held(shift, ctrl, alt, logo))
        );
        assert_eq!(current, held(shift, ctrl, alt, logo));
        combination += 1;
    }
}

#[test]
fn same_snapshot_twice_reports_one_change() {
    let mut current = target::Modifiers::empty();
    let observed = snapshot(foreign::Modifiers::SHIFT | foreign::Modifiers::ALT);
    assert_eq!(
        update_modifiers(&mut current, observed),
        changed(held(true, false, true, false))
    );
    assert_eq!(update_modifiers(&mut current, observed), None);
    assert_eq!(update_modifiers(&mut current, observed), None);
    assert_eq!(current, held(true, false, true, false));
}

#[test]
fn unchanged_set_reports_nothing() {
    let mut current = target::Modifiers::empty();
    assert_eq!(update_modifiers(&mut current, snapshot(0)), None);
    assert_eq!(current, target::Modifiers::empty());
}

#[test]
fn releasing_a_modifier_is_a_change() {
    let mut current = held(true, true, false, false);
    assert_eq!(
        update_modifiers(&mut current, snapshot(foreign::Modifiers::CONTROL)),
        changed(held(false, true, false, false))
    );
    assert_eq!(update_modifiers(&mut current, snapshot(0)), changed(target::Modifiers::empty()));
    assert_eq!(current, target::Modifiers::empty());
}

#[test]
fn other_modifier_bits_are_passed_over() {
    let others = keyboard_types::Modifiers::CAPS_LOCK
        | keyboard_types::Modifiers::NUM_LOCK
        | keyboard_types::Modifiers::ALT_GRAPH
        | keyboard_types::Modifiers::FN;
    let mut current = target::Modifiers::empty();
    assert_eq!(update_modifiers(&mut current, snapshot(others.bits())), None);
    assert_eq!(current, target::Modifiers::empty());
    assert_eq!(
        update_modifiers(&mut current, snapshot(others.bits() | foreign::Modifiers::META)),
        changed(held(false, false, false, true))
    );
    assert_eq!(
        update_modifiers(&mut current, snapshot(foreign::Modifiers::META)),
        None
    );
    assert_eq!(update_modifiers(&mut current, snapshot(0xffff_c000 | foreign::Modifiers::META)), None);
}
