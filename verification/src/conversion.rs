//! The translation of events from the windowing library's vocabulary into
//! the GUI framework's.
//!
//! [`baseview_to_iced_events`] is the event pump: it takes one foreign event,
//! brings the tracked modifier state up to date and appends what the event
//! translates to. The other functions are the pieces it is made of. Each
//! comes with a specification function that says what it computes, and the
//! proof functions at the end of the file state what holds of the
//! translation as a whole.

use vstd::prelude::*;
use crate::foreign;
use crate::foreign::NamedKey;
use crate::target;

verus! {

/// The target modifier set that a foreign snapshot stands for: each of the
/// four target flags is set exactly when its foreign counterpart is. The
/// "control" flag of the snapshot is the "ctrl" flag of the set, and "meta"
/// is "logo"; further bits of the snapshot have no counterpart.
pub open spec fn translated_modifiers(observed: foreign::Modifiers) -> target::Modifiers {
    target::Modifiers {
        shift: observed.holds(foreign::Modifiers::SHIFT),
        ctrl: observed.holds(foreign::Modifiers::CONTROL),
        alt: observed.holds(foreign::Modifiers::ALT),
        logo: observed.holds(foreign::Modifiers::META),
    }
}

/// The notification that reconciling `current` with `observed` gives rise
/// to: a "modifiers changed" event with the new set when the snapshot stands
/// for another set than `current`, and nothing when it stands for the same.
pub open spec fn modifiers_changed(
    current: target::Modifiers,
    observed: foreign::Modifiers,
) -> Option<target::Event> {
    if translated_modifiers(observed) != current {
        Some(
            target::Event::Keyboard(
                target::KeyboardEvent::ModifiersChanged(translated_modifiers(observed)),
            ),
        )
    } else {
        None
    }
}

/// Reconciles the tracked modifier set with a snapshot that an event
/// carried. Afterwards the set is the one the snapshot stands for, and the
/// result is the "modifiers changed" event to deliver, if the set changed.
pub fn update_modifiers(
    iced_modifiers: &mut target::Modifiers,
    baseview_modifiers: foreign::Modifiers,
) -> (event: Option<target::Event>)
    ensures
        *final(iced_modifiers) == translated_modifiers(baseview_modifiers),
        event == modifiers_changed(*old(iced_modifiers), baseview_modifiers),
{
    let new = target::Modifiers {
        shift: baseview_modifiers.contains(foreign::Modifiers::SHIFT),
        ctrl: baseview_modifiers.contains(foreign::Modifiers::CONTROL),
        alt: baseview_modifiers.contains(foreign::Modifiers::ALT),
        logo: baseview_modifiers.contains(foreign::Modifiers::META),
    };
    if *iced_modifiers != new {
        *iced_modifiers = new;
        Some(target::Event::Keyboard(target::KeyboardEvent::ModifiersChanged(new)))
    } else {
        None
    }
}

/// The target button that a foreign button stands for. The back and forward
/// buttons become the numbered buttons 6 and 7; a numbered button keeps its
/// number.
pub open spec fn translated_button(id: foreign::MouseButton) -> target::MouseButton {
    match id {
        foreign::MouseButton::Left => target::MouseButton::Left,
        foreign::MouseButton::Middle => target::MouseButton::Middle,
        foreign::MouseButton::Right => target::MouseButton::Right,
        foreign::MouseButton::Back => target::MouseButton::Other(6),
        foreign::MouseButton::Forward => target::MouseButton::Other(7),
        foreign::MouseButton::Other(number) => target::MouseButton::Other(number as u16),
    }
}

/// Translates a mouse button.
pub fn baseview_mouse_button_to_iced(id: foreign::MouseButton) -> (button: target::MouseButton)
    ensures
        button == translated_button(id),
{
    match id {
        foreign::MouseButton::Left => target::MouseButton::Left,
        foreign::MouseButton::Middle => target::MouseButton::Middle,
        foreign::MouseButton::Right => target::MouseButton::Right,
        foreign::MouseButton::Back => target::MouseButton::Other(6),
        foreign::MouseButton::Forward => target::MouseButton::Other(7),
        foreign::MouseButton::Other(other_id) => target::MouseButton::Other(other_id as u16),
    }
}

/// The target scroll amount that a foreign one stands for: the same unit
/// and the same two numbers.
pub open spec fn translated_scroll_delta(delta: foreign::ScrollDelta) -> target::ScrollDelta {
    match delta {
        foreign::ScrollDelta::Lines { x, y } => target::ScrollDelta::Lines { x, y },
        foreign::ScrollDelta::Pixels { x, y } => target::ScrollDelta::Pixels { x, y },
    }
}

/// Translates a scroll amount.
pub fn baseview_scroll_delta_to_iced(delta: foreign::ScrollDelta) -> (scrolled: target::ScrollDelta)
    ensures
        scrolled == translated_scroll_delta(delta),
{
    match delta {
        foreign::ScrollDelta::Lines { x, y } => target::ScrollDelta::Lines { x, y },
        foreign::ScrollDelta::Pixels { x, y } => target::ScrollDelta::Pixels { x, y },
    }
}

/// The target key location that a foreign one stands for.
pub open spec fn translated_location(location: foreign::Location) -> target::Location {
    match location {
        foreign::Location::Standard => target::Location::Standard,
        foreign::Location::Left => target::Location::Left,
        foreign::Location::Right => target::Location::Right,
        foreign::Location::Numpad => target::Location::Numpad,
    }
}

/// Translates a key location.
pub fn baseview_to_iced_key_location(location: foreign::Location) -> (translated: target::Location)
    ensures
        translated == translated_location(location),
{
    match location {
        foreign::Location::Standard => target::Location::Standard,
        foreign::Location::Left => target::Location::Left,
        foreign::Location::Right => target::Location::Right,
        foreign::Location::Numpad => target::Location::Numpad,
    }
}

/// The key-mapping table: the named target key that a named foreign key
/// stands for, where it has one. A key is recognized when the table has an
/// entry for it; the entry then bears the same name.
pub open spec fn translated_named_key(key: NamedKey) -> Option<target::Named> {
    match key {
        NamedKey::Escape => Some(target::Named::Escape),
        NamedKey::F1 => Some(target::Named::F1),
        NamedKey::F2 => Some(target::Named::F2),
        NamedKey::F3 => Some(target::Named::F3),
        NamedKey::F4 => Some(target::Named::F4),
        NamedKey::F5 => Some(target::Named::F5),
        NamedKey::F6 => Some(target::Named::F6),
        NamedKey::F7 => Some(target::Named::F7),
        NamedKey::F8 => Some(target::Named::F8),
        NamedKey::F9 => Some(target::Named::F9),
        NamedKey::F10 => Some(target::Named::F10),
        NamedKey::F11 => Some(target::Named::F11),
        NamedKey::F12 => Some(target::Named::F12),
        NamedKey::PrintScreen => Some(target::Named::PrintScreen),
        NamedKey::ScrollLock => Some(target::Named::ScrollLock),
        NamedKey::Pause => Some(target::Named::Pause),
        NamedKey::Insert => Some(target::Named::Insert),
        NamedKey::Home => Some(target::Named::Home),
        NamedKey::Delete => Some(target::Named::Delete),
        NamedKey::End => Some(target::Named::End),
        NamedKey::PageDown => Some(target::Named::PageDown),
        NamedKey::PageUp => Some(target::Named::PageUp),
        NamedKey::ArrowLeft => Some(target::Named::ArrowLeft),
        NamedKey::ArrowUp => Some(target::Named::ArrowUp),
        NamedKey::ArrowRight => Some(target::Named::ArrowRight),
        NamedKey::ArrowDown => Some(target::Named::ArrowDown),
        NamedKey::Backspace => Some(target::Named::Backspace),
        NamedKey::Enter => Some(target::Named::Enter),
        NamedKey::NumLock => Some(target::Named::NumLock),
        NamedKey::Alt => Some(target::Named::Alt),
        NamedKey::Control => Some(target::Named::Control),
        NamedKey::Shift => Some(target::Named::Shift),
        NamedKey::Meta => Some(target::Named::Meta),
        NamedKey::Tab => Some(target::Named::Tab),
        NamedKey::Copy => Some(target::Named::Copy),
        NamedKey::Paste => Some(target::Named::Paste),
        NamedKey::Cut => Some(target::Named::Cut),
        NamedKey::MediaStop => Some(target::Named::MediaStop),
        NamedKey::MediaPlayPause => Some(target::Named::MediaPlayPause),
        NamedKey::AudioVolumeMute => Some(target::Named::AudioVolumeMute),
        NamedKey::AudioVolumeDown => Some(target::Named::AudioVolumeDown),
        NamedKey::AudioVolumeUp => Some(target::Named::AudioVolumeUp),
        NamedKey::MediaTrackNext => Some(target::Named::MediaTrackNext),
        NamedKey::MediaTrackPrevious => Some(target::Named::MediaTrackPrevious),
        _ => None,
    }
}

/// The target key that a foreign key stands for: a character key keeps its
/// text, a recognized named key becomes its namesake, and every other key is
/// unidentified.
pub open spec fn translated_key(key: foreign::Key) -> target::Key {
    match key {
        foreign::Key::Character(text) => target::Key::Character(text),
        foreign::Key::Named(named) => match translated_named_key(named) {
            Some(namesake) => target::Key::Named(namesake),
            None => target::Key::Unidentified,
        },
    }
}

/// The text that a key produces: that of a character key, and none for any
/// other key.
pub open spec fn key_text(key: foreign::Key) -> Option<String> {
    match key {
        foreign::Key::Character(text) => Some(text),
        foreign::Key::Named(_) => None,
    }
}

/// Translates the key, the location and the text of a keyboard event.
///
/// Every event has a translation: a key outside the mapping table comes out
/// as [`target::Key::Unidentified`], at the location it was reported at.
/// Text comes out for character keys and for no others.
pub fn baseview_to_iced_keyevent(event: foreign::KeyboardEvent) -> (translated: (
    target::Key,
    target::Location,
    Option<String>,
))
    ensures
        translated.0 == translated_key(event.key),
        translated.1 == translated_location(event.location),
        translated.2 == key_text(event.key),
        translated.2 is Some <==> event.key is Character,
        translated.0 is Unidentified <==> event.key is Named && translated_named_key(
            event.key->Named_0,
        ) is None,
{
    let location = baseview_to_iced_key_location(event.location);

    match event.key {
        foreign::Key::Character(text) => (
            target::Key::Character(text.clone()),
            location,
            Some(text),
        ),
        foreign::Key::Named(NamedKey::Escape) => (target::Key::Named(target::Named::Escape), location, None),
        foreign::Key::Named(NamedKey::F1) => (target::Key::Named(target::Named::F1), location, None),
        foreign::Key::Named(NamedKey::F2) => (target::Key::Named(target::Named::F2), location, None),
        foreign::Key::Named(NamedKey::F3) => (target::Key::Named(target::Named::F3), location, None),
        foreign::Key::Named(NamedKey::F4) => (target::Key::Named(target::Named::F4), location, None),
        foreign::Key::Named(NamedKey::F5) => (target::Key::Named(target::Named::F5), location, None),
        foreign::Key::Named(NamedKey::F6) => (target::Key::Named(target::Named::F6), location, None),
        foreign::Key::Named(NamedKey::F7) => (target::Key::Named(target::Named::F7), location, None),
        foreign::Key::Named(NamedKey::F8) => (target::Key::Named(target::Named::F8), location, None),
        foreign::Key::Named(NamedKey::F9) => (target::Key::Named(target::Named::F9), location, None),
        foreign::Key::Named(NamedKey::F10) => (target::Key::Named(target::Named::F10), location, None),
        foreign::Key::Named(NamedKey::F11) => (target::Key::Named(target::Named::F11), location, None),
        foreign::Key::Named(NamedKey::F12) => (target::Key::Named(target::Named::F12), location, None),
        foreign::Key::Named(NamedKey::PrintScreen) => (target::Key::Named(target::Named::PrintScreen), location, None),
        foreign::Key::Named(NamedKey::ScrollLock) => (target::Key::Named(target::Named::ScrollLock), location, None),
        foreign::Key::Named(NamedKey::Pause) => (target::Key::Named(target::Named::Pause), location, None),
        foreign::Key::Named(NamedKey::Insert) => (target::Key::Named(target::Named::Insert), location, None),
        foreign::Key::Named(NamedKey::Home) => (target::Key::Named(target::Named::Home), location, None),
        foreign::Key::Named(NamedKey::Delete) => (target::Key::Named(target::Named::Delete), location, None),
        foreign::Key::Named(NamedKey::End) => (target::Key::Named(target::Named::End), location, None),
        foreign::Key::Named(NamedKey::PageDown) => (target::Key::Named(target::Named::PageDown), location, None),
        foreign::Key::Named(NamedKey::PageUp) => (target::Key::Named(target::Named::PageUp), location, None),
        foreign::Key::Named(NamedKey::ArrowLeft) => (target::Key::Named(target::Named::ArrowLeft), location, None),
        foreign::Key::Named(NamedKey::ArrowUp) => (target::Key::Named(target::Named::ArrowUp), location, None),
        foreign::Key::Named(NamedKey::ArrowRight) => (target::Key::Named(target::Named::ArrowRight), location, None),
        foreign::Key::Named(NamedKey::ArrowDown) => (target::Key::Named(target::Named::ArrowDown), location, None),
        foreign::Key::Named(NamedKey::Backspace) => (target::Key::Named(target::Named::Backspace), location, None),
        foreign::Key::Named(NamedKey::Enter) => (target::Key::Named(target::Named::Enter), location, None),
        foreign::Key::Named(NamedKey::NumLock) => (target::Key::Named(target::Named::NumLock), location, None),
        foreign::Key::Named(NamedKey::Alt) => (target::Key::Named(target::Named::Alt), location, None),
        foreign::Key::Named(NamedKey::Control) => (target::Key::Named(target::Named::Control), location, None),
        foreign::Key::Named(NamedKey::Shift) => (target::Key::Named(target::Named::Shift), location, None),
        foreign::Key::Named(NamedKey::Meta) => (target::Key::Named(target::Named::Meta), location, None),
        foreign::Key::Named(NamedKey::Tab) => (target::Key::Named(target::Named::Tab), location, None),
        foreign::Key::Named(NamedKey::Copy) => (target::Key::Named(target::Named::Copy), location, None),
        foreign::Key::Named(NamedKey::Paste) => (target::Key::Named(target::Named::Paste), location, None),
        foreign::Key::Named(NamedKey::Cut) => (target::Key::Named(target::Named::Cut), location, None),
        foreign::Key::Named(NamedKey::MediaStop) => (target::Key::Named(target::Named::MediaStop), location, None),
        foreign::Key::Named(NamedKey::MediaPlayPause) => (target::Key::Named(target::Named::MediaPlayPause), location, None),
        foreign::Key::Named(NamedKey::AudioVolumeMute) => (target::Key::Named(target::Named::AudioVolumeMute), location, None),
        foreign::Key::Named(NamedKey::AudioVolumeDown) => (target::Key::Named(target::Named::AudioVolumeDown), location, None),
        foreign::Key::Named(NamedKey::AudioVolumeUp) => (target::Key::Named(target::Named::AudioVolumeUp), location, None),
        foreign::Key::Named(NamedKey::MediaTrackNext) => (target::Key::Named(target::Named::MediaTrackNext), location, None),
        foreign::Key::Named(NamedKey::MediaTrackPrevious) => (target::Key::Named(target::Named::MediaTrackPrevious), location, None),
        foreign::Key::Named(_) => (target::Key::Unidentified, location, None),
    }
}

/// The modifier snapshot that the pump reads from an event: that of a
/// cursor movement, a button press or release, a turn of the wheel, or a
/// keyboard event. Other events have none.
pub open spec fn modifier_snapshot(event: foreign::Event) -> Option<foreign::Modifiers> {
    match event {
        foreign::Event::Mouse(foreign::MouseEvent::CursorMoved { modifiers, .. }) => Some(
            modifiers,
        ),
        foreign::Event::Mouse(foreign::MouseEvent::ButtonPressed { modifiers, .. }) => Some(
            modifiers,
        ),
        foreign::Event::Mouse(foreign::MouseEvent::ButtonReleased { modifiers, .. }) => Some(
            modifiers,
        ),
        foreign::Event::Mouse(foreign::MouseEvent::WheelScrolled { modifiers, .. }) => Some(
            modifiers,
        ),
        foreign::Event::Keyboard(event) => Some(event.modifiers),
        _ => None,
    }
}

/// The tracked modifier set after an event, given the set before it: empty
/// once the window has lost the focus, the set that the event's snapshot
/// stands for if it carries one, and unchanged otherwise.
pub open spec fn modifiers_after(
    event: foreign::Event,
    current: target::Modifiers,
) -> target::Modifiers {
    if event == foreign::Event::Window(foreign::WindowEvent::Unfocused) {
        target::Modifiers::none()
    } else {
        match modifier_snapshot(event) {
            Some(observed) => translated_modifiers(observed),
            None => current,
        }
    }
}

/// The "modifiers changed" event that an event gives rise to, as a sequence
/// of no or one event: present when the event carries a snapshot that stands
/// for another set than `current`.
pub open spec fn modifier_change(
    event: foreign::Event,
    current: target::Modifiers,
) -> Seq<target::Event> {
    match modifier_snapshot(event) {
        Some(observed) => match modifiers_changed(current, observed) {
            Some(changed) => seq![changed],
            None => Seq::empty(),
        },
        None => Seq::empty(),
    }
}

/// The translation of the event itself, as a sequence of no or one event.
/// `modifiers` is the tracked set after the event; key events report it.
///
/// Cursor movements, button presses and releases, turns of the wheel and
/// resizes always have a translation. Key events have one unless
/// `ignore_non_modifier_keys` is set: a press carries the key's text, a
/// release never does. All other events have none.
pub open spec fn primary_event(
    event: foreign::Event,
    modifiers: target::Modifiers,
    ignore_non_modifier_keys: bool,
) -> Seq<target::Event> {
    match event {
        foreign::Event::Mouse(foreign::MouseEvent::CursorMoved { x, y, .. }) => seq![
            target::Event::Mouse(target::MouseEvent::CursorMoved { x, y }),
        ],
        foreign::Event::Mouse(foreign::MouseEvent::ButtonPressed { button, .. }) => seq![
            target::Event::Mouse(target::MouseEvent::ButtonPressed(translated_button(button))),
        ],
        foreign::Event::Mouse(foreign::MouseEvent::ButtonReleased { button, .. }) => seq![
            target::Event::Mouse(target::MouseEvent::ButtonReleased(translated_button(button))),
        ],
        foreign::Event::Mouse(foreign::MouseEvent::WheelScrolled { delta, .. }) => seq![
            target::Event::Mouse(
                target::MouseEvent::WheelScrolled { delta: translated_scroll_delta(delta) },
            ),
        ],
        foreign::Event::Mouse(_) => Seq::empty(),
        foreign::Event::Keyboard(event) => if ignore_non_modifier_keys {
            Seq::empty()
        } else {
            match event.state {
                foreign::KeyState::Down => seq![
                    target::Event::Keyboard(
                        target::KeyboardEvent::KeyPressed {
                            key: translated_key(event.key),
                            location: translated_location(event.location),
                            modifiers,
                            text: key_text(event.key),
                        },
                    ),
                ],
                foreign::KeyState::Up => seq![
                    target::Event::Keyboard(
                        target::KeyboardEvent::KeyReleased {
                            key: translated_key(event.key),
                            location: translated_location(event.location),
                            modifiers,
                        },
                    ),
                ],
            }
        },
        foreign::Event::Window(foreign::WindowEvent::Resized { width, height }) => seq![
            target::Event::Window(
                target::WindowId::Main,
                target::WindowEvent::Resized {
                    width: width.truncated(),
                    height: height.truncated(),
                },
            ),
        ],
        foreign::Event::Window(_) => Seq::empty(),
    }
}

/// Everything that one foreign event translates to, in the order of
/// delivery: the "modifiers changed" event, if there is one, and then the
/// translation of the event itself, which reports the modifiers as they are
/// after the change.
pub open spec fn translated_events(
    event: foreign::Event,
    current: target::Modifiers,
    ignore_non_modifier_keys: bool,
) -> Seq<target::Event> {
    modifier_change(event, current) + primary_event(
        event,
        modifiers_after(event, current),
        ignore_non_modifier_keys,
    )
}

/// The event pump: translates one foreign event.
///
/// The translation is appended to `iced_events`, and `iced_modifiers`, the
/// modifier set tracked from event to event, is brought up to date. With
/// `ignore_non_modifier_keys` set, keyboard events still update the
/// modifiers but are not themselves translated.
pub fn baseview_to_iced_events(
    event: foreign::Event,
    iced_events: &mut Vec<target::Event>,
    iced_modifiers: &mut target::Modifiers,
    ignore_non_modifier_keys: bool,
)
    ensures
        final(iced_events)@ == old(iced_events)@ + translated_events(
            event,
            *old(iced_modifiers),
            ignore_non_modifier_keys,
        ),
        *final(iced_modifiers) == modifiers_after(event, *old(iced_modifiers)),
{
    match event {
        foreign::Event::Mouse(mouse_event) => match mouse_event {
            foreign::MouseEvent::CursorMoved { x, y, modifiers } => {
                if let Some(event) = update_modifiers(iced_modifiers, modifiers) {
                    iced_events.push(event);
                }
                iced_events.push(target::Event::Mouse(target::MouseEvent::CursorMoved { x, y }));
            },
            foreign::MouseEvent::ButtonPressed { button, modifiers } => {
                if let Some(event) = update_modifiers(iced_modifiers, modifiers) {
                    iced_events.push(event);
                }
                iced_events.push(
                    target::Event::Mouse(
                        target::MouseEvent::ButtonPressed(baseview_mouse_button_to_iced(button)),
                    ),
                );
            },
            foreign::MouseEvent::ButtonReleased { button, modifiers } => {
                if let Some(event) = update_modifiers(iced_modifiers, modifiers) {
                    iced_events.push(event);
                }
                iced_events.push(
                    target::Event::Mouse(
                        target::MouseEvent::ButtonReleased(baseview_mouse_button_to_iced(button)),
                    ),
                );
            },
            foreign::MouseEvent::WheelScrolled { delta, modifiers } => {
                if let Some(event) = update_modifiers(iced_modifiers, modifiers) {
                    iced_events.push(event);
                }
                iced_events.push(
                    target::Event::Mouse(
                        target::MouseEvent::WheelScrolled {
                            delta: baseview_scroll_delta_to_iced(delta),
                        },
                    ),
                );
            },
            _ => {},
        },
        foreign::Event::Keyboard(event) => {
            if let Some(event) = update_modifiers(iced_modifiers, event.modifiers) {
                iced_events.push(event);
            }
            if ignore_non_modifier_keys {
                return ;
            }
            let is_down = match event.state {
                foreign::KeyState::Down => true,
                foreign::KeyState::Up => false,
            };

            let (key, location, text) = baseview_to_iced_keyevent(event);

            if is_down {
                iced_events.push(
                    target::Event::Keyboard(
                        target::KeyboardEvent::KeyPressed {
                            key,
                            modifiers: *iced_modifiers,
                            location,
                            text,
                        },
                    ),
                );
            } else {
                iced_events.push(
                    target::Event::Keyboard(
                        target::KeyboardEvent::KeyReleased {
                            key,
                            modifiers: *iced_modifiers,
                            location,
                        },
                    ),
                );
            }
        },
        foreign::Event::Window(window_event) => match window_event {
            foreign::WindowEvent::Resized { width, height } => {
                iced_events.push(
                    target::Event::Window(
                        target::WindowId::Main,
                        target::WindowEvent::Resized {
                            width: width.to_u32(),
                            height: height.to_u32(),
                        },
                    ),
                );
            },
            foreign::WindowEvent::Unfocused => {
                *iced_modifiers = target::Modifiers::empty();
            },
            _ => {},
        },
    }
}

/// Whether a target event reports a change of the modifier set.
pub open spec fn is_modifier_change(event: target::Event) -> bool {
    event matches target::Event::Keyboard(keyboard) && keyboard is ModifiersChanged
}

/// Whether a target event reports a key going down or coming up.
pub open spec fn is_key_press_or_release(event: target::Event) -> bool {
    event matches target::Event::Keyboard(keyboard) && (keyboard is KeyPressed
        || keyboard is KeyReleased)
}

/// Reconciling with the same snapshot twice in a row: whatever the first
/// reconciliation did, the second one finds the tracked set equal to what the
/// snapshot stands for, reports no change and leaves the set as it is.
pub proof fn lemma_same_snapshot_changes_nothing(
    current: target::Modifiers,
    observed: foreign::Modifiers,
)
    ensures
        modifiers_changed(translated_modifiers(observed), observed) is None,
        modifiers_changed(current, observed) is Some <==> current != translated_modifiers(
            observed,
        ),
{
}

/// Two events in a row that carry the same modifier snapshot: the second one
/// gives rise to no "modifiers changed" event and leaves the tracked set as
/// the first one left it, whatever the set was before the first.
pub proof fn lemma_repeated_snapshot_is_silent(
    first: foreign::Event,
    second: foreign::Event,
    current: target::Modifiers,
)
    requires
        modifier_snapshot(first) is Some,
        modifier_snapshot(second) == modifier_snapshot(first),
    ensures
        modifier_change(second, modifiers_after(first, current)) == Seq::<target::Event>::empty(),
        modifiers_after(second, modifiers_after(first, current)) == modifiers_after(
            first,
            current,
        ),
{
}

/// An event whose snapshot stands for another modifier set than the tracked
/// one translates to exactly two events: first the "modifiers changed" event
/// with the new set, then the translation of the event itself. The one
/// exception, left out here, is a keyboard event while key events are
/// suppressed, which has no translation of its own.
pub proof fn lemma_modifier_change_comes_first(
    event: foreign::Event,
    current: target::Modifiers,
    ignore_non_modifier_keys: bool,
)
    requires
        modifier_snapshot(event) is Some,
        translated_modifiers(modifier_snapshot(event)->Some_0) != current,
        !(event is Keyboard && ignore_non_modifier_keys),
    ensures
        ({
            let new = translated_modifiers(modifier_snapshot(event)->Some_0);
            let primary = primary_event(event, new, ignore_non_modifier_keys);
            &&& primary.len() == 1
            &&& !is_modifier_change(primary[0])
            &&& translated_events(event, current, ignore_non_modifier_keys) == seq![
                target::Event::Keyboard(target::KeyboardEvent::ModifiersChanged(new)),
                primary[0],
            ]
        }),
{
    let new = translated_modifiers(modifier_snapshot(event)->Some_0);
    let primary = primary_event(event, new, ignore_non_modifier_keys);
    assert(translated_events(event, current, ignore_non_modifier_keys) =~= seq![
        target::Event::Keyboard(target::KeyboardEvent::ModifiersChanged(new)),
        primary[0],
    ]);
}

/// One event translates to at most two, of which only the first can be a
/// "modifiers changed" event.
pub proof fn lemma_at_most_two_events(
    event: foreign::Event,
    current: target::Modifiers,
    ignore_non_modifier_keys: bool,
)
    ensures
        translated_events(event, current, ignore_non_modifier_keys).len() <= 2,
        forall|i: int|
            1 <= i < translated_events(event, current, ignore_non_modifier_keys).len()
                ==> !is_modifier_change(
                #[trigger] translated_events(event, current, ignore_non_modifier_keys)[i],
            ),
{
}

/// Every key has a translation, and which kind it is of depends on the key
/// alone: a character key gives a character key, a named key that the
/// mapping table knows gives a named key, and any other key gives the
/// unidentified key. Text comes with character keys and with no others.
pub proof fn lemma_every_key_has_a_translation(key: foreign::Key)
    ensures
        translated_key(key) is Character <==> key is Character,
        translated_key(key) is Named <==> key is Named && translated_named_key(
            key->Named_0,
        ) is Some,
        translated_key(key) is Unidentified <==> key is Named && translated_named_key(
            key->Named_0,
        ) is None,
        key_text(key) is Some <==> key is Character,
        key is Character ==> translated_key(key) == target::Key::Character(key->Character_0)
            && key_text(key) == Some(key->Character_0),
{
}

/// The mapping table is one to one: no two named keys share a translation.
pub proof fn lemma_named_keys_map_one_to_one(first: NamedKey, second: NamedKey)
    requires
        translated_named_key(first) is Some,
        translated_named_key(first) == translated_named_key(second),
    ensures
        first == second,
{
}

/// While key events are suppressed, no event translates to a key press or a
/// key release, and a keyboard event translates to its "modifiers changed"
/// event alone, if it has one.
pub proof fn lemma_suppressed_keys_are_not_translated(
    event: foreign::Event,
    current: target::Modifiers,
)
    ensures
        forall|i: int|
            0 <= i < translated_events(event, current, true).len() ==> !is_key_press_or_release(
                #[trigger] translated_events(event, current, true)[i],
            ),
        event is Keyboard ==> translated_events(event, current, true) == modifier_change(
            event,
            current,
        ),
        event is Keyboard ==> modifiers_after(event, current) == translated_modifiers(
            event->Keyboard_0.modifiers,
        ),
{
    if event is Keyboard {
        assert(translated_events(event, current, true) =~= modifier_change(event, current));
    }
}

/// When the window loses the focus, the tracked modifier set becomes empty,
/// whatever it was, and nothing is delivered: not even a "modifiers changed"
/// event.
pub proof fn lemma_focus_loss_resets_modifiers(
    current: target::Modifiers,
    ignore_non_modifier_keys: bool,
)
    ensures
        modifiers_after(foreign::Event::Window(foreign::WindowEvent::Unfocused), current)
            == target::Modifiers::none(),
        translated_events(
            foreign::Event::Window(foreign::WindowEvent::Unfocused),
            current,
            ignore_non_modifier_keys,
        ) == Seq::<target::Event>::empty(),
{
    assert(translated_events(
        foreign::Event::Window(foreign::WindowEvent::Unfocused),
        current,
        ignore_non_modifier_keys,
    ) =~= Seq::<target::Event>::empty());
}

} // verus!
