//! Window-system mouse input turned into DOM pointer events, and the set of held
//! buttons that those events carry.
//!
//! Button sets use the DOM `MouseEvent.buttons` numbering: bit 0 main (left), bit 1 secondary
//! (right), bit 2 auxiliary (middle), bit 3 fourth (back), bit 4 fifth (forward).
use vstd::prelude::*;

verus! {

/// A mouse button as the window system reports it.
#[derive(Debug, Clone, Copy, PartialEq, Eq, Structural)]
pub enum MouseButton {
    Left,
    Middle,
    Right,
    Back,
    Forward,
    Other(u8),
}

/// A pointer button as the DOM numbers them.
#[derive(Debug, Clone, Copy, PartialEq, Eq, Structural)]
pub enum PointerButton {
    Main,
    Auxiliary,
    Secondary,
    Fourth,
    Fifth,
}

/// The kind of DOM pointer event.
#[derive(Debug, Clone, Copy, PartialEq, Eq, Structural)]
pub enum PointerEventKind {
    Move,
    Down,
    Up,
}

/// A DOM pointer event without its coordinates.
#[derive(Debug, Clone, Copy, PartialEq, Eq, Structural)]
pub struct PointerEvent {
    pub kind: PointerEventKind,
    /// The button the event is about (`Main` for moves).
    pub button: PointerButton,
    /// The buttons held once the event has taken effect.
    pub buttons: u8,
}

/// Window-system mouse input, without coordinates and modifiers.
#[derive(Debug, Clone, Copy, PartialEq, Eq, Structural)]
pub enum MouseInput {
    CursorMoved,
    ButtonPressed(MouseButton),
    ButtonReleased(MouseButton),
    WheelScrolled,
    CursorEntered,
    CursorLeft,
    DragEntered,
    DragMoved,
    DragLeft,
    DragDropped,
}

/// The DOM button that a window-system button stands for.
pub open spec fn pointer_button_of(button: MouseButton) -> PointerButton {
    match button {
        MouseButton::Left => PointerButton::Main,
        MouseButton::Right => PointerButton::Secondary,
        MouseButton::Middle => PointerButton::Auxiliary,
        MouseButton::Back => PointerButton::Fourth,
        MouseButton::Forward => PointerButton::Fifth,
        MouseButton::Other(_) => PointerButton::Main,
    }
}

/// The bit that stands for `button` in a button set.
pub open spec fn button_bit(button: PointerButton) -> u8 {
    match button {
        PointerButton::Main => 1,
        PointerButton::Secondary => 2,
        PointerButton::Auxiliary => 4,
        PointerButton::Fourth => 8,
        PointerButton::Fifth => 16,
    }
}

/// The pointer event that `input` produces when `buttons` are held, or `None` when it
/// produces none.
pub open spec fn pointer_event_of(input: MouseInput, buttons: u8) -> Option<PointerEvent> {
    match input {
        MouseInput::CursorMoved => Some(
            PointerEvent { kind: PointerEventKind::Move, button: PointerButton::Main, buttons },
        ),
        MouseInput::ButtonPressed(b) => Some(
            PointerEvent {
                kind: PointerEventKind::Down,
                button: pointer_button_of(b),
                buttons: buttons | button_bit(pointer_button_of(b)),
            },
        ),
        MouseInput::ButtonReleased(b) => Some(
            PointerEvent {
                kind: PointerEventKind::Up,
                button: pointer_button_of(b),
                buttons: buttons & !button_bit(pointer_button_of(b)),
            },
        ),
        _ => None,
    }
}

/// Translate a window-system mouse button to a DOM pointer button.
pub fn translate_mouse_button(button: MouseButton) -> (r: PointerButton)
    ensures
        r == pointer_button_of(button),
{
    match button {
        MouseButton::Left => PointerButton::Main,
        MouseButton::Right => PointerButton::Secondary,
        MouseButton::Middle => PointerButton::Auxiliary,
        MouseButton::Back => PointerButton::Fourth,
        MouseButton::Forward => PointerButton::Fifth,
        MouseButton::Other(_) => PointerButton::Main,
    }
}

/// The bit that stands for `button` in a button set.
pub fn pointer_button_bit(button: PointerButton) -> (r: u8)
    ensures
        r == button_bit(button),
{
    match button {
        PointerButton::Main => 1,
        PointerButton::Secondary => 2,
        PointerButton::Auxiliary => 4,
        PointerButton::Fourth => 8,
        PointerButton::Fifth => 16,
    }
}

/// Translate mouse input to a pointer event, updating the set of held buttons.
///
/// Presses add their button to `buttons`, releases remove it, and everything else leaves it
/// alone; wheel, enter/leave and drag-and-drop input produce no pointer event.
pub fn translate_mouse_input(input: MouseInput, buttons: &mut u8) -> (r: Option<PointerEvent>)
    ensures
        r == pointer_event_of(input, *old(buttons)),
        *final(buttons) == (match r {
            Some(e) => e.buttons,
            None => *old(buttons),
        }),
{
    match input {
        MouseInput::CursorMoved => Some(
            PointerEvent { kind: PointerEventKind::Move, button: PointerButton::Main, buttons: *buttons },
        ),
        MouseInput::ButtonPressed(b) => {
            let button = translate_mouse_button(b);
            *buttons = *buttons | pointer_button_bit(button);
            Some(PointerEvent { kind: PointerEventKind::Down, button, buttons: *buttons })
        },
        MouseInput::ButtonReleased(b) => {
            let button = translate_mouse_button(b);
            *buttons = *buttons & !pointer_button_bit(button);
            Some(PointerEvent { kind: PointerEventKind::Up, button, buttons: *buttons })
        },
        _ => None,
    }
}

/// Whether cursor coordinates are clamped to the viewport: while a button is held, so that a
/// drag keeps reaching the element under it when the cursor leaves the window.
pub fn clamps_to_viewport(buttons: u8) -> (r: bool)
    ensures
        r == (buttons != 0),
{
    buttons != 0
}

/// A press marks its button as held and a release clears it; neither touches the other buttons.
pub proof fn lemma_press_release_bits(buttons: u8, button: PointerButton, other: PointerButton)
    requires
        other != button,
    ensures
        (buttons | button_bit(button)) & button_bit(button) != 0,
        (buttons & !button_bit(button)) & button_bit(button) == 0,
        ((buttons | button_bit(button)) & button_bit(other)) == (buttons & button_bit(other)),
        ((buttons & !button_bit(button)) & button_bit(other)) == (buttons & button_bit(other)),
{
    let b = button_bit(button);
    let o = button_bit(other);
    assert(b & o == 0u8 && b != 0) by {
        match button {
            PointerButton::Main => {},
            PointerButton::Auxiliary => {},
            PointerButton::Secondary => {},
            PointerButton::Fourth => {},
            PointerButton::Fifth => {},
        }
        match other {
            PointerButton::Main => {},
            PointerButton::Auxiliary => {},
            PointerButton::Secondary => {},
            PointerButton::Fourth => {},
            PointerButton::Fifth => {},
        }
        assert(1u8 & 2u8 == 0 && 1u8 & 4u8 == 0 && 1u8 & 8u8 == 0 && 1u8 & 16u8 == 0) by (bit_vector);
        assert(2u8 & 1u8 == 0 && 2u8 & 4u8 == 0 && 2u8 & 8u8 == 0 && 2u8 & 16u8 == 0) by (bit_vector);
        assert(4u8 & 1u8 == 0 && 4u8 & 2u8 == 0 && 4u8 & 8u8 == 0 && 4u8 & 16u8 == 0) by (bit_vector);
        assert(8u8 & 1u8 == 0 && 8u8 & 2u8 == 0 && 8u8 & 4u8 == 0 && 8u8 & 16u8 == 0) by (bit_vector);
        assert(16u8 & 1u8 == 0 && 16u8 & 2u8 == 0 && 16u8 & 4u8 == 0 && 16u8 & 8u8 == 0) by (bit_vector);
    }
    assert((buttons | b) & b != 0 && (buttons & !b) & b == 0 && ((buttons | b) & o) == (buttons & o)
        && ((buttons & !b) & o) == (buttons & o)) by (bit_vector)
        requires
            b & o == 0u8,
            b != 0u8,
    ;
}

/// Pressing and then releasing a button that was not held gives back the set of held buttons
/// from before the press.
pub proof fn lemma_press_then_release(buttons: u8, button: PointerButton)
    requires
        buttons & button_bit(button) == 0,
    ensures
        ((buttons | button_bit(button)) & !button_bit(button)) == buttons,
{
    let b = button_bit(button);
    assert(((buttons | b) & !b) == buttons) by (bit_vector)
        requires
            buttons & b == 0u8,
    ;
}

} // verus!
