//! The button that switches the material.

use vstd::prelude::*;
use vstd::string::StringExecFns;

verus! {

/// What the pointer does to the button.
#[derive(Clone, Copy, Debug, PartialEq, Eq, Structural)]
pub enum Interaction {
    /// The button is held down.
    Pressed,
    /// The pointer rests on the button.
    Hovered,
    /// Nothing touches the button.
    Idle,
}

/// The colours that the button takes.
#[derive(Clone, Copy, Debug, PartialEq, Eq, Structural)]
pub enum ButtonColor {
    Blue,
    Gray,
    White,
}

/// Word that the button has been pressed.
#[derive(Clone, Debug, PartialEq, Eq)]
pub struct MyEvent {
    pub message: String,
}

/// How the button answers an interaction.
#[derive(Clone, Debug, PartialEq, Eq)]
pub struct ButtonResponse {
    /// The background that the button takes.
    pub background: ButtonColor,
    /// The event to send, if the interaction is a press.
    pub event: Option<MyEvent>,
}

/// The background of the button under an interaction.
pub open spec fn background_of(interaction: Interaction) -> ButtonColor {
    match interaction {
        Interaction::Pressed => ButtonColor::Blue,
        Interaction::Hovered => ButtonColor::Gray,
        Interaction::Idle => ButtonColor::White,
    }
}

/// The message that the button sends when it is pressed, if it sends one.
pub open spec fn message_of(interaction: Interaction) -> Option<Seq<char>> {
    match interaction {
        Interaction::Pressed => Some("MyEvent just happened!"@),
        Interaction::Hovered => None,
        Interaction::Idle => None,
    }
}

/// Answers a change of the button's interaction: the background to show, and
/// for a press the event to send.
pub fn button_response(interaction: Interaction) -> (response: ButtonResponse)
    ensures
        response.background == background_of(interaction),
        match response.event {
            Some(event) => message_of(interaction) == Some(event.message@),
            None => message_of(interaction) is None,
        },
{
    match interaction {
        Interaction::Pressed => ButtonResponse {
            background: ButtonColor::Blue,
            event: Some(MyEvent { message: String::from_str("MyEvent just happened!") }),
        },
        Interaction::Hovered => ButtonResponse { background: ButtonColor::Gray, event: None },
        Interaction::Idle => ButtonResponse { background: ButtonColor::White, event: None },
    }
}

} // verus!
