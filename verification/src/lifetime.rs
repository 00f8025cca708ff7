//! Music while the application comes and goes.

use vstd::prelude::*;

verus! {

/// What the system tells the application of its life.
#[derive(Clone, Copy, Debug, PartialEq, Eq, Structural)]
pub enum ApplicationLifetime {
    /// The application has started.
    Started,
    /// The application goes to the background.
    Suspended,
    /// The application is back in front.
    Resumed,
}

/// What to do with the music.
#[derive(Clone, Copy, Debug, PartialEq, Eq, Structural)]
pub enum AudioCommand {
    Pause,
    Play,
}

/// The music pauses when the application is suspended and plays on when it is
/// resumed; a start leaves it alone.
pub open spec fn audio_command_of(event: ApplicationLifetime) -> Option<AudioCommand> {
    match event {
        ApplicationLifetime::Suspended => Some(AudioCommand::Pause),
        ApplicationLifetime::Resumed => Some(AudioCommand::Play),
        ApplicationLifetime::Started => None,
    }
}

/// What to do with the music on a lifetime event, if anything.
pub fn handle_lifetime(event: ApplicationLifetime) -> (command: Option<AudioCommand>)
    ensures
        command == audio_command_of(event),
{
    match event {
        ApplicationLifetime::Suspended => Some(AudioCommand::Pause),
        ApplicationLifetime::Resumed => Some(AudioCommand::Play),
        ApplicationLifetime::Started => None,
    }
}

} // verus!
