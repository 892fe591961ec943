//! The messages that travel between the screens, the controller and the
//! host loop.

use vstd::prelude::*;

verus! {

/// What a screen answers once it has handled a key.
#[derive(Debug, PartialEq, Eq)]
pub enum Message {
    /// Nothing for the controller to do.
    Nothing,
    /// Leave the program.
    Quit,
    /// Have the host run the given command.
    OpenExternalCommand(String),
    /// Forget the whole history and go back to the selection.
    DisplayStackClear,
    /// Go back to the note visited before the current one.
    DisplayStackPop,
    /// Go on to the note with the given identifier.
    DisplayStackPush(String),
}

/// What the controller tells the loop that hosts it.
#[derive(Debug, PartialEq, Eq)]
pub enum TerminalMessage {
    /// Carry on.
    Nothing,
    /// End the loop.
    Quit,
    /// Suspend the interface and run the given command.
    OpenExternalCommand(String),
}

/// A [`Message`] with its strings as sequences of characters.
pub enum MessageView {
    Nothing,
    Quit,
    OpenExternalCommand(Seq<char>),
    DisplayStackClear,
    DisplayStackPop,
    DisplayStackPush(Seq<char>),
}

/// A [`TerminalMessage`] with its string as a sequence of characters.
pub enum TerminalMessageView {
    Nothing,
    Quit,
    OpenExternalCommand(Seq<char>),
}

impl View for Message {
    type V = MessageView;

    open spec fn view(&self) -> MessageView {
        match *self {
            Message::Nothing => MessageView::Nothing,
            Message::Quit => MessageView::Quit,
            Message::OpenExternalCommand(command) => MessageView::OpenExternalCommand(command@),
            Message::DisplayStackClear => MessageView::DisplayStackClear,
            Message::DisplayStackPop => MessageView::DisplayStackPop,
            Message::DisplayStackPush(id) => MessageView::DisplayStackPush(id@),
        }
    }
}

impl View for TerminalMessage {
    type V = TerminalMessageView;

    open spec fn view(&self) -> TerminalMessageView {
        match *self {
            TerminalMessage::Nothing => TerminalMessageView::Nothing,
            TerminalMessage::Quit => TerminalMessageView::Quit,
            TerminalMessage::OpenExternalCommand(command) => {
                TerminalMessageView::OpenExternalCommand(command@)
            },
        }
    }
}

impl Clone for Message {
    fn clone(&self) -> (r: Self)
        ensures
            r == *self,
    {
        match self {
            Message::Nothing => Message::Nothing,
            Message::Quit => Message::Quit,
            Message::OpenExternalCommand(command) => Message::OpenExternalCommand(command.clone()),
            Message::DisplayStackClear => Message::DisplayStackClear,
            Message::DisplayStackPop => Message::DisplayStackPop,
            Message::DisplayStackPush(id) => Message::DisplayStackPush(id.clone()),
        }
    }
}

impl Clone for TerminalMessage {
    fn clone(&self) -> (r: Self)
        ensures
            r == *self,
    {
        match self {
            TerminalMessage::Nothing => TerminalMessage::Nothing,
            TerminalMessage::Quit => TerminalMessage::Quit,
            TerminalMessage::OpenExternalCommand(command) => TerminalMessage::OpenExternalCommand(
                command.clone(),
            ),
        }
    }
}

impl MessageView {
    /// The instruction that the controller hands outward for this message:
    /// quitting and external commands are passed on, everything else is
    /// settled inside the controller.
    pub open spec fn instruction(self) -> TerminalMessageView {
        match self {
            MessageView::Quit => TerminalMessageView::Quit,
            MessageView::OpenExternalCommand(command) => {
                TerminalMessageView::OpenExternalCommand(command)
            },
            _ => TerminalMessageView::Nothing,
        }
    }

    /// Whether this message asks for a change of the navigation stack.
    pub open spec fn navigates(self) -> bool {
        self is DisplayStackClear || self is DisplayStackPop || self is DisplayStackPush
    }
}

} // verus!
