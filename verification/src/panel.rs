//! The decisions of the panel that shows the secret and the code.
//!
//! The panel is driven by messages. To each message it answers with a step:
//! what to ask of the engine, if anything, and whether to draw again. Whoever
//! runs the panel sends the command, and hands the answer back as a message.

use vstd::prelude::*;

verus! {

/// What the panel shows.
#[derive(Debug, PartialEq)]
pub struct Properties {
    /// The secret as it was last read.
    pub key: String,
    /// The code as it was last read.
    pub totp: String,
}

/// What can happen to the panel.
#[derive(Debug)]
pub enum Message {
    /// The user gave a new secret.
    SetKey(String),
    /// The user asked for the secret.
    RequestKey,
    /// The engine answered with the secret.
    UpdateKey(String),
    /// The user asked for the code.
    RequestTotp,
    /// The engine answered with the code.
    UpdateTOTP(String),
}

/// What the panel asks of the engine.
#[derive(Debug)]
pub enum Command {
    /// Set the secret to this text.
    SetKey(String),
    /// Read the secret.
    GetKey,
    /// Read the current code.
    GetTotp,
}

/// The answer of the panel to a message.
#[derive(Debug)]
pub struct Step {
    /// The command to send, if any.
    pub command: Option<Command>,
    /// Whether the panel has to be drawn again.
    pub render: bool,
}

/// Whether two panels show the same.
pub open spec fn shows_same(one: Properties, other: Properties) -> bool {
    one.key@ == other.key@ && one.totp@ == other.totp@
}

/// Whether `step` sends nothing and draws again.
pub open spec fn only_renders(step: Step) -> bool {
    step.command is None && step.render
}

/// Whether `step` sends `command` and does not draw.
pub open spec fn only_sends(step: Step, command: Command) -> bool {
    !step.render && match (step.command, command) {
        (Some(Command::SetKey(sent)), Command::SetKey(key)) => sent@ == key@,
        (Some(Command::GetKey), Command::GetKey) => true,
        (Some(Command::GetTotp), Command::GetTotp) => true,
        _ => false,
    }
}

/// What the panel shows at the start: nothing.
pub fn create() -> (props: Properties)
    ensures
        props.key@.len() == 0,
        props.totp@.len() == 0,
{
    Properties { key: String::new(), totp: String::new() }
}

/// Takes one message: updates what is shown, and says what to do next.
///
/// A request of the user becomes a command and changes nothing on the panel.
/// An answer of the engine is put on the panel, which is then drawn again.
pub fn update(props: &mut Properties, message: Message) -> (step: Step)
    ensures
        match message {
            Message::SetKey(key) => only_sends(step, Command::SetKey(key)) && shows_same(
                *final(props),
                *old(props),
            ),
            Message::RequestKey => only_sends(step, Command::GetKey) && shows_same(
                *final(props),
                *old(props),
            ),
            Message::UpdateKey(key) => only_renders(step) && final(props).key@ == key@
                && final(props).totp@ == old(props).totp@,
            Message::RequestTotp => only_sends(step, Command::GetTotp) && shows_same(
                *final(props),
                *old(props),
            ),
            Message::UpdateTOTP(totp) => only_renders(step) && final(props).totp@ == totp@
                && final(props).key@ == old(props).key@,
        },
{
    match message {
        Message::SetKey(key) => Step { command: Some(Command::SetKey(key)), render: false },
        Message::RequestKey => Step { command: Some(Command::GetKey), render: false },
        Message::UpdateKey(key) => {
            props.key = key;
            Step { command: None, render: true }
        },
        Message::RequestTotp => Step { command: Some(Command::GetTotp), render: false },
        Message::UpdateTOTP(totp) => {
            props.totp = totp;
            Step { command: None, render: true }
        },
    }
}

/// The name under which the engine knows a command.
pub fn command_name(command: &Command) -> (name: &'static str)
    ensures
        name@ == match command {
            Command::SetKey(_) => "set_key"@,
            Command::GetKey => "get_key"@,
            Command::GetTotp => "get_totp"@,
        },
{
    match command {
        Command::SetKey(_) => "set_key",
        Command::GetKey => "get_key",
        Command::GetTotp => "get_totp",
    }
}

/// The text to show for an answer of the engine: the answer where it is a
/// text, and `unknown!` where it is none.
pub fn answer_text(answer: Option<String>) -> (text: String)
    ensures
        text@ == match answer {
            Some(given) => given@,
            None => "unknown!"@,
        },
{
    match answer {
        Some(given) => given,
        None => "unknown!".to_owned(),
    }
}

} // verus!
