use crate::directory::{first_with_mac, User, UserDb};
use crate::events::Event;
use crate::identifier::normalized;
use crate::model::SmsMessage;
use vstd::prelude::*;
use vstd::string::*;

verus! {

/// What the bot does about an event.
#[derive(Debug, PartialEq, Eq)]
pub enum Reaction {
    /// A device that belongs to nobody known came or went: note it.
    UnknownDevice { mac_address: String, connected: bool },
    /// The device of a known user came or went: have a message written from
    /// `prompt` and send it to `phone_number`.
    Notify { name: String, phone_number: String, mac_address: String, prompt: String, connected: bool },
    /// A text message came in: show it.
    Received(SmsMessage),
}

/// Who speaks in a conversation with the language model.
#[derive(Debug, Clone, Copy, PartialEq, Eq, Structural)]
pub enum Role {
    System,
    User,
    Assistant,
}

/// One turn of a conversation with the language model.
#[derive(Debug, PartialEq, Eq)]
pub struct ChatMessage {
    pub role: Role,
    pub content: String,
}

/// A conversation handed to the language model for completion.
#[derive(Debug, PartialEq, Eq)]
pub struct ChatRequest {
    pub model: String,
    pub messages: Vec<ChatMessage>,
}

/// The request for a message that welcomes `name` back.
pub open spec fn arrival_prompt(name: Seq<char>) -> Seq<char> {
    name + " has just arrived on the boat, welcome them back"@
}

/// The request for a message that bids `name` farewell.
pub open spec fn departure_prompt(name: Seq<char>) -> Seq<char> {
    name + " has just left the boat, say something bidding them farewell"@
}

/// The request for the message that suits the direction.
pub open spec fn prompt_for(name: Seq<char>, connected: bool) -> Seq<char> {
    if connected {
        arrival_prompt(name)
    } else {
        departure_prompt(name)
    }
}

/// Whether a reaction is the right one to a device that came (`connected`)
/// or went, given who is known.
pub open spec fn reacts_to_device(
    users: Seq<User>,
    mac_address: Seq<char>,
    connected: bool,
    reaction: Reaction,
) -> bool {
    match reaction {
        Reaction::UnknownDevice { mac_address: device, connected: direction } => {
            &&& device@ == mac_address
            &&& direction == connected
            &&& forall|i: int|
                0 <= i < users.len() ==> normalized(users[i].mac_address@) != normalized(
                    mac_address,
                )
        },
        Reaction::Notify { name, phone_number, mac_address: device, prompt, connected: direction } => {
            &&& device@ == mac_address
            &&& direction == connected
            &&& prompt@ == prompt_for(name@, connected)
            &&& exists|i: int|
                first_with_mac(users, mac_address, i) && users[i].name@ == name@
                    && users[i].phone_number@ == phone_number@
        },
        Reaction::Received(_) => false,
    }
}

/// Writes the request for the message about `name`.
pub fn prompt(name: &String, connected: bool) -> (text: String)
    ensures
        text@ == prompt_for(name@, connected),
{
    let mut text = name.clone();
    if connected {
        text.append(" has just arrived on the boat, welcome them back");
    } else {
        text.append(" has just left the boat, say something bidding them farewell");
    }
    text
}

/// Words the conversation from which the language model writes a message:
/// the model to ask, a general instruction, and the prompt, both in the
/// system's voice.
pub fn message_request(prompt: &str) -> (request: ChatRequest)
    ensures
        request.model@ == "gpt-4o-mini"@,
        request.messages@.len() == 2,
        request.messages@[0].role == Role::System,
        request.messages@[0].content@ == "You are a helpful assistant."@,
        request.messages@[1].role == Role::System,
        request.messages@[1].content@ == prompt@,
{
    let mut messages: Vec<ChatMessage> = Vec::new();
    messages.push(
        ChatMessage {
            role: Role::System,
            content: String::from_str("You are a helpful assistant."),
        },
    );
    messages.push(ChatMessage { role: Role::System, content: String::from_str(prompt) });
    ChatRequest { model: String::from_str("gpt-4o-mini"), messages }
}

fn react_to_device(users: &UserDb, mac_address: &String, connected: bool) -> (reaction: Reaction)
    ensures
        reacts_to_device(users.entries(), mac_address@, connected, reaction),
{
    match users.get_user_by_mac_address(mac_address) {
        None => Reaction::UnknownDevice { mac_address: mac_address.clone(), connected },
        Some(user) => Reaction::Notify {
            name: user.name.clone(),
            phone_number: user.phone_number.clone(),
            mac_address: mac_address.clone(),
            prompt: prompt(&user.name, connected),
            connected,
        },
    }
}

/// Decides what to do about an event. The owner of a device is the first
/// user known with its MAC address, in whatever case that is written.
pub fn react(users: &UserDb, event: Event) -> (reaction: Reaction)
    ensures
        match event {
            Event::DeviceArrived(mac_address) => reacts_to_device(
                users.entries(),
                mac_address@,
                true,
                reaction,
            ),
            Event::DeviceLeft(mac_address) => reacts_to_device(
                users.entries(),
                mac_address@,
                false,
                reaction,
            ),
            Event::MessageReceived(message) => reaction == Reaction::Received(message),
        },
{
    match event {
        Event::DeviceArrived(mac_address) => react_to_device(users, &mac_address, true),
        Event::DeviceLeft(mac_address) => react_to_device(users, &mac_address, false),
        Event::MessageReceived(message) => Reaction::Received(message),
    }
}

} // verus!
