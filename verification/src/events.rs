//! Typed events the host delivers to scripts, and their event-kind
//! identifiers used for subscription matching.
//!
//! Each event carries an immutable payload snapshot; a reserved wildcard
//! kind matches every event kind.

use vstd::prelude::*;

verus! {

/// Wildcard kind: a subscription holding it receives every event.
pub const EVENT_ALL: u32 = 0;

/// Kind of [`Event::CharacterListReceived`].
pub const EVENT_CHARACTER_LIST_RECEIVED: u32 = 1;

/// Kind of [`Event::CreateObject`].
pub const EVENT_CREATE_OBJECT: u32 = 2;

/// Kind of [`Event::ChatMessageReceived`].
pub const EVENT_CHAT_MESSAGE_RECEIVED: u32 = 3;

/// One character on an account, as reported by the host.
pub struct CharacterInfo {
    pub id: u32,
    pub name: String,
}

/// Mathematical abstraction of [`CharacterInfo`].
pub struct CharacterModel {
    pub id: u32,
    pub name: Seq<char>,
}

impl View for CharacterInfo {
    type V = CharacterModel;

    open spec fn view(&self) -> CharacterModel {
        CharacterModel { id: self.id, name: self.name@ }
    }
}

impl DeepView for CharacterInfo {
    type V = CharacterModel;

    open spec fn deep_view(&self) -> CharacterModel {
        self.view()
    }
}

/// The payload of a character-list event: the account and its characters.
pub struct AccountInfo {
    pub name: String,
    pub character_list: Vec<CharacterInfo>,
}

/// Mathematical abstraction of [`AccountInfo`].
pub struct AccountModel {
    pub name: Seq<char>,
    pub character_list: Seq<CharacterModel>,
}

impl View for AccountInfo {
    type V = AccountModel;

    open spec fn view(&self) -> AccountModel {
        AccountModel { name: self.name@, character_list: self.character_list.deep_view() }
    }
}

/// The payload of a chat-message event. The timestamp is the host's
/// event time in milliseconds since the epoch.
pub struct ChatInfo {
    pub channel: u32,
    pub message: String,
    pub timestamp_millis: u64,
}

/// Mathematical abstraction of [`ChatInfo`].
pub struct ChatModel {
    pub channel: u32,
    pub message: Seq<char>,
    pub timestamp_millis: u64,
}

impl View for ChatInfo {
    type V = ChatModel;

    open spec fn view(&self) -> ChatModel {
        ChatModel {
            channel: self.channel,
            message: self.message@,
            timestamp_millis: self.timestamp_millis,
        }
    }
}

/// The payload of an object-creation event.
pub struct ObjectInfo {
    pub id: u32,
    pub name: String,
}

/// Mathematical abstraction of [`ObjectInfo`].
pub struct ObjectModel {
    pub id: u32,
    pub name: Seq<char>,
}

impl View for ObjectInfo {
    type V = ObjectModel;

    open spec fn view(&self) -> ObjectModel {
        ObjectModel { id: self.id, name: self.name@ }
    }
}

/// A host-originated occurrence, delivered to each subscribed script.
pub enum Event {
    CharacterListReceived(AccountInfo),
    CreateObject(ObjectInfo),
    ChatMessageReceived(ChatInfo),
}

/// Mathematical abstraction of [`Event`].
pub enum EventModel {
    CharacterListReceived(AccountModel),
    CreateObject(ObjectModel),
    ChatMessageReceived(ChatModel),
}

impl View for Event {
    type V = EventModel;

    open spec fn view(&self) -> EventModel {
        match self {
            Event::CharacterListReceived(a) => EventModel::CharacterListReceived(a@),
            Event::CreateObject(o) => EventModel::CreateObject(o@),
            Event::ChatMessageReceived(c) => EventModel::ChatMessageReceived(c@),
        }
    }
}

impl EventModel {
    /// The kind identifier an event is matched by. Never the wildcard.
    pub open spec fn kind(self) -> u32 {
        match self {
            EventModel::CharacterListReceived(_) => EVENT_CHARACTER_LIST_RECEIVED,
            EventModel::CreateObject(_) => EVENT_CREATE_OBJECT,
            EventModel::ChatMessageReceived(_) => EVENT_CHAT_MESSAGE_RECEIVED,
        }
    }
}

impl Event {
    /// The kind identifier used for subscription matching.
    pub fn kind(&self) -> (k: u32)
        ensures
            k == self@.kind(),
            k != EVENT_ALL,
    {
        match self {
            Event::CharacterListReceived(_) => EVENT_CHARACTER_LIST_RECEIVED,
            Event::CreateObject(_) => EVENT_CREATE_OBJECT,
            Event::ChatMessageReceived(_) => EVENT_CHAT_MESSAGE_RECEIVED,
        }
    }
}

} // verus!
