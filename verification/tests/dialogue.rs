use botdispatch::dialogue::{Dialogue, GetChatId, InMemStorage, InMemStorageError, Storage};
use botdispatch::update::{Chat, ChatKind, Message};

#[derive(Clone, Debug, PartialEq, Eq)]
enum State {
    Start,
    AwaitingName,
    Done,
}

impl Default for State {
    fn default() -> Self {
        State::Start
    }
}

#[derive(Clone, Debug, PartialEq, Eq)]
struct AwaitingName;

impl From<AwaitingName> for State {
    fn from(_: AwaitingName) -> State {
        State::AwaitingName
    }
}

type MyDialogue = Dialogue<State, InMemStorage<State>>;

#[test]
fn dialogue_walks_through_its_states() {
    let mut dialogue: MyDialogue = Dialogue::new(InMemStorage::new(), 42);
    assert_eq!(dialogue.get(), Ok(None));
    assert_eq!(dialogue.get_or_default(), Ok(State::Start));
    assert_eq!(dialogue.get(), Ok(Some(State::Start)));
    assert_eq!(dialogue.update(State::AwaitingName), Ok(()));
    assert_eq!(dialogue.get(), Ok(Some(State::AwaitingName)));
    assert_eq!(dialogue.exit(), Ok(()));
    assert_eq!(dialogue.get(), Ok(None));
}

#[test]
fn update_then_get_returns_the_state() {
    let mut dialogue: MyDialogue = Dialogue::new(InMemStorage::new(), 7);
    assert_eq!(dialogue.update(State::Done), Ok(()));
    assert_eq!(dialogue.get(), Ok(Some(State::Done)));
    assert_eq!(dialogue.update(State::Start), Ok(()));
    assert_eq!(dialogue.get(), Ok(Some(State::Start)));
}

#[test]
fn update_converts_a_part_into_the_state() {
    let mut dialogue: MyDialogue = Dialogue::new(InMemStorage::new(), 7);
    assert_eq!(dialogue.update(AwaitingName), Ok(()));
    assert_eq!(dialogue.get(), Ok(Some(State::AwaitingName)));
}

#[test]
fn get_or_default_keeps_an_existing_state() {
    let mut dialogue: MyDialogue = Dialogue::new(InMemStorage::new(), 7);
    assert_eq!(dialogue.update(State::Done), Ok(()));
    assert_eq!(dialogue.get_or_default(), Ok(State::Done));
    assert_eq!(dialogue.get(), Ok(Some(State::Done)));
}

#[test]
fn reset_writes_the_default_state() {
    let mut dialogue: MyDialogue = Dialogue::new(InMemStorage::new(), 7);
    assert_eq!(dialogue.update(State::Done), Ok(()));
    assert_eq!(dialogue.reset(), Ok(()));
    assert_eq!(dialogue.get(), Ok(Some(State::Start)));
}

#[test]
fn exit_without_a_dialogue_is_an_error() {
    let mut dialogue: MyDialogue = Dialogue::new(InMemStorage::new(), 7);
    assert_eq!(dialogue.exit(), Err(InMemStorageError::DialogueNotFound));
    assert_eq!(dialogue.get(), Ok(None));
}

#[test]
fn chats_do_not_share_a_state() {
    let mut first: MyDialogue = Dialogue::new(InMemStorage::new(), 1);
    assert_eq!(first.update(State::Done), Ok(()));
    let mut second: MyDialogue = Dialogue::new(first.into_storage(), 2);
    assert_eq!(second.get(), Ok(None));
    assert_eq!(second.get_or_default(), Ok(State::Start));
    let mut storage = second.into_storage();
    assert_eq!(storage.get_dialogue(1), Ok(Some(State::Done)));
    assert_eq!(storage.get_dialogue(2), Ok(Some(State::Start)));
    assert_eq!(storage.remove_dialogue(1), Ok(()));
    assert_eq!(storage.get_dialogue(1), Ok(None));
    assert_eq!(storage.get_dialogue(2), Ok(Some(State::Start)));
    assert_eq!(storage.update_dialogue(2, State::AwaitingName), Ok(()));
    assert_eq!(storage.get_dialogue(2), Ok(Some(State::AwaitingName)));
}

#[test]
fn message_has_the_id_of_its_chat() {
    let message = Message {
        id: 5,
        chat: Chat { id: -1001234, kind: ChatKind::Supergroup },
        text: Some(String::from("hello")),
    };
    assert_eq!(message.chat_id(), -1001234);
}
