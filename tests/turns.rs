use chatgptauri::conversation::{extend_name, CancelState, Conversation, PromptError, SerializedConversation, TurnEvent, TurnStep, NAMING_MODEL, NAMING_PROMPT};
use chatgptauri::delta::{MessageDelta, StreamError};
use chatgptauri::message::{Message, Role};
use chatgptauri::settings::Model;

fn delta(t: &str) -> TurnEvent {
    TurnEvent::Received(Ok(MessageDelta::Delta(t.to_string())))
}

#[test]
fn scenario_single_turn_with_done() {
    let mut c = Conversation::with_identity(7, 1000);
    let mut cancel = CancelState::new();
    let (mut turn, req) = c.prompt("2+2?", Model::Gpt3, &mut cancel).unwrap();
    assert!(c.is_locked());
    assert_eq!(req.messages.len(), 3);
    assert_eq!(req.model, "gpt-3.5-turbo");
    assert_eq!(req.messages[0].role, Role::System);
    assert_eq!(req.messages[1].content, "2+2?");
    assert_eq!(req.messages[2].content, "");
    assert_eq!(c.apply_event(&mut turn, &mut cancel, TurnEvent::Received(Ok(MessageDelta::Role(Role::Assistant)))), TurnStep::Continue);
    assert_eq!(c.apply_event(&mut turn, &mut cancel, delta("4")), TurnStep::Appended("4".to_string()));
    assert_eq!(c.apply_event(&mut turn, &mut cancel, TurnEvent::Received(Ok(MessageDelta::Done))), TurnStep::Stop);
    assert!(turn.is_stopped());
    // nothing is read after the end of the reply
    assert_eq!(c.apply_event(&mut turn, &mut cancel, delta("late")), TurnStep::Stop);
    let outcome = c.finish(turn);
    assert!(outcome.current);
    // prompt side: "2+2?" and "" are two words, two tokens; completion: "4", one token
    assert_eq!(outcome.cost, 6);
    assert!(!c.is_locked());
    let ms = c.get_messages();
    assert_eq!(ms.len(), 2);
    assert_eq!(ms[0].role, Role::User);
    assert_eq!(ms[0].get_content(), "2+2?");
    assert_eq!(ms[1].role, Role::Assistant);
    assert_eq!(ms[1].get_content(), "4");
    assert_eq!(ms[1].cost, Some(6));
    c.set_name("Arithmetic".to_string());
    let snap = c.serialize().unwrap();
    assert_eq!(snap.id, 7);
    assert_eq!(chatgptauri::catalog::parse_id(&snap.id.to_string()), Some(7));
}

#[test]
fn scenario_second_prompt_is_refused() {
    let mut c = Conversation::with_identity(1, 1);
    let mut cancel = CancelState::new();
    let first = c.prompt("one", Model::Gpt4, &mut cancel);
    assert!(first.is_ok());
    let len = c.get_messages().len();
    let second = c.prompt("two", Model::Gpt4, &mut cancel);
    assert!(matches!(second, Err(PromptError::ConversationLocked)));
    assert_eq!(c.get_messages().len(), len);
    assert_eq!(c.get_messages()[0].get_content(), "one");
}

#[test]
fn scenario_timeout_keeps_partial_content() {
    let mut c = Conversation::with_identity(2, 2);
    let mut cancel = CancelState::new();
    let (mut turn, _) = c.prompt("tell me a story", Model::Gpt4, &mut cancel).unwrap();
    assert_eq!(c.apply_event(&mut turn, &mut cancel, delta("Once upon")), TurnStep::Appended("Once upon".to_string()));
    assert_eq!(c.apply_event(&mut turn, &mut cancel, TurnEvent::TimedOut), TurnStep::Stop);
    let outcome = c.finish(turn);
    assert!(!c.is_locked());
    // prompt side: 4 + 1 words, 6 tokens; completion: 2 words, 2 tokens
    assert_eq!(outcome.cost, 6 * 30 + 2 * 60);
    assert_eq!(c.get_messages()[1].get_content(), "Once upon");
    assert_eq!(c.get_messages()[1].cost, Some(300));
}

#[test]
fn timeout_before_any_fragment_still_prices() {
    let mut c = Conversation::with_identity(3, 3);
    let mut cancel = CancelState::new();
    let (mut turn, _) = c.prompt("hi", Model::Gpt3, &mut cancel).unwrap();
    assert_eq!(c.apply_event(&mut turn, &mut cancel, TurnEvent::TimedOut), TurnStep::Stop);
    let outcome = c.finish(turn);
    assert_eq!(c.get_messages()[1].get_content(), "");
    assert_eq!(outcome.cost, (2 + 1) * 2);
    assert!(!c.is_locked());
}

#[test]
fn cancel_before_first_fragment_leaves_placeholder_empty() {
    let mut c = Conversation::with_identity(4, 4);
    let mut cancel = CancelState::new();
    let (mut turn, _) = c.prompt("q", Model::Gpt3, &mut cancel).unwrap();
    cancel.transmit_cancel();
    assert_eq!(c.apply_event(&mut turn, &mut cancel, TurnEvent::Received(Ok(MessageDelta::NoData))), TurnStep::Continue);
    assert_eq!(c.apply_event(&mut turn, &mut cancel, delta("a")), TurnStep::Stop);
    assert!(!cancel.receive_cancel());
    assert_eq!(c.get_messages()[1].get_content(), "");
    c.finish(turn);
    assert!(!c.is_locked());
}

#[test]
fn cancel_midway_keeps_applied_content() {
    let mut c = Conversation::with_identity(5, 5);
    let mut cancel = CancelState::new();
    let (mut turn, _) = c.prompt("q", Model::Gpt3, &mut cancel).unwrap();
    c.apply_event(&mut turn, &mut cancel, delta("ab"));
    cancel.transmit_cancel();
    assert_eq!(c.apply_event(&mut turn, &mut cancel, delta("cd")), TurnStep::Stop);
    assert_eq!(c.get_messages()[1].get_content(), "ab");
}

#[test]
fn stale_cancel_is_dropped_at_prompt() {
    let mut c = Conversation::with_identity(6, 6);
    let mut cancel = CancelState::new();
    cancel.transmit_cancel();
    let (mut turn, _) = c.prompt("q", Model::Gpt3, &mut cancel).unwrap();
    assert_eq!(c.apply_event(&mut turn, &mut cancel, delta("x")), TurnStep::Appended("x".to_string()));
}

#[test]
fn decode_failure_and_stream_end_stop_the_turn() {
    let mut c = Conversation::with_identity(8, 8);
    let mut cancel = CancelState::new();
    let (mut turn, _) = c.prompt("q", Model::Gpt3, &mut cancel).unwrap();
    assert_eq!(c.apply_event(&mut turn, &mut cancel, TurnEvent::Received(Err(StreamError::InvalidEvent))), TurnStep::Stop);
    c.finish(turn);
    let (mut turn, _) = c.prompt("r", Model::Gpt3, &mut cancel).unwrap();
    assert_eq!(c.apply_event(&mut turn, &mut cancel, TurnEvent::Ended), TurnStep::Stop);
    c.finish(turn);
    assert_eq!(c.get_messages().len(), 4);
    assert!(!c.is_locked());
}

#[test]
fn concatenates_fragments_in_order() {
    let mut c = Conversation::with_identity(9, 9);
    let mut cancel = CancelState::new();
    let (mut turn, _) = c.prompt("q", Model::Gpt3, &mut cancel).unwrap();
    for f in ["The ", "answer", " is", " 42"] {
        c.apply_event(&mut turn, &mut cancel, delta(f));
    }
    c.apply_event(&mut turn, &mut cancel, TurnEvent::Received(Ok(MessageDelta::Done)));
    let outcome = c.finish(turn);
    assert_eq!(c.get_messages()[1].get_content(), "The answer is 42");
    assert_eq!(c.get_messages()[1].cost, Some(outcome.cost));
}

#[test]
fn reset_during_turn_discards_late_writes() {
    let mut c = Conversation::with_identity(10, 10);
    let mut cancel = CancelState::new();
    let (mut turn, _) = c.prompt("q", Model::Gpt3, &mut cancel).unwrap();
    c.reset_to(11, 11);
    assert!(!c.is_locked());
    assert_eq!(c.get_id(), 11);
    assert_eq!(c.get_date_created(), 11);
    let (mut fresh, _) = c.prompt("new", Model::Gpt3, &mut cancel).unwrap();
    assert_eq!(c.apply_event(&mut turn, &mut cancel, delta("ghost")), TurnStep::Stop);
    let outcome = c.finish(turn);
    assert!(!outcome.current);
    assert!(c.is_locked());
    assert_eq!(c.get_messages()[1].get_content(), "");
    assert_eq!(c.apply_event(&mut fresh, &mut cancel, delta("real")), TurnStep::Appended("real".to_string()));
    c.finish(fresh);
    assert!(!c.is_locked());
}

#[test]
fn release_after_failed_connection_unlocks() {
    let mut c = Conversation::with_identity(12, 12);
    let mut cancel = CancelState::new();
    let (turn, _) = c.prompt("q", Model::Gpt3, &mut cancel).unwrap();
    c.release(turn);
    assert!(!c.is_locked());
    assert_eq!(c.get_messages().len(), 2);
}

#[test]
fn clear_is_refused_while_locked() {
    let mut c = Conversation::with_identity(13, 13);
    let mut cancel = CancelState::new();
    let (mut turn, _) = c.prompt("q", Model::Gpt3, &mut cancel).unwrap();
    assert!(matches!(c.clear(), Err(PromptError::ConversationLocked)));
    assert_eq!(c.get_messages().len(), 2);
    c.apply_event(&mut turn, &mut cancel, TurnEvent::Ended);
    c.finish(turn);
    assert!(c.clear().is_ok());
    assert_eq!(c.get_messages().len(), 0);
}

#[test]
fn reset_forgets_name_and_transcript() {
    let mut c = Conversation::with_identity(14, 14);
    let mut cancel = CancelState::new();
    let (turn, _) = c.prompt("q", Model::Gpt3, &mut cancel).unwrap();
    c.finish(turn);
    c.set_name("n".to_string());
    c.reset();
    assert!(c.needs_name());
    assert_eq!(c.get_messages().len(), 0);
    assert!(!c.is_locked());
    let fresh = Conversation::new();
    assert!(fresh.get_messages().is_empty());
    assert!(fresh.needs_name());
}

#[test]
fn word_and_token_counts_of_transcript() {
    let mut c = Conversation::with_identity(15, 15);
    assert_eq!(c.get_word_count(), 0);
    let mut cancel = CancelState::new();
    let (turn, _) = c.prompt("how are you today", Model::Gpt3, &mut cancel).unwrap();
    c.finish(turn);
    assert_eq!(c.get_word_count(), 5);
    assert_eq!(c.get_token_count(), 6);
}

#[test]
fn save_then_load_reproduces_transcript() {
    let mut c = Conversation::with_identity(16, 1600);
    let mut cancel = CancelState::new();
    let (mut turn, _) = c.prompt("hello", Model::Gpt4Turbo, &mut cancel).unwrap();
    c.apply_event(&mut turn, &mut cancel, delta("hi there"));
    let outcome = c.finish(turn);
    assert!(c.serialize().is_none());
    c.set_name("Greeting".to_string());
    let snap = c.serialize().unwrap();
    assert_eq!(snap.date_created, 1600);
    let mut other = Conversation::with_identity(99, 5);
    other.load(snap);
    assert_eq!(other.get_id(), 16);
    assert_eq!(other.get_name(), Some("Greeting".to_string()));
    assert_eq!(other.get_date_created(), 5);
    let ms = other.get_messages();
    assert_eq!(ms.len(), 2);
    assert_eq!(ms[0].get_content(), "hello");
    assert_eq!(ms[1].get_content(), "hi there");
    assert_eq!(ms[1].cost, Some(outcome.cost));
    assert_eq!(ms[0].cost, None);
}

#[test]
fn load_during_turn_discards_late_writes_and_unlocks() {
    let mut c = Conversation::with_identity(17, 17);
    let mut cancel = CancelState::new();
    let (mut turn, _) = c.prompt("q", Model::Gpt3, &mut cancel).unwrap();
    c.load(SerializedConversation {
        name: "old".to_string(),
        id: 3,
        date_created: 3,
        messages: vec![Message::new(Role::User, "earlier".to_string())],
    });
    assert!(c.is_locked());
    assert_eq!(c.apply_event(&mut turn, &mut cancel, delta("x")), TurnStep::Stop);
    let outcome = c.finish(turn);
    assert!(!outcome.current);
    assert!(!c.is_locked());
    assert_eq!(c.get_messages().len(), 1);
    assert_eq!(c.get_messages()[0].get_content(), "earlier");
}

#[test]
fn naming_request_appends_naming_prompt() {
    let mut c = Conversation::with_identity(18, 18);
    let mut cancel = CancelState::new();
    let (turn, _) = c.prompt("q", Model::Gpt4, &mut cancel).unwrap();
    c.finish(turn);
    let r = c.naming_request();
    assert_eq!(r.model, NAMING_MODEL);
    assert_eq!(r.messages.len(), 4);
    assert_eq!(r.messages[0].role, Role::System);
    assert_eq!(r.messages[1].content, "q");
    assert_eq!(r.messages[3].role, Role::User);
    assert_eq!(r.messages[3].content, NAMING_PROMPT);
}

#[test]
fn name_is_built_from_fragments() {
    let mut name = String::new();
    assert!(extend_name(&mut name, Ok(MessageDelta::Role(Role::Assistant))));
    assert!(extend_name(&mut name, Ok(MessageDelta::Delta("Math".to_string()))));
    assert!(extend_name(&mut name, Ok(MessageDelta::Delta(" talk".to_string()))));
    assert!(!extend_name(&mut name, Ok(MessageDelta::Done)));
    assert_eq!(name, "Math talk");
    assert!(!extend_name(&mut name, Err(StreamError::InvalidJson)));
    assert_eq!(name, "Math talk");
}
