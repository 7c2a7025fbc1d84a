use translate::command::{classify, farewell, Command};
use translate::conversation::Conversation;
use translate::error::{resolve_key, ChatError};
use translate::message::{Message, Role};

fn seed_texts() -> Vec<&'static str> {
    vec![
        "Please translate the following statement from Japanese to English. The answer should be only the English sentences.",
        "The user can reset the current state of the chat by inputting 'reset'.",
        "The user can activate the editor by entering 'v', allowing them to input multiple lines of prompts.",
        "To terminate, the user needs to input \"exit\".",
    ]
}

fn assistant(text: &str) -> Message {
    Message {
        role: Role::Assistant,
        content: text.to_string(),
        name: None,
    }
}

fn history_of(c: &Conversation) -> Vec<(Role, String, Option<String>)> {
    let mut out = Vec::new();
    let mut i = 0;
    while i < c.history_len() {
        let m = c.message_at(i);
        out.push((m.role, m.content.clone(), m.name.clone()));
        i += 1;
    }
    out
}

#[test]
fn exit_line_is_the_exit_command() {
    assert_eq!(classify(&"exit".to_string()), Command::Exit);
    assert_eq!(farewell(), "Bye!");
}

#[test]
fn command_words_dispatch() {
    assert_eq!(classify(&"reset".to_string()), Command::Reset);
    assert_eq!(classify(&"v".to_string()), Command::OpenEditor);
    assert_eq!(classify(&"hello".to_string()), Command::Ask);
    assert_eq!(classify(&"".to_string()), Command::Ask);
    assert_eq!(classify(&"exit ".to_string()), Command::Ask);
    assert_eq!(classify(&"Exit".to_string()), Command::Ask);
    assert_eq!(classify(&"V".to_string()), Command::Ask);
}

#[test]
fn seed_messages_without_override() {
    let c = Conversation::new(None);
    let h = history_of(&c);
    assert_eq!(h.len(), 4);
    let texts = seed_texts();
    for i in 0..4 {
        assert_eq!(h[i].0, Role::System);
        assert_eq!(h[i].1, texts[i]);
        assert_eq!(h[i].2, None);
    }
}

#[test]
fn seed_general_override() {
    let c = Conversation::new(Some("Be brief.".to_string()));
    let h = history_of(&c);
    assert_eq!(h.len(), 4);
    assert_eq!(h[0].0, Role::System);
    assert_eq!(h[0].1, "Be brief.");
    let texts = seed_texts();
    for i in 1..4 {
        assert_eq!(h[i].0, Role::System);
        assert_eq!(h[i].1, texts[i]);
    }
}

#[test]
fn reset_restores_seed_after_turns() {
    let mut c = Conversation::new(None);
    let fresh = Conversation::new(None);
    let _ = c.prepare_request("first question".to_string());
    let got = c.absorb_choices(vec![assistant("first answer")]);
    assert!(got.is_ok());
    let _ = c.prepare_request("second question".to_string());
    assert_eq!(c.history_len(), 7);
    c.reset();
    assert_eq!(history_of(&c), history_of(&fresh));
}

#[test]
fn reset_keeps_overridden_general() {
    let mut c = Conversation::new(Some("Be brief.".to_string()));
    let _ = c.prepare_request("one".to_string());
    c.reset();
    let h = history_of(&c);
    assert_eq!(h.len(), 4);
    assert_eq!(h[0].1, "Be brief.");
}

#[test]
fn turn_appends_exactly_one_user_message() {
    let mut c = Conversation::new(None);
    let before = history_of(&c);
    let _ = c.prepare_request("how do I say hello?".to_string());
    let after = history_of(&c);
    assert_eq!(after.len(), before.len() + 1);
    assert_eq!(&after[..before.len()], &before[..]);
    let last = after.last().unwrap();
    assert_eq!(last.0, Role::User);
    assert_eq!(last.1, "how do I say hello?");
    assert_eq!(last.2, None);
}

#[test]
fn payload_equals_full_history() {
    let mut c = Conversation::new(None);
    for turn in ["one", "two", "three"] {
        let payload = c.prepare_request(turn.to_string());
        let history = history_of(&c);
        assert_eq!(payload.len(), history.len());
        for (sent, kept) in payload.iter().zip(history.iter()) {
            assert_eq!(sent.role, kept.0);
            assert_eq!(sent.content, kept.1);
            assert_eq!(sent.name, kept.2);
        }
        let got = c.absorb_choices(vec![assistant("ok")]);
        assert!(got.is_ok());
    }
}

#[test]
fn empty_choices_report_error_and_leave_history() {
    let mut c = Conversation::new(None);
    let _ = c.prepare_request("anyone there?".to_string());
    let before = history_of(&c);
    let got = c.absorb_choices(vec![]);
    assert_eq!(got.unwrap_err(), ChatError::NoChoices);
    assert_eq!(history_of(&c), before);
}

#[test]
fn first_choice_is_kept_and_appended() {
    let mut c = Conversation::new(None);
    let _ = c.prepare_request("pick one".to_string());
    let before_len = c.history_len();
    let got = c.absorb_choices(vec![assistant("the first"), assistant("the second")]);
    let answer = got.unwrap();
    assert_eq!(answer.role, Role::Assistant);
    assert_eq!(answer.content, "the first");
    assert_eq!(c.history_len(), before_len + 1);
    let last = c.message_at(c.history_len() - 1);
    assert_eq!(last.content, "the first");
    assert_eq!(last.role, Role::Assistant);
}

#[test]
fn editor_text_equals_plain_line() {
    let text = "line one\nline two";
    let mut by_editor = Conversation::new(None);
    assert_eq!(classify(&"v".to_string()), Command::OpenEditor);
    let _ = by_editor.prepare_request(text.to_string());
    let mut by_line = Conversation::new(None);
    let _ = by_line.prepare_request(text.to_string());
    assert_eq!(history_of(&by_editor), history_of(&by_line));
}

#[test]
fn key_from_flag_wins() {
    let got = resolve_key(Some("flag-key".to_string()), Some("env-key".to_string()));
    assert_eq!(got.unwrap(), "flag-key");
}

#[test]
fn key_falls_back_to_environment() {
    let got = resolve_key(None, Some("env-key".to_string()));
    assert_eq!(got.unwrap(), "env-key");
}

#[test]
fn missing_key_is_fatal() {
    let got = resolve_key(None, None);
    assert_eq!(got.unwrap_err(), ChatError::MissingApiKey);
}

#[test]
fn error_reports() {
    assert_eq!(
        ChatError::MissingApiKey.describe(),
        "You need to set API key to the `OPENAI_API_KEY`"
    );
    assert_eq!(ChatError::NoChoices.describe(), "Can't read ChatGPT output");
}
