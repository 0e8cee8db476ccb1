use expense_bot::http::Status;
use expense_bot::llm::{LLMContent, LLMReply, LLM};
use expense_bot::tg_bot::{Chat, Message, SendMessage, Update, User};
use expense_bot::webhook::{
    outcome_row, sender_row, Action, AppError, Event, MsgError, MsgOk, Stage, Webhook,
};

const COFFEE: &str = r#"{"type":"expense","category":"food","item":"coffee","amount":5.0,"currency":"USD","date":"2026-02-16T12:00:00Z","person":"me"}"#;

const ALL_NULL: &str = r#"{"type":null,"category":null,"item":null,"amount":null,"currency":null,"date":null,"person":null}"#;

fn user(first_name: &str) -> User {
    User {
        id: 9,
        first_name: first_name.to_string(),
        last_name: Some("Doe".to_string()),
        username: None,
        language_code: Some("en".to_string()),
    }
}

fn update(chat_id: i64, from: Option<User>, text: Option<&str>) -> Update {
    Update {
        message: Some(Message {
            message_id: 1,
            from,
            chat: Chat { id: chat_id, chat_type: "private".to_string() },
            text: text.map(|t| t.to_string()),
        }),
    }
}

fn ok(status: &str) -> Action {
    Action::Finish(Ok(MsgOk { status: status.to_string() }))
}

fn internal_error() -> Action {
    Action::Finish(Err(AppError::InternalServerError))
}

fn envelope(content: &str) -> String {
    let mut message = serde_json::Map::new();
    message.insert("content".to_string(), serde_json::Value::String(content.to_string()));
    let mut body = serde_json::Map::new();
    body.insert("message".to_string(), serde_json::Value::Object(message));
    serde_json::Value::Object(body).to_string()
}

fn extract(code: u16, body: &str) -> Result<LLMContent, String> {
    let llm = LLM::new(Some("http://llm".to_string())).unwrap();
    llm.parse_text(LLMReply::Answered {
        status: Status::new(code).unwrap(),
        body: Ok(body.to_string()),
    })
}

/// Drives one update through the orchestrator and records the actions.
fn drive(
    update: Update,
    extracted: Result<LLMContent, String>,
    sent: Result<(), String>,
) -> Vec<Action> {
    let mut hook = Webhook::new();
    let mut extracted = Some(extracted);
    let mut sent = Some(sent);
    let mut actions = Vec::new();
    let mut event = Event::Update(update);
    loop {
        let action = hook.step(event);
        event = match &action {
            Action::StartTyping(_) => Event::TypingStarted,
            Action::Extract(_) => Event::Extracted(extracted.take().unwrap()),
            Action::CancelTyping => Event::TypingCancelled,
            Action::Send(_) => Event::Sent(sent.take().unwrap()),
            Action::Finish(_) => {
                actions.push(action);
                assert_eq!(hook.stage(), Stage::Done);
                return actions;
            },
        };
        actions.push(action);
    }
}

#[test]
fn update_without_message_is_acknowledged_without_calls() {
    let mut hook = Webhook::new();
    assert_eq!(hook.stage(), Stage::Received);
    assert_eq!(hook.step(Event::Update(Update { message: None })), ok("No message"));
    assert_eq!(hook.stage(), Stage::Done);
    assert_eq!(hook.step(Event::TypingStarted), internal_error());
    assert_eq!(hook.step(Event::Sent(Ok(()))), internal_error());
    assert_eq!(hook.stage(), Stage::Done);
}

#[test]
fn text_message_takes_the_whole_path() {
    let text = "bought coffee for 5 USD yesterday";
    let actions = drive(
        update(77, Some(user("Ann")), Some(text)),
        extract(200, &envelope(COFFEE)),
        Ok(()),
    );
    assert_eq!(
        actions,
        vec![
            Action::StartTyping(77),
            Action::Extract(text.to_string()),
            Action::CancelTyping,
            Action::Send(SendMessage {
                chat_id: 77,
                text: "text: bought coffee for 5 USD yesterday\njson: LLMContent { type_ctx: Some(\"expense\"), category: Some(\"food\"), item: Some(\"coffee\"), amount: Some(5.0), currency: Some(\"USD\"), date: Some(\"2026-02-16T12:00:00Z\"), person: Some(\"me\") }\nfrom: Ann\n".to_string(),
            }),
            ok("Ok"),
        ]
    );
}

#[test]
fn extraction_gets_the_text_unmodified() {
    let text = "  Кофе за 5 USD\n\"вчера\" {x}  ";
    let mut hook = Webhook::new();
    assert_eq!(hook.step(Event::Update(update(1, None, Some(text)))), Action::StartTyping(1));
    assert_eq!(hook.stage(), Stage::Signalling);
    assert_eq!(hook.step(Event::TypingStarted), Action::Extract(text.to_string()));
    assert_eq!(hook.stage(), Stage::Extracting);
}

#[test]
fn typing_is_cancelled_before_the_reply_on_both_paths() {
    for extracted in [extract(200, &envelope(COFFEE)), extract(500, "overloaded")] {
        let actions = drive(update(5, None, Some("tea 2 USD")), extracted, Ok(()));
        let start = actions.iter().position(|a| matches!(a, Action::StartTyping(_))).unwrap();
        let run = actions.iter().position(|a| matches!(a, Action::Extract(_))).unwrap();
        let cancel = actions.iter().position(|a| matches!(a, Action::CancelTyping)).unwrap();
        let send = actions.iter().position(|a| matches!(a, Action::Send(_))).unwrap();
        assert!(start < run && run < cancel && cancel < send);
        assert_eq!(actions.iter().filter(|a| matches!(a, Action::CancelTyping)).count(), 1);
        assert_eq!(actions.iter().filter(|a| matches!(a, Action::StartTyping(_))).count(), 1);
    }
}

#[test]
fn overloaded_endpoint_is_relayed_with_status_and_body() {
    let actions = drive(
        update(5, Some(user("Bob")), Some("tea 2 USD")),
        extract(500, "overloaded"),
        Ok(()),
    );
    assert_eq!(actions.len(), 5);
    assert_eq!(
        actions[3],
        Action::Send(SendMessage {
            chat_id: 5,
            text: "text: tea 2 USD\nerror: LLM HTTP error 500 Internal Server Error. Body: overloaded\nfrom: Bob\n".to_string(),
        })
    );
    assert_eq!(actions[4], ok("Ok"));
}

#[test]
fn all_null_record_is_relayed_as_a_record() {
    let actions = drive(update(5, None, Some("hm")), extract(200, &envelope(ALL_NULL)), Ok(()));
    match &actions[3] {
        Action::Send(message) => {
            assert_eq!(
                message.text,
                "text: hm\njson: LLMContent { type_ctx: None, category: None, item: None, amount: None, currency: None, date: None, person: None }\n"
            );
            assert!(!message.text.contains("error"));
        },
        other => panic!("unexpected: {:?}", other),
    }
    assert_eq!(actions[4], ok("Ok"));
}

#[test]
fn failed_delivery_fails_the_call_with_400() {
    let actions = drive(
        update(5, None, Some("tea 2 USD")),
        extract(200, &envelope(COFFEE)),
        Err("connection refused".to_string()),
    );
    assert_eq!(
        actions[4],
        Action::Finish(Err(AppError::InvalidOperation("SEND_MSG_ERROR".to_string())))
    );
    let (status, body) = AppError::InvalidOperation("SEND_MSG_ERROR".to_string()).response();
    assert_eq!(status.code(), 400);
    assert_eq!(body, MsgError { error: "SEND_MSG_ERROR".to_string() });
    assert!(!body.error.is_empty());
}

#[test]
fn message_without_text_is_answered_at_once() {
    let actions = drive(update(8, Some(user("Ann")), None), Err("unused".to_string()), Ok(()));
    assert_eq!(
        actions,
        vec![
            Action::Send(SendMessage { chat_id: 8, text: "from: Ann\n".to_string() }),
            ok("Ok"),
        ]
    );
    let actions = drive(update(8, None, None), Err("unused".to_string()), Ok(()));
    assert_eq!(
        actions,
        vec![Action::Send(SendMessage { chat_id: 8, text: String::new() }), ok("Ok")]
    );
}

#[test]
fn reply_has_no_sender_line_without_a_sender() {
    let actions = drive(update(5, None, Some("x")), Err("boom".to_string()), Ok(()));
    assert_eq!(
        actions[3],
        Action::Send(SendMessage { chat_id: 5, text: "text: x\nerror: boom\n".to_string() })
    );
}

#[test]
fn event_out_of_turn_before_the_update_fails_the_call() {
    let mut hook = Webhook::new();
    assert_eq!(hook.step(Event::TypingCancelled), internal_error());
    assert_eq!(hook.stage(), Stage::Done);
}

#[test]
fn event_out_of_turn_under_typing_cancels_first() {
    let mut hook = Webhook::new();
    hook.step(Event::Update(update(5, None, Some("x"))));
    assert_eq!(hook.step(Event::Sent(Ok(()))), Action::CancelTyping);
    assert_eq!(hook.stage(), Stage::Aborting);
    assert_eq!(hook.step(Event::TypingCancelled), internal_error());
    assert_eq!(hook.stage(), Stage::Done);

    let mut hook = Webhook::new();
    hook.step(Event::Update(update(5, None, Some("x"))));
    hook.step(Event::TypingStarted);
    assert_eq!(hook.step(Event::TypingStarted), Action::CancelTyping);
    assert_eq!(hook.step(Event::Extracted(Err("late".to_string()))), internal_error());
}

#[test]
fn event_out_of_turn_after_cancelling_fails_the_call() {
    let mut hook = Webhook::new();
    hook.step(Event::Update(update(5, None, Some("x"))));
    hook.step(Event::TypingStarted);
    assert_eq!(hook.step(Event::Extracted(Err("e".to_string()))), Action::CancelTyping);
    assert_eq!(hook.stage(), Stage::Cancelling);
    assert_eq!(hook.step(Event::Sent(Ok(()))), internal_error());

    let mut hook = Webhook::new();
    hook.step(Event::Update(update(5, None, None)));
    assert_eq!(hook.stage(), Stage::Responding);
    assert_eq!(hook.step(Event::TypingCancelled), internal_error());
}

#[test]
fn errors_answer_with_their_status() {
    let (status, body) = AppError::NotFound.response();
    assert_eq!((status.code(), body.error.as_str()), (404, "Data Not Found"));
    let (status, body) = AppError::InvalidOperation("why".to_string()).response();
    assert_eq!((status.code(), body.error.as_str()), (400, "why"));
    let (status, body) = AppError::InternalServerError.response();
    assert_eq!((status.code(), body.error.as_str()), (500, "Internal Server Error"));
}

#[test]
fn reply_lines_have_their_prefixes() {
    assert_eq!(outcome_row(&Err("boom".to_string())), "error: boom\n");
    let record = extract(200, &envelope(ALL_NULL));
    assert_eq!(
        outcome_row(&record),
        "json: LLMContent { type_ctx: None, category: None, item: None, amount: None, currency: None, date: None, person: None }\n"
    );
    assert_eq!(sender_row(&Some("Ann".to_string())), "from: Ann\n");
    assert_eq!(sender_row(&None), "");
}
