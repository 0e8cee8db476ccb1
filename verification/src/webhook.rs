//! The webhook orchestrator: what to do with one update, step by step.
//!
//! A [`Webhook`] handles one update. Its driver hands it what happened as an
//! [`Event`] and performs the [`Action`] that comes back, until that action
//! is `Finish`. A message with text takes the path
//!
//! ```text
//! Update -> StartTyping -> Extract -> CancelTyping -> Send -> Finish
//! ```
//!
//! so the typing loop runs while the extraction runs and at no other time.
use vstd::prelude::*;
use crate::http::Status;
use crate::llm::{content_text, LLMContent, LLMContentView};
use crate::tg_bot::{sent_view, SendMessage, SendMessageView, Update, UpdateView};
use crate::text::opt_text;

verus! {

/// The body of a successful acknowledgement.
#[derive(Debug, PartialEq, Eq)]
pub struct MsgOk {
    pub status: String,
}

/// The body of a failed acknowledgement.
#[derive(Debug, PartialEq, Eq)]
pub struct MsgError {
    pub error: String,
}

/// Why a webhook call failed.
#[derive(Debug, PartialEq, Eq)]
pub enum AppError {
    NotFound,
    InvalidOperation(String),
    InternalServerError,
}

/// The mathematical value of an [`AppError`].
pub enum AppErrorView {
    NotFound,
    InvalidOperation(Seq<char>),
    InternalServerError,
}

impl View for AppError {
    type V = AppErrorView;

    open spec fn view(&self) -> AppErrorView {
        match *self {
            AppError::NotFound => AppErrorView::NotFound,
            AppError::InvalidOperation(reason) => AppErrorView::InvalidOperation(reason@),
            AppError::InternalServerError => AppErrorView::InternalServerError,
        }
    }
}

/// The status code and the error text that answer a failed webhook call.
pub open spec fn error_response(e: AppErrorView) -> (u16, Seq<char>) {
    match e {
        AppErrorView::NotFound => (404, "Data Not Found"@),
        AppErrorView::InvalidOperation(reason) => (400, reason),
        AppErrorView::InternalServerError => (500, "Internal Server Error"@),
    }
}

impl AppError {
    /// The status and the body that answer a failed webhook call.
    pub fn response(self) -> (r: (Status, MsgError))
        ensures
            (r.0@, r.1.error@) == error_response(self@),
    {
        let (code, error): (u16, String) = match self {
            AppError::NotFound => (404, String::from_str("Data Not Found")),
            AppError::InvalidOperation(reason) => (400, reason),
            AppError::InternalServerError => (500, String::from_str("Internal Server Error")),
        };
        let status = Status::new(code);
        (status.unwrap(), MsgError { error })
    }
}

/// Where the handling of an update stands. `Signalling`, `Extracting` and
/// `Cancelling` are the three steps of the extraction: the typing loop is
/// started, the extraction runs, the typing loop is cancelled.
#[derive(Debug, Clone, Copy, PartialEq, Eq)]
pub enum Stage {
    /// Nothing has happened yet; the update is awaited.
    Received,
    /// The typing loop is being started.
    Signalling,
    /// The extraction runs.
    Extracting,
    /// The typing loop is being cancelled; the reply is ready.
    Cancelling,
    /// An event came out of turn while the typing loop may have been running;
    /// the loop is being cancelled and the call will fail.
    Aborting,
    /// The reply is being delivered.
    Responding,
    /// The call has been answered.
    Done,
}

/// What happened, as the driver reports it.
#[derive(Debug, PartialEq, Eq)]
pub enum Event {
    /// The update arrived.
    Update(Update),
    /// The typing loop runs.
    TypingStarted,
    /// The extraction returned: the record, or the text that says why there
    /// is none.
    Extracted(Result<LLMContent, String>),
    /// The typing loop is stopped.
    TypingCancelled,
    /// The reply was delivered, or the delivery failed for the given cause.
    Sent(Result<(), String>),
}

/// What the driver does next.
#[derive(Debug, PartialEq, Eq)]
pub enum Action {
    /// Start a typing loop for the chat, then report `TypingStarted`.
    StartTyping(i64),
    /// Run the extraction on the text, then report `Extracted`.
    Extract(String),
    /// Cancel the typing loop, then report `TypingCancelled`.
    CancelTyping,
    /// Deliver the reply, then report `Sent`.
    Send(SendMessage),
    /// Answer the webhook call. Nothing follows.
    Finish(Result<MsgOk, AppError>),
}

/// The mathematical value of an [`Event`].
pub enum EventView {
    Update(UpdateView),
    TypingStarted,
    Extracted(Result<LLMContentView, Seq<char>>),
    TypingCancelled,
    Sent(Result<(), Seq<char>>),
}

impl View for Event {
    type V = EventView;

    open spec fn view(&self) -> EventView {
        match *self {
            Event::Update(update) => EventView::Update(update@),
            Event::TypingStarted => EventView::TypingStarted,
            Event::Extracted(outcome) => EventView::Extracted(
                match outcome {
                    Ok(content) => Ok(content@),
                    Err(e) => Err(e@),
                },
            ),
            Event::TypingCancelled => EventView::TypingCancelled,
            Event::Sent(sent) => EventView::Sent(sent_view(sent)),
        }
    }
}

/// The mathematical value of an [`Action`]. An acknowledgement is given by
/// its status text.
pub enum ActionView {
    StartTyping(i64),
    Extract(Seq<char>),
    CancelTyping,
    Send(SendMessageView),
    Finish(Result<Seq<char>, AppErrorView>),
}

impl View for Action {
    type V = ActionView;

    open spec fn view(&self) -> ActionView {
        match *self {
            Action::StartTyping(chat_id) => ActionView::StartTyping(chat_id),
            Action::Extract(text) => ActionView::Extract(text@),
            Action::CancelTyping => ActionView::CancelTyping,
            Action::Send(message) => ActionView::Send(message@),
            Action::Finish(outcome) => ActionView::Finish(answer_view(outcome)),
        }
    }
}

/// The mathematical value of the answer to a webhook call.
pub open spec fn answer_view(outcome: Result<MsgOk, AppError>) -> Result<Seq<char>, AppErrorView> {
    match outcome {
        Ok(ok) => Ok(ok.status@),
        Err(e) => Err(e@),
    }
}

/// The handling of one update.
#[derive(Debug, PartialEq, Eq)]
pub struct Webhook {
    stage: Stage,
    chat_id: i64,
    text: String,
    sender: Option<String>,
    reply: String,
}

/// The mathematical value of a [`Webhook`].
pub struct WebhookView {
    pub stage: Stage,
    /// The chat of the message.
    pub chat_id: i64,
    /// The text of the message.
    pub text: Seq<char>,
    /// The first name of the sender, if there is one.
    pub sender: Option<Seq<char>>,
    /// The reply, as far as it is written.
    pub reply: Seq<char>,
}

/// The state before the update has arrived.
pub open spec fn initial() -> WebhookView {
    WebhookView {
        stage: Stage::Received,
        chat_id: 0,
        text: Seq::empty(),
        sender: None,
        reply: Seq::empty(),
    }
}

/// The line of the reply that repeats the message.
pub open spec fn text_line(text: Seq<char>) -> Seq<char> {
    "text: "@ + text + "\n"@
}

/// The line of the reply that shows the record, or says why there is none.
pub open spec fn outcome_line(outcome: Result<LLMContentView, Seq<char>>) -> Seq<char> {
    match outcome {
        Ok(content) => "json: "@ + content_text(content) + "\n"@,
        Err(e) => "error: "@ + e + "\n"@,
    }
}

/// The line of the reply that names the sender; nothing where the sender is
/// not known.
pub open spec fn sender_line(sender: Option<Seq<char>>) -> Seq<char> {
    match sender {
        Some(name) => "from: "@ + name + "\n"@,
        None => Seq::empty(),
    }
}

/// The call is answered.
pub open spec fn finish(s: WebhookView, outcome: Result<Seq<char>, AppErrorView>) -> (
    WebhookView,
    ActionView,
) {
    (WebhookView { stage: Stage::Done, ..s }, ActionView::Finish(outcome))
}

/// An event came out of turn while the typing loop may be running: the loop
/// is cancelled first.
pub open spec fn abort(s: WebhookView) -> (WebhookView, ActionView) {
    (WebhookView { stage: Stage::Aborting, ..s }, ActionView::CancelTyping)
}

/// The update has arrived. Without a message there is nothing to do. A
/// message with text goes to extraction, under a typing loop; one without
/// text is answered at once.
pub open spec fn receive(s: WebhookView, update: UpdateView) -> (WebhookView, ActionView) {
    match update.message {
        None => finish(s, Ok("No message"@)),
        Some(message) => {
            let chat_id = message.chat.id;
            let sender = match message.from {
                Some(user) => Some(user.first_name),
                None => None,
            };
            match message.text {
                Some(text) => (
                    WebhookView {
                        stage: Stage::Signalling,
                        chat_id,
                        text,
                        sender,
                        reply: text_line(text),
                    },
                    ActionView::StartTyping(chat_id),
                ),
                None => (
                    WebhookView {
                        stage: Stage::Responding,
                        chat_id,
                        text: s.text,
                        sender,
                        reply: sender_line(sender),
                    },
                    ActionView::Send(SendMessageView { chat_id, text: sender_line(sender) }),
                ),
            }
        },
    }
}

/// The transition function: the state after an event, and the action that
/// answers it.
///
/// Each stage awaits one kind of event. An event of another kind fails the
/// call with an internal error, after the typing loop has been cancelled if
/// it may be running.
pub open spec fn webhook_step(s: WebhookView, event: EventView) -> (WebhookView, ActionView) {
    match s.stage {
        Stage::Received => match event {
            EventView::Update(update) => receive(s, update),
            _ => finish(s, Err(AppErrorView::InternalServerError)),
        },
        Stage::Signalling => match event {
            EventView::TypingStarted => (
                WebhookView { stage: Stage::Extracting, ..s },
                ActionView::Extract(s.text),
            ),
            _ => abort(s),
        },
        Stage::Extracting => match event {
            EventView::Extracted(outcome) => (
                WebhookView {
                    stage: Stage::Cancelling,
                    reply: s.reply + outcome_line(outcome) + sender_line(s.sender),
                    ..s
                },
                ActionView::CancelTyping,
            ),
            _ => abort(s),
        },
        Stage::Cancelling => match event {
            EventView::TypingCancelled => (
                WebhookView { stage: Stage::Responding, ..s },
                ActionView::Send(SendMessageView { chat_id: s.chat_id, text: s.reply }),
            ),
            _ => finish(s, Err(AppErrorView::InternalServerError)),
        },
        Stage::Aborting => finish(s, Err(AppErrorView::InternalServerError)),
        Stage::Responding => match event {
            EventView::Sent(Ok(())) => finish(s, Ok("Ok"@)),
            EventView::Sent(Err(_)) => finish(
                s,
                Err(AppErrorView::InvalidOperation("SEND_MSG_ERROR"@)),
            ),
            _ => finish(s, Err(AppErrorView::InternalServerError)),
        },
        Stage::Done => finish(s, Err(AppErrorView::InternalServerError)),
    }
}

impl Webhook {
    /// The mathematical value of the handling.
    pub closed spec fn view(&self) -> WebhookView {
        WebhookView {
            stage: self.stage,
            chat_id: self.chat_id,
            text: self.text@,
            sender: opt_text(self.sender),
            reply: self.reply@,
        }
    }

    /// The handling of an update that has not arrived yet.
    pub fn new() -> (r: Webhook)
        ensures
            r@ == initial(),
    {
        Webhook {
            stage: Stage::Received,
            chat_id: 0,
            text: String::new(),
            sender: None,
            reply: String::new(),
        }
    }

    /// Where the handling stands.
    pub fn stage(&self) -> (r: Stage)
        ensures
            r == self@.stage,
    {
        self.stage
    }

    /// Takes an event and says what to do next.
    pub fn step(&mut self, event: Event) -> (action: Action)
        ensures
            (final(self)@, action@) == webhook_step(old(self)@, event@),
    {
        match self.stage {
            Stage::Received => match event {
                Event::Update(update) => self.receive(update),
                _ => self.finish(Err(AppError::InternalServerError)),
            },
            Stage::Signalling => match event {
                Event::TypingStarted => {
                    self.stage = Stage::Extracting;
                    Action::Extract(self.text.clone())
                },
                _ => self.abort(),
            },
            Stage::Extracting => match event {
                Event::Extracted(outcome) => {
                    let line = outcome_row(&outcome);
                    let from = sender_row(&self.sender);
                    self.reply.append(line.as_str());
                    self.reply.append(from.as_str());
                    self.stage = Stage::Cancelling;
                    Action::CancelTyping
                },
                _ => self.abort(),
            },
            Stage::Cancelling => match event {
                Event::TypingCancelled => {
                    self.stage = Stage::Responding;
                    Action::Send(SendMessage { chat_id: self.chat_id, text: self.reply.clone() })
                },
                _ => self.finish(Err(AppError::InternalServerError)),
            },
            Stage::Aborting => self.finish(Err(AppError::InternalServerError)),
            Stage::Responding => match event {
                Event::Sent(Ok(())) => self.finish(Ok(MsgOk { status: String::from_str("Ok") })),
                Event::Sent(Err(_)) => self.finish(
                    Err(AppError::InvalidOperation(String::from_str("SEND_MSG_ERROR"))),
                ),
                _ => self.finish(Err(AppError::InternalServerError)),
            },
            Stage::Done => self.finish(Err(AppError::InternalServerError)),
        }
    }

    fn finish(&mut self, outcome: Result<MsgOk, AppError>) -> (action: Action)
        ensures
            (final(self)@, action@) == finish(old(self)@, answer_view(outcome)),
    {
        self.stage = Stage::Done;
        Action::Finish(outcome)
    }

    fn abort(&mut self) -> (action: Action)
        ensures
            (final(self)@, action@) == abort(old(self)@),
    {
        self.stage = Stage::Aborting;
        Action::CancelTyping
    }

    fn receive(&mut self, update: Update) -> (action: Action)
        ensures
            (final(self)@, action@) == receive(old(self)@, update@),
    {
        let message = match update.message {
            Some(message) => message,
            None => {
                return self.finish(Ok(MsgOk { status: String::from_str("No message") }));
            },
        };
        self.chat_id = message.chat.id;
        self.sender = match message.from {
            Some(user) => Some(user.first_name),
            None => None,
        };
        match message.text {
            Some(text) => {
                let mut reply = String::from_str("text: ");
                reply.append(text.as_str());
                reply.append("\n");
                self.reply = reply;
                self.text = text;
                self.stage = Stage::Signalling;
                Action::StartTyping(self.chat_id)
            },
            None => {
                self.reply = sender_row(&self.sender);
                self.stage = Stage::Responding;
                Action::Send(SendMessage { chat_id: self.chat_id, text: self.reply.clone() })
            },
        }
    }
}

/// Writes the line of the reply that shows the record, or says why there is
/// none.
pub fn outcome_row(outcome: &Result<LLMContent, String>) -> (r: String)
    ensures
        r@ == outcome_line(
            match *outcome {
                Ok(content) => Ok(content@),
                Err(e) => Err(e@),
            },
        ),
{
    match outcome {
        Ok(content) => {
            let mut r = String::from_str("json: ");
            let shown = content.render();
            r.append(shown.as_str());
            r.append("\n");
            r
        },
        Err(e) => {
            let mut r = String::from_str("error: ");
            r.append(e.as_str());
            r.append("\n");
            r
        },
    }
}

/// Writes the line of the reply that names the sender.
pub fn sender_row(sender: &Option<String>) -> (r: String)
    ensures
        r@ == sender_line(opt_text(*sender)),
{
    match sender {
        Some(name) => {
            let mut r = String::from_str("from: ");
            r.append(name.as_str());
            r.append("\n");
            r
        },
        None => String::new(),
    }
}

/// The state after a run of events, from the initial state.
pub open spec fn state_after(events: Seq<EventView>) -> WebhookView
    decreases events.len(),
{
    if events.len() == 0 {
        initial()
    } else {
        webhook_step(state_after(events.drop_last()), events.last()).0
    }
}

/// The action that answers the event at place `j` of a run.
pub open spec fn action_at(events: Seq<EventView>, j: int) -> ActionView {
    webhook_step(state_after(events.take(j)), events[j]).1
}

/// Whether the typing loop runs once the first `n` events of a run have been
/// answered: it runs from the action that starts it to the action that
/// cancels it.
pub open spec fn typing_runs(events: Seq<EventView>, n: int) -> bool
    decreases n,
{
    if n <= 0 {
        false
    } else {
        match action_at(events, n - 1) {
            ActionView::StartTyping(_) => true,
            ActionView::CancelTyping => false,
            _ => typing_runs(events, n - 1),
        }
    }
}

/// The text of the message that a run starts with, if it starts with one.
pub open spec fn subject(events: Seq<EventView>) -> Option<Seq<char>> {
    if events.len() == 0 {
        None
    } else {
        match events[0] {
            EventView::Update(update) => match update.message {
                Some(message) => message.text,
                None => None,
            },
            _ => None,
        }
    }
}

/// Whether a run starts with an update that carries no message.
pub open spec fn starts_without_message(events: Seq<EventView>) -> bool {
    events.len() > 0 && (events[0] matches EventView::Update(update) && update.message is None)
}

/// What holds of the state after the first `n` events of a run.
spec fn run_invariant(events: Seq<EventView>, n: int) -> bool {
    let s = state_after(events.take(n));
    &&& s.stage is Received ==> n == 0
    &&& typing_runs(events, n) <==> s.stage is Signalling || s.stage is Extracting
    &&& s.stage is Signalling || s.stage is Extracting ==> subject(events) == Some(s.text)
    &&& n >= 1 && starts_without_message(events) ==> s.stage is Done
}

proof fn lemma_run_invariant(events: Seq<EventView>, n: int)
    requires
        0 <= n <= events.len(),
    ensures
        run_invariant(events, n),
    decreases n,
{
    if n == 0 {
        assert(events.take(0).len() == 0);
    } else {
        lemma_run_invariant(events, n - 1);
        assert(events.take(n).drop_last() =~= events.take(n - 1));
        assert(events.take(n).last() == events[n - 1]);
        if n == 1 {
            assert(events.take(0).len() == 0);
        }
    }
}

/// An update without a message is acknowledged with the status
/// `No message`, and no call is ever made for it: whatever the driver
/// reports afterwards, every action is an answer to the webhook call.
pub proof fn law_no_message_makes_no_call(events: Seq<EventView>, j: int)
    requires
        0 <= j < events.len(),
        starts_without_message(events),
    ensures
        action_at(events, 0) == ActionView::Finish(Ok("No message"@)),
        action_at(events, j) is Finish,
{
    assert(events.take(0).len() == 0);
    lemma_run_invariant(events, j);
}

/// The extraction is asked for the text of the message and for nothing
/// else: every extraction in a run has the text of the update that the run
/// starts with as its subject, unchanged.
pub proof fn law_extraction_takes_the_message_text(events: Seq<EventView>, j: int)
    requires
        0 <= j < events.len(),
        action_at(events, j) is Extract,
    ensures
        subject(events) == Some(action_at(events, j)->Extract_0),
{
    lemma_run_invariant(events, j);
}

/// Cancellation precedes relay. In every run, whatever the extraction
/// returned and whatever the driver reports:
/// the typing loop is started at most once, as the first action;
/// the extraction is asked for only while the loop runs;
/// the loop is cancelled only while it runs, so once for a start;
/// the reply is sent, and the call answered, only while no loop runs.
pub proof fn law_cancel_precedes_relay(events: Seq<EventView>, j: int)
    requires
        0 <= j < events.len(),
    ensures
        action_at(events, j) is StartTyping ==> j == 0,
        action_at(events, j) is Extract ==> typing_runs(events, j),
        action_at(events, j) is CancelTyping ==> typing_runs(events, j),
        action_at(events, j) is Send ==> !typing_runs(events, j),
        action_at(events, j) is Finish ==> !typing_runs(events, j),
{
    lemma_run_invariant(events, j);
}

/// A failed extraction does not stop the relay: the error's text goes into
/// the reply, the typing loop is cancelled, and the reply is sent.
pub proof fn law_failed_extraction_is_relayed(s: WebhookView, e: Seq<char>)
    requires
        s.stage is Extracting,
    ensures
        ({
            let (cancelling, cancel) = webhook_step(s, EventView::Extracted(Err(e)));
            let (responding, send) = webhook_step(cancelling, EventView::TypingCancelled);
            &&& cancel is CancelTyping
            &&& send == ActionView::Send(
                SendMessageView {
                    chat_id: s.chat_id,
                    text: s.reply + ("error: "@ + e + "\n"@) + sender_line(s.sender),
                },
            )
            &&& responding.stage is Responding
        }),
{
}

/// A reply that cannot be delivered fails the webhook call: the answer is an
/// error of the class 400 with a text that is not empty.
pub proof fn law_failed_delivery_is_refused(s: WebhookView, cause: Seq<char>)
    requires
        s.stage is Responding,
    ensures
        ({
            let (done, answer) = webhook_step(s, EventView::Sent(Err(cause)));
            &&& done.stage is Done
            &&& answer matches ActionView::Finish(Err(e))
            &&& 400 <= error_response(e).0 < 500
            &&& error_response(e).1.len() > 0
        }),
{
    reveal_strlit("SEND_MSG_ERROR");
}

} // verus!
