//! The messaging client: the updates that the platform delivers, and the
//! calls that deliver a text or a typing signal to a chat.
//!
//! The client sends nothing itself. Each method says which address to call
//! and with what body; the caller makes the call and hands the outcome to
//! [`delivery`].
use vstd::prelude::*;
use crate::text::opt_text;

verus! {

/// The address of the platform, up to the place of the bot's token.
pub const API_BASE: &'static str = "https://api.telegram.org/bot";

/// The seconds between two typing signals.
pub const TYPING_INTERVAL_SECS: u64 = 4;

/// One webhook delivery.
#[derive(Debug, PartialEq, Eq)]
pub struct Update {
    pub message: Option<Message>,
}

/// A chat message.
#[derive(Debug, PartialEq, Eq)]
pub struct Message {
    pub message_id: i64,
    pub from: Option<User>,
    pub chat: Chat,
    pub text: Option<String>,
}

/// The sender of a message.
#[derive(Debug, PartialEq, Eq)]
pub struct User {
    pub id: i64,
    pub first_name: String,
    pub last_name: Option<String>,
    pub username: Option<String>,
    pub language_code: Option<String>,
}

/// The chat that a message belongs to. Its `id` is where replies go.
#[derive(Debug, PartialEq, Eq)]
pub struct Chat {
    pub id: i64,
    pub chat_type: String,
}

/// The body of a call that delivers a text to a chat.
#[derive(Debug, PartialEq, Eq)]
pub struct SendMessage {
    pub chat_id: i64,
    pub text: String,
}

/// The body of a call that shows a chat action, such as typing.
#[derive(Debug, PartialEq, Eq)]
pub struct TypingEffect {
    pub chat_id: i64,
    pub action: String,
}

/// The mathematical value of a [`User`].
pub struct UserView {
    pub id: i64,
    pub first_name: Seq<char>,
    pub last_name: Option<Seq<char>>,
    pub username: Option<Seq<char>>,
    pub language_code: Option<Seq<char>>,
}

impl View for User {
    type V = UserView;

    open spec fn view(&self) -> UserView {
        UserView {
            id: self.id,
            first_name: self.first_name@,
            last_name: opt_text(self.last_name),
            username: opt_text(self.username),
            language_code: opt_text(self.language_code),
        }
    }
}

/// The mathematical value of a [`Chat`].
pub struct ChatView {
    pub id: i64,
    pub chat_type: Seq<char>,
}

impl View for Chat {
    type V = ChatView;

    open spec fn view(&self) -> ChatView {
        ChatView { id: self.id, chat_type: self.chat_type@ }
    }
}

/// The mathematical value of a [`Message`].
pub struct MessageView {
    pub message_id: i64,
    pub from: Option<UserView>,
    pub chat: ChatView,
    pub text: Option<Seq<char>>,
}

impl View for Message {
    type V = MessageView;

    open spec fn view(&self) -> MessageView {
        MessageView {
            message_id: self.message_id,
            from: match self.from {
                Some(user) => Some(user@),
                None => None,
            },
            chat: self.chat@,
            text: opt_text(self.text),
        }
    }
}

/// The mathematical value of an [`Update`].
pub struct UpdateView {
    pub message: Option<MessageView>,
}

impl View for Update {
    type V = UpdateView;

    open spec fn view(&self) -> UpdateView {
        UpdateView {
            message: match self.message {
                Some(message) => Some(message@),
                None => None,
            },
        }
    }
}

/// The mathematical value of a [`SendMessage`].
pub struct SendMessageView {
    pub chat_id: i64,
    pub text: Seq<char>,
}

impl View for SendMessage {
    type V = SendMessageView;

    open spec fn view(&self) -> SendMessageView {
        SendMessageView { chat_id: self.chat_id, text: self.text@ }
    }
}

/// The mathematical value of a [`TypingEffect`].
pub struct TypingEffectView {
    pub chat_id: i64,
    pub action: Seq<char>,
}

impl View for TypingEffect {
    type V = TypingEffectView;

    open spec fn view(&self) -> TypingEffectView {
        TypingEffectView { chat_id: self.chat_id, action: self.action@ }
    }
}

/// A call to make: post `body` to `url`.
#[derive(Debug, PartialEq, Eq)]
pub struct Call<B> {
    pub url: String,
    pub body: B,
}

/// The calls that the client plans.
#[derive(Debug, Clone, Copy, PartialEq, Eq)]
pub enum Operation {
    SetWebhook,
    SendMessage,
    Typing,
}

/// How the failure of an operation is introduced.
pub open spec fn failure_prefix(op: Operation) -> Seq<char> {
    match op {
        Operation::SetWebhook => "Failed to set webhook: "@,
        Operation::SendMessage => "Failed to send message: "@,
        Operation::Typing => "Failed to typing message: "@,
    }
}

/// What the outcome of a call means for its operation: a call that got
/// through succeeded, whatever the platform answered; one that did not fails
/// with the operation's complaint and the cause.
pub open spec fn delivered(op: Operation, sent: Result<(), Seq<char>>) -> Result<(), Seq<char>> {
    match sent {
        Ok(()) => Ok(()),
        Err(cause) => Err(failure_prefix(op) + cause),
    }
}

/// The mathematical value of an outcome without a payload.
pub open spec fn sent_view(sent: Result<(), String>) -> Result<(), Seq<char>> {
    match sent {
        Ok(()) => Ok(()),
        Err(cause) => Err(cause@),
    }
}

/// Says what the outcome of a call means for its operation. `sent` is `Ok`
/// where the call got through, and the cause of the failure where it did not.
pub fn delivery(op: Operation, sent: Result<(), String>) -> (r: Result<(), String>)
    ensures
        sent_view(r) == delivered(op, sent_view(sent)),
{
    match sent {
        Ok(()) => Ok(()),
        Err(cause) => {
            let mut e = match op {
                Operation::SetWebhook => String::from_str("Failed to set webhook: "),
                Operation::SendMessage => String::from_str("Failed to send message: "),
                Operation::Typing => String::from_str("Failed to typing message: "),
            };
            e.append(cause.as_str());
            Err(e)
        },
    }
}

/// The messaging client, bound to one bot.
#[derive(Debug, PartialEq, Eq)]
pub struct TelegramBot {
    api_url: String,
}

impl TelegramBot {
    /// The address that every call of this bot starts with.
    pub closed spec fn view(&self) -> Seq<char> {
        self.api_url@
    }

    /// A client for the bot with the given token, the value of the setting
    /// `BOT_TOKEN`; fails where the setting is missing.
    pub fn new(token: Option<String>) -> (r: Result<TelegramBot, String>)
        ensures
            match r {
                Ok(bot) => token matches Some(t) && bot@ == API_BASE@ + t@,
                Err(e) => token is None && e@ == "BOT_TOKEN not set"@,
            },
    {
        match token {
            Some(token) => {
                let mut api_url = String::from_str(API_BASE);
                api_url.append(token.as_str());
                Ok(TelegramBot { api_url })
            },
            None => Err(String::from_str("BOT_TOKEN not set")),
        }
    }

    /// The address to get in order to register `webhook_url`, the value of
    /// the setting `WEBHOOK_URL`, as this bot's callback; fails where the
    /// setting is missing.
    pub fn set_webhook(&self, webhook_url: Option<String>) -> (r: Result<String, String>)
        ensures
            match r {
                Ok(url) => webhook_url matches Some(w) && url@ == self@ + "/setWebhook?url="@
                    + w@,
                Err(e) => webhook_url is None && e@ == "Invalid webhook url"@,
            },
    {
        match webhook_url {
            Some(webhook_url) => {
                let mut url = self.api_url.clone();
                url.append("/setWebhook?url=");
                url.append(webhook_url.as_str());
                Ok(url)
            },
            None => Err(String::from_str("Invalid webhook url")),
        }
    }

    /// The call that delivers `text` to the chat `chat_id`.
    pub fn send_message(&self, chat_id: i64, text: String) -> (r: Call<SendMessage>)
        ensures
            r.url@ == self@ + "/sendMessage"@,
            r.body@ == (SendMessageView { chat_id, text: text@ }),
    {
        let mut url = self.api_url.clone();
        url.append("/sendMessage");
        Call { url, body: SendMessage { chat_id, text } }
    }

    /// The call that shows the chat `chat_id` that the bot is typing.
    pub fn typing_effect(&self, chat_id: i64) -> (r: Call<TypingEffect>)
        ensures
            r.url@ == self@ + "/sendChatAction"@,
            r.body@ == (TypingEffectView { chat_id, action: "typing"@ }),
    {
        let mut url = self.api_url.clone();
        url.append("/sendChatAction");
        Call { url, body: TypingEffect { chat_id, action: String::from_str("typing") } }
    }

    /// Starts a typing loop for the chat `chat_id`: the loop, and the first
    /// thing for its driver to do, which is to signal.
    pub fn loop_typing_effect(&self, chat_id: i64) -> (r: (TypingLoop, TypingAction))
        ensures
            r.0.running(),
            r.0.chat_id() == chat_id,
            r.1@ == (TypingActionView::Signal {
                url: self@ + "/sendChatAction"@,
                body: TypingEffectView { chat_id, action: "typing"@ },
            }),
    {
        (TypingLoop { chat_id, running: true }, TypingAction::Signal(self.typing_effect(chat_id)))
    }
}

/// A loop that keeps a chat's typing indicator alive: it signals, waits and
/// signals again until it is cancelled or a signal fails.
#[derive(Debug, PartialEq, Eq)]
pub struct TypingLoop {
    chat_id: i64,
    running: bool,
}

/// What happened to a typing loop.
#[derive(Debug, PartialEq, Eq)]
pub enum TypingEvent {
    /// The signal was sent, or the call failed for the given cause.
    Signalled(Result<(), String>),
    /// The interval has passed.
    Elapsed,
    /// The owner of the loop cancelled it.
    Cancelled,
}

/// What the driver of a typing loop does next.
#[derive(Debug, PartialEq, Eq)]
pub enum TypingAction {
    /// Make the call, then report `Signalled`.
    Signal(Call<TypingEffect>),
    /// Wait for the given seconds, then report `Elapsed`.
    Wait(u64),
    /// The loop is over: cancelled, or failed with the given error.
    Stop(Result<(), String>),
}

/// The mathematical value of a [`TypingEvent`].
pub enum TypingEventView {
    Signalled(Result<(), Seq<char>>),
    Elapsed,
    Cancelled,
}

impl View for TypingEvent {
    type V = TypingEventView;

    open spec fn view(&self) -> TypingEventView {
        match *self {
            TypingEvent::Signalled(sent) => TypingEventView::Signalled(sent_view(sent)),
            TypingEvent::Elapsed => TypingEventView::Elapsed,
            TypingEvent::Cancelled => TypingEventView::Cancelled,
        }
    }
}

/// The mathematical value of a [`TypingAction`].
pub enum TypingActionView {
    Signal { url: Seq<char>, body: TypingEffectView },
    Wait(u64),
    Stop(Result<(), Seq<char>>),
}

impl View for TypingAction {
    type V = TypingActionView;

    open spec fn view(&self) -> TypingActionView {
        match *self {
            TypingAction::Signal(call) => TypingActionView::Signal {
                url: call.url@,
                body: call.body@,
            },
            TypingAction::Wait(secs) => TypingActionView::Wait(secs),
            TypingAction::Stop(end) => TypingActionView::Stop(sent_view(end)),
        }
    }
}

/// The next action of a typing loop of the bot at `api_url` for the chat
/// `chat_id`, and whether the loop goes on. A loop that has stopped stays
/// stopped. A running loop waits after a signal that got through, signals
/// again when the interval has passed, and stops when it is cancelled or a
/// signal fails.
pub open spec fn typing_step(api_url: Seq<char>, chat_id: i64, running: bool, event: TypingEventView)
    -> (bool, TypingActionView) {
    if !running {
        (false, TypingActionView::Stop(Ok(())))
    } else {
        match event {
            TypingEventView::Signalled(Ok(())) => (true, TypingActionView::Wait(TYPING_INTERVAL_SECS)),
            TypingEventView::Signalled(Err(cause)) => (
                false,
                TypingActionView::Stop(Err(failure_prefix(Operation::Typing) + cause)),
            ),
            TypingEventView::Elapsed => (
                true,
                TypingActionView::Signal {
                    url: api_url + "/sendChatAction"@,
                    body: TypingEffectView { chat_id, action: "typing"@ },
                },
            ),
            TypingEventView::Cancelled => (false, TypingActionView::Stop(Ok(()))),
        }
    }
}

impl TypingLoop {
    /// Whether the loop still goes on.
    pub closed spec fn running(&self) -> bool {
        self.running
    }

    /// The chat that the loop signals to.
    pub closed spec fn chat_id(&self) -> i64 {
        self.chat_id
    }

    /// Whether the loop still goes on.
    pub fn is_running(&self) -> (r: bool)
        ensures
            r == self.running(),
    {
        self.running
    }

    /// Takes an event and says what to do next.
    pub fn step(&mut self, bot: &TelegramBot, event: TypingEvent) -> (action: TypingAction)
        ensures
            final(self).chat_id() == old(self).chat_id(),
            (final(self).running(), action@) == typing_step(
                bot@,
                old(self).chat_id(),
                old(self).running(),
                event@,
            ),
    {
        if !self.running {
            return TypingAction::Stop(Ok(()));
        }
        match event {
            TypingEvent::Signalled(sent) => match delivery(Operation::Typing, sent) {
                Ok(()) => TypingAction::Wait(TYPING_INTERVAL_SECS),
                Err(e) => {
                    self.running = false;
                    TypingAction::Stop(Err(e))
                },
            },
            TypingEvent::Elapsed => TypingAction::Signal(bot.typing_effect(self.chat_id)),
            TypingEvent::Cancelled => {
                self.running = false;
                TypingAction::Stop(Ok(()))
            },
        }
    }
}

/// A typing loop never ends on its own: as long as it is not cancelled and no
/// signal fails, it goes on, and its next action is to wait or to signal.
pub proof fn law_typing_loop_goes_on(api_url: Seq<char>, chat_id: i64, event: TypingEventView)
    requires
        event != TypingEventView::Cancelled,
        !(event matches TypingEventView::Signalled(Err(_))),
    ensures
        typing_step(api_url, chat_id, true, event).0,
        !(typing_step(api_url, chat_id, true, event).1 is Stop),
{
}

} // verus!
