//! The extraction client: the request that asks a language model to turn a
//! message into a financial transaction, and the reading of its reply.
//!
//! The client sends nothing itself. [`LLM::request`] says what to post to
//! [`LLM::endpoint`]; the caller posts it and hands what came back to
//! [`LLM::parse_text`] as an [`LLMReply`].
use vstd::prelude::*;
use crate::json::{
    field_of, json_document, nested_field_of, Document, Field, FieldView, Json,
};
use crate::http::{status_text, Status};
use crate::text::{debug_opt, debug_option, holds, lemma_holds_middle, opt_text};

verus! {

/// The model that is asked.
pub const MODEL: &'static str = "qwen2.5:3b";

/// The instruction that sets the model's role.
pub const SYSTEM_INSTRUCTION: &'static str =
    "Ты финансовый парсер. Отвечай только валидным JSON.Если ты не уверен — всё равно верни JSON с null значениями";

/// The rules of the task, up to the place of the reference time.
pub const PROMPT_RULES: &'static str = r#"
Ты финансовый парсер.Твоя задача: извлечь данные из текста и вернуть СТРОГО JSON.
Правила:
- Ответ должен содержать ТОЛЬКО валидный JSON.
- Без пояснений.
- Без markdown.
- Без комментариев.
- Без дополнительного текста.
- Поле "date" только в UTC (суффикс Z), пример: 2026-02-17T19:00:00Z и если найдёш слово связано с времям рассчитай дату относительно сегодняшнего дня: "#;

/// The schema of the answer, up to the place of the message text.
pub const PROMPT_SCHEMA: &'static str = r#"
Формат ответа:
{
  "type": "expense | income | income-loan | expense-loan",
  "category": "food | transport | entertainment | salary | loan | ...",
  "item": "banana | loan | shirts | meat | ...",
  "amount": float,
  "currency": "RUB | USD | UZS | ...",
  "date": "date with foramt ISO 8601",
  "person": "я | он | слово который указиваеть на когото но на англиском |me | person name | he | friend | ..."
}

Текст:
"#;

/// The prompt for a message text and a reference time: the rules, the time,
/// the schema, the text as it is, and a line end.
pub open spec fn prompt_text(text: Seq<char>, today_date: Seq<char>) -> Seq<char> {
    PROMPT_RULES@ + today_date + PROMPT_SCHEMA@ + text + "\n"@
}

/// Builds the prompt for a message text and a reference time.
pub fn prompt(text: &str, today_date: &str) -> (r: String)
    ensures
        r@ == prompt_text(text@, today_date@),
{
    let mut r = String::from_str(PROMPT_RULES);
    r.append(today_date);
    r.append(PROMPT_SCHEMA);
    r.append(text);
    r.append("\n");
    r
}

/// One message of a chat-style completion request.
#[derive(Debug, PartialEq, Eq)]
pub struct LLMMessage {
    pub role: String,
    pub content: String,
}

/// The mathematical value of an [`LLMMessage`].
pub struct LLMMessageView {
    pub role: Seq<char>,
    pub content: Seq<char>,
}

impl View for LLMMessage {
    type V = LLMMessageView;

    open spec fn view(&self) -> LLMMessageView {
        LLMMessageView { role: self.role@, content: self.content@ }
    }
}

/// The sampling options of a request.
#[derive(Debug, PartialEq, Eq)]
pub struct LLMOptions {
    pub temperature: u8,
}

/// A chat-style completion request.
#[derive(Debug, PartialEq, Eq)]
pub struct LLMRequest {
    pub model: String,
    pub messages: Vec<LLMMessage>,
    pub format: String,
    pub options: LLMOptions,
    pub stream: bool,
}

/// The mathematical value of an [`LLMRequest`].
pub struct LLMRequestView {
    pub model: Seq<char>,
    pub messages: Seq<LLMMessageView>,
    pub format: Seq<char>,
    pub temperature: u8,
    pub stream: bool,
}

impl View for LLMRequest {
    type V = LLMRequestView;

    open spec fn view(&self) -> LLMRequestView {
        LLMRequestView {
            model: self.model@,
            messages: Seq::new(self.messages@.len(), |i: int| self.messages@[i]@),
            format: self.format@,
            temperature: self.options.temperature,
            stream: self.stream,
        }
    }
}

/// The request for a message text and a reference time: the system
/// instruction, then the prompt as the user's message; JSON output, no
/// sampling temperature, no streaming.
pub open spec fn request_for(text: Seq<char>, today_date: Seq<char>) -> LLMRequestView {
    LLMRequestView {
        model: MODEL@,
        messages: seq![
            LLMMessageView { role: "system"@, content: SYSTEM_INSTRUCTION@ },
            LLMMessageView { role: "user"@, content: prompt_text(text, today_date) },
        ],
        format: "json"@,
        temperature: 0,
        stream: false,
    }
}

/// Reads the local time with `chrono::Local::now` and writes it as text,
/// with the `Display` of `chrono::DateTime`.
///
/// Trusted, with nothing stated: the result is whatever the clock shows.
#[verifier::external_body]
pub(crate) fn local_now() -> String {
    chrono::Local::now().to_string()
}

/// What came back from posting a request to the endpoint.
#[derive(Debug, PartialEq, Eq)]
pub enum LLMReply {
    /// The request did not get through; the text says why.
    Unreachable(String),
    /// The endpoint answered. `body` is the response body, or the reason why
    /// it could not be read.
    Answered { status: Status, body: Result<String, String> },
}

/// The mathematical value of an [`LLMReply`].
pub enum LLMReplyView {
    Unreachable(Seq<char>),
    Answered { status: u16, body: Result<Seq<char>, Seq<char>> },
}

impl View for LLMReply {
    type V = LLMReplyView;

    open spec fn view(&self) -> LLMReplyView {
        match *self {
            LLMReply::Unreachable(cause) => LLMReplyView::Unreachable(cause@),
            LLMReply::Answered { status, body } => LLMReplyView::Answered {
                status: status@,
                body: match body {
                    Ok(b) => Ok(b@),
                    Err(e) => Err(e@),
                },
            },
        }
    }
}

/// Why an extraction failed.
#[derive(Debug, PartialEq, Eq)]
pub enum LLMError {
    /// The endpoint could not be reached.
    Transport(String),
    /// The endpoint answered with a status outside the success class.
    Upstream { status: Status, body: String },
    /// As `Upstream`, and the body could not be read either.
    UpstreamUnread { status: Status, cause: String },
    /// The body of a successful answer could not be read, or is no JSON.
    Envelope(String),
    /// The answer is JSON but carries no content.
    MalformedEnvelope,
    /// The content is not a transaction record. `content` is the content as
    /// it came.
    SchemaDecode { error: String, content: String },
}

/// The mathematical value of an [`LLMError`].
pub enum LLMErrorView {
    Transport(Seq<char>),
    Upstream { status: u16, body: Seq<char> },
    UpstreamUnread { status: u16, cause: Seq<char> },
    Envelope(Seq<char>),
    MalformedEnvelope,
    SchemaDecode { error: Seq<char>, content: Seq<char> },
}

impl View for LLMError {
    type V = LLMErrorView;

    open spec fn view(&self) -> LLMErrorView {
        match *self {
            LLMError::Transport(cause) => LLMErrorView::Transport(cause@),
            LLMError::Upstream { status, body } => LLMErrorView::Upstream {
                status: status@,
                body: body@,
            },
            LLMError::UpstreamUnread { status, cause } => LLMErrorView::UpstreamUnread {
                status: status@,
                cause: cause@,
            },
            LLMError::Envelope(cause) => LLMErrorView::Envelope(cause@),
            LLMError::MalformedEnvelope => LLMErrorView::MalformedEnvelope,
            LLMError::SchemaDecode { error, content } => LLMErrorView::SchemaDecode {
                error: error@,
                content: content@,
            },
        }
    }
}

/// The text by which an error is shown to the user.
pub open spec fn error_text(e: LLMErrorView) -> Seq<char> {
    match e {
        LLMErrorView::Transport(cause) => "ERROR on setding to LLM "@ + cause,
        LLMErrorView::Upstream { status, body } => "LLM HTTP error "@ + status_text(status)
            + ". Body: "@ + body,
        LLMErrorView::UpstreamUnread { status, cause } => "LLM HTTP error "@ + status_text(status)
            + " and failed to read body: "@ + cause,
        LLMErrorView::Envelope(cause) => "Failed to parse LLM JSON body: "@ + cause,
        LLMErrorView::MalformedEnvelope => "Failed to parse LLM response"@,
        LLMErrorView::SchemaDecode { error, content } => "LLM JSON parse error: "@ + error
            + ". Content: "@ + content,
    }
}

impl LLMError {
    /// The text by which the error is shown to the user.
    pub fn message(&self) -> (r: String)
        ensures
            r@ == error_text(self@),
    {
        match self {
            LLMError::Transport(cause) => {
                let mut r = String::from_str("ERROR on setding to LLM ");
                r.append(cause.as_str());
                r
            },
            LLMError::Upstream { status, body } => {
                let mut r = String::from_str("LLM HTTP error ");
                let line = status.text();
                r.append(line.as_str());
                r.append(". Body: ");
                r.append(body.as_str());
                r
            },
            LLMError::UpstreamUnread { status, cause } => {
                let mut r = String::from_str("LLM HTTP error ");
                let line = status.text();
                r.append(line.as_str());
                r.append(" and failed to read body: ");
                r.append(cause.as_str());
                r
            },
            LLMError::Envelope(cause) => {
                let mut r = String::from_str("Failed to parse LLM JSON body: ");
                r.append(cause.as_str());
                r
            },
            LLMError::MalformedEnvelope => String::from_str("Failed to parse LLM response"),
            LLMError::SchemaDecode { error, content } => {
                let mut r = String::from_str("LLM JSON parse error: ");
                r.append(error.as_str());
                r.append(". Content: ");
                r.append(content.as_str());
                r
            },
        }
    }
}

/// An extracted financial transaction. Every field may be missing: the model
/// leaves out what it is not sure of.
#[derive(Debug, PartialEq, Eq)]
pub struct LLMContent {
    /// The kind: `expense`, `income`, `income-loan` or `expense-loan`.
    pub type_ctx: Option<String>,
    pub category: Option<String>,
    pub item: Option<String>,
    /// The amount as a decimal number, in the text that identifies the 64-bit
    /// float it was read as (see [`Json::Number`]); parsing the text gives
    /// that float back.
    pub amount: Option<String>,
    pub currency: Option<String>,
    /// The date, in UTC.
    pub date: Option<String>,
    /// The other party.
    pub person: Option<String>,
}

/// The mathematical value of an [`LLMContent`].
pub struct LLMContentView {
    pub type_ctx: Option<Seq<char>>,
    pub category: Option<Seq<char>>,
    pub item: Option<Seq<char>>,
    pub amount: Option<Seq<char>>,
    pub currency: Option<Seq<char>>,
    pub date: Option<Seq<char>>,
    pub person: Option<Seq<char>>,
}

impl View for LLMContent {
    type V = LLMContentView;

    open spec fn view(&self) -> LLMContentView {
        LLMContentView {
            type_ctx: opt_text(self.type_ctx),
            category: opt_text(self.category),
            item: opt_text(self.item),
            amount: opt_text(self.amount),
            currency: opt_text(self.currency),
            date: opt_text(self.date),
            person: opt_text(self.person),
        }
    }
}

/// An optional amount as it is shown: `None`, or `Some(5.0)`.
pub open spec fn amount_shown(amount: Option<Seq<char>>) -> Seq<char> {
    match amount {
        Some(a) => "Some("@ + a + ")"@,
        None => "None"@,
    }
}

/// A record as it is shown to the user.
pub open spec fn content_text(c: LLMContentView) -> Seq<char> {
    "LLMContent { type_ctx: "@ + debug_option(c.type_ctx) + ", category: "@ + debug_option(
        c.category,
    ) + ", item: "@ + debug_option(c.item) + ", amount: "@ + amount_shown(c.amount)
        + ", currency: "@ + debug_option(c.currency) + ", date: "@ + debug_option(c.date)
        + ", person: "@ + debug_option(c.person) + " }"@
}

/// The members of a content object that make up a record, as they were read.
pub struct ContentFields {
    pub type_ctx: Field,
    pub category: Field,
    pub item: Field,
    pub amount: Field,
    pub currency: Field,
    pub date: Field,
    pub person: Field,
}

/// The mathematical value of [`ContentFields`].
pub struct ContentFieldsView {
    pub type_ctx: FieldView,
    pub category: FieldView,
    pub item: FieldView,
    pub amount: FieldView,
    pub currency: FieldView,
    pub date: FieldView,
    pub person: FieldView,
}

impl View for ContentFields {
    type V = ContentFieldsView;

    open spec fn view(&self) -> ContentFieldsView {
        ContentFieldsView {
            type_ctx: self.type_ctx@,
            category: self.category@,
            item: self.item@,
            amount: self.amount@,
            currency: self.currency@,
            date: self.date@,
            person: self.person@,
        }
    }
}

/// A string member is a string, or is `null` or missing.
pub open spec fn is_text_field(f: FieldView) -> bool {
    f is Absent || f is Null || f is Text
}

/// A number member is a number, or is `null` or missing.
pub open spec fn is_number_field(f: FieldView) -> bool {
    f is Absent || f is Null || f is Number
}

/// The value of a member that has the right type.
pub open spec fn field_value(f: FieldView) -> Option<Seq<char>> {
    match f {
        FieldView::Text(s) => Some(s),
        FieldView::Number(n) => Some(n),
        _ => None,
    }
}

/// The complaint about a member that is no string.
pub open spec fn wrong_text(name: Seq<char>) -> Seq<char> {
    "invalid type for `"@ + name + "`: expected a string or null"@
}

/// The complaint about a member that is no number.
pub open spec fn wrong_number(name: Seq<char>) -> Seq<char> {
    "invalid type for `"@ + name + "`: expected a number or null"@
}

/// The complaint about the first member of the wrong type, in the order of
/// the record's fields; `None` where every member fits.
pub open spec fn first_complaint(f: ContentFieldsView) -> Option<Seq<char>> {
    if !is_text_field(f.type_ctx) {
        Some(wrong_text("type"@))
    } else if !is_text_field(f.category) {
        Some(wrong_text("category"@))
    } else if !is_text_field(f.item) {
        Some(wrong_text("item"@))
    } else if !is_number_field(f.amount) {
        Some(wrong_number("amount"@))
    } else if !is_text_field(f.currency) {
        Some(wrong_text("currency"@))
    } else if !is_text_field(f.date) {
        Some(wrong_text("date"@))
    } else if !is_text_field(f.person) {
        Some(wrong_text("person"@))
    } else {
        None
    }
}

/// The record that the members make up, or the schema error for content
/// `raw` where a member has the wrong type.
pub open spec fn typed_content(f: ContentFieldsView, raw: Seq<char>) -> Result<
    LLMContentView,
    LLMErrorView,
> {
    match first_complaint(f) {
        Some(error) => Err(LLMErrorView::SchemaDecode { error, content: raw }),
        None => Ok(
            LLMContentView {
                type_ctx: field_value(f.type_ctx),
                category: field_value(f.category),
                item: field_value(f.item),
                amount: field_value(f.amount),
                currency: field_value(f.currency),
                date: field_value(f.date),
                person: field_value(f.person),
            },
        ),
    }
}

/// The members of a content document that make up a record.
pub open spec fn content_fields(doc: Json) -> ContentFieldsView {
    ContentFieldsView {
        type_ctx: field_of(doc, "type"@),
        category: field_of(doc, "category"@),
        item: field_of(doc, "item"@),
        amount: field_of(doc, "amount"@),
        currency: field_of(doc, "currency"@),
        date: field_of(doc, "date"@),
        person: field_of(doc, "person"@),
    }
}

/// The record in a parsed content document: the document must be an object,
/// and each member that is there must fit.
pub open spec fn document_content(doc: Json, raw: Seq<char>) -> Result<
    LLMContentView,
    LLMErrorView,
> {
    if doc is Object {
        typed_content(content_fields(doc), raw)
    } else {
        Err(LLMErrorView::SchemaDecode { error: "expected a JSON object"@, content: raw })
    }
}

/// The record in a content text.
pub open spec fn decoded_content(raw: Seq<char>) -> Result<LLMContentView, LLMErrorView> {
    match json_document(raw) {
        Ok(doc) => document_content(doc, raw),
        Err(error) => Err(LLMErrorView::SchemaDecode { error, content: raw }),
    }
}

/// The content of an answer, picked from the two members that may carry it:
/// `message.content` first, then `response`. Only a string counts.
pub open spec fn picked_content(content: FieldView, response: FieldView) -> Option<Seq<char>> {
    match content {
        FieldView::Text(c) => Some(c),
        _ => match response {
            FieldView::Text(r) => Some(r),
            _ => None,
        },
    }
}

/// The content that an answer's envelope carries.
pub open spec fn envelope_text(doc: Json) -> Option<Seq<char>> {
    picked_content(nested_field_of(doc, "message"@, "content"@), field_of(doc, "response"@))
}

/// What a reply amounts to: the record, or the reason why there is none.
pub open spec fn extraction(reply: LLMReplyView) -> Result<LLMContentView, LLMErrorView> {
    match reply {
        LLMReplyView::Unreachable(cause) => Err(LLMErrorView::Transport(cause)),
        LLMReplyView::Answered { status, body } => if !(200 <= status < 300) {
            match body {
                Ok(b) => Err(LLMErrorView::Upstream { status, body: b }),
                Err(cause) => Err(LLMErrorView::UpstreamUnread { status, cause }),
            }
        } else {
            match body {
                Err(cause) => Err(LLMErrorView::Envelope(cause)),
                Ok(b) => match json_document(b) {
                    Err(cause) => Err(LLMErrorView::Envelope(cause)),
                    Ok(doc) => match envelope_text(doc) {
                        None => Err(LLMErrorView::MalformedEnvelope),
                        Some(content) => decoded_content(content),
                    },
                },
            }
        },
    }
}

/// The mathematical value of an extraction's outcome.
pub open spec fn outcome_view(r: Result<LLMContent, LLMError>) -> Result<
    LLMContentView,
    LLMErrorView,
> {
    match r {
        Ok(c) => Ok(c@),
        Err(e) => Err(e@),
    }
}

/// The outcome of an extraction as the orchestrator takes it: the record, or
/// the error's text.
pub open spec fn outcome_text(r: Result<LLMContentView, LLMErrorView>) -> Result<
    LLMContentView,
    Seq<char>,
> {
    match r {
        Ok(c) => Ok(c),
        Err(e) => Err(error_text(e)),
    }
}

/// Picks the content of an answer from the two members that may carry it.
pub fn pick_content(content: Field, response: Field) -> (r: Option<String>)
    ensures
        opt_text(r) == picked_content(content@, response@),
{
    match content {
        Field::Text(c) => Some(c),
        _ => match response {
            Field::Text(r) => Some(r),
            _ => None,
        },
    }
}

/// Finds the content that an answer's envelope carries.
pub fn envelope_content(doc: &Document) -> (r: Option<String>)
    ensures
        opt_text(r) == envelope_text(doc@),
{
    pick_content(doc.nested_field("message", "content"), doc.field("response"))
}

/// Builds the schema error for content `raw` out of a complaint and a
/// member's name.
fn complaint(before: &str, name: &str, after: &str, raw: &str) -> (e: LLMError)
    ensures
        e@ == (LLMErrorView::SchemaDecode {
            error: before@ + name@ + after@,
            content: raw@,
        }),
{
    let mut error = String::from_str(before);
    error.append(name);
    error.append(after);
    LLMError::SchemaDecode { error, content: String::from_str(raw) }
}

/// Takes a string member's value.
fn text_member(f: Field, name: &str, raw: &str) -> (r: Result<Option<String>, LLMError>)
    ensures
        match r {
            Ok(v) => is_text_field(f@) && opt_text(v) == field_value(f@),
            Err(e) => !is_text_field(f@) && e@ == (LLMErrorView::SchemaDecode {
                error: wrong_text(name@),
                content: raw@,
            }),
        },
{
    match f {
        Field::Absent => Ok(None),
        Field::Null => Ok(None),
        Field::Text(s) => Ok(Some(s)),
        _ => Err(complaint("invalid type for `", name, "`: expected a string or null", raw)),
    }
}

/// Takes a number member's value.
fn number_member(f: Field, name: &str, raw: &str) -> (r: Result<Option<String>, LLMError>)
    ensures
        match r {
            Ok(v) => is_number_field(f@) && opt_text(v) == field_value(f@),
            Err(e) => !is_number_field(f@) && e@ == (LLMErrorView::SchemaDecode {
                error: wrong_number(name@),
                content: raw@,
            }),
        },
{
    match f {
        Field::Absent => Ok(None),
        Field::Null => Ok(None),
        Field::Number(n) => Ok(Some(n)),
        _ => Err(complaint("invalid type for `", name, "`: expected a number or null", raw)),
    }
}

impl LLMContent {
    /// Makes a record out of the members read from a content object. Fails
    /// with a schema error for content `raw` at the first member that has the
    /// wrong type; members that are `null` or missing give empty fields.
    pub fn from_fields(fields: ContentFields, raw: &str) -> (r: Result<LLMContent, LLMError>)
        ensures
            outcome_view(r) == typed_content(fields@, raw@),
    {
        let type_ctx = text_member(fields.type_ctx, "type", raw)?;
        let category = text_member(fields.category, "category", raw)?;
        let item = text_member(fields.item, "item", raw)?;
        let amount = number_member(fields.amount, "amount", raw)?;
        let currency = text_member(fields.currency, "currency", raw)?;
        let date = text_member(fields.date, "date", raw)?;
        let person = text_member(fields.person, "person", raw)?;
        Ok(LLMContent { type_ctx, category, item, amount, currency, date, person })
    }

    /// Makes a record out of a parsed content document, which came from the
    /// text `raw`: the document must be an object whose members fit the
    /// record.
    pub fn from_document(doc: &Document, raw: &str) -> (r: Result<LLMContent, LLMError>)
        ensures
            outcome_view(r) == document_content(doc@, raw@),
    {
        if !doc.is_object() {
            return Err(
                LLMError::SchemaDecode {
                    error: String::from_str("expected a JSON object"),
                    content: String::from_str(raw),
                },
            );
        }
        let fields = ContentFields {
            type_ctx: doc.field("type"),
            category: doc.field("category"),
            item: doc.field("item"),
            amount: doc.field("amount"),
            currency: doc.field("currency"),
            date: doc.field("date"),
            person: doc.field("person"),
        };
        LLMContent::from_fields(fields, raw)
    }

    /// Decodes a content text: the text must be a JSON object whose members
    /// fit the record.
    pub fn decode(raw: &str) -> (r: Result<LLMContent, LLMError>)
        ensures
            outcome_view(r) == decoded_content(raw@),
    {
        match Document::parse(raw) {
            Ok(doc) => LLMContent::from_document(&doc, raw),
            Err(error) => Err(LLMError::SchemaDecode { error, content: String::from_str(raw) }),
        }
    }

    /// Shows the record to the user, field by field.
    pub fn render(&self) -> (r: String)
        ensures
            r@ == content_text(self@),
    {
        let mut r = String::from_str("LLMContent { type_ctx: ");
        let type_ctx = debug_opt(&self.type_ctx);
        r.append(type_ctx.as_str());
        r.append(", category: ");
        let category = debug_opt(&self.category);
        r.append(category.as_str());
        r.append(", item: ");
        let item = debug_opt(&self.item);
        r.append(item.as_str());
        r.append(", amount: ");
        match &self.amount {
            Some(a) => {
                r.append("Some(");
                r.append(a.as_str());
                r.append(")");
            },
            None => {
                r.append("None");
            },
        }
        r.append(", currency: ");
        let currency = debug_opt(&self.currency);
        r.append(currency.as_str());
        r.append(", date: ");
        let date = debug_opt(&self.date);
        r.append(date.as_str());
        r.append(", person: ");
        let person = debug_opt(&self.person);
        r.append(person.as_str());
        r.append(" }");
        r
    }
}

/// The extraction client, bound to one endpoint.
#[derive(Debug, PartialEq, Eq)]
pub struct LLM {
    url: String,
}

impl LLM {
    /// The base address of the endpoint.
    pub closed spec fn view(&self) -> Seq<char> {
        self.url@
    }

    /// A client for the endpoint at `url`, the value of the setting `LLM_URL`;
    /// fails where the setting is missing.
    pub fn new(url: Option<String>) -> (r: Result<LLM, String>)
        ensures
            match r {
                Ok(llm) => url matches Some(u) && llm@ == u@,
                Err(e) => url is None && e@ == "Failed to create LLM URL"@,
            },
    {
        match url {
            Some(url) => Ok(LLM { url }),
            None => Err(String::from_str("Failed to create LLM URL")),
        }
    }

    /// The address to post requests to.
    pub fn endpoint(&self) -> (r: String)
        ensures
            r@ == self@ + "/chat"@,
    {
        let mut r = self.url.clone();
        r.append("/chat");
        r
    }

    /// The request that asks for the record in `text`, with `today_date` as
    /// the reference time for relative dates.
    pub fn request(&self, text: &str, today_date: &str) -> (r: LLMRequest)
        ensures
            r@ == request_for(text@, today_date@),
    {
        let mut messages: Vec<LLMMessage> = Vec::new();
        messages.push(
            LLMMessage {
                role: String::from_str("system"),
                content: String::from_str(SYSTEM_INSTRUCTION),
            },
        );
        messages.push(
            LLMMessage { role: String::from_str("user"), content: prompt(text, today_date) },
        );
        let r = LLMRequest {
            model: String::from_str(MODEL),
            messages,
            format: String::from_str("json"),
            options: LLMOptions { temperature: 0 },
            stream: false,
        };
        assert(r@.messages =~= request_for(text@, today_date@).messages);
        r
    }

    /// The request that asks for the record in `text`, with the local time of
    /// this call as the reference time.
    pub fn request_now(&self, text: &str) -> (r: LLMRequest)
        ensures
            exists|today_date: Seq<char>| r@ == request_for(text@, today_date),
    {
        let today_date = local_now();
        self.request(text, today_date.as_str())
    }

    /// Reads a reply as a record or as the reason why there is none.
    pub fn interpret(&self, reply: LLMReply) -> (r: Result<LLMContent, LLMError>)
        ensures
            outcome_view(r) == extraction(reply@),
    {
        match reply {
            LLMReply::Unreachable(cause) => Err(LLMError::Transport(cause)),
            LLMReply::Answered { status, body } => {
                if !status.is_success() {
                    return match body {
                        Ok(body) => Err(LLMError::Upstream { status, body }),
                        Err(cause) => Err(LLMError::UpstreamUnread { status, cause }),
                    };
                }
                let body = match body {
                    Ok(body) => body,
                    Err(cause) => { return Err(LLMError::Envelope(cause)); },
                };
                let doc = match Document::parse(body.as_str()) {
                    Ok(doc) => doc,
                    Err(cause) => { return Err(LLMError::Envelope(cause)); },
                };
                match envelope_content(&doc) {
                    Some(content) => LLMContent::decode(content.as_str()),
                    None => Err(LLMError::MalformedEnvelope),
                }
            },
        }
    }

    /// Reads a reply as a record, or as the text that tells the user why
    /// there is none.
    pub fn parse_text(&self, reply: LLMReply) -> (r: Result<LLMContent, String>)
        ensures
            match r {
                Ok(c) => outcome_text(extraction(reply@)) == Ok::<LLMContentView, Seq<char>>(c@),
                Err(e) => outcome_text(extraction(reply@)) == Err::<LLMContentView, Seq<char>>(
                    e@,
                ),
            },
    {
        match self.interpret(reply) {
            Ok(content) => Ok(content),
            Err(e) => Err(e.message()),
        }
    }
}

/// The prompt holds the message text and the reference time as they are.
pub proof fn law_prompt_holds_text_and_time(text: Seq<char>, today_date: Seq<char>)
    ensures
        holds(prompt_text(text, today_date), text),
        holds(prompt_text(text, today_date), today_date),
        request_for(text, today_date).messages[1].content == prompt_text(text, today_date),
{
    lemma_holds_middle(PROMPT_RULES@ + today_date + PROMPT_SCHEMA@, text, "\n"@);
    lemma_holds_middle(PROMPT_RULES@, today_date, PROMPT_SCHEMA@ + text + "\n"@);
    assert(PROMPT_RULES@ + today_date + (PROMPT_SCHEMA@ + text + "\n"@) =~= prompt_text(
        text,
        today_date,
    ));
}

/// An answer outside the success class is reported with its status line and
/// its body as they are.
pub proof fn law_upstream_text_holds_status_and_body(status: u16, body: Seq<char>)
    ensures
        holds(error_text(LLMErrorView::Upstream { status, body }), status_text(status)),
        holds(error_text(LLMErrorView::Upstream { status, body }), body),
{
    let text = error_text(LLMErrorView::Upstream { status, body });
    lemma_holds_middle("LLM HTTP error "@, status_text(status), ". Body: "@ + body);
    assert("LLM HTTP error "@ + status_text(status) + (". Body: "@ + body) =~= text);
    lemma_holds_middle("LLM HTTP error "@ + status_text(status) + ". Body: "@, body, Seq::empty());
    assert("LLM HTTP error "@ + status_text(status) + ". Body: "@ + body + Seq::<char>::empty()
        =~= text);
}

/// A content object whose members are all `null` or missing is a record
/// with every field empty, and no error.
pub proof fn law_null_members_are_a_record(f: ContentFieldsView, raw: Seq<char>)
    requires
        f.type_ctx is Null || f.type_ctx is Absent,
        f.category is Null || f.category is Absent,
        f.item is Null || f.item is Absent,
        f.amount is Null || f.amount is Absent,
        f.currency is Null || f.currency is Absent,
        f.date is Null || f.date is Absent,
        f.person is Null || f.person is Absent,
    ensures
        typed_content(f, raw) == Ok::<LLMContentView, LLMErrorView>(
            LLMContentView {
                type_ctx: None,
                category: None,
                item: None,
                amount: None,
                currency: None,
                date: None,
                person: None,
            },
        ),
{
}

/// Only the status decides between an answer that is read and one that is
/// reported: outside the class 200 the outcome is an upstream error,
/// whatever the body holds.
pub proof fn law_status_decides(status: u16, body: Seq<char>)
    requires
        !(200 <= status < 300),
    ensures
        extraction(LLMReplyView::Answered { status, body: Ok(body) }) == Err::<
            LLMContentView,
            LLMErrorView,
        >(LLMErrorView::Upstream { status, body }),
{
}

} // verus!
