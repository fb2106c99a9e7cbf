//! The channel: where a message goes, what is posted there, and what the
//! channel's answer means.

use crate::error::{Error, ErrorView};
use crate::text::{starts_with, text_of};
use vstd::prelude::*;

verus! {

/// The address and the chat that messages are sent to.
#[derive(Debug)]
pub struct Bot {
    url: String,
    chat_id: String,
}

/// A bot as plain values.
pub struct BotView {
    pub url: Seq<char>,
    pub chat_id: Seq<char>,
}

impl View for Bot {
    type V = BotView;

    closed spec fn view(&self) -> BotView {
        BotView { url: self.url@, chat_id: self.chat_id@ }
    }
}

/// How the channel is to read a message.
#[derive(Clone, Copy, Debug, PartialEq, Eq, Structural)]
pub enum ParseMode {
    Markdown,
    Html,
}

impl ParseMode {
    /// The name by which the channel knows the mode.
    pub open spec fn name(self) -> Seq<char> {
        match self {
            ParseMode::Markdown => "Markdown"@,
            ParseMode::Html => "HTML"@,
        }
    }

    /// The name by which the channel knows the mode.
    pub fn as_str(&self) -> (name: &'static str)
        ensures
            name@ == self.name(),
    {
        match self {
            ParseMode::Markdown => "Markdown",
            ParseMode::Html => "HTML",
        }
    }
}

/// What is posted to the channel for one message.
#[derive(Debug)]
pub struct SendMessage {
    pub chat_id: String,
    pub text: String,
    pub parse_mode: ParseMode,
    pub disable_notification: bool,
}

/// What the channel answers.
#[derive(Debug)]
pub struct TelegramResponse {
    pub ok: bool,
    pub description: Option<String>,
}

/// The address to which messages are posted with `token`.
pub open spec fn endpoint(token: Seq<char>) -> Seq<char> {
    "https://api.telegram.org/bot"@ + token + "/sendMessage"@
}

/// The name of a chat as the channel wants it: with `@` in front.
pub open spec fn chat_name(chat_id: Seq<char>) -> Seq<char> {
    if "@"@.is_prefix_of(chat_id) {
        chat_id
    } else {
        "@"@ + chat_id
    }
}

/// The mode that is used where none is asked for.
pub open spec fn mode_or_default(parse_mode: Option<ParseMode>) -> ParseMode {
    match parse_mode {
        Some(mode) => mode,
        None => ParseMode::Markdown,
    }
}

/// What the channel's answer means: a refusal unless the answer says `ok`.
pub open spec fn verdict(response: TelegramResponse) -> Result<(), ErrorView> {
    if response.ok {
        Ok(())
    } else {
        Err(ErrorView::Rejected { description: text_of(response.description) })
    }
}

/// The outcome of a run as plain values.
pub open spec fn outcome_view(outcome: Result<(), Error>) -> Result<(), ErrorView> {
    match outcome {
        Ok(()) => Ok(()),
        Err(error) => Err(error@),
    }
}

impl Bot {
    /// A bot that posts with `token` to the chat `chat_id`.
    pub fn new(token: &str, chat_id: &str) -> (bot: Self)
        ensures
            bot@.url == endpoint(token@),
            bot@.chat_id == chat_name(chat_id@),
    {
        let chat_id = if starts_with(chat_id, "@") {
            String::from_str(chat_id)
        } else {
            let mut name = String::from_str("@");
            name.append(chat_id);
            name
        };
        let mut url = String::from_str("https://api.telegram.org/bot");
        url.append(token);
        url.append("/sendMessage");
        Self { url, chat_id }
    }

    /// The address to which messages are posted.
    pub fn url(&self) -> (url: &str)
        ensures
            url@ == self@.url,
    {
        self.url.as_str()
    }

    /// The chat that messages go to.
    pub fn chat_id(&self) -> (chat_id: &str)
        ensures
            chat_id@ == self@.chat_id,
    {
        self.chat_id.as_str()
    }

    /// What is posted to send `text`: to the bot's chat, in the mode asked
    /// for or else as Markdown, and without a notification.
    pub fn message(&self, text: String, parse_mode: Option<ParseMode>) -> (post: SendMessage)
        ensures
            post.chat_id@ == self@.chat_id,
            post.text@ == text@,
            post.parse_mode == mode_or_default(parse_mode),
            post.disable_notification,
    {
        let parse_mode = match parse_mode {
            Some(mode) => mode,
            None => ParseMode::Markdown,
        };
        SendMessage {
            chat_id: self.chat_id.clone(),
            text,
            parse_mode,
            disable_notification: true,
        }
    }
}

/// Reads the channel's answer.
pub fn delivery_result(response: TelegramResponse) -> (outcome: Result<(), Error>)
    ensures
        outcome_view(outcome) == verdict(response),
{
    if response.ok {
        Ok(())
    } else {
        Err(Error::Rejected { description: response.description })
    }
}

} // verus!
