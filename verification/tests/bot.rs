use bot::bot::{delivery_result, Bot, ParseMode, TelegramResponse};
use bot::command::{parse_action, Command};
use bot::error::{Collaborator, Error};
use bot::plugin::{report, write_plugin_line, Plugin};

#[test]
fn bot_posts_to_the_address_of_its_token() {
    let bot = Bot::new("123:abc", "@blessing");
    assert_eq!(bot.url(), "https://api.telegram.org/bot123:abc/sendMessage");
    assert_eq!(bot.chat_id(), "@blessing");
}

#[test]
fn chat_name_gets_its_at_sign() {
    assert_eq!(Bot::new("t", "blessing").chat_id(), "@blessing");
    assert_eq!(Bot::new("t", "@blessing").chat_id(), "@blessing");
    assert_eq!(Bot::new("t", "").chat_id(), "@");
    assert_eq!(Bot::new("t", "bless@ing").chat_id(), "@bless@ing");
    assert_eq!(Bot::new("", "x").url(), "https://api.telegram.org/bot/sendMessage");
}

#[test]
fn message_goes_silently_to_the_chat() {
    let bot = Bot::new("t", "blessing");
    let post = bot.message(String::from("hello"), Some(ParseMode::Html));
    assert_eq!(post.chat_id, "@blessing");
    assert_eq!(post.text, "hello");
    assert_eq!(post.parse_mode, ParseMode::Html);
    assert!(post.disable_notification);
    let plain = bot.message(String::from("*hi*"), None);
    assert_eq!(plain.parse_mode, ParseMode::Markdown);
    assert_eq!(plain.text, "*hi*");
    assert!(plain.disable_notification);
}

#[test]
fn parse_modes_have_the_names_of_the_channel() {
    assert_eq!(ParseMode::Markdown.as_str(), "Markdown");
    assert_eq!(ParseMode::Html.as_str(), "HTML");
}

#[test]
fn answer_of_the_channel_is_read() {
    assert!(delivery_result(TelegramResponse { ok: true, description: None }).is_ok());
    assert!(delivery_result(TelegramResponse { ok: true, description: Some("odd".into()) }).is_ok());
    match delivery_result(TelegramResponse { ok: false, description: Some("chat not found".into()) }) {
        Err(Error::Rejected { description }) => {
            assert_eq!(description, Some("chat not found".to_string()))
        }
        other => panic!("{:?}", other),
    }
    match delivery_result(TelegramResponse { ok: false, description: None }) {
        Err(Error::Rejected { description }) => assert_eq!(description, None),
        other => panic!("{:?}", other),
    }
}

#[test]
fn errors_are_reported_in_words() {
    let refused = Error::Rejected { description: Some("chat not found".into()) };
    assert_eq!(refused.message(), "Telegram reported an error: chat not found");
    let unknown = Error::Rejected { description: None };
    assert_eq!(unknown.message(), "An unknown Telegram error occurred.");
    let network = Error::Transport {
        collaborator: Collaborator::Repository,
        detail: "connection reset".into(),
    };
    assert_eq!(network.message(), "connection reset");
    let channel = Error::Transport {
        collaborator: Collaborator::Notifier,
        detail: "timed out".into(),
    };
    assert_eq!(channel.message(), "timed out");
    assert_eq!(Error::OutOfTurn.message(), "An answer arrived that no request was waiting for.");
}

#[test]
fn actions_go_by_their_names() {
    assert_eq!(parse_action("plugin"), Ok(Command::Plugin));
    assert_eq!(parse_action("diff"), Ok(Command::Diff));
    assert_eq!(parse_action("core"), Ok(Command::Diff));
    assert_eq!(parse_action("deploy"), Err("Unknown action: deploy.".to_string()));
    assert_eq!(parse_action(""), Err("Unknown action: .".to_string()));
    assert_eq!(parse_action("Diff"), Err("Unknown action: Diff.".to_string()));
}

#[test]
fn plugin_report_lists_each_update() {
    let list = vec![
        Plugin { name: "kumiko".to_string(), version: "1.2.3".to_string() },
        Plugin { name: "reina".to_string(), version: "4.5.6".to_string() },
    ];
    assert_eq!(write_plugin_line(&list[0]), "• *kumiko* 已更新至 1.2.3");
    assert_eq!(
        report(&list),
        Some("插件更新：\n• *kumiko* 已更新至 1.2.3\n• *reina* 已更新至 4.5.6".to_string())
    );
    assert_eq!(report(&Vec::new()), None);
}
