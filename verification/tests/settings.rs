use rosu_tracker::cli::{cli_flag_handler, read_flags, FlagError, InitFlags};
use rosu_tracker::config::Config;
use rosu_tracker::gui::{window_title, AppMessage, AppModel, ContextPage, Drawer, MenuAction};
use rosu_tracker::gui::{Page, State};
use rosu_tracker::viewer::{Connection, Event, Message};
use rosu_tracker::structs::WsKind;
use rosu_tracker::types::{Api, Either};

fn flags(username: Option<&str>, id: Option<&str>, secret: Option<&str>) -> Option<InitFlags> {
    Some(InitFlags {
        username: username.map(str::to_string),
        client_id: id.map(str::to_string),
        client_secret: secret.map(str::to_string),
    })
}

#[test]
fn all_three_flags_give_credentials() {
    let api = read_flags(flags(Some("peppy"), Some("4711"), Some("s3"))).unwrap();
    assert_eq!(api.username, "peppy");
    assert_eq!(api.id, "4711");
    assert_eq!(api.secret, "s3");
    let api = cli_flag_handler(flags(Some("peppy"), Some("4711"), Some("s3"))).unwrap();
    assert_eq!(api.username, "peppy");
    assert_eq!(api.id, "4711");
    assert_eq!(api.secret, "s3");
}

#[test]
fn missing_identifier_is_named() {
    let error = read_flags(flags(Some("peppy"), None, Some("s3"))).unwrap_err();
    assert_eq!(error, FlagError::NoClientId);
    assert_eq!(error.message(), Some("ID not found, please provide --id <id>"));
    assert!(cli_flag_handler(flags(Some("peppy"), None, Some("s3"))).is_none());
}

#[test]
fn missing_secret_is_named() {
    let error = read_flags(flags(Some("peppy"), Some("4711"), None)).unwrap_err();
    assert_eq!(error, FlagError::NoClientSecret);
    assert_eq!(error.message(), Some("Secret not found, please provide --secret <secret>"));
    assert!(cli_flag_handler(flags(Some("peppy"), Some("4711"), None)).is_none());
}

#[test]
fn identifier_is_missed_before_the_secret() {
    let error = read_flags(flags(Some("peppy"), None, None)).unwrap_err();
    assert_eq!(error, FlagError::NoClientId);
}

#[test]
fn without_a_user_name_nothing_is_configured() {
    let error = read_flags(flags(None, Some("4711"), Some("s3"))).unwrap_err();
    assert_eq!(error, FlagError::NoUsername);
    assert_eq!(error.message(), None);
    assert!(cli_flag_handler(flags(None, None, None)).is_none());
}

#[test]
fn without_init_nothing_is_configured() {
    assert_eq!(read_flags(None).unwrap_err(), FlagError::NoInit);
    assert_eq!(FlagError::NoInit.message(), None);
    assert!(cli_flag_handler(None).is_none());
}

#[test]
fn default_credentials_are_empty() {
    let api = Api::default();
    assert_eq!(api.id, "");
    assert_eq!(api.secret, "");
    assert_eq!(api.username, "");
}

#[test]
fn default_config_is_empty() {
    let config = Config::default();
    assert_eq!(config.user_client(), "");
    assert_eq!(config.user_secret(), "");
    assert_eq!(config.tracked_user_name(), "");
}

#[test]
fn setters_touch_one_field() {
    let mut config = Config::default();
    config.set_user_client("4711".to_string());
    assert_eq!(config.user_client(), "4711");
    assert_eq!(config.user_secret(), "");
    assert_eq!(config.tracked_user_name(), "");
    config.set_tracked_user_name("peppy".to_string());
    config.set_user_secret("s3".to_string());
    assert_eq!(config.user_client(), "4711");
    assert_eq!(config.user_secret(), "s3");
    assert_eq!(config.tracked_user_name(), "peppy");
}

#[test]
fn stored_credentials_come_back() {
    let api = Api { id: "4711".to_string(), secret: "s3".to_string(), username: "peppy".to_string() };
    let config = Config::from_api(api.clone());
    assert_eq!(config.user_client(), "4711");
    assert_eq!(config.user_secret(), "s3");
    assert_eq!(config.tracked_user_name(), "peppy");
    let back = config.to_api();
    assert_eq!(back.id, api.id);
    assert_eq!(back.secret, api.secret);
    assert_eq!(back.username, api.username);
}

#[test]
fn either_is_one_of_two() {
    let left: Either<u8, &str> = Either::Left(3);
    let right: Either<u8, &str> = Either::Right("r");
    assert!(left.is_left());
    assert!(!right.is_left());
    assert_eq!(left.clone().left(), Some(3));
    assert_eq!(left.right(), None);
    assert_eq!(right.clone().left(), None);
    assert_eq!(right.right(), Some("r"));
}

#[test]
fn pages_are_filled_by_their_feeds() {
    assert_eq!(Page::UserPage.feed(), WsKind::User);
    assert_eq!(Page::TopsPage.feed(), WsKind::Tops);
    assert_eq!(Page::FirstsPage.feed(), WsKind::Firsts);
    assert_eq!(Page::RecentPage.feed(), WsKind::Recent);
}

#[test]
fn menu_opens_the_about_page() {
    assert!(matches!(
        MenuAction::About.message(),
        AppMessage::ToggleContextPage(ContextPage::About)
    ));
    assert_eq!(ContextPage::default(), ContextPage::About);
}

#[test]
fn window_title_names_the_open_page() {
    assert_eq!(window_title(None), "rosu-tracker");
    assert_eq!(window_title(Some(Page::UserPage)), "rosu-tracker \u{2014} User");
    assert_eq!(window_title(Some(Page::TopsPage)), "rosu-tracker \u{2014} Tops");
    assert_eq!(window_title(Some(Page::FirstsPage)), "rosu-tracker \u{2014} Firsts");
    assert_eq!(window_title(Some(Page::RecentPage)), "rosu-tracker \u{2014} Recent");
    assert_eq!(Page::RecentPage.title(), "Recent");
}

#[test]
fn model_starts_empty() {
    let model = AppModel::new(Config::default());
    assert_eq!(model.state, State::Disconnected);
    assert_eq!(State::default(), State::Disconnected);
    assert_eq!(model.drawer, Drawer { page: ContextPage::About, shown: false });
    assert!(model.user_extended.is_none());
    assert!(model.user_tops.is_none());
    assert!(model.user_firsts.is_none());
    assert!(model.user_recent.is_none());
    assert!(model.initial_user_extended.is_none());
    assert!(model.baseline().is_none());
}

#[test]
fn model_follows_the_connection() {
    let mut model = AppModel::new(Config::default());
    let none = model.update(AppMessage::ReceiveMessage(Event::Connected(Connection {})));
    assert!(none.is_none());
    assert_eq!(model.state, State::Connected);
    model.update(AppMessage::ReceiveMessage(Event::Disconnected));
    assert_eq!(model.state, State::Disconnected);
    model.update(AppMessage::ReceiveMessage(Event::MessageReceived(Message::Connected)));
    assert_eq!(model.state, State::Disconnected);
    model.update(AppMessage::StartServer);
    assert_eq!(model.state, State::Disconnected);
}

#[test]
fn model_opens_addresses() {
    let mut model = AppModel::new(Config::default());
    let address = model.update(AppMessage::LaunchUrl("https://osu.ppy.sh/scores/1".to_string()));
    assert_eq!(address.as_deref(), Some("https://osu.ppy.sh/scores/1"));
    assert_eq!(model.update(AppMessage::OpenRepositoryUrl).as_deref(), Some(""));
    assert!(model.update(AppMessage::ToggleContextPage(ContextPage::About)).is_none());
    assert!(model.drawer.shown);
    model.update(AppMessage::ToggleContextPage(ContextPage::About));
    assert!(!model.drawer.shown);
}

#[test]
fn model_takes_a_new_config() {
    let mut model = AppModel::new(Config::default());
    let api = Api { id: "1".to_string(), secret: "2".to_string(), username: "3".to_string() };
    model.update(AppMessage::UpdateConfig(Config::from_api(api)));
    assert_eq!(model.config.user_client(), "1");
    assert_eq!(model.config.user_secret(), "2");
    assert_eq!(model.config.tracked_user_name(), "3");
}

#[test]
fn drawer_flips_on_the_page_it_holds() {
    let mut drawer = Drawer { page: ContextPage::About, shown: false };
    drawer.toggle(ContextPage::About);
    assert_eq!(drawer, Drawer { page: ContextPage::About, shown: true });
    drawer.toggle(ContextPage::About);
    assert_eq!(drawer, Drawer { page: ContextPage::About, shown: false });
}
