use uni::config::{Page, UniConfig, CONFIG_VERSION};
use uni::paid_entries::{PaidEntriesCommand, PaidEntriesPageMessage};
use uni::pages::{
    AboutPcPage, AboutPcPageMessage, AppCommand, AppModel, ClockPage, ClockPageMessage, ContextPage,
    MenuAction, Message, PreferencesPage, PreferencesPageMessage, UniAppMessage, UtcTime,
};

#[test]
fn menu_actions_toggle_drawer_pages() {
    assert!(matches!(MenuAction::About.message(), UniAppMessage::ToggleContextPage(ContextPage::About)));
    assert!(matches!(MenuAction::Settings.message(), UniAppMessage::ToggleContextPage(ContextPage::Settings)));
}

#[test]
fn context_drawer_toggle() {
    let mut app = AppModel::new(UniConfig::default());
    assert!(!app.show_context);
    app.update(UniAppMessage::ToggleContextPage(ContextPage::About));
    assert!(app.show_context);
    app.update(UniAppMessage::ToggleContextPage(ContextPage::About));
    assert!(!app.show_context);
    app.update(UniAppMessage::ToggleContextPage(ContextPage::Settings));
    assert!(app.show_context);
    assert_eq!(app.context_page, ContextPage::Settings);
    app.update(UniAppMessage::ToggleContextPage(ContextPage::About));
    assert!(app.show_context);
    assert_eq!(app.context_page, ContextPage::About);
}

#[test]
fn config_defaults_and_reads() {
    assert_eq!(CONFIG_VERSION, 1);
    let c = UniConfig::config(None);
    assert_eq!(c.username, "");
    assert_eq!(c.last_active_page, Page::AboutPc);
    assert!(c.paid_entries_json_path.is_none());
    assert!(c.coin_market_cap_api_key.is_none());
    let mut stored = UniConfig::default();
    stored.username = "ann".to_string();
    assert_eq!(UniConfig::config(Some(stored.clone())).username, "ann");
    assert_eq!(UniConfig::map_config_result(Ok(stored.clone())).username, "ann");
    let fallback = UniConfig::map_config_result(Err((vec!["bad field".to_string()], UniConfig::default())));
    assert_eq!(fallback.username, "");
}

#[test]
fn update_config_reaches_pages() {
    let mut app = AppModel::new(UniConfig::default());
    let mut c = UniConfig::default();
    c.username = "bo".to_string();
    c.coin_market_cap_api_key = Some("k".to_string());
    let cmds = app.update(UniAppMessage::UpdateConfig(c));
    assert!(cmds.is_empty());
    assert_eq!(app.config.username, "bo");
    assert_eq!(app.preferences_page.config.username, "bo");
    assert_eq!(app.paid_entries_page.config().coin_market_cap_api_key.as_deref(), Some("k"));
}

#[test]
fn username_is_stored_through_host() {
    let mut app = AppModel::new(UniConfig::default());
    let cmds = app.update(UniAppMessage::Page(Message::Preferences(PreferencesPageMessage::Username("cy".to_string()))));
    assert_eq!(cmds.len(), 1);
    assert!(matches!(&cmds[0], AppCommand::StoreUsername(u) if u == "cy"));
    assert_eq!(app.preferences_page.config.username, "");
}

#[test]
fn nav_to_paid_entries_starts_its_work() {
    let mut c = UniConfig::default();
    c.paid_entries_json_path = Some("/tmp/x.json".to_string());
    let mut app = AppModel::new(c);
    let cmds = app.on_nav_select(Page::PaidEntries);
    assert_eq!(app.active_page, Page::PaidEntries);
    assert_eq!(cmds.len(), 2);
    assert!(matches!(&cmds[0], AppCommand::StoreLastActivePage(Page::PaidEntries)));
    assert!(matches!(&cmds[1], AppCommand::PaidEntries(PaidEntriesCommand::LoadJson { user_initiated: false, .. })));
    let cmds = app.on_nav_select(Page::Clock);
    assert_eq!(cmds.len(), 1);
    assert!(app.on_page_init().is_empty());
}

#[test]
fn paid_entries_messages_are_routed() {
    let mut app = AppModel::new(UniConfig::default());
    let cmds = app.update(UniAppMessage::Page(Message::PaidEntries(PaidEntriesPageMessage::JsonFilePicked(Some("/p.json".to_string())))));
    assert_eq!(cmds.len(), 2);
    assert!(matches!(&cmds[1], AppCommand::PaidEntries(PaidEntriesCommand::LoadJson { user_initiated: true, .. })));
}

#[test]
fn urls_are_opened_by_host() {
    let mut app = AppModel::new(UniConfig::default());
    assert!(matches!(app.update(UniAppMessage::OpenRepositoryUrl).as_slice(), [AppCommand::OpenRepository]));
    let cmds = app.update(UniAppMessage::LaunchUrl("https://example.org".to_string()));
    assert!(matches!(cmds.as_slice(), [AppCommand::OpenUrl(u)] if u == "https://example.org"));
}

#[test]
fn about_and_clock_pages_keep_fetched_values() {
    let mut about = AboutPcPage::new();
    about.update(AboutPcPageMessage::FetchedRealname("Dee".to_string()));
    about.update(AboutPcPageMessage::FetchedDistro("Pop!_OS".to_string()));
    assert_eq!(about.realname.as_deref(), Some("Dee"));
    assert_eq!(about.distro.as_deref(), Some("Pop!_OS"));
    let mut clock = ClockPage::new();
    let t = UtcTime { seconds: 1_700_000_000, nanos: 5 };
    clock.update(ClockPageMessage::SystemTimeTick(t));
    assert_eq!(clock.system_time, Some(t));
    let mut prefs = PreferencesPage::new(UniConfig::default());
    assert!(prefs.update(PreferencesPageMessage::ConfigUpdated(UniConfig::default())).is_none());
}
