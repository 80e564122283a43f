use vstd::prelude::*;
use crate::config::{Page, UniConfig};
use crate::paid_entries::{
    PaidEntriesCommand, PaidEntriesPage, PaidEntriesPageMessage, admits, commands_view, init_commands, next,
};

verus! {

/// A point in time in UTC: whole seconds since the Unix epoch, and the
/// nanoseconds past that second.
#[derive(Clone, Copy, Debug, PartialEq, Eq, Structural)]
pub struct UtcTime {
    pub seconds: i64,
    pub nanos: u32,
}

/// The page that greets the user and names the system.
pub struct AboutPcPage {
    pub realname: Option<String>,
    pub distro: Option<String>,
}

#[derive(Debug)]
pub enum AboutPcPageMessage {
    FetchedRealname(String),
    FetchedDistro(String),
}

impl AboutPcPage {
    pub fn new() -> (r: AboutPcPage)
        ensures
            r.realname is None,
            r.distro is None,
    {
        AboutPcPage { realname: None, distro: None }
    }

    /// Keeps the fetched name or distribution.
    pub fn update(&mut self, message: AboutPcPageMessage)
        ensures
            message matches AboutPcPageMessage::FetchedRealname(n) ==> final(self).realname == Some(n)
                && final(self).distro == old(self).distro,
            message matches AboutPcPageMessage::FetchedDistro(d) ==> final(self).distro == Some(d)
                && final(self).realname == old(self).realname,
    {
        match message {
            AboutPcPageMessage::FetchedRealname(realname) => {
                self.realname = Some(realname);
            },
            AboutPcPageMessage::FetchedDistro(distro) => {
                self.distro = Some(distro);
            },
        }
    }
}

/// The page that shows the system time.
pub struct ClockPage {
    pub system_time: Option<UtcTime>,
}

#[derive(Debug)]
pub enum ClockPageMessage {
    SystemTimeTick(UtcTime),
}

impl ClockPage {
    pub fn new() -> (r: ClockPage)
        ensures
            r.system_time is None,
    {
        ClockPage { system_time: None }
    }

    /// Keeps the time of the last tick.
    pub fn update(&mut self, message: ClockPageMessage)
        ensures
            message matches ClockPageMessage::SystemTimeTick(t) ==> final(self).system_time == Some(t),
    {
        match message {
            ClockPageMessage::SystemTimeTick(date_time) => {
                self.system_time = Some(date_time);
            },
        }
    }
}

/// The page where the user sets their display name.
pub struct PreferencesPage {
    pub config: UniConfig,
}

#[derive(Debug)]
pub enum PreferencesPageMessage {
    ConfigUpdated(UniConfig),
    Username(String),
}

impl PreferencesPage {
    pub fn new(config: UniConfig) -> (r: PreferencesPage)
        ensures
            r.config == config,
    {
        PreferencesPage { config }
    }

    /// A typed name is handed back, to be written into the store; the page's
    /// copy of the record changes only when the store reports a change.
    pub fn update(&mut self, message: PreferencesPageMessage) -> (r: Option<String>)
        ensures
            message matches PreferencesPageMessage::Username(u) ==> r == Some(u) && final(self).config
                == old(self).config,
            message matches PreferencesPageMessage::ConfigUpdated(c) ==> r is None && final(self).config == c,
    {
        match message {
            PreferencesPageMessage::Username(username) => Some(username),
            PreferencesPageMessage::ConfigUpdated(config) => {
                self.config = config;
                None
            },
        }
    }
}

/// A page that is still to be written.
pub struct ConfigPage {}

#[derive(Debug)]
pub struct ConfigPageMessage {}

/// A message for one of the pages.
#[derive(Debug)]
pub enum Message {
    AboutPc(AboutPcPageMessage),
    Clock(ClockPageMessage),
    Preferences(PreferencesPageMessage),
    PaidEntries(PaidEntriesPageMessage),
}

/// The context page to display in the context drawer.
#[derive(Clone, Copy, Debug, PartialEq, Eq, Structural)]
pub enum ContextPage {
    About,
    Settings,
}

/// The entries of the menu bar.
#[derive(Clone, Copy, Debug, PartialEq, Eq, Structural)]
pub enum MenuAction {
    About,
    Settings,
}

impl MenuAction {
    /// The message that choosing this entry sends.
    pub fn message(&self) -> (r: UniAppMessage)
        ensures
            *self == MenuAction::About ==> r == UniAppMessage::ToggleContextPage(ContextPage::About),
            *self == MenuAction::Settings ==> r == UniAppMessage::ToggleContextPage(ContextPage::Settings),
    {
        match self {
            MenuAction::About => UniAppMessage::ToggleContextPage(ContextPage::About),
            MenuAction::Settings => UniAppMessage::ToggleContextPage(ContextPage::Settings),
        }
    }
}

/// Messages of the application and its pages.
#[derive(Debug)]
pub enum UniAppMessage {
    OpenRepositoryUrl,
    ToggleContextPage(ContextPage),
    UpdateConfig(UniConfig),
    LaunchUrl(String),
    Page(Message),
}

/// What the application asks its host to do.
#[derive(Debug)]
pub enum AppCommand {
    /// Open the project's repository in a browser.
    OpenRepository,
    /// Open this address in a browser.
    OpenUrl(String),
    /// Write the display name into the configuration store.
    StoreUsername(String),
    /// Write the page shown last into the configuration store.
    StoreLastActivePage(Page),
    /// Work asked for by the paid-entries page.
    PaidEntries(PaidEntriesCommand),
}

/// The state of the application: the pages, the page shown, and the
/// context drawer.
pub struct AppModel {
    pub context_page: ContextPage,
    pub show_context: bool,
    pub active_page: Page,
    pub config: UniConfig,
    pub about_pc_page: AboutPcPage,
    pub clock_page: ClockPage,
    pub preferences_page: PreferencesPage,
    pub paid_entries_page: PaidEntriesPage,
}

/// The commands of the paid-entries page, each wrapped for the application.
pub open spec fn wraps(r: Seq<AppCommand>, cmds: Seq<PaidEntriesCommand>) -> bool {
    &&& r.len() == cmds.len()
    &&& forall|i: int| 0 <= i < r.len() ==> #[trigger] r[i] == AppCommand::PaidEntries(cmds[i])
}

fn wrap_all(cmds: Vec<PaidEntriesCommand>) -> (r: Vec<AppCommand>)
    ensures
        wraps(r@, cmds@),
{
    let mut r: Vec<AppCommand> = Vec::new();
    let mut rest = cmds;
    let ghost all = rest@;
    let total: usize = rest.len();
    while rest.len() > 0
        invariant
            total == all.len(),
            r@.len() + rest@.len() == all.len(),
            rest@ == all.skip(r@.len() as int),
            forall|i: int| 0 <= i < r@.len() ==> #[trigger] r@[i] == AppCommand::PaidEntries(all[i]),
        decreases rest@.len(),
    {
        let c = rest.remove(0);
        assert(c == all[r@.len() as int]);
        r.push(AppCommand::PaidEntries(c));
        assert(rest@ =~= all.skip(r@.len() as int));
    }
    r
}

/// Whether `message` may be applied to the application in `app`: a routed
/// message must be one that its page admits.
pub open spec fn app_admits(app: AppModel, message: UniAppMessage) -> bool {
    message matches UniAppMessage::Page(Message::PaidEntries(m)) ==> admits(app.paid_entries_page@, m)
}

/// Everything of `b` but the paid-entries page is as in `a`.
pub open spec fn same_but_paid_entries(a: AppModel, b: AppModel) -> bool {
    &&& b.context_page == a.context_page
    &&& b.show_context == a.show_context
    &&& b.active_page == a.active_page
    &&& b.config == a.config
    &&& b.about_pc_page == a.about_pc_page
    &&& b.clock_page == a.clock_page
    &&& b.preferences_page == a.preferences_page
}

impl AppModel {
    /// The application as it starts, on the page that `config` names.
    pub fn new(config: UniConfig) -> (r: AppModel)
        ensures
            r.active_page == config.last_active_page,
            r.config == config,
            r.paid_entries_page@ == crate::paid_entries::initial(config),
            r.preferences_page.config == config,
            r.about_pc_page.realname is None,
            r.about_pc_page.distro is None,
            r.clock_page.system_time is None,
            r.context_page == ContextPage::About,
            !r.show_context,
    {
        AppModel {
            context_page: ContextPage::About,
            show_context: false,
            active_page: config.last_active_page,
            about_pc_page: AboutPcPage::new(),
            clock_page: ClockPage::new(),
            preferences_page: PreferencesPage::new(config.clone()),
            paid_entries_page: PaidEntriesPage::new(config.clone()),
            config,
        }
    }

    /// The work to start when the active page is shown: that of the
    /// paid-entries page when it is the one.
    pub fn on_page_init(&self) -> (r: Vec<AppCommand>)
        ensures
            self.active_page == Page::PaidEntries ==> exists|c: Seq<PaidEntriesCommand>|
                #[trigger] wraps(r@, c) && commands_view(c) == init_commands(self.paid_entries_page@),
            self.active_page != Page::PaidEntries ==> r@.len() == 0,
    {
        if self.active_page == Page::PaidEntries {
            let cmds = self.paid_entries_page.on_init();
            let ghost c = cmds@;
            let r = wrap_all(cmds);
            assert(wraps(r@, c));
            r
        } else {
            Vec::new()
        }
    }

    /// Shows `page`, asks for it to be remembered, and starts its work.
    pub fn on_nav_select(&mut self, page: Page) -> (r: Vec<AppCommand>)
        ensures
            *final(self) == (AppModel { active_page: page, ..*old(self) }),
            r@.len() >= 1,
            r@[0] == AppCommand::StoreLastActivePage(page),
            page != Page::PaidEntries ==> r@.len() == 1,
            page == Page::PaidEntries ==> exists|c: Seq<PaidEntriesCommand>|
                #[trigger] wraps(r@.skip(1), c) && commands_view(c) == init_commands(
                    old(self).paid_entries_page@,
                ),
    {
        self.active_page = page;
        let mut r = vec![AppCommand::StoreLastActivePage(page)];
        let mut init = self.on_page_init();
        let ghost init_view = init@;
        r.append(&mut init);
        assert(r@.skip(1) =~= init_view);
        r
    }

    /// Applies `message` to the application and routes a page's message to
    /// its page; each part that the message is not about stays as it was.
    pub fn update(&mut self, message: UniAppMessage) -> (r: Vec<AppCommand>)
        requires
            app_admits(*old(self), message),
        ensures
            message matches UniAppMessage::OpenRepositoryUrl ==> *final(self) == *old(self)
                && r@ == seq![AppCommand::OpenRepository],
            message matches UniAppMessage::LaunchUrl(u) ==> *final(self) == *old(self)
                && r@ == seq![AppCommand::OpenUrl(u)],
            message matches UniAppMessage::ToggleContextPage(p) ==> r@.len() == 0 && *final(self) == (
            AppModel {
                context_page: p,
                show_context: if p == old(self).context_page {
                    !old(self).show_context
                } else {
                    true
                },
                ..*old(self)
            }),
            message matches UniAppMessage::UpdateConfig(c) ==> r@.len() == 0
                && final(self).config == c
                && final(self).preferences_page == (PreferencesPage { config: c })
                && final(self).paid_entries_page@ == next(
                    old(self).paid_entries_page@,
                    PaidEntriesPageMessage::ConfigUpdated(c),
                ).0
                && final(self).context_page == old(self).context_page
                && final(self).show_context == old(self).show_context
                && final(self).active_page == old(self).active_page
                && final(self).about_pc_page == old(self).about_pc_page
                && final(self).clock_page == old(self).clock_page,
            message matches UniAppMessage::Page(Message::AboutPc(AboutPcPageMessage::FetchedRealname(n)))
                ==> r@.len() == 0 && *final(self) == (AppModel {
                about_pc_page: AboutPcPage { realname: Some(n), ..old(self).about_pc_page },
                ..*old(self)
            }),
            message matches UniAppMessage::Page(Message::AboutPc(AboutPcPageMessage::FetchedDistro(d)))
                ==> r@.len() == 0 && *final(self) == (AppModel {
                about_pc_page: AboutPcPage { distro: Some(d), ..old(self).about_pc_page },
                ..*old(self)
            }),
            message matches UniAppMessage::Page(Message::Clock(ClockPageMessage::SystemTimeTick(t)))
                ==> r@.len() == 0 && *final(self) == (AppModel {
                clock_page: ClockPage { system_time: Some(t) },
                ..*old(self)
            }),
            message matches UniAppMessage::Page(Message::Preferences(PreferencesPageMessage::ConfigUpdated(c)))
                ==> r@.len() == 0 && *final(self) == (AppModel {
                preferences_page: PreferencesPage { config: c },
                ..*old(self)
            }),
            message matches UniAppMessage::Page(Message::Preferences(PreferencesPageMessage::Username(u)))
                ==> *final(self) == *old(self) && r@ == seq![AppCommand::StoreUsername(u)],
            message matches UniAppMessage::Page(Message::PaidEntries(m)) ==> same_but_paid_entries(
                *old(self),
                *final(self),
            ) && final(self).paid_entries_page@ == next(old(self).paid_entries_page@, m).0
                && exists|c: Seq<PaidEntriesCommand>|
                #[trigger] wraps(r@, c) && commands_view(c) == next(old(self).paid_entries_page@, m).1,
    {
        match message {
            UniAppMessage::OpenRepositoryUrl => vec![AppCommand::OpenRepository],
            UniAppMessage::ToggleContextPage(context_page) => {
                if self.context_page == context_page {
                    self.show_context = !self.show_context;
                } else {
                    self.context_page = context_page;
                    self.show_context = true;
                }
                Vec::new()
            },
            UniAppMessage::UpdateConfig(config) => {
                self.config = config.clone();
                let _ = self.preferences_page.update(PreferencesPageMessage::ConfigUpdated(config.clone()));
                let _ = self.paid_entries_page.update(PaidEntriesPageMessage::ConfigUpdated(config));
                Vec::new()
            },
            UniAppMessage::LaunchUrl(url) => vec![AppCommand::OpenUrl(url)],
            UniAppMessage::Page(page_message) => match page_message {
                Message::AboutPc(m) => {
                    self.about_pc_page.update(m);
                    Vec::new()
                },
                Message::Clock(m) => {
                    self.clock_page.update(m);
                    Vec::new()
                },
                Message::Preferences(m) => match self.preferences_page.update(m) {
                    Some(username) => vec![AppCommand::StoreUsername(username)],
                    None => Vec::new(),
                },
                Message::PaidEntries(m) => {
                    let cmds = self.paid_entries_page.update(m);
                    let ghost c = cmds@;
                    let r = wrap_all(cmds);
                    assert(wraps(r@, c));
                    r
                },
            },
        }
    }
}

} // verus!
