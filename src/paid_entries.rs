use vstd::prelude::*;
use crate::config::UniConfig;
use crate::keyed::pairs_to_map;
use crate::ledger::{Ledger, ledger_json, parse_paid_entries};
use crate::quotes::{PriceRequest, PriceRequestView, QuoteTable, load_crypto_prices, price_request_spec};
use crate::text::{decimal, join, joined, push_decimal};

verus! {

/// How far the ledger file has been read.
#[derive(Clone, Copy, Debug, PartialEq, Eq, Structural)]
pub enum PaidEntriesJsonLoadState {
    NotLoaded,
    Loaded,
    Errored,
}

/// The tabs of the page.
#[derive(Clone, Copy, Debug, PartialEq, Eq, Structural)]
pub enum PaidEntriesPageTabs {
    CoinBalance,
    CoinPrices,
}

#[derive(Debug)]
pub struct DialogContent {
    pub title: String,
    pub body: String,
}

/// The dialog waiting for the user to dismiss it.
#[derive(Debug)]
pub enum PaidEntriesDialogContent {
    Error(DialogContent),
    Success(DialogContent),
}

pub struct DialogView {
    pub is_error: bool,
    pub title: Seq<char>,
    pub body: Seq<char>,
}

impl View for PaidEntriesDialogContent {
    type V = DialogView;

    open spec fn view(&self) -> DialogView {
        match self {
            PaidEntriesDialogContent::Error(c) => DialogView { is_error: true, title: c.title@, body: c.body@ },
            PaidEntriesDialogContent::Success(c) => DialogView { is_error: false, title: c.title@, body: c.body@ },
        }
    }
}

/// What the page asks its host to do.
#[derive(Debug)]
pub enum PaidEntriesCommand {
    /// Show a file picker for files with this extension, opened at this directory.
    PickJsonFile { extension: String, start_directory: String },
    /// Write the ledger path into the configuration store.
    StoreJsonPath(String),
    /// Read the ledger file; `user_initiated` tells a fresh pick from a start-up read.
    LoadJson { path: String, user_initiated: bool },
    /// Send this request to the price service.
    FetchPrices(PriceRequest),
    /// Write the credential into the configuration store.
    StoreApiKey(String),
}

pub enum CommandView {
    PickJsonFile { extension: Seq<char>, start_directory: Seq<char> },
    StoreJsonPath(Seq<char>),
    LoadJson { path: Seq<char>, user_initiated: bool },
    FetchPrices(PriceRequestView),
    StoreApiKey(Seq<char>),
}

impl View for PaidEntriesCommand {
    type V = CommandView;

    open spec fn view(&self) -> CommandView {
        match self {
            PaidEntriesCommand::PickJsonFile { extension, start_directory } => CommandView::PickJsonFile {
                extension: extension@,
                start_directory: start_directory@,
            },
            PaidEntriesCommand::StoreJsonPath(p) => CommandView::StoreJsonPath(p@),
            PaidEntriesCommand::LoadJson { path, user_initiated } => CommandView::LoadJson {
                path: path@,
                user_initiated: *user_initiated,
            },
            PaidEntriesCommand::FetchPrices(r) => CommandView::FetchPrices(r@),
            PaidEntriesCommand::StoreApiKey(k) => CommandView::StoreApiKey(k@),
        }
    }
}

pub open spec fn commands_view(v: Seq<PaidEntriesCommand>) -> Seq<CommandView> {
    v.map_values(|c: PaidEntriesCommand| c@)
}

/// What happens to the page: a user action or a finished unit of work.
#[derive(Debug)]
pub enum PaidEntriesPageMessage {
    /// The user asks to choose a ledger file.
    ShowJsonPicker,
    /// The file picker closed, with the chosen path or none.
    JsonFilePicked(Option<String>),
    /// A ledger read at start-up.
    RawJsonLoaded(Ledger),
    /// A ledger read right after the user picked its file.
    RawJsonUpdated(Ledger),
    /// Reading or decoding the ledger failed, for this reason.
    RawJsonLoadingFailed(String),
    CryptoPricesFetched(QuoteTable),
    CryptoPricesFetchingFailed(String),
    /// The user dismisses the dialog.
    ClearDialog,
    /// The user submits the credential draft.
    CmcApiKeySubmit,
    /// The user typed: the new draft.
    CmcApiKeyInput(String),
    /// The user leaves the credential edit without saving.
    CmcApiKeyClearInput,
    /// The user starts editing the credential.
    ToggleOnEditApiKey,
    /// The configuration store answered a credential write: `true` on success.
    CmcApiKeyStored(bool),
    /// The configuration store reports a changed record.
    ConfigUpdated(UniConfig),
    SwitchTab(PaidEntriesPageTabs),
}

/// The state of the page as the contracts speak of it.
pub struct PaidEntriesView {
    pub config: UniConfig,
    pub dialog: Option<DialogView>,
    pub load_state: PaidEntriesJsonLoadState,
    pub prices: Option<QuoteTable>,
    pub ledger: Option<Ledger>,
    /// The credential draft; present while the credential is edited.
    pub api_key_draft: Option<Seq<char>>,
    pub tab: PaidEntriesPageTabs,
}

/// The page that tracks paid entries: it reads the ledger file, asks for the
/// prices of its assets and decides which dialog is shown.
pub struct PaidEntriesPage {
    config: UniConfig,
    dialog: Option<PaidEntriesDialogContent>,
    paid_entries_json_load_state: PaidEntriesJsonLoadState,
    crypto_names_to_prices: Option<QuoteTable>,
    raw_json_data: Option<Ledger>,
    editing_cmc_api_key: Option<String>,
    active_tab: PaidEntriesPageTabs,
}

impl View for PaidEntriesPage {
    type V = PaidEntriesView;

    closed spec fn view(&self) -> PaidEntriesView {
        PaidEntriesView {
            config: self.config,
            dialog: match self.dialog {
                Some(d) => Some(d@),
                None => None,
            },
            load_state: self.paid_entries_json_load_state,
            prices: self.crypto_names_to_prices,
            ledger: self.raw_json_data,
            api_key_draft: match self.editing_cmc_api_key {
                Some(k) => Some(k@),
                None => None,
            },
            tab: self.active_tab,
        }
    }
}

/// Names the parent directory of a path; absent for a root or an empty path.
pub uninterp spec fn path_parent(path: Seq<char>) -> Option<Seq<char>>;

/// Relies on std::path::Path::parent: the path without its last component.
#[verifier::external_body]
fn parent_directory(path: &str) -> (r: Option<String>)
    ensures
        r is Some ==> path_parent(path@) == Some(r->Some_0@),
        r is None ==> path_parent(path@) is None,
{
    std::path::Path::new(path).parent().map(|p| p.to_string_lossy().into_owned())
}

/// Where the file picker opens: the directory of the configured ledger
/// path, the path itself where it has none, else nowhere in particular.
pub open spec fn picker_start(config: UniConfig) -> Seq<char> {
    match config.paid_entries_json_path {
        Some(p) => match path_parent(p@) {
            Some(d) => d,
            None => p@,
        },
        None => Seq::empty(),
    }
}

pub open spec fn dialog_spec(is_error: bool, title: Seq<char>, body: Seq<char>) -> DialogView {
    DialogView { is_error, title, body }
}

/// The body of the dialog that confirms a picked ledger of `n` assets.
pub open spec fn loaded_body(n: nat) -> Seq<char> {
    "Loaded: "@ + decimal(n) + " assets"@
}

/// The request for the prices of all assets of `ledger`, where a credential is set.
pub open spec fn fetch_for(config: UniConfig, ledger: Ledger) -> Seq<CommandView> {
    match config.coin_market_cap_api_key {
        Some(k) => seq![CommandView::FetchPrices(price_request_spec(k@, ledger.symbol_seq()))],
        None => Seq::empty(),
    }
}

/// A ledger took the place of the previous one.
pub open spec fn apply_ledger(s: PaidEntriesView, ledger: Ledger) -> (PaidEntriesView, Seq<CommandView>) {
    (
        PaidEntriesView { load_state: PaidEntriesJsonLoadState::Loaded, ledger: Some(ledger), ..s },
        fetch_for(s.config, ledger),
    )
}

/// Whether `m` may be applied in state `s`: submitting the credential asks
/// for a draft that is not empty; doing so otherwise is a programming error.
pub open spec fn admits(s: PaidEntriesView, m: PaidEntriesPageMessage) -> bool {
    m is CmcApiKeySubmit ==> s.api_key_draft is Some && s.api_key_draft->Some_0.len() > 0
}

/// The next state of the page, and what it asks its host to do, when `m` happens in state `s`.
pub open spec fn next(s: PaidEntriesView, m: PaidEntriesPageMessage) -> (PaidEntriesView, Seq<CommandView>) {
    match m {
        PaidEntriesPageMessage::ShowJsonPicker => (
            s,
            seq![CommandView::PickJsonFile { extension: "json"@, start_directory: picker_start(s.config) }],
        ),
        PaidEntriesPageMessage::JsonFilePicked(picked) => match picked {
            Some(p) => (
                s,
                seq![CommandView::StoreJsonPath(p@), CommandView::LoadJson { path: p@, user_initiated: true }],
            ),
            None => (s, Seq::empty()),
        },
        PaidEntriesPageMessage::RawJsonLoaded(l) => apply_ledger(s, l),
        PaidEntriesPageMessage::RawJsonUpdated(l) => apply_ledger(
            PaidEntriesView {
                dialog: Some(dialog_spec(false, "JSON loaded"@, loaded_body(l.view().dom().len()))),
                ..s
            },
            l,
        ),
        PaidEntriesPageMessage::RawJsonLoadingFailed(reason) => (
            PaidEntriesView {
                dialog: Some(dialog_spec(true, "Error loading JSON file"@, reason@)),
                load_state: PaidEntriesJsonLoadState::Errored,
                ..s
            },
            Seq::empty(),
        ),
        PaidEntriesPageMessage::CryptoPricesFetched(q) => (PaidEntriesView { prices: Some(q), ..s }, Seq::empty()),
        PaidEntriesPageMessage::CryptoPricesFetchingFailed(e) => (
            PaidEntriesView { dialog: Some(dialog_spec(true, "Error fetching crypto prices"@, e@)), ..s },
            Seq::empty(),
        ),
        PaidEntriesPageMessage::ClearDialog => (PaidEntriesView { dialog: None, ..s }, Seq::empty()),
        PaidEntriesPageMessage::CmcApiKeySubmit => (s, seq![CommandView::StoreApiKey(s.api_key_draft->Some_0)]),
        PaidEntriesPageMessage::CmcApiKeyInput(t) => match s.api_key_draft {
            Some(_) => (PaidEntriesView { api_key_draft: Some(t@), ..s }, Seq::empty()),
            None => (s, Seq::empty()),
        },
        PaidEntriesPageMessage::CmcApiKeyClearInput => (
            PaidEntriesView { api_key_draft: None, ..s },
            Seq::empty(),
        ),
        PaidEntriesPageMessage::ToggleOnEditApiKey => (
            PaidEntriesView {
                api_key_draft: Some(
                    match s.config.coin_market_cap_api_key {
                        Some(k) => k@,
                        None => Seq::empty(),
                    },
                ),
                ..s
            },
            Seq::empty(),
        ),
        PaidEntriesPageMessage::CmcApiKeyStored(ok) => if ok {
            (PaidEntriesView { api_key_draft: None, ..s }, Seq::empty())
        } else {
            (s, Seq::empty())
        },
        PaidEntriesPageMessage::ConfigUpdated(c) => (PaidEntriesView { config: c, ..s }, Seq::empty()),
        PaidEntriesPageMessage::SwitchTab(t) => (PaidEntriesView { tab: t, ..s }, Seq::empty()),
    }
}

/// The work that the page starts when it becomes active: a start-up read of
/// the configured ledger file, where none has finished yet, and a price
/// request, where a credential is set and a ledger is already there.
pub open spec fn init_commands(s: PaidEntriesView) -> Seq<CommandView> {
    let load = match s.config.paid_entries_json_path {
        Some(p) => if s.load_state == PaidEntriesJsonLoadState::NotLoaded {
            seq![CommandView::LoadJson { path: p@, user_initiated: false }]
        } else {
            Seq::empty()
        },
        None => Seq::empty(),
    };
    let fetch = match s.ledger {
        Some(l) => fetch_for(s.config, l),
        None => Seq::empty(),
    };
    load + fetch
}

/// A failed read of the ledger file marks the ledger as errored and shows the
/// failure's description in an error dialog; the ledger and the quotes held
/// before stay as they were, and no work is started.
pub proof fn lemma_failed_load_keeps_ledger(s: PaidEntriesView, reason: String)
    ensures
        ({
            let (t, cmds) = next(s, PaidEntriesPageMessage::RawJsonLoadingFailed(reason));
            &&& t.load_state == PaidEntriesJsonLoadState::Errored
            &&& t.dialog == Some(dialog_spec(true, "Error loading JSON file"@, reason@))
            &&& t.ledger == s.ledger
            &&& t.prices == s.prices
            &&& cmds.len() == 0
        }),
{
}

/// Two ledgers read one after the other leave exactly the second: nothing of
/// the first is merged into it, whether each came from start-up or from a pick.
pub proof fn lemma_new_ledger_replaces(s: PaidEntriesView, a: Ledger, b: Ledger, a_picked: bool, b_picked: bool)
    ensures
        ({
            let ma = if a_picked {
                PaidEntriesPageMessage::RawJsonUpdated(a)
            } else {
                PaidEntriesPageMessage::RawJsonLoaded(a)
            };
            let mb = if b_picked {
                PaidEntriesPageMessage::RawJsonUpdated(b)
            } else {
                PaidEntriesPageMessage::RawJsonLoaded(b)
            };
            let t = next(next(s, ma).0, mb).0;
            &&& t.ledger == Some(b)
            &&& t.ledger->Some_0.view() == b.view()
            &&& t.load_state == PaidEntriesJsonLoadState::Loaded
        }),
{
}

/// A submit is only admitted with a credential draft that is not empty, so
/// what reaches the store is never an empty credential: the one write that
/// a submit asks for carries the draft, and nothing else changes.
pub proof fn lemma_submit_stores_nonempty_draft(s: PaidEntriesView)
    requires
        admits(s, PaidEntriesPageMessage::CmcApiKeySubmit),
    ensures
        next(s, PaidEntriesPageMessage::CmcApiKeySubmit).0 == s,
        next(s, PaidEntriesPageMessage::CmcApiKeySubmit).1 == seq![CommandView::StoreApiKey(s.api_key_draft->Some_0)],
        s.api_key_draft->Some_0.len() > 0,
{
}

/// Cancelling a credential edit leaves the configuration as it was, asks
/// the store for nothing, and ends the edit.
pub proof fn lemma_cancel_edit(s: PaidEntriesView)
    ensures
        next(s, PaidEntriesPageMessage::CmcApiKeyClearInput).0.config == s.config,
        next(s, PaidEntriesPageMessage::CmcApiKeyClearInput).0.api_key_draft is None,
        next(s, PaidEntriesPageMessage::CmcApiKeyClearInput).1.len() == 0,
{
}

/// Dismissing with no dialog shown changes nothing, and dismissing twice is
/// dismissing once.
pub proof fn lemma_dismiss_idempotent(s: PaidEntriesView)
    ensures
        s.dialog is None ==> next(s, PaidEntriesPageMessage::ClearDialog).0 == s,
        next(next(s, PaidEntriesPageMessage::ClearDialog).0, PaidEntriesPageMessage::ClearDialog).0
            == next(s, PaidEntriesPageMessage::ClearDialog).0,
        next(s, PaidEntriesPageMessage::ClearDialog).1.len() == 0,
{
}

/// The state of a page that has just been set up with `config`.
pub open spec fn initial(config: UniConfig) -> PaidEntriesView {
    PaidEntriesView {
        config,
        dialog: None,
        load_state: PaidEntriesJsonLoadState::NotLoaded,
        prices: None,
        ledger: None,
        api_key_draft: None,
        tab: PaidEntriesPageTabs::CoinBalance,
    }
}

impl PaidEntriesPage {
    pub fn new(config: UniConfig) -> (r: PaidEntriesPage)
        ensures
            r@ == initial(config),
    {
        PaidEntriesPage {
            config,
            dialog: None,
            paid_entries_json_load_state: PaidEntriesJsonLoadState::NotLoaded,
            crypto_names_to_prices: None,
            raw_json_data: None,
            editing_cmc_api_key: None,
            active_tab: PaidEntriesPageTabs::CoinBalance,
        }
    }

    /// The message that a finished read of the ledger file becomes: the
    /// decoded ledger, tagged by whether the user had just picked the file,
    /// or the reason of the failure, from the read or from the decoder.
    pub fn load_paid_entries_json(read: Result<String, String>, user_initiated: bool) -> (m: PaidEntriesPageMessage)
        ensures
            read is Err ==> m == PaidEntriesPageMessage::RawJsonLoadingFailed(read->Err_0),
            read is Ok && ledger_json(read->Ok_0@) is Err ==> (m matches PaidEntriesPageMessage::RawJsonLoadingFailed(e)
                && e@ == ledger_json(read->Ok_0@)->Err_0 && e@.len() > 0),
            read is Ok && ledger_json(read->Ok_0@) is Ok ==> match m {
                PaidEntriesPageMessage::RawJsonUpdated(l) => user_initiated
                    && l.view() == pairs_to_map(ledger_json(read->Ok_0@)->Ok_0),
                PaidEntriesPageMessage::RawJsonLoaded(l) => !user_initiated
                    && l.view() == pairs_to_map(ledger_json(read->Ok_0@)->Ok_0),
                _ => false,
            },
    {
        match read {
            Ok(raw_json) => match parse_paid_entries(raw_json.as_str()) {
                Ok(ledger) => if user_initiated {
                    PaidEntriesPageMessage::RawJsonUpdated(ledger)
                } else {
                    PaidEntriesPageMessage::RawJsonLoaded(ledger)
                },
                Err(e) => PaidEntriesPageMessage::RawJsonLoadingFailed(e),
            },
            Err(e) => PaidEntriesPageMessage::RawJsonLoadingFailed(e),
        }
    }

    fn picker_directory(&self) -> (r: String)
        ensures
            r@ == picker_start(self.config),
    {
        match &self.config.paid_entries_json_path {
            Some(p) => match parent_directory(p.as_str()) {
                Some(d) => d,
                None => p.clone(),
            },
            None => String::new(),
        }
    }

    fn fetch_commands(&self, ledger: &Ledger) -> (r: Vec<PaidEntriesCommand>)
        ensures
            commands_view(r@) == fetch_for(self.config, *ledger),
    {
        match &self.config.coin_market_cap_api_key {
            Some(k) => {
                let request = load_crypto_prices(k.clone(), ledger.symbols());
                let r = vec![PaidEntriesCommand::FetchPrices(request)];
                assert(commands_view(r@) =~= fetch_for(self.config, *ledger));
                r
            },
            None => {
                let r: Vec<PaidEntriesCommand> = Vec::new();
                assert(commands_view(r@) =~= fetch_for(self.config, *ledger));
                r
            },
        }
    }

    fn take_ledger(&mut self, ledger: Ledger) -> (r: Vec<PaidEntriesCommand>)
        ensures
            final(self)@ == apply_ledger(old(self)@, ledger).0,
            commands_view(r@) == apply_ledger(old(self)@, ledger).1,
    {
        let r = self.fetch_commands(&ledger);
        self.paid_entries_json_load_state = PaidEntriesJsonLoadState::Loaded;
        self.raw_json_data = Some(ledger);
        r
    }

    /// Applies `message`: the state becomes what `next` gives, and the
    /// commands returned are the work it asks for.
    pub fn update(&mut self, message: PaidEntriesPageMessage) -> (r: Vec<PaidEntriesCommand>)
        requires
            admits(old(self)@, message),
        ensures
            final(self)@ == next(old(self)@, message).0,
            commands_view(r@) == next(old(self)@, message).1,
    {
        let ghost s = self@;
        let ghost m = message;
        let none: Vec<PaidEntriesCommand> = Vec::new();
        assert(commands_view(none@) =~= Seq::<CommandView>::empty());
        match message {
            PaidEntriesPageMessage::ShowJsonPicker => {
                let start_directory = self.picker_directory();
                let r = vec![PaidEntriesCommand::PickJsonFile { extension: String::from_str("json"), start_directory }];
                assert(commands_view(r@) =~= next(s, m).1);
                r
            },
            PaidEntriesPageMessage::JsonFilePicked(picked) => match picked {
                Some(path) => {
                    let r = vec![
                        PaidEntriesCommand::StoreJsonPath(path.clone()),
                        PaidEntriesCommand::LoadJson { path, user_initiated: true },
                    ];
                    assert(commands_view(r@) =~= next(s, m).1);
                    r
                },
                None => none,
            },
            PaidEntriesPageMessage::RawJsonLoaded(ledger) => self.take_ledger(ledger),
            PaidEntriesPageMessage::RawJsonUpdated(ledger) => {
                let mut body = String::from_str("Loaded: ");
                push_decimal(&mut body, ledger.len());
                body.append(" assets");
                self.dialog = Some(PaidEntriesDialogContent::Success(
                    DialogContent { title: String::from_str("JSON loaded"), body },
                ));
                self.take_ledger(ledger)
            },
            PaidEntriesPageMessage::RawJsonLoadingFailed(reason) => {
                self.dialog = Some(PaidEntriesDialogContent::Error(
                    DialogContent { title: String::from_str("Error loading JSON file"), body: reason },
                ));
                self.paid_entries_json_load_state = PaidEntriesJsonLoadState::Errored;
                none
            },
            PaidEntriesPageMessage::CryptoPricesFetched(prices) => {
                self.crypto_names_to_prices = Some(prices);
                none
            },
            PaidEntriesPageMessage::CryptoPricesFetchingFailed(error_message) => {
                self.dialog = Some(PaidEntriesDialogContent::Error(
                    DialogContent { title: String::from_str("Error fetching crypto prices"), body: error_message },
                ));
                none
            },
            PaidEntriesPageMessage::ClearDialog => {
                self.dialog = None;
                none
            },
            PaidEntriesPageMessage::CmcApiKeySubmit => {
                let draft = self.editing_cmc_api_key.as_ref().unwrap();
                let r = vec![PaidEntriesCommand::StoreApiKey(draft.clone())];
                assert(commands_view(r@) =~= next(s, m).1);
                r
            },
            PaidEntriesPageMessage::CmcApiKeyInput(text) => {
                if self.editing_cmc_api_key.is_some() {
                    self.editing_cmc_api_key = Some(text);
                }
                none
            },
            PaidEntriesPageMessage::CmcApiKeyClearInput => {
                self.editing_cmc_api_key = None;
                none
            },
            PaidEntriesPageMessage::ToggleOnEditApiKey => {
                let draft = match &self.config.coin_market_cap_api_key {
                    Some(k) => k.clone(),
                    None => String::new(),
                };
                self.editing_cmc_api_key = Some(draft);
                none
            },
            PaidEntriesPageMessage::CmcApiKeyStored(stored) => {
                if stored {
                    self.editing_cmc_api_key = None;
                }
                none
            },
            PaidEntriesPageMessage::ConfigUpdated(config) => {
                self.config = config;
                none
            },
            PaidEntriesPageMessage::SwitchTab(tab) => {
                self.active_tab = tab;
                none
            },
        }
    }

    /// The work to start when the page becomes active.
    pub fn on_init(&self) -> (r: Vec<PaidEntriesCommand>)
        ensures
            commands_view(r@) == init_commands(self@),
    {
        let mut r: Vec<PaidEntriesCommand> = Vec::new();
        if let Some(path) = &self.config.paid_entries_json_path {
            if self.paid_entries_json_load_state == PaidEntriesJsonLoadState::NotLoaded {
                r.push(PaidEntriesCommand::LoadJson { path: path.clone(), user_initiated: false });
            }
        }
        let ghost load = r@;
        if let Some(ledger) = &self.raw_json_data {
            let mut fetch = self.fetch_commands(ledger);
            r.append(&mut fetch);
        }
        assert(commands_view(r@) =~= init_commands(self@));
        r
    }

    /// The text of the credential field: the draft while editing, else the
    /// stored credential (which the field masks), else nothing.
    pub fn api_key_field_text(&self) -> (r: String)
        ensures
            r@ == match self@.api_key_draft {
                Some(d) => d,
                None => match self@.config.coin_market_cap_api_key {
                    Some(k) => k@,
                    None => Seq::empty(),
                },
            },
    {
        match &self.editing_cmc_api_key {
            Some(draft) => draft.clone(),
            None => match &self.config.coin_market_cap_api_key {
                Some(k) => k.clone(),
                None => String::new(),
            },
        }
    }

    /// Whether the credential can be submitted: while editing, with a draft
    /// that is not empty.
    pub fn can_submit_api_key(&self) -> (r: bool)
        ensures
            r == (self@.api_key_draft is Some && self@.api_key_draft->Some_0.len() > 0),
    {
        match &self.editing_cmc_api_key {
            Some(draft) => !draft.as_str().is_empty(),
            None => false,
        }
    }

    /// The line that lists the ledger's symbols, once a ledger is there.
    pub fn ledger_summary(&self) -> (r: Option<String>)
        ensures
            self@.ledger is None ==> r is None,
            self@.ledger is Some ==> r is Some && r->Some_0@ == "You got "@ + joined(
                self@.ledger->Some_0.symbol_seq(),
                ", "@,
            ),
    {
        match &self.raw_json_data {
            Some(ledger) => {
                let mut line = String::from_str("You got ");
                let list = join(&ledger.symbols(), ", ");
                line.append(list.as_str());
                Some(line)
            },
            None => None,
        }
    }

    pub fn config(&self) -> (r: &UniConfig)
        ensures
            *r == self@.config,
    {
        &self.config
    }

    /// The dialog waiting to be dismissed, if any.
    pub fn dialog(&self) -> (r: Option<&PaidEntriesDialogContent>)
        ensures
            r is Some <==> self@.dialog is Some,
            r is Some ==> r->Some_0@ == self@.dialog->Some_0,
    {
        self.dialog.as_ref()
    }

    pub fn load_state(&self) -> (r: PaidEntriesJsonLoadState)
        ensures
            r == self@.load_state,
    {
        self.paid_entries_json_load_state
    }

    /// The ledger of the last successful read, if any.
    pub fn ledger(&self) -> (r: Option<&Ledger>)
        ensures
            r is Some <==> self@.ledger is Some,
            r is Some ==> *r->Some_0 == self@.ledger->Some_0,
    {
        self.raw_json_data.as_ref()
    }

    /// The quotes of the last successful price request, if any.
    pub fn prices(&self) -> (r: Option<&QuoteTable>)
        ensures
            r is Some <==> self@.prices is Some,
            r is Some ==> *r->Some_0 == self@.prices->Some_0,
    {
        self.crypto_names_to_prices.as_ref()
    }

    /// The credential draft while the credential is edited.
    pub fn api_key_draft(&self) -> (r: Option<&String>)
        ensures
            r is Some <==> self@.api_key_draft is Some,
            r is Some ==> r->Some_0@ == self@.api_key_draft->Some_0,
    {
        self.editing_cmc_api_key.as_ref()
    }

    pub fn active_tab(&self) -> (r: PaidEntriesPageTabs)
        ensures
            r == self@.tab,
    {
        self.active_tab
    }
}

} // verus!
