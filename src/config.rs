use vstd::prelude::*;

verus! {

/// The page to display in the application.
#[derive(Clone, Copy, Debug, PartialEq, Eq, Structural)]
pub enum Page {
    AboutPc,
    Clock,
    Preferences,
    PaidEntries,
}

/// Version of the persisted configuration record.
pub const CONFIG_VERSION: u64 = 1;

/// The persisted configuration record. Each optional field may be absent,
/// which means that the feature it serves is not set up.
#[derive(Debug)]
pub struct UniConfig {
    pub username: String,
    pub last_active_page: Page,
    /// Path of the ledger file, as text.
    pub paid_entries_json_path: Option<String>,
    /// Credential of the price service.
    pub coin_market_cap_api_key: Option<String>,
}

impl Default for UniConfig {
    fn default() -> (r: UniConfig)
        ensures
            r@ == UniConfig::empty_spec(),
    {
        UniConfig {
            username: String::new(),
            last_active_page: Page::AboutPc,
            paid_entries_json_path: None,
            coin_market_cap_api_key: None,
        }
    }
}

impl Clone for UniConfig {
    fn clone(&self) -> (r: UniConfig)
        ensures
            r == *self,
    {
        UniConfig {
            username: self.username.clone(),
            last_active_page: self.last_active_page,
            paid_entries_json_path: match &self.paid_entries_json_path {
                Some(p) => Some(p.clone()),
                None => None,
            },
            coin_market_cap_api_key: match &self.coin_market_cap_api_key {
                Some(k) => Some(k.clone()),
                None => None,
            },
        }
    }
}

/// What a configuration record says, with text fields as character sequences.
pub struct UniConfigView {
    pub username: Seq<char>,
    pub last_active_page: Page,
    pub paid_entries_json_path: Option<Seq<char>>,
    pub coin_market_cap_api_key: Option<Seq<char>>,
}

pub open spec fn opt_view(o: Option<String>) -> Option<Seq<char>> {
    match o {
        Some(s) => Some(s@),
        None => None,
    }
}

impl View for UniConfig {
    type V = UniConfigView;

    open spec fn view(&self) -> UniConfigView {
        UniConfigView {
            username: self.username@,
            last_active_page: self.last_active_page,
            paid_entries_json_path: opt_view(self.paid_entries_json_path),
            coin_market_cap_api_key: opt_view(self.coin_market_cap_api_key),
        }
    }
}

impl UniConfig {
    /// The record of a fresh installation: no name, the first page, nothing set up.
    pub open spec fn empty_spec() -> UniConfigView {
        UniConfigView {
            username: Seq::empty(),
            last_active_page: Page::AboutPc,
            paid_entries_json_path: None,
            coin_market_cap_api_key: None,
        }
    }

    /// The record to start with. `stored` is what the store holds, when a store
    /// could be opened; a record read with errors still counts, with the
    /// fields that could not be read at their defaults.
    pub fn config(stored: Option<UniConfig>) -> (r: UniConfig)
        ensures
            stored is Some ==> r == stored->Some_0,
            stored is None ==> r@ == UniConfig::empty_spec(),
    {
        match stored {
            Some(c) => c,
            None => UniConfig::default(),
        }
    }

    /// The record out of a read of the store: the record read, or, where the
    /// read reported errors, the record with defaults in their place.
    pub fn map_config_result(read: Result<UniConfig, (Vec<String>, UniConfig)>) -> (r: UniConfig)
        ensures
            read is Ok ==> r == read->Ok_0,
            read is Err ==> r == read->Err_0.1,
    {
        match read {
            Ok(c) => c,
            Err((_errors, c)) => c,
        }
    }
}

} // verus!
