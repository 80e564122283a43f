use vstd::prelude::*;
use crate::keyed::{keys_distinct, lemma_pairs_to_map_keys, lemma_pairs_to_map_len, lemma_pairs_to_map_update, lemma_pairs_to_map_value, pairs_to_map};
use crate::text::{join, joined};

verus! {

/// The platform that an asset is issued on.
#[derive(Debug)]
pub struct Platform {
    pub id: i32,
    pub name: String,
}

/// The price in US dollars, as the decimal text the service sent; absent
/// where the service has none.
#[derive(Debug)]
pub struct Usd {
    pub price: Option<String>,
}

#[derive(Debug)]
pub struct Quote {
    pub usd: Usd,
}

/// One record of the price service for an asset symbol.
#[derive(Debug)]
pub struct CoinApiRecord {
    pub id: i32,
    pub name: String,
    pub symbol: String,
    pub platform: Option<Platform>,
    pub quote: Quote,
}

/// The records that the price service returned for one asset symbol.
#[derive(Debug)]
pub struct QuoteEntry {
    pub symbol: String,
    pub records: Vec<CoinApiRecord>,
}

/// The records that the price service returned, by asset symbol; a symbol
/// may have several records (one for each platform), and appears once.
#[derive(Debug)]
pub struct QuoteTable {
    entries: Vec<QuoteEntry>,
}

/// The (symbol, records) pairs of `entries`.
pub open spec fn entry_pairs(entries: Seq<QuoteEntry>) -> Seq<(Seq<char>, Seq<CoinApiRecord>)> {
    entries.map_values(|e: QuoteEntry| (e.symbol@, e.records@))
}

impl QuoteTable {
    pub closed spec fn pairs(&self) -> Seq<(Seq<char>, Seq<CoinApiRecord>)> {
        entry_pairs(self.entries@)
    }

    /// Each symbol is kept once.
    #[verifier::type_invariant]
    pub closed spec fn wf(&self) -> bool {
        keys_distinct(self.pairs())
    }

    /// The records, by symbol.
    pub open spec fn view(&self) -> Map<Seq<char>, Seq<CoinApiRecord>> {
        pairs_to_map(self.pairs())
    }

    pub fn new() -> (r: QuoteTable)
        ensures
            r.view() == Map::<Seq<char>, Seq<CoinApiRecord>>::empty(),
    {
        QuoteTable { entries: Vec::new() }
    }

    /// Keeps `records` under `symbol`, replacing what was kept there.
    pub fn insert(&mut self, symbol: String, records: Vec<CoinApiRecord>)
        ensures
            final(self).view() == old(self).view().insert(symbol@, records@),
    {
        proof { use_type_invariant(&*self); }
        let ghost before = self.pairs();
        let ghost v = records@;
        let mut whole = QuoteTable::new();
        std::mem::swap(self, &mut whole);
        let QuoteTable { mut entries } = whole;
        let mut j: usize = 0;
        while j < entries.len()
            invariant
                j <= entries.len(),
                v == records@,
                before == old(self).pairs(),
                before == entry_pairs(entries@),
                keys_distinct(before),
                forall|i: int| 0 <= i < j ==> entries@[i].symbol@ != symbol@,
            decreases entries.len() - j,
        {
            if entries[j].symbol == symbol {
                let ghost prev = entries@;
                assert(before[j as int].0 == symbol@);
                let entry = QuoteEntry { symbol, records };
                assert(entry.symbol@ == before[j as int].0 && entry.records@ == v);
                entries.set(j, entry);
                assert(entries@ == prev.update(j as int, entry));
                let ghost after = before.update(j as int, (before[j as int].0, v));
                assert forall|i: int| 0 <= i < after.len() implies #[trigger] entry_pairs(entries@)[i] == after[i] by {
                    if i != j {
                        assert(entry_pairs(prev)[i] == before[i]);
                    }
                }
                assert(entry_pairs(entries@) =~= after);
                proof {
                    lemma_pairs_to_map_update(before, j as int, v);
                    assert forall|a: int, b: int|
                        0 <= a < after.len() && 0 <= b < after.len() && a != b implies after[a].0 != after[b].0 by {
                        assert(before[a].0 == after[a].0);
                        assert(before[b].0 == after[b].0);
                    }
                }
                *self = QuoteTable { entries };
                assert(self.pairs() == after);
                return;
            }
            j = j + 1;
        }
        entries.push(QuoteEntry { symbol, records });
        let ghost after = before.push((symbol@, v));
        assert(entry_pairs(entries@) =~= after);
        proof {
            assert(after.drop_last() =~= before);
            assert forall|a: int, b: int|
                0 <= a < after.len() && 0 <= b < after.len() && a != b implies after[a].0 != after[b].0 by {
                if a < before.len() {
                    assert(after[a] == before[a]);
                    assert(before[a].0 == entries@[a].symbol@);
                }
                if b < before.len() {
                    assert(after[b] == before[b]);
                    assert(before[b].0 == entries@[b].symbol@);
                }
            }
        }
        *self = QuoteTable { entries };
    }

    /// The records kept for `symbol`, if any.
    pub fn records(&self, symbol: &str) -> (r: Option<&Vec<CoinApiRecord>>)
        ensures
            r is Some <==> self.view().contains_key(symbol@),
            r is Some ==> r->Some_0@ == self.view()[symbol@],
    {
        proof { use_type_invariant(self); }
        let key = String::from_str(symbol);
        let mut i: usize = 0;
        while i < self.entries.len()
            invariant
                i <= self.entries.len(),
                key@ == symbol@,
                self.wf(),
                forall|j: int| 0 <= j < i ==> self.entries@[j].symbol@ != symbol@,
            decreases self.entries.len() - i,
        {
            if self.entries[i].symbol == key {
                proof {
                    assert(self.pairs()[i as int].0 == symbol@);
                    lemma_pairs_to_map_value(self.pairs(), i as int);
                }
                return Some(&self.entries[i].records);
            }
            i = i + 1;
        }
        proof {
            lemma_pairs_to_map_keys(self.pairs(), symbol@);
            if self.view().contains_key(symbol@) {
                let j = choose|j: int| 0 <= j < self.pairs().len() && self.pairs()[j].0 == symbol@;
                assert(self.entries@[j].symbol@ == symbol@);
            }
        }
        None
    }

    /// Number of symbols kept.
    pub fn len(&self) -> (r: usize)
        ensures
            r == self.view().dom().len(),
    {
        proof {
            use_type_invariant(self);
            lemma_pairs_to_map_len(self.pairs());
        }
        self.entries.len()
    }
}

/// A request to the price service.
#[derive(Debug)]
pub struct PriceRequest {
    pub url: String,
    pub header_name: String,
    pub header_value: String,
}

pub struct PriceRequestView {
    pub url: Seq<char>,
    pub header_name: Seq<char>,
    pub header_value: Seq<char>,
}

impl View for PriceRequest {
    type V = PriceRequestView;

    open spec fn view(&self) -> PriceRequestView {
        PriceRequestView { url: self.url@, header_name: self.header_name@, header_value: self.header_value@ }
    }
}

/// Address of the quote service, before its query.
pub const QUOTES_ENDPOINT: &'static str = "https://pro-api.coinmarketcap.com/v2/cryptocurrency/quotes/latest";

/// Header that carries the credential.
pub const API_KEY_HEADER: &'static str = "X-API-KEY";

/// The one request that asks for the quotes of all `symbols`: they stand
/// comma-separated in the query, and the credential goes in a header.
pub open spec fn price_request_spec(api_key: Seq<char>, symbols: Seq<Seq<char>>) -> PriceRequestView {
    PriceRequestView {
        url: QUOTES_ENDPOINT@ + "?symbol="@ + joined(symbols, ","@),
        header_name: API_KEY_HEADER@,
        header_value: api_key,
    }
}

/// Builds the request for the quotes of `symbols`, which name each asset once.
pub fn load_crypto_prices(api_key: String, symbols: Vec<String>) -> (r: PriceRequest)
    requires
        symbols@.map_values(|s: String| s@).no_duplicates(),
    ensures
        r@ == price_request_spec(api_key@, symbols@.map_values(|s: String| s@)),
{
    let mut url = String::from_str(QUOTES_ENDPOINT);
    url.append("?symbol=");
    let list = join(&symbols, ",");
    url.append(list.as_str());
    PriceRequest { url, header_name: String::from_str(API_KEY_HEADER), header_value: api_key }
}

} // verus!
