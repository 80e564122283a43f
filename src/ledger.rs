use vstd::prelude::*;
use crate::keyed::{
    keys_distinct, lemma_pairs_to_map_keys, lemma_pairs_to_map_update, lemma_pairs_to_map_value, pairs_to_map,
};

verus! {

/// One recorded purchase of an asset. The file may carry any members in it;
/// none of them is read yet.
#[derive(Debug)]
pub struct BuyEntry {}

/// The purchases recorded under one asset symbol.
#[derive(Debug)]
pub struct LedgerAsset {
    pub symbol: String,
    pub entries: Vec<BuyEntry>,
}

/// The purchases of a ledger file, by asset symbol. Symbols are case-sensitive
/// and appear once.
#[derive(Debug)]
pub struct Ledger {
    assets: Vec<LedgerAsset>,
}

/// What a decoded ledger file holds: for each member of the top-level object,
/// in the decoder's order, its name and the length of its array; or the
/// decoder's description of why the text is no ledger.
pub uninterp spec fn ledger_json(text: Seq<char>) -> Result<Seq<(Seq<char>, nat)>, Seq<char>>;

/// The (symbol, entry count) pairs of decoded members.
pub open spec fn decoded_pairs(v: Seq<(String, Vec<BuyEntry>)>) -> Seq<(Seq<char>, nat)> {
    v.map_values(|p: (String, Vec<BuyEntry>)| (p.0@, p.1@.len()))
}

type JsonMembers = std::collections::BTreeMap<String, Vec<serde_json::Map<String, serde_json::Value>>>;

/// Relies on serde_json::from_str decoding a JSON object whose members are
/// arrays of JSON objects into a BTreeMap, and on the Display of serde_json::Error: it writes the error code's
/// message, which is never empty, followed by the line and column where the
/// decoder stopped.
#[verifier::external_body]
fn decode_ledger(text: &str) -> (r: Result<Vec<(String, Vec<BuyEntry>)>, String>)
    ensures
        r is Ok ==> ledger_json(text@) == Ok::<Seq<(Seq<char>, nat)>, Seq<char>>(
            decoded_pairs(r->Ok_0@),
        ),
        r is Err ==> ledger_json(text@) == Err::<Seq<(Seq<char>, nat)>, Seq<char>>(r->Err_0@),
        r is Err ==> r->Err_0@.len() > 0,
{
    match serde_json::from_str::<JsonMembers>(text) {
        Ok(m) => Ok(m.into_iter().map(|(k, v)| (k, v.into_iter().map(|_| BuyEntry {}).collect())).collect()),
        Err(e) => Err(e.to_string()),
    }
}

/// The (symbol, entry count) pairs of `assets`.
pub open spec fn asset_pairs(assets: Seq<LedgerAsset>) -> Seq<(Seq<char>, nat)> {
    assets.map_values(|a: LedgerAsset| (a.symbol@, a.entries@.len()))
}

impl Ledger {
    /// The (symbol, entry count) pairs in the order in which they are kept.
    pub closed spec fn pairs(&self) -> Seq<(Seq<char>, nat)> {
        asset_pairs(self.assets@)
    }

    /// The symbols in the order in which they are kept.
    pub closed spec fn symbol_seq(&self) -> Seq<Seq<char>> {
        self.assets@.map_values(|a: LedgerAsset| a.symbol@)
    }

    /// Each symbol is kept once.
    #[verifier::type_invariant]
    pub closed spec fn wf(&self) -> bool {
        keys_distinct(self.pairs())
    }

    /// Number of entries recorded for each symbol.
    pub open spec fn view(&self) -> Map<Seq<char>, nat> {
        pairs_to_map(self.pairs())
    }

    pub fn new() -> (r: Ledger)
        ensures
            r.view() == Map::<Seq<char>, nat>::empty(),
    {
        Ledger { assets: Vec::new() }
    }

    /// Records `entries` under `symbol`, replacing what was recorded there.
    pub fn insert(&mut self, symbol: String, entries: Vec<BuyEntry>)
        ensures
            final(self).view() == old(self).view().insert(symbol@, entries@.len()),
    {
        proof { use_type_invariant(&*self); }
        let ghost before = self.pairs();
        let mut whole = Ledger::new();
        std::mem::swap(self, &mut whole);
        let Ledger { mut assets } = whole;
        assert(before == asset_pairs(assets@));
        let ghost n = entries@.len();
        let mut j: usize = 0;
        while j < assets.len()
            invariant
                j <= assets.len(),
                n == entries@.len(),
                before == old(self).pairs(),
                before == asset_pairs(assets@),
                keys_distinct(before),
                forall|i: int| 0 <= i < j ==> assets@[i].symbol@ != symbol@,
            decreases assets.len() - j,
        {
            if assets[j].symbol == symbol {
                let ghost prev = assets@;
                assert(before[j as int].0 == symbol@);
                let asset = LedgerAsset { symbol, entries };
                assert(asset.symbol@ == before[j as int].0 && asset.entries@.len() == n);
                assets.set(j, asset);
                assert(assets@ == prev.update(j as int, asset));
                let ghost after = before.update(j as int, (before[j as int].0, n));
                assert forall|i: int| 0 <= i < after.len() implies #[trigger] asset_pairs(assets@)[i] == after[i] by {
                    if i != j {
                        assert(asset_pairs(prev)[i] == before[i]);
                    }
                }
                assert(asset_pairs(assets@) =~= after);
                proof {
                    lemma_pairs_to_map_update(before, j as int, n);
                    assert forall|a: int, b: int|
                        0 <= a < after.len() && 0 <= b < after.len() && a != b implies after[a].0 != after[b].0 by {
                        assert(before[a].0 == after[a].0);
                        assert(before[b].0 == after[b].0);
                    }
                }
                *self = Ledger { assets };
                assert(self.pairs() == after);
                return;
            }
            j = j + 1;
        }
        assets.push(LedgerAsset { symbol, entries });
        let ghost after = before.push((symbol@, n));
        assert(asset_pairs(assets@) =~= after);
        proof {
            assert(after.drop_last() =~= before);
            assert forall|a: int, b: int|
                0 <= a < after.len() && 0 <= b < after.len() && a != b implies after[a].0 != after[b].0 by {
                if a < before.len() {
                    assert(after[a] == before[a]);
                    assert(before[a].0 == assets@[a].symbol@);
                }
                if b < before.len() {
                    assert(after[b] == before[b]);
                    assert(before[b].0 == assets@[b].symbol@);
                }
            }
        }
        *self = Ledger { assets };
    }

    /// The symbols, each once.
    pub fn symbols(&self) -> (r: Vec<String>)
        ensures
            r@.map_values(|s: String| s@) == self.symbol_seq(),
            r@.map_values(|s: String| s@).no_duplicates(),
    {
        proof {
            use_type_invariant(self);
            self.lemma_symbols();
        }
        let mut r: Vec<String> = Vec::new();
        let mut i: usize = 0;
        while i < self.assets.len()
            invariant
                i <= self.assets.len(),
                r@.map_values(|s: String| s@) == self.symbol_seq().take(i as int),
            decreases self.assets.len() - i,
        {
            let sym = self.assets[i].symbol.clone();
            assert(sym@ == self.symbol_seq()[i as int]);
            let ghost prev = r@;
            r.push(sym);
            assert(r@.map_values(|s: String| s@) =~= prev.map_values(|s: String| s@).push(sym@));
            assert(self.symbol_seq().take(i + 1) =~= self.symbol_seq().take(i as int).push(
                self.symbol_seq()[i as int],
            ));
            i = i + 1;
        }
        assert(self.symbol_seq().take(i as int) =~= self.symbol_seq());
        r
    }

    /// Number of distinct symbols.
    pub fn len(&self) -> (r: usize)
        ensures
            r == self.symbol_seq().len(),
            r == self.view().dom().len(),
    {
        proof {
            use_type_invariant(self);
            self.lemma_symbols();
        }
        self.assets.len()
    }

    /// The kept symbols are the map's keys, each once.
    pub proof fn lemma_symbols(&self)
        requires
            self.wf(),
        ensures
            self.view().dom().len() == self.symbol_seq().len(),
            self.view().dom() == self.symbol_seq().to_set(),
            self.symbol_seq().no_duplicates(),
    {
        let s = self.symbol_seq();
        assert forall|k: Seq<char>| #[trigger] self.view().dom().contains(k) <==> s.contains(k) by {
            lemma_pairs_to_map_keys(self.pairs(), k);
            if s.contains(k) {
                let i = choose|i: int| 0 <= i < s.len() && s[i] == k;
                assert(self.pairs()[i].0 == k);
            }
            if self.view().dom().contains(k) {
                let i = choose|i: int| 0 <= i < self.pairs().len() && self.pairs()[i].0 == k;
                assert(s[i] == k);
            }
        }
        assert(self.view().dom() =~= s.to_set());
        assert forall|i: int, j: int| 0 <= i < s.len() && 0 <= j < s.len() && i != j implies s[i] != s[j] by {
            assert(self.pairs()[i].0 == s[i]);
            assert(self.pairs()[j].0 == s[j]);
        }
        assert(s.no_duplicates());
        s.unique_seq_to_set();
    }

    /// Number of entries recorded under `symbol`, if it is present.
    pub fn entry_count(&self, symbol: &str) -> (r: Option<usize>)
        ensures
            r is Some <==> self.view().contains_key(symbol@),
            r is Some ==> r->Some_0 as nat == self.view()[symbol@],
    {
        proof { use_type_invariant(self); }
        let key = String::from_str(symbol);
        let mut i: usize = 0;
        while i < self.assets.len()
            invariant
                i <= self.assets.len(),
                key@ == symbol@,
                self.wf(),
                forall|j: int| 0 <= j < i ==> self.assets@[j].symbol@ != symbol@,
            decreases self.assets.len() - i,
        {
            if self.assets[i].symbol == key {
                proof {
                    assert(self.pairs()[i as int].0 == symbol@);
                    lemma_pairs_to_map_value(self.pairs(), i as int);
                }
                return Some(self.assets[i].entries.len());
            }
            i = i + 1;
        }
        proof {
            lemma_pairs_to_map_keys(self.pairs(), symbol@);
            if self.view().contains_key(symbol@) {
                let j = choose|j: int| 0 <= j < self.pairs().len() && self.pairs()[j].0 == symbol@;
                assert(self.assets@[j].symbol@ == symbol@);
            }
        }
        None
    }
}

/// Builds the ledger of decoded members; a later member replaces an earlier
/// one with the same symbol.
pub fn ledger_from_members(members: Vec<(String, Vec<BuyEntry>)>) -> (r: Ledger)
    ensures
        r.view() == pairs_to_map(decoded_pairs(members@)),
{
    let ghost pairs = decoded_pairs(members@);
    let mut ledger = Ledger::new();
    let mut rest = members;
    let ghost all = rest@;
    let mut taken: usize = 0;
    let total: usize = rest.len();
    while rest.len() > 0
        invariant
            total == all.len(),
            taken + rest@.len() == all.len(),
            rest@ == all.skip(taken as int),
            ledger.view() == pairs_to_map(decoded_pairs(all.take(taken as int))),
        decreases rest@.len(),
    {
        let (symbol, entries) = rest.remove(0);
        assert(rest@ =~= all.skip(taken + 1));
        ledger.insert(symbol, entries);
        proof {
            let t = decoded_pairs(all.take(taken + 1));
            assert(t.drop_last() =~= decoded_pairs(all.take(taken as int)));
            assert(all[taken as int] == (symbol, entries));
        }
        taken = taken + 1;
    }
    assert(all.take(taken as int) =~= all);
    ledger
}

/// Decodes the text of a ledger file. The ledger holds each member of the
/// top-level object with the number of entries in its array; on malformed
/// JSON or another shape the decoder's description comes back.
pub fn parse_paid_entries(raw_json: &str) -> (r: Result<Ledger, String>)
    ensures
        r is Ok <==> ledger_json(raw_json@) is Ok,
        r is Ok ==> r->Ok_0.view() == pairs_to_map(ledger_json(raw_json@)->Ok_0),
        r is Err ==> r->Err_0@ == ledger_json(raw_json@)->Err_0 && r->Err_0@.len() > 0,
{
    match decode_ledger(raw_json) {
        Ok(members) => Ok(ledger_from_members(members)),
        Err(e) => Err(e),
    }
}

} // verus!
