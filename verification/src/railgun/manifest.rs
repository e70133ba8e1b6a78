//! The wallet manifest: non-secret metadata of the SDK-managed wallets,
//! stored by the application under `artifacts/wallets.json`.
use vstd::prelude::*;

use crate::error::UndercoverError;
use crate::text::{concat, is_blank, owned, str_eq, str_is_blank};

verus! {

/// Where the manifest lives, relative to the work directory.
pub const MANIFEST_PATH: &'static str = "artifacts/wallets.json";

/// One wallet known to the tool.
#[derive(Debug)]
pub struct WalletRecord {
    pub label: String,
    pub wallet_id: String,
    pub shielded_address: String,
}

/// The view of a record: its label, wallet ID and shielded address.
pub struct RecordView {
    pub label: Seq<char>,
    pub wallet_id: Seq<char>,
    pub shielded_address: Seq<char>,
}

impl View for WalletRecord {
    type V = RecordView;

    open spec fn view(&self) -> RecordView {
        RecordView {
            label: self.label@,
            wallet_id: self.wallet_id@,
            shielded_address: self.shielded_address@,
        }
    }
}

/// The list of known wallets, in the order in which they were first recorded.
#[derive(Debug)]
pub struct WalletManifest {
    pub wallets: Vec<WalletRecord>,
}

impl View for WalletManifest {
    type V = Seq<RecordView>;

    open spec fn view(&self) -> Seq<RecordView> {
        self.wallets@.map_values(|r: WalletRecord| r@)
    }
}

/// The position of the first record labelled `label`, or -1.
pub open spec fn label_index(s: Seq<RecordView>, label: Seq<char>) -> int
    decreases s.len(),
{
    if s.len() == 0 {
        -1
    } else if s.last().label == label && label_index(s.drop_last(), label) == -1 {
        s.len() - 1
    } else {
        label_index(s.drop_last(), label)
    }
}

/// A record answers a selector by its label or by its wallet ID.
pub open spec fn matches_selector(r: RecordView, selector: Seq<char>) -> bool {
    r.label == selector || r.wallet_id == selector
}

/// The position of the first record that answers `selector`, or -1.
pub open spec fn selector_index(s: Seq<RecordView>, selector: Seq<char>) -> int
    decreases s.len(),
{
    if s.len() == 0 {
        -1
    } else if matches_selector(s.last(), selector) && selector_index(s.drop_last(), selector)
        == -1 {
        s.len() - 1
    } else {
        selector_index(s.drop_last(), selector)
    }
}

/// The manifest after recording `r`: the first record with the same label is
/// replaced in place, or `r` is appended when no record has that label.
pub open spec fn upserted(s: Seq<RecordView>, r: RecordView) -> Seq<RecordView> {
    let i = label_index(s, r.label);
    if i == -1 {
        s.push(r)
    } else {
        s.update(i, r)
    }
}

/// No two records share a label.
pub open spec fn labels_unique(s: Seq<RecordView>) -> bool {
    forall|i: int, j: int|
        0 <= i < s.len() && 0 <= j < s.len() && i != j ==> #[trigger] s[i].label
            != #[trigger] s[j].label
}

/// The message of a failed selection.
pub open spec fn not_found_message(selector: Seq<char>) -> Seq<char> {
    "wallet not found in manifest: "@ + selector
}

/// The message of a refused label.
pub open spec fn empty_label_message() -> Seq<char> {
    "wallet label cannot be empty"@
}

/// `label_index` is the first position whose label matches.
pub proof fn lemma_label_index(s: Seq<RecordView>, label: Seq<char>)
    ensures
        -1 <= label_index(s, label) < s.len(),
        label_index(s, label) == -1 <==> (forall|k: int| 0 <= k < s.len() ==> s[k].label
            != label),
        label_index(s, label) != -1 ==> s[label_index(s, label)].label == label,
        forall|k: int| 0 <= k < label_index(s, label) ==> s[k].label != label,
    decreases s.len(),
{
    if s.len() > 0 {
        lemma_label_index(s.drop_last(), label);
        assert forall|k: int| 0 <= k < s.len() - 1 implies s.drop_last()[k] == s[k] by {}
    }
}

/// `selector_index` is the first position that answers the selector.
pub proof fn lemma_selector_index(s: Seq<RecordView>, selector: Seq<char>)
    ensures
        -1 <= selector_index(s, selector) < s.len(),
        selector_index(s, selector) == -1 <==> (forall|k: int|
            0 <= k < s.len() ==> !matches_selector(s[k], selector)),
        selector_index(s, selector) != -1 ==> matches_selector(
            s[selector_index(s, selector)],
            selector,
        ),
        forall|k: int| 0 <= k < selector_index(s, selector) ==> !matches_selector(s[k], selector),
    decreases s.len(),
{
    if s.len() > 0 {
        lemma_selector_index(s.drop_last(), selector);
        assert forall|k: int| 0 <= k < s.len() - 1 implies s.drop_last()[k] == s[k] by {}
    }
}

impl Default for WalletManifest {
    /// An empty manifest.
    fn default() -> (m: WalletManifest)
        ensures
            m@ == Seq::<RecordView>::empty(),
    {
        WalletManifest::new()
    }
}

impl WalletManifest {
    /// An empty manifest, as loading a missing file gives.
    pub fn new() -> (m: WalletManifest)
        ensures
            m@ == Seq::<RecordView>::empty(),
    {
        let m = WalletManifest { wallets: Vec::new() };
        assert(m@ =~= Seq::<RecordView>::empty());
        m
    }

    /// Insert or replace a wallet by label.
    pub fn upsert(&mut self, record: WalletRecord)
        ensures
            final(self)@ == upserted(old(self)@, record@),
    {
        let ghost s = self@;
        let ghost rv = record@;
        let n = self.wallets.len();
        let mut i: usize = 0;
        while i < n
            invariant
                n == self.wallets.len(),
                s == self@,
                s == old(self)@,
                rv == record@,
                i <= n,
                forall|k: int| 0 <= k < i ==> s[k].label != record@.label,
            decreases n - i,
        {
            if str_eq(self.wallets[i].label.as_str(), record.label.as_str()) {
                assert(s[i as int].label == record@.label);
                proof {
                    lemma_label_index(s, record@.label);
                }
                assert(label_index(s, record@.label) == i);
                self.wallets.set(i, record);
                assert(self@ =~= s.update(i as int, rv));
                assert(self@ == upserted(s, rv));
                return;
            }
            i = i + 1;
        }
        proof {
            lemma_label_index(s, rv.label);
        }
        assert(label_index(s, rv.label) == -1);
        self.wallets.push(record);
        assert(self@ =~= s.push(record@));
    }

    /// Find a wallet by label or wallet ID; the first record that answers
    /// the selector wins.
    pub fn select(&self, selector: &str) -> (r: Result<&WalletRecord, UndercoverError>)
        ensures
            match r {
                Ok(rec) => {
                    &&& selector_index(self@, selector@) != -1
                    &&& rec@ == self@[selector_index(self@, selector@)]
                },
                Err(e) => {
                    &&& selector_index(self@, selector@) == -1
                    &&& e.message_view() == not_found_message(selector@)
                },
            },
    {
        let ghost s = self@;
        proof {
            lemma_selector_index(s, selector@);
        }
        let n = self.wallets.len();
        let mut i: usize = 0;
        while i < n
            invariant
                n == self.wallets.len(),
                s == self@,
                i <= n,
                forall|k: int| 0 <= k < i ==> !matches_selector(s[k], selector@),
            decreases n - i,
        {
            let w = &self.wallets[i];
            if str_eq(w.label.as_str(), selector) || str_eq(w.wallet_id.as_str(), selector) {
                assert(s[i as int] == w@);
                proof {
                    lemma_selector_index(s, selector@);
                }
                assert(selector_index(s, selector@) == i);
                return Ok(w);
            }
            assert(s[i as int] == w@);
            i = i + 1;
        }
        proof {
            lemma_selector_index(s, selector@);
            reveal_strlit("wallet not found in manifest: ");
        }
        Err(UndercoverError::Message(concat("wallet not found in manifest: ", selector)))
    }
}

/// Validate a user-facing wallet label: it must hold something besides white
/// space. An accepted label is handed back unchanged.
pub fn validate_label(label: &str) -> (r: Result<String, String>)
    ensures
        match r {
            Ok(l) => !is_blank(label@) && l@ == label@,
            Err(m) => is_blank(label@) && m@ == empty_label_message(),
        },
{
    if str_is_blank(label) {
        proof {
            reveal_strlit("wallet label cannot be empty");
        }
        return Err(owned("wallet label cannot be empty"));
    }
    Ok(owned(label))
}

/// Recording a wallet keeps labels unique.
pub proof fn law_upsert_keeps_labels_unique(s: Seq<RecordView>, r: RecordView)
    requires
        labels_unique(s),
    ensures
        labels_unique(upserted(s, r)),
{
    lemma_label_index(s, r.label);
}

/// After recording a wallet, its label selects it, unless an earlier wallet's
/// ID equals that label.
pub proof fn law_upsert_then_select(s: Seq<RecordView>, r: RecordView)
    requires
        forall|k: int| 0 <= k < s.len() ==> s[k].wallet_id != r.label,
    ensures
        selector_index(upserted(s, r), r.label) != -1,
        upserted(s, r)[selector_index(upserted(s, r), r.label)] == r,
{
    let t = upserted(s, r);
    lemma_label_index(s, r.label);
    lemma_selector_index(t, r.label);
    let i = selector_index(t, r.label);
    let j = label_index(s, r.label);
    if j == -1 {
        assert(matches_selector(t[s.len() as int], r.label));
        if i != s.len() {
            assert(t[i] == s[i]);
        }
    } else {
        assert(matches_selector(t[j], r.label));
        if i != j {
            assert(t[i] == s[i]);
        }
    }
}

/// Recording a wallet under a new label appends it; under a known label it
/// replaces that wallet and the list keeps its length. The other wallets
/// stay where they were.
pub proof fn law_upsert_shape(s: Seq<RecordView>, r: RecordView)
    ensures
        label_index(s, r.label) == -1 ==> upserted(s, r).len() == s.len() + 1 && upserted(
            s,
            r,
        ).last() == r,
        label_index(s, r.label) != -1 ==> upserted(s, r).len() == s.len(),
        forall|k: int|
            0 <= k < s.len() && s[k].label != r.label ==> #[trigger] upserted(s, r)[k] == s[k],
{
    lemma_label_index(s, r.label);
}

/// Recording the same wallet twice is the same as recording it once.
pub proof fn law_upsert_idempotent(s: Seq<RecordView>, r: RecordView)
    ensures
        upserted(upserted(s, r), r) == upserted(s, r),
{
    let t = upserted(s, r);
    lemma_label_index(s, r.label);
    lemma_label_index(t, r.label);
    if label_index(s, r.label) == -1 {
        assert(t[s.len() as int].label == r.label);
        assert(label_index(t, r.label) == s.len());
        assert(upserted(t, r) =~= t);
    } else {
        let j = label_index(s, r.label);
        assert(t[j].label == r.label);
        assert(label_index(t, r.label) == j);
        assert(upserted(t, r) =~= t);
    }
}

} // verus!
