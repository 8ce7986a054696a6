//! The configuration grammar: tokens grouped in triples `key = value`.
//!
//! Groups are read greedily from the left. A group that stops before its
//! `=` or before its value is an error, and so is a group whose second
//! token is anything but `=`.

use crate::lexer::{law_separator_runs, separator, texts, tokenize, tokens};
use crate::store::{has_key, inserted, lookup, removed, ConfigStore, Entries, Text};
use vstd::prelude::*;

verus! {

/// What a malformed group lacks.
#[derive(Debug, Clone, Copy, PartialEq, Eq, Structural)]
pub enum SyntaxReason {
    /// The second token of the group is missing, or is not `=`.
    ExpectedEquals,
    /// The third token of the group is missing.
    ExpectedValue,
}

/// A violation of the grammar, with the index of the token that is missing or wrong.
#[derive(Debug, Clone, Copy, PartialEq, Eq, Structural)]
pub struct SyntaxError {
    pub reason: SyntaxReason,
    pub token_index: usize,
}

/// The token that joins a key to its value.
pub open spec fn equals_sign() -> Text {
    seq!['=']
}

/// What is wrong with group `k`, which starts at token `3 * k`.
///
/// A missing value is reported before the second token is looked at.
pub open spec fn group_fault(toks: Seq<Text>, k: int) -> Option<SyntaxError> {
    if 3 * k + 1 >= toks.len() {
        Some(SyntaxError { reason: SyntaxReason::ExpectedEquals, token_index: (3 * k + 1) as usize })
    } else if 3 * k + 2 >= toks.len() {
        Some(SyntaxError { reason: SyntaxReason::ExpectedValue, token_index: (3 * k + 2) as usize })
    } else if toks[3 * k + 1] != equals_sign() {
        Some(SyntaxError { reason: SyntaxReason::ExpectedEquals, token_index: (3 * k + 1) as usize })
    } else {
        None
    }
}

/// The fault of the first malformed group at or after group `k`.
pub open spec fn fault_from(toks: Seq<Text>, k: int) -> Option<SyntaxError>
    decreases toks.len() - 3 * k,
{
    if k < 0 || 3 * k >= toks.len() {
        None
    } else if group_fault(toks, k) is Some {
        group_fault(toks, k)
    } else {
        fault_from(toks, k + 1)
    }
}

/// The first grammar violation among `toks`, if there is one.
pub open spec fn syntax_fault(toks: Seq<Text>) -> Option<SyntaxError> {
    fault_from(toks, 0)
}

/// The tokens form complete triples, each with `=` in the middle.
pub open spec fn well_grouped(toks: Seq<Text>) -> bool {
    &&& toks.len() % 3 == 0
    &&& forall|k: int| 0 <= k && 3 * k < toks.len() ==> #[trigger] toks[3 * k + 1] == equals_sign()
}

/// The entries that the first `groups` triples give, the first occurrence of a key winning.
pub open spec fn grouped(toks: Seq<Text>, groups: nat) -> Entries
    decreases groups,
{
    if groups == 0 {
        Entries::empty()
    } else {
        let k = groups - 1;
        inserted(grouped(toks, k as nat), toks[3 * k], toks[3 * k + 2])
    }
}

/// What parsing `text` gives.
pub open spec fn parsed(text: Text) -> Result<Entries, SyntaxError> {
    let toks = tokens(text);
    match syntax_fault(toks) {
        Some(fault) => Err(fault),
        None => Ok(grouped(toks, (toks.len() / 3) as nat)),
    }
}

/// No group from `k` on is at fault exactly when all of them are complete and well joined.
pub proof fn lemma_fault_from(toks: Seq<Text>, k: int)
    requires
        0 <= k,
        3 * k <= toks.len(),
    ensures
        fault_from(toks, k) is None <==> {
            &&& toks.len() % 3 == 0
            &&& forall|j: int| k <= j && 3 * j < toks.len() ==> #[trigger] toks[3 * j + 1]
                == equals_sign()
        },
    decreases toks.len() - 3 * k,
{
    if 3 * k < toks.len() {
        if group_fault(toks, k) is None {
            lemma_fault_from(toks, k + 1);
            if fault_from(toks, k + 1) is None {
                assert forall|j: int| k <= j && 3 * j < toks.len() implies #[trigger] toks[3 * j
                    + 1] == equals_sign() by {
                    if j > k {
                        assert(k + 1 <= j);
                    }
                }
            }
        } else {
            if toks.len() % 3 == 0 {
                assert(3 * k + 2 < toks.len());
                assert(toks[3 * k + 1] != equals_sign());
            }
        }
    }
}

/// Parsing succeeds exactly on the well-grouped token sequences.
pub proof fn law_accepts_well_grouped(toks: Seq<Text>)
    ensures
        syntax_fault(toks) is None <==> well_grouped(toks),
{
    lemma_fault_from(toks, 0);
}

/// A text that ends in a dangling key, or in a key and `=` without a value, is rejected.
pub proof fn law_dangling_group_fails(text: Text)
    requires
        tokens(text).len() % 3 != 0,
    ensures
        parsed(text) is Err,
{
    law_accepts_well_grouped(tokens(text));
}

/// Two texts that differ only in the separators between two pieces, each
/// run of them being non-empty, parse alike.
pub proof fn law_parse_ignores_separator_runs(a: Text, first: Text, second: Text, b: Text)
    requires
        first.len() > 0,
        second.len() > 0,
        forall|k: int| 0 <= k < first.len() ==> separator(#[trigger] first[k]),
        forall|k: int| 0 <= k < second.len() ==> separator(#[trigger] second[k]),
    ensures
        parsed(a + first + b) == parsed(a + second + b),
{
    law_separator_runs(a, first, second, b);
}

/// The keys of the first `groups` triples differ from one another.
pub open spec fn keys_differ(toks: Seq<Text>, groups: nat) -> bool {
    forall|i: int, j: int| 0 <= i < j < groups ==> #[trigger] toks[3 * i] != #[trigger] toks[3 * j]
}

/// Where no key repeats, every triple becomes an entry, in the order of the text.
pub proof fn lemma_grouped_in_order(toks: Seq<Text>, groups: nat)
    requires
        3 * groups <= toks.len(),
        keys_differ(toks, groups),
    ensures
        grouped(toks, groups).len() == groups,
        forall|k: int|
            0 <= k < groups ==> #[trigger] grouped(toks, groups)[k] == (toks[3 * k], toks[3 * k + 2]),
    decreases groups,
{
    if groups > 0 {
        let k = groups - 1;
        lemma_grouped_in_order(toks, k as nat);
        let before = grouped(toks, k as nat);
        if has_key(before, toks[3 * k]) {
            let i = choose|i: int| 0 <= i < before.len() && (#[trigger] before[i]).0 == toks[3 * k];
            assert(before[i] == (toks[3 * i], toks[3 * i + 2]));
            assert(toks[3 * i] != toks[3 * k]);
        }
    }
}

/// A well-formed text of `n` triples with `n` different keys parses to a store
/// of exactly `n` entries, in the order in which the text gives them.
pub proof fn law_entries_in_order(text: Text, n: nat)
    requires
        well_grouped(tokens(text)),
        tokens(text).len() == 3 * n,
        keys_differ(tokens(text), n),
    ensures
        parsed(text) is Ok,
        parsed(text)->Ok_0.len() == n,
        forall|k: int|
            0 <= k < n ==> #[trigger] parsed(text)->Ok_0[k] == (
                tokens(text)[3 * k],
                tokens(text)[3 * k + 2],
            ),
{
    law_accepts_well_grouped(tokens(text));
    lemma_grouped_in_order(tokens(text), n);
}

/// Parses a configuration text into a store.
pub fn parse_config(text: &str) -> (outcome: Result<ConfigStore, SyntaxError>)
    ensures
        match outcome {
            Ok(store) => parsed(text@) == Ok::<Entries, SyntaxError>(store@),
            Err(fault) => parsed(text@) == Err::<Entries, SyntaxError>(fault),
        },
{
    let toks = tokenize(text);
    parse_tokens(toks)
}

/// Groups tokens into a store.
pub fn parse_tokens(toks: Vec<String>) -> (outcome: Result<ConfigStore, SyntaxError>)
    ensures
        match outcome {
            Ok(store) => syntax_fault(texts(toks@)) is None && store@ == grouped(
                texts(toks@),
                (toks.len() / 3) as nat,
            ),
            Err(fault) => syntax_fault(texts(toks@)) == Some(fault),
        },
{
    let ghost all = texts(toks@);
    let n: usize = toks.len();
    let equals = String::from_str("=");
    proof {
        reveal_strlit("=");
        assert(equals@ =~= equals_sign());
    }
    let mut store = ConfigStore::new();
    let mut at: usize = 0;
    while at < n
        invariant
            n == toks.len(),
            all == texts(toks@),
            equals@ == equals_sign(),
            at <= n,
            at % 3 == 0,
            syntax_fault(all) == fault_from(all, at as int / 3),
            store@ == grouped(all, (at / 3) as nat),
        decreases n - at,
    {
        let ghost k: int = at as int / 3;
        assert(3 * k == at);
        if n - at < 2 {
            return Err(SyntaxError { reason: SyntaxReason::ExpectedEquals, token_index: at + 1 });
        }
        if n - at < 3 {
            return Err(SyntaxError { reason: SyntaxReason::ExpectedValue, token_index: at + 2 });
        }
        assert(all[3 * k + 1] == toks@[at + 1]@);
        if toks[at + 1] != equals {
            return Err(SyntaxError { reason: SyntaxReason::ExpectedEquals, token_index: at + 1 });
        }
        assert(all[3 * k] == toks@[at as int]@);
        assert(all[3 * k + 2] == toks@[at + 2]@);
        store.insert(toks[at].clone(), toks[at + 2].clone());
        at += 3;
        assert(at as int / 3 == k + 1);
    }
    assert(at == n);
    Ok(store)
}

/// A key that the loader cannot do without.
#[derive(Debug, Clone, Copy, PartialEq, Eq, Structural)]
pub enum RequiredKey {
    /// `esp`: the volume that holds the kernel.
    Volume,
    /// `kernel`: the path of the kernel image on that volume.
    Kernel,
}

/// A required key is absent from the configuration.
#[derive(Debug, Clone, Copy, PartialEq, Eq, Structural)]
pub struct MissingKeyError {
    pub key: RequiredKey,
}

/// The key under which the volume is named.
pub open spec fn volume_key() -> Text {
    seq!['e', 's', 'p']
}

/// The key under which the kernel image is named.
pub open spec fn kernel_key() -> Text {
    seq!['k', 'e', 'r', 'n', 'e', 'l']
}

/// The first required key that `entries` lacks.
pub open spec fn missing_key(entries: Entries) -> Option<RequiredKey> {
    if !has_key(entries, volume_key()) {
        Some(RequiredKey::Volume)
    } else if !has_key(entries, kernel_key()) {
        Some(RequiredKey::Kernel)
    } else {
        None
    }
}

/// What is left for the kernel: the entries that are not the loader's own.
pub open spec fn kernel_entries(entries: Entries) -> Entries {
    removed(removed(entries, volume_key()), kernel_key())
}

/// What the loader takes from the configuration.
#[derive(Debug)]
pub struct BootConfig {
    /// The volume that holds the kernel.
    pub volume: String,
    /// The path of the kernel image.
    pub kernel_path: String,
    /// The other entries, which go to the kernel.
    pub kernel_args: ConfigStore,
}

impl BootConfig {
    /// Takes the required values out of `store`.
    pub fn from_store(store: ConfigStore) -> (outcome: Result<BootConfig, MissingKeyError>)
        ensures
            match outcome {
                Ok(config) => {
                    &&& missing_key(store@) is None
                    &&& lookup(store@, volume_key()) == Some(config.volume@)
                    &&& lookup(store@, kernel_key()) == Some(config.kernel_path@)
                    &&& config.kernel_args@ == kernel_entries(store@)
                },
                Err(fault) => missing_key(store@) == Some(fault.key),
            },
    {
        proof {
            reveal_strlit("esp");
            reveal_strlit("kernel");
            assert("esp"@ =~= volume_key());
            assert("kernel"@ =~= kernel_key());
        }
        let mut store = store;
        let volume = match store.get("esp") {
            Some(value) => value.clone(),
            None => {
                return Err(MissingKeyError { key: RequiredKey::Volume });
            },
        };
        let kernel_path = match store.get("kernel") {
            Some(value) => value.clone(),
            None => {
                return Err(MissingKeyError { key: RequiredKey::Kernel });
            },
        };
        let _ = store.remove("esp");
        let _ = store.remove("kernel");
        Ok(BootConfig { volume, kernel_path, kernel_args: store })
    }
}

} // verus!
