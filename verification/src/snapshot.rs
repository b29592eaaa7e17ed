//! Validator set snapshots.
//!
//! A snapshot records, at a given block, the validator set, the signers
//! authorised by it, which signer produced each recent block, and the system
//! contract addresses in force.

use crate::types::{lemma_address_ext, Address, SystemContracts, B256};
use std::collections::HashMap;
use vstd::prelude::*;

verus! {

broadcast use vstd::std_specs::hash::group_hash_axioms;

/// A validator set snapshot at a specific block.
#[derive(Clone, Debug)]
pub struct KubSnapshot {
    /// Block number this snapshot was taken at.
    pub number: u64,
    /// Block hash this snapshot corresponds to.
    pub hash: B256,
    /// The authorised signers: the distinct validator addresses.
    pub signers: Vec<Address>,
    /// Ordered list of validators.
    pub validators: Vec<Address>,
    /// Recent signer mapping: block number to the address that signed it.
    pub recents: HashMap<u64, Address>,
    /// Current system contract addresses.
    pub system_contracts: SystemContracts,
}

/// `signers` lists each address of `validators` exactly once.
pub open spec fn signers_of(signers: Seq<Address>, validators: Seq<Address>) -> bool {
    &&& signers.no_duplicates()
    &&& forall|a: Address| signers.contains(a) <==> validators.contains(a)
}

/// The recency window length for `n` signers: `n / 2 + 1` blocks.
pub open spec fn recency_limit(num_signers: nat) -> nat {
    num_signers / 2 + 1
}

/// First block of the recency window that ends just before `block_number`.
pub open spec fn window_start(block_number: u64, limit: nat) -> int {
    if block_number >= limit {
        block_number - limit + 1
    } else {
        0
    }
}

/// The recent signers kept after recording block `number` with window `limit`:
/// blocks at or before `number - limit` are forgotten.
pub open spec fn pruned_recents(recents: Map<u64, Address>, number: u64, limit: nat) -> Map<
    u64,
    Address,
> {
    if number >= limit {
        recents.restrict(Set::new(|k: u64| k > number - limit))
    } else {
        recents
    }
}

/// `recents` records `signer` for some block of the window of length `limit` that
/// ends just before `block_number`.
pub open spec fn signed_in_window(
    recents: Map<u64, Address>,
    signer: Address,
    block_number: u64,
    limit: nat,
) -> bool {
    exists|num: u64|
        window_start(block_number, limit) <= num < block_number && #[trigger] recents.contains_key(
            num,
        ) && recents[num] == signer
}

impl KubSnapshot {
    /// The snapshot is consistent: its signers are exactly its distinct validators.
    pub open spec fn wf(&self) -> bool {
        signers_of(self.signers@, self.validators@)
    }

    /// `signer` signed some block of the recency window ending before `block_number`.
    pub open spec fn spec_recently_signed(&self, signer: Address, block_number: u64) -> bool {
        let limit = recency_limit(self.signers@.len());
        &&& self.signers@.len() > 0
        &&& signed_in_window(self.recents@, signer, block_number, limit)
    }

    /// Creates a new snapshot at the given block, authorising the distinct validators
    /// and with no recent signers.
    pub fn new(
        number: u64,
        hash: B256,
        validators: Vec<Address>,
        system_contracts: SystemContracts,
    ) -> (r: Self)
        ensures
            r.wf(),
            r.number == number,
            r.hash == hash,
            r.validators@ == validators@,
            r.recents@ == Map::<u64, Address>::empty(),
            r.system_contracts == system_contracts,
    {
        let signers = distinct_addresses(&validators);
        KubSnapshot { number, hash, signers, validators, recents: HashMap::new(), system_contracts }
    }

    /// Returns true if the given address is an authorised signer.
    pub fn is_authorized(&self, addr: &Address) -> (r: bool)
        ensures
            r == self.signers@.contains(*addr),
            self.wf() ==> (r == self.validators@.contains(*addr)),
    {
        contains_address(&self.signers, addr)
    }

    /// Returns the number of authorised signers.
    pub fn num_signers(&self) -> (r: usize)
        ensures
            r == self.signers@.len(),
    {
        self.signers.len()
    }

    /// The in-turn signer for a block: the validator at `block_number % num_validators`,
    /// or `None` when there are no validators.
    pub fn in_turn_signer(&self, block_number: u64) -> (r: Option<&Address>)
        ensures
            self.validators@.len() == 0 ==> r is None,
            self.validators@.len() > 0 ==> r == Some(
                &self.validators@[((block_number as usize) as nat % self.validators@.len()) as int],
            ),
    {
        if self.validators.len() == 0 {
            return None;
        }
        let idx = (block_number as usize) % self.validators.len();
        Some(&self.validators[idx])
    }

    /// Returns true if `signer` signed a block within the recency window
    /// (`num_signers / 2 + 1` blocks) ending just before `block_number`.
    pub fn is_recently_signed(&self, signer: &Address, block_number: u64) -> (r: bool)
        ensures
            r == self.spec_recently_signed(*signer, block_number),
    {
        if self.signers.len() == 0 {
            return false;
        }
        let limit = self.signers.len() / 2 + 1;
        let ghost lim = recency_limit(self.signers@.len());
        let start: u64 = if block_number >= limit as u64 {
            block_number - limit as u64 + 1
        } else {
            0
        };
        assert(start == window_start(block_number, lim));
        let mut num = start;
        while num < block_number
            invariant
                start <= num <= block_number,
                start == window_start(block_number, lim),
                lim == recency_limit(self.signers@.len()),
                self.signers@.len() > 0,
                forall|k: u64|
                    start <= k < num ==> !(#[trigger] self.recents@.contains_key(k) && self.recents@[k]
                        == *signer),
            decreases block_number - num,
        {
            match self.recents.get(&num) {
                Some(recent_signer) => {
                    if same_address(recent_signer, signer) {
                        return true;
                    }
                },
                None => {},
            }
            num = num + 1;
        }
        false
    }

    /// Records that `signer` signed block `number` (with hash `hash`), forgetting
    /// recent signers that fall out of the recency window.
    pub fn apply(&self, number: u64, hash: B256, signer: Address) -> (r: Self)
        ensures
            r.number == number,
            r.hash == hash,
            r.signers@ == self.signers@,
            r.validators@ == self.validators@,
            r.system_contracts == self.system_contracts,
            r.recents@ == pruned_recents(
                self.recents@.insert(number, signer),
                number,
                recency_limit(self.signers@.len()),
            ),
    {
        let mut recents = self.recents.clone();
        recents.insert(number, signer);
        let limit = self.signers.len() / 2 + 1;
        if number >= limit as u64 {
            let prune_before = number - limit as u64;
            retain_after(&mut recents, prune_before);
        }
        KubSnapshot {
            number,
            hash,
            signers: copy_addresses(&self.signers),
            validators: copy_addresses(&self.validators),
            recents,
            system_contracts: self.system_contracts,
        }
    }

    /// Replaces the validator set and system contracts (at span boundaries) and
    /// forgets all recent signers.
    pub fn update_validators(&mut self, validators: Vec<Address>, system_contracts: SystemContracts)
        ensures
            final(self).wf(),
            final(self).number == old(self).number,
            final(self).hash == old(self).hash,
            final(self).validators@ == validators@,
            final(self).system_contracts == system_contracts,
            final(self).recents@ == Map::<u64, Address>::empty(),
    {
        self.signers = distinct_addresses(&validators);
        self.validators = validators;
        self.system_contracts = system_contracts;
        self.recents.clear();
    }
}

/// A signer that just signed block `number` counts as recently signed for the next
/// block, as long as the snapshot authorises at least two signers (with a single
/// signer the recency window is empty).
pub proof fn lemma_apply_then_recently_signed(
    snap: KubSnapshot,
    next: KubSnapshot,
    number: u64,
    hash: B256,
    signer: Address,
)
    requires
        snap.signers@.len() >= 2,
        number < u64::MAX,
        next.signers@ == snap.signers@,
        next.recents@ == pruned_recents(
            snap.recents@.insert(number, signer),
            number,
            recency_limit(snap.signers@.len()),
        ),
    ensures
        next.spec_recently_signed(signer, (number + 1) as u64),
{
    let limit = recency_limit(snap.signers@.len());
    assert(next.recents@.contains_key(number));
    assert(next.recents@[number] == signer);
    assert(window_start((number + 1) as u64, limit) <= number);
}

/// After recording block `number`, no recent signer is older than the recency window:
/// every remembered block is after `number - limit` (when `number >= limit`) and every
/// earlier entry is kept unchanged.
pub proof fn lemma_apply_window(snap: KubSnapshot, number: u64, signer: Address)
    ensures
        ({
            let limit = recency_limit(snap.signers@.len());
            let kept = pruned_recents(snap.recents@.insert(number, signer), number, limit);
            &&& kept.contains_key(number) && kept[number] == signer
            &&& forall|k: u64| #[trigger]
                kept.contains_key(k) ==> (number >= limit ==> k > number - limit)
            &&& forall|k: u64|
                #[trigger] snap.recents@.contains_key(k) && k != number && (number < limit || k
                    > number - limit) ==> kept.contains_key(k) && kept[k] == snap.recents@[k]
        }),
{
}

/// Forgetting old recent signers when recording block `number` changes no later
/// recency check: for every later block, a signer is in the recency window of the
/// pruned map exactly when it is in that of the full map.
pub proof fn lemma_pruning_keeps_recency(
    snap: KubSnapshot,
    number: u64,
    signer: Address,
    other: Address,
    block_number: u64,
)
    requires
        number < block_number,
    ensures
        ({
            let limit = recency_limit(snap.signers@.len());
            let full = snap.recents@.insert(number, signer);
            signed_in_window(pruned_recents(full, number, limit), other, block_number, limit)
                == signed_in_window(full, other, block_number, limit)
        }),
{
    let limit = recency_limit(snap.signers@.len());
    let full = snap.recents@.insert(number, signer);
    let kept = pruned_recents(full, number, limit);
    if signed_in_window(full, other, block_number, limit) {
        let num = choose|num: u64|
            window_start(block_number, limit) <= num < block_number && #[trigger] full.contains_key(
                num,
            ) && full[num] == other;
        assert(kept.contains_key(num));
    }
    if signed_in_window(kept, other, block_number, limit) {
        let num = choose|num: u64|
            window_start(block_number, limit) <= num < block_number && #[trigger] kept.contains_key(
                num,
            ) && kept[num] == other;
        assert(full.contains_key(num));
    }
}

/// A snapshot with no recent signers reports no signer as recently signed; in
/// particular right after [`KubSnapshot::new`] or [`KubSnapshot::update_validators`].
pub proof fn lemma_no_recents_not_recently_signed(snap: KubSnapshot, signer: Address, block_number: u64)
    requires
        snap.recents@ == Map::<u64, Address>::empty(),
    ensures
        !snap.spec_recently_signed(signer, block_number),
{
}

/// The in-turn signer of a consistent snapshot is always an authorised signer.
pub proof fn lemma_in_turn_signer_authorized(snap: KubSnapshot, block_number: u64)
    requires
        snap.wf(),
        snap.validators@.len() > 0,
    ensures
        snap.signers@.contains(
            snap.validators@[((block_number as usize) as nat % snap.validators@.len()) as int],
        ),
{
    let i = ((block_number as usize) as nat % snap.validators@.len()) as int;
    assert(snap.validators@.contains(snap.validators@[i]));
}

/// Keeps a recent-signer entry for block `k` when it is after `bound`.
pub(crate) fn is_after(k: u64, bound: u64) -> (r: bool)
    ensures
        r == (k > bound),
{
    k > bound
}

/// Removes the recent-signer entries at or before block `bound`, using
/// `HashMap::retain`, which keeps exactly the entries its predicate accepts.
#[verifier::external_body]
fn retain_after(m: &mut HashMap<u64, Address>, bound: u64)
    ensures
        final(m)@ == old(m)@.restrict(Set::new(|k: u64| k > bound)),
{
    m.retain(|k, _| is_after(*k, bound))
}

/// Whether two addresses are equal.
fn same_address(a: &Address, b: &Address) -> (r: bool)
    ensures
        r == (*a == *b),
{
    let r = *a == *b;
    proof {
        if a.bytes@ == b.bytes@ {
            lemma_address_ext(*a, *b);
        }
    }
    r
}

/// Whether `a` occurs in `v`.
fn contains_address(v: &Vec<Address>, a: &Address) -> (r: bool)
    ensures
        r == v@.contains(*a),
{
    let mut i: usize = 0;
    while i < v.len()
        invariant
            i <= v@.len(),
            forall|j: int| 0 <= j < i ==> v@[j] != *a,
        decreases v@.len() - i,
    {
        if same_address(&v[i], a) {
            return true;
        }
        i = i + 1;
    }
    false
}

/// The addresses of `v`, in order.
fn copy_addresses(v: &Vec<Address>) -> (r: Vec<Address>)
    ensures
        r@ == v@,
{
    let mut out: Vec<Address> = Vec::new();
    let mut i: usize = 0;
    while i < v.len()
        invariant
            i <= v@.len(),
            out@ == v@.take(i as int),
        decreases v@.len() - i,
    {
        out.push(v[i]);
        i = i + 1;
        assert(out@ =~= v@.take(i as int));
    }
    assert(v@.take(i as int) =~= v@);
    out
}

/// The distinct addresses of `v`, each once, in order of first occurrence.
fn distinct_addresses(v: &Vec<Address>) -> (r: Vec<Address>)
    ensures
        signers_of(r@, v@),
{
    let mut out: Vec<Address> = Vec::new();
    let mut i: usize = 0;
    while i < v.len()
        invariant
            i <= v@.len(),
            out@.no_duplicates(),
            forall|a: Address| out@.contains(a) <==> v@.take(i as int).contains(a),
        decreases v@.len() - i,
    {
        let a = v[i];
        let ghost before = out@;
        if !contains_address(&out, &a) {
            out.push(a);
            proof {
                assert forall|x: int, y: int|
                    0 <= x < out@.len() && 0 <= y < out@.len() && x != y implies out@[x] != out@[y] by {
                    if x == before.len() as int {
                        assert(before.contains(out@[y]));
                    } else if y == before.len() as int {
                        assert(before.contains(out@[x]));
                    }
                }
            }
        }
        i = i + 1;
        proof {
            assert forall|b: Address| out@.contains(b) <==> v@.take(i as int).contains(b) by {
                if v@.take(i as int).contains(b) {
                    let j = choose|j: int| 0 <= j < i && #[trigger] v@.take(i as int)[j] == b;
                    if j < i - 1 {
                        assert(v@.take(i - 1)[j] == b);
                        assert(v@.take(i - 1).contains(b));
                        assert(before.contains(b));
                        let k = choose|k: int| 0 <= k < before.len() && #[trigger] before[k] == b;
                        assert(out@[k] == b);
                    } else {
                        assert(b == a);
                        if !before.contains(a) {
                            assert(out@[out@.len() - 1] == a);
                        } else {
                            let k = choose|k: int| 0 <= k < before.len() && #[trigger] before[k] == a;
                            assert(out@[k] == a);
                        }
                    }
                }
                if out@.contains(b) {
                    let j = choose|j: int| 0 <= j < out@.len() && #[trigger] out@[j] == b;
                    if j < before.len() {
                        assert(before[j] == b);
                        assert(before.contains(b));
                        assert(v@.take(i - 1).contains(b));
                        let k = choose|k: int| 0 <= k < i - 1 && #[trigger] v@.take(i - 1)[k] == b;
                        assert(v@.take(i as int)[k] == b);
                    } else {
                        assert(v@.take(i as int)[i - 1] == a);
                    }
                }
            }
        }
    }
    assert(v@.take(i as int) =~= v@);
    out
}

} // verus!
