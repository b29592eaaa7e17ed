//! Weighted random validator selection for KubChain PoSA.
//!
//! For each position a random number in `[0, total_weight)` is drawn from the
//! seed, the validator whose cumulative-weight range holds it is found by
//! binary search and removed from the candidates, and the seed is re-hashed.

use crate::types::{Address, Validator, B256};
use crate::u256::{
    be_value, from_be_bytes, is_zero, keccak256, keccak256_digest, le, rem, u256_modulus,
    wrapping_add, U256,
};
use vstd::prelude::*;

verus! {

/// Number of blocks to look back for the random seed.
pub const SEED_LOOKBACK: u64 = 5;

/// Sum of the voting powers of the first `n` validators of `vs`.
pub open spec fn power_sum(vs: Seq<Validator>, n: int) -> nat
    decreases n,
{
    if n <= 0 {
        0
    } else {
        power_sum(vs, n - 1) + vs[n - 1].voting_power.value()
    }
}

/// Cumulative weights modulo 2^256: entry `i` is the sum of the first `i + 1` powers.
pub open spec fn cumulative_weights(vs: Seq<Validator>) -> Seq<nat> {
    Seq::new(vs.len(), |i: int| power_sum(vs, i + 1) % u256_modulus())
}

/// The values of a sequence of 256-bit integers.
pub open spec fn values(ws: Seq<U256>) -> Seq<nat> {
    ws.map_values(|w: U256| w.value())
}

/// Binary search on `ws[lo..hi]` for the boundary after the entries `<= target`:
/// probe the middle entry, keep the upper half when it is `<= target`, else the lower half.
pub open spec fn search_from(ws: Seq<nat>, target: nat, lo: int, hi: int) -> int
    decreases hi - lo,
{
    if lo >= hi {
        lo
    } else {
        let mid = lo + (hi - lo) / 2;
        if ws[mid] <= target {
            search_from(ws, target, mid + 1, hi)
        } else {
            search_from(ws, target, lo, mid)
        }
    }
}

/// The index picked for `target`: the search boundary over the whole sequence,
/// clamped to the last index.
pub open spec fn search_index(ws: Seq<nat>, target: nat) -> int {
    let lo = search_from(ws, target, 0, ws.len() as int);
    if lo < ws.len() - 1 {
        lo
    } else {
        ws.len() - 1
    }
}

/// The validators chosen from `cands` with seed bytes `seed` for `count` positions:
/// stop when no position or candidate is left or the total weight is zero; otherwise
/// pick the candidate at `search_index(weights, seed % total)`, remove it, and
/// continue with the Keccak-256 hash of the seed.
pub open spec fn selection(cands: Seq<Validator>, seed: Seq<u8>, count: nat) -> Seq<Validator>
    decreases count,
{
    if count == 0 || cands.len() == 0 {
        seq![]
    } else {
        let ws = cumulative_weights(cands);
        let total = ws.last();
        if total == 0 {
            seq![]
        } else {
            let idx = search_index(ws, be_value(seed) % total);
            seq![cands[idx]] + selection(cands.remove(idx), keccak256_digest(seed), (count - 1) as nat)
        }
    }
}

/// The positions in `cands` of the validators that [`selection`] picks, in order.
pub open spec fn selection_positions(cands: Seq<Validator>, seed: Seq<u8>, count: nat) -> Seq<int>
    decreases count,
{
    if count == 0 || cands.len() == 0 {
        seq![]
    } else {
        let ws = cumulative_weights(cands);
        let total = ws.last();
        if total == 0 {
            seq![]
        } else {
            let idx = search_index(ws, be_value(seed) % total);
            seq![idx] + selection_positions(
                cands.remove(idx),
                keccak256_digest(seed),
                (count - 1) as nat,
            ).map_values(|j: int| if j < idx { j } else { j + 1 })
        }
    }
}

/// The number of validators with positive voting power among the first `n` of `vs`.
pub open spec fn positive_count(vs: Seq<Validator>, n: int) -> nat
    decreases n,
{
    if n <= 0 {
        0
    } else {
        positive_count(vs, n - 1) + if vs[n - 1].voting_power.value() > 0 {
            1nat
        } else {
            0nat
        }
    }
}

/// The search boundary stays within `[lo, hi]`.
pub proof fn lemma_search_from_bounds(ws: Seq<nat>, target: nat, lo: int, hi: int)
    requires
        lo <= hi,
    ensures
        lo <= search_from(ws, target, lo, hi) <= hi,
    decreases hi - lo,
{
    if lo < hi {
        let mid = lo + (hi - lo) / 2;
        if ws[mid] <= target {
            lemma_search_from_bounds(ws, target, mid + 1, hi);
        } else {
            lemma_search_from_bounds(ws, target, lo, mid);
        }
    }
}

/// The picked index is a valid index of a non-empty sequence.
pub proof fn lemma_search_index_bounds(ws: Seq<nat>, target: nat)
    requires
        ws.len() > 0,
    ensures
        0 <= search_index(ws, target) < ws.len(),
{
    lemma_search_from_bounds(ws, target, 0, ws.len() as int);
}

/// The addresses of a sequence of validators.
pub open spec fn addresses(vs: Seq<Validator>) -> Seq<Address> {
    vs.map_values(|v: Validator| v.address)
}

/// A sequence of weights is non-decreasing.
pub open spec fn non_decreasing(ws: Seq<nat>) -> bool {
    forall|i: int, j: int| 0 <= i <= j < ws.len() ==> ws[i] <= ws[j]
}

/// Prefix sums of voting power never decrease.
pub proof fn lemma_power_sum_monotone(vs: Seq<Validator>, a: int, b: int)
    requires
        0 <= a <= b,
    ensures
        power_sum(vs, a) <= power_sum(vs, b),
    decreases b - a,
{
    if a < b {
        lemma_power_sum_monotone(vs, a, b - 1);
    }
}

/// Removing the validator at `idx` removes exactly its power from the prefix sums.
proof fn lemma_power_sum_remove(vs: Seq<Validator>, idx: int, n: int)
    requires
        0 <= idx < vs.len(),
        0 <= n <= vs.len() - 1,
    ensures
        n <= idx ==> power_sum(vs.remove(idx), n) == power_sum(vs, n),
        n > idx ==> power_sum(vs.remove(idx), n) + vs[idx].voting_power.value() == power_sum(
            vs,
            n + 1,
        ),
    decreases n,
{
    if n > 0 {
        lemma_power_sum_remove(vs, idx, n - 1);
        let rem = vs.remove(idx);
        assert(power_sum(rem, n) == power_sum(rem, n - 1) + rem[n - 1].voting_power.value());
        if n > idx {
            assert(rem[n - 1] == vs[n]);
            assert(power_sum(vs, n + 1) == power_sum(vs, n) + vs[n].voting_power.value());
            if n - 1 == idx {
                assert(power_sum(vs, n) == power_sum(vs, n - 1) + vs[idx].voting_power.value());
            }
        } else {
            assert(rem[n - 1] == vs[n - 1]);
        }
    }
}

/// On a non-decreasing sequence the search boundary separates the entries
/// `<= target` from those `> target`.
proof fn lemma_search_from_sorted(ws: Seq<nat>, target: nat, lo: int, hi: int)
    requires
        non_decreasing(ws),
        0 <= lo <= hi <= ws.len(),
        forall|i: int| 0 <= i < lo ==> ws[i] <= target,
        forall|i: int| hi <= i < ws.len() ==> ws[i] > target,
    ensures
        ({
            let r = search_from(ws, target, lo, hi);
            &&& forall|i: int| 0 <= i < r ==> ws[i] <= target
            &&& forall|i: int| r <= i < ws.len() ==> ws[i] > target
        }),
    decreases hi - lo,
{
    if lo < hi {
        let mid = lo + (hi - lo) / 2;
        if ws[mid] <= target {
            lemma_search_from_sorted(ws, target, mid + 1, hi);
        } else {
            lemma_search_from_sorted(ws, target, lo, mid);
        }
    }
}

/// Binary search on sorted weights: when some weight exceeds `target`, the picked
/// index is the first such weight; otherwise it is the last index.
pub proof fn lemma_search_index_sorted(ws: Seq<nat>, target: nat)
    requires
        ws.len() > 0,
        non_decreasing(ws),
    ensures
        ({
            let r = search_index(ws, target);
            &&& 0 <= r < ws.len()
            &&& forall|i: int| 0 <= i < r ==> ws[i] <= target
            &&& target < ws.last() ==> ws[r] > target
            &&& target >= ws.last() ==> r == ws.len() - 1
        }),
{
    lemma_search_from_sorted(ws, target, 0, ws.len() as int);
    lemma_search_index_bounds(ws, target);
}

/// Without wrap-around, the cumulative weights are the plain prefix sums and are sorted.
pub proof fn lemma_cumulative_no_wrap(vs: Seq<Validator>)
    requires
        power_sum(vs, vs.len() as int) < u256_modulus(),
    ensures
        forall|i: int|
            0 <= i < vs.len() ==> #[trigger] cumulative_weights(vs)[i] == power_sum(vs, i + 1),
        non_decreasing(cumulative_weights(vs)),
{
    assert forall|i: int| 0 <= i < vs.len() implies #[trigger] cumulative_weights(vs)[i]
        == power_sum(vs, i + 1) by {
        lemma_power_sum_monotone(vs, i + 1, vs.len() as int);
        vstd::arithmetic::div_mod::lemma_small_mod(power_sum(vs, i + 1), u256_modulus());
    }
    assert forall|i: int, j: int| 0 <= i <= j < vs.len() implies cumulative_weights(vs)[i]
        <= cumulative_weights(vs)[j] by {
        lemma_power_sum_monotone(vs, i + 1, j + 1);
        assert(cumulative_weights(vs)[i] == power_sum(vs, i + 1));
        assert(cumulative_weights(vs)[j] == power_sum(vs, j + 1));
    }
}

/// Weighted pick: when the total power does not wrap around and `target` is below it,
/// the picked validator is the one whose cumulative-weight range
/// `[power_sum(idx), power_sum(idx + 1))` holds `target`.
pub proof fn lemma_pick_in_weight_range(vs: Seq<Validator>, target: nat)
    requires
        vs.len() > 0,
        power_sum(vs, vs.len() as int) < u256_modulus(),
        target < power_sum(vs, vs.len() as int),
    ensures
        ({
            let idx = search_index(cumulative_weights(vs), target);
            &&& 0 <= idx < vs.len()
            &&& power_sum(vs, idx) <= target < power_sum(vs, idx + 1)
        }),
{
    let ws = cumulative_weights(vs);
    lemma_cumulative_no_wrap(vs);
    lemma_search_index_sorted(ws, target);
    let idx = search_index(ws, target);
    assert(ws.last() == power_sum(vs, vs.len() as int));
    assert(ws[idx] == power_sum(vs, idx + 1));
    if idx > 0 {
        assert(ws[idx - 1] == power_sum(vs, idx));
    }
}

/// Every selected validator is one of the candidates, and no more validators are
/// selected than positions or candidates.
pub proof fn lemma_selection_members(cands: Seq<Validator>, seed: Seq<u8>, count: nat)
    ensures
        ({
            let sel = selection(cands, seed, count);
            &&& sel.len() <= count
            &&& sel.len() <= cands.len()
            &&& forall|j: int| 0 <= j < sel.len() ==> cands.contains(#[trigger] sel[j])
        }),
    decreases count,
{
    if count > 0 && cands.len() > 0 {
        let ws = cumulative_weights(cands);
        let total = ws.last();
        if total != 0 {
            let idx = search_index(ws, be_value(seed) % total);
            lemma_search_index_bounds(ws, be_value(seed) % total);
            let rest = cands.remove(idx);
            let next = keccak256_digest(seed);
            lemma_selection_members(rest, next, (count - 1) as nat);
            let sel = selection(cands, seed, count);
            let tail = selection(rest, next, (count - 1) as nat);
            assert(sel == seq![cands[idx]] + tail);
            assert forall|j: int| 0 <= j < sel.len() implies cands.contains(#[trigger] sel[j]) by {
                if j == 0 {
                    assert(sel[0] == cands[idx]);
                } else {
                    assert(sel[j] == tail[j - 1]);
                    assert(rest.contains(tail[j - 1]));
                    let k = choose|k: int| 0 <= k < rest.len() && rest[k] == tail[j - 1];
                    if k < idx {
                        assert(cands[k] == rest[k]);
                    } else {
                        assert(cands[k + 1] == rest[k]);
                    }
                }
            }
        }
    }
}

/// When the candidates have distinct addresses, so do the selected validators.
pub proof fn lemma_selection_distinct(cands: Seq<Validator>, seed: Seq<u8>, count: nat)
    requires
        addresses(cands).no_duplicates(),
    ensures
        addresses(selection(cands, seed, count)).no_duplicates(),
    decreases count,
{
    let sel = selection(cands, seed, count);
    if count > 0 && cands.len() > 0 {
        let ws = cumulative_weights(cands);
        let total = ws.last();
        if total != 0 {
            let idx = search_index(ws, be_value(seed) % total);
            lemma_search_index_bounds(ws, be_value(seed) % total);
            let rest = cands.remove(idx);
            let next = keccak256_digest(seed);
            assert forall|a: int, b: int|
                0 <= a < rest.len() && 0 <= b < rest.len() && a != b implies addresses(rest)[a]
                != addresses(rest)[b] by {
                let ia = if a < idx { a } else { a + 1 };
                let ib = if b < idx { b } else { b + 1 };
                assert(addresses(cands)[ia] != addresses(cands)[ib]);
            }
            lemma_selection_distinct(rest, next, (count - 1) as nat);
            lemma_selection_members(rest, next, (count - 1) as nat);
            let tail = selection(rest, next, (count - 1) as nat);
            assert(sel == seq![cands[idx]] + tail);
            assert forall|a: int, b: int|
                0 <= a < sel.len() && 0 <= b < sel.len() && a != b implies addresses(sel)[a]
                != addresses(sel)[b] by {
                if a == 0 || b == 0 {
                    let j = if a == 0 { b } else { a };
                    assert(sel[j] == tail[j - 1]);
                    assert(rest.contains(tail[j - 1]));
                    let k = choose|k: int| 0 <= k < rest.len() && rest[k] == tail[j - 1];
                    let ik = if k < idx { k } else { k + 1 };
                    assert(cands[ik] == rest[k]);
                    assert(addresses(cands)[ik] != addresses(cands)[idx]);
                } else {
                    assert(addresses(sel)[a] == addresses(tail)[a - 1]);
                    assert(addresses(sel)[b] == addresses(tail)[b - 1]);
                }
            }
        }
    }
}

/// Removing the validator at `idx` removes it, and only it, from the count of
/// validators with positive power.
proof fn lemma_positive_count_remove(vs: Seq<Validator>, idx: int, n: int)
    requires
        0 <= idx < vs.len(),
        0 <= n <= vs.len() - 1,
    ensures
        n <= idx ==> positive_count(vs.remove(idx), n) == positive_count(vs, n),
        n > idx ==> positive_count(vs.remove(idx), n) + (if vs[idx].voting_power.value() > 0 {
            1nat
        } else {
            0nat
        }) == positive_count(vs, n + 1),
    decreases n,
{
    if n > 0 {
        lemma_positive_count_remove(vs, idx, n - 1);
        let rem = vs.remove(idx);
        if n > idx {
            assert(rem[n - 1] == vs[n]);
        } else {
            assert(rem[n - 1] == vs[n - 1]);
        }
    }
}

/// The total power is zero exactly when no validator has positive power.
proof fn lemma_power_sum_zero(vs: Seq<Validator>, n: int)
    requires
        0 <= n <= vs.len(),
    ensures
        (power_sum(vs, n) == 0) <==> (positive_count(vs, n) == 0),
    decreases n,
{
    if n > 0 {
        lemma_power_sum_zero(vs, n - 1);
    }
}

/// When the total power does not wrap around, one validator is selected per position
/// until the candidates with positive power run out: the selection holds the smaller
/// of `count` and the number of candidates with positive power.
pub proof fn lemma_selection_len(cands: Seq<Validator>, seed: Seq<u8>, count: nat)
    requires
        power_sum(cands, cands.len() as int) < u256_modulus(),
    ensures
        selection(cands, seed, count).len() == if count < positive_count(cands, cands.len() as int) {
            count
        } else {
            positive_count(cands, cands.len() as int)
        },
    decreases count,
{
    lemma_power_sum_zero(cands, cands.len() as int);
    if count > 0 && cands.len() > 0 {
        let ws = cumulative_weights(cands);
        lemma_cumulative_no_wrap(cands);
        assert(ws.last() == power_sum(cands, cands.len() as int));
        let total = ws.last();
        if total != 0 {
            let target = be_value(seed) % total;
            lemma_pick_in_weight_range(cands, target);
            let idx = search_index(ws, target);
            assert(power_sum(cands, idx + 1) == power_sum(cands, idx)
                + cands[idx].voting_power.value());
            let rest = cands.remove(idx);
            lemma_power_sum_remove(cands, idx, rest.len() as int);
            lemma_power_sum_monotone(cands, idx + 1, cands.len() as int);
            lemma_positive_count_remove(cands, idx, rest.len() as int);
            lemma_selection_len(rest, keccak256_digest(seed), (count - 1) as nat);
        }
    }
}

/// The selection picks distinct positions of the candidates: the validator selected
/// `k`-th is the candidate at position `selection_positions(..)[k]`, and no position
/// is picked twice.
pub proof fn lemma_selection_positions(cands: Seq<Validator>, seed: Seq<u8>, count: nat)
    ensures
        ({
            let sel = selection(cands, seed, count);
            let pos = selection_positions(cands, seed, count);
            &&& pos.len() == sel.len()
            &&& pos.no_duplicates()
            &&& forall|k: int|
                0 <= k < pos.len() ==> 0 <= #[trigger] pos[k] < cands.len() && sel[k] == cands[pos[k]]
        }),
    decreases count,
{
    if count > 0 && cands.len() > 0 {
        let ws = cumulative_weights(cands);
        let total = ws.last();
        if total != 0 {
            let idx = search_index(ws, be_value(seed) % total);
            lemma_search_index_bounds(ws, be_value(seed) % total);
            let rest = cands.remove(idx);
            let next = keccak256_digest(seed);
            lemma_selection_positions(rest, next, (count - 1) as nat);
            let sel = selection(cands, seed, count);
            let tail = selection(rest, next, (count - 1) as nat);
            let tpos = selection_positions(rest, next, (count - 1) as nat);
            let shifted = tpos.map_values(|j: int| if j < idx { j } else { j + 1 });
            let pos = selection_positions(cands, seed, count);
            assert(sel == seq![cands[idx]] + tail);
            assert(pos == seq![idx] + shifted);
            assert forall|k: int| 0 <= k < pos.len() implies 0 <= #[trigger] pos[k] < cands.len()
                && sel[k] == cands[pos[k]] by {
                if k > 0 {
                    let j = tpos[k - 1];
                    assert(pos[k] == shifted[k - 1]);
                    assert(sel[k] == tail[k - 1]);
                    if j < idx {
                        assert(rest[j] == cands[j]);
                    } else {
                        assert(rest[j] == cands[j + 1]);
                    }
                }
            }
            assert forall|a: int, b: int| 0 <= a < pos.len() && 0 <= b < pos.len() && a != b implies pos[a]
                != pos[b] by {
                if a > 0 && b > 0 {
                    assert(pos[a] == shifted[a - 1]);
                    assert(pos[b] == shifted[b - 1]);
                    assert(tpos[a - 1] != tpos[b - 1]);
                } else if a == 0 {
                    assert(pos[b] == shifted[b - 1]);
                } else {
                    assert(pos[a] == shifted[a - 1]);
                }
            }
        }
    }
}

/// When the total power does not wrap around, a validator with zero voting power is
/// never selected: every selected validator has positive power.
pub proof fn lemma_selection_positive_power(cands: Seq<Validator>, seed: Seq<u8>, count: nat)
    requires
        power_sum(cands, cands.len() as int) < u256_modulus(),
    ensures
        forall|i: int|
            0 <= i < selection(cands, seed, count).len() ==> #[trigger] selection(
                cands,
                seed,
                count,
            )[i].voting_power.value() > 0,
    decreases count,
{
    if count > 0 && cands.len() > 0 {
        let ws = cumulative_weights(cands);
        lemma_cumulative_no_wrap(cands);
        assert(ws.last() == power_sum(cands, cands.len() as int));
        let total = ws.last();
        if total != 0 {
            let target = be_value(seed) % total;
            lemma_pick_in_weight_range(cands, target);
            let idx = search_index(ws, target);
            assert(power_sum(cands, idx + 1) == power_sum(cands, idx)
                + cands[idx].voting_power.value());
            let rest = cands.remove(idx);
            lemma_power_sum_remove(cands, idx, rest.len() as int);
            lemma_power_sum_monotone(cands, idx + 1, cands.len() as int);
            let next_seed = keccak256_digest(seed);
            lemma_selection_positive_power(rest, next_seed, (count - 1) as nat);
            let sel = selection(cands, seed, count);
            let tail = selection(rest, next_seed, (count - 1) as nat);
            assert(sel == seq![cands[idx]] + tail);
            assert(cands[idx].voting_power.value() > 0);
            assert forall|i: int| 0 <= i < sel.len() implies #[trigger] sel[i].voting_power.value()
                > 0 by {
                if i > 0 {
                    assert(sel[i] == tail[i - 1]);
                    assert(tail[i - 1].voting_power.value() > 0);
                } else {
                    assert(sel[0] == cands[idx]);
                }
            }
        }
    }
}

/// The seed of the `k`-th pick: the given seed hashed `k` times with Keccak-256.
pub open spec fn nth_seed(seed: Seq<u8>, k: nat) -> Seq<u8>
    decreases k,
{
    if k == 0 {
        seed
    } else {
        keccak256_digest(nth_seed(seed, (k - 1) as nat))
    }
}

/// The position the weighted draw lands on among `cands` for `seed`: the seed's value
/// modulo the total weight, located in the cumulative weights.
pub open spec fn draw_index(cands: Seq<Validator>, seed: Seq<u8>) -> int {
    let ws = cumulative_weights(cands);
    search_index(ws, be_value(seed) % ws.last())
}

/// The candidates left after `k` draws from `cands`, the `j`-th drawn with the seed
/// hashed `j` times.
pub open spec fn remaining_after(cands: Seq<Validator>, seed: Seq<u8>, k: nat) -> Seq<Validator>
    decreases k,
{
    if k == 0 {
        cands
    } else {
        remaining_after(
            cands.remove(draw_index(cands, seed)),
            keccak256_digest(seed),
            (k - 1) as nat,
        )
    }
}

/// Hashing `k + 1` times is hashing once, then `k` times.
proof fn lemma_nth_seed_shift(seed: Seq<u8>, k: nat)
    ensures
        nth_seed(keccak256_digest(seed), k) == nth_seed(seed, k + 1),
    decreases k,
{
    assert(nth_seed(seed, k + 1) == keccak256_digest(nth_seed(seed, k)));
    if k > 0 {
        lemma_nth_seed_shift(seed, (k - 1) as nat);
        assert(nth_seed(keccak256_digest(seed), k) == keccak256_digest(
            nth_seed(keccak256_digest(seed), (k - 1) as nat),
        ));
    } else {
        assert(nth_seed(seed, 0) == seed);
    }
}

/// One draw and re-seeding: when a draw happens (a position and a candidate are left
/// and the total weight is positive), the first validator selected is the one the
/// draw with `seed` lands on, and the rest are what selecting one position fewer from
/// the other candidates gives with the Keccak-256 hash of `seed` as the new seed.
pub proof fn lemma_selection_reseeds(cands: Seq<Validator>, seed: Seq<u8>, count: nat)
    requires
        count > 0,
        cands.len() > 0,
        cumulative_weights(cands).last() > 0,
    ensures
        ({
            let idx = draw_index(cands, seed);
            let sel = selection(cands, seed, count);
            &&& sel.len() > 0
            &&& sel[0] == cands[idx]
            &&& sel.skip(1) == selection(cands.remove(idx), keccak256_digest(seed), (count - 1) as nat)
        }),
{
    let idx = draw_index(cands, seed);
    let sel = selection(cands, seed, count);
    let tail = selection(cands.remove(idx), keccak256_digest(seed), (count - 1) as nat);
    assert(sel == seq![cands[idx]] + tail);
    assert(sel.skip(1) =~= tail);
}

/// The `k`-th validator selected is the one the `k`-th draw lands on: the draw among
/// the candidates left after `k` draws, with the given seed hashed `k` times.
pub proof fn lemma_selection_kth_pick(cands: Seq<Validator>, seed: Seq<u8>, count: nat, k: nat)
    requires
        k < selection(cands, seed, count).len(),
    ensures
        selection(cands, seed, count)[k as int] == remaining_after(cands, seed, k)[draw_index(
            remaining_after(cands, seed, k),
            nth_seed(seed, k),
        )],
    decreases k,
{
    let sel = selection(cands, seed, count);
    assert(count > 0 && cands.len() > 0 && cumulative_weights(cands).last() != 0);
    lemma_selection_reseeds(cands, seed, count);
    if k > 0 {
        let idx = draw_index(cands, seed);
        let rest = cands.remove(idx);
        let next = keccak256_digest(seed);
        let tail = selection(rest, next, (count - 1) as nat);
        assert(sel.skip(1) == tail);
        assert(sel[k as int] == tail[k - 1]);
        lemma_selection_kth_pick(rest, next, (count - 1) as nat, (k - 1) as nat);
        lemma_nth_seed_shift(seed, (k - 1) as nat);
        assert(remaining_after(cands, seed, k) == remaining_after(rest, next, (k - 1) as nat));
    }
}

/// Builds the cumulative weight array: entry `i` is the wrapping sum of the first `i + 1` powers.
pub fn build_cumulative_weights(validators: &[Validator]) -> (r: Vec<U256>)
    ensures
        values(r@) == cumulative_weights(validators@),
{
    let mut cumulative: Vec<U256> = Vec::new();
    let mut sum = U256::zero();
    let mut i: usize = 0;
    while i < validators.len()
        invariant
            i <= validators@.len(),
            cumulative@.len() == i,
            sum.value() == power_sum(validators@, i as int) % u256_modulus(),
            forall|j: int|
                0 <= j < i ==> #[trigger] cumulative@[j].value() == power_sum(validators@, j + 1)
                    % u256_modulus(),
        decreases validators@.len() - i,
    {
        let v = validators[i];
        let ghost before = sum.value();
        sum = wrapping_add(sum, v.voting_power);
        proof {
            crate::u256::lemma_value_bound(v.voting_power);
            vstd::arithmetic::div_mod::lemma_add_mod_noop(
                power_sum(validators@, i as int) as int,
                v.voting_power.value() as int,
                u256_modulus() as int,
            );
            vstd::arithmetic::div_mod::lemma_small_mod(v.voting_power.value(), u256_modulus());
            vstd::arithmetic::div_mod::lemma_mod_twice(
                power_sum(validators@, i as int) as int,
                u256_modulus() as int,
            );
        }
        cumulative.push(sum);
        i = i + 1;
    }
    assert(values(cumulative@) =~= cumulative_weights(validators@));
    cumulative
}

/// Draws a number in `[0, max)` from the seed: the big-endian value of the seed modulo `max`.
pub fn random_range(seed: B256, max: U256) -> (r: U256)
    requires
        max.value() != 0,
    ensures
        r.value() == be_value(seed.bytes@) % max.value(),
{
    let seed_uint = from_be_bytes(seed.bytes);
    rem(seed_uint, max)
}

/// Binary search for the first index whose cumulative weight exceeds `target`,
/// clamped to the last index.
pub fn binary_search(cumulative_weights: &[U256], target: U256) -> (r: usize)
    requires
        cumulative_weights@.len() > 0,
    ensures
        r == search_index(values(cumulative_weights@), target.value()),
        r < cumulative_weights@.len(),
{
    let ghost ws = values(cumulative_weights@);
    let mut lo: usize = 0;
    let mut hi: usize = cumulative_weights.len();
    while lo < hi
        invariant
            lo <= hi <= cumulative_weights@.len(),
            ws == values(cumulative_weights@),
            search_from(ws, target.value(), lo as int, hi as int) == search_from(
                ws,
                target.value(),
                0,
                ws.len() as int,
            ),
        decreases hi - lo,
    {
        let mid = lo + (hi - lo) / 2;
        if le(cumulative_weights[mid], target) {
            lo = mid + 1;
        } else {
            hi = mid;
        }
    }
    proof {
        lemma_search_index_bounds(ws, target.value());
    }
    let last = cumulative_weights.len() - 1;
    if lo < last {
        lo
    } else {
        last
    }
}

/// Selects up to `count` validators for the next span by weighted random selection
/// seeded with `seed`; the result is exactly [`selection`] of the candidates.
pub fn select_validators(eligible: &[Validator], seed: B256, count: usize) -> (r: Vec<Validator>)
    ensures
        r@ == selection(eligible@, seed.bytes@, count as nat),
{
    if eligible.len() == 0 || count == 0 {
        return Vec::new();
    }
    let mut candidates: Vec<Validator> = Vec::new();
    let mut k: usize = 0;
    while k < eligible.len()
        invariant
            k <= eligible@.len(),
            candidates@ == eligible@.take(k as int),
        decreases eligible@.len() - k,
    {
        candidates.push(eligible[k]);
        k = k + 1;
        assert(candidates@ =~= eligible@.take(k as int));
    }
    assert(candidates@ =~= eligible@);
    let mut selected: Vec<Validator> = Vec::new();
    let mut current_seed = seed;
    let mut i: usize = 0;
    while i < count
        invariant
            i <= count,
            selected@ + selection(candidates@, current_seed.bytes@, (count - i) as nat) == selection(
                eligible@,
                seed.bytes@,
                count as nat,
            ),
        decreases count - i,
    {
        if candidates.len() == 0 {
            assert(selected@ + seq![] =~= selected@);
            return selected;
        }
        let weights = build_cumulative_weights(candidates.as_slice());
        let total_weight = weights[weights.len() - 1];
        if is_zero(total_weight) {
            assert(selected@ + seq![] =~= selected@);
            return selected;
        }
        let random = random_range(current_seed, total_weight);
        let idx = binary_search(weights.as_slice(), random);
        let ghost old_cands = candidates@;
        let ghost old_seed = current_seed.bytes@;
        let ghost old_selected = selected@;
        let validator = candidates.remove(idx);
        let ghost rest = selection(candidates@, keccak256_digest(old_seed), (count - i - 1) as nat);
        assert(selection(old_cands, old_seed, (count - i) as nat) == seq![validator] + rest);
        selected.push(validator);
        current_seed = keccak256(current_seed.bytes.as_slice());
        i = i + 1;
        assert(old_selected + (seq![validator] + rest) =~= selected@ + rest);
    }
    assert(selected@ + seq![] =~= selected@);
    selected
}

} // verus!
