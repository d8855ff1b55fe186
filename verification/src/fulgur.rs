use vstd::prelude::*;
use rand::seq::IteratorRandom;

verus! {

/// How many lightning strikes one cast of Fulgur calls down in all.
pub const FULGUR_COUNT: usize = 100;

/// The sum of a sequence of counts.
pub open spec fn total(s: Seq<usize>) -> int
    decreases s.len(),
{
    if s.len() == 0 {
        0
    } else {
        total(s.drop_last()) + s.last()
    }
}

/// Appending a count adds it to the total.
pub proof fn lemma_total_push(s: Seq<usize>, v: usize)
    ensures
        total(s.push(v)) == total(s) + v,
{
    assert(s.push(v).drop_last() =~= s);
}

/// Raising one count by one raises the total by one.
pub proof fn lemma_total_bump(s: Seq<usize>, i: int)
    requires
        0 <= i < s.len(),
        s[i] < usize::MAX,
    ensures
        total(s.update(i, (s[i] + 1) as usize)) == total(s) + 1,
    decreases s.len(),
{
    let t = s.update(i, (s[i] + 1) as usize);
    if i == s.len() - 1 {
        assert(t.drop_last() =~= s.drop_last());
    } else {
        lemma_total_bump(s.drop_last(), i);
        assert(t.drop_last() =~= s.drop_last().update(i, (s[i] + 1) as usize));
    }
}

/// Calls `IteratorRandom::choose_multiple` of `rand` on the indices `0..k`
/// with the thread-local generator. Trusted, as the crate's source shows
/// (reservoir sampling over an iterator that yields each index once): the
/// result holds `min(amount, k)` indices, each below `k`, no two equal.
/// Which indices come back is left to chance and is not stated.
#[verifier::external_body]
fn sample_distinct_indices(k: usize, amount: usize) -> (res: Vec<usize>)
    ensures
        res.len() == (if amount <= k { amount } else { k }),
        forall|i: int| 0 <= i < res.len() ==> res[i] < k,
        forall|i: int, j: int| 0 <= i < j < res.len() ==> res[i] != res[j],
{
    (0..k).choose_multiple(&mut rand::thread_rng(), amount)
}

/// Shares the strikes among `k` enemies: every enemy gets
/// `FULGUR_COUNT / k` strikes, and the enemies in `chosen` (which must be
/// `FULGUR_COUNT % k` distinct indices) get one more.
pub fn distribute_strikes(k: usize, chosen: &Vec<usize>) -> (counts: Vec<usize>)
    requires
        k > 0,
        chosen.len() == FULGUR_COUNT % k,
        forall|i: int| 0 <= i < chosen.len() ==> chosen[i] < k,
        forall|i: int, j: int| 0 <= i < j < chosen.len() ==> chosen[i] != chosen[j],
    ensures
        counts.len() == k,
        forall|i: int|
            0 <= i < k ==> #[trigger] counts[i] == FULGUR_COUNT / k + (if chosen@.contains(
                i as usize,
            ) {
                1int
            } else {
                0int
            }),
        total(counts@) == FULGUR_COUNT,
{
    let m = FULGUR_COUNT / k;
    let n = FULGUR_COUNT % k;
    proof {
        vstd::arithmetic::div_mod::lemma_fundamental_div_mod(FULGUR_COUNT as int, k as int);
        assert(k * m <= FULGUR_COUNT) by (nonlinear_arith)
            requires
                k * m + n == FULGUR_COUNT,
                n >= 0,
        ;
    }
    let mut counts: Vec<usize> = Vec::new();
    let mut i: usize = 0;
    while i < k
        invariant
            i <= k,
            m == FULGUR_COUNT / k,
            k * m <= FULGUR_COUNT,
            counts.len() == i,
            forall|j: int| 0 <= j < i ==> counts[j] == m,
            total(counts@) == i * m,
        decreases k - i,
    {
        proof {
            lemma_total_push(counts@, m);
            assert((i + 1) * m == i * m + m) by (nonlinear_arith);
            assert((i + 1) * m <= k * m) by (nonlinear_arith)
                requires
                    i + 1 <= k,
            ;
        }
        counts.push(m);
        i = i + 1;
    }
    let mut j: usize = 0;
    while j < chosen.len()
        invariant
            k > 0,
            m == FULGUR_COUNT / k,
            n == FULGUR_COUNT % k,
            k * m + n == FULGUR_COUNT,
            chosen.len() == n,
            forall|a: int| 0 <= a < chosen.len() ==> chosen[a] < k,
            forall|a: int, b: int| 0 <= a < b < chosen.len() ==> chosen[a] != chosen[b],
            j <= chosen.len(),
            counts.len() == k,
            forall|a: int|
                0 <= a < k ==> #[trigger] counts[a] == m + (if chosen@.subrange(
                    0,
                    j as int,
                ).contains(a as usize) {
                    1int
                } else {
                    0int
                }),
            total(counts@) == k * m + j,
        decreases chosen.len() - j,
    {
        let idx = chosen[j];
        proof {
            assert(!chosen@.subrange(0, j as int).contains(idx));
            assert(counts[idx as int] == m);
            lemma_total_bump(counts@, idx as int);
        }
        let c = counts[idx];
        counts.set(idx, c + 1);
        proof {
            let before = chosen@.subrange(0, j as int);
            let after = chosen@.subrange(0, j + 1);
            assert forall|a: int| 0 <= a < k implies #[trigger] counts[a] == m + (
            if after.contains(a as usize) {
                1int
            } else {
                0int
            }) by {
                if a == idx as int {
                    assert(after[j as int] == idx);
                } else {
                    if before.contains(a as usize) {
                        let w = choose|w: int| 0 <= w < before.len() && #[trigger] before[w] == a as usize;
                        assert(after[w] == a as usize);
                    }
                    if after.contains(a as usize) {
                        let w = choose|w: int| 0 <= w < after.len() && #[trigger] after[w] == a as usize;
                        assert(w != j);
                        assert(before[w] == a as usize);
                    }
                }
            }
        }
        j = j + 1;
    }
    assert(chosen@.subrange(0, chosen.len() as int) =~= chosen@);
    counts
}

/// One cast of Fulgur against `enemy_count` enemies: how many strikes each
/// enemy receives. With no enemy the spell does nothing; otherwise the
/// strikes add up to exactly `FULGUR_COUNT`, spread as evenly as possible,
/// the remainder going to randomly chosen distinct enemies.
pub fn fulgur_strikes(enemy_count: usize) -> (counts: Vec<usize>)
    ensures
        enemy_count == 0 ==> counts.len() == 0,
        enemy_count > 0 ==> {
            &&& counts.len() == enemy_count
            &&& total(counts@) == FULGUR_COUNT
            &&& forall|i: int|
                0 <= i < enemy_count ==> FULGUR_COUNT / enemy_count <= #[trigger] counts[i]
                    <= FULGUR_COUNT / enemy_count + 1
        },
{
    if enemy_count == 0 {
        return Vec::new();
    }
    let n = FULGUR_COUNT % enemy_count;
    let chosen = sample_distinct_indices(enemy_count, n);
    distribute_strikes(enemy_count, &chosen)
}

} // verus!
