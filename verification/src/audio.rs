use vstd::prelude::*;
use bevy::platform::collections::HashSet;
use bevy::platform::hash::FixedHasher;

verus! {

#[verifier::external_type_specification]
#[verifier::external_body]
#[verifier::reject_recursive_types(T)]
#[verifier::reject_recursive_types(S)]
pub struct ExHashSet<T, S>(HashSet<T, S>);

#[verifier::external_type_specification]
#[verifier::external_body]
pub struct ExFixedHasher(FixedHasher);

/// The clip identifiers a set of played clips holds.
pub uninterp spec fn played_clips(set: HashSet<u64>) -> Set<u64>;

/// Calls `bevy::platform::collections::HashSet::new`. Trusted: the new set
/// holds no clip.
#[verifier::external_body]
fn new_clip_set() -> (set: HashSet<u64>)
    ensures
        played_clips(set) == Set::<u64>::empty(),
{
    HashSet::new()
}

/// Calls `HashSet::contains` of `bevy::platform` (hashbrown underneath).
/// Trusted: the answer is whether the set holds the clip.
#[verifier::external_body]
fn clip_set_contains(set: &HashSet<u64>, clip: u64) -> (res: bool)
    ensures
        res == played_clips(*set).contains(clip),
{
    set.contains(&clip)
}

/// Calls `HashSet::insert` of `bevy::platform`. Trusted: the set then holds
/// the clip besides what it held, and the answer is whether the clip was new.
#[verifier::external_body]
fn clip_set_insert(set: &mut HashSet<u64>, clip: u64) -> (res: bool)
    ensures
        played_clips(*final(set)) == played_clips(*old(set)).insert(clip),
        res == !played_clips(*old(set)).contains(clip),
{
    set.insert(clip)
}

/// Whether position `i` of `clips` holds the first request for its clip.
pub open spec fn first_request(clips: Seq<u64>, i: int) -> bool {
    forall|j: int| 0 <= j < i ==> clips[j] != clips[i]
}

/// The positions of the requests that are played: the first request for
/// each clip, in order.
pub open spec fn played_positions(clips: Seq<u64>) -> Seq<usize>
    decreases clips.len(),
{
    if clips.len() == 0 {
        Seq::empty()
    } else {
        let rest = played_positions(clips.drop_last());
        if first_request(clips, clips.len() - 1) {
            rest.push((clips.len() - 1) as usize)
        } else {
            rest
        }
    }
}

/// Of the sound requests of one frame, picks those that are played: a clip
/// that was already requested earlier in the frame is skipped, so each clip
/// plays at most once per frame. Returns the positions of the played
/// requests, in request order.
pub fn select_sounds(clips: &Vec<u64>) -> (played: Vec<usize>)
    ensures
        played@ == played_positions(clips@),
{
    let mut added = new_clip_set();
    let mut played: Vec<usize> = Vec::new();
    let mut i: usize = 0;
    while i < clips.len()
        invariant
            i <= clips.len(),
            played@ == played_positions(clips@.subrange(0, i as int)),
            played_clips(added) == Set::new(|c: u64| clips@.subrange(0, i as int).contains(c)),
        decreases clips.len() - i,
    {
        let ghost prefix = clips@.subrange(0, i as int);
        let ghost next = clips@.subrange(0, i + 1);
        assert(next.drop_last() =~= prefix);
        let clip = clips[i];
        let seen = clip_set_contains(&added, clip);
        proof {
            if seen {
                let w = choose|w: int| 0 <= w < prefix.len() && #[trigger] prefix[w] == clip;
                assert(next[w] == next[i as int]);
                assert(!first_request(next, i as int));
            } else {
                assert forall|j: int| 0 <= j < i implies next[j] != next[i as int] by {
                    assert(prefix[j] == next[j]);
                    if next[j] == clip {
                        assert(prefix.contains(clip));
                    }
                }
                assert(first_request(next, i as int));
            }
        }
        if !seen {
            clip_set_insert(&mut added, clip);
            played.push(i);
        }
        proof {
            assert(played_clips(added) =~= Set::new(|c: u64| next.contains(c))) by {
                assert forall|c: u64| #[trigger] next.contains(c) implies played_clips(added).contains(c) by {
                    let w = choose|w: int| 0 <= w < next.len() && #[trigger] next[w] == c;
                    if w < i {
                        assert(prefix[w] == c);
                    }
                }
                assert forall|c: u64| played_clips(added).contains(c) implies #[trigger] next.contains(c) by {
                    if c == clip {
                        assert(next[i as int] == c);
                    } else {
                        assert(prefix.contains(c));
                        let w = choose|w: int| 0 <= w < prefix.len() && #[trigger] prefix[w] == c;
                        assert(next[w] == c);
                    }
                }
            }
        }
        i = i + 1;
    }
    assert(clips@.subrange(0, clips.len() as int) =~= clips@);
    played
}

/// Of a frame's requests, every requested clip is played, none twice, and
/// each at the position of its first request, in request order.
pub proof fn lemma_each_clip_played_once(clips: Seq<u64>)
    requires
        clips.len() <= usize::MAX,
    ensures
        forall|k: int|
            0 <= k < played_positions(clips).len() ==> {
                &&& #[trigger] played_positions(clips)[k] < clips.len()
                &&& first_request(clips, played_positions(clips)[k] as int)
            },
        forall|k1: int, k2: int|
            0 <= k1 < k2 < played_positions(clips).len() ==> #[trigger] played_positions(clips)[k1]
                < #[trigger] played_positions(clips)[k2],
        forall|k1: int, k2: int|
            0 <= k1 < k2 < played_positions(clips).len() ==> clips[#[trigger] played_positions(
                clips,
            )[k1] as int] != clips[#[trigger] played_positions(clips)[k2] as int],
        forall|i: int|
            0 <= i < clips.len() ==> exists|k: int|
                0 <= k < played_positions(clips).len() && clips[#[trigger] played_positions(
                    clips,
                )[k] as int] == #[trigger] clips[i],
    decreases clips.len(),
{
    let p = played_positions(clips);
    if clips.len() > 0 {
        let rest = clips.drop_last();
        let q = played_positions(rest);
        lemma_each_clip_played_once(rest);
        let last = clips.len() - 1;
        assert forall|k: int| 0 <= k < q.len() implies q[k] < last && first_request(clips, q[k] as int) by {
            assert(first_request(rest, q[k] as int));
            assert forall|j: int| 0 <= j < q[k] implies #[trigger] clips[j] != clips[q[k] as int] by {
                assert(rest[j] == clips[j]);
                assert(rest[q[k] as int] == clips[q[k] as int]);
            }
        }
        assert forall|k: int| 0 <= k < q.len() implies clips[q[k] as int] == rest[q[k] as int] by {}
        if first_request(clips, last) {
            assert(p == q.push(last as usize));
            assert forall|k1: int, k2: int| 0 <= k1 < k2 < p.len() implies clips[p[k1] as int] != clips[p[k2] as int] by {
                if k2 == p.len() - 1 {
                    assert(p[k1] == q[k1]);
                } else {
                    assert(rest[q[k1] as int] != rest[q[k2] as int]);
                }
            }
            assert forall|i: int| 0 <= i < clips.len() implies exists|k: int|
                0 <= k < p.len() && clips[#[trigger] p[k] as int] == #[trigger] clips[i] by {
                if i == last {
                    assert(p[p.len() - 1] == last);
                } else {
                    assert(rest[i] == clips[i]);
                    let k = choose|k: int| 0 <= k < q.len() && rest[#[trigger] q[k] as int] == #[trigger] rest[i];
                    assert(p[k] == q[k]);
                }
            }
        } else {
            assert(p == q);
            assert forall|k1: int, k2: int| 0 <= k1 < k2 < p.len() implies clips[p[k1] as int] != clips[p[k2] as int] by {
                assert(rest[q[k1] as int] != rest[q[k2] as int]);
            }
            assert forall|i: int| 0 <= i < clips.len() implies exists|k: int|
                0 <= k < p.len() && clips[#[trigger] p[k] as int] == #[trigger] clips[i] by {
                if i == last {
                    let j = choose|j: int| 0 <= j < last && clips[j] == clips[last];
                    assert(rest[j] == clips[j]);
                    let k = choose|k: int| 0 <= k < q.len() && rest[#[trigger] q[k] as int] == #[trigger] rest[j];
                } else {
                    assert(rest[i] == clips[i]);
                    let k = choose|k: int| 0 <= k < q.len() && rest[#[trigger] q[k] as int] == #[trigger] rest[i];
                }
            }
        }
    }
}

} // verus!
