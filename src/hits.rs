use vstd::prelude::*;

verus! {

/// The distance key that stands for "no hit": the IEEE-754 bit pattern of
/// `+infinity` in single precision. A distance key is the bit pattern of a
/// non-negative `f32` distance; for such values the bit patterns, read as
/// unsigned integers, are ordered as the distances themselves, and every key
/// below this one is a finite distance.
pub const NO_HIT: u32 = 0x7f80_0000;

/// Whether a distance key stands for an actual hit.
pub open spec fn is_hit(key: u32) -> bool {
    key < NO_HIT
}

/// `i` is the nearest hit among `keys`: a hit, no farther than any other,
/// and strictly nearer than every key before it (the first of equal
/// distances wins).
pub open spec fn is_nearest(keys: Seq<u32>, i: int) -> bool {
    &&& 0 <= i < keys.len()
    &&& is_hit(keys[i])
    &&& forall|j: int| 0 <= j < keys.len() ==> keys[i] <= #[trigger] keys[j]
    &&& forall|j: int| 0 <= j < i ==> keys[i] < #[trigger] keys[j]
}

/// Whether some primitive other than `hit` blocks the shadow ray.
pub open spec fn occluded_by_others(shadow_keys: Seq<u32>, hit: int) -> bool {
    exists|j: int| 0 <= j < shadow_keys.len() && j != hit && is_hit(#[trigger] shadow_keys[j])
}

/// Scans the distance keys of all primitives, in scene order, for the
/// nearest hit. Returns `None` when no key is a hit.
pub fn nearest_hit(keys: &Vec<u32>) -> (r: Option<usize>)
    ensures
        r is None <==> forall|j: int| 0 <= j < keys@.len() ==> !is_hit(#[trigger] keys@[j]),
        r matches Some(i) ==> is_nearest(keys@, i as int),
{
    let mut best: u32 = NO_HIT;
    let mut index: usize = 0;
    let mut k: usize = 0;
    while k < keys.len()
        invariant
            k <= keys@.len(),
            best <= NO_HIT,
            best < NO_HIT ==> index < k && keys@[index as int] == best,
            forall|j: int| 0 <= j < k ==> best <= #[trigger] keys@[j],
            forall|j: int| 0 <= j < index ==> best < #[trigger] keys@[j],
            best == NO_HIT ==> forall|j: int| 0 <= j < k ==> !is_hit(#[trigger] keys@[j]),
        decreases keys@.len() - k,
    {
        if keys[k] < best {
            best = keys[k];
            index = k;
        }
        k += 1;
    }
    if best < NO_HIT {
        Some(index)
    } else {
        None
    }
}

/// Decides whether the point hit on primitive `hit` lies in shadow, from the
/// distance keys of the shadow ray against every primitive of the scene. The
/// key of the hit primitive itself is never consulted.
pub fn is_occluded(shadow_keys: &Vec<u32>, hit: usize) -> (r: bool)
    ensures
        r == occluded_by_others(shadow_keys@, hit as int),
{
    let mut k: usize = 0;
    while k < shadow_keys.len()
        invariant
            k <= shadow_keys@.len(),
            forall|j: int| 0 <= j < k && j != hit ==> !is_hit(#[trigger] shadow_keys@[j]),
        decreases shadow_keys@.len() - k,
    {
        if k != hit && shadow_keys[k] < NO_HIT {
            return true;
        }
        k += 1;
    }
    false
}

/// A primitive never shades its own point: whatever the shadow ray reports
/// against the hit primitive, the shadow decision is the same.
pub proof fn lemma_no_self_shadowing(shadow_keys: Seq<u32>, hit: int, key: u32)
    requires
        0 <= hit < shadow_keys.len(),
    ensures
        occluded_by_others(shadow_keys.update(hit, key), hit) == occluded_by_others(
            shadow_keys,
            hit,
        ),
{
    let updated = shadow_keys.update(hit, key);
    if occluded_by_others(updated, hit) {
        let j = choose|j: int| 0 <= j < updated.len() && j != hit && is_hit(#[trigger] updated[j]);
        assert(shadow_keys[j] == updated[j]);
    }
    if occluded_by_others(shadow_keys, hit) {
        let j = choose|j: int|
            0 <= j < shadow_keys.len() && j != hit && is_hit(#[trigger] shadow_keys[j]);
        assert(shadow_keys[j] == updated[j]);
    }
}

} // verus!
