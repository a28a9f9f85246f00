//! The key-ring rules: when the player frobs a locked object, which key or
//! lockpick from the inventory to select.
use vstd::prelude::*;
use crate::osm::ObjectId;
use crate::text::str_eq;

verus! {

/// How a candidate tool serves a lock.
#[derive(Debug, Clone, Copy, PartialEq, Eq, Structural)]
pub enum ToolKind {
    /// A key whose region and lock ID fit the lock.
    Key,
    /// A lockpick whose bits open the lock's current tumbler.
    Pick,
}

/// The fallback key match on `KeySrc`/`KeyDst` properties.
pub open spec fn key_fits_spec(key_region: i32, key_lock_id: i32, lock_region: i32, lock_id: i32) -> bool {
    (key_region & lock_region) != 0 && key_lock_id == lock_id
}

/// Whether a key opens a lock by its `KeySrc`/`KeyDst` properties: the
/// region masks must share a bit and the lock IDs must agree.
pub fn key_fits_by_properties(key_region: i32, key_lock_id: i32, lock_region: i32, lock_id: i32) -> (r:
    bool)
    ensures
        r == ((key_region & lock_region) != 0 && key_lock_id == lock_id),
        r == key_fits_spec(key_region, key_lock_id, lock_region, lock_id),
{
    (key_region & lock_region) != 0 && key_lock_id == lock_id
}

/// Only a concrete object that inherits from the Avatar is the player.
pub fn is_player_frob(frobber: ObjectId, inherits_from_avatar: bool) -> (r: bool)
    ensures
        r == (frobber.0 >= 1 && inherits_from_avatar),
{
    frobber.0 >= 1 && inherits_from_avatar
}

/// A lock counts as locked when it has the `Locked` property with a
/// non-zero value.
pub fn is_locked(has_locked: bool, locked_value: Option<i32>) -> (r: bool)
    ensures
        r == (has_locked && match locked_value {
            Some(v) => v != 0,
            None => false,
        }),
{
    has_locked && match locked_value {
        Some(v) => v != 0,
        None => false,
    }
}

/// The key regions a lock accepts: its `KeyDst` region mask, or none.
pub fn wanted_key_region(has_key_dst: bool, region_mask: Option<i32>) -> (r: i32)
    ensures
        r == (if has_key_dst {
            match region_mask {
                Some(m) => m,
                None => 0,
            }
        } else {
            0
        }),
{
    if has_key_dst {
        match region_mask {
            Some(m) => m,
            None => 0,
        }
    } else {
        0
    }
}

/// The `PickCfg` field holding the pick bits for the lock's current tumbler,
/// or none when the tumbler is past the third.
pub fn lock_bits_field(tumbler: i32) -> (r: Option<&'static str>)
    ensures
        tumbler == 0 ==> (r matches Some(f) && f@ == "LockBits 1"@),
        tumbler == 1 ==> (r matches Some(f) && f@ == "LockBits 2"@),
        tumbler == 2 ==> (r matches Some(f) && f@ == "LockBits 3"@),
        !(0 <= tumbler <= 2) ==> r is None,
{
    match tumbler {
        0 => Some("LockBits 1"),
        1 => Some("LockBits 2"),
        2 => Some("LockBits 3"),
        _ => None,
    }
}

/// How a tool serves a lock that wants `wants_key_region` keys and
/// `wants_picks` pick bits: a key is checked first, then a pick.
pub open spec fn tool_kind_spec(
    wants_key_region: i32,
    wants_picks: i32,
    has_key_src: bool,
    key_fits: bool,
    has_pick_src: bool,
    pick_bits: i32,
) -> Option<ToolKind> {
    if wants_key_region != 0 && has_key_src && key_fits {
        Some(ToolKind::Key)
    } else if wants_picks != 0 && has_pick_src && (pick_bits & wants_picks) != 0 {
        Some(ToolKind::Pick)
    } else {
        None
    }
}

/// How a tool serves the lock: as a key, as a pick, or not at all.
pub fn tool_kind(
    wants_key_region: i32,
    wants_picks: i32,
    has_key_src: bool,
    key_fits: bool,
    has_pick_src: bool,
    pick_bits: i32,
) -> (r: Option<ToolKind>)
    ensures
        r == tool_kind_spec(
            wants_key_region,
            wants_picks,
            has_key_src,
            key_fits,
            has_pick_src,
            pick_bits,
        ),
{
    if wants_key_region != 0 && has_key_src && key_fits {
        Some(ToolKind::Key)
    } else if wants_picks != 0 && has_pick_src && (pick_bits & wants_picks) != 0 {
        Some(ToolKind::Pick)
    } else {
        None
    }
}

/// Whether bit `b` of `x` is set.
pub open spec fn has_bit(x: i32, b: u32) -> bool {
    (x >> b) & 1i32 == 1i32
}

/// True when two masks have a set bit in common.
pub open spec fn shares_bit(x: i32, y: i32) -> bool {
    exists|b: u32| b < 32 && #[trigger] has_bit(x, b) && #[trigger] has_bit(y, b)
}

/// Two masks share a set bit exactly when their bitwise and is not zero.
pub proof fn lemma_shares_bit(x: i32, y: i32)
    ensures
        shares_bit(x, y) <==> (x & y) != 0,
{
    let z = x & y;
    assert(forall|b: u32| b < 32 ==> (#[trigger] has_bit(z, b) <==> has_bit(x, b) && has_bit(y, b))) by {
        assert forall|b: u32| b < 32 implies (#[trigger] has_bit(z, b) <==> has_bit(x, b) && has_bit(y, b)) by {
            assert(b < 32 ==> (((x & y) >> b) & 1i32 == 1i32 <==> (x >> b) & 1i32 == 1i32 && (y >> b) & 1i32
                == 1i32)) by (bit_vector);
        }
    }
    if z != 0 {
        assert((z >> 0u32) & 1i32 == 1i32 || (z >> 1u32) & 1i32 == 1i32 || (z >> 2u32) & 1i32 == 1i32 || (z >> 3u32) & 1i32 == 1i32 || (z >> 4u32) & 1i32 == 1i32 || (z >> 5u32) & 1i32 == 1i32 || (z >> 6u32) & 1i32 == 1i32 || (z >> 7u32) & 1i32 == 1i32 || (z >> 8u32) & 1i32 == 1i32 || (z >> 9u32) & 1i32 == 1i32 || (z >> 10u32) & 1i32 == 1i32 || (z >> 11u32) & 1i32 == 1i32 || (z >> 12u32) & 1i32 == 1i32 || (z >> 13u32) & 1i32 == 1i32 || (z >> 14u32) & 1i32 == 1i32 || (z >> 15u32) & 1i32 == 1i32 || (z >> 16u32) & 1i32 == 1i32 || (z >> 17u32) & 1i32 == 1i32 || (z >> 18u32) & 1i32 == 1i32 || (z >> 19u32) & 1i32 == 1i32 || (z >> 20u32) & 1i32 == 1i32 || (z >> 21u32) & 1i32 == 1i32 || (z >> 22u32) & 1i32 == 1i32 || (z >> 23u32) & 1i32 == 1i32 || (z >> 24u32) & 1i32 == 1i32 || (z >> 25u32) & 1i32 == 1i32 || (z >> 26u32) & 1i32 == 1i32 || (z >> 27u32) & 1i32 == 1i32 || (z >> 28u32) & 1i32 == 1i32 || (z >> 29u32) & 1i32 == 1i32 || (z >> 30u32) & 1i32 == 1i32 || (z >> 31u32) & 1i32 == 1i32) by (bit_vector)
            requires
                z != 0,
        ;
        if has_bit(z, 0u32) {
            assert(has_bit(x, 0u32) && has_bit(y, 0u32));
        } else if has_bit(z, 1u32) {
            assert(has_bit(x, 1u32) && has_bit(y, 1u32));
        } else if has_bit(z, 2u32) {
            assert(has_bit(x, 2u32) && has_bit(y, 2u32));
        } else if has_bit(z, 3u32) {
            assert(has_bit(x, 3u32) && has_bit(y, 3u32));
        } else if has_bit(z, 4u32) {
            assert(has_bit(x, 4u32) && has_bit(y, 4u32));
        } else if has_bit(z, 5u32) {
            assert(has_bit(x, 5u32) && has_bit(y, 5u32));
        } else if has_bit(z, 6u32) {
            assert(has_bit(x, 6u32) && has_bit(y, 6u32));
        } else if has_bit(z, 7u32) {
            assert(has_bit(x, 7u32) && has_bit(y, 7u32));
        } else if has_bit(z, 8u32) {
            assert(has_bit(x, 8u32) && has_bit(y, 8u32));
        } else if has_bit(z, 9u32) {
            assert(has_bit(x, 9u32) && has_bit(y, 9u32));
        } else if has_bit(z, 10u32) {
            assert(has_bit(x, 10u32) && has_bit(y, 10u32));
        } else if has_bit(z, 11u32) {
            assert(has_bit(x, 11u32) && has_bit(y, 11u32));
        } else if has_bit(z, 12u32) {
            assert(has_bit(x, 12u32) && has_bit(y, 12u32));
        } else if has_bit(z, 13u32) {
            assert(has_bit(x, 13u32) && has_bit(y, 13u32));
        } else if has_bit(z, 14u32) {
            assert(has_bit(x, 14u32) && has_bit(y, 14u32));
        } else if has_bit(z, 15u32) {
            assert(has_bit(x, 15u32) && has_bit(y, 15u32));
        } else if has_bit(z, 16u32) {
            assert(has_bit(x, 16u32) && has_bit(y, 16u32));
        } else if has_bit(z, 17u32) {
            assert(has_bit(x, 17u32) && has_bit(y, 17u32));
        } else if has_bit(z, 18u32) {
            assert(has_bit(x, 18u32) && has_bit(y, 18u32));
        } else if has_bit(z, 19u32) {
            assert(has_bit(x, 19u32) && has_bit(y, 19u32));
        } else if has_bit(z, 20u32) {
            assert(has_bit(x, 20u32) && has_bit(y, 20u32));
        } else if has_bit(z, 21u32) {
            assert(has_bit(x, 21u32) && has_bit(y, 21u32));
        } else if has_bit(z, 22u32) {
            assert(has_bit(x, 22u32) && has_bit(y, 22u32));
        } else if has_bit(z, 23u32) {
            assert(has_bit(x, 23u32) && has_bit(y, 23u32));
        } else if has_bit(z, 24u32) {
            assert(has_bit(x, 24u32) && has_bit(y, 24u32));
        } else if has_bit(z, 25u32) {
            assert(has_bit(x, 25u32) && has_bit(y, 25u32));
        } else if has_bit(z, 26u32) {
            assert(has_bit(x, 26u32) && has_bit(y, 26u32));
        } else if has_bit(z, 27u32) {
            assert(has_bit(x, 27u32) && has_bit(y, 27u32));
        } else if has_bit(z, 28u32) {
            assert(has_bit(x, 28u32) && has_bit(y, 28u32));
        } else if has_bit(z, 29u32) {
            assert(has_bit(x, 29u32) && has_bit(y, 29u32));
        } else if has_bit(z, 30u32) {
            assert(has_bit(x, 30u32) && has_bit(y, 30u32));
        } else if has_bit(z, 31u32) {
            assert(has_bit(x, 31u32) && has_bit(y, 31u32));
        }
    }
    if shares_bit(x, y) {
        let b = choose|b: u32| b < 32 && #[trigger] has_bit(x, b) && #[trigger] has_bit(y, b);
        assert(has_bit(z, b));
        assert(((z >> b) & 1i32 == 1i32 && b < 32) ==> z != 0) by (bit_vector);
    }
}

/// A key fits by its properties exactly when its region mask has at least
/// one region in common with the lock's and both name the same lock ID.
pub proof fn lemma_key_fits_rule(key_region: i32, key_lock_id: i32, lock_region: i32, lock_id: i32)
    ensures
        key_fits_spec(key_region, key_lock_id, lock_region, lock_id) <==> (shares_bit(key_region, lock_region)
            && key_lock_id == lock_id),
{
    lemma_shares_bit(key_region, lock_region);
}

/// How a candidate serves a lock, over all inputs: a key whose properties
/// fit a lock that wants keys is chosen as a key, whatever its pick bits.
/// Failing that, a lockpick (`PickSrc`) serves exactly when it has at
/// least one of the bits the tumbler wants, the wanted mask being non-zero;
/// a candidate that is neither serves not at all.
pub proof fn lemma_tool_kind_rules(
    wants_key_region: i32,
    wants_picks: i32,
    has_key_src: bool,
    key_fits: bool,
    has_pick_src: bool,
    pick_bits: i32,
)
    ensures
        wants_key_region != 0 && has_key_src && key_fits ==> tool_kind_spec(
            wants_key_region,
            wants_picks,
            has_key_src,
            key_fits,
            has_pick_src,
            pick_bits,
        ) == Some(ToolKind::Key),
        !(wants_key_region != 0 && has_key_src && key_fits) && has_pick_src ==> (tool_kind_spec(
            wants_key_region,
            wants_picks,
            has_key_src,
            key_fits,
            has_pick_src,
            pick_bits,
        ) == Some(ToolKind::Pick) <==> shares_bit(pick_bits, wants_picks)),
        !(wants_key_region != 0 && has_key_src && key_fits) && !has_pick_src ==> tool_kind_spec(
            wants_key_region,
            wants_picks,
            has_key_src,
            key_fits,
            has_pick_src,
            pick_bits,
        ) is None,
        wants_key_region == 0 ==> tool_kind_spec(
            wants_key_region,
            wants_picks,
            has_key_src,
            key_fits,
            has_pick_src,
            pick_bits,
        ) != Some(ToolKind::Key),
{
    lemma_shares_bit(pick_bits, wants_picks);
    assert((pick_bits & wants_picks) != 0 ==> wants_picks != 0) by (bit_vector);
}

/// True when some candidate is a key.
pub open spec fn has_key(c: Seq<(ObjectId, Option<ToolKind>)>) -> bool {
    exists|i: int| 0 <= i < c.len() && c[i].1 == Some(ToolKind::Key)
}

/// True when candidate `i` is the first key.
pub open spec fn is_first_key(c: Seq<(ObjectId, Option<ToolKind>)>, i: int) -> bool {
    &&& 0 <= i < c.len()
    &&& c[i].1 == Some(ToolKind::Key)
    &&& forall|j: int| 0 <= j < i ==> c[j].1 != Some(ToolKind::Key)
}

/// True when candidate `i` is the last tool that serves at all.
pub open spec fn is_last_tool(c: Seq<(ObjectId, Option<ToolKind>)>, i: int) -> bool {
    &&& 0 <= i < c.len()
    &&& c[i].1 is Some
    &&& forall|j: int| i < j < c.len() ==> c[j].1 is None
}

/// The positions `choose_tool` speaks of: the first key is a key with no
/// key before it, and the last tool is a serving candidate with none that
/// serves after it. Each is unique, so the chosen candidate is determined.
pub proof fn lemma_tool_positions(c: Seq<(ObjectId, Option<ToolKind>)>, i: int, j: int)
    ensures
        is_first_key(c, i) ==> c[i].1 == Some(ToolKind::Key) && forall|k: int|
            0 <= k < i ==> #[trigger] c[k].1 != Some(ToolKind::Key),
        is_last_tool(c, i) ==> c[i].1 is Some && forall|k: int| i < k < c.len() ==> (#[trigger] c[k].1) is None,
        is_first_key(c, i) && is_first_key(c, j) ==> i == j,
        is_last_tool(c, i) && is_last_tool(c, j) ==> i == j,
        has_key(c) <==> exists|k: int| #[trigger] is_first_key(c, k),
{
    if has_key(c) {
        let w = choose|w: int| 0 <= w < c.len() && c[w].1 == Some(ToolKind::Key);
        lemma_first_key_exists(c, w);
    }
}

/// A key at position `w` means there is a first key at or before it.
proof fn lemma_first_key_exists(c: Seq<(ObjectId, Option<ToolKind>)>, w: int)
    requires
        0 <= w < c.len(),
        c[w].1 == Some(ToolKind::Key),
    ensures
        exists|k: int| 0 <= k <= w && #[trigger] is_first_key(c, k),
    decreases w,
{
    if forall|k: int| 0 <= k < w ==> c[k].1 != Some(ToolKind::Key) {
        assert(is_first_key(c, w));
    } else {
        let k = choose|k: int| 0 <= k < w && c[k].1 == Some(ToolKind::Key);
        lemma_first_key_exists(c, k);
    }
}

/// Picks the tool to select from the inventory, in inventory order: the
/// first key when there is one (keys are preferred over picks), otherwise
/// the last pick; nothing when no candidate serves.
pub fn choose_tool(candidates: &Vec<(ObjectId, Option<ToolKind>)>) -> (r: Option<(ObjectId, ToolKind)>)
    ensures
        has_key(candidates@) ==> (r matches Some((o, k)) && k == ToolKind::Key && exists|i: int|
            is_first_key(candidates@, i) && candidates@[i].0 == o),
        !has_key(candidates@) ==> (r matches Some((o, k)) ==> k == ToolKind::Pick && exists|i: int|
            is_last_tool(candidates@, i) && candidates@[i].0 == o),
        r is None <==> forall|i: int| 0 <= i < candidates@.len() ==> (#[trigger] candidates@[i]).1 is None,
{
    let mut found: Option<(ObjectId, ToolKind)> = None;
    let ghost mut found_at: int = -1;
    let n = candidates.len();
    let mut i: usize = 0;
    let mut key_found = false;
    while i < n && !key_found
        invariant
            n == candidates@.len(),
            i <= n,
            key_found ==> (found matches Some((o, k)) && k == ToolKind::Key && is_first_key(
                candidates@,
                found_at,
            ) && candidates@[found_at].0 == o),
            !key_found ==> forall|j: int| 0 <= j < i ==> candidates@[j].1 != Some(ToolKind::Key),
            !key_found ==> (found is None <==> forall|j: int|
                0 <= j < i ==> (#[trigger] candidates@[j]).1 is None),
            !key_found ==> (found matches Some((o, k)) ==> (0 <= found_at < i
                && candidates@[found_at].0 == o && candidates@[found_at].1 == Some(k) && forall|
                j: int,
            | found_at < j < i ==> (#[trigger] candidates@[j]).1 is None)),
        decreases n - i,
    {
        let (item, kind) = candidates[i];
        match kind {
            Some(k) => {
                found = Some((item, k));
                proof {
                    found_at = i as int;
                }
                if k == ToolKind::Key {
                    key_found = true;
                }
            },
            None => {},
        }
        i = i + 1;
    }
    proof {
        if key_found {
            assert(has_key(candidates@));
        } else {
            assert(!has_key(candidates@));
            if found is Some {
                assert(is_last_tool(candidates@, found_at));
            }
        }
    }
    found
}

/// Whether the inventory scan can stop after a candidate: a key ends it,
/// since keys are preferred and the first one wins.
pub fn scan_ends_at(kind: Option<ToolKind>) -> (r: bool)
    ensures
        r == (kind == Some(ToolKind::Key)),
{
    match kind {
        Some(ToolKind::Key) => true,
        _ => false,
    }
}

/// Stopping the scan at the first key loses nothing: the candidates up to
/// and including it have that same key as their only first key, so
/// `choose_tool` picks the same tool from them as from the whole inventory.
pub proof fn lemma_scan_stops_at_first_key(c: Seq<(ObjectId, Option<ToolKind>)>, i: int)
    requires
        is_first_key(c, i),
    ensures
        has_key(c.take(i + 1)),
        is_first_key(c.take(i + 1), i),
        forall|j: int| #[trigger] is_first_key(c.take(i + 1), j) ==> j == i,
        forall|j: int| #[trigger] is_first_key(c, j) ==> j == i,
{
    let p = c.take(i + 1);
    assert(p[i] == c[i]);
    assert forall|j: int| is_first_key(p, j) implies j == i by {
        if j < i {
            assert(p[j] == c[j]);
        }
    }
    assert forall|j: int| is_first_key(c, j) implies j == i by {
        if j < i {
        } else if j > i {
            assert(c[i].1 != Some(ToolKind::Key));
        }
    }
}

/// The tool to select once one has been chosen: a concrete object that is
/// not already the selected inventory item.
pub fn selection_needed(chosen: ObjectId, current: Option<ObjectId>) -> (r: bool)
    ensures
        r == (chosen.0 > 0 && current != Some(chosen)),
{
    chosen.0 > 0 && match current {
        Some(c) => c.0 != chosen.0,
        None => true,
    }
}

/// What the key-ring timer selects: the tool carried by a `KeyringSelect`
/// timer, unless it is not a concrete object or is already selected.
pub fn timer_selection(timer_name: &str, data: i32, current: Option<ObjectId>) -> (r: Option<
    ObjectId,
>)
    ensures
        r is Some <==> (timer_name@ == "KeyringSelect"@ && data > 0 && current != Some(
            ObjectId(data),
        )),
        r matches Some(o) ==> o == ObjectId(data),
{
    if !str_eq(timer_name, "KeyringSelect") {
        return None;
    }
    let found = ObjectId(data);
    if selection_needed(found, current) {
        Some(found)
    } else {
        None
    }
}

} // verus!
