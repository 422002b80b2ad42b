//! Per-connection helpers of the play phase: changed-block tracking for
//! section updates, the view distance for the current player count, and
//! small lookups (sound ids, ore blocks).

use vstd::prelude::*;
use vstd::string::*;
use crate::position::{div16, mod16};
use crate::sound::SoundIds;
use crate::table::{Table, TableKey};
use crate::text::str_eq;

verus! {

impl TableKey for (i32, i32, i32) {
    type KeyView = (i32, i32, i32);

    open spec fn key_view(&self) -> (i32, i32, i32) {
        *self
    }

    fn same_key(&self, other: &Self) -> (r: bool) {
        self.0 == other.0 && self.1 == other.1 && self.2 == other.2
    }
}

/// The section `(chunk x, section y, chunk z)` holding a block.
pub open spec fn section_of(x: i32, y: i32, z: i32) -> (i32, i32, i32) {
    ((x as int / 16) as i32, (y as int / 16) as i32, (z as int / 16) as i32)
}

/// Index of a block within its 16×16×16 section: `y * 256 + z * 16 + x`
/// of the coordinates within the section.
pub open spec fn local_index(x: i32, y: i32, z: i32) -> i16 {
    ((y as int % 16) * 256 + (z as int % 16) * 16 + (x as int % 16)) as i16
}

/// `v` read as `i32` (two's complement).
pub open spec fn as_i32(v: u32) -> i32 {
    v as i32
}

/// `a + 1` modulo 2^64.
pub open spec fn next_generation(a: u64) -> u64 {
    if a == u64::MAX { 0 } else { (a + 1) as u64 }
}

/// Sections beyond this many pending entries are dropped by the cleanup.
pub const MAX_PENDING_SECTIONS: usize = 1024;

/// Changed blocks per section, waiting to be sent to nearby players.
pub struct DirtyBlockTracker {
    pending: Table<(i32, i32, i32), Vec<(i16, i32)>>,
    generation: u64,
}

/// A section whose horizontal chunk distance from the player is at most
/// `max_dist` on both axes.
pub open spec fn near(key: (i32, i32, i32), pcx: i32, pcz: i32, max_dist: i32) -> bool {
    let dx = key.0 - pcx;
    let dz = key.2 - pcz;
    (if dx < 0 { -dx } else { dx }) <= max_dist && (if dz < 0 { -dz } else { dz }) <= max_dist
}

/// The distances to the player's chunk are representable (no key is so
/// far that the difference or its absolute value leaves `i32`).
pub open spec fn distances_fit(keys: Seq<(i32, i32, i32)>, pcx: i32, pcz: i32) -> bool {
    forall|i: int| 0 <= i < keys.len() ==> {
        &&& i32::MIN < #[trigger] keys[i].0 - pcx <= i32::MAX
        &&& i32::MIN < keys[i].2 - pcz <= i32::MAX
    }
}

/// A section that a drain near `(pcx, pcz)` takes: pending, with changes,
/// and near the player.
pub open spec fn drained(
    pending: Map<(i32, i32, i32), Seq<(i16, i32)>>,
    key: (i32, i32, i32),
    pcx: i32,
    pcz: i32,
    max_dist: i32,
) -> bool {
    pending.contains_key(key) && pending[key].len() > 0 && near(key, pcx, pcz, max_dist)
}

/// The sections that a drain near `(pcx, pcz)` takes.
pub open spec fn drained_sections(
    pending: Map<(i32, i32, i32), Seq<(i16, i32)>>,
    pcx: i32,
    pcz: i32,
    max_dist: i32,
) -> Set<(i32, i32, i32)> {
    Set::new(|k: (i32, i32, i32)| drained(pending, k, pcx, pcz, max_dist))
}

/// A drain takes everything it would take: the same drain right after it
/// finds no section to take.
pub proof fn drain_leaves_nothing_to_drain(
    pending: Map<(i32, i32, i32), Seq<(i16, i32)>>,
    pcx: i32,
    pcz: i32,
    max_dist: i32,
)
    ensures
        drained_sections(pending.remove_keys(drained_sections(pending, pcx, pcz, max_dist)), pcx, pcz, max_dist)
            == Set::<(i32, i32, i32)>::empty(),
{
    let after = pending.remove_keys(drained_sections(pending, pcx, pcz, max_dist));
    assert(drained_sections(after, pcx, pcz, max_dist) =~= Set::<(i32, i32, i32)>::empty());
}

impl DirtyBlockTracker {
    /// Changed blocks by section.
    pub closed spec fn pending_view(&self) -> Map<(i32, i32, i32), Seq<(i16, i32)>> {
        self.pending.map().map_values(|v: Vec<(i16, i32)>| v@)
    }

    /// Sections in the order they were first marked.
    pub closed spec fn section_order(&self) -> Seq<(i32, i32, i32)> {
        self.pending.keys()
    }

    pub closed spec fn generation_spec(&self) -> u64 {
        self.generation
    }

    pub closed spec fn wf(&self) -> bool {
        self.pending.wf()
    }

    pub fn new() -> (r: DirtyBlockTracker)
        ensures
            r.wf(),
            r.pending_view() == Map::<(i32, i32, i32), Seq<(i16, i32)>>::empty(),
            r.generation_spec() == 0,
    {
        let r = DirtyBlockTracker { pending: Table::new(), generation: 0 };
        assert(r.pending_view() =~= Map::<(i32, i32, i32), Seq<(i16, i32)>>::empty());
        r
    }

    /// Records a changed block at world coordinates and advances the
    /// generation.
    pub fn mark_block(&mut self, world_x: i32, world_y: i32, world_z: i32, block_state_id: u32)
        requires
            old(self).wf(),
        ensures
            final(self).wf(),
            final(self).generation_spec() == next_generation(old(self).generation_spec()),
            ({
                let key = section_of(world_x, world_y, world_z);
                let entry = (local_index(world_x, world_y, world_z), as_i32(block_state_id));
                final(self).pending_view() == old(self).pending_view().insert(key,
                    if old(self).pending_view().contains_key(key) {
                        old(self).pending_view()[key].push(entry)
                    } else {
                        seq![entry]
                    })
            }),
    {
        let key = (div16(world_x), div16(world_y), div16(world_z));
        let lx = mod16(world_x);
        let ly = mod16(world_y);
        let lz = mod16(world_z);
        let index: i16 = (ly * 256 + lz * 16 + lx) as i16;
        let entry = (index, block_state_id as i32);
        let ghost before = self.pending_view();
        match self.pending.index_of(&key) {
            Some(i) => {
                proof { self.pending.lemma_positions(); }
                let mut v = self.pending.replace_at(i, Vec::new());
                let ghost old_v = v@;
                v.push(entry);
                let ghost new_v = v@;
                let _ = self.pending.replace_at(i, v);
                proof {
                    assert(new_v == old_v.push(entry));
                    assert(self.pending_view() =~= before.insert(key, old_v.push(entry)));
                }
            },
            None => {
                let mut v: Vec<(i16, i32)> = Vec::new();
                v.push(entry);
                let ghost new_v = v@;
                self.pending.push_new(key, v);
                proof {
                    assert(new_v =~= seq![entry]);
                    assert(self.pending_view() =~= before.insert(key, seq![entry]));
                }
            },
        }
        self.generation = self.generation.wrapping_add(1);
    }

    /// Marks a whole chunk as changed: connections resend it, so only the
    /// generation advances.
    pub fn mark_chunk(&mut self, cx: i32, cz: i32)
        ensures
            final(self).pending_view() == old(self).pending_view(),
            final(self).section_order() == old(self).section_order(),
            final(self).wf() == old(self).wf(),
            final(self).generation_spec() == next_generation(old(self).generation_spec()),
    {
        self.generation = self.generation.wrapping_add(1);
    }

    /// Drains the pending changes of the sections near a player: returns
    /// them, in the order the sections were first marked, and removes them
    /// from the pending set. Sections out of range, or with no changes,
    /// stay pending.
    pub fn drain_nearby(&mut self, player_cx: i32, player_cz: i32, max_dist: i32) -> (r: Vec<(i32, i32, i32, Vec<(i16, i32)>)>)
        requires
            old(self).wf(),
            distances_fit(old(self).section_order(), player_cx, player_cz),
        ensures
            final(self).wf(),
            final(self).generation_spec() == old(self).generation_spec(),
            r@.map_values(|e: (i32, i32, i32, Vec<(i16, i32)>)| ((e.0, e.1, e.2), e.3@))
                == old(self).section_order().filter(|k: (i32, i32, i32)|
                    drained(old(self).pending_view(), k, player_cx, player_cz, max_dist))
                    .map_values(|k: (i32, i32, i32)| (k, old(self).pending_view()[k])),
            final(self).section_order() == old(self).section_order().filter(|k: (i32, i32, i32)|
                !drained(old(self).pending_view(), k, player_cx, player_cz, max_dist)),
            final(self).pending_view() == old(self).pending_view().remove_keys(
                drained_sections(old(self).pending_view(), player_cx, player_cz, max_dist)),
    {
        let ghost view = self.pending_view();
        let ghost order = self.section_order();
        let ghost f = |k: (i32, i32, i32)| drained(view, k, player_cx, player_cz, max_dist);
        let ghost nf = |k: (i32, i32, i32)| !drained(view, k, player_cx, player_cz, max_dist);
        let ghost g = |k: (i32, i32, i32)| (k, view[k]);
        let ghost h = |e: (i32, i32, i32, Vec<(i16, i32)>)| ((e.0, e.1, e.2), e.3@);
        let mut out: Vec<(i32, i32, i32, Vec<(i16, i32)>)> = Vec::new();
        let mut kept: Table<(i32, i32, i32), Vec<(i16, i32)>> = Table::new();
        let n = self.pending.len();
        let mut i: usize = 0;
        proof {
            self.pending.lemma_positions();
            assert(kept.keys() =~= order.take(0).filter(nf));
        }
        while i < n
            invariant
                n == self.pending.size(),
                i <= n,
                self.wf(),
                kept.wf(),
                view == self.pending_view(),
                order == self.section_order(),
                distances_fit(order, player_cx, player_cz),
                f == (|k: (i32, i32, i32)| drained(view, k, player_cx, player_cz, max_dist)),
                nf == (|k: (i32, i32, i32)| !drained(view, k, player_cx, player_cz, max_dist)),
                g == (|k: (i32, i32, i32)| (k, view[k])),
                h == (|e: (i32, i32, i32, Vec<(i16, i32)>)| ((e.0, e.1, e.2), e.3@)),
                out@.map_values(h) == order.take(i as int).filter(f).map_values(g),
                kept.keys() == order.take(i as int).filter(nf),
                forall|k: (i32, i32, i32)| #[trigger] kept.map().contains_key(k) <==>
                    (order.take(i as int).contains(k) && !drained(view, k, player_cx, player_cz, max_dist)),
                forall|k: (i32, i32, i32)| #[trigger] kept.map().contains_key(k) ==> kept.map()[k]@ == view[k],
            decreases n - i,
        {
            proof {
                self.pending.lemma_positions();
                assert(order[i as int] == self.pending.key_at(i as int));
                assert(self.pending.map().contains_key(self.pending.key_at(i as int)));
                assert(order.take(i + 1) =~= order.take(i as int).push(order[i as int]));
                order.take(i as int).lemma_filter_push(order[i as int], f);
                order.take(i as int).lemma_filter_push(order[i as int], nf);
                assert(!order.take(i as int).contains(order[i as int])) by {
                    if order.take(i as int).contains(order[i as int]) {
                        let j = choose|j: int| 0 <= j < i && #[trigger] order.take(i as int)[j] == order[i as int];
                        assert(self.pending.key_at(j) == self.pending.key_at(i as int));
                    }
                }
            }
            let key = *self.pending.key(i);
            let blocks = self.pending.value_at(i);
            let dx: i32 = key.0 - player_cx;
            let dz: i32 = key.2 - player_cz;
            let adx: i32 = if dx < 0 { -dx } else { dx };
            let adz: i32 = if dz < 0 { -dz } else { dz };
            let copy = copy_blocks(blocks);
            let ghost kept_before = kept;
            if adx <= max_dist && adz <= max_dist && blocks.len() > 0 {
                let ghost before = out@;
                let e = (key.0, key.1, key.2, copy);
                out.push(e);
                proof {
                    assert(f(key));
                    assert(out@ =~= before.push(e));
                    assert(out@.map_values(h) =~= before.map_values(h).push(h(e)));
                    assert(h(e) == g(order[i as int]));
                }
            } else {
                proof {
                    assert(nf(key));
                    assert(!kept.map().contains_key(key));
                }
                kept.push_new(key, copy);
                proof {
                    assert(kept.keys() =~= kept_before.keys().push(key));
                }
            }
            proof {
                assert forall|k: (i32, i32, i32)| #[trigger] kept.map().contains_key(k) <==>
                    (order.take(i + 1).contains(k) && !drained(view, k, player_cx, player_cz, max_dist)) by {
                    let before_has = kept_before.map().contains_key(k);
                    if k == key {
                        assert(order.take(i + 1)[i as int] == k);
                    } else {
                        assert(kept.map().contains_key(k) == before_has);
                        if order.take(i + 1).contains(k) {
                            let j = choose|j: int| 0 <= j < i + 1 && #[trigger] order.take(i + 1)[j] == k;
                            assert(j != i);
                            assert(order.take(i as int)[j] == k);
                        }
                        if order.take(i as int).contains(k) {
                            let j = choose|j: int| 0 <= j < i && #[trigger] order.take(i as int)[j] == k;
                            assert(order.take(i + 1)[j] == k);
                        }
                    }
                }
                assert forall|k: (i32, i32, i32)| #[trigger] kept.map().contains_key(k) implies kept.map()[k]@ == view[k] by {
                    if k != key {
                        assert(kept_before.map().contains_key(k));
                    }
                }
            }
            i = i + 1;
        }
        proof {
            assert(order.take(n as int) =~= order);
        }
        proof {
            self.pending.lemma_positions();
            assert forall|k: (i32, i32, i32)| order.contains(k) <==> view.contains_key(k) by {
                if view.contains_key(k) {
                    assert(self.pending.map().contains_key(k));
                    let j = choose|j: int| 0 <= j < self.pending.size() && #[trigger] self.pending.key_at(j) == k;
                    assert(order[j] == k);
                }
                if order.contains(k) {
                    let j = choose|j: int| 0 <= j < order.len() && #[trigger] order[j] == k;
                    assert(self.pending.map().contains_key(self.pending.key_at(j)));
                }
            }
        }
        self.pending = kept;
        proof {
            let d = drained_sections(view, player_cx, player_cz, max_dist);
            assert(self.pending_view() =~= view.remove_keys(d));
        }
        out
    }

    /// Drops every pending change once more than 1024 sections wait.
    pub fn cleanup_stale(&mut self, current_tick: u64)
        requires
            old(self).wf(),
        ensures
            final(self).wf(),
            final(self).generation_spec() == old(self).generation_spec(),
            old(self).pending_view().dom().len() > MAX_PENDING_SECTIONS ==>
                final(self).pending_view() == Map::<(i32, i32, i32), Seq<(i16, i32)>>::empty(),
            old(self).pending_view().dom().len() <= MAX_PENDING_SECTIONS ==>
                final(self).pending_view() == old(self).pending_view(),
    {
        proof {
            self.pending.lemma_positions();
            assert(self.pending_view().dom() =~= self.pending.map().dom());
        }
        if self.pending.len() > MAX_PENDING_SECTIONS {
            self.pending = Table::new();
            assert(self.pending_view() =~= Map::<(i32, i32, i32), Seq<(i16, i32)>>::empty());
        }
    }

    pub fn generation(&self) -> (r: u64)
        ensures
            r == self.generation_spec(),
    {
        self.generation
    }
}

impl Default for DirtyBlockTracker {
    fn default() -> (r: DirtyBlockTracker)
        ensures
            r.wf(),
            r.pending_view() == Map::<(i32, i32, i32), Seq<(i16, i32)>>::empty(),
            r.generation_spec() == 0,
    {
        DirtyBlockTracker::new()
    }
}

fn copy_blocks(v: &Vec<(i16, i32)>) -> (r: Vec<(i16, i32)>)
    ensures
        r@ == v@,
{
    let mut out: Vec<(i16, i32)> = Vec::new();
    let mut i: usize = 0;
    while i < v.len()
        invariant
            i <= v@.len(),
            out@ == v@.subrange(0, i as int),
        decreases v@.len() - i,
    {
        out.push(v[i]);
        i = i + 1;
        assert(out@ =~= v@.subrange(0, i as int));
    }
    assert(v@.subrange(0, v@.len() as int) =~= v@);
    out
}

/// The view distance for the number of players online: the maximum for
/// one player, one less for up to three, two less for up to six, three
/// less beyond, never below 4 (unless the maximum itself is).
pub open spec fn view_distance_for(online: u32, max: u8) -> u8 {
    let less = |k: u8| if max >= k { (max - k) as u8 } else { 0u8 };
    let at_least_4 = |v: u8| if v >= 4 { v } else { 4u8 };
    if online <= 1 {
        max
    } else if online <= 3 {
        at_least_4(less(1))
    } else if online <= 6 {
        at_least_4(less(2))
    } else {
        at_least_4(less(3))
    }
}

/// The view distance to use with `online` players and a configured
/// maximum.
pub fn effective_view_distance(online: u32, max_view_distance: u8) -> (r: u8)
    ensures
        r == view_distance_for(online, max_view_distance),
{
    let max = max_view_distance;
    if online <= 1 {
        return max;
    }
    let k: u8 = if online <= 3 { 1 } else if online <= 6 { 2 } else { 3 };
    let v = max.saturating_sub(k);
    if v >= 4 { v } else { 4 }
}

/// Fewer players never shrink the view distance.
pub proof fn view_distance_monotone(a: u32, b: u32, max: u8)
    requires
        a <= b,
        max >= 4,
    ensures
        view_distance_for(b, max) <= view_distance_for(a, max),
        view_distance_for(b, max) >= 4,
{
}

/// The protocol sound id for a sound name (with or without `minecraft:`);
/// unknown names give the stone-breaking sound.
pub open spec fn sound_id_for(name: Seq<char>) -> i32 {
    if name == "minecraft:block.note_block.pling"@ || name == "block.note_block.pling"@ {
        400
    } else if name == "minecraft:block.note_block.harp"@ || name == "block.note_block.harp"@ {
        401
    } else if name == "minecraft:entity.player.levelup"@ || name == "entity.player.levelup"@ {
        500
    } else if name == "minecraft:entity.experience_orb.pickup"@ || name == "entity.experience_orb.pickup"@ {
        501
    } else if name == "minecraft:entity.generic.explode"@ || name == "entity.generic.explode"@ {
        SoundIds::ENTITY_GENERIC_EXPLODE
    } else if name == "minecraft:entity.player.hurt"@ || name == "entity.player.hurt"@ {
        SoundIds::ENTITY_PLAYER_HURT
    } else if name == "minecraft:entity.generic.hurt"@ || name == "entity.generic.hurt"@ {
        SoundIds::ENTITY_GENERIC_HURT
    } else {
        SoundIds::BLOCK_STONE_BREAK
    }
}

pub fn resolve_sound_id(name: &str) -> (r: i32)
    ensures
        r == sound_id_for(name@),
{
    if str_eq(name, "minecraft:block.note_block.pling") || str_eq(name, "block.note_block.pling") {
        400
    } else if str_eq(name, "minecraft:block.note_block.harp") || str_eq(name, "block.note_block.harp") {
        401
    } else if str_eq(name, "minecraft:entity.player.levelup") || str_eq(name, "entity.player.levelup") {
        500
    } else if str_eq(name, "minecraft:entity.experience_orb.pickup") || str_eq(name, "entity.experience_orb.pickup") {
        501
    } else if str_eq(name, "minecraft:entity.generic.explode") || str_eq(name, "entity.generic.explode") {
        SoundIds::ENTITY_GENERIC_EXPLODE
    } else if str_eq(name, "minecraft:entity.player.hurt") || str_eq(name, "entity.player.hurt") {
        SoundIds::ENTITY_PLAYER_HURT
    } else if str_eq(name, "minecraft:entity.generic.hurt") || str_eq(name, "entity.generic.hurt") {
        SoundIds::ENTITY_GENERIC_HURT
    } else {
        SoundIds::BLOCK_STONE_BREAK
    }
}

/// Ore block ids (breaking one of them drops experience).
pub open spec fn ore_id(id: u32) -> bool {
    id == 31 || id == 29 || id == 27 || id == 47 || id == 300 || id == 117 || id == 59 || id == 303
        || (337 <= id && id <= 343)
}

pub fn is_ore_block(block_id: u32) -> (r: bool)
    ensures
        r == ore_id(block_id),
{
    block_id == 31 || block_id == 29 || block_id == 27 || block_id == 47 || block_id == 300 || block_id == 117
        || block_id == 59 || block_id == 303 || (337 <= block_id && block_id <= 343)
}

} // verus!
