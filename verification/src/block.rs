use vstd::prelude::*;
use crate::position::BlockPos;

verus! {

/// A block state: base block id from the global palette and property bits.
///
/// Property bits: bit 0 waterlogged, bits 1-3 facing, bit 4 upper half,
/// bits 5-6 axis, bit 7 powered, bits 8-10 crop age.
#[derive(Debug, Clone, Copy, PartialEq, Eq, Hash, Structural)]
pub struct BlockState {
    pub id: u32,
    pub props: u16,
}

/// Ids of blocks that entities pass through (plants, torches, rails, redstone
/// parts and similar).
pub open spec fn is_passable_id(id: u32) -> bool {
    id == 31 || id == 32 || id == 37 || id == 38 || id == 39 || id == 40 || id == 51 || id == 55
        || id == 59 || id == 63 || id == 64 || id == 65 || id == 66 || id == 67 || id == 68 || id == 69
        || id == 70 || id == 71 || id == 75 || id == 76 || id == 77 || id == 78 || id == 83 || id == 93
        || id == 94 || id == 96 || id == 97 || id == 98 || id == 99 || id == 100 || id == 101
        || id == 102 || id == 103 || id == 104 || id == 131 || id == 132 || id == 143 || id == 144
        || id == 175 || id == 176
}

pub open spec fn bit_waterlogged(p: u16) -> bool { p & 0x0001 != 0 }
pub open spec fn bits_facing(p: u16) -> u8 { ((p >> 1u16) & 0x07) as u8 }
pub open spec fn bit_upper_half(p: u16) -> bool { p & 0x0010 != 0 }
pub open spec fn bits_axis(p: u16) -> u8 { ((p >> 5u16) & 0x03) as u8 }
pub open spec fn bit_powered(p: u16) -> bool { p & 0x0080 != 0 }
pub open spec fn bits_age(p: u16) -> u8 { ((p >> 8u16) & 0x07) as u8 }

/// Solid blocks: not air, not waterlogged, not water or lava (267, 268), not passable.
pub open spec fn is_solid_state(s: BlockState) -> bool {
    s.id != 0 && !bit_waterlogged(s.props) && s.id != 267 && s.id != 268 && !is_passable_id(s.id)
}

/// The air state.
pub open spec fn air_state() -> BlockState {
    BlockState { id: 0, props: 0 }
}

impl BlockState {
    /// The air state (id 0, no properties).
    pub fn air() -> (r: BlockState)
        ensures
            r == air_state(),
    {
        BlockState { id: 0, props: 0 }
    }

    pub open spec fn new_spec(id: u32) -> BlockState {
        BlockState { id, props: 0 }
    }

    pub fn new(id: u32) -> (r: BlockState)
        ensures
            r == BlockState::new_spec(id),
    {
        BlockState { id, props: 0 }
    }

    pub fn with_props(id: u32, props: u16) -> (r: BlockState)
        ensures
            r == (BlockState { id, props }),
    {
        BlockState { id, props }
    }

    pub fn is_air(self) -> (r: bool)
        ensures
            r == (self.id == 0),
    {
        self.id == 0
    }

    pub fn is_solid(self) -> (r: bool)
        ensures
            r == is_solid_state(self),
    {
        if self.id == 0 {
            return false;
        }
        if self.waterlogged() {
            return false;
        }
        if self.id == 267 || self.id == 268 {
            return false;
        }
        let id = self.id;
        !(id == 31 || id == 32 || id == 37 || id == 38 || id == 39 || id == 40 || id == 51 || id == 55
            || id == 59 || id == 63 || id == 64 || id == 65 || id == 66 || id == 67 || id == 68 || id == 69
            || id == 70 || id == 71 || id == 75 || id == 76 || id == 77 || id == 78 || id == 83 || id == 93
            || id == 94 || id == 96 || id == 97 || id == 98 || id == 99 || id == 100 || id == 101
            || id == 102 || id == 103 || id == 104 || id == 131 || id == 132 || id == 143 || id == 144
            || id == 175 || id == 176)
    }

    pub fn waterlogged(self) -> (r: bool)
        ensures
            r == bit_waterlogged(self.props),
    {
        self.props & 0x0001 != 0
    }

    pub fn set_waterlogged(&mut self, wl: bool)
        ensures
            final(self).id == old(self).id,
            final(self).props == if wl { old(self).props | 0x0001 } else { old(self).props & !0x0001u16 },
    {
        if wl {
            self.props = self.props | 0x0001u16;
        } else {
            self.props = self.props & !0x0001u16;
        }
    }

    pub fn facing(self) -> (r: u8)
        ensures
            r == bits_facing(self.props),
    {
        ((self.props >> 1u16) & 0x07) as u8
    }

    pub fn set_facing(&mut self, dir: u8)
        ensures
            final(self).id == old(self).id,
            final(self).props == (old(self).props & !0x000Eu16) | (((dir & 0x07) as u16) << 1u16),
    {
        self.props = (self.props & !0x000Eu16) | (((dir & 0x07) as u16) << 1u16);
    }

    pub fn upper_half(self) -> (r: bool)
        ensures
            r == bit_upper_half(self.props),
    {
        self.props & 0x0010 != 0
    }

    pub fn set_upper_half(&mut self, upper: bool)
        ensures
            final(self).id == old(self).id,
            final(self).props == if upper { old(self).props | 0x0010 } else { old(self).props & !0x0010u16 },
    {
        if upper {
            self.props = self.props | 0x0010u16;
        } else {
            self.props = self.props & !0x0010u16;
        }
    }

    pub fn axis(self) -> (r: u8)
        ensures
            r == bits_axis(self.props),
    {
        ((self.props >> 5u16) & 0x03) as u8
    }

    pub fn set_axis(&mut self, ax: u8)
        ensures
            final(self).id == old(self).id,
            final(self).props == (old(self).props & !0x0060u16) | (((ax & 0x03) as u16) << 5u16),
    {
        self.props = (self.props & !0x0060u16) | (((ax & 0x03) as u16) << 5u16);
    }

    pub fn powered(self) -> (r: bool)
        ensures
            r == bit_powered(self.props),
    {
        self.props & 0x0080 != 0
    }

    pub fn set_powered(&mut self, p: bool)
        ensures
            final(self).id == old(self).id,
            final(self).props == if p { old(self).props | 0x0080 } else { old(self).props & !0x0080u16 },
    {
        if p {
            self.props = self.props | 0x0080u16;
        } else {
            self.props = self.props & !0x0080u16;
        }
    }

    pub fn age(self) -> (r: u8)
        ensures
            r == bits_age(self.props),
    {
        ((self.props >> 8u16) & 0x07) as u8
    }

    pub fn set_age(&mut self, age: u8)
        ensures
            final(self).id == old(self).id,
            final(self).props == (old(self).props & !0x0700u16) | (((age & 0x07) as u16) << 8u16),
    {
        self.props = (self.props & !0x0700u16) | (((age & 0x07) as u16) << 8u16);
    }
}

impl Default for BlockState {
    fn default() -> (r: BlockState)
        ensures
            r == air_state(),
    {
        BlockState { id: 0, props: 0 }
    }
}

/// Each property setter makes its own accessor read back the stored value
/// (the facing, axis and age values reduced to their bit width) and leaves
/// every other property as it was.
pub proof fn property_setters_are_independent(p: u16, b: bool, v: u8)
    ensures
        ({ let q: u16 = if b { p | 0x0001 } else { p & !0x0001u16 };
            bit_waterlogged(q) == b && bits_facing(q) == bits_facing(p) && bit_upper_half(q) == bit_upper_half(p)
            && bits_axis(q) == bits_axis(p) && bit_powered(q) == bit_powered(p) && bits_age(q) == bits_age(p) }),
        ({ let q: u16 = (p & !0x000Eu16) | (((v & 0x07) as u16) << 1u16);
            bits_facing(q) == v & 0x07 && bit_waterlogged(q) == bit_waterlogged(p) && bit_upper_half(q) == bit_upper_half(p)
            && bits_axis(q) == bits_axis(p) && bit_powered(q) == bit_powered(p) && bits_age(q) == bits_age(p) }),
        ({ let q: u16 = if b { p | 0x0010 } else { p & !0x0010u16 };
            bit_upper_half(q) == b && bit_waterlogged(q) == bit_waterlogged(p) && bits_facing(q) == bits_facing(p)
            && bits_axis(q) == bits_axis(p) && bit_powered(q) == bit_powered(p) && bits_age(q) == bits_age(p) }),
        ({ let q: u16 = (p & !0x0060u16) | (((v & 0x03) as u16) << 5u16);
            bits_axis(q) == v & 0x03 && bit_waterlogged(q) == bit_waterlogged(p) && bits_facing(q) == bits_facing(p)
            && bit_upper_half(q) == bit_upper_half(p) && bit_powered(q) == bit_powered(p) && bits_age(q) == bits_age(p) }),
        ({ let q: u16 = if b { p | 0x0080 } else { p & !0x0080u16 };
            bit_powered(q) == b && bit_waterlogged(q) == bit_waterlogged(p) && bits_facing(q) == bits_facing(p)
            && bit_upper_half(q) == bit_upper_half(p) && bits_axis(q) == bits_axis(p) && bits_age(q) == bits_age(p) }),
        ({ let q: u16 = (p & !0x0700u16) | (((v & 0x07) as u16) << 8u16);
            bits_age(q) == v & 0x07 && bit_waterlogged(q) == bit_waterlogged(p) && bits_facing(q) == bits_facing(p)
            && bit_upper_half(q) == bit_upper_half(p) && bits_axis(q) == bits_axis(p) && bit_powered(q) == bit_powered(p) }),
{
    assert(((p | 0x0001) & 0x0001 != 0) && ((p & !0x0001u16) & 0x0001 == 0)
        && (((p | 0x0001) >> 1u16) & 0x07) == ((p >> 1u16) & 0x07) && (((p & !0x0001u16) >> 1u16) & 0x07) == ((p >> 1u16) & 0x07)
        && ((p | 0x0001) & 0x0010) == (p & 0x0010) && ((p & !0x0001u16) & 0x0010) == (p & 0x0010)
        && (((p | 0x0001) >> 5u16) & 0x03) == ((p >> 5u16) & 0x03) && (((p & !0x0001u16) >> 5u16) & 0x03) == ((p >> 5u16) & 0x03)
        && ((p | 0x0001) & 0x0080) == (p & 0x0080) && ((p & !0x0001u16) & 0x0080) == (p & 0x0080)
        && (((p | 0x0001) >> 8u16) & 0x07) == ((p >> 8u16) & 0x07) && (((p & !0x0001u16) >> 8u16) & 0x07) == ((p >> 8u16) & 0x07))
        by (bit_vector);
    assert(((p | 0x0010) & 0x0010 != 0) && ((p & !0x0010u16) & 0x0010 == 0)
        && (((p | 0x0010) >> 1u16) & 0x07) == ((p >> 1u16) & 0x07) && (((p & !0x0010u16) >> 1u16) & 0x07) == ((p >> 1u16) & 0x07)
        && ((p | 0x0010) & 0x0001) == (p & 0x0001) && ((p & !0x0010u16) & 0x0001) == (p & 0x0001)
        && (((p | 0x0010) >> 5u16) & 0x03) == ((p >> 5u16) & 0x03) && (((p & !0x0010u16) >> 5u16) & 0x03) == ((p >> 5u16) & 0x03)
        && ((p | 0x0010) & 0x0080) == (p & 0x0080) && ((p & !0x0010u16) & 0x0080) == (p & 0x0080)
        && (((p | 0x0010) >> 8u16) & 0x07) == ((p >> 8u16) & 0x07) && (((p & !0x0010u16) >> 8u16) & 0x07) == ((p >> 8u16) & 0x07))
        by (bit_vector);
    assert(((p | 0x0080) & 0x0080 != 0) && ((p & !0x0080u16) & 0x0080 == 0)
        && (((p | 0x0080) >> 1u16) & 0x07) == ((p >> 1u16) & 0x07) && (((p & !0x0080u16) >> 1u16) & 0x07) == ((p >> 1u16) & 0x07)
        && ((p | 0x0080) & 0x0001) == (p & 0x0001) && ((p & !0x0080u16) & 0x0001) == (p & 0x0001)
        && (((p | 0x0080) >> 5u16) & 0x03) == ((p >> 5u16) & 0x03) && (((p & !0x0080u16) >> 5u16) & 0x03) == ((p >> 5u16) & 0x03)
        && ((p | 0x0080) & 0x0010) == (p & 0x0010) && ((p & !0x0080u16) & 0x0010) == (p & 0x0010)
        && (((p | 0x0080) >> 8u16) & 0x07) == ((p >> 8u16) & 0x07) && (((p & !0x0080u16) >> 8u16) & 0x07) == ((p >> 8u16) & 0x07))
        by (bit_vector);
    let vf: u16 = (v & 0x07) as u16;
    let va: u16 = (v & 0x03) as u16;
    assert(vf < 8 && va < 4) by (bit_vector)
        requires vf == (v & 0x07) as u16, va == (v & 0x03) as u16;
    let qf: u16 = (p & !0x000Eu16) | (vf << 1u16);
    assert(((qf >> 1u16) & 0x07) == vf && (qf & 0x0001) == (p & 0x0001) && (qf & 0x0010) == (p & 0x0010)
        && ((qf >> 5u16) & 0x03) == ((p >> 5u16) & 0x03) && (qf & 0x0080) == (p & 0x0080)
        && ((qf >> 8u16) & 0x07) == ((p >> 8u16) & 0x07)) by (bit_vector)
        requires qf == (p & !0x000Eu16) | (vf << 1u16), vf < 8;
    let qa: u16 = (p & !0x0060u16) | (va << 5u16);
    assert(((qa >> 5u16) & 0x03) == va && (qa & 0x0001) == (p & 0x0001) && (qa & 0x0010) == (p & 0x0010)
        && ((qa >> 1u16) & 0x07) == ((p >> 1u16) & 0x07) && (qa & 0x0080) == (p & 0x0080)
        && ((qa >> 8u16) & 0x07) == ((p >> 8u16) & 0x07)) by (bit_vector)
        requires qa == (p & !0x0060u16) | (va << 5u16), va < 4;
    let qg: u16 = (p & !0x0700u16) | (vf << 8u16);
    assert(((qg >> 8u16) & 0x07) == vf && (qg & 0x0001) == (p & 0x0001) && (qg & 0x0010) == (p & 0x0010)
        && ((qg >> 1u16) & 0x07) == ((p >> 1u16) & 0x07) && (qg & 0x0080) == (p & 0x0080)
        && ((qg >> 5u16) & 0x03) == ((p >> 5u16) & 0x03)) by (bit_vector)
        requires qg == (p & !0x0700u16) | (vf << 8u16), vf < 8;
    assert((vf as u8) == v & 0x07 && (va as u8) == v & 0x03) by (bit_vector)
        requires vf == (v & 0x07) as u16, va == (v & 0x03) as u16;
}

/// Registry of block states: state number `i` is block `i` with default properties.
#[derive(Debug)]
pub struct BlockRegistry {
    states: Vec<BlockState>,
    default_state: BlockState,
}

impl BlockRegistry {
    /// Every registered state sits at the index equal to its id, with no
    /// property bits set.
    pub closed spec fn wf(&self) -> bool {
        &&& forall|i: int| 0 <= i < self.states@.len() ==> #[trigger] self.states@[i] == BlockState { id: i as u32, props: 0 }
        &&& self.states@.len() <= u32::MAX as nat + 1
    }

    /// Number of registered states.
    pub closed spec fn count(&self) -> nat {
        self.states@.len()
    }

    pub closed spec fn spec_default_state(&self) -> BlockState {
        self.default_state
    }

    /// The registry with air as state 0.
    pub fn new() -> (r: BlockRegistry)
        ensures
            r.wf(),
            r.count() == 1,
            r.spec_default_state() == air_state(),
    {
        let air = BlockState::air();
        let mut states: Vec<BlockState> = Vec::new();
        states.push(air);
        BlockRegistry { states, default_state: air }
    }

    pub fn get(&self, id: u32) -> (r: Option<BlockState>)
        requires
            self.wf(),
        ensures
            r == registered_state(self.count(), id),
    {
        let i = id as usize;
        if i < self.states.len() {
            Some(self.states[i])
        } else {
            None
        }
    }

    pub fn default_state(&self) -> (r: BlockState)
        ensures
            r == self.spec_default_state(),
    {
        self.default_state
    }

    pub fn len(&self) -> (r: usize)
        ensures
            r == self.count(),
    {
        self.states.len()
    }

    pub fn is_empty(&self) -> (r: bool)
        ensures
            r == (self.count() == 0),
    {
        self.states.len() == 0
    }

    /// Registers the next state and returns it.
    pub fn register(&mut self) -> (r: BlockState)
        requires
            old(self).wf(),
            old(self).count() <= u32::MAX as nat,
        ensures
            final(self).wf(),
            r == (BlockState { id: old(self).count() as u32, props: 0 }),
            final(self).count() == old(self).count() + 1,
            final(self).spec_default_state() == old(self).spec_default_state(),
    {
        let id = self.states.len() as u32;
        let state = BlockState::new(id);
        self.states.push(state);
        state
    }
}

impl Default for BlockRegistry {
    /// The empty registry (no air state), with air as default state.
    fn default() -> (r: BlockRegistry)
        ensures
            r.wf(),
            r.count() == 0,
            r.spec_default_state() == air_state(),
    {
        BlockRegistry { states: Vec::new(), default_state: BlockState::air() }
    }
}

/// What `get` returns for `id` in a registry of `count` states.
pub open spec fn registered_state(count: nat, id: u32) -> Option<BlockState> {
    if (id as nat) < count { Some(BlockState { id, props: 0 }) } else { None }
}

/// After `register` returns state `s` (so the count grows from `count` to
/// `count + 1`), looking up `s.id` gives `s`, and every other id gives what it
/// gave before.
pub proof fn registry_register_then_get(count: nat, id: u32)
    requires
        count <= u32::MAX as nat,
    ensures
        registered_state(count + 1, count as u32) == Some(BlockState { id: count as u32, props: 0 }),
        id as nat != count ==> registered_state(count + 1, id) == registered_state(count, id),
{
}

/// Additional data of a block that holds an inventory or text.
#[derive(Debug, Clone)]
pub struct BlockEntity {
    pub pos: BlockPos,
    pub nbt_data: Vec<u8>,
    pub entity_type: BlockEntityType,
}

#[derive(Debug, Clone, Copy, PartialEq, Eq, Structural)]
pub enum BlockEntityType {
    Chest,
    Furnace,
    Sign,
    Beacon,
    Lectern,
}

pub open spec fn block_entity_key(t: BlockEntityType) -> Seq<char> {
    match t {
        BlockEntityType::Chest => "minecraft:chest"@,
        BlockEntityType::Furnace => "minecraft:furnace"@,
        BlockEntityType::Sign => "minecraft:sign"@,
        BlockEntityType::Beacon => "minecraft:beacon"@,
        BlockEntityType::Lectern => "minecraft:lectern"@,
    }
}

impl BlockEntityType {
    pub fn id(self) -> (r: &'static str)
        ensures
            r@ == block_entity_key(self),
    {
        match self {
            BlockEntityType::Chest => "minecraft:chest",
            BlockEntityType::Furnace => "minecraft:furnace",
            BlockEntityType::Sign => "minecraft:sign",
            BlockEntityType::Beacon => "minecraft:beacon",
            BlockEntityType::Lectern => "minecraft:lectern",
        }
    }
}

} // verus!
