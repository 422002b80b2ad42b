//! Block commands: `/setblock`, `/fill` and `/clone`. The server places the blocks;
//! these commands check the arguments, find which chunk columns are
//! loaded, and count what will change.

use vstd::prelude::*;
use vstd::string::*;
use crate::block::BlockState;
use crate::commands::context::{
    arg_views, emit, event_view, event_views, loaded_view, CommandContext, CommandResult, EventView, ReplyView, ServerData,
    ServerEvent,
};
use crate::commands::info::only_events_added;
use crate::commands::player::item_block;
use crate::item::resolve_item;
use crate::position::div16;
use crate::text::{decimal, i32_of, i32_opt, push_i64, push_u64, signed_decimal};

verus! {

/// Lowest and highest block heights.
pub const MIN_Y: i32 = -64;
pub const MAX_Y: i32 = 319;

/// Most blocks one `/fill` may change.
pub const MAX_FILL_VOLUME: u64 = 32768;

/// The chunk column holding block column `(x, z)` is in `v`.
pub open spec fn column_loaded(v: Seq<(i32, i32)>, x: int, z: int) -> bool {
    v.contains(((x / 16) as i32, (z / 16) as i32))
}

// ───────────────────────────────── /setblock ─────────────────────────────────

pub open spec fn setblock_usage() -> Seq<char> {
    "Usage: /setblock <x> <y> <z> <block>"@
}

/// `/setblock <x> <y> <z> <block>`.
pub open spec fn setblock_outcome(ctx: CommandContext) -> (ReplyView, Seq<EventView>) {
    let a = arg_views(ctx);
    if a.len() < 4 {
        (Err(setblock_usage()), Seq::empty())
    } else {
        match (i32_of(a[0]), i32_of(a[1]), i32_of(a[2])) {
            (None, _, _) => (Err("Invalid X: "@ + a[0]), Seq::empty()),
            (Some(_), None, _) => (Err("Invalid Y: "@ + a[1]), Seq::empty()),
            (Some(_), Some(_), None) => (Err("Invalid Z: "@ + a[2]), Seq::empty()),
            (Some(x), Some(y), Some(z)) => if !(MIN_Y <= y <= MAX_Y) {
                (Err("Y coordinate "@ + signed_decimal(y as int) + " out of range [-64, 319]"@), Seq::empty())
            } else {
                match item_block(a[3]) {
                    None => (Err("Unknown block: "@ + a[3]), Seq::empty()),
                    Some(block) => match loaded_view(ctx) {
                        None => (Err("Chunk store not available"@), Seq::empty()),
                        Some(v) => if column_loaded(v, x as int, z as int) {
                            (
                                Ok("Set block at ("@ + signed_decimal(x as int) + ", "@ + signed_decimal(y as int) + ", "@
                                    + signed_decimal(z as int) + ") to "@ + a[3]),
                                seq![EventView::SetBlock { x, y, z, block }],
                            )
                        } else {
                            (
                                Err("Chunk ("@ + signed_decimal(x as int / 16) + ","@ + signed_decimal(z as int / 16)
                                    + ") not loaded. Walk near the area first."@),
                                Seq::empty(),
                            )
                        },
                    },
                }
            },
        }
    }
}

fn contains_column(v: &Vec<(i32, i32)>, cx: i32, cz: i32) -> (r: bool)
    ensures
        r == v@.contains((cx, cz)),
{
    let mut i: usize = 0;
    while i < v.len()
        invariant
            i <= v@.len(),
            forall|j: int| 0 <= j < i ==> v@[j] != (cx, cz),
        decreases v@.len() - i,
    {
        if v[i].0 == cx && v[i].1 == cz {
            assert(v@[i as int] == (cx, cz));
            return true;
        }
        i = i + 1;
    }
    false
}

/// `/setblock`.
pub struct SetblockCommand;

impl SetblockCommand {
    pub fn name(&self) -> &'static str {
        "setblock"
    }

    pub fn description(&self) -> &'static str {
        "Place a block at coordinates"
    }

    pub fn execute(&self, ctx: &CommandContext, server: &mut ServerData) -> (r: CommandResult)
        requires
            old(server).wf(),
        ensures
            only_events_added(*old(server), *final(server), setblock_outcome(*ctx).1),
            crate::commands::context::reply_view(r) == setblock_outcome(*ctx).0,
    {
        let ghost a = arg_views(*ctx);
        let ghost e0 = event_views(server.events@);
        proof { assert(e0 =~= e0 + Seq::<EventView>::empty()); }
        if ctx.args.len() < 4 {
            return Err(String::from_str("Usage: /setblock <x> <y> <z> <block>"));
        }
        proof {
            assert(a[0] == ctx.args@[0]@);
            assert(a[1] == ctx.args@[1]@);
            assert(a[2] == ctx.args@[2]@);
            assert(a[3] == ctx.args@[3]@);
        }
        let x = match i32_opt(ctx.args[0].as_str()) {
            Some(v) => v,
            None => {
                let mut e = String::from_str("Invalid X: ");
                e.append(ctx.args[0].as_str());
                return Err(e);
            },
        };
        let y = match i32_opt(ctx.args[1].as_str()) {
            Some(v) => v,
            None => {
                let mut e = String::from_str("Invalid Y: ");
                e.append(ctx.args[1].as_str());
                return Err(e);
            },
        };
        let z = match i32_opt(ctx.args[2].as_str()) {
            Some(v) => v,
            None => {
                let mut e = String::from_str("Invalid Z: ");
                e.append(ctx.args[2].as_str());
                return Err(e);
            },
        };
        if !(MIN_Y <= y && y <= MAX_Y) {
            let mut e = String::from_str("Y coordinate ");
            push_i64(&mut e, y as i64);
            e.append(" out of range [-64, 319]");
            return Err(e);
        }
        let name = ctx.args[3].as_str();
        let block = match resolve_item(name) {
            Some(b) => b,
            None => {
                let mut e = String::from_str("Unknown block: ");
                e.append(name);
                return Err(e);
            },
        };
        match &ctx.loaded_chunks {
            None => Err(String::from_str("Chunk store not available")),
            Some(v) => {
                let cx = div16(x);
                let cz = div16(z);
                if contains_column(v, cx, cz) {
                    emit(server, ServerEvent::SetBlock { x, y, z, block });
                    proof {
                        assert(event_views(server.events@) =~= e0 + seq![EventView::SetBlock { x, y, z, block }]);
                    }
                    let mut m = String::from_str("Set block at (");
                    push_i64(&mut m, x as i64);
                    m.append(", ");
                    push_i64(&mut m, y as i64);
                    m.append(", ");
                    push_i64(&mut m, z as i64);
                    m.append(") to ");
                    m.append(name);
                    Ok(m)
                } else {
                    let mut e = String::from_str("Chunk (");
                    push_i64(&mut e, cx as i64);
                    e.append(",");
                    push_i64(&mut e, cz as i64);
                    e.append(") not loaded. Walk near the area first.");
                    Err(e)
                }
            },
        }
    }
}

// ─────────────────────────────────── /fill ───────────────────────────────────

pub open spec fn fill_usage() -> Seq<char> {
    "Usage: /fill <x1> <y1> <z1> <x2> <y2> <z2> <block>"@
}

/// Coordinate argument `i`: an error names it missing or invalid.
pub open spec fn fill_coord(a: Seq<Seq<char>>, i: int, missing: Seq<char>, invalid: Seq<char>) -> Result<i32, Seq<char>> {
    if a.len() <= i {
        Err(missing)
    } else {
        match i32_of(a[i]) {
            Some(v) => Ok(v),
            None => Err(invalid),
        }
    }
}

/// The six corner coordinates, read in order; the first problem is
/// reported.
pub open spec fn fill_corners(a: Seq<Seq<char>>) -> Result<Seq<i32>, Seq<char>> {
    match fill_coord(a, 0, fill_usage(), "Invalid X1"@) {
        Err(e) => Err(e),
        Ok(x1) => match fill_coord(a, 1, "Missing Y1"@, "Invalid Y1"@) {
            Err(e) => Err(e),
            Ok(y1) => match fill_coord(a, 2, "Missing Z1"@, "Invalid Z1"@) {
                Err(e) => Err(e),
                Ok(z1) => match fill_coord(a, 3, "Missing X2"@, "Invalid X2"@) {
                    Err(e) => Err(e),
                    Ok(x2) => match fill_coord(a, 4, "Missing Y2"@, "Invalid Y2"@) {
                        Err(e) => Err(e),
                        Ok(y2) => match fill_coord(a, 5, "Missing Z2"@, "Invalid Z2"@) {
                            Err(e) => Err(e),
                            Ok(z2) => Ok(seq![x1, y1, z1, x2, y2, z2]),
                        },
                    },
                },
            },
        },
    }
}

pub open spec fn min_i(a: i32, b: i32) -> i32 {
    if a <= b { a } else { b }
}

pub open spec fn max_i(a: i32, b: i32) -> i32 {
    if a >= b { a } else { b }
}

pub open spec fn clamp_y(y: i32) -> i32 {
    if y < MIN_Y { MIN_Y } else if y > MAX_Y { MAX_Y } else { y }
}

/// The region of the corners `c`: x and z sorted, y clamped to the world
/// (and kept in the given order).
pub open spec fn fill_box(c: Seq<i32>) -> (i32, i32, i32, i32, i32, i32) {
    (min_i(c[0], c[3]), clamp_y(c[1]), min_i(c[2], c[5]), max_i(c[0], c[3]), clamp_y(c[4]), max_i(c[2], c[5]))
}

/// The height factor as an unsigned 64-bit number: a negative height span
/// wraps around.
pub open spec fn wrapped_height(dy: int) -> int {
    if dy >= 0 { dy } else { dy + 0x1_0000_0000_0000_0000 }
}

/// The volume `/fill` computes for a region.
pub open spec fn fill_volume(b: (i32, i32, i32, i32, i32, i32)) -> int {
    (b.3 - b.0 + 1) * wrapped_height(b.4 - b.1 + 1) * (b.5 - b.2 + 1)
}

/// `/fill` computes widths in `i32` and the volume in `u64`; arguments on
/// which either overflows are out of its range.
pub open spec fn fill_in_range(a: Seq<Seq<char>>) -> bool {
    match fill_corners(a) {
        Ok(c) => a.len() > 6 && item_block(a[6]) is Some ==> {
            let b = fill_box(c);
            &&& b.3 - b.0 + 1 <= i32::MAX
            &&& b.5 - b.2 + 1 <= i32::MAX
            &&& (b.3 - b.0 + 1) * wrapped_height(b.4 - b.1 + 1) <= u64::MAX
            &&& fill_volume(b) <= u64::MAX
        },
        Err(_) => true,
    }
}

/// Loaded block columns `(x, z)` with `z0 <= z <= z1`.
pub open spec fn row_count(v: Seq<(i32, i32)>, x: int, z0: int, z1: int) -> nat
    decreases z1 - z0 + 1,
{
    if z1 < z0 {
        0
    } else {
        row_count(v, x, z0, z1 - 1) + if column_loaded(v, x, z1) { 1nat } else { 0nat }
    }
}

/// Loaded block columns in the rectangle `x0..=x1` by `z0..=z1`.
pub open spec fn box_count(v: Seq<(i32, i32)>, x0: int, x1: int, z0: int, z1: int) -> nat
    decreases x1 - x0 + 1,
{
    if x1 < x0 {
        0
    } else {
        box_count(v, x0, x1 - 1, z0, z1) + row_count(v, x1, z0, z1)
    }
}

/// `/fill <x1> <y1> <z1> <x2> <y2> <z2> <block>`: every block of the region
/// in a loaded chunk column is set, and their number reported.
pub open spec fn fill_outcome(ctx: CommandContext) -> (ReplyView, Seq<EventView>) {
    let a = arg_views(ctx);
    match fill_corners(a) {
        Err(e) => (Err(e), Seq::empty()),
        Ok(c) => if a.len() <= 6 {
            (Err(fill_usage()), Seq::empty())
        } else {
            match item_block(a[6]) {
                None => (Err("Unknown block: "@ + a[6]), Seq::empty()),
                Some(block) => {
                    let b = fill_box(c);
                    let volume = fill_volume(b);
                    if volume > MAX_FILL_VOLUME {
                        (Err("Too many blocks ("@ + decimal(volume as nat) + " > 32768). Use a smaller region."@), Seq::empty())
                    } else {
                        match loaded_view(ctx) {
                            None => (Err("Chunk store not available"@), Seq::empty()),
                            Some(v) => {
                                let dy = b.4 - b.1 + 1;
                                let count = if dy > 0 { dy * box_count(v, b.0 as int, b.3 as int, b.2 as int, b.5 as int) } else { 0 };
                                (
                                    Ok("Filled "@ + decimal(count as nat) + " blocks with "@ + a[6]),
                                    seq![EventView::FillRegion { x1: b.0, y1: b.1, z1: b.2, x2: b.3, y2: b.4, z2: b.5, block }],
                                )
                            },
                        }
                    }
                },
            }
        },
    }
}

fn fill_coord_of(ctx: &CommandContext, i: usize, missing: &str, invalid: &str) -> (r: Result<i32, String>)
    ensures
        match (r, fill_coord(arg_views(*ctx), i as int, missing@, invalid@)) {
            (Ok(x), Ok(y)) => x == y,
            (Err(x), Err(y)) => x@ == y,
            _ => false,
        },
{
    if ctx.args.len() <= i {
        return Err(String::from_str(missing));
    }
    proof { assert(arg_views(*ctx)[i as int] == ctx.args@[i as int]@); }
    match i32_opt(ctx.args[i].as_str()) {
        Some(v) => Ok(v),
        None => Err(String::from_str(invalid)),
    }
}

/// Loaded block columns of the rectangle, counted one by one.
fn count_loaded_columns(v: &Vec<(i32, i32)>, x0: i32, x1: i32, z0: i32, z1: i32) -> (n: u64)
    requires
        x0 <= x1,
        z0 <= z1,
        (x1 - x0 + 1) * (z1 - z0 + 1) <= MAX_FILL_VOLUME,
    ensures
        n == box_count(v@, x0 as int, x1 as int, z0 as int, z1 as int),
        n <= MAX_FILL_VOLUME,
{
    let dx: i64 = x1 as i64 - x0 as i64 + 1;
    let dz: i64 = z1 as i64 - z0 as i64 + 1;
    let mut total: u64 = 0;
    let mut x: i64 = x0 as i64;
    while x <= x1 as i64
        invariant
            x0 <= x <= x1 + 1,
            z0 <= z1,
            dx == x1 - x0 + 1,
            dz == z1 - z0 + 1,
            dx * dz <= MAX_FILL_VOLUME,
            total == box_count(v@, x0 as int, x - 1, z0 as int, z1 as int),
            total <= (x - x0) * dz,
        decreases x1 + 1 - x,
    {
        let mut row: u64 = 0;
        let mut z: i64 = z0 as i64;
        while z <= z1 as i64
            invariant
                x0 <= x <= x1,
                z0 <= z <= z1 + 1,
                row == row_count(v@, x as int, z0 as int, z - 1),
                row <= z - z0,
                z - z0 <= dz,
                dz == z1 - z0 + 1,
            decreases z1 + 1 - z,
        {
            let cx = div16(x as i32);
            let cz = div16(z as i32);
            if contains_column(v, cx, cz) {
                row = row + 1;
            }
            z = z + 1;
        }
        proof {
            assert((x - x0) * dz + dz == (x + 1 - x0) * dz) by (nonlinear_arith);
            assert((x + 1 - x0) * dz <= dx * dz) by (nonlinear_arith)
                requires
                    x + 1 - x0 <= dx,
                    dz >= 1,
            ;
        }
        total = total + row;
        x = x + 1;
    }
    proof {
        assert(x == x1 + 1);
        assert((x - x0) * dz == dx * dz);
    }
    total
}

/// `/fill`.
pub struct FillCommand;

impl FillCommand {
    pub fn name(&self) -> &'static str {
        "fill"
    }

    pub fn description(&self) -> &'static str {
        "Fill a region with blocks"
    }

    /// Whether `execute` may run on these arguments.
    pub fn in_range(&self, ctx: &CommandContext) -> (r: bool)
        ensures
            r == fill_in_range(arg_views(*ctx)),
    {
        let ghost a = arg_views(*ctx);
        let x1 = match fill_coord_of(ctx, 0, "Usage: /fill <x1> <y1> <z1> <x2> <y2> <z2> <block>", "Invalid X1") {
            Ok(v) => v,
            Err(_) => {
                return true;
            },
        };
        let y1 = match fill_coord_of(ctx, 1, "Missing Y1", "Invalid Y1") {
            Ok(v) => v,
            Err(_) => {
                return true;
            },
        };
        let z1 = match fill_coord_of(ctx, 2, "Missing Z1", "Invalid Z1") {
            Ok(v) => v,
            Err(_) => {
                return true;
            },
        };
        let x2 = match fill_coord_of(ctx, 3, "Missing X2", "Invalid X2") {
            Ok(v) => v,
            Err(_) => {
                return true;
            },
        };
        let y2 = match fill_coord_of(ctx, 4, "Missing Y2", "Invalid Y2") {
            Ok(v) => v,
            Err(_) => {
                return true;
            },
        };
        let z2 = match fill_coord_of(ctx, 5, "Missing Z2", "Invalid Z2") {
            Ok(v) => v,
            Err(_) => {
                return true;
            },
        };
        let ghost c = seq![x1, y1, z1, x2, y2, z2];
        proof { assert(fill_corners(a) == Ok::<Seq<i32>, Seq<char>>(c)); }
        if ctx.args.len() <= 6 {
            return true;
        }
        proof { assert(a[6] == ctx.args@[6]@); }
        if resolve_item(ctx.args[6].as_str()).is_none() {
            return true;
        }
        let xmin: i64 = if x1 <= x2 { x1 as i64 } else { x2 as i64 };
        let xmax: i64 = if x1 >= x2 { x1 as i64 } else { x2 as i64 };
        let ymin: i64 = if y1 < MIN_Y { MIN_Y as i64 } else if y1 > MAX_Y { MAX_Y as i64 } else { y1 as i64 };
        let ymax: i64 = if y2 < MIN_Y { MIN_Y as i64 } else if y2 > MAX_Y { MAX_Y as i64 } else { y2 as i64 };
        let zmin: i64 = if z1 <= z2 { z1 as i64 } else { z2 as i64 };
        let zmax: i64 = if z1 >= z2 { z1 as i64 } else { z2 as i64 };
        let dx: i64 = xmax - xmin + 1;
        let dz: i64 = zmax - zmin + 1;
        if dx > i32::MAX as i64 || dz > i32::MAX as i64 {
            return false;
        }
        let dyi: i64 = ymax - ymin + 1;
        let wh: u128 = if dyi >= 0 { dyi as u128 } else { 0x1_0000_0000_0000_0000u128 - ((-dyi) as u128) };
        let dxu: u128 = dx as u128;
        let dzu: u128 = dz as u128;
        proof {
            assert(dxu * wh <= 0x8000_0000u128 * 0x1_0000_0000_0000_0000u128) by (nonlinear_arith)
                requires
                    dxu <= 0x8000_0000u128,
                    wh <= 0x1_0000_0000_0000_0000u128,
            ;
        }
        let p1: u128 = dxu * wh;
        if p1 > u64::MAX as u128 {
            return false;
        }
        proof {
            assert(p1 * dzu <= 0x1_0000_0000_0000_0000u128 * 0x8000_0000u128) by (nonlinear_arith)
                requires
                    p1 <= 0x1_0000_0000_0000_0000u128,
                    dzu <= 0x8000_0000u128,
            ;
        }
        let p2: u128 = p1 * dzu;
        p2 <= u64::MAX as u128
    }

    pub fn execute(&self, ctx: &CommandContext, server: &mut ServerData) -> (r: CommandResult)
        requires
            old(server).wf(),
            fill_in_range(arg_views(*ctx)),
        ensures
            only_events_added(*old(server), *final(server), fill_outcome(*ctx).1),
            crate::commands::context::reply_view(r) == fill_outcome(*ctx).0,
    {
        let ghost a = arg_views(*ctx);
        let ghost e0 = event_views(server.events@);
        proof { assert(e0 =~= e0 + Seq::<EventView>::empty()); }
        let x1 = match fill_coord_of(ctx, 0, "Usage: /fill <x1> <y1> <z1> <x2> <y2> <z2> <block>", "Invalid X1") {
            Ok(v) => v,
            Err(e) => {
                return Err(e);
            },
        };
        let y1 = match fill_coord_of(ctx, 1, "Missing Y1", "Invalid Y1") {
            Ok(v) => v,
            Err(e) => {
                return Err(e);
            },
        };
        let z1 = match fill_coord_of(ctx, 2, "Missing Z1", "Invalid Z1") {
            Ok(v) => v,
            Err(e) => {
                return Err(e);
            },
        };
        let x2 = match fill_coord_of(ctx, 3, "Missing X2", "Invalid X2") {
            Ok(v) => v,
            Err(e) => {
                return Err(e);
            },
        };
        let y2 = match fill_coord_of(ctx, 4, "Missing Y2", "Invalid Y2") {
            Ok(v) => v,
            Err(e) => {
                return Err(e);
            },
        };
        let z2 = match fill_coord_of(ctx, 5, "Missing Z2", "Invalid Z2") {
            Ok(v) => v,
            Err(e) => {
                return Err(e);
            },
        };
        let ghost c = seq![x1, y1, z1, x2, y2, z2];
        proof { assert(fill_corners(a) == Ok::<Seq<i32>, Seq<char>>(c)); }
        if ctx.args.len() <= 6 {
            return Err(String::from_str("Usage: /fill <x1> <y1> <z1> <x2> <y2> <z2> <block>"));
        }
        proof { assert(a[6] == ctx.args@[6]@); }
        let name = ctx.args[6].as_str();
        let block = match resolve_item(name) {
            Some(b) => b,
            None => {
                let mut e = String::from_str("Unknown block: ");
                e.append(name);
                return Err(e);
            },
        };
        let xmin = if x1 <= x2 { x1 } else { x2 };
        let xmax = if x1 >= x2 { x1 } else { x2 };
        let ymin = if y1 < MIN_Y { MIN_Y } else if y1 > MAX_Y { MAX_Y } else { y1 };
        let ymax = if y2 < MIN_Y { MIN_Y } else if y2 > MAX_Y { MAX_Y } else { y2 };
        let zmin = if z1 <= z2 { z1 } else { z2 };
        let zmax = if z1 >= z2 { z1 } else { z2 };
        let ghost b = fill_box(c);
        assert(b == (xmin, ymin, zmin, xmax, ymax, zmax));
        let dx: u64 = (xmax - xmin + 1) as u64;
        let dyi: i32 = ymax - ymin + 1;
        let dy: u64 = if dyi >= 0 { dyi as u64 } else { u64::MAX - ((-dyi) as u64) + 1 };
        let dz: u64 = (zmax - zmin + 1) as u64;
        assert(dy == wrapped_height(dyi as int));
        let volume: u64 = dx * dy * dz;
        if volume > MAX_FILL_VOLUME {
            let mut e = String::from_str("Too many blocks (");
            push_u64(&mut e, volume);
            e.append(" > 32768). Use a smaller region.");
            return Err(e);
        }
        match &ctx.loaded_chunks {
            None => Err(String::from_str("Chunk store not available")),
            Some(v) => {
                let count: u64 = if dyi > 0 {
                    proof {
                        assert(dx * dz <= dx * dy * dz) by (nonlinear_arith)
                            requires
                                dy >= 1,
                                dx >= 1,
                                dz >= 1,
                        ;
                    }
                    let cols = count_loaded_columns(v, xmin, xmax, zmin, zmax);
                    proof {
                        assert(dy * cols <= 384 * 32768) by (nonlinear_arith)
                            requires
                                dy <= 384,
                                cols <= 32768,
                        ;
                    }
                    dy * cols
                } else {
                    0
                };
                emit(server, ServerEvent::FillRegion { x1: xmin, y1: ymin, z1: zmin, x2: xmax, y2: ymax, z2: zmax, block });
                proof {
                    assert(event_views(server.events@) =~= e0 + seq![EventView::FillRegion {
                        x1: xmin, y1: ymin, z1: zmin, x2: xmax, y2: ymax, z2: zmax, block }]);
                }
                let mut m = String::from_str("Filled ");
                push_u64(&mut m, count);
                m.append(" blocks with ");
                m.append(name);
                Ok(m)
            },
        }
    }
}

// ─────────────────────────────────── /clone ───────────────────────────────────

/// Most blocks one `/clone` may copy, by its volume.
pub const MAX_CLONE_VOLUME: i64 = 32768;

pub open spec fn clone_usage() -> Seq<char> {
    "Usage: /clone <x1> <y1> <z1> <x2> <y2> <z2> <dx> <dy> <dz>"@
}

/// The name of `/clone`'s argument `i`, as its error message gives it.
pub open spec fn clone_arg_name(i: int) -> Seq<char> {
    if i == 0 {
        "x1"@
    } else if i == 1 {
        "y1"@
    } else if i == 2 {
        "z1"@
    } else if i == 3 {
        "x2"@
    } else if i == 4 {
        "y2"@
    } else if i == 5 {
        "z2"@
    } else if i == 6 {
        "dx"@
    } else if i == 7 {
        "dy"@
    } else {
        "dz"@
    }
}

/// The first `n` arguments read as `i32`, in order; the first that is no
/// number is reported.
pub open spec fn clone_numbers(a: Seq<Seq<char>>, n: nat) -> Result<Seq<i32>, Seq<char>>
    decreases n,
{
    if n == 0 {
        Ok(Seq::empty())
    } else {
        match clone_numbers(a, (n - 1) as nat) {
            Err(e) => Err(e),
            Ok(c) => match i32_of(a[n - 1]) {
                None => Err("Invalid "@ + clone_arg_name(n - 1)),
                Some(v) => Ok(c.push(v)),
            },
        }
    }
}

pub open spec fn abs_int(v: int) -> int {
    if v < 0 { -v } else { v }
}

/// The volume `/clone` checks: the product of `|corner2 - corner1 + 1|`
/// over the three axes (computed from the corners as given).
pub open spec fn clone_volume(c: Seq<i32>) -> int {
    abs_int(c[3] - c[0] + 1) * abs_int(c[4] - c[1] + 1) * abs_int(c[5] - c[2] + 1)
}

pub open spec fn in_world(y: int) -> bool {
    MIN_Y <= y <= MAX_Y
}

/// Heights of `y0..=y1` inside the world whose target `y + dy` is too.
pub open spec fn clone_rows(y0: int, y1: int, dy: int) -> nat
    decreases y1 - y0 + 1,
{
    if y1 < y0 {
        0
    } else {
        clone_rows(y0, y1 - 1, dy) + if in_world(y1) && in_world(y1 + dy) { 1nat } else { 0nat }
    }
}

/// Block columns `(x, z)` with `z0 <= z <= z1` whose chunk column is loaded
/// and whose target `(x + dx, z + dz)` chunk column is loaded too.
pub open spec fn clone_row_columns(v: Seq<(i32, i32)>, x: int, z0: int, z1: int, dx: int, dz: int) -> nat
    decreases z1 - z0 + 1,
{
    if z1 < z0 {
        0
    } else {
        clone_row_columns(v, x, z0, z1 - 1, dx, dz)
            + if column_loaded(v, x, z1) && column_loaded(v, x + dx, z1 + dz) { 1nat } else { 0nat }
    }
}

/// Such block columns in the rectangle `x0..=x1` by `z0..=z1`.
pub open spec fn clone_columns(v: Seq<(i32, i32)>, x0: int, x1: int, z0: int, z1: int, dx: int, dz: int) -> nat
    decreases x1 - x0 + 1,
{
    if x1 < x0 {
        0
    } else {
        clone_columns(v, x0, x1 - 1, z0, z1, dx, dz) + clone_row_columns(v, x1, z0, z1, dx, dz)
    }
}

/// The blocks `/clone` copies for the numbers `c`: every height that stays
/// in the world times every column loaded at both ends.
pub open spec fn clone_count(v: Seq<(i32, i32)>, c: Seq<i32>) -> nat {
    clone_rows(min_i(c[1], c[4]) as int, max_i(c[1], c[4]) as int, c[7] as int) * clone_columns(
        v,
        min_i(c[0], c[3]) as int,
        max_i(c[0], c[3]) as int,
        min_i(c[2], c[5]) as int,
        max_i(c[2], c[5]) as int,
        c[6] as int,
        c[8] as int,
    )
}

/// `/clone <x1> <y1> <z1> <x2> <y2> <z2> <dx> <dy> <dz>`: the blocks of the
/// box inside the world and in loaded chunk columns are copied by the
/// offset, and their number reported.
pub open spec fn clone_outcome(ctx: CommandContext) -> (ReplyView, Seq<EventView>) {
    let a = arg_views(ctx);
    if a.len() < 9 {
        (Err(clone_usage()), Seq::empty())
    } else {
        match clone_numbers(a, 9) {
            Err(e) => (Err(e), Seq::empty()),
            Ok(c) => if clone_volume(c) > MAX_CLONE_VOLUME {
                (Err("Too many blocks (max 32768)"@), Seq::empty())
            } else {
                match loaded_view(ctx) {
                    None => (Err("Chunk store unavailable"@), Seq::empty()),
                    Some(v) => (
                        Ok("Cloned "@ + decimal(clone_count(v, c)) + " blocks"@),
                        seq![EventView::CloneRegion {
                            x1: min_i(c[0], c[3]), y1: min_i(c[1], c[4]), z1: min_i(c[2], c[5]),
                            x2: max_i(c[0], c[3]), y2: max_i(c[1], c[4]), z2: max_i(c[2], c[5]),
                            dx: c[6], dy: c[7], dz: c[8],
                        }],
                    ),
                }
            },
        }
    }
}

/// `q - p + 1` and its absolute value are `i32` values.
pub open spec fn clone_span_fits(p: i32, q: i32) -> bool {
    i32::MIN < q - p + 1 <= i32::MAX
}

/// The targets `x + dx`, `y + dy`, `z + dz` computed for the box are `i32`
/// values (they are computed only for heights inside the world).
pub open spec fn clone_moves_fit(c: Seq<i32>) -> bool {
    let ylo = if min_i(c[1], c[4]) < MIN_Y { MIN_Y as int } else { min_i(c[1], c[4]) as int };
    let yhi = if max_i(c[1], c[4]) > MAX_Y { MAX_Y as int } else { max_i(c[1], c[4]) as int };
    ylo <= yhi ==> {
        &&& i32::MIN <= min_i(c[0], c[3]) + c[6] && max_i(c[0], c[3]) + c[6] <= i32::MAX
        &&& i32::MIN <= ylo + c[7] && yhi + c[7] <= i32::MAX
        &&& i32::MIN <= min_i(c[2], c[5]) + c[8] && max_i(c[2], c[5]) + c[8] <= i32::MAX
    }
}

/// `/clone` computes its volume and the targets in `i32` and counts in
/// `u32`; arguments on which any of them overflows are out of its range.
pub open spec fn clone_in_range(ctx: CommandContext) -> bool {
    let a = arg_views(ctx);
    a.len() >= 9 ==> match clone_numbers(a, 9) {
        Ok(c) => {
            &&& clone_span_fits(c[0], c[3])
            &&& clone_span_fits(c[1], c[4])
            &&& clone_span_fits(c[2], c[5])
            &&& abs_int(c[3] - c[0] + 1) * abs_int(c[4] - c[1] + 1) <= i32::MAX
            &&& clone_volume(c) <= i32::MAX
            &&& (clone_volume(c) <= MAX_CLONE_VOLUME && loaded_view(ctx) is Some) ==> {
                &&& clone_moves_fit(c)
                &&& clone_count(loaded_view(ctx)->0, c) <= u32::MAX
            }
        },
        Err(_) => true,
    }
}

fn clone_arg_name_of(i: usize) -> (r: &'static str)
    requires
        i < 9,
    ensures
        r@ == clone_arg_name(i as int),
{
    if i == 0 {
        "x1"
    } else if i == 1 {
        "y1"
    } else if i == 2 {
        "z1"
    } else if i == 3 {
        "x2"
    } else if i == 4 {
        "y2"
    } else if i == 5 {
        "z2"
    } else if i == 6 {
        "dx"
    } else if i == 7 {
        "dy"
    } else {
        "dz"
    }
}

/// The nine numbers of `/clone`, or the error naming the first bad one.
fn read_clone_numbers(ctx: &CommandContext) -> (r: Result<Vec<i32>, String>)
    requires
        ctx.args@.len() >= 9,
    ensures
        match (r, clone_numbers(arg_views(*ctx), 9)) {
            (Ok(x), Ok(y)) => x@ == y,
            (Err(x), Err(y)) => x@ == y,
            _ => false,
        },
        r matches Ok(x) ==> x@.len() == 9,
{
    let ghost a = arg_views(*ctx);
    let mut out: Vec<i32> = Vec::new();
    let mut i: usize = 0;
    while i < 9
        invariant
            i <= 9,
            ctx.args@.len() >= 9,
            a == arg_views(*ctx),
            clone_numbers(a, i as nat) == Ok::<Seq<i32>, Seq<char>>(out@),
            out@.len() == i,
        decreases 9 - i,
    {
        proof { assert(a[i as int] == ctx.args@[i as int]@); }
        match i32_opt(ctx.args[i].as_str()) {
            Some(v) => {
                out.push(v);
            },
            None => {
                let mut e = String::from_str("Invalid ");
                e.append(clone_arg_name_of(i));
                proof {
                    assert(clone_numbers(a, (i + 1) as nat) == Err::<Seq<i32>, Seq<char>>(e@));
                    lemma_clone_numbers_err(a, (i + 1) as nat, 9);
                }
                return Err(e);
            },
        }
        i = i + 1;
    }
    Ok(out)
}

/// A bad number stays the reported error as more arguments are read.
proof fn lemma_clone_numbers_err(a: Seq<Seq<char>>, n: nat, m: nat)
    requires
        n <= m,
        clone_numbers(a, n) is Err,
    ensures
        clone_numbers(a, m) == clone_numbers(a, n),
    decreases m - n,
{
    if n < m {
        lemma_clone_numbers_err(a, n, (m - 1) as nat);
    }
}

/// Heights of `y0..=y1` kept by the copy, counted one by one.
fn count_clone_rows(y0: i32, y1: i32, dy: i32) -> (n: u64)
    requires
        y0 <= y1,
    ensures
        n == clone_rows(y0 as int, y1 as int, dy as int),
        n <= y1 - y0 + 1,
{
    let mut n: u64 = 0;
    let mut y: i64 = y0 as i64;
    while y <= y1 as i64
        invariant
            y0 <= y <= y1 + 1,
            n == clone_rows(y0 as int, y - 1, dy as int),
            n <= y - y0,
        decreases y1 + 1 - y,
    {
        let t: i64 = y + dy as i64;
        if (MIN_Y as i64) <= y && y <= MAX_Y as i64 && (MIN_Y as i64) <= t && t <= MAX_Y as i64 {
            n = n + 1;
        }
        y = y + 1;
    }
    n
}

/// Columns of the rectangle loaded at both ends of the copy, counted one
/// by one.
fn count_clone_columns(v: &Vec<(i32, i32)>, x0: i32, x1: i32, z0: i32, z1: i32, dx: i32, dz: i32) -> (n: u128)
    requires
        x0 <= x1,
        z0 <= z1,
        i32::MIN <= x0 + dx,
        x1 + dx <= i32::MAX,
        i32::MIN <= z0 + dz,
        z1 + dz <= i32::MAX,
    ensures
        n == clone_columns(v@, x0 as int, x1 as int, z0 as int, z1 as int, dx as int, dz as int),
        n <= (x1 - x0 + 1) * (z1 - z0 + 1),
{
    let wx: i64 = x1 as i64 - x0 as i64 + 1;
    let wz: i64 = z1 as i64 - z0 as i64 + 1;
    let mut total: u128 = 0;
    let mut x: i64 = x0 as i64;
    while x <= x1 as i64
        invariant
            x0 <= x <= x1 + 1,
            z0 <= z1,
            wx == x1 - x0 + 1,
            wz == z1 - z0 + 1,
            i32::MIN <= x0 + dx,
            x1 + dx <= i32::MAX,
            i32::MIN <= z0 + dz,
            z1 + dz <= i32::MAX,
            total == clone_columns(v@, x0 as int, x - 1, z0 as int, z1 as int, dx as int, dz as int),
            total <= (x - x0) * wz,
        decreases x1 + 1 - x,
    {
        let mut row: u128 = 0;
        let mut z: i64 = z0 as i64;
        while z <= z1 as i64
            invariant
                x0 <= x <= x1,
                z0 <= z <= z1 + 1,
                i32::MIN <= x0 + dx,
                x1 + dx <= i32::MAX,
                i32::MIN <= z0 + dz,
                z1 + dz <= i32::MAX,
                row == clone_row_columns(v@, x as int, z0 as int, z - 1, dx as int, dz as int),
                row <= z - z0,
                z - z0 <= wz,
                wz == z1 - z0 + 1,
            decreases z1 + 1 - z,
        {
            let sx: i32 = (x + dx as i64) as i32;
            let sz: i32 = (z + dz as i64) as i32;
            if contains_column(v, div16(x as i32), div16(z as i32)) && contains_column(v, div16(sx), div16(sz)) {
                row = row + 1;
            }
            z = z + 1;
        }
        proof {
            assert((x - x0) * wz + wz == (x + 1 - x0) * wz) by (nonlinear_arith);
            assert((x + 1 - x0) * wz <= 0x1_0000_0000 * 0x1_0000_0000) by (nonlinear_arith)
                requires
                    0 <= x + 1 - x0 <= 0x1_0000_0000,
                    0 <= wz <= 0x1_0000_0000,
            ;
        }
        total = total + row;
        x = x + 1;
    }
    total
}

/// `/clone`.
pub struct CloneCommand;

impl CloneCommand {
    pub fn name(&self) -> &'static str {
        "clone"
    }

    pub fn description(&self) -> &'static str {
        "Clone blocks from one region to another"
    }

    /// The blocks copied for the numbers `c`, given that the targets fit.
    fn copied(v: &Vec<(i32, i32)>, c: &Vec<i32>) -> (n: u128)
        requires
            c@.len() == 9,
            clone_moves_fit(c@),
        ensures
            n == clone_count(v@, c@),
    {
        let y0 = if c[1] <= c[4] { c[1] } else { c[4] };
        let y1 = if c[1] >= c[4] { c[1] } else { c[4] };
        let rows = count_clone_rows(y0, y1, c[7]);
        if rows == 0 {
            proof {
                let cols = clone_columns(v@, min_i(c@[0], c@[3]) as int, max_i(c@[0], c@[3]) as int,
                    min_i(c@[2], c@[5]) as int, max_i(c@[2], c@[5]) as int, c@[6] as int, c@[8] as int);
                assert(0 * cols == 0) by (nonlinear_arith);
            }
            return 0;
        }
        proof { lemma_rows_in_world(y0 as int, y1 as int, c@[7] as int); }
        let x0 = if c[0] <= c[3] { c[0] } else { c[3] };
        let x1 = if c[0] >= c[3] { c[0] } else { c[3] };
        let z0 = if c[2] <= c[5] { c[2] } else { c[5] };
        let z1 = if c[2] >= c[5] { c[2] } else { c[5] };
        let cols = count_clone_columns(v, x0, x1, z0, z1, c[6], c[8]);
        proof {
            assert((x1 - x0 + 1) * (z1 - z0 + 1) <= 0x1_0000_0000 * 0x1_0000_0000) by (nonlinear_arith)
                requires
                    x1 - x0 + 1 <= 0x1_0000_0000,
                    z1 - z0 + 1 <= 0x1_0000_0000,
                    x1 - x0 + 1 >= 0,
                    z1 - z0 + 1 >= 0,
            ;
            assert(rows * cols <= 0x1_0000_0000 * 0x1_0000_0000_0000_0000) by (nonlinear_arith)
                requires
                    rows <= 0x1_0000_0000,
                    cols <= 0x1_0000_0000_0000_0000,
            ;
        }
        rows as u128 * cols
    }

    /// Whether `execute` may run on these arguments.
    pub fn in_range(&self, ctx: &CommandContext) -> (r: bool)
        ensures
            r == clone_in_range(*ctx),
    {
        if ctx.args.len() < 9 {
            return true;
        }
        let c = match read_clone_numbers(ctx) {
            Ok(c) => c,
            Err(_) => {
                return true;
            },
        };
        let sx: i64 = c[3] as i64 - c[0] as i64 + 1;
        let sy: i64 = c[4] as i64 - c[1] as i64 + 1;
        let sz: i64 = c[5] as i64 - c[2] as i64 + 1;
        if !((i32::MIN as i64) < sx && sx <= i32::MAX as i64 && (i32::MIN as i64) < sy && sy <= i32::MAX as i64
            && (i32::MIN as i64) < sz && sz <= i32::MAX as i64) {
            return false;
        }
        let ax: i64 = if sx < 0 { -sx } else { sx };
        let ay: i64 = if sy < 0 { -sy } else { sy };
        let az: i64 = if sz < 0 { -sz } else { sz };
        proof {
            assert(ax * ay <= 0x8000_0000 * 0x8000_0000) by (nonlinear_arith)
                requires
                    0 <= ax <= 0x8000_0000,
                    0 <= ay <= 0x8000_0000,
            ;
        }
        let p1: i64 = ax * ay;
        if p1 > i32::MAX as i64 {
            return false;
        }
        proof {
            assert(p1 * az <= 0x8000_0000 * 0x8000_0000) by (nonlinear_arith)
                requires
                    0 <= p1 <= 0x8000_0000,
                    0 <= az <= 0x8000_0000,
            ;
        }
        let volume: i64 = p1 * az;
        if volume > i32::MAX as i64 {
            return false;
        }
        if volume > MAX_CLONE_VOLUME {
            return true;
        }
        match &ctx.loaded_chunks {
            None => true,
            Some(v) => {
                let y0: i64 = if c[1] <= c[4] { c[1] as i64 } else { c[4] as i64 };
                let y1: i64 = if c[1] >= c[4] { c[1] as i64 } else { c[4] as i64 };
                let ylo: i64 = if y0 < MIN_Y as i64 { MIN_Y as i64 } else { y0 };
                let yhi: i64 = if y1 > MAX_Y as i64 { MAX_Y as i64 } else { y1 };
                if ylo <= yhi {
                    let x0: i64 = if c[0] <= c[3] { c[0] as i64 } else { c[3] as i64 };
                    let x1: i64 = if c[0] >= c[3] { c[0] as i64 } else { c[3] as i64 };
                    let z0: i64 = if c[2] <= c[5] { c[2] as i64 } else { c[5] as i64 };
                    let z1: i64 = if c[2] >= c[5] { c[2] as i64 } else { c[5] as i64 };
                    let dx = c[6] as i64;
                    let dy = c[7] as i64;
                    let dz = c[8] as i64;
                    if !((i32::MIN as i64) <= x0 + dx && x1 + dx <= i32::MAX as i64 && (i32::MIN as i64) <= ylo + dy
                        && yhi + dy <= i32::MAX as i64 && (i32::MIN as i64) <= z0 + dz && z1 + dz <= i32::MAX as i64) {
                        return false;
                    }
                }
                let n = Self::copied(v, &c);
                n <= u32::MAX as u128
            },
        }
    }

    pub fn execute(&self, ctx: &CommandContext, server: &mut ServerData) -> (r: CommandResult)
        requires
            old(server).wf(),
            clone_in_range(*ctx),
        ensures
            only_events_added(*old(server), *final(server), clone_outcome(*ctx).1),
            crate::commands::context::reply_view(r) == clone_outcome(*ctx).0,
    {
        let ghost e0 = event_views(server.events@);
        proof { assert(e0 =~= e0 + Seq::<EventView>::empty()); }
        if ctx.args.len() < 9 {
            return Err(String::from_str("Usage: /clone <x1> <y1> <z1> <x2> <y2> <z2> <dx> <dy> <dz>"));
        }
        let c = match read_clone_numbers(ctx) {
            Ok(c) => c,
            Err(e) => {
                return Err(e);
            },
        };
        let sx: i32 = c[3] - c[0] + 1;
        let sy: i32 = c[4] - c[1] + 1;
        let sz: i32 = c[5] - c[2] + 1;
        let ax: i64 = if sx < 0 { -(sx as i64) } else { sx as i64 };
        let ay: i64 = if sy < 0 { -(sy as i64) } else { sy as i64 };
        let az: i64 = if sz < 0 { -(sz as i64) } else { sz as i64 };
        let volume: i64 = ax * ay * az;
        if volume > MAX_CLONE_VOLUME {
            return Err(String::from_str("Too many blocks (max 32768)"));
        }
        match &ctx.loaded_chunks {
            None => Err(String::from_str("Chunk store unavailable")),
            Some(v) => {
                let n = Self::copied(v, &c);
                let count: u64 = n as u64;
                let x1 = if c[0] <= c[3] { c[0] } else { c[3] };
                let x2 = if c[0] >= c[3] { c[0] } else { c[3] };
                let y1 = if c[1] <= c[4] { c[1] } else { c[4] };
                let y2 = if c[1] >= c[4] { c[1] } else { c[4] };
                let z1 = if c[2] <= c[5] { c[2] } else { c[5] };
                let z2 = if c[2] >= c[5] { c[2] } else { c[5] };
                let e = ServerEvent::CloneRegion { x1, y1, z1, x2, y2, z2, dx: c[6], dy: c[7], dz: c[8] };
                emit(server, e);
                proof {
                    assert(event_views(server.events@) =~= e0 + seq![event_view(e)]);
                }
                let mut m = String::from_str("Cloned ");
                push_u64(&mut m, count);
                m.append(" blocks");
                Ok(m)
            },
        }
    }
}

/// A height counted by the copy lies in the world.
proof fn lemma_rows_in_world(y0: int, y1: int, dy: int)
    requires
        clone_rows(y0, y1, dy) > 0,
    ensures
        y0 <= MAX_Y,
        MIN_Y <= y1,
    decreases y1 - y0 + 1,
{
    if y1 >= y0 {
        if !(in_world(y1) && in_world(y1 + dy)) {
            lemma_rows_in_world(y0, y1 - 1, dy);
        }
    }
}

} // verus!
