//! Which chunks a connection sends, keeps and forgets when its player
//! enters another chunk: the chunks of the view square that are not loaded
//! yet, the nearest of them first (a few per step), a chunk ahead in the
//! direction of movement to prepare, and the loaded chunks that left the
//! view square.

use vstd::prelude::*;

verus! {

/// Chunks sent in one step; the rest wait for later steps.
pub const MAX_CHUNKS_PER_SEND: usize = 6;

pub open spec fn abs_int(x: int) -> int {
    if x < 0 { -x } else { x }
}

/// `p` lies in the square of radius `r` around `c`.
pub open spec fn in_view(p: (i32, i32), c: (i32, i32), r: int) -> bool {
    abs_int(p.0 - c.0) <= r && abs_int(p.1 - c.1) <= r
}

pub open spec fn in_view_fn(c: (i32, i32), r: int) -> spec_fn((i32, i32)) -> bool {
    |p: (i32, i32)| in_view(p, c, r)
}

pub open spec fn out_of_view_fn(c: (i32, i32), r: int) -> spec_fn((i32, i32)) -> bool {
    |p: (i32, i32)| !in_view(p, c, r)
}

/// Chebyshev distance between chunk positions.
pub open spec fn chebyshev(p: (i32, i32), c: (i32, i32)) -> int {
    let a = abs_int(p.0 - c.0);
    let b = abs_int(p.1 - c.1);
    if a >= b { a } else { b }
}

pub open spec fn at_distance(c: (i32, i32), d: int) -> spec_fn((i32, i32)) -> bool {
    |p: (i32, i32)| chebyshev(p, c) == d
}

/// The elements of `s` at distance below `d` from `c`, nearest first and in
/// their order in `s` among equals (a stable sort by distance).
pub open spec fn by_distance(s: Seq<(i32, i32)>, c: (i32, i32), d: nat) -> Seq<(i32, i32)>
    decreases d,
{
    if d == 0 {
        Seq::empty()
    } else {
        by_distance(s, c, (d - 1) as nat) + s.filter(at_distance(c, d - 1))
    }
}

/// `p` comes before the position `(x, z)` in the order the view square is
/// walked: by x, then by z.
pub open spec fn walked_before(p: (i32, i32), x: int, z: int) -> bool {
    p.0 < x || (p.0 == x && p.1 < z)
}

/// The sign of `b - a`.
pub open spec fn step_sign(a: i32, b: i32) -> int {
    if b > a { 1 } else if b < a { -1 } else { 0 }
}

/// The chunk one past the view square in the direction of movement.
pub open spec fn predicted_chunk(old: (i32, i32), new: (i32, i32), r: int) -> (i32, i32) {
    ((new.0 + step_sign(old.0, new.0) * (r + 1)) as i32, (new.1 + step_sign(old.1, new.1) * (r + 1)) as i32)
}

/// What to do after the player moved from chunk `old` to chunk `new`.
#[derive(Debug, Clone)]
pub struct ChunkPlan {
    /// Chunks of the view square that are not loaded yet.
    pub new_chunks: Vec<(i32, i32)>,
    /// The chunks to send now: the nearest of `new_chunks`.
    pub to_send: Vec<(i32, i32)>,
    /// How many of `new_chunks` are not sent now.
    pub deferred: usize,
    /// A chunk ahead of the player to generate in advance.
    pub preload: Option<(i32, i32)>,
    /// Loaded chunks that left the view square: saved if changed, then
    /// forgotten by the client.
    pub evicted: Vec<(i32, i32)>,
    /// The loaded chunks afterwards.
    pub loaded_after: Vec<(i32, i32)>,
}

/// The view square and the step ahead of it stay within `i32`.
pub open spec fn plan_fits(old: (i32, i32), new: (i32, i32), r: i32) -> bool {
    &&& i32::MIN <= new.0 - r - 1 && new.0 + r + 1 <= i32::MAX
    &&& i32::MIN <= new.1 - r - 1 && new.1 + r + 1 <= i32::MAX
    &&& i32::MIN <= new.0 - old.0 <= i32::MAX
    &&& i32::MIN <= new.1 - old.1 <= i32::MAX
}

fn contains_pos(v: &Vec<(i32, i32)>, p: (i32, i32)) -> (r: bool)
    ensures
        r == v@.contains(p),
{
    let mut i: usize = 0;
    while i < v.len()
        invariant
            i <= v@.len(),
            forall|j: int| 0 <= j < i ==> v@[j] != p,
        decreases v@.len() - i,
    {
        if v[i].0 == p.0 && v[i].1 == p.1 {
            assert(v@[i as int] == p);
            return true;
        }
        i = i + 1;
    }
    false
}

fn view_check(p: (i32, i32), c: (i32, i32), r: i32) -> (b: bool)
    requires
        r >= 0,
    ensures
        b == in_view(p, c, r as int),
{
    let dx: i64 = p.0 as i64 - c.0 as i64;
    let dz: i64 = p.1 as i64 - c.1 as i64;
    let ax: i64 = if dx < 0 { -dx } else { dx };
    let az: i64 = if dz < 0 { -dz } else { dz };
    ax <= r as i64 && az <= r as i64
}

/// The chunks of the view square around `c` that `loaded` lacks, walked by
/// x, then by z.
fn missing_in_view(c: (i32, i32), r: i32, loaded: &Vec<(i32, i32)>) -> (fresh: Vec<(i32, i32)>)
    requires
        0 < r < i32::MAX,
        i32::MIN <= c.0 - r && c.0 + r + 1 <= i32::MAX,
        i32::MIN <= c.1 - r && c.1 + r + 1 <= i32::MAX,
    ensures
        fresh@.no_duplicates(),
        forall|i: int| 0 <= i < fresh@.len() ==> in_view(#[trigger] fresh@[i], c, r as int)
            && !loaded@.contains(fresh@[i]),
        forall|p: (i32, i32)| in_view(p, c, r as int) && !loaded@.contains(p) ==> #[trigger] fresh@.contains(p),
{
    let mut fresh: Vec<(i32, i32)> = Vec::new();
    let mut dx: i32 = -r;
    while dx <= r
        invariant
            0 < r < i32::MAX,
            i32::MIN <= c.0 - r && c.0 + r + 1 <= i32::MAX,
            i32::MIN <= c.1 - r && c.1 + r + 1 <= i32::MAX,
            -r <= dx <= r + 1,
            fresh@.no_duplicates(),
            forall|i: int| 0 <= i < fresh@.len() ==> in_view(#[trigger] fresh@[i], c, r as int)
                && !loaded@.contains(fresh@[i]) && fresh@[i].0 < c.0 + dx,
            forall|p: (i32, i32)| in_view(p, c, r as int) && !loaded@.contains(p) && p.0 < c.0 + dx
                ==> #[trigger] fresh@.contains(p),
        decreases r + 1 - dx,
    {
        let mut dz: i32 = -r;
        while dz <= r
            invariant
                0 < r < i32::MAX,
                i32::MIN <= c.0 - r && c.0 + r + 1 <= i32::MAX,
                i32::MIN <= c.1 - r && c.1 + r + 1 <= i32::MAX,
                -r <= dx <= r,
                -r <= dz <= r + 1,
                fresh@.no_duplicates(),
                forall|i: int| 0 <= i < fresh@.len() ==> in_view(#[trigger] fresh@[i], c, r as int)
                    && !loaded@.contains(fresh@[i]) && walked_before(fresh@[i], c.0 + dx, c.1 + dz),
                forall|p: (i32, i32)| in_view(p, c, r as int) && !loaded@.contains(p)
                    && walked_before(p, c.0 + dx, c.1 + dz) ==> #[trigger] fresh@.contains(p),
            decreases r + 1 - dz,
        {
            let p: (i32, i32) = (c.0 + dx, c.1 + dz);
            let ghost before = fresh@;
            if !contains_pos(loaded, p) {
                fresh.push(p);
                proof {
                    assert(fresh@ =~= before.push(p));
                    assert(!before.contains(p)) by {
                        if before.contains(p) {
                            let i = choose|i: int| 0 <= i < before.len() && before[i] == p;
                            assert(walked_before(before[i], c.0 + dx, c.1 + dz));
                        }
                    }
                    assert forall|i: int, j: int| 0 <= i < fresh@.len() && 0 <= j < fresh@.len() && i != j
                        implies fresh@[i] != fresh@[j] by {
                        if i < before.len() && j < before.len() {
                            assert(before[i] != before[j]);
                        } else if i < before.len() {
                            assert(before.contains(before[i]));
                        } else if j < before.len() {
                            assert(before.contains(before[j]));
                        }
                    }
                }
            }
            proof {
                assert forall|i: int| 0 <= i < fresh@.len() implies in_view(#[trigger] fresh@[i], c, r as int)
                    && !loaded@.contains(fresh@[i]) && walked_before(fresh@[i], c.0 + dx, c.1 + dz + 1) by {
                    if i < before.len() {
                        assert(before[i] == fresh@[i]);
                    }
                }
                assert forall|q: (i32, i32)| in_view(q, c, r as int) && !loaded@.contains(q)
                    && walked_before(q, c.0 + dx, c.1 + dz + 1) implies #[trigger] fresh@.contains(q) by {
                    if walked_before(q, c.0 + dx, c.1 + dz) {
                        assert(before.contains(q));
                        let i = choose|i: int| 0 <= i < before.len() && before[i] == q;
                        assert(fresh@[i] == q);
                    } else {
                        assert(q == p);
                        assert(fresh@[fresh@.len() - 1] == p);
                    }
                }
            }
            dz = dz + 1;
        }
        proof {
            assert forall|q: (i32, i32)| in_view(q, c, r as int) && !loaded@.contains(q) && q.0 < c.0 + dx + 1
                implies #[trigger] fresh@.contains(q) by {
                assert(walked_before(q, c.0 + dx, c.1 + dz));
            }
        }
        dx = dx + 1;
    }
    proof {
        assert forall|q: (i32, i32)| in_view(q, c, r as int) && !loaded@.contains(q)
            implies #[trigger] fresh@.contains(q) by {
            assert(q.0 < c.0 + dx);
        }
    }
    fresh
}

/// The chunks of `s` (all within the view square) stably sorted by
/// distance from `c`.
fn sort_by_distance(s: &Vec<(i32, i32)>, c: (i32, i32), r: i32) -> (sorted: Vec<(i32, i32)>)
    requires
        0 < r < i32::MAX,
        forall|i: int| 0 <= i < s@.len() ==> in_view(#[trigger] s@[i], c, r as int),
    ensures
        sorted@ == by_distance(s@, c, (r + 1) as nat),
{
    let mut sorted: Vec<(i32, i32)> = Vec::new();
    let mut d: i32 = 0;
    while d <= r
        invariant
            0 < r < i32::MAX,
            0 <= d <= r + 1,
            forall|i: int| 0 <= i < s@.len() ==> in_view(#[trigger] s@[i], c, r as int),
            sorted@ == by_distance(s@, c, d as nat),
        decreases r + 1 - d,
    {
        let ghost base = sorted@;
        let mut j: usize = 0;
        while j < s.len()
            invariant
                r > 0,
                0 <= d <= r,
                j <= s@.len(),
                forall|i: int| 0 <= i < s@.len() ==> in_view(#[trigger] s@[i], c, r as int),
                base == by_distance(s@, c, d as nat),
                sorted@ == base + s@.take(j as int).filter(at_distance(c, d as int)),
            decreases s@.len() - j,
        {
            let q = s[j];
            proof {
                assert(in_view(s@[j as int], c, r as int));
                assert(s@.take(j + 1) =~= s@.take(j as int).push(q));
                s@.take(j as int).lemma_filter_push(q, at_distance(c, d as int));
            }
            let dx: i32 = q.0 - c.0;
            let dz: i32 = q.1 - c.1;
            let ax: i32 = if dx < 0 { -dx } else { dx };
            let az: i32 = if dz < 0 { -dz } else { dz };
            let dist: i32 = if ax >= az { ax } else { az };
            let ghost prev = sorted@;
            if dist == d {
                sorted.push(q);
                proof { assert(sorted@ =~= base + s@.take(j + 1).filter(at_distance(c, d as int))); }
            } else {
                proof { assert(sorted@ =~= base + s@.take(j + 1).filter(at_distance(c, d as int))); }
            }
            j = j + 1;
        }
        proof {
            assert(s@.take(s@.len() as int) =~= s@);
            assert(by_distance(s@, c, (d + 1) as nat) == by_distance(s@, c, d as nat) + s@.filter(at_distance(c, d as int)));
        }
        d = d + 1;
    }
    sorted
}

/// The elements of `v` that `keep` selects (`in_view` of `c`, or its
/// negation), in order.
fn filter_view(v: &Vec<(i32, i32)>, c: (i32, i32), r: i32, inside: bool) -> (out: Vec<(i32, i32)>)
    requires
        r >= 0,
    ensures
        inside ==> out@ == v@.filter(in_view_fn(c, r as int)),
        !inside ==> out@ == v@.filter(out_of_view_fn(c, r as int)),
{
    let ghost f = if inside { in_view_fn(c, r as int) } else { out_of_view_fn(c, r as int) };
    let mut out: Vec<(i32, i32)> = Vec::new();
    let mut i: usize = 0;
    while i < v.len()
        invariant
            r >= 0,
            i <= v@.len(),
            f == (if inside { in_view_fn(c, r as int) } else { out_of_view_fn(c, r as int) }),
            out@ == v@.take(i as int).filter(f),
        decreases v@.len() - i,
    {
        let q = v[i];
        proof {
            assert(v@.take(i + 1) =~= v@.take(i as int).push(q));
            v@.take(i as int).lemma_filter_push(q, f);
        }
        if view_check(q, c, r) == inside {
            out.push(q);
        }
        i = i + 1;
    }
    proof { assert(v@.take(v@.len() as int) =~= v@); }
    out
}

/// Plans the chunk traffic after the player moved from chunk `old` to
/// chunk `new` with view radius `view_radius`, given the chunks the
/// connection has loaded (no chunk twice). With a radius of 0 or less
/// nothing changes. Otherwise the not yet loaded chunks of the view square
/// are found; the nearest six of them (by Chebyshev distance, stably) are
/// sent now and the rest deferred; when there are new chunks and the player
/// changed chunk, the chunk one past the view square in the direction of
/// movement is prepared unless it is loaded; loaded chunks outside the
/// square are evicted, and the new chunks join the loaded ones.
pub fn plan_chunk_stream(old: (i32, i32), new: (i32, i32), view_radius: i32, loaded: &Vec<(i32, i32)>) -> (plan: ChunkPlan)
    requires
        plan_fits(old, new, view_radius),
    ensures
        view_radius <= 0 ==> {
            &&& plan.new_chunks@.len() == 0
            &&& plan.to_send@.len() == 0
            &&& plan.deferred == 0
            &&& plan.preload is None
            &&& plan.evicted@.len() == 0
            &&& plan.loaded_after@ == loaded@
        },
        view_radius > 0 ==> {
            let r = view_radius as int;
            let sorted = by_distance(plan.new_chunks@, new, (r + 1) as nat);
            let n = plan.new_chunks@.len();
            &&& plan.new_chunks@.no_duplicates()
            &&& forall|i: int| 0 <= i < n ==> in_view(#[trigger] plan.new_chunks@[i], new, r)
                && !loaded@.contains(plan.new_chunks@[i])
            &&& forall|p: (i32, i32)| in_view(p, new, r) && !loaded@.contains(p) ==> #[trigger] plan.new_chunks@.contains(p)
            &&& plan.to_send@ == sorted.take(if n < MAX_CHUNKS_PER_SEND { n as int } else { MAX_CHUNKS_PER_SEND as int })
            &&& plan.deferred == n - plan.to_send@.len()
            &&& plan.preload == (if n > 0 && (old.0 != new.0 || old.1 != new.1)
                && !loaded@.contains(predicted_chunk(old, new, r)) {
                Some(predicted_chunk(old, new, r))
            } else {
                None
            })
            &&& plan.evicted@ == loaded@.filter(out_of_view_fn(new, r))
            &&& plan.loaded_after@ == loaded@.filter(in_view_fn(new, r)) + plan.new_chunks@
            // what these give: the nearest chunks go first ...
            &&& forall|i: int, j: int| 0 <= i < j < plan.to_send@.len()
                ==> chebyshev(#[trigger] plan.to_send@[i], new) <= chebyshev(#[trigger] plan.to_send@[j], new)
            &&& forall|i: int, q: (i32, i32)| 0 <= i < plan.to_send@.len() && plan.new_chunks@.contains(q)
                && !plan.to_send@.contains(q) ==> chebyshev(#[trigger] plan.to_send@[i], new) <= #[trigger] chebyshev(q, new)
            // ... and afterwards exactly the view square is loaded
            &&& forall|p: (i32, i32)| #[trigger] plan.loaded_after@.contains(p) <==> in_view(p, new, r)
        },
{
    if view_radius <= 0 {
        let mut kept: Vec<(i32, i32)> = Vec::new();
        let mut i: usize = 0;
        while i < loaded.len()
            invariant
                i <= loaded@.len(),
                kept@ == loaded@.take(i as int),
            decreases loaded@.len() - i,
        {
            kept.push(loaded[i]);
            i = i + 1;
            assert(kept@ =~= loaded@.take(i as int));
        }
        assert(loaded@.take(loaded@.len() as int) =~= loaded@);
        return ChunkPlan {
            new_chunks: Vec::new(),
            to_send: Vec::new(),
            deferred: 0,
            preload: None,
            evicted: Vec::new(),
            loaded_after: kept,
        };
    }
    let r = view_radius;
    let fresh = missing_in_view(new, r, loaded);
    let sorted = sort_by_distance(&fresh, new, r);
    proof { lemma_by_distance_len(fresh@, new, r as int, (r + 1) as nat); }
    let n = fresh.len();
    let k: usize = if n < MAX_CHUNKS_PER_SEND { n } else { MAX_CHUNKS_PER_SEND };
    let mut to_send: Vec<(i32, i32)> = Vec::new();
    let mut i: usize = 0;
    while i < k
        invariant
            k <= sorted@.len(),
            i <= k,
            to_send@ == sorted@.take(i as int),
        decreases k - i,
    {
        to_send.push(sorted[i]);
        i = i + 1;
        assert(to_send@ =~= sorted@.take(i as int));
    }
    let sx: i32 = if new.0 > old.0 { 1 } else if new.0 < old.0 { -1 } else { 0 };
    let sz: i32 = if new.1 > old.1 { 1 } else if new.1 < old.1 { -1 } else { 0 };
    let preload = if n > 0 && (sx != 0 || sz != 0) {
        let p: (i32, i32) = (new.0 + sx * (r + 1), new.1 + sz * (r + 1));
        assert(p == predicted_chunk(old, new, r as int));
        if contains_pos(loaded, p) { None } else { Some(p) }
    } else {
        None
    };
    let evicted = filter_view(loaded, new, r, false);
    let mut loaded_after = filter_view(loaded, new, r, true);
    let ghost kept = loaded_after@;
    let mut j: usize = 0;
    while j < fresh.len()
        invariant
            j <= fresh@.len(),
            loaded_after@ == kept + fresh@.take(j as int),
        decreases fresh@.len() - j,
    {
        loaded_after.push(fresh[j]);
        j = j + 1;
        assert(loaded_after@ =~= kept + fresh@.take(j as int));
    }
    assert(fresh@.take(fresh@.len() as int) =~= fresh@);
    proof {
        let rr = r as int;
        let d = (rr + 1) as nat;
        lemma_by_distance_order(fresh@, new, d);
        assert forall|i: int, q: (i32, i32)| 0 <= i < to_send@.len() && fresh@.contains(q)
            && !to_send@.contains(q) implies chebyshev(#[trigger] to_send@[i], new) <= #[trigger] chebyshev(q, new) by {
            let m0 = choose|m: int| 0 <= m < fresh@.len() && fresh@[m] == q;
            assert(in_view(fresh@[m0], new, rr));
            assert(sorted@.contains(q));
            let m = choose|m: int| 0 <= m < sorted@.len() && sorted@[m] == q;
            if m < k {
                assert(to_send@[m] == q);
            }
            assert(to_send@[i] == sorted@[i]);
        }
        let kept_part = loaded@.filter(in_view_fn(new, rr));
        loaded@.filter_lemma(in_view_fn(new, rr));
        assert forall|p: (i32, i32)| #[trigger] loaded_after@.contains(p) <==> in_view(p, new, rr) by {
            if loaded_after@.contains(p) {
                let i = choose|i: int| 0 <= i < loaded_after@.len() && loaded_after@[i] == p;
                if i < kept_part.len() {
                    assert(in_view_fn(new, rr)(kept_part[i]));
                } else {
                    assert(fresh@[i - kept_part.len()] == p);
                }
            }
            if in_view(p, new, rr) {
                if loaded@.contains(p) {
                    let i = choose|i: int| 0 <= i < loaded@.len() && loaded@[i] == p;
                    assert(in_view_fn(new, rr)(loaded@[i]));
                    assert(kept_part.contains(p));
                    let j = choose|j: int| 0 <= j < kept_part.len() && kept_part[j] == p;
                    assert(loaded_after@[j] == p);
                } else {
                    assert(fresh@.contains(p));
                    let j = choose|j: int| 0 <= j < fresh@.len() && fresh@[j] == p;
                    assert(loaded_after@[kept_part.len() + j] == p);
                }
            }
        }
    }
    ChunkPlan { new_chunks: fresh, to_send, deferred: n - k, preload, evicted, loaded_after }
}

/// What sorting by distance gives: every element is nearer than `d`, the
/// elements come nearest first, and every element of `s` nearer than `d`
/// is there.
proof fn lemma_by_distance_order(s: Seq<(i32, i32)>, c: (i32, i32), d: nat)
    ensures
        forall|i: int| 0 <= i < by_distance(s, c, d).len() ==> chebyshev(#[trigger] by_distance(s, c, d)[i], c) < d,
        forall|i: int, j: int| 0 <= i < j < by_distance(s, c, d).len()
            ==> chebyshev(#[trigger] by_distance(s, c, d)[i], c) <= chebyshev(#[trigger] by_distance(s, c, d)[j], c),
        forall|q: (i32, i32)| s.contains(q) && chebyshev(q, c) < d ==> #[trigger] by_distance(s, c, d).contains(q),
    decreases d,
{
    if d > 0 {
        let e = (d - 1) as nat;
        lemma_by_distance_order(s, c, e);
        let prev = by_distance(s, c, e);
        let f = s.filter(at_distance(c, e as int));
        s.filter_lemma(at_distance(c, e as int));
        let all = by_distance(s, c, d);
        assert(all == prev + f);
        assert forall|i: int| 0 <= i < all.len() implies chebyshev(#[trigger] all[i], c) < d by {
            if i >= prev.len() {
                assert(all[i] == f[i - prev.len()]);
                assert(at_distance(c, e as int)(f[i - prev.len()]));
            }
        }
        assert forall|i: int, j: int| 0 <= i < j < all.len()
            implies chebyshev(#[trigger] all[i], c) <= chebyshev(#[trigger] all[j], c) by {
            if j < prev.len() {
                assert(all[i] == prev[i] && all[j] == prev[j]);
            } else if i < prev.len() {
                assert(all[i] == prev[i]);
                assert(all[j] == f[j - prev.len()]);
                assert(at_distance(c, e as int)(f[j - prev.len()]));
            } else {
                assert(at_distance(c, e as int)(f[i - prev.len()]));
                assert(at_distance(c, e as int)(f[j - prev.len()]));
            }
        }
        assert forall|q: (i32, i32)| s.contains(q) && chebyshev(q, c) < d implies #[trigger] all.contains(q) by {
            if chebyshev(q, c) < e {
                assert(prev.contains(q));
                let i = choose|i: int| 0 <= i < prev.len() && prev[i] == q;
                assert(all[i] == q);
            } else {
                let m = choose|m: int| 0 <= m < s.len() && s[m] == q;
                assert(at_distance(c, e as int)(s[m]));
                assert(f.contains(q));
                let i = choose|i: int| 0 <= i < f.len() && f[i] == q;
                assert(all[prev.len() + i] == q);
            }
        }
    }
}

/// Sorting by distance keeps every element of a sequence that lies within
/// the radius: the result is as long as the input.
proof fn lemma_by_distance_len(s: Seq<(i32, i32)>, c: (i32, i32), r: int, d: nat)
    requires
        forall|i: int| 0 <= i < s.len() ==> in_view(#[trigger] s[i], c, r),
        d == r + 1,
        r >= 0,
    ensures
        by_distance(s, c, d).len() == s.len(),
{
    lemma_by_distance_count(s, c, d);
    assert(s.filter(|p: (i32, i32)| chebyshev(p, c) < d) =~= s) by {
        assert forall|i: int| 0 <= i < s.len() implies chebyshev(#[trigger] s[i], c) < d by {
            assert(in_view(s[i], c, r));
        }
        lemma_filter_all(s, |p: (i32, i32)| chebyshev(p, c) < d);
    }
}

/// A filter that keeps every element is the identity.
proof fn lemma_filter_all(s: Seq<(i32, i32)>, f: spec_fn((i32, i32)) -> bool)
    requires
        forall|i: int| 0 <= i < s.len() ==> f(#[trigger] s[i]),
    ensures
        s.filter(f) == s,
    decreases s.len(),
{
    reveal(Seq::filter);
    if s.len() > 0 {
        lemma_filter_all(s.drop_last(), f);
        assert(s.drop_last().push(s.last()) =~= s);
    } else {
        assert(s.filter(f) =~= s);
    }
}

/// The chunks sorted below distance `d` are as many as those of `s` nearer
/// than `d`.
proof fn lemma_by_distance_count(s: Seq<(i32, i32)>, c: (i32, i32), d: nat)
    ensures
        by_distance(s, c, d).len() == s.filter(|p: (i32, i32)| chebyshev(p, c) < d).len(),
    decreases d,
{
    if d == 0 {
        assert(s.filter(|p: (i32, i32)| chebyshev(p, c) < d).len() == 0) by {
            lemma_filter_none(s, |p: (i32, i32)| chebyshev(p, c) < d);
        }
    } else {
        lemma_by_distance_count(s, c, (d - 1) as nat);
        lemma_filter_split(s, |p: (i32, i32)| chebyshev(p, c) < ((d - 1) as nat), at_distance(c, d - 1),
            |p: (i32, i32)| chebyshev(p, c) < d);
    }
}

/// A filter that keeps nothing gives the empty sequence.
proof fn lemma_filter_none(s: Seq<(i32, i32)>, f: spec_fn((i32, i32)) -> bool)
    requires
        forall|p: (i32, i32)| !#[trigger] f(p),
    ensures
        s.filter(f).len() == 0,
    decreases s.len(),
{
    reveal(Seq::filter);
    if s.len() > 0 {
        lemma_filter_none(s.drop_last(), f);
    }
}

/// Counting through two disjoint filters whose union is a third.
proof fn lemma_filter_split(
    s: Seq<(i32, i32)>,
    f: spec_fn((i32, i32)) -> bool,
    g: spec_fn((i32, i32)) -> bool,
    h: spec_fn((i32, i32)) -> bool,
)
    requires
        forall|p: (i32, i32)| !(#[trigger] f(p) && g(p)),
        forall|p: (i32, i32)| #[trigger] h(p) == (f(p) || g(p)),
    ensures
        s.filter(h).len() == s.filter(f).len() + s.filter(g).len(),
    decreases s.len(),
{
    reveal(Seq::filter);
    if s.len() > 0 {
        lemma_filter_split(s.drop_last(), f, g, h);
    }
}

} // verus!
