//! Target selectors: `@a`, `@e`, `@p`, `@r`, `@s` or a player name, with
//! optional `[key=value,...]` arguments.
//!
//! Distance bounds and nearest/furthest ordering compare fractional
//! positions, which the library does not hold: distance arguments are read
//! but not applied, and `@p` takes the player the caller names as nearest
//! in the context (none when the caller tracks no positions).

use vstd::prelude::*;
use vstd::string::*;
use crate::commands::context::{CommandContext, CommandSource, PlayerInfo};
use crate::parser::{game_mode_named, parse_gamemode};
use crate::text::{i32_of, i32_opt, lowercase, str_eq, usize_of, usize_opt};
use crate::types::GameMode;
use crate::words::{
    eq_ignore_ascii_case, eq_ignore_ascii_case_spec, find_char, find_from, float_text, is_float_text,
    split_char, split_dots_spec, split_once_char, split_once_dots, split_once_spec, split_spec, trim, trim_spec,
};

verus! {

/// Order of selected targets.
#[derive(Debug, Clone, Copy, PartialEq, Eq, Structural)]
pub enum SortOrder {
    Arbitrary,
    Nearest,
    Furthest,
    Random,
}

/// Parsed selector arguments.
#[derive(Debug, Clone)]
pub struct SelectorArgs {
    /// Lower distance bound, as text that `f64` parsing accepts.
    pub distance_min: Option<String>,
    /// Upper distance bound, as text that `f64` parsing accepts.
    pub distance_max: Option<String>,
    pub limit: Option<usize>,
    pub sort: SortOrder,
    pub name_filter: Option<String>,
    pub gamemode_filter: Option<GameMode>,
    pub level_min: Option<i32>,
    pub level_max: Option<i32>,
}

/// Selector arguments as the specification sees them.
pub struct SelectorView {
    pub distance_min: Option<Seq<char>>,
    pub distance_max: Option<Seq<char>>,
    pub limit: Option<usize>,
    pub sort: SortOrder,
    pub name_filter: Option<Seq<char>>,
    pub gamemode_filter: Option<GameMode>,
    pub level_min: Option<i32>,
    pub level_max: Option<i32>,
}

pub open spec fn opt_view(o: Option<String>) -> Option<Seq<char>> {
    match o {
        Some(s) => Some(s@),
        None => None,
    }
}

pub open spec fn selector_view(a: SelectorArgs) -> SelectorView {
    SelectorView {
        distance_min: opt_view(a.distance_min),
        distance_max: opt_view(a.distance_max),
        limit: a.limit,
        sort: a.sort,
        name_filter: opt_view(a.name_filter),
        gamemode_filter: a.gamemode_filter,
        level_min: a.level_min,
        level_max: a.level_max,
    }
}

/// No bounds, no limit, no filters, arbitrary order.
pub open spec fn default_selector() -> SelectorView {
    SelectorView {
        distance_min: None,
        distance_max: None,
        limit: None,
        sort: SortOrder::Arbitrary,
        name_filter: None,
        gamemode_filter: None,
        level_min: None,
        level_max: None,
    }
}

impl SelectorArgs {
    pub fn new() -> (r: SelectorArgs)
        ensures
            selector_view(r) == default_selector(),
    {
        SelectorArgs {
            distance_min: None,
            distance_max: None,
            limit: None,
            sort: SortOrder::Arbitrary,
            name_filter: None,
            gamemode_filter: None,
            level_min: None,
            level_max: None,
        }
    }
}

/// The arguments after one `key=value` part (whitespace around the part,
/// key and value ignored; unknown keys ignored).
pub open spec fn selector_part_step(a: SelectorView, raw: Seq<char>) -> Result<SelectorView, Seq<char>> {
    let p = trim_spec(raw);
    if p.len() == 0 {
        Ok(a)
    } else {
        match split_once_spec(p, '=') {
            None => Err("Invalid selector argument: "@ + p),
            Some((k0, v0)) => {
                let key = trim_spec(k0);
                let value = trim_spec(v0);
                if key == "distance"@ {
                    match split_dots_spec(value) {
                        Some((lo, hi)) => {
                            if lo.len() > 0 && !is_float_text(lo) {
                                Err("Invalid distance min: "@ + lo)
                            } else if hi.len() > 0 && !is_float_text(hi) {
                                Err("Invalid distance max: "@ + hi)
                            } else {
                                Ok(SelectorView {
                                    distance_min: if lo.len() > 0 { Some(lo) } else { a.distance_min },
                                    distance_max: if hi.len() > 0 { Some(hi) } else { a.distance_max },
                                    ..a
                                })
                            }
                        },
                        None => Err("distance requires range like ..10 or 5..20"@),
                    }
                } else if key == "limit"@ || key == "c"@ {
                    match usize_of(value) {
                        Some(n) => Ok(SelectorView { limit: Some(n), ..a }),
                        None => Err("Invalid limit: "@ + value),
                    }
                } else if key == "sort"@ {
                    if value == "nearest"@ {
                        Ok(SelectorView { sort: SortOrder::Nearest, ..a })
                    } else if value == "furthest"@ {
                        Ok(SelectorView { sort: SortOrder::Furthest, ..a })
                    } else if value == "random"@ {
                        Ok(SelectorView { sort: SortOrder::Random, ..a })
                    } else if value == "arbitrary"@ {
                        Ok(SelectorView { sort: SortOrder::Arbitrary, ..a })
                    } else {
                        Err("Unknown sort order: "@ + value + ". Use nearest, furthest, random, or arbitrary"@)
                    }
                } else if key == "name"@ {
                    Ok(SelectorView { name_filter: Some(value), ..a })
                } else if key == "gamemode"@ || key == "m"@ {
                    match game_mode_named(lowercase(value)) {
                        Some(g) => Ok(SelectorView { gamemode_filter: Some(g), ..a }),
                        None => Err("Unknown gamemode: "@ + value),
                    }
                } else if key == "level"@ || key == "l"@ {
                    match split_dots_spec(value) {
                        Some((lo, hi)) => {
                            if lo.len() > 0 && i32_of(lo) is None {
                                Err("Invalid level min: "@ + lo)
                            } else if hi.len() > 0 && i32_of(hi) is None {
                                Err("Invalid level max: "@ + hi)
                            } else {
                                Ok(SelectorView {
                                    level_min: if lo.len() > 0 { i32_of(lo) } else { a.level_min },
                                    level_max: if hi.len() > 0 { i32_of(hi) } else { a.level_max },
                                    ..a
                                })
                            }
                        },
                        None => match i32_of(value) {
                            Some(l) => Ok(SelectorView { level_min: Some(l), level_max: Some(l), ..a }),
                            None => Err("Invalid level: "@ + value),
                        },
                    }
                } else {
                    Ok(a)
                }
            },
        }
    }
}

/// The arguments after the first `n` parts.
pub open spec fn selector_parts_upto(parts: Seq<Seq<char>>, n: int) -> Result<SelectorView, Seq<char>>
    decreases n,
{
    if n <= 0 {
        Ok(default_selector())
    } else {
        match selector_parts_upto(parts, n - 1) {
            Ok(a) => selector_part_step(a, parts[n - 1]),
            Err(e) => Err(e),
        }
    }
}

/// What `parse_selector_args` gives for `s`.
pub open spec fn selector_args_spec(s: Seq<char>) -> Result<SelectorView, Seq<char>> {
    let parts = split_spec(s, ',');
    selector_parts_upto(parts, parts.len() as int)
}

fn err_with(prefix: &str, what: &str) -> (r: Result<SelectorArgs, String>)
    ensures
        r matches Err(e) && e@ == prefix@ + what@,
{
    let mut e = String::from_str(prefix);
    e.append(what);
    Err(e)
}

fn apply_part(a: SelectorArgs, raw: &str) -> (r: Result<SelectorArgs, String>)
    ensures
        match (r, selector_part_step(selector_view(a), raw@)) {
            (Ok(x), Ok(y)) => selector_view(x) == y,
            (Err(x), Err(y)) => x@ == y,
            _ => false,
        },
{
    let mut a = a;
    let p = trim(raw);
    if p.unicode_len() == 0 {
        return Ok(a);
    }
    let (k0, v0) = match split_once_char(p.as_str(), '=') {
        Some(kv) => kv,
        None => {
            return err_with("Invalid selector argument: ", p.as_str());
        },
    };
    let key = trim(k0.as_str());
    let value = trim(v0.as_str());
    let k = key.as_str();
    let v = value.as_str();
    if str_eq(k, "distance") {
        match split_once_dots(v) {
            Some((lo, hi)) => {
                if lo.unicode_len() > 0 && !float_text(lo.as_str()) {
                    return err_with("Invalid distance min: ", lo.as_str());
                }
                if hi.unicode_len() > 0 && !float_text(hi.as_str()) {
                    return err_with("Invalid distance max: ", hi.as_str());
                }
                if lo.unicode_len() > 0 {
                    a.distance_min = Some(lo);
                }
                if hi.unicode_len() > 0 {
                    a.distance_max = Some(hi);
                }
                Ok(a)
            },
            None => Err(String::from_str("distance requires range like ..10 or 5..20")),
        }
    } else if str_eq(k, "limit") || str_eq(k, "c") {
        match usize_opt(v) {
            Some(n) => {
                a.limit = Some(n);
                Ok(a)
            },
            None => err_with("Invalid limit: ", v),
        }
    } else if str_eq(k, "sort") {
        if str_eq(v, "nearest") {
            a.sort = SortOrder::Nearest;
        } else if str_eq(v, "furthest") {
            a.sort = SortOrder::Furthest;
        } else if str_eq(v, "random") {
            a.sort = SortOrder::Random;
        } else if str_eq(v, "arbitrary") {
            a.sort = SortOrder::Arbitrary;
        } else {
            let mut e = String::from_str("Unknown sort order: ");
            e.append(v);
            e.append(". Use nearest, furthest, random, or arbitrary");
            return Err(e);
        }
        Ok(a)
    } else if str_eq(k, "name") {
        a.name_filter = Some(String::from_str(v));
        Ok(a)
    } else if str_eq(k, "gamemode") || str_eq(k, "m") {
        match parse_gamemode(v) {
            Ok(g) => {
                a.gamemode_filter = Some(g);
                Ok(a)
            },
            Err(e) => Err(e),
        }
    } else if str_eq(k, "level") || str_eq(k, "l") {
        match split_once_dots(v) {
            Some((lo, hi)) => {
                let mut lmin = a.level_min;
                let mut lmax = a.level_max;
                if lo.unicode_len() > 0 {
                    match i32_opt(lo.as_str()) {
                        Some(x) => {
                            lmin = Some(x);
                        },
                        None => {
                            return err_with("Invalid level min: ", lo.as_str());
                        },
                    }
                }
                if hi.unicode_len() > 0 {
                    match i32_opt(hi.as_str()) {
                        Some(x) => {
                            lmax = Some(x);
                        },
                        None => {
                            return err_with("Invalid level max: ", hi.as_str());
                        },
                    }
                }
                a.level_min = lmin;
                a.level_max = lmax;
                Ok(a)
            },
            None => match i32_opt(v) {
                Some(l) => {
                    a.level_min = Some(l);
                    a.level_max = Some(l);
                    Ok(a)
                },
                None => err_with("Invalid level: ", v),
            },
        }
    } else {
        Ok(a)
    }
}

/// Parses `key=value,key=value,...` (the text between the brackets).
pub fn parse_selector_args(args_str: &str) -> (r: Result<SelectorArgs, String>)
    ensures
        match (r, selector_args_spec(args_str@)) {
            (Ok(x), Ok(y)) => selector_view(x) == y,
            (Err(x), Err(y)) => x@ == y,
            _ => false,
        },
{
    let parts = split_char(args_str, ',');
    let ghost pv = parts@.map_values(|p: String| p@);
    let mut a = SelectorArgs::new();
    let mut i: usize = 0;
    while i < parts.len()
        invariant
            i <= parts@.len(),
            pv == parts@.map_values(|p: String| p@),
            pv == split_spec(args_str@, ','),
            selector_parts_upto(pv, i as int) == Ok::<SelectorView, Seq<char>>(selector_view(a)),
        decreases parts@.len() - i,
    {
        proof { assert(pv[i as int] == parts@[i as int]@); }
        match apply_part(a, parts[i].as_str()) {
            Ok(next) => {
                a = next;
            },
            Err(e) => {
                proof {
                    assert(selector_parts_upto(pv, i + 1) == selector_part_step(selector_view(a), pv[i as int]));
                    lemma_parts_error_sticks(pv, i + 1, pv.len() as int);
                }
                return Err(e);
            },
        }
        i = i + 1;
    }
    Ok(a)
}

/// Once a part fails, the whole parse fails with that error.
proof fn lemma_parts_error_sticks(parts: Seq<Seq<char>>, i: int, n: int)
    requires
        1 <= i <= n,
        selector_parts_upto(parts, i) is Err,
    ensures
        selector_parts_upto(parts, n) == selector_parts_upto(parts, i),
    decreases n - i,
{
    if i < n {
        lemma_parts_error_sticks(parts, i, n - 1);
    }
}

/// A target split into the selector and the text between brackets, when
/// it has the form `selector[args]`.
pub open spec fn target_parts(t: Seq<char>) -> (Seq<char>, Option<Seq<char>>) {
    match find_from(t, '[', 0) {
        Some(b) => if t.len() > 0 && t.last() == ']' {
            (t.subrange(0, b), Some(t.subrange(b + 1, t.len() - 1)))
        } else {
            (t, None)
        },
        None => (t, None),
    }
}

/// Splits `@a[limit=1]` into `@a` and `limit=1`.
pub fn parse_target_with_args(target: &str) -> (r: (String, Option<String>))
    ensures
        r.0@ == target_parts(target@).0,
        opt_view(r.1) == target_parts(target@).1,
{
    let n = target.unicode_len();
    match find_char(target, '[') {
        Some(b) => {
            proof { crate::words::lemma_find_from(target@, '[', 0); }
            if n > 0 && target.get_char(n - 1) == ']' {
                (String::from_str(target.substring_char(0, b)), Some(String::from_str(target.substring_char(b + 1, n - 1))))
            } else {
                (String::from_str(target), None)
            }
        },
        None => (String::from_str(target), None),
    }
}

/// A candidate target: id and name.
pub type Target = (u128, String);

pub open spec fn target_view(t: Target) -> (u128, Seq<char>) {
    (t.0, t.1@)
}

pub open spec fn targets_view(v: Seq<Target>) -> Seq<(u128, Seq<char>)> {
    v.map_values(|t: Target| target_view(t))
}

pub open spec fn players_targets(p: Seq<PlayerInfo>) -> Seq<(u128, Seq<char>)> {
    p.map_values(|q: PlayerInfo| (q.uuid, q.username@))
}

/// Position of the first player with `uuid`.
pub open spec fn player_pos(p: Seq<PlayerInfo>, uuid: u128) -> Option<int> {
    if exists|i: int| 0 <= i < p.len() && #[trigger] p[i].uuid == uuid {
        Some(choose|i: int| 0 <= i < p.len() && #[trigger] p[i].uuid == uuid
            && forall|j: int| 0 <= j < i ==> p[j].uuid != uuid)
    } else {
        None
    }
}

/// Position of the first player named exactly `name`.
pub open spec fn name_pos(p: Seq<PlayerInfo>, name: Seq<char>) -> Option<int> {
    if exists|i: int| 0 <= i < p.len() && #[trigger] p[i].username@ == name {
        Some(choose|i: int| 0 <= i < p.len() && #[trigger] p[i].username@ == name
            && forall|j: int| 0 <= j < i ==> p[j].username@ != name)
    } else {
        None
    }
}

/// The candidates a selector names before filters.
pub open spec fn candidates_spec(selector: Seq<char>, ctx: CommandContext) -> Seq<(u128, Seq<char>)> {
    let p = ctx.players@;
    if selector == "@a"@ || selector == "@e"@ {
        players_targets(p)
    } else if selector == "@p"@ {
        match ctx.nearest {
            Some(u) => match player_pos(p, u) {
                Some(i) => seq![(u, p[i].username@)],
                None => Seq::empty(),
            },
            None => Seq::empty(),
        }
    } else if selector == "@r"@ {
        if p.len() == 0 {
            Seq::empty()
        } else {
            let i = (ctx.random % (p.len() as u64)) as int;
            seq![(p[i].uuid, p[i].username@)]
        }
    } else if selector == "@s"@ {
        match ctx.source {
            CommandSource::Player { uuid, username } => seq![(uuid, username@)],
            _ => Seq::empty(),
        }
    } else {
        match name_pos(p, selector) {
            Some(i) => seq![(p[i].uuid, p[i].username@)],
            None => Seq::empty(),
        }
    }
}

pub proof fn lemma_player_pos(p: Seq<PlayerInfo>, uuid: u128, k: int)
    requires
        0 <= k < p.len(),
        p[k].uuid == uuid,
        forall|j: int| 0 <= j < k ==> p[j].uuid != uuid,
    ensures
        player_pos(p, uuid) == Some(k),
{
    let i = choose|i: int| 0 <= i < p.len() && #[trigger] p[i].uuid == uuid
        && forall|j: int| 0 <= j < i ==> p[j].uuid != uuid;
    assert(0 <= k < p.len() && p[k].uuid == uuid && forall|j: int| 0 <= j < k ==> p[j].uuid != uuid);
    if i < k {
        assert(p[i].uuid != uuid);
    } else if k < i {
        assert(p[k].uuid != uuid);
    }
}

pub proof fn lemma_name_pos(p: Seq<PlayerInfo>, name: Seq<char>, k: int)
    requires
        0 <= k < p.len(),
        p[k].username@ == name,
        forall|j: int| 0 <= j < k ==> p[j].username@ != name,
    ensures
        name_pos(p, name) == Some(k),
{
    let i = choose|i: int| 0 <= i < p.len() && #[trigger] p[i].username@ == name
        && forall|j: int| 0 <= j < i ==> p[j].username@ != name;
    assert(0 <= k < p.len() && p[k].username@ == name && forall|j: int| 0 <= j < k ==> p[j].username@ != name);
    if i < k {
        assert(p[i].username@ != name);
    } else if k < i {
        assert(p[k].username@ != name);
    }
}

fn all_targets(players: &Vec<PlayerInfo>) -> (r: Vec<Target>)
    ensures
        targets_view(r@) == players_targets(players@),
{
    let mut out: Vec<Target> = Vec::new();
    let mut i: usize = 0;
    while i < players.len()
        invariant
            i <= players@.len(),
            targets_view(out@) == players_targets(players@.subrange(0, i as int)),
        decreases players@.len() - i,
    {
        let ghost before = out@;
        let name = players[i].username.clone();
        out.push((players[i].uuid, name));
        proof {
            assert(out@ =~= before.push((players@[i as int].uuid, name)));
            assert(targets_view(out@) =~= targets_view(before).push((players@[i as int].uuid, players@[i as int].username@)));
            assert(players_targets(players@.subrange(0, i + 1)) =~= players_targets(players@.subrange(0, i as int))
                .push((players@[i as int].uuid, players@[i as int].username@)));
        }
        i = i + 1;
    }
    proof { assert(players@.subrange(0, players@.len() as int) =~= players@); }
    out
}

fn one_target(uuid: u128, name: &String) -> (r: Vec<Target>)
    ensures
        targets_view(r@) == seq![(uuid, name@)],
{
    let mut out: Vec<Target> = Vec::new();
    let nm = name.clone();
    out.push((uuid, nm));
    proof {
        assert(out@ =~= seq![(uuid, nm)]);
        assert(targets_view(out@) =~= seq![(uuid, name@)]);
    }
    out
}

fn no_targets() -> (r: Vec<Target>)
    ensures
        targets_view(r@) == Seq::<(u128, Seq<char>)>::empty(),
{
    let out: Vec<Target> = Vec::new();
    proof { assert(targets_view(out@) =~= Seq::<(u128, Seq<char>)>::empty()); }
    out
}

/// The candidates a selector names before filters.
pub fn select_candidates(selector: &str, ctx: &CommandContext) -> (r: Vec<Target>)
    ensures
        targets_view(r@) == candidates_spec(selector@, *ctx),
{
    let p = &ctx.players;
    if str_eq(selector, "@a") || str_eq(selector, "@e") {
        all_targets(p)
    } else if str_eq(selector, "@p") {
        match ctx.nearest {
            Some(u) => match crate::commands::context::find_player(p, u) {
                Some(i) => {
                    proof { lemma_player_pos(p@, u, i as int); }
                    one_target(u, &p[i].username)
                },
                None => no_targets(),
            },
            None => no_targets(),
        }
    } else if str_eq(selector, "@r") {
        if p.len() == 0 {
            no_targets()
        } else {
            let i = (ctx.random % (p.len() as u64)) as usize;
            one_target(p[i].uuid, &p[i].username)
        }
    } else if str_eq(selector, "@s") {
        match &ctx.source {
            CommandSource::Player { uuid, username } => one_target(*uuid, username),
            _ => no_targets(),
        }
    } else {
        let mut i: usize = 0;
        while i < p.len()
            invariant
                i <= p@.len(),
                p@ == ctx.players@,
                !(selector@ == "@a"@ || selector@ == "@e"@ || selector@ == "@p"@ || selector@ == "@r"@
                    || selector@ == "@s"@),
                forall|j: int| 0 <= j < i ==> p@[j].username@ != selector@,
            decreases p@.len() - i,
        {
            if str_eq(p[i].username.as_str(), selector) {
                proof { lemma_name_pos(p@, selector@, i as int); }
                return one_target(p[i].uuid, &p[i].username);
            }
            i = i + 1;
        }
        no_targets()
    }
}

/// Whether the first player with id `uuid` has game mode `g`.
pub open spec fn has_mode(p: Seq<PlayerInfo>, uuid: u128, g: GameMode) -> bool {
    match player_pos(p, uuid) {
        Some(i) => p[i].gamemode == g,
        None => false,
    }
}

/// Candidates whose name equals `n` ignoring ASCII case.
pub open spec fn name_match(n: Seq<char>) -> spec_fn((u128, Seq<char>)) -> bool {
    |t: (u128, Seq<char>)| eq_ignore_ascii_case_spec(t.1, n)
}

/// Candidates that are online with game mode `g`.
pub open spec fn mode_match(p: Seq<PlayerInfo>, g: GameMode) -> spec_fn((u128, Seq<char>)) -> bool {
    |t: (u128, Seq<char>)| has_mode(p, t.0, g)
}

/// `s` with positions `i` and `j` exchanged.
pub open spec fn swapped<T>(s: Seq<T>, i: int, j: int) -> Seq<T> {
    s.update(i, s[j]).update(j, s[i])
}

/// The shuffle the selector's random order performs: for `i` from the
/// last position down to 1, swap `i` with `seed * (i + 1) mod 2^64 mod (i + 1)`.
pub open spec fn shuffle_from<T>(s: Seq<T>, seed: u64, i: int) -> Seq<T>
    decreases i,
{
    if i < 1 || i >= s.len() {
        s
    } else {
        let k = ((i + 1) as u64);
        let j = (seed.wrapping_mul(k) % k) as int;
        shuffle_from(swapped(s, i, j), seed, i - 1)
    }
}

pub open spec fn shuffle_spec<T>(s: Seq<T>, seed: u64) -> Seq<T> {
    shuffle_from(s, seed, s.len() - 1)
}

/// The first `n` elements (all when there are fewer).
pub open spec fn take_upto<T>(s: Seq<T>, n: Option<usize>) -> Seq<T> {
    match n {
        Some(k) => if k < s.len() { s.take(k as int) } else { s },
        None => s,
    }
}

/// Filters, random order and limit applied to candidates.
pub open spec fn filtered_spec(c: Seq<(u128, Seq<char>)>, a: SelectorView, ctx: CommandContext) -> Seq<(u128, Seq<char>)> {
    let by_name = match a.name_filter {
        Some(n) => c.filter(name_match(n)),
        None => c,
    };
    let by_mode = match a.gamemode_filter {
        Some(g) => by_name.filter(mode_match(ctx.players@, g)),
        None => by_name,
    };
    let ordered = if a.sort == SortOrder::Random { shuffle_spec(by_mode, ctx.random) } else { by_mode };
    take_upto(ordered, a.limit)
}

fn swap_targets(v: &mut Vec<Target>, i: usize, j: usize)
    requires
        j <= i < old(v)@.len(),
    ensures
        targets_view(final(v)@) == swapped(targets_view(old(v)@), i as int, j as int),
        final(v)@.len() == old(v)@.len(),
{
    if i == j {
        proof { assert(swapped(targets_view(old(v)@), i as int, j as int) =~= targets_view(old(v)@)); }
        return;
    }
    let ghost s = v@;
    let x = v.remove(i);
    let y = v.remove(j);
    v.insert(j, x);
    v.insert(i, y);
    proof {
        assert(v@ =~= s.update(i as int, s[j as int]).update(j as int, s[i as int]));
        assert(targets_view(v@) =~= swapped(targets_view(s), i as int, j as int));
    }
}

fn shuffle_targets(v: &mut Vec<Target>, seed: u64)
    ensures
        targets_view(final(v)@) == shuffle_spec(targets_view(old(v)@), seed),
{
    let n = v.len();
    if n < 2 {
        return;
    }
    let mut i: usize = n - 1;
    while i >= 1
        invariant
            v@.len() == n,
            n >= 2,
            i < n,
            shuffle_from(targets_view(v@), seed, i as int) == shuffle_spec(targets_view(old(v)@), seed),
        decreases i,
    {
        let k: u64 = (i as u64) + 1;
        let j = (seed.wrapping_mul(k) % k) as usize;
        swap_targets(v, i, j);
        i = i - 1;
    }
}

fn keep_named(c: Vec<Target>, name: &str) -> (r: Vec<Target>)
    ensures
        targets_view(r@) == targets_view(c@).filter(name_match(name@)),
{
    let ghost f = name_match(name@);
    let mut out: Vec<Target> = Vec::new();
    let mut i: usize = 0;
    while i < c.len()
        invariant
            i <= c@.len(),
            f == name_match(name@),
            targets_view(out@) == targets_view(c@).take(i as int).filter(f),
        decreases c@.len() - i,
    {
        proof {
            assert(targets_view(c@).take(i + 1) =~= targets_view(c@).take(i as int).push(target_view(c@[i as int])));
            targets_view(c@).take(i as int).lemma_filter_push(target_view(c@[i as int]), f);
        }
        let ghost before = out@;
        let keep = eq_ignore_ascii_case(c[i].1.as_str(), name);
        proof { assert(f(target_view(c@[i as int])) == keep); }
        if keep {
            let nm = c[i].1.clone();
            out.push((c[i].0, nm));
            proof {
                assert(out@ =~= before.push((c@[i as int].0, nm)));
                assert(targets_view(out@) =~= targets_view(before).push(target_view(c@[i as int])));
            }
        }
        i = i + 1;
    }
    proof { assert(targets_view(c@).take(c@.len() as int) =~= targets_view(c@)); }
    out
}

fn keep_mode(c: Vec<Target>, players: &Vec<PlayerInfo>, g: GameMode) -> (r: Vec<Target>)
    ensures
        targets_view(r@) == targets_view(c@).filter(mode_match(players@, g)),
{
    let ghost f = mode_match(players@, g);
    let mut out: Vec<Target> = Vec::new();
    let mut i: usize = 0;
    while i < c.len()
        invariant
            i <= c@.len(),
            f == mode_match(players@, g),
            targets_view(out@) == targets_view(c@).take(i as int).filter(f),
        decreases c@.len() - i,
    {
        proof {
            assert(targets_view(c@).take(i + 1) =~= targets_view(c@).take(i as int).push(target_view(c@[i as int])));
            targets_view(c@).take(i as int).lemma_filter_push(target_view(c@[i as int]), f);
        }
        let keep = match crate::commands::context::find_player(players, c[i].0) {
            Some(k) => {
                proof { lemma_player_pos(players@, c@[i as int].0, k as int); }
                players[k].gamemode == g
            },
            None => false,
        };
        proof { assert(f(target_view(c@[i as int])) == keep); }
        let ghost before = out@;
        if keep {
            let nm = c[i].1.clone();
            out.push((c[i].0, nm));
            proof {
                assert(out@ =~= before.push((c@[i as int].0, nm)));
                assert(targets_view(out@) =~= targets_view(before).push(target_view(c@[i as int])));
            }
        }
        i = i + 1;
    }
    proof { assert(targets_view(c@).take(c@.len() as int) =~= targets_view(c@)); }
    out
}

/// Name and game-mode filters, random order and limit.
pub fn apply_selector_filters(candidates: Vec<Target>, args: &SelectorArgs, ctx: &CommandContext) -> (r: Vec<Target>)
    ensures
        targets_view(r@) == filtered_spec(targets_view(candidates@), selector_view(*args), *ctx),
{
    let mut c = candidates;
    match &args.name_filter {
        Some(n) => {
            c = keep_named(c, n.as_str());
        },
        None => {},
    }
    match args.gamemode_filter {
        Some(g) => {
            c = keep_mode(c, &ctx.players, g);
        },
        None => {},
    }
    if args.sort == SortOrder::Random {
        shuffle_targets(&mut c, ctx.random);
    }
    match args.limit {
        Some(k) => {
            if k < c.len() {
                let ghost before = targets_view(c@);
                c.truncate(k);
                proof { assert(targets_view(c@) =~= before.take(k as int)); }
            }
        },
        None => {},
    }
    c
}

/// The targets `target` selects.
pub open spec fn targets_spec(target: Seq<char>, ctx: CommandContext) -> Seq<(u128, Seq<char>)> {
    let (selector, args_text) = target_parts(target);
    let args = match args_text {
        Some(t) => match selector_args_spec(t) {
            Ok(a) => a,
            Err(_) => default_selector(),
        },
        None => default_selector(),
    };
    filtered_spec(candidates_spec(selector, ctx), args, ctx)
}

/// Resolves a target selector to players (arguments that fail to parse
/// are ignored).
pub fn resolve_player_targets(target: &str, ctx: &CommandContext) -> (r: Vec<Target>)
    ensures
        targets_view(r@) == targets_spec(target@, *ctx),
{
    let (selector, args_text) = parse_target_with_args(target);
    let args = match args_text {
        Some(t) => match parse_selector_args(t.as_str()) {
            Ok(a) => a,
            Err(_) => SelectorArgs::new(),
        },
        None => SelectorArgs::new(),
    };
    let candidates = select_candidates(selector.as_str(), ctx);
    apply_selector_filters(candidates, &args, ctx)
}

/// The first target `target` selects.
pub fn resolve_player_target(target: &str, ctx: &CommandContext) -> (r: Option<Target>)
    ensures
        match r {
            Some(t) => targets_spec(target@, *ctx).len() > 0 && target_view(t) == targets_spec(target@, *ctx)[0],
            None => targets_spec(target@, *ctx).len() == 0,
        },
{
    let mut v = resolve_player_targets(target, ctx);
    if v.len() == 0 {
        None
    } else {
        let ghost s = v@;
        let t = v.remove(0);
        Some(t)
    }
}

/// The same selector arguments without a limit.
pub open spec fn unlimited(a: SelectorView) -> SelectorView {
    SelectorView { limit: None, ..a }
}

/// `limit=k` keeps at most `k` targets: the first `k` of what the other
/// arguments select, in their order (all of them when there are fewer).
pub proof fn limit_keeps_the_first_targets(c: Seq<(u128, Seq<char>)>, a: SelectorView, ctx: CommandContext)
    ensures
        a.limit matches Some(k) ==> {
            let all = filtered_spec(c, unlimited(a), ctx);
            let kept = filtered_spec(c, a, ctx);
            &&& kept.len() <= k
            &&& kept.len() == if k < all.len() { k as int } else { all.len() as int }
            &&& forall|i: int| 0 <= i < kept.len() ==> #[trigger] kept[i] == all[i]
        },
        a.limit is None ==> filtered_spec(c, a, ctx) == filtered_spec(c, unlimited(a), ctx),
{
}

/// A target whose arguments parse with `limit=k` selects at most `k`
/// players.
pub proof fn limited_target_selects_at_most(target: Seq<char>, ctx: CommandContext, k: usize)
    requires
        target_parts(target).1 matches Some(t) && selector_args_spec(t) matches Ok(a) && a.limit == Some(k),
    ensures
        targets_spec(target, ctx).len() <= k,
{
    let t = target_parts(target).1->0;
    let a = selector_args_spec(t)->Ok_0;
    limit_keeps_the_first_targets(candidates_spec(target_parts(target).0, ctx), a, ctx);
}

/// Shuffling keeps the length and only moves elements around.
proof fn lemma_shuffle_keeps_elements<T>(s: Seq<T>, seed: u64, i: int)
    requires
        s.len() <= u64::MAX,
    ensures
        shuffle_from(s, seed, i).len() == s.len(),
        forall|k: int| 0 <= k < s.len() ==> s.contains(#[trigger] shuffle_from(s, seed, i)[k]),
    decreases i,
{
    if i < 1 || i >= s.len() {
        assert forall|k: int| 0 <= k < s.len() implies s.contains(#[trigger] shuffle_from(s, seed, i)[k]) by {
            assert(s[k] == shuffle_from(s, seed, i)[k]);
        }
    } else {
        let k1 = ((i + 1) as u64);
        let m = seed.wrapping_mul(k1);
        let j = (m % k1) as int;
        assert(0 <= j < s.len()) by {
            let r: u64 = m % k1;
            assert(j == r);
            assert(k1 == i + 1);
            assert(0 <= r < k1) by (nonlinear_arith)
                requires
                    k1 > 0,
                    r == m % k1,
            ;
        }
        let t = swapped(s, i, j);
        assert(t.len() == s.len());
        lemma_shuffle_keeps_elements(t, seed, i - 1);
        assert forall|k: int| 0 <= k < s.len() implies s.contains(#[trigger] shuffle_from(s, seed, i)[k]) by {
            let x = shuffle_from(t, seed, i - 1)[k];
            assert(t.contains(x));
            let q = choose|q: int| 0 <= q < t.len() && t[q] == x;
            if q == j {
                assert(x == s[i]);
            } else if q == i {
                assert(x == s[j]);
            } else {
                assert(x == s[q]);
            }
        }
    }
}

/// What a filter keeps comes from the sequence and passes the filter.
proof fn lemma_from_filtered<T>(s: Seq<T>, p: spec_fn(T) -> bool, x: T)
    requires
        s.filter(p).contains(x),
    ensures
        s.contains(x),
        p(x),
{
    s.lemma_filter_contains_rev(p, x);
    let q = choose|q: int| 0 <= q < s.filter(p).len() && s.filter(p)[q] == x;
    s.lemma_filter_pred(p, q);
}

/// Every selected target is a candidate that passes the `name=` and
/// `gamemode=` filters of the arguments.
pub proof fn selected_targets_pass_the_filters(c: Seq<(u128, Seq<char>)>, a: SelectorView, ctx: CommandContext)
    requires
        c.len() <= u64::MAX,
    ensures
        forall|i: int| 0 <= i < filtered_spec(c, a, ctx).len() ==> {
            let t = #[trigger] filtered_spec(c, a, ctx)[i];
            &&& c.contains(t)
            &&& (a.name_filter matches Some(n) ==> eq_ignore_ascii_case_spec(t.1, n))
            &&& (a.gamemode_filter matches Some(g) ==> has_mode(ctx.players@, t.0, g))
        },
{
    let kept = filtered_spec(c, a, ctx);
    assert forall|i: int| 0 <= i < kept.len() implies {
        let t = #[trigger] kept[i];
        &&& c.contains(t)
        &&& (a.name_filter matches Some(n) ==> eq_ignore_ascii_case_spec(t.1, n))
        &&& (a.gamemode_filter matches Some(g) ==> has_mode(ctx.players@, t.0, g))
    } by {
        lemma_selected_target(c, a, ctx, i);
    }
}

#[verifier::rlimit(50)]
#[verifier::spinoff_prover]
proof fn lemma_selected_target(c: Seq<(u128, Seq<char>)>, a: SelectorView, ctx: CommandContext, i: int)
    requires
        c.len() <= u64::MAX,
        0 <= i < filtered_spec(c, a, ctx).len(),
    ensures
        ({
            let t = filtered_spec(c, a, ctx)[i];
            &&& c.contains(t)
            &&& (a.name_filter matches Some(n) ==> eq_ignore_ascii_case_spec(t.1, n))
            &&& (a.gamemode_filter matches Some(g) ==> has_mode(ctx.players@, t.0, g))
        }),
{
    let by_name = match a.name_filter {
        Some(n) => c.filter(name_match(n)),
        None => c,
    };
    let by_mode = match a.gamemode_filter {
        Some(g) => by_name.filter(mode_match(ctx.players@, g)),
        None => by_name,
    };
    let ordered = if a.sort == SortOrder::Random { shuffle_spec(by_mode, ctx.random) } else { by_mode };
    let t = filtered_spec(c, a, ctx)[i];
    match a.name_filter {
        Some(n) => { c.lemma_filter_len(name_match(n)); },
        None => {},
    }
    match a.gamemode_filter {
        Some(g) => { by_name.lemma_filter_len(mode_match(ctx.players@, g)); },
        None => {},
    }
    lemma_shuffle_keeps_elements(by_mode, ctx.random, by_mode.len() - 1);
    assert(t == ordered[i]);
    assert(by_mode.contains(t)) by {
        if a.sort != SortOrder::Random {
            assert(by_mode[i] == t);
        }
    }
    match a.gamemode_filter {
        Some(g) => {
            lemma_from_filtered(by_name, mode_match(ctx.players@, g), t);
        },
        None => {},
    }
    assert(by_name.contains(t));
    match a.name_filter {
        Some(n) => {
            lemma_from_filtered(c, name_match(n), t);
        },
        None => {},
    }
}

} // verus!
