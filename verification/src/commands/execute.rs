//! `/execute as|at <target> run <command>` and
//! `/execute positioned <x> <y> <z> run <command>`.
//!
//! What the arguments decide (the plan) is here; running the planned
//! commands goes back through the dispatcher.

use vstd::prelude::*;
use vstd::string::*;
use crate::commands::context::{
    arg_views, CommandContext, CommandResult, CommandSource, ReplyView,
};
use crate::commands::dispatcher::{
    clone_ids, clone_info, clone_loaded, clone_players, clone_source, info_opt_views, same_environment,
};
use crate::commands::selector::{player_pos, resolve_player_targets, targets_spec, targets_view, Target};
use crate::text::{decimal, joined, lowercase, push_i64, push_u64, signed_decimal, str_eq, to_lowercase, views};

verus! {

// ─────────────────────────────────── plan ───────────────────────────────────

/// Position of the first argument at or after `i` that reads `run` in any
/// case.
pub open spec fn run_from(a: Seq<Seq<char>>, i: int) -> Option<int>
    decreases a.len() - i,
{
    if i < 0 || i >= a.len() {
        None
    } else if lowercase(a[i]) == "run"@ {
        Some(i)
    } else {
        run_from(a, i + 1)
    }
}

/// What `/execute` does, as its arguments decide it.
pub enum PlanView {
    /// Refused with this message.
    Refused(Seq<char>),
    /// Runs `args` once per target, in order: as the target when
    /// `as_source`, otherwise from the issuer at the target's position.
    PerTarget { as_source: bool, args: Seq<Seq<char>>, targets: Seq<(u128, Seq<char>)> },
    /// Runs these arguments once.
    Positioned(Seq<Seq<char>>),
}

/// An argument of `positioned`: `~`, `~ ~` and `~ ~ ~` become the given
/// coordinates.
pub open spec fn positioned_arg(s: Seq<char>, x: Seq<char>, y: Seq<char>, z: Seq<char>) -> Seq<char> {
    if s == "~"@ {
        x
    } else if s == "~ ~"@ {
        x + " "@ + y
    } else if s == "~ ~ ~"@ {
        x + " "@ + y + " "@ + z
    } else {
        s
    }
}

pub open spec fn positioned_args(a: Seq<Seq<char>>, x: Seq<char>, y: Seq<char>, z: Seq<char>) -> Seq<Seq<char>> {
    a.map_values(|s: Seq<char>| positioned_arg(s, x, y, z))
}

/// An argument of `at`: `~` and `~ ~` become the target's block
/// coordinates.
pub open spec fn at_arg(s: Seq<char>, x: i32, y: i32) -> Seq<char> {
    if s == "~"@ {
        signed_decimal(x as int)
    } else if s == "~ ~"@ {
        signed_decimal(x as int) + " "@ + signed_decimal(y as int)
    } else {
        s
    }
}

pub open spec fn at_args(a: Seq<Seq<char>>, x: i32, y: i32) -> Seq<Seq<char>> {
    a.map_values(|s: Seq<char>| at_arg(s, x, y))
}

/// The plan for an `/execute` context (its arguments start with the
/// modifier).
pub open spec fn execute_plan(ctx: CommandContext) -> PlanView {
    let a = arg_views(ctx);
    if a.len() < 4 {
        PlanView::Refused("Usage: /execute as|at <target> run <command>"@)
    } else {
        let m = lowercase(a[0]);
        if m == "as"@ {
            match run_from(a, 0) {
                None => PlanView::Refused("Expected 'run' after target. Usage: execute as <target> run <command>"@),
                Some(ri) => if ri < 2 {
                    PlanView::Refused("Expected 'run' after target selector"@)
                } else if targets_spec(a[1], ctx).len() == 0 {
                    PlanView::Refused("No targets matched selector: "@ + a[1])
                } else {
                    PlanView::PerTarget {
                        as_source: true,
                        args: a.subrange(ri + 1, a.len() as int),
                        targets: targets_spec(a[1], ctx),
                    }
                },
            }
        } else if m == "at"@ {
            match run_from(a, 0) {
                None => PlanView::Refused("Expected 'run' after target"@),
                Some(ri) => if targets_spec(a[1], ctx).len() == 0 {
                    PlanView::Refused("No targets matched selector: "@ + a[1])
                } else {
                    PlanView::PerTarget {
                        as_source: false,
                        args: a.subrange(ri + 1, a.len() as int),
                        targets: targets_spec(a[1], ctx),
                    }
                },
            }
        } else if m == "positioned"@ {
            if a.len() < 6 {
                PlanView::Refused("Usage: /execute positioned <x> <y> <z> run <command>"@)
            } else if lowercase(a[4]) != "run"@ {
                PlanView::Refused("Expected 'run' after coordinates"@)
            } else {
                PlanView::Positioned(positioned_args(a.subrange(5, a.len() as int), a[1], a[2], a[3]))
            }
        } else {
            PlanView::Refused("Unknown execute modifier: "@ + m + ". Supported: as, at, positioned"@)
        }
    }
}

/// A planned command runs on fewer arguments than `/execute` had.
pub proof fn lemma_plan_shrinks(ctx: CommandContext)
    ensures
        match execute_plan(ctx) {
            PlanView::PerTarget { args, .. } => args.len() < arg_views(ctx).len(),
            PlanView::Positioned(args) => args.len() < arg_views(ctx).len(),
            PlanView::Refused(_) => true,
        },
{
    let a = arg_views(ctx);
    if a.len() >= 4 {
        lemma_run_from_bounds(a, 0);
    }
}

proof fn lemma_run_from_bounds(a: Seq<Seq<char>>, i: int)
    requires
        0 <= i,
    ensures
        match run_from(a, i) {
            Some(r) => i <= r < a.len() && lowercase(a[r]) == "run"@,
            None => true,
        },
    decreases a.len() - i,
{
    if i < a.len() && lowercase(a[i]) != "run"@ {
        lemma_run_from_bounds(a, i + 1);
    }
}

/// The arguments a target of a `PerTarget` plan runs: as-is when run as
/// the target; at its block coordinates otherwise, or nothing when the
/// target is not in the player list.
pub open spec fn target_args(ctx: CommandContext, as_source: bool, args: Seq<Seq<char>>, t: (u128, Seq<char>)) -> Option<Seq<Seq<char>>> {
    if as_source {
        Some(args)
    } else {
        match player_pos(ctx.players@, t.0) {
            Some(p) => Some(at_args(args, ctx.players@[p].block_x, ctx.players@[p].block_y)),
            None => None,
        }
    }
}

/// `c` runs `args` for target `t` of `ctx`: as the target (a player is the
/// one nearest to itself), or from `ctx`'s issuer.
pub open spec fn target_context(ctx: CommandContext, as_source: bool, args: Seq<Seq<char>>, t: (u128, Seq<char>), c: CommandContext) -> bool {
    &&& arg_views(c) == args
    &&& if as_source {
        &&& c.source matches CommandSource::Player { uuid, username } && uuid == t.0 && username@ == t.1
        &&& c.nearest == Some(t.0)
    } else {
        &&& c.source == ctx.source
        &&& c.nearest == ctx.nearest
    }
    &&& c.motd@ == ctx.motd@
    &&& c.max_players == ctx.max_players
    &&& c.players@ == ctx.players@
    &&& c.banned@ == ctx.banned@
    &&& c.random == ctx.random
    &&& c.save_available == ctx.save_available
    &&& crate::commands::context::loaded_view(c) == crate::commands::context::loaded_view(ctx)
    &&& c.teams_available == ctx.teams_available
    &&& info_opt_views(c.command_info) == info_opt_views(ctx.command_info)
}

/// `c` runs `args` from `ctx`'s issuer with everything else kept.
pub open spec fn moved_context(ctx: CommandContext, args: Seq<Seq<char>>, c: CommandContext) -> bool {
    &&& arg_views(c) == args
    &&& same_environment(ctx, c)
    &&& c.teams_available == ctx.teams_available
    &&& info_opt_views(c.command_info) == info_opt_views(ctx.command_info)
}

/// The line a target's run adds to the reply: its non-empty reply or its
/// error, marked with the target's name.
pub open spec fn result_lines(name: Seq<char>, r: ReplyView) -> Seq<Seq<char>> {
    match r {
        Ok(m) => if m.len() == 0 { Seq::empty() } else { seq!["["@ + name + "] "@ + m] },
        Err(e) => seq!["["@ + name + "] Error: "@ + e],
    }
}

/// The reply of a `PerTarget` plan from the lines its runs added.
pub open spec fn per_target_reply(as_source: bool, n: nat, lines: Seq<Seq<char>>) -> Seq<char> {
    if lines.len() == 0 {
        (if as_source { "Executed as "@ } else { "Executed at "@ }) + decimal(n) + " target(s)"@
    } else {
        joined(lines, "\n"@)
    }
}

/// The reply of `/execute` when no dispatcher is there to run commands.
pub open spec fn execute_alone_reply(ctx: CommandContext) -> ReplyView {
    match execute_plan(ctx) {
        PlanView::Refused(e) => Err(e),
        _ => Err("Internal error: dispatcher not available"@),
    }
}

// ──────────────────────────────── computing it ────────────────────────────────

/// A plan with its values.
pub enum ExecutePlan {
    Refused(String),
    PerTarget { as_source: bool, args: Vec<String>, targets: Vec<Target> },
    Positioned(Vec<String>),
}

pub open spec fn plan_view(p: ExecutePlan) -> PlanView {
    match p {
        ExecutePlan::Refused(e) => PlanView::Refused(e@),
        ExecutePlan::PerTarget { as_source, args, targets } =>
            PlanView::PerTarget { as_source, args: views(args@), targets: targets_view(targets@) },
        ExecutePlan::Positioned(args) => PlanView::Positioned(views(args@)),
    }
}

fn is_run(s: &str) -> (r: bool)
    ensures
        r == (lowercase(s@) == "run"@),
{
    let l = to_lowercase(s);
    str_eq(l.as_str(), "run")
}

fn find_run(ctx: &CommandContext) -> (r: Option<usize>)
    ensures
        match r {
            Some(i) => run_from(arg_views(*ctx), 0) == Some(i as int),
            None => run_from(arg_views(*ctx), 0) is None,
        },
{
    let ghost a = arg_views(*ctx);
    let mut i: usize = 0;
    while i < ctx.args.len()
        invariant
            i <= ctx.args@.len(),
            a == arg_views(*ctx),
            run_from(a, i as int) == run_from(a, 0),
        decreases ctx.args@.len() - i,
    {
        if is_run(ctx.args[i].as_str()) {
            return Some(i);
        }
        i = i + 1;
    }
    None
}

/// The arguments from position `from` on.
fn args_from(ctx: &CommandContext, from: usize) -> (r: Vec<String>)
    requires
        from <= ctx.args@.len(),
    ensures
        views(r@) == arg_views(*ctx).subrange(from as int, arg_views(*ctx).len() as int),
{
    let mut out: Vec<String> = Vec::new();
    let mut i: usize = from;
    while i < ctx.args.len()
        invariant
            from <= i <= ctx.args@.len(),
            views(out@) == arg_views(*ctx).subrange(from as int, i as int),
        decreases ctx.args@.len() - i,
    {
        let ghost before = out@;
        let s = ctx.args[i].clone();
        out.push(s);
        proof {
            assert(out@ =~= before.push(s));
            assert(views(out@) =~= views(before).push(s@));
            assert(arg_views(*ctx).subrange(from as int, i + 1)
                =~= arg_views(*ctx).subrange(from as int, i as int).push(arg_views(*ctx)[i as int]));
        }
        i = i + 1;
    }
    out
}

fn positioned_one(s: &str, x: &str, y: &str, z: &str) -> (r: String)
    ensures
        r@ == positioned_arg(s@, x@, y@, z@),
{
    if str_eq(s, "~") {
        String::from_str(x)
    } else if str_eq(s, "~ ~") {
        let mut r = String::from_str(x);
        r.append(" ");
        r.append(y);
        r
    } else if str_eq(s, "~ ~ ~") {
        let mut r = String::from_str(x);
        r.append(" ");
        r.append(y);
        r.append(" ");
        r.append(z);
        r
    } else {
        String::from_str(s)
    }
}

fn at_one(s: &str, x: i32, y: i32) -> (r: String)
    ensures
        r@ == at_arg(s@, x, y),
{
    if str_eq(s, "~") {
        let mut r = String::new();
        push_i64(&mut r, x as i64);
        r
    } else if str_eq(s, "~ ~") {
        let mut r = String::new();
        push_i64(&mut r, x as i64);
        r.append(" ");
        push_i64(&mut r, y as i64);
        r
    } else {
        String::from_str(s)
    }
}

/// The arguments of `at` for a target at block coordinates `x`, `y`.
pub fn at_args_for(args: &Vec<String>, x: i32, y: i32) -> (r: Vec<String>)
    ensures
        views(r@) == at_args(views(args@), x, y),
{
    let ghost a = views(args@);
    let mut out: Vec<String> = Vec::new();
    let mut i: usize = 0;
    while i < args.len()
        invariant
            i <= args@.len(),
            a == views(args@),
            views(out@) == at_args(a.subrange(0, i as int), x, y),
        decreases args@.len() - i,
    {
        let ghost before = out@;
        let s = at_one(args[i].as_str(), x, y);
        out.push(s);
        proof {
            assert(out@ =~= before.push(s));
            assert(views(out@) =~= views(before).push(s@));
            assert(at_args(a.subrange(0, i + 1), x, y) =~= at_args(a.subrange(0, i as int), x, y).push(at_arg(a[i as int], x, y)));
        }
        i = i + 1;
    }
    proof { assert(a.subrange(0, a.len() as int) =~= a); }
    out
}

fn positioned_args_for(args: &Vec<String>, x: &str, y: &str, z: &str) -> (r: Vec<String>)
    ensures
        views(r@) == positioned_args(views(args@), x@, y@, z@),
{
    let ghost a = views(args@);
    let mut out: Vec<String> = Vec::new();
    let mut i: usize = 0;
    while i < args.len()
        invariant
            i <= args@.len(),
            a == views(args@),
            views(out@) == positioned_args(a.subrange(0, i as int), x@, y@, z@),
        decreases args@.len() - i,
    {
        let ghost before = out@;
        let s = positioned_one(args[i].as_str(), x, y, z);
        out.push(s);
        proof {
            assert(out@ =~= before.push(s));
            assert(views(out@) =~= views(before).push(s@));
            assert(positioned_args(a.subrange(0, i + 1), x@, y@, z@)
                =~= positioned_args(a.subrange(0, i as int), x@, y@, z@).push(positioned_arg(a[i as int], x@, y@, z@)));
        }
        i = i + 1;
    }
    proof { assert(a.subrange(0, a.len() as int) =~= a); }
    out
}

/// Decides what `/execute` does with the arguments of `ctx`.
pub fn plan_execute(ctx: &CommandContext) -> (p: ExecutePlan)
    ensures
        plan_view(p) == execute_plan(*ctx),
{
    let ghost a = arg_views(*ctx);
    if ctx.args.len() < 4 {
        return ExecutePlan::Refused(String::from_str("Usage: /execute as|at <target> run <command>"));
    }
    let m = to_lowercase(ctx.args[0].as_str());
    if str_eq(m.as_str(), "as") {
        match find_run(ctx) {
            None => ExecutePlan::Refused(
                String::from_str("Expected 'run' after target. Usage: execute as <target> run <command>")),
            Some(ri) => {
                if ri < 2 {
                    return ExecutePlan::Refused(String::from_str("Expected 'run' after target selector"));
                }
                proof { lemma_run_from_bounds(a, 0); }
                let targets = resolve_player_targets(ctx.args[1].as_str(), ctx);
                if targets.len() == 0 {
                    let mut e = String::from_str("No targets matched selector: ");
                    e.append(ctx.args[1].as_str());
                    return ExecutePlan::Refused(e);
                }
                let args = args_from(ctx, ri + 1);
                ExecutePlan::PerTarget { as_source: true, args, targets }
            },
        }
    } else if str_eq(m.as_str(), "at") {
        match find_run(ctx) {
            None => ExecutePlan::Refused(String::from_str("Expected 'run' after target")),
            Some(ri) => {
                proof { lemma_run_from_bounds(a, 0); }
                let targets = resolve_player_targets(ctx.args[1].as_str(), ctx);
                if targets.len() == 0 {
                    let mut e = String::from_str("No targets matched selector: ");
                    e.append(ctx.args[1].as_str());
                    return ExecutePlan::Refused(e);
                }
                let args = args_from(ctx, ri + 1);
                ExecutePlan::PerTarget { as_source: false, args, targets }
            },
        }
    } else if str_eq(m.as_str(), "positioned") {
        if ctx.args.len() < 6 {
            return ExecutePlan::Refused(String::from_str("Usage: /execute positioned <x> <y> <z> run <command>"));
        }
        if !is_run(ctx.args[4].as_str()) {
            return ExecutePlan::Refused(String::from_str("Expected 'run' after coordinates"));
        }
        let tail = args_from(ctx, 5);
        let args = positioned_args_for(&tail, ctx.args[1].as_str(), ctx.args[2].as_str(), ctx.args[3].as_str());
        ExecutePlan::Positioned(args)
    } else {
        let mut e = String::from_str("Unknown execute modifier: ");
        e.append(m.as_str());
        e.append(". Supported: as, at, positioned");
        ExecutePlan::Refused(e)
    }
}

/// The context a target of a `PerTarget` plan runs in.
pub fn target_context_of(ctx: &CommandContext, as_source: bool, args: Vec<String>, t: &Target) -> (c: CommandContext)
    ensures
        target_context(*ctx, as_source, views(args@), (t.0, t.1@), c),
{
    let (source, nearest) = if as_source {
        (CommandSource::Player { uuid: t.0, username: t.1.clone() }, Some(t.0))
    } else {
        (clone_source(&ctx.source), ctx.nearest)
    };
    CommandContext {
        source,
        args,
        motd: ctx.motd.clone(),
        max_players: ctx.max_players,
        players: clone_players(&ctx.players),
        banned: clone_ids(&ctx.banned),
        nearest,
        random: ctx.random,
        save_available: ctx.save_available,
        teams_available: ctx.teams_available,
        command_info: clone_info(&ctx.command_info),
        loaded_chunks: clone_loaded(&ctx.loaded_chunks),
    }
}

/// The context a `Positioned` plan runs in.
pub fn moved_context_of(ctx: &CommandContext, args: Vec<String>) -> (c: CommandContext)
    ensures
        moved_context(*ctx, views(args@), c),
{
    CommandContext {
        source: clone_source(&ctx.source),
        args,
        motd: ctx.motd.clone(),
        max_players: ctx.max_players,
        players: clone_players(&ctx.players),
        banned: clone_ids(&ctx.banned),
        nearest: ctx.nearest,
        random: ctx.random,
        save_available: ctx.save_available,
        teams_available: ctx.teams_available,
        command_info: clone_info(&ctx.command_info),
        loaded_chunks: clone_loaded(&ctx.loaded_chunks),
    }
}

/// The line a target's run adds to the reply, if any.
pub fn result_line(name: &str, r: &CommandResult) -> (l: Option<String>)
    ensures
        match l {
            Some(s) => result_lines(name@, reply_view_of(r)) == seq![s@],
            None => result_lines(name@, reply_view_of(r)) == Seq::<Seq<char>>::empty(),
        },
{
    match r {
        Ok(m) => {
            if m.unicode_len() == 0 {
                None
            } else {
                let mut s = String::from_str("[");
                s.append(name);
                s.append("] ");
                s.append(m.as_str());
                Some(s)
            }
        },
        Err(e) => {
            let mut s = String::from_str("[");
            s.append(name);
            s.append("] Error: ");
            s.append(e.as_str());
            Some(s)
        },
    }
}

pub open spec fn reply_view_of(r: &CommandResult) -> ReplyView {
    crate::commands::context::reply_view(*r)
}

/// "Executed as N target(s)" or "Executed at N target(s)".
pub fn executed_count(as_source: bool, n: usize) -> (r: String)
    ensures
        r@ == (if as_source { "Executed as "@ } else { "Executed at "@ }) + decimal(n as nat) + " target(s)"@,
{
    let mut s = if as_source { String::from_str("Executed as ") } else { String::from_str("Executed at ") };
    push_u64(&mut s, n as u64);
    s.append(" target(s)");
    s
}

// ──────────────────────────────── the command ────────────────────────────────

/// `/execute`.
pub struct ExecuteCommand;

impl ExecuteCommand {
    pub fn name(&self) -> &'static str {
        "execute"
    }

    pub fn description(&self) -> &'static str {
        "Execute a command on behalf of/at other entities"
    }

    /// Runs `/execute` with no dispatcher to hand commands to: the
    /// arguments are checked, and a valid request is refused for want of
    /// one. The dispatcher runs planned commands itself.
    pub fn execute(&self, ctx: &CommandContext) -> (r: CommandResult)
        ensures
            crate::commands::context::reply_view(r) == execute_alone_reply(*ctx),
    {
        match plan_execute(ctx) {
            ExecutePlan::Refused(e) => Err(e),
            _ => Err(String::from_str("Internal error: dispatcher not available")),
        }
    }
}

} // verus!
