//! What the server console does with a line typed on standard input:
//! blank lines are skipped, `help` and `?` list the commands in order,
//! anything else runs as a console command.

use vstd::prelude::*;
use vstd::string::*;
use crate::commands::context::{reply_view, CommandResult, ReplyView};
use crate::commands::dispatcher::CommandDispatcher;
use crate::text::{join, joined, lemma_lex_irreflexive, lemma_lex_total, lemma_lex_transitive, lex_lt, str_eq, str_lt, views};
use crate::words::{trim, trim_spec};

verus! {

broadcast use vstd::seq_lib::group_to_multiset_ensures;

// ───────────────────────────────── sorting ─────────────────────────────────

/// `x` inserted into `s` in front of the first element it orders before.
pub open spec fn insert_sorted(x: Seq<char>, s: Seq<Seq<char>>) -> Seq<Seq<char>>
    decreases s.len(),
{
    if s.len() == 0 {
        seq![x]
    } else if lex_lt(x, s[0]) {
        seq![x] + s
    } else {
        seq![s[0]] + insert_sorted(x, s.drop_first())
    }
}

/// The strings of `s` in order, each inserted in turn.
pub open spec fn sorted_strings(s: Seq<Seq<char>>) -> Seq<Seq<char>>
    decreases s.len(),
{
    if s.len() == 0 {
        Seq::empty()
    } else {
        insert_sorted(s.last(), sorted_strings(s.drop_last()))
    }
}

/// No string orders before one that comes earlier.
pub open spec fn is_sorted(s: Seq<Seq<char>>) -> bool {
    forall|i: int, j: int| 0 <= i < j < s.len() ==> !lex_lt(#[trigger] s[j], #[trigger] s[i])
}

/// Position of the first element of `s` from `i` on that `x` orders before.
pub open spec fn insert_position(x: Seq<char>, s: Seq<Seq<char>>, i: int) -> int
    decreases s.len() - i,
{
    if i < 0 || i >= s.len() {
        s.len() as int
    } else if lex_lt(x, s[i]) {
        i
    } else {
        insert_position(x, s, i + 1)
    }
}

proof fn lemma_insert_at_position(x: Seq<char>, s: Seq<Seq<char>>)
    ensures
        0 <= insert_position(x, s, 0) <= s.len(),
        insert_sorted(x, s) == s.insert(insert_position(x, s, 0), x),
    decreases s.len(),
{
    if s.len() > 0 && !lex_lt(x, s[0]) {
        lemma_insert_at_position(x, s.drop_first());
        lemma_position_shift(x, s, 0);
        assert(seq![s[0]] + s.drop_first().insert(insert_position(x, s.drop_first(), 0), x)
            =~= s.insert(insert_position(x, s, 0), x));
    } else if s.len() > 0 {
        assert(seq![x] + s =~= s.insert(0, x));
    } else {
        assert(seq![x] =~= s.insert(0, x));
    }
}

proof fn lemma_position_shift(x: Seq<char>, s: Seq<Seq<char>>, i: int)
    requires
        0 <= i < s.len(),
        forall|k: int| 0 <= k <= i ==> !lex_lt(x, #[trigger] s[k]),
    ensures
        insert_position(x, s, i + 1) == insert_position(x, s.drop_first(), i) + 1,
    decreases s.len() - i,
{
    if i + 1 < s.len() && !lex_lt(x, s[i + 1]) {
        lemma_position_shift(x, s, i + 1);
    }
}

/// Inserting keeps a sorted list sorted and adds exactly `x`.
proof fn lemma_insert_sorted(x: Seq<char>, s: Seq<Seq<char>>)
    requires
        is_sorted(s),
    ensures
        is_sorted(insert_sorted(x, s)),
        insert_sorted(x, s).to_multiset() == s.to_multiset().insert(x),
    decreases s.len(),
{
    lemma_insert_at_position(x, s);
    if s.len() == 0 {
        return;
    }
    let r = insert_sorted(x, s);
    if lex_lt(x, s[0]) {
        assert forall|i: int, j: int| 0 <= i < j < r.len() implies !lex_lt(#[trigger] r[j], #[trigger] r[i]) by {
            if i == 0 {
                if j == 1 {
                    lemma_lex_total(x, s[0]);
                } else {
                    lemma_lex_total(s[0], s[j - 1]);
                    if lex_lt(s[j - 1], x) {
                        if s[0] == s[j - 1] {
                            lemma_lex_total(x, s[0]);
                        } else {
                            lemma_lex_transitive(s[0], s[j - 1], x);
                            lemma_lex_total(x, s[0]);
                        }
                    }
                }
            }
        }
    } else {
        let t = s.drop_first();
        assert(is_sorted(t)) by {
            assert forall|i: int, j: int| 0 <= i < j < t.len() implies !lex_lt(#[trigger] t[j], #[trigger] t[i]) by {
                assert(t[i] == s[i + 1] && t[j] == s[j + 1]);
            }
        }
        lemma_insert_sorted(x, t);
        let u = insert_sorted(x, t);
        assert(r == seq![s[0]] + u);
        // Every element of `u` is `x` or an element of `t`, none before `s[0]`.
        assert forall|k: int| 0 <= k < u.len() implies !lex_lt(#[trigger] u[k], s[0]) by {
            assert(u.to_multiset().count(u[k]) > 0);
            assert(t.to_multiset().insert(x).count(u[k]) > 0);
            if u[k] != x {
                assert(t.to_multiset().count(u[k]) > 0);
                assert(t.contains(u[k]));
                let m = choose|m: int| 0 <= m < t.len() && t[m] == u[k];
                assert(s[m + 1] == u[k]);
            } else {
                lemma_lex_total(x, s[0]);
                if lex_lt(x, s[0]) {
                } else {
                    lemma_lex_irreflexive(s[0]);
                }
            }
        }
        assert forall|i: int, j: int| 0 <= i < j < r.len() implies !lex_lt(#[trigger] r[j], #[trigger] r[i]) by {
            if i == 0 {
                assert(r[j] == u[j - 1]);
            } else {
                assert(r[i] == u[i - 1] && r[j] == u[j - 1]);
            }
        }
    }
}

/// The sorted strings are sorted and are the strings given.
pub proof fn sorted_strings_are_a_sorted_permutation(s: Seq<Seq<char>>)
    ensures
        is_sorted(sorted_strings(s)),
        sorted_strings(s).to_multiset() == s.to_multiset(),
    decreases s.len(),
{
    if s.len() > 0 {
        sorted_strings_are_a_sorted_permutation(s.drop_last());
        lemma_insert_sorted(s.last(), sorted_strings(s.drop_last()));
        assert(s.drop_last().push(s.last()) =~= s);
    }
}

/// The strings of `v` in order (equal strings keep their order).
pub fn sort_strings(v: &Vec<String>) -> (r: Vec<String>)
    ensures
        views(r@) == sorted_strings(views(v@)),
{
    let ghost sv = views(v@);
    let mut out: Vec<String> = Vec::new();
    let mut i: usize = 0;
    while i < v.len()
        invariant
            i <= v@.len(),
            sv == views(v@),
            views(out@) == sorted_strings(sv.subrange(0, i as int)),
        decreases v@.len() - i,
    {
        let x = &v[i];
        let ghost o = views(out@);
        let mut p: usize = 0;
        while p < out.len() && !str_lt(x.as_str(), out[p].as_str())
            invariant
                p <= out@.len(),
                o == views(out@),
                insert_position(x@, o, p as int) == insert_position(x@, o, 0),
            decreases out@.len() - p,
        {
            p = p + 1;
        }
        proof {
            lemma_insert_at_position(x@, o);
            assert(sv.subrange(0, i + 1).drop_last() =~= sv.subrange(0, i as int));
            assert(sv.subrange(0, i + 1).last() == x@);
        }
        let ghost before = out@;
        out.insert(p, x.clone());
        proof {
            assert(views(out@) =~= views(before).insert(p as int, x@));
        }
        i = i + 1;
    }
    proof { assert(sv.subrange(0, v@.len() as int) =~= sv); }
    out
}

// ───────────────────────────────── the console ─────────────────────────────────

/// What the console does with a line.
pub enum ConsoleAction {
    /// Nothing (a blank line).
    Skip,
    /// Print these lines.
    Print(Vec<String>),
    /// Run this command line as the console.
    Run(String),
}

/// The lines `help` prints for these command names.
pub open spec fn help_lines_for(names: Seq<Seq<char>>) -> Seq<Seq<char>> {
    seq![
        "Available commands: "@ + joined(sorted_strings(names), ", "@),
        "Use /<command> or just type the command name"@,
    ]
}

/// Decides what the console does with a line read from standard input:
/// it is trimmed; a blank line is skipped; `help` and `?` print the
/// registered names in order; anything else runs.
pub fn console_line(d: &CommandDispatcher, line: &str) -> (a: ConsoleAction)
    requires
        d.wf(),
    ensures
        trim_spec(line@).len() == 0 ==> a is Skip,
        trim_spec(line@).len() > 0 && (trim_spec(line@) == "help"@ || trim_spec(line@) == "?"@)
            ==> (a matches ConsoleAction::Print(lines) && views(lines@) == help_lines_for(d.command_order())),
        trim_spec(line@).len() > 0 && trim_spec(line@) != "help"@ && trim_spec(line@) != "?"@
            ==> (a matches ConsoleAction::Run(t) && t@ == trim_spec(line@)),
{
    let t = trim(line);
    if t.unicode_len() == 0 {
        return ConsoleAction::Skip;
    }
    if str_eq(t.as_str(), "help") || str_eq(t.as_str(), "?") {
        let names = d.list_commands();
        let sorted = sort_strings(&names);
        let mut first = String::from_str("Available commands: ");
        let listed = join(&sorted, ", ");
        first.append(listed.as_str());
        let mut lines: Vec<String> = Vec::new();
        lines.push(first);
        lines.push(String::from_str("Use /<command> or just type the command name"));
        proof {
            assert(views(lines@) =~= help_lines_for(d.command_order()));
        }
        return ConsoleAction::Print(lines);
    }
    ConsoleAction::Run(t)
}

/// What the console prints for a command's outcome: a non-empty reply, or
/// the error after `Error: `.
pub open spec fn console_output(r: ReplyView) -> Option<Seq<char>> {
    match r {
        Ok(m) => if m.len() == 0 { None } else { Some(m) },
        Err(e) => Some("Error: "@ + e),
    }
}

pub fn console_reply(r: &CommandResult) -> (out: Option<String>)
    ensures
        match out {
            Some(s) => console_output(reply_view(*r)) == Some(s@),
            None => console_output(reply_view(*r)) is None,
        },
{
    match r {
        Ok(m) => {
            if m.unicode_len() == 0 {
                None
            } else {
                Some(m.clone())
            }
        },
        Err(e) => {
            let mut s = String::from_str("Error: ");
            s.append(e.as_str());
            Some(s)
        },
    }
}

} // verus!
