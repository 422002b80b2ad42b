//! `/bossbar`: what a command line asks of the boss bar registry, and the
//! replies that do not depend on the registry. The registry itself (bar
//! ids, health, colours) is kept by the server.

use vstd::prelude::*;
use vstd::string::*;
use crate::commands::context::{arg_views, args_text, join_args, CommandContext};
use crate::text::{lowercase, str_eq, to_lowercase};

verus! {

/// The bar property `/bossbar set` changes.
#[derive(Debug, Clone, Copy, PartialEq, Eq, Structural)]
pub enum BossbarProperty {
    /// Health fraction, from the value text (1.0 when it is no number).
    Value,
    /// Treated like `value` (the bar keeps one health fraction).
    Max,
    /// Colour by name.
    Color,
}

/// A request to the boss bar registry.
#[derive(Debug, Clone)]
pub enum BossbarRequest {
    Add { id: String, title: String },
    Remove { id: String },
    /// `property` as the user wrote it (lower-cased) and the value text.
    Update { id: String, property: BossbarProperty, name: String, value: String },
    List,
}

pub enum BossbarRequestView {
    Add { id: Seq<char>, title: Seq<char> },
    Remove { id: Seq<char> },
    Update { id: Seq<char>, property: BossbarProperty, name: Seq<char>, value: Seq<char> },
    List,
}

pub open spec fn bossbar_request_view(r: BossbarRequest) -> BossbarRequestView {
    match r {
        BossbarRequest::Add { id, title } => BossbarRequestView::Add { id: id@, title: title@ },
        BossbarRequest::Remove { id } => BossbarRequestView::Remove { id: id@ },
        BossbarRequest::Update { id, property, name, value } =>
            BossbarRequestView::Update { id: id@, property, name: name@, value: value@ },
        BossbarRequest::List => BossbarRequestView::List,
    }
}

pub open spec fn bossbar_usage() -> Seq<char> {
    "Usage: /bossbar add <id> <name> | remove <id> | set <id> <value|max|color> <value> | list"@
}

/// The property a lower-case word names.
pub open spec fn bossbar_property(s: Seq<char>) -> Option<BossbarProperty> {
    if s == "value"@ {
        Some(BossbarProperty::Value)
    } else if s == "max"@ {
        Some(BossbarProperty::Max)
    } else if s == "color"@ {
        Some(BossbarProperty::Color)
    } else {
        None
    }
}

/// What `/bossbar <action> <id> ...` asks for, or the error reply. Every
/// action, `list` included, needs an id argument.
pub open spec fn bossbar_request_spec(ctx: CommandContext) -> Result<BossbarRequestView, Seq<char>> {
    let a = arg_views(ctx);
    if a.len() < 2 {
        Err(bossbar_usage())
    } else {
        let action = lowercase(a[0]);
        if action == "add"@ {
            if a.len() < 3 {
                Err("Usage: /bossbar add <id> <title>"@)
            } else {
                Ok(BossbarRequestView::Add { id: a[1], title: args_text(ctx, 2) })
            }
        } else if action == "remove"@ {
            Ok(BossbarRequestView::Remove { id: a[1] })
        } else if action == "set"@ {
            if a.len() < 4 {
                Err("Usage: /bossbar set <id> <value|max|color> <value>"@)
            } else {
                let name = lowercase(a[2]);
                match bossbar_property(name) {
                    Some(p) => Ok(BossbarRequestView::Update { id: a[1], property: p, name, value: a[3] }),
                    None => Err("Properties: value, max, color"@),
                }
            }
        } else if action == "list"@ {
            Ok(BossbarRequestView::List)
        } else {
            Err("Unknown bossbar action: "@ + action + ". Use add/remove/set/list"@)
        }
    }
}

fn property_of(s: &str) -> (r: Option<BossbarProperty>)
    ensures
        r == bossbar_property(s@),
{
    if str_eq(s, "value") {
        Some(BossbarProperty::Value)
    } else if str_eq(s, "max") {
        Some(BossbarProperty::Max)
    } else if str_eq(s, "color") {
        Some(BossbarProperty::Color)
    } else {
        None
    }
}

/// Reads a `/bossbar` command line.
pub fn bossbar_request(ctx: &CommandContext) -> (r: Result<BossbarRequest, String>)
    ensures
        match (r, bossbar_request_spec(*ctx)) {
            (Ok(q), Ok(v)) => bossbar_request_view(q) == v,
            (Err(e), Err(v)) => e@ == v,
            _ => false,
        },
{
    let ghost a = arg_views(*ctx);
    if ctx.args.len() < 2 {
        return Err(String::from_str(
            "Usage: /bossbar add <id> <name> | remove <id> | set <id> <value|max|color> <value> | list"));
    }
    proof {
        assert(a[0] == ctx.args@[0]@);
        assert(a[1] == ctx.args@[1]@);
        if a.len() > 2 { assert(a[2] == ctx.args@[2]@); }
        if a.len() > 3 { assert(a[3] == ctx.args@[3]@); }
    }
    let action = to_lowercase(ctx.args[0].as_str());
    let id = ctx.args[1].clone();
    if str_eq(action.as_str(), "add") {
        if ctx.args.len() < 3 {
            return Err(String::from_str("Usage: /bossbar add <id> <title>"));
        }
        let title = join_args(ctx, 2);
        Ok(BossbarRequest::Add { id, title })
    } else if str_eq(action.as_str(), "remove") {
        Ok(BossbarRequest::Remove { id })
    } else if str_eq(action.as_str(), "set") {
        if ctx.args.len() < 4 {
            return Err(String::from_str("Usage: /bossbar set <id> <value|max|color> <value>"));
        }
        let name = to_lowercase(ctx.args[2].as_str());
        match property_of(name.as_str()) {
            Some(property) => Ok(BossbarRequest::Update { id, property, name, value: ctx.args[3].clone() }),
            None => Err(String::from_str("Properties: value, max, color")),
        }
    } else if str_eq(action.as_str(), "list") {
        Ok(BossbarRequest::List)
    } else {
        let mut e = String::from_str("Unknown bossbar action: ");
        e.append(action.as_str());
        e.append(". Use add/remove/set/list");
        Err(e)
    }
}

/// The reply to `/bossbar remove <id>`.
pub fn bossbar_removed_reply(id: &str) -> (r: String)
    ensures
        r@ == "Removed bossbar '"@ + id@ + "'"@,
{
    let mut m = String::from_str("Removed bossbar '");
    m.append(id);
    m.append("'");
    m
}

/// The reply to `/bossbar set`: the property name and the value text as
/// given.
pub fn bossbar_updated_reply(id: &str, name: &str, value: &str) -> (r: String)
    ensures
        r@ == "Bossbar '"@ + id@ + "' updated ("@ + name@ + "= "@ + value@ + ")"@,
{
    let mut m = String::from_str("Bossbar '");
    m.append(id);
    m.append("' updated (");
    m.append(name);
    m.append("= ");
    m.append(value);
    m.append(")");
    m
}

/// The reply to `/bossbar add` once the registry answered: the created
/// bar's title, or that the id is taken.
pub fn bossbar_added_reply(id: &str, created_title: Option<&str>) -> (r: String)
    ensures
        match created_title {
            Some(t) => r@ == "Created bossbar '"@ + id@ + "': "@ + t@,
            None => r@ == "Bossbar '"@ + id@ + "' already exists"@,
        },
{
    match created_title {
        Some(t) => {
            let mut m = String::from_str("Created bossbar '");
            m.append(id);
            m.append("': ");
            m.append(t);
            m
        },
        None => {
            let mut m = String::from_str("Bossbar '");
            m.append(id);
            m.append("' already exists");
            m
        },
    }
}

} // verus!
