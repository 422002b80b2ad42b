//! The player lists the server keeps (online players, bans, whitelist)
//! and what the events of a command do to them.

use vstd::prelude::*;
use crate::commands::context::{PlayerInfo, ServerEvent};
use crate::types::GameMode;

verus! {

/// Online players, banned and whitelisted ids, and the whitelist switch.
pub struct PlayerLists {
    /// Online players in join order.
    pub players: Vec<PlayerInfo>,
    pub banned: Vec<u128>,
    pub whitelist: Vec<u128>,
    pub whitelist_enabled: bool,
}

/// `ids` with `id` added at the end unless it is there already.
pub open spec fn with_id(ids: Seq<u128>, id: u128) -> Seq<u128> {
    if ids.contains(id) { ids } else { ids.push(id) }
}

/// Whether an id is not `id`.
pub open spec fn other_than(id: u128) -> spec_fn(u128) -> bool {
    |u: u128| u != id
}

/// `ids` without `id`.
pub open spec fn without_id(ids: Seq<u128>, id: u128) -> Seq<u128> {
    ids.filter(other_than(id))
}

/// Each player with id `uuid` in game mode `mode`.
pub open spec fn with_mode(ps: Seq<PlayerInfo>, uuid: u128, mode: GameMode) -> Seq<PlayerInfo> {
    ps.map_values(|p: PlayerInfo| if p.uuid == uuid { PlayerInfo { gamemode: mode, ..p } } else { p })
}

/// Each player with id `uuid` an operator or not, as `op` says.
pub open spec fn with_op(ps: Seq<PlayerInfo>, uuid: u128, op: bool) -> Seq<PlayerInfo> {
    ps.map_values(|p: PlayerInfo| if p.uuid == uuid { PlayerInfo { is_op: op, ..p } } else { p })
}

fn add_id(ids: &mut Vec<u128>, id: u128)
    ensures
        final(ids)@ == with_id(old(ids)@, id),
{
    let mut i: usize = 0;
    while i < ids.len()
        invariant
            i <= ids@.len(),
            ids@ == old(ids)@,
            forall|j: int| 0 <= j < i ==> ids@[j] != id,
        decreases ids@.len() - i,
    {
        if ids[i] == id {
            assert(ids@.contains(id));
            return;
        }
        i = i + 1;
    }
    ids.push(id);
}

fn remove_id(ids: &mut Vec<u128>, id: u128)
    ensures
        final(ids)@ == without_id(old(ids)@, id),
{
    let ghost f = other_than(id);
    let mut out: Vec<u128> = Vec::new();
    let mut i: usize = 0;
    while i < ids.len()
        invariant
            i <= ids@.len(),
            ids@ == old(ids)@,
            f == other_than(id),
            out@ == ids@.take(i as int).filter(f),
        decreases ids@.len() - i,
    {
        proof {
            assert(ids@.take(i + 1) =~= ids@.take(i as int).push(ids@[i as int]));
            ids@.take(i as int).lemma_filter_push(ids@[i as int], f);
        }
        if ids[i] != id {
            out.push(ids[i]);
        }
        i = i + 1;
    }
    proof { assert(ids@.take(ids@.len() as int) =~= ids@); }
    *ids = out;
}

impl PlayerLists {
    /// Applies what an event does to the lists: bans and the whitelist,
    /// game modes and operator status; other events leave them alone.
    pub fn apply(&mut self, e: &ServerEvent)
        ensures
            match *e {
                ServerEvent::Ban { uuid } => final(self).banned@ == with_id(old(self).banned@, uuid)
                    && final(self).whitelist@ == old(self).whitelist@ && final(self).players@ == old(self).players@
                    && final(self).whitelist_enabled == old(self).whitelist_enabled,
                ServerEvent::Unban { uuid } => final(self).banned@ == without_id(old(self).banned@, uuid)
                    && final(self).whitelist@ == old(self).whitelist@ && final(self).players@ == old(self).players@
                    && final(self).whitelist_enabled == old(self).whitelist_enabled,
                ServerEvent::WhitelistAdd { uuid } => final(self).whitelist@ == with_id(old(self).whitelist@, uuid)
                    && final(self).banned@ == old(self).banned@ && final(self).players@ == old(self).players@
                    && final(self).whitelist_enabled == old(self).whitelist_enabled,
                ServerEvent::WhitelistRemove { uuid } => final(self).whitelist@ == without_id(old(self).whitelist@, uuid)
                    && final(self).banned@ == old(self).banned@ && final(self).players@ == old(self).players@
                    && final(self).whitelist_enabled == old(self).whitelist_enabled,
                ServerEvent::WhitelistEnabled { enabled } => final(self).whitelist_enabled == enabled
                    && final(self).banned@ == old(self).banned@ && final(self).whitelist@ == old(self).whitelist@
                    && final(self).players@ == old(self).players@,
                ServerEvent::SetGamemode { uuid, mode } => final(self).players@ == with_mode(old(self).players@, uuid, mode)
                    && final(self).banned@ == old(self).banned@ && final(self).whitelist@ == old(self).whitelist@
                    && final(self).whitelist_enabled == old(self).whitelist_enabled,
                ServerEvent::SetOp { uuid, op } => final(self).players@ == with_op(old(self).players@, uuid, op)
                    && final(self).banned@ == old(self).banned@ && final(self).whitelist@ == old(self).whitelist@
                    && final(self).whitelist_enabled == old(self).whitelist_enabled,
                _ => final(self).players@ == old(self).players@ && final(self).banned@ == old(self).banned@
                    && final(self).whitelist@ == old(self).whitelist@
                    && final(self).whitelist_enabled == old(self).whitelist_enabled,
            },
    {
        match e {
            ServerEvent::Ban { uuid } => add_id(&mut self.banned, *uuid),
            ServerEvent::Unban { uuid } => remove_id(&mut self.banned, *uuid),
            ServerEvent::WhitelistAdd { uuid } => add_id(&mut self.whitelist, *uuid),
            ServerEvent::WhitelistRemove { uuid } => remove_id(&mut self.whitelist, *uuid),
            ServerEvent::WhitelistEnabled { enabled } => self.whitelist_enabled = *enabled,
            ServerEvent::SetGamemode { uuid, mode } => {
                let ghost f = |p: PlayerInfo| if p.uuid == *uuid { PlayerInfo { gamemode: *mode, ..p } } else { p };
                let mut i: usize = 0;
                while i < self.players.len()
                    invariant
                        i <= self.players@.len(),
                        self.players@.len() == old(self).players@.len(),
                        f == (|p: PlayerInfo| if p.uuid == *uuid { PlayerInfo { gamemode: *mode, ..p } } else { p }),
                        forall|j: int| 0 <= j < i ==> self.players@[j] == f(old(self).players@[j]),
                        forall|j: int| i <= j < self.players@.len() ==> self.players@[j] == old(self).players@[j],
                        self.banned == old(self).banned,
                        self.whitelist == old(self).whitelist,
                        self.whitelist_enabled == old(self).whitelist_enabled,
                    decreases self.players@.len() - i,
                {
                    if self.players[i].uuid == *uuid {
                        self.players[i].gamemode = *mode;
                    }
                    i = i + 1;
                }
                assert(self.players@ =~= with_mode(old(self).players@, *uuid, *mode));
            },
            ServerEvent::SetOp { uuid, op } => {
                let ghost f = |p: PlayerInfo| if p.uuid == *uuid { PlayerInfo { is_op: *op, ..p } } else { p };
                let mut i: usize = 0;
                while i < self.players.len()
                    invariant
                        i <= self.players@.len(),
                        self.players@.len() == old(self).players@.len(),
                        f == (|p: PlayerInfo| if p.uuid == *uuid { PlayerInfo { is_op: *op, ..p } } else { p }),
                        forall|j: int| 0 <= j < i ==> self.players@[j] == f(old(self).players@[j]),
                        forall|j: int| i <= j < self.players@.len() ==> self.players@[j] == old(self).players@[j],
                        self.banned == old(self).banned,
                        self.whitelist == old(self).whitelist,
                        self.whitelist_enabled == old(self).whitelist_enabled,
                    decreases self.players@.len() - i,
                {
                    if self.players[i].uuid == *uuid {
                        self.players[i].is_op = *op;
                    }
                    i = i + 1;
                }
                assert(self.players@ =~= with_op(old(self).players@, *uuid, *op));
            },
            _ => {},
        }
    }
}

} // verus!
