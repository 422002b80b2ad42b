//! LAN discovery message, sent by UDP multicast so that launchers list the
//! server.

use vstd::prelude::*;
use vstd::string::*;
use crate::text::{decimal, push_str, push_u64};

verus! {

/// `[MOTD]<motd>[/MOTD][AD]<port>[/AD]`.
pub open spec fn lan_message(motd: Seq<char>, port: u16) -> Seq<char> {
    "[MOTD]"@ + motd + "[/MOTD][AD]"@ + decimal(port as nat) + "[/AD]"@
}

/// The announcement text for a server description and port.
pub fn build_lan_message(motd: &str, port: u16) -> (r: String)
    ensures
        r@ == lan_message(motd@, port),
{
    let mut s = String::from_str("[MOTD]");
    push_str(&mut s, motd);
    push_str(&mut s, "[/MOTD][AD]");
    push_u64(&mut s, port as u64);
    push_str(&mut s, "[/AD]");
    s
}

} // verus!
