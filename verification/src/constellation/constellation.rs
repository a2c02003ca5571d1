//! Naming of the live-event interfaces a subscription asks for.

use vstd::prelude::*;
use crate::codec::u64_string;
use crate::json::dec_of;

verus! {

broadcast use vstd::seq::group_seq_axioms;

/// The name of one subscription interface of a channel.
pub open spec fn interface_name(channel: u32, suffix: Seq<char>) -> Seq<char> {
    "channel:"@ + dec_of(channel as nat) + suffix
}

fn one_interface(channel: u32, suffix: &str) -> (r: String)
    ensures
        r@ == interface_name(channel, suffix@),
{
    let mut out = String::new();
    out.append("channel:");
    let num = u64_string(channel as u64);
    out.append(num.as_str());
    out.append(suffix);
    out
}

/// The interfaces a channel subscription asks to receive, in the order
/// they are requested.
pub fn interfaces(channel: u32) -> (r: Vec<String>)
    ensures
        r.deep_view() == seq![
            interface_name(channel, ":update"@),
            interface_name(channel, ":hosted"@),
            interface_name(channel, ":status"@),
            interface_name(channel, ":followed"@),
            interface_name(channel, ":subscribed"@),
            interface_name(channel, ":resubscribed"@),
        ],
{
    let mut out: Vec<String> = Vec::new();
    out.push(one_interface(channel, ":update"));
    out.push(one_interface(channel, ":hosted"));
    out.push(one_interface(channel, ":status"));
    out.push(one_interface(channel, ":followed"));
    out.push(one_interface(channel, ":subscribed"));
    out.push(one_interface(channel, ":resubscribed"));
    proof {
        assert(out.deep_view() =~= seq![
            interface_name(channel, ":update"@),
            interface_name(channel, ":hosted"@),
            interface_name(channel, ":status"@),
            interface_name(channel, ":followed"@),
            interface_name(channel, ":subscribed"@),
            interface_name(channel, ":resubscribed"@),
        ]);
    }
    out
}

} // verus!
