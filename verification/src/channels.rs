//! Pairs of channels: one to the client, one to the server.

use dashmap::DashMap;
use vstd::prelude::*;

verus! {

/// The concurrent map of the `dashmap` crate.
#[verifier::external_type_specification]
#[verifier::external_body]
#[verifier::reject_recursive_types(K)]
#[verifier::reject_recursive_types(V)]
#[verifier::reject_recursive_types(S)]
pub struct ExDashMap<K, V, S>(dashmap::DashMap<K, V, S>);

/// What a map holds.
pub uninterp spec fn dash_contents(m: DashMap<u32, u32>) -> Map<u32, u32>;

/// Calls `DashMap::new`: the map is empty.
#[verifier::external_body]
fn dash_new() -> (m: DashMap<u32, u32>)
    ensures
        (dash_contents(m) == Map::<u32, u32>::empty()),
{
    DashMap::new()
}

/// Calls `DashMap::insert`: `value` stands under `key` from then on, in place
/// of what stood there, which is returned.
#[verifier::external_body]
fn dash_insert(m: &mut DashMap<u32, u32>, key: u32, value: u32) -> (before: Option<u32>)
    ensures
        dash_contents(*final(m)) == dash_contents(*old(m)).insert(key, value),
        before == (if dash_contents(*old(m)).contains_key(key) {
            Some(dash_contents(*old(m))[key])
        } else {
            None::<u32>
        }),
{
    m.insert(key, value)
}

/// Calls `DashMap::get`: what stands under `key`.
#[verifier::external_body]
fn dash_get(m: &DashMap<u32, u32>, key: u32) -> (value: Option<u32>)
    ensures
        value == (if dash_contents(*m).contains_key(key) {
            Some(dash_contents(*m)[key])
        } else {
            None::<u32>
        }),
{
    m.get(&key).map(|entry| *entry.value())
}

/// Which channels belong together, looked up from either side.
#[verifier::ext_equal]
pub struct Pairs {
    /// The client's channel for each of the server's.
    pub to_inbound: Map<u32, u32>,
    /// The server's channel for each of the client's.
    pub to_outbound: Map<u32, u32>,
}

impl Pairs {
    /// No channels.
    pub open spec fn none() -> Pairs {
        Pairs { to_inbound: Map::empty(), to_outbound: Map::empty() }
    }

    /// These pairs and one more.
    pub open spec fn with(self, inbound: u32, outbound: u32) -> Pairs {
        Pairs {
            to_inbound: self.to_inbound.insert(outbound, inbound),
            to_outbound: self.to_outbound.insert(inbound, outbound),
        }
    }

    /// `inbound` and `outbound` belong together, seen from either side.
    pub open spec fn paired(self, inbound: u32, outbound: u32) -> bool {
        &&& self.to_inbound.contains_key(outbound)
        &&& self.to_inbound[outbound] == inbound
        &&& self.to_outbound.contains_key(inbound)
        &&& self.to_outbound[inbound] == outbound
    }

    /// Both sides see the same pairs.
    pub open spec fn consistent(self) -> bool {
        &&& forall|o: u32| #[trigger]
            self.to_inbound.contains_key(o) ==> self.paired(self.to_inbound[o], o)
        &&& forall|i: u32| #[trigger]
            self.to_outbound.contains_key(i) ==> self.paired(i, self.to_outbound[i])
    }
}

/// The channels of a session.
pub struct Channels {
    outbound_inbound: DashMap<u32, u32>,
    inbound_outbound: DashMap<u32, u32>,
}

impl View for Channels {
    type V = Pairs;

    closed spec fn view(&self) -> Pairs {
        Pairs {
            to_inbound: dash_contents(self.outbound_inbound),
            to_outbound: dash_contents(self.inbound_outbound),
        }
    }
}

impl Channels {
    /// No channels.
    pub fn new() -> (c: Self)
        ensures
            c@ == Pairs::none(),
    {
        Channels { outbound_inbound: dash_new(), inbound_outbound: dash_new() }
    }

    /// Pairs a channel of the client with one of the server.
    pub fn set(&mut self, inbound: u32, outbound: u32)
        ensures
            final(self)@ == old(self)@.with(inbound, outbound),
            final(self)@.to_inbound == old(self)@.to_inbound.insert(outbound, inbound),
            final(self)@.to_outbound == old(self)@.to_outbound.insert(inbound, outbound),
    {
        dash_insert(&mut self.outbound_inbound, outbound, inbound);
        dash_insert(&mut self.inbound_outbound, inbound, outbound);
    }

    /// The client's channel that belongs to one of the server.
    pub fn inbound(&self, outbound: u32) -> (r: Option<u32>)
        ensures
            r == (if self@.to_inbound.contains_key(outbound) {
                Some(self@.to_inbound[outbound])
            } else {
                None::<u32>
            }),
    {
        dash_get(&self.outbound_inbound, outbound)
    }

    /// The server's channel that belongs to one of the client.
    pub fn outbound(&self, inbound: u32) -> (r: Option<u32>)
        ensures
            r == (if self@.to_outbound.contains_key(inbound) {
                Some(self@.to_outbound[inbound])
            } else {
                None::<u32>
            }),
    {
        dash_get(&self.inbound_outbound, inbound)
    }
}

/// A pair that was just set is found from either side.
pub proof fn set_pair_is_found(pairs: Pairs, inbound: u32, outbound: u32)
    ensures
        pairs.with(inbound, outbound).paired(inbound, outbound),
{
}

/// Setting a pair leaves every pair of other channels as it was, and no channel
/// is ever forgotten.
pub proof fn other_pairs_stay(pairs: Pairs, inbound: u32, outbound: u32, i: u32, o: u32)
    ensures
        i != inbound && o != outbound ==> (pairs.with(inbound, outbound).paired(i, o)
            <==> pairs.paired(i, o)),
        pairs.to_inbound.contains_key(o) ==> pairs.with(
            inbound,
            outbound,
        ).to_inbound.contains_key(o),
        pairs.to_outbound.contains_key(i) ==> pairs.with(
            inbound,
            outbound,
        ).to_outbound.contains_key(i),
{
}

/// While channels are paired that are new on both sides, both sides see the
/// same pairs.
pub proof fn new_channels_keep_pairs_consistent(pairs: Pairs, inbound: u32, outbound: u32)
    requires
        pairs.consistent(),
        !pairs.to_inbound.contains_key(outbound),
        !pairs.to_outbound.contains_key(inbound),
    ensures
        pairs.with(inbound, outbound).consistent(),
        Pairs::none().consistent(),
{
    let after = pairs.with(inbound, outbound);
    assert forall|o: u32| #[trigger] after.to_inbound.contains_key(o) implies after.paired(
        after.to_inbound[o],
        o,
    ) by {
        if o != outbound {
            assert(pairs.paired(pairs.to_inbound[o], o));
        }
    }
    assert forall|i: u32| #[trigger] after.to_outbound.contains_key(i) implies after.paired(
        i,
        after.to_outbound[i],
    ) by {
        if i != inbound {
            assert(pairs.paired(i, pairs.to_outbound[i]));
        }
    }
}

/// Once a pair is set, each of its channels leads to the other, and every other
/// channel leads where it led before, on both sides.
pub proof fn set_changes_one_pair_on_both_sides(
    channels: &mut Channels,
    inbound: u32,
    outbound: u32,
    i: u32,
    o: u32,
    i_before: Option<u32>,
    o_before: Option<u32>,
    i_after: Option<u32>,
    o_after: Option<u32>,
)
    requires
        call_ensures(Channels::inbound, (&*old(channels), o), i_before),
        call_ensures(Channels::outbound, (&*old(channels), i), o_before),
        call_ensures(Channels::set, (channels, inbound, outbound), ()),
        call_ensures(Channels::inbound, (&*final(channels), o), i_after),
        call_ensures(Channels::outbound, (&*final(channels), i), o_after),
    ensures
        i_after == (if o == outbound {
            Some(inbound)
        } else {
            i_before
        }),
        o_after == (if i == inbound {
            Some(outbound)
        } else {
            o_before
        }),
{
}

/// A session starts without channels.
pub proof fn no_channel_leads_anywhere_at_first(
    channels: Channels,
    c: u32,
    inbound: Option<u32>,
    outbound: Option<u32>,
)
    requires
        call_ensures(Channels::new, (), channels),
        call_ensures(Channels::inbound, (&channels, c), inbound),
        call_ensures(Channels::outbound, (&channels, c), outbound),
    ensures
        inbound is None,
        outbound is None,
        !Pairs::none().to_inbound.contains_key(c),
        !Pairs::none().to_outbound.contains_key(c),
{
}

/// Two channels belong together exactly where each leads to the other.
pub proof fn paired_means_each_leads_to_the_other(pairs: Pairs, inbound: u32, outbound: u32)
    ensures
        pairs.paired(inbound, outbound) <==> {
            &&& pairs.to_inbound.contains_pair(outbound, inbound)
            &&& pairs.to_outbound.contains_pair(inbound, outbound)
        },
        pairs.with(inbound, outbound).to_inbound == pairs.to_inbound.insert(outbound, inbound),
        pairs.with(inbound, outbound).to_outbound == pairs.to_outbound.insert(inbound, outbound),
{
}

} // verus!
