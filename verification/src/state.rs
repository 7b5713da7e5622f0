//! Shared per-listener state: latest tips per chain upstream, health flags
//! per common upstream.
//!
//! Probe tasks write this state and the per-request selector reads it; the
//! caller wraps a listener's state in its own synchronisation and hands
//! each side a short exclusive borrow.

use vstd::prelude::*;
use vstd::string::*;
use crate::kv::{KvList, kv_lookup};

verus! {

/// The largest tip recorded in the entries, 0 when there are none.
pub open spec fn max_tip(entries: Seq<(String, u64)>) -> u64
    decreases entries.len(),
{
    if entries.len() == 0 {
        0u64
    } else {
        let m = max_tip(entries.drop_last());
        if entries.last().1 > m {
            entries.last().1
        } else {
            m
        }
    }
}

/// No recorded tip exceeds the maximum.
pub proof fn lemma_max_tip_ge(entries: Seq<(String, u64)>, j: int)
    requires
        0 <= j < entries.len(),
    ensures
        entries[j].1 <= max_tip(entries),
    decreases entries.len(),
{
    if j < entries.len() - 1 {
        lemma_max_tip_ge(entries.drop_last(), j);
    }
}

/// Tips of one chain listener's upstream pool, keyed by upstream URI.
#[derive(Debug)]
pub struct ChainState {
    pub chain_name: String,
    pub block_numbers: KvList<u64>,
}

impl ChainState {
    /// Fresh state: no upstream has reported a tip yet.
    pub fn new(chain_name: &str) -> (r: Self)
        ensures
            r.chain_name@ == chain_name@,
            r.block_numbers@.len() == 0,
    {
        ChainState { chain_name: chain_name.to_owned(), block_numbers: KvList::new() }
    }

    /// The listener's chain name, a metrics label.
    pub fn chain_name(&self) -> (r: &str)
        ensures
            r@ == self.chain_name@,
    {
        self.chain_name.as_str()
    }

    /// Record the latest tip reported by one upstream.  Recording the tip
    /// an upstream already has changes no lookup at all.
    pub fn update_block_number(&mut self, host_name: &str, block_number: u64)
        ensures
            final(self).chain_name == old(self).chain_name,
            kv_lookup(final(self).block_numbers@, host_name@) == Some(block_number),
            forall|t: Seq<char>|
                #![trigger kv_lookup(final(self).block_numbers@, t)]
                #![trigger kv_lookup(old(self).block_numbers@, t)]
                t != host_name@ ==> kv_lookup(final(self).block_numbers@, t) == kv_lookup(
                    old(self).block_numbers@,
                    t,
                ),
            kv_lookup(old(self).block_numbers@, host_name@) == Some(block_number)
                ==> forall|t: Seq<char>|
                #[trigger] kv_lookup(final(self).block_numbers@, t) == kv_lookup(
                    old(self).block_numbers@,
                    t,
                ),
    {
        self.block_numbers.set(host_name, block_number);
    }

    /// All recorded tips, for the selector's snapshot.
    pub fn get_block_numbers(&self) -> (r: &KvList<u64>)
        ensures
            r@ == self.block_numbers@,
    {
        &self.block_numbers
    }

    /// The tip last recorded for one upstream, if any.
    pub fn get_block_number(&self, host_name: &str) -> (r: Option<u64>)
        ensures
            r == kv_lookup(self.block_numbers@, host_name@),
    {
        match self.block_numbers.get(host_name) {
            Some(v) => Some(*v),
            None => None,
        }
    }

    /// The largest recorded tip, 0 when nothing has been recorded.
    pub fn max_block_number(&self) -> (r: u64)
        ensures
            r == max_tip(self.block_numbers@),
    {
        max_tip_of(&self.block_numbers)
    }
}

/// The largest tip recorded in a tips map, 0 when there are none.
#[verifier::loop_isolation(false)]
pub fn max_tip_of(tips: &KvList<u64>) -> (r: u64)
    ensures
        r == max_tip(tips@),
{
    let entries = tips.entries();
    let n = entries.len();
    let mut m: u64 = 0;
    let mut i: usize = 0;
    proof {
        assert(entries@.take(0) =~= Seq::<(String, u64)>::empty());
    }
    while i < n
        invariant
            i <= n,
            m == max_tip(entries@.take(i as int)),
        decreases n - i,
    {
        proof {
            assert(entries@.take(i as int + 1).drop_last() =~= entries@.take(i as int));
            assert(entries@.take(i as int + 1).last() == entries@[i as int]);
        }
        if entries[i].1 > m {
            m = entries[i].1;
        }
        i = i + 1;
    }
    proof {
        assert(entries@.take(n as int) =~= entries@);
    }
    m
}

/// Health flags of one common listener's upstream pool, keyed by upstream
/// URI.
#[derive(Debug)]
pub struct NodeState {
    pub node_name: String,
    pub health_status: KvList<bool>,
}

impl NodeState {
    /// Fresh state: no upstream has been probed yet.
    pub fn new(node_name: &str) -> (r: Self)
        ensures
            r.node_name@ == node_name@,
            r.health_status@.len() == 0,
    {
        NodeState { node_name: node_name.to_owned(), health_status: KvList::new() }
    }

    /// Record the outcome of one upstream's probe.
    pub fn update_health_status(&mut self, host_name: &str, is_healthy: bool)
        ensures
            final(self).node_name == old(self).node_name,
            kv_lookup(final(self).health_status@, host_name@) == Some(is_healthy),
            forall|t: Seq<char>|
                #![trigger kv_lookup(final(self).health_status@, t)]
                #![trigger kv_lookup(old(self).health_status@, t)]
                t != host_name@ ==> kv_lookup(final(self).health_status@, t) == kv_lookup(
                    old(self).health_status@,
                    t,
                ),
    {
        self.health_status.set(host_name, is_healthy);
    }

    /// Whether an upstream's last probe succeeded; an upstream never probed
    /// counts as unhealthy.
    pub fn is_healthy(&self, host_name: &str) -> (r: bool)
        ensures
            r == (kv_lookup(self.health_status@, host_name@) == Some(true)),
    {
        match self.health_status.get(host_name) {
            Some(v) => *v,
            None => false,
        }
    }
}

} // verus!
