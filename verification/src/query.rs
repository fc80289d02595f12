//! The read-side queries the presentation layers ask of a snapshot: the
//! interface version, the dashboard's configuration, and the two shard
//! filters.

use vstd::prelude::*;

use crate::config::{Config, UiConfig};
use crate::shard::{shard_list_v, ShallowShard, ShallowShardV};

verus! {

/// The shards not in the settled `STARTED` state: relocating, initializing
/// or unassigned, in their catalog order.
pub open spec fn relocating_spec(s: Seq<ShallowShardV>) -> Seq<ShallowShardV>
    decreases s.len(),
{
    if s.len() == 0 {
        Seq::empty()
    } else if s.last().state != "STARTED"@ {
        relocating_spec(s.drop_last()).push(s.last())
    } else {
        relocating_spec(s.drop_last())
    }
}

/// The shards of one index, in their catalog order.
pub open spec fn shards_of_index(s: Seq<ShallowShardV>, q: Seq<char>) -> Seq<ShallowShardV>
    decreases s.len(),
{
    if s.len() == 0 {
        Seq::empty()
    } else if s.last().index == q {
        shards_of_index(s.drop_last(), q).push(s.last())
    } else {
        shards_of_index(s.drop_last(), q)
    }
}

/// The root of the read-side queries.
#[derive(Debug, Clone, Copy, PartialEq, Eq, Structural)]
pub struct Query;

impl Query {
    /// The version of the query interface.
    pub fn api_version() -> (r: &'static str)
        ensures
            r@ == "1.0"@,
    {
        "1.0"
    }

    /// The dashboard's part of the configuration.
    pub fn config<'a>(c: &'a Config) -> (r: &'a UiConfig)
        ensures
            r@ == c@.ui,
    {
        &c.ui
    }

    /// The shards that are not settled: everything whose state is not
    /// `STARTED`.
    pub fn relocating(shards: &Vec<ShallowShard>) -> (r: Vec<ShallowShard>)
        ensures
            shard_list_v(r@) == relocating_spec(shard_list_v(shards@)),
    {
        let ghost gs = shard_list_v(shards@);
        let mut out: Vec<ShallowShard> = Vec::new();
        let n = shards.len();
        for i in 0..n
            invariant
                n == shards.len(),
                gs == shard_list_v(shards@),
                gs.len() == n,
                shard_list_v(out@) == relocating_spec(gs.take(i as int)),
        {
            let e: &ShallowShard = &shards[i];
            proof {
                assert(gs[i as int] == e@);
                assert(gs.take(i + 1).drop_last() =~= gs.take(i as int));
                assert(gs.take(i + 1).last() == gs[i as int]);
            }
            if !crate::json::str_eq(e.state.as_str(), "STARTED") {
                let ghost before = out@;
                out.push(e.duplicate());
                proof {
                    assert(shard_list_v(out@) =~= shard_list_v(before).push(e@));
                }
            }
        }
        proof {
            assert(gs.take(n as int) =~= gs);
        }
        out
    }

    /// The shards of the named index, or the whole catalog when no index is
    /// asked for.
    pub fn shards(shards: &Vec<ShallowShard>, index: Option<&str>) -> (r: Vec<ShallowShard>)
        ensures
            match index {
                Some(q) => shard_list_v(r@) == shards_of_index(shard_list_v(shards@), q@),
                None => shard_list_v(r@) == shard_list_v(shards@),
            },
    {
        match index {
            Some(q) => {
                let ghost gs = shard_list_v(shards@);
                let mut out: Vec<ShallowShard> = Vec::new();
                let n = shards.len();
                for i in 0..n
                    invariant
                        n == shards.len(),
                        gs == shard_list_v(shards@),
                        gs.len() == n,
                        shard_list_v(out@) == shards_of_index(gs.take(i as int), q@),
                {
                    let e: &ShallowShard = &shards[i];
                    proof {
                        assert(gs[i as int] == e@);
                        assert(gs.take(i + 1).drop_last() =~= gs.take(i as int));
                        assert(gs.take(i + 1).last() == gs[i as int]);
                    }
                    if crate::json::str_eq(e.index.as_str(), q) {
                        let ghost before = out@;
                        out.push(e.duplicate());
                        proof {
                            assert(shard_list_v(out@) =~= shard_list_v(before).push(e@));
                        }
                    }
                }
                proof {
                    assert(gs.take(n as int) =~= gs);
                }
                out
            },
            None => {
                let mut out: Vec<ShallowShard> = Vec::new();
                let n = shards.len();
                for i in 0..n
                    invariant
                        n == shards.len(),
                        out@.len() == i,
                        forall|j: int| 0 <= j < i ==> #[trigger] out@[j]@ == shards@[j]@,
                {
                    out.push(shards[i].duplicate());
                }
                proof {
                    assert(shard_list_v(out@) =~= shard_list_v(shards@));
                }
                out
            },
        }
    }
}

} // verus!
