//! The cache: one slot per resource kind, each holding the last
//! successfully decoded value.
//!
//! A `Warehouse` exists only fully initialized — every slot filled from one
//! successful fetch of each resource — so a reader holding one can never
//! meet an empty slot. Refreshing decodes each kind's newly fetched text
//! and replaces only the slots whose documents decoded; a failure for one
//! resource leaves exactly that resource's slot at its previous value.

use vstd::prelude::*;

use crate::client::{
    decode_doc, decode_resource, into_cluster, into_indices, into_nodes, into_recovery,
    into_shards, FetchError, ResourceKind, ResourceV,
};
use crate::cluster::{ClusterInfo, ClusterInfoV};
use crate::decode::{DecodeError, DecodeErrorV};
use crate::index::{index_list_v, IndexInfo, IndexInfoV};
use crate::nodes::{NodeOutput, NodeOutputV};
use crate::recovery::{Recovery, RecoveryV};
use crate::shard::{shard_list_v, ShallowShard, ShallowShardV};

verus! {

/// The latest snapshot of every resource.
#[derive(Debug, Clone, PartialEq)]
pub struct Warehouse {
    pub cluster: ClusterInfo,
    pub indices: Vec<IndexInfo>,
    pub recovery: Recovery,
    pub shards: Vec<ShallowShard>,
    pub nodes: NodeOutput,
}

pub struct WarehouseV {
    pub cluster: ClusterInfoV,
    pub indices: Seq<IndexInfoV>,
    pub recovery: RecoveryV,
    pub shards: Seq<ShallowShardV>,
    pub nodes: NodeOutputV,
}

impl View for Warehouse {
    type V = WarehouseV;

    open spec fn view(&self) -> WarehouseV {
        WarehouseV {
            cluster: self.cluster@,
            indices: index_list_v(self.indices@),
            recovery: self.recovery@,
            shards: shard_list_v(self.shards@),
            nodes: self.nodes@,
        }
    }
}

/// One round of fetched documents, as raw text: `None` where the transport
/// failed for that resource.
pub struct FetchBatch {
    pub cluster: Option<String>,
    pub indices: Option<String>,
    pub recovery: Option<String>,
    pub shards: Option<String>,
    pub nodes: Option<String>,
}

pub struct FetchBatchV {
    pub cluster: Option<Seq<char>>,
    pub indices: Option<Seq<char>>,
    pub recovery: Option<Seq<char>>,
    pub shards: Option<Seq<char>>,
    pub nodes: Option<Seq<char>>,
}

pub open spec fn opt_text_view(s: Option<String>) -> Option<Seq<char>> {
    match s {
        Some(s) => Some(s@),
        None => None,
    }
}

impl View for FetchBatch {
    type V = FetchBatchV;

    open spec fn view(&self) -> FetchBatchV {
        FetchBatchV {
            cluster: opt_text_view(self.cluster),
            indices: opt_text_view(self.indices),
            recovery: opt_text_view(self.recovery),
            shards: opt_text_view(self.shards),
            nodes: opt_text_view(self.nodes),
        }
    }
}

impl FetchBatchV {
    /// The raw text this batch carries for one resource kind.
    pub open spec fn text(self, kind: ResourceKind) -> Option<Seq<char>> {
        match kind {
            ResourceKind::Cluster => self.cluster,
            ResourceKind::Indices => self.indices,
            ResourceKind::Recovery => self.recovery,
            ResourceKind::Shards => self.shards,
            ResourceKind::Nodes => self.nodes,
        }
    }

    /// Whether this batch fetched and decoded every resource.
    pub open spec fn complete(self) -> bool {
        forall|k: ResourceKind|
            #[trigger] self.text(k) matches Some(s) && decode_doc(k, s) is Some
    }
}

impl WarehouseV {
    /// The snapshot one kind's slot holds.
    pub open spec fn resource_of(self, kind: ResourceKind) -> ResourceV {
        match kind {
            ResourceKind::Cluster => ResourceV::Cluster(self.cluster),
            ResourceKind::Indices => ResourceV::Indices(self.indices),
            ResourceKind::Recovery => ResourceV::Recovery(self.recovery),
            ResourceKind::Shards => ResourceV::Shards(self.shards),
            ResourceKind::Nodes => ResourceV::Nodes(self.nodes),
        }
    }
}

/// What one kind's slot holds after a refresh with the given text: the
/// newly decoded value if the text is there and decodes, else the old one.
pub open spec fn slot_after(kind: ResourceKind, old: ResourceV, t: Option<Seq<char>>) -> ResourceV {
    match t {
        Some(s) => match decode_doc(kind, s) {
            Some(v) => v,
            None => old,
        },
        None => old,
    }
}

/// What a fully successful first fetch builds.
pub open spec fn init_spec(b: FetchBatchV) -> Option<WarehouseV> {
    if b.complete() {
        Some(
            WarehouseV {
                cluster: decode_doc(ResourceKind::Cluster, b.cluster->0)->0->Cluster_0,
                indices: decode_doc(ResourceKind::Indices, b.indices->0)->0->Indices_0,
                recovery: decode_doc(ResourceKind::Recovery, b.recovery->0)->0->Recovery_0,
                shards: decode_doc(ResourceKind::Shards, b.shards->0)->0->Shards_0,
                nodes: decode_doc(ResourceKind::Nodes, b.nodes->0)->0->Nodes_0,
            },
        )
    } else {
        None
    }
}

/// How one slot fared in a refresh.
#[derive(Debug)]
pub enum SlotStatus {
    Updated,
    Transport,
    Failed(DecodeError),
}

pub enum SlotStatusV {
    Updated,
    Transport,
    Failed(DecodeErrorV),
}

impl View for SlotStatus {
    type V = SlotStatusV;

    open spec fn view(&self) -> SlotStatusV {
        match self {
            SlotStatus::Updated => SlotStatusV::Updated,
            SlotStatus::Transport => SlotStatusV::Transport,
            SlotStatus::Failed(e) => SlotStatusV::Failed(e@),
        }
    }
}

/// Which of a status's three cases the batch's text for that kind calls for.
pub open spec fn status_matches(st: SlotStatusV, kind: ResourceKind, t: Option<Seq<char>>) -> bool {
    match st {
        SlotStatusV::Updated => t matches Some(s) && decode_doc(kind, s) is Some,
        SlotStatusV::Transport => t is None,
        SlotStatusV::Failed(_) => t matches Some(s) && decode_doc(kind, s) is None,
    }
}

/// What each slot's refresh reported.
#[derive(Debug)]
pub struct RefreshReport {
    pub cluster: SlotStatus,
    pub indices: SlotStatus,
    pub recovery: SlotStatus,
    pub shards: SlotStatus,
    pub nodes: SlotStatus,
}

impl Warehouse {
    /// Builds the cache from the first round of fetches. Startup has no
    /// valid state to fall back to, so any missing or undecodable document
    /// fails the whole initialization.
    pub fn new(batch: FetchBatch) -> (r: Result<Warehouse, FetchError>)
        ensures
            r is Ok <==> init_spec(batch@) is Some,
            r matches Ok(w) ==> init_spec(batch@) == Some(w@),
    {
        let ghost b = batch@;
        let FetchBatch { cluster, indices, recovery, shards, nodes } = batch;
        let cluster = match cluster {
            Some(t) => match decode_resource(ResourceKind::Cluster, t.as_str()) {
                Ok(x) => into_cluster(x),
                Err(e) => {
                    proof {
                        assert(b.text(ResourceKind::Cluster) == Some(t@));
                        assert(!b.complete());
                    }
                    return Err(FetchError::Decode(e));
                },
            },
            None => {
                proof {
                    assert(b.text(ResourceKind::Cluster) is None);
                    assert(!b.complete());
                }
                return Err(FetchError::Transport("cluster health was not fetched".to_owned()));
            },
        };
        let indices = match indices {
            Some(t) => match decode_resource(ResourceKind::Indices, t.as_str()) {
                Ok(x) => into_indices(x),
                Err(e) => {
                    proof {
                        assert(b.text(ResourceKind::Indices) == Some(t@));
                        assert(!b.complete());
                    }
                    return Err(FetchError::Decode(e));
                },
            },
            None => {
                proof {
                    assert(b.text(ResourceKind::Indices) is None);
                    assert(!b.complete());
                }
                return Err(FetchError::Transport("the index catalog was not fetched".to_owned()));
            },
        };
        let recovery = match recovery {
            Some(t) => match decode_resource(ResourceKind::Recovery, t.as_str()) {
                Ok(x) => into_recovery(x),
                Err(e) => {
                    proof {
                        assert(b.text(ResourceKind::Recovery) == Some(t@));
                        assert(!b.complete());
                    }
                    return Err(FetchError::Decode(e));
                },
            },
            None => {
                proof {
                    assert(b.text(ResourceKind::Recovery) is None);
                    assert(!b.complete());
                }
                return Err(FetchError::Transport("the recovery report was not fetched".to_owned()));
            },
        };
        let shards = match shards {
            Some(t) => match decode_resource(ResourceKind::Shards, t.as_str()) {
                Ok(x) => into_shards(x),
                Err(e) => {
                    proof {
                        assert(b.text(ResourceKind::Shards) == Some(t@));
                        assert(!b.complete());
                    }
                    return Err(FetchError::Decode(e));
                },
            },
            None => {
                proof {
                    assert(b.text(ResourceKind::Shards) is None);
                    assert(!b.complete());
                }
                return Err(FetchError::Transport("the shard catalog was not fetched".to_owned()));
            },
        };
        let nodes = match nodes {
            Some(t) => match decode_resource(ResourceKind::Nodes, t.as_str()) {
                Ok(x) => into_nodes(x),
                Err(e) => {
                    proof {
                        assert(b.text(ResourceKind::Nodes) == Some(t@));
                        assert(!b.complete());
                    }
                    return Err(FetchError::Decode(e));
                },
            },
            None => {
                proof {
                    assert(b.text(ResourceKind::Nodes) is None);
                    assert(!b.complete());
                }
                return Err(FetchError::Transport("the node report was not fetched".to_owned()));
            },
        };
        let w = Warehouse { cluster, indices, recovery, shards, nodes };
        proof {
            let b = batch@;
            assert forall|k: ResourceKind|
                #[trigger] b.text(k) matches Some(s) && decode_doc(k, s) is Some by {
                match k {
                    ResourceKind::Cluster => {},
                    ResourceKind::Indices => {},
                    ResourceKind::Recovery => {},
                    ResourceKind::Shards => {},
                    ResourceKind::Nodes => {},
                }
            }
        }
        Ok(w)
    }

    /// One refresh cycle over already fetched texts: each slot takes its
    /// kind's newly decoded value, or keeps its old one if that kind's
    /// fetch or decode failed. No slot depends on any other kind's text.
    pub fn refresh(&mut self, batch: FetchBatch) -> (rep: RefreshReport)
        ensures
            final(self)@.cluster == slot_after(
                ResourceKind::Cluster,
                ResourceV::Cluster(old(self)@.cluster),
                batch@.cluster,
            )->Cluster_0,
            final(self)@.indices == slot_after(
                ResourceKind::Indices,
                ResourceV::Indices(old(self)@.indices),
                batch@.indices,
            )->Indices_0,
            final(self)@.recovery == slot_after(
                ResourceKind::Recovery,
                ResourceV::Recovery(old(self)@.recovery),
                batch@.recovery,
            )->Recovery_0,
            final(self)@.shards == slot_after(
                ResourceKind::Shards,
                ResourceV::Shards(old(self)@.shards),
                batch@.shards,
            )->Shards_0,
            final(self)@.nodes == slot_after(
                ResourceKind::Nodes,
                ResourceV::Nodes(old(self)@.nodes),
                batch@.nodes,
            )->Nodes_0,
            status_matches(rep.cluster@, ResourceKind::Cluster, batch@.cluster),
            status_matches(rep.indices@, ResourceKind::Indices, batch@.indices),
            status_matches(rep.recovery@, ResourceKind::Recovery, batch@.recovery),
            status_matches(rep.shards@, ResourceKind::Shards, batch@.shards),
            status_matches(rep.nodes@, ResourceKind::Nodes, batch@.nodes),
    {
        let FetchBatch { cluster, indices, recovery, shards, nodes } = batch;
        let st_cluster = match cluster {
            Some(t) => match decode_resource(ResourceKind::Cluster, t.as_str()) {
                Ok(x) => {
                    self.cluster = into_cluster(x);
                    SlotStatus::Updated
                },
                Err(e) => SlotStatus::Failed(e),
            },
            None => SlotStatus::Transport,
        };
        let st_indices = match indices {
            Some(t) => match decode_resource(ResourceKind::Indices, t.as_str()) {
                Ok(x) => {
                    self.indices = into_indices(x);
                    SlotStatus::Updated
                },
                Err(e) => SlotStatus::Failed(e),
            },
            None => SlotStatus::Transport,
        };
        let st_recovery = match recovery {
            Some(t) => match decode_resource(ResourceKind::Recovery, t.as_str()) {
                Ok(x) => {
                    self.recovery = into_recovery(x);
                    SlotStatus::Updated
                },
                Err(e) => SlotStatus::Failed(e),
            },
            None => SlotStatus::Transport,
        };
        let st_shards = match shards {
            Some(t) => match decode_resource(ResourceKind::Shards, t.as_str()) {
                Ok(x) => {
                    self.shards = into_shards(x);
                    SlotStatus::Updated
                },
                Err(e) => SlotStatus::Failed(e),
            },
            None => SlotStatus::Transport,
        };
        let st_nodes = match nodes {
            Some(t) => match decode_resource(ResourceKind::Nodes, t.as_str()) {
                Ok(x) => {
                    self.nodes = into_nodes(x);
                    SlotStatus::Updated
                },
                Err(e) => SlotStatus::Failed(e),
            },
            None => SlotStatus::Transport,
        };
        RefreshReport {
            cluster: st_cluster,
            indices: st_indices,
            recovery: st_recovery,
            shards: st_shards,
            nodes: st_nodes,
        }
    }

    /// The cluster summary's snapshot.
    pub fn cluster(&self) -> (r: &ClusterInfo)
        ensures
            r@ == self@.cluster,
    {
        &self.cluster
    }

    /// The index catalog's snapshot.
    pub fn indices(&self) -> (r: &Vec<IndexInfo>)
        ensures
            index_list_v(r@) == self@.indices,
    {
        &self.indices
    }

    /// The recovery report's snapshot.
    pub fn recovery(&self) -> (r: &Recovery)
        ensures
            r@ == self@.recovery,
    {
        &self.recovery
    }

    /// The shard catalog's snapshot.
    pub fn shards(&self) -> (r: &Vec<ShallowShard>)
        ensures
            shard_list_v(r@) == self@.shards,
    {
        &self.shards
    }

    /// The node report's snapshot.
    pub fn nodes(&self) -> (r: &NodeOutput)
        ensures
            r@ == self@.nodes,
    {
        &self.nodes
    }
}

/// A reader's borrowed snapshot of one slot.
#[derive(Debug)]
pub enum ResourceRef<'a> {
    Cluster(&'a ClusterInfo),
    Indices(&'a Vec<IndexInfo>),
    Recovery(&'a Recovery),
    Shards(&'a Vec<ShallowShard>),
    Nodes(&'a NodeOutput),
}

impl<'a> View for ResourceRef<'a> {
    type V = ResourceV;

    open spec fn view(&self) -> ResourceV {
        match self {
            ResourceRef::Cluster(c) => ResourceV::Cluster(c@),
            ResourceRef::Indices(xs) => ResourceV::Indices(index_list_v(xs@)),
            ResourceRef::Recovery(r) => ResourceV::Recovery(r@),
            ResourceRef::Shards(xs) => ResourceV::Shards(shard_list_v(xs@)),
            ResourceRef::Nodes(n) => ResourceV::Nodes(n@),
        }
    }
}

/// A reader asked before the cache was built: a distinct condition, never a
/// made-up empty value, since empty values are valid data.
#[derive(Debug, PartialEq, Eq, Structural)]
pub enum WarehouseError {
    CacheUnavailable,
}

/// Reads one resource kind's snapshot through an optional cache handle.
/// Once the cache exists, every kind reads successfully: only a reader that
/// arrives before initialization sees `CacheUnavailable`.
pub fn read<'a>(handle: Option<&'a Warehouse>, kind: ResourceKind) -> (r: Result<
    ResourceRef<'a>,
    WarehouseError,
>)
    ensures
        handle matches Some(w) ==> r matches Ok(res) && res@ == w@.resource_of(kind),
        handle is None <==> r == Err::<ResourceRef<'a>, WarehouseError>(
            WarehouseError::CacheUnavailable,
        ),
{
    match handle {
        Some(w) => match kind {
            ResourceKind::Cluster => Ok(ResourceRef::Cluster(&w.cluster)),
            ResourceKind::Indices => Ok(ResourceRef::Indices(&w.indices)),
            ResourceKind::Recovery => Ok(ResourceRef::Recovery(&w.recovery)),
            ResourceKind::Shards => Ok(ResourceRef::Shards(&w.shards)),
            ResourceKind::Nodes => Ok(ResourceRef::Nodes(&w.nodes)),
        },
        None => Err(WarehouseError::CacheUnavailable),
    }
}

/// After a successful initialization every slot holds exactly the value
/// decoded from its kind's fetched document, so a read of any kind serves
/// data from that first round.
pub proof fn lemma_initialize_fills_every_slot(b: FetchBatchV)
    requires
        init_spec(b) is Some,
    ensures
        forall|k: ResourceKind| #[trigger]
            init_spec(b)->0.resource_of(k) == decode_doc(k, b.text(k)->0)->0,
{
    let w = init_spec(b)->0;
    assert forall|k: ResourceKind| #[trigger] w.resource_of(k) == decode_doc(k, b.text(k)->0)->0 by {
        assert(b.text(k) matches Some(s) && decode_doc(k, s) is Some);
        crate::client::lemma_decode_doc_kind(k, b.text(k)->0);
        match k {
            ResourceKind::Cluster => {},
            ResourceKind::Indices => {},
            ResourceKind::Recovery => {},
            ResourceKind::Shards => {},
            ResourceKind::Nodes => {},
        }
    }
}

/// Slots are independent: when one resource's refresh fails and another's
/// succeeds, the failed one still serves its previous snapshot while the
/// successful one serves the new value — there is no cross-resource
/// rollback.
pub proof fn lemma_refresh_slots_independent(
    w: WarehouseV,
    b: FetchBatchV,
    failed: ResourceKind,
    succeeded: ResourceKind,
)
    requires
        !(b.text(failed) matches Some(s) && decode_doc(failed, s) is Some),
        b.text(succeeded) matches Some(s) && decode_doc(succeeded, s) is Some,
    ensures
        slot_after(failed, w.resource_of(failed), b.text(failed)) == w.resource_of(failed),
        slot_after(succeeded, w.resource_of(succeeded), b.text(succeeded)) == decode_doc(
            succeeded,
            b.text(succeeded)->0,
        )->0,
{
}

} // verus!
