//! The message protocol between node agents and the aggregator.
//!
//! Parameter payloads travel as flat vectors of fixed-point `i64` scalars.
//! The surrounding process frames these messages for its transport and
//! converts scalar representations at its boundary.

use vstd::prelude::*;

verus! {

/// A message addressed to a node agent or to the aggregator.
pub enum NodeMessage {
    /// Train on a flat batch: `data` holds `labels.len()` rows of the fixed
    /// feature width, `labels` one value per row.
    Train { data: Vec<i64>, labels: Vec<i64> },
    /// Run a forward pass over a flat batch of rows of the fixed feature
    /// width.
    Predict { data: Vec<i64> },
    /// Load the given parameters into the receiver's model.
    UpdateModel { params: Vec<i64> },
    /// Announce a node's address to the aggregator.
    RegisterNode { addr: String },
}

/// A request for the aggregator's registry listing.
pub struct GetNodesRequest;

/// A request for the aggregator's current model parameters.
pub struct GetModelParams;

/// A parameter update as the aggregator receives it: the sender's address
/// and the sender's flattened model state.
pub struct ServerMessage {
    /// Address of the contributing node.
    pub node_addr: String,
    /// The contributed parameter vector.
    pub params: Vec<i64>,
}

/// One registry entry as reported externally.
pub struct NodeStatus {
    /// The node's address.
    pub address: String,
    /// A static liveness label; membership is the only liveness the
    /// aggregator tracks.
    pub status: String,
}

/// What a closed round hands back for delivery: the averaged parameters and
/// every non-sentinel registered address to send them to.
pub struct Broadcast {
    /// The averaged parameter vector.
    pub params: Vec<i64>,
    /// The addresses to deliver `params` to.
    pub targets: Vec<String>,
}

/// The mathematical content of a `Broadcast`.
#[verifier::ext_equal]
pub struct BroadcastView {
    /// The averaged parameter vector.
    pub params: Seq<i64>,
    /// The delivery addresses.
    pub targets: Seq<Seq<char>>,
}

impl View for Broadcast {
    type V = BroadcastView;

    open spec fn view(&self) -> BroadcastView {
        BroadcastView { params: self.params@, targets: self.targets.deep_view() }
    }
}

} // verus!
