//! The node agent's decision logic.
//!
//! A node agent owns one local model. For each inbound message it decides
//! what to do and reports the outside work the caller must perform: run the
//! local optimizer, run a forward pass, or nothing. The caller performs that
//! work and, after training, hands the flattened result back through
//! [`NodeActor::finish_training`], which yields the update message for the
//! aggregator. Training and prediction requests whose flat batch does not
//! match the fixed feature width fail with a reshape error and change
//! nothing.

use crate::messages::NodeMessage;
use crate::model::{build_model, standard_total_params, SimpleModel, FEATURE_WIDTH};
use crate::params::overwrite_prefix;
use vstd::prelude::*;

verus! {

/// How many local optimization epochs one training request runs.
pub const TRAIN_EPOCHS: usize = 10;

/// The outside work a handled message asks the caller to perform.
pub enum NodeAction {
    /// Run the local optimizer for `epochs` epochs on the validated batch of
    /// `samples` rows, then hand the flattened result to `finish_training`.
    TrainLocally { samples: usize, epochs: usize },
    /// Run a forward pass over `batch_size` rows; the prediction is observed
    /// only through logging, never returned to the requester.
    ComputeForward { batch_size: usize },
    /// The inbound global parameters were applied to the local model;
    /// nothing further to do.
    ModelUpdated,
    /// The message is meaningful only at the aggregator; nothing to do.
    Ignored,
}

/// The mathematical content of a node agent.
#[verifier::ext_equal]
pub struct NodeView {
    /// The local model, flattened in codec order.
    pub model_flat: Seq<i64>,
    /// The aggregator's address.
    pub server_addr: Seq<char>,
    /// This node's own address.
    pub node_addr: Seq<char>,
}

/// A node agent: one local model and the two addresses it speaks with.
pub struct NodeActor {
    model: SimpleModel,
    server_addr: String,
    node_addr: String,
}

impl View for NodeActor {
    type V = NodeView;

    closed spec fn view(&self) -> NodeView {
        NodeView {
            model_flat: self.model.flat(),
            server_addr: self.server_addr@,
            node_addr: self.node_addr@,
        }
    }
}

impl NodeActor {
    /// The local model is well formed.
    pub closed spec fn inv(self) -> bool {
        self.model.wf()
    }

    /// A fresh agent with a zero model of the standard topology.
    pub fn new(server_addr: String, node_addr: String) -> (n: Self)
        ensures
            n.inv(),
            n@.server_addr == server_addr@,
            n@.node_addr == node_addr@,
            n@.model_flat == Seq::new(standard_total_params() as nat, |i: int| 0i64),
    {
        NodeActor { model: build_model(), server_addr, node_addr }
    }

    /// The startup registration announcement, carrying this node's address.
    pub fn registration_message(&self) -> (r: NodeMessage)
        ensures
            r matches NodeMessage::RegisterNode { addr } && addr@ == self@.node_addr,
    {
        NodeMessage::RegisterNode { addr: self.node_addr.clone() }
    }

    /// Decides what one inbound message asks for. Training and prediction
    /// batches are validated against the fixed feature width and rejected
    /// with a reshape error if the flat lengths do not agree; an inbound
    /// global update is applied to the local model through the tolerant
    /// codec write; a registration announcement is ignored here.
    pub fn handle_message(&mut self, msg: &NodeMessage) -> (r: Result<NodeAction, String>)
        requires
            old(self).inv(),
        ensures
            final(self).inv(),
            final(self)@.server_addr == old(self)@.server_addr,
            final(self)@.node_addr == old(self)@.node_addr,
            match *msg {
                NodeMessage::Train { ref data, ref labels } => {
                    &&& (r is Ok <==> data@.len() as int == FEATURE_WIDTH as int
                        * labels@.len() as int)
                    &&& (r matches Ok(a) ==> a == (NodeAction::TrainLocally {
                        samples: labels.len(),
                        epochs: TRAIN_EPOCHS,
                    }))
                    &&& final(self)@.model_flat == old(self)@.model_flat
                },
                NodeMessage::Predict { ref data } => {
                    &&& (r is Ok <==> data@.len() as int % (FEATURE_WIDTH as int) == 0)
                    &&& (r matches Ok(a) ==> a == (NodeAction::ComputeForward {
                        batch_size: (data@.len() as int / (FEATURE_WIDTH as int)) as usize,
                    }))
                    &&& final(self)@.model_flat == old(self)@.model_flat
                },
                NodeMessage::UpdateModel { ref params } => {
                    &&& r == Ok::<NodeAction, String>(NodeAction::ModelUpdated)
                    &&& final(self)@.model_flat == overwrite_prefix(
                        old(self)@.model_flat,
                        params@,
                    )
                },
                NodeMessage::RegisterNode { .. } => {
                    &&& r == Ok::<NodeAction, String>(NodeAction::Ignored)
                    &&& final(self)@.model_flat == old(self)@.model_flat
                },
            },
    {
        match msg {
            NodeMessage::Train { data, labels } => {
                let data_len = data.len();
                let labels_len = labels.len();
                if labels_len <= usize::MAX / FEATURE_WIDTH && data_len == FEATURE_WIDTH
                    * labels_len {
                    Ok(NodeAction::TrainLocally { samples: labels_len, epochs: TRAIN_EPOCHS })
                } else {
                    proof {
                        if labels@.len() as int > usize::MAX as int / FEATURE_WIDTH as int {
                            assert(FEATURE_WIDTH as int * labels@.len() as int > usize::MAX
                                as int) by (nonlinear_arith)
                                requires
                                    labels@.len() as int > usize::MAX as int / FEATURE_WIDTH
                                        as int,
                            ;
                        }
                    }
                    Err("Failed to reshape data".to_owned())
                }
            }
            NodeMessage::Predict { data } => {
                if data.len() % FEATURE_WIDTH == 0 {
                    Ok(NodeAction::ComputeForward { batch_size: data.len() / FEATURE_WIDTH })
                } else {
                    Err("Failed to reshape data".to_owned())
                }
            }
            NodeMessage::UpdateModel { params } => {
                self.model.from_params_vec(params);
                Ok(NodeAction::ModelUpdated)
            }
            NodeMessage::RegisterNode { .. } => Ok(NodeAction::Ignored),
        }
    }

    /// Applies a locally trained parameter vector to the agent's model
    /// through the tolerant codec write, and yields the update message for
    /// the aggregator carrying the model's freshly flattened state.
    pub fn finish_training(&mut self, trained: &Vec<i64>) -> (r: NodeMessage)
        requires
            old(self).inv(),
        ensures
            final(self).inv(),
            final(self)@.server_addr == old(self)@.server_addr,
            final(self)@.node_addr == old(self)@.node_addr,
            final(self)@.model_flat == overwrite_prefix(old(self)@.model_flat, trained@),
            r matches NodeMessage::UpdateModel { params } && params@ == final(self)@.model_flat,
    {
        self.model.from_params_vec(trained);
        let params = self.model.to_params_vec();
        NodeMessage::UpdateModel { params }
    }

    /// The local model's current flattened parameters.
    pub fn params_snapshot(&self) -> (r: Vec<i64>)
        ensures
            r@ == self@.model_flat,
    {
        self.model.to_params_vec()
    }
}

} // verus!
