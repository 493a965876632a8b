//! The central aggregator: node registry, the in-flight averaging round,
//! and the authoritative global model.
//!
//! All mutation goes through the handlers below, one message at a time. A
//! parameter update registers its sender, folds the vector into the round's
//! accumulator — seeding it if absent, otherwise adding elementwise over the
//! shorter length — and counts the contribution. When the count reaches the
//! expected number, the round closes: the accumulator is averaged by the
//! expected count, the average is loaded into the global model through the
//! tolerant codec write, and the averaged vector together with every
//! non-sentinel registered address is handed back for delivery. The counter
//! and accumulator then reset and a fresh round begins at once.

use crate::messages::{
    Broadcast, BroadcastView, GetModelParams, GetNodesRequest, NodeMessage, NodeStatus,
    ServerMessage,
};
use crate::model::{build_model, standard_total_params, SimpleModel};
use crate::params::{
    accumulate, add_trunc, average_in_place, avg_seq, copy_vec, elementwise_sum_fits,
    overwrite_prefix,
};
use crate::registry::{
    broadcast_targets, insert_addr, non_sentinel, register_spec, unique_addrs,
};
use vstd::prelude::*;

verus! {

/// The mathematical content of the aggregator.
#[verifier::ext_equal]
pub struct ServerState {
    /// Registered addresses, in insertion order.
    pub nodes: Seq<Seq<char>>,
    /// The round's accumulator, absent until the round's first update.
    pub acc: Option<Seq<i64>>,
    /// Contributions accepted since the last closure.
    pub received: int,
    /// How many contributions close a round; fixed at construction.
    pub expected: int,
    /// The global model, flattened in codec order.
    pub model_flat: Seq<i64>,
}

/// The accumulator after one more contribution: the contribution itself if
/// the accumulator was absent, otherwise the elementwise sum over the
/// shorter length.
pub open spec fn accumulate_spec(acc: Option<Seq<i64>>, params: Seq<i64>) -> Seq<i64> {
    match acc {
        Option::Some(a) => add_trunc(a, params),
        Option::None => params,
    }
}

/// Whether the next accepted contribution closes the round.
pub open spec fn closes(s: ServerState) -> bool {
    s.received + 1 >= s.expected
}

/// The aggregator after a registration announcement for `addr`.
pub open spec fn step_register(s: ServerState, addr: Seq<char>) -> ServerState {
    ServerState { nodes: register_spec(s.nodes, addr), ..s }
}

/// The aggregator after accepting one parameter update from `addr`.
pub open spec fn step_update(s: ServerState, addr: Seq<char>, params: Seq<i64>) -> ServerState {
    let nodes1 = register_spec(s.nodes, addr);
    let sum = accumulate_spec(s.acc, params);
    if closes(s) {
        ServerState {
            nodes: nodes1,
            acc: Option::None,
            received: 0,
            expected: s.expected,
            model_flat: overwrite_prefix(s.model_flat, avg_seq(sum, s.expected)),
        }
    } else {
        ServerState {
            nodes: nodes1,
            acc: Option::Some(sum),
            received: s.received + 1,
            expected: s.expected,
            model_flat: s.model_flat,
        }
    }
}

/// What one accepted update hands back for delivery: nothing while the
/// round stays open; on closure, the averaged vector and the non-sentinel
/// registered addresses.
pub open spec fn broadcast_spec(s: ServerState, addr: Seq<char>, params: Seq<i64>) -> Option<
    BroadcastView,
> {
    if closes(s) {
        Option::Some(
            BroadcastView {
                params: avg_seq(accumulate_spec(s.acc, params), s.expected),
                targets: non_sentinel(register_spec(s.nodes, addr)),
            },
        )
    } else {
        Option::None
    }
}

/// The round invariant: at least one contribution is expected, the count of
/// accepted contributions stays below it, the accumulator is present exactly
/// while the count is positive, and registered addresses are unique.
pub open spec fn round_inv(s: ServerState) -> bool {
    &&& s.expected >= 1
    &&& 0 <= s.received < s.expected
    &&& (s.received == 0 <==> s.acc is None)
    &&& unique_addrs(s.nodes)
}

/// One accepted update preserves the round invariant.
pub proof fn lemma_step_update_inv(s: ServerState, addr: Seq<char>, params: Seq<i64>)
    requires
        round_inv(s),
    ensures
        round_inv(step_update(s, addr, params)),
{
    crate::registry::lemma_register_unique(s.nodes, addr);
}

/// One accepted update, as the trace laws speak of it.
#[verifier::ext_equal]
pub struct UpdateEvent {
    /// The sender's address.
    pub addr: Seq<char>,
    /// The contributed parameter vector.
    pub params: Seq<i64>,
}

/// The aggregator after accepting the updates in `msgs`, in order.
pub open spec fn run_updates(s: ServerState, msgs: Seq<UpdateEvent>) -> ServerState
    decreases msgs.len(),
{
    if msgs.len() == 0 {
        s
    } else {
        step_update(run_updates(s, msgs.drop_last()), msgs.last().addr, msgs.last().params)
    }
}

/// Within one round, each accepted update raises the received count by one
/// and preserves the invariant.
pub proof fn lemma_prefix_state(s: ServerState, msgs: Seq<UpdateEvent>, j: int)
    requires
        round_inv(s),
        s.received == 0,
        0 <= j < s.expected,
        j <= msgs.len(),
    ensures
        round_inv(run_updates(s, msgs.take(j))),
        run_updates(s, msgs.take(j)).received == j,
        run_updates(s, msgs.take(j)).expected == s.expected,
    decreases j,
{
    if j == 0 {
        assert(msgs.take(0) =~= Seq::<UpdateEvent>::empty());
    } else {
        lemma_prefix_state(s, msgs, j - 1);
        let prev = run_updates(s, msgs.take(j - 1));
        lemma_step_update_inv(prev, msgs[j - 1].addr, msgs[j - 1].params);
        assert(msgs.take(j).drop_last() =~= msgs.take(j - 1));
        assert(msgs.take(j).last() == msgs[j - 1]);
    }
}

/// Law: starting from a fresh round, closure occurs exactly on the
/// `expected`-th accepted update — never earlier, never later — and
/// immediately after it the received count is zero and the accumulator
/// absent, so the following update seeds a fresh accumulator.
pub proof fn lemma_round_closure(s: ServerState, msgs: Seq<UpdateEvent>, j: int)
    requires
        round_inv(s),
        s.received == 0,
        0 <= j < msgs.len(),
        msgs.len() <= s.expected,
    ensures
        closes(run_updates(s, msgs.take(j))) <==> j == s.expected - 1,
        j == s.expected - 1 ==> run_updates(s, msgs.take(j + 1)).received == 0 && run_updates(
            s,
            msgs.take(j + 1),
        ).acc is None && round_inv(run_updates(s, msgs.take(j + 1))),
{
    lemma_prefix_state(s, msgs, j);
    if j == s.expected - 1 {
        let prev = run_updates(s, msgs.take(j));
        lemma_step_update_inv(prev, msgs[j].addr, msgs[j].params);
        assert(msgs.take(j + 1).drop_last() =~= msgs.take(j));
        assert(msgs.take(j + 1).last() == msgs[j]);
    }
}

/// Law: an update arriving while the accumulator is absent seeds it with
/// exactly the incoming vector, provided it does not itself close the
/// round.
pub proof fn lemma_fresh_seed(s: ServerState, addr: Seq<char>, params: Seq<i64>)
    requires
        round_inv(s),
        s.acc is None,
        s.expected >= 2,
    ensures
        step_update(s, addr, params).acc == Option::Some(params),
{
}

/// The central aggregator.
pub struct CentralServer {
    nodes: Vec<String>,
    aggregated_params: Option<Vec<i64>>,
    model: SimpleModel,
    updates_received: usize,
    total_nodes: usize,
}

impl View for CentralServer {
    type V = ServerState;

    closed spec fn view(&self) -> ServerState {
        ServerState {
            nodes: self.nodes.deep_view(),
            acc: match self.aggregated_params {
                Option::Some(v) => Option::Some(v@),
                Option::None => Option::None,
            },
            received: self.updates_received as int,
            expected: self.total_nodes as int,
            model_flat: self.model.flat(),
        }
    }
}

impl CentralServer {
    /// The global model is well formed; internal to the aggregator.
    pub closed spec fn model_ok(self) -> bool {
        self.model.wf()
    }

    /// Everything the handlers rely on and preserve.
    pub open spec fn inv(self) -> bool {
        &&& round_inv(self@)
        &&& self.model_ok()
    }

    /// A fresh aggregator expecting `total_nodes` contributions per round,
    /// with an empty registry, no round in flight, and a zero global model
    /// of the standard topology.
    pub fn new(total_nodes: usize) -> (s: Self)
        requires
            total_nodes >= 1,
        ensures
            s.inv(),
            s@.nodes == Seq::<Seq<char>>::empty(),
            s@.acc is None,
            s@.received == 0,
            s@.expected == total_nodes as int,
            s@.model_flat == Seq::new(standard_total_params() as nat, |i: int| 0i64),
    {
        let model = build_model();
        let s = CentralServer {
            nodes: Vec::new(),
            aggregated_params: Option::None,
            model,
            updates_received: 0,
            total_nodes,
        };
        proof {
            assert(s@.nodes =~= Seq::<Seq<char>>::empty());
        }
        s
    }

    /// Registers `addr`: appended if new, ignored if already present.
    pub fn handle_register_node(&mut self, addr: String)
        requires
            old(self).inv(),
        ensures
            final(self).inv(),
            final(self)@ == step_register(old(self)@, addr@),
    {
        proof {
            crate::registry::lemma_register_unique(old(self)@.nodes, addr@);
        }
        insert_addr(&mut self.nodes, addr);
    }

    /// Accepts one parameter update: registers the sender, folds the vector
    /// into the accumulator, counts the contribution, and closes the round
    /// when the expected count is reached. Returns the broadcast a closure
    /// asks for, or nothing while the round stays open.
    pub fn handle_server_message(&mut self, msg: ServerMessage) -> (r: Option<Broadcast>)
        requires
            old(self).inv(),
            match old(self)@.acc {
                Option::Some(a) => elementwise_sum_fits(a, msg.params@),
                Option::None => true,
            },
        ensures
            final(self).inv(),
            final(self)@ == step_update(old(self)@, msg.node_addr@, msg.params@),
            match (r, broadcast_spec(old(self)@, msg.node_addr@, msg.params@)) {
                (Option::Some(b), Option::Some(bv)) => b@ == bv,
                (Option::None, Option::None) => true,
                _ => false,
            },
    {
        proof {
            lemma_step_update_inv(old(self)@, msg.node_addr@, msg.params@);
        }
        let ServerMessage { node_addr, params } = msg;
        insert_addr(&mut self.nodes, node_addr);
        self.updates_received = self.updates_received + 1;
        let mut taken: Option<Vec<i64>> = Option::None;
        core::mem::swap(&mut taken, &mut self.aggregated_params);
        match taken {
            Option::Some(mut acc) => {
                accumulate(&mut acc, &params);
                self.aggregated_params = Option::Some(acc);
            },
            Option::None => {
                self.aggregated_params = Option::Some(params);
            },
        }
        if self.updates_received >= self.total_nodes {
            let aggregated = self.aggregate_and_broadcast();
            match aggregated {
                Result::Ok(b) => {
                    self.updates_received = 0;
                    self.aggregated_params = Option::None;
                    Option::Some(b)
                },
                Result::Err(_) => {
                    proof {
                        assert(false);
                    }
                    Option::None
                },
            }
        } else {
            Option::None
        }
    }

    /// Closes the round: averages the accumulator by the expected count,
    /// loads the average into the global model through the tolerant codec
    /// write, and collects the non-sentinel delivery targets. With no
    /// accumulator present there is nothing to aggregate: an error is
    /// reported and nothing changes, leaving the round open.
    fn aggregate_and_broadcast(&mut self) -> (r: Result<Broadcast, String>)
        requires
            old(self).model_ok(),
            old(self)@.expected >= 1,
        ensures
            final(self).model_ok(),
            final(self)@.nodes == old(self)@.nodes,
            final(self)@.expected == old(self)@.expected,
            final(self)@.received == old(self)@.received,
            r is Ok <==> old(self)@.acc is Some,
            match r {
                Result::Ok(b) => old(self)@.acc matches Option::Some(a) && {
                    let avg = avg_seq(a, old(self)@.expected);
                    &&& b@.params == avg
                    &&& b@.targets == non_sentinel(old(self)@.nodes)
                    &&& final(self)@.acc == Option::Some(avg)
                    &&& final(self)@.model_flat == overwrite_prefix(old(self)@.model_flat, avg)
                },
                Result::Err(_) => *final(self) == *old(self),
            },
    {
        let mut taken: Option<Vec<i64>> = Option::None;
        core::mem::swap(&mut taken, &mut self.aggregated_params);
        match taken {
            Option::Some(mut acc) => {
                average_in_place(&mut acc, self.total_nodes as u64);
                self.model.from_params_vec(&acc);
                let targets = broadcast_targets(&self.nodes);
                let bparams = copy_vec(&acc);
                self.aggregated_params = Option::Some(acc);
                Result::Ok(Broadcast { params: bparams, targets })
            },
            Option::None => {
                self.aggregated_params = Option::None;
                Result::Err("No parameters to aggregate".to_owned())
            },
        }
    }

    /// Dispatches one protocol message at the aggregator: a registration is
    /// inserted, an update is accepted as if sent by the local sentinel
    /// `"direct"`, anything else is ignored.
    pub fn handle_node_message(&mut self, msg: NodeMessage) -> (r: Option<Broadcast>)
        requires
            old(self).inv(),
            (msg matches NodeMessage::UpdateModel { params } ==> match old(self)@.acc {
                Option::Some(a) => elementwise_sum_fits(a, params@),
                Option::None => true,
            }),
        ensures
            final(self).inv(),
            match msg {
                NodeMessage::RegisterNode { addr } => final(self)@ == step_register(
                    old(self)@,
                    addr@,
                ) && r is None,
                NodeMessage::UpdateModel { params } => final(self)@ == step_update(
                    old(self)@,
                    "direct"@,
                    params@,
                ) && (match (r, broadcast_spec(old(self)@, "direct"@, params@)) {
                    (Option::Some(b), Option::Some(bv)) => b@ == bv,
                    (Option::None, Option::None) => true,
                    _ => false,
                }),
                NodeMessage::Train { .. } => final(self)@ == old(self)@ && r is None,
                NodeMessage::Predict { .. } => final(self)@ == old(self)@ && r is None,
            },
    {
        match msg {
            NodeMessage::RegisterNode { addr } => {
                self.handle_register_node(addr);
                Option::None
            },
            NodeMessage::UpdateModel { params } => {
                let server_msg = ServerMessage { node_addr: "direct".to_owned(), params };
                self.handle_server_message(server_msg)
            },
            NodeMessage::Train { .. } => Option::None,
            NodeMessage::Predict { .. } => Option::None,
        }
    }

    /// The externally reported registry: every non-sentinel address, in
    /// insertion order, each with the static label `"active"`.
    pub fn handle_get_nodes(&self, _req: GetNodesRequest) -> (r: Vec<NodeStatus>)
        ensures
            r@.len() == non_sentinel(self@.nodes).len(),
            forall|i: int|
                0 <= i < r@.len() ==> #[trigger] r@[i].address@ == non_sentinel(self@.nodes)[i]
                    && r@[i].status@ == "active"@,
    {
        let targets = broadcast_targets(&self.nodes);
        let mut out: Vec<NodeStatus> = Vec::new();
        let mut i: usize = 0;
        while i < targets.len()
            invariant
                i <= targets.len(),
                targets.deep_view() == non_sentinel(self@.nodes),
                targets.deep_view().len() == targets@.len(),
                forall|j: int|
                    0 <= j < targets@.len() ==> targets.deep_view()[j] == targets@[j]@,
                out@.len() == i,
                forall|j: int|
                    0 <= j < i ==> #[trigger] out@[j].address@ == non_sentinel(self@.nodes)[j]
                        && out@[j].status@ == "active"@,
            decreases targets.len() - i,
        {
            let address = targets[i].clone();
            let status = "active".to_owned();
            out.push(NodeStatus { address, status });
            i = i + 1;
        }
        out
    }

    /// The global model's current flattened parameters; no side effect.
    pub fn handle_get_model_params(&self, _req: GetModelParams) -> (r: Vec<i64>)
        ensures
            r@ == self@.model_flat,
    {
        self.model.to_params_vec()
    }

    /// How many contributions the current round has accepted.
    pub fn received_count(&self) -> (r: usize)
        ensures
            r as int == self@.received,
    {
        self.updates_received
    }

    /// How many contributions close a round.
    pub fn expected_count(&self) -> (r: usize)
        ensures
            r as int == self@.expected,
    {
        self.total_nodes
    }

    /// A copy of the round's accumulator, absent while no round is in
    /// flight.
    pub fn accumulator_snapshot(&self) -> (r: Option<Vec<i64>>)
        ensures
            match (r, self@.acc) {
                (Option::Some(v), Option::Some(a)) => v@ == a,
                (Option::None, Option::None) => true,
                _ => false,
            },
    {
        match &self.aggregated_params {
            Option::Some(acc) => Option::Some(copy_vec(acc)),
            Option::None => Option::None,
        }
    }
}

} // verus!
