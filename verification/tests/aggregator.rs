use fedlearn::messages::{GetModelParams, GetNodesRequest, NodeMessage, ServerMessage};
use fedlearn::server::CentralServer;

fn update(addr: &str, params: Vec<i64>) -> ServerMessage {
    ServerMessage { node_addr: addr.to_string(), params }
}

#[test]
fn fresh_server_has_no_round_in_flight() {
    let server = CentralServer::new(2);
    assert_eq!(server.received_count(), 0);
    assert_eq!(server.expected_count(), 2);
    assert!(server.accumulator_snapshot().is_none());
    let params = server.handle_get_model_params(GetModelParams);
    assert_eq!(params.len(), 769);
    assert!(params.iter().all(|&p| p == 0));
}

#[test]
fn closure_exactly_on_the_expected_update() {
    let mut server = CentralServer::new(3);
    assert!(server.handle_server_message(update("n1", vec![1])).is_none());
    assert_eq!(server.received_count(), 1);
    assert!(server.handle_server_message(update("n2", vec![1])).is_none());
    assert_eq!(server.received_count(), 2);
    let broadcast = server.handle_server_message(update("n3", vec![1]));
    assert!(broadcast.is_some());
    assert_eq!(server.received_count(), 0);
}

#[test]
fn averaging_sums_then_divides_by_expected_count() {
    let mut server = CentralServer::new(2);
    assert!(server.handle_server_message(update("n1", vec![2, 4])).is_none());
    let broadcast = server.handle_server_message(update("n2", vec![4, 6])).unwrap();
    assert_eq!(broadcast.params, vec![3, 5]);
    // The average is loaded into the global model's first positions.
    let model = server.handle_get_model_params(GetModelParams);
    assert_eq!(&model[..2], &[3, 5]);
    assert!(model[2..].iter().all(|&p| p == 0));
}

#[test]
fn averaging_rounds_toward_zero() {
    let mut server = CentralServer::new(2);
    server.handle_server_message(update("n1", vec![-3, 7]));
    let broadcast = server.handle_server_message(update("n2", vec![-4, 0])).unwrap();
    assert_eq!(broadcast.params, vec![-3, 3]);
}

#[test]
fn duplicate_registration_keeps_one_entry() {
    let mut server = CentralServer::new(2);
    server.handle_node_message(NodeMessage::RegisterNode { addr: "n1".to_string() });
    server.handle_node_message(NodeMessage::RegisterNode { addr: "n1".to_string() });
    let nodes = server.handle_get_nodes(GetNodesRequest);
    assert_eq!(nodes.len(), 1);
    assert_eq!(nodes[0].address, "n1");
    assert_eq!(nodes[0].status, "active");
}

#[test]
fn repeated_sender_still_counts_every_contribution() {
    let mut server = CentralServer::new(2);
    assert!(server.handle_server_message(update("n1", vec![2])).is_none());
    let broadcast = server.handle_server_message(update("n1", vec![4])).unwrap();
    assert_eq!(broadcast.params, vec![3]);
    let nodes = server.handle_get_nodes(GetNodesRequest);
    assert_eq!(nodes.len(), 1);
}

#[test]
fn sentinels_never_listed_nor_broadcast_targets() {
    let mut server = CentralServer::new(1);
    server.handle_node_message(NodeMessage::RegisterNode { addr: "ping".to_string() });
    server.handle_node_message(NodeMessage::RegisterNode { addr: "direct".to_string() });
    server.handle_node_message(NodeMessage::RegisterNode { addr: String::new() });
    server.handle_node_message(NodeMessage::RegisterNode { addr: "n1".to_string() });
    let nodes = server.handle_get_nodes(GetNodesRequest);
    assert_eq!(nodes.len(), 1);
    assert_eq!(nodes[0].address, "n1");
    // A round closed by an update from a fresh sender broadcasts to the
    // non-sentinel addresses only, in registry order.
    let broadcast = server.handle_server_message(update("n2", vec![8])).unwrap();
    assert_eq!(broadcast.targets, vec!["n1".to_string(), "n2".to_string()]);
}

#[test]
fn updates_through_the_message_endpoint_come_from_the_direct_sentinel() {
    let mut server = CentralServer::new(2);
    assert!(server
        .handle_node_message(NodeMessage::UpdateModel { params: vec![10] })
        .is_none());
    let broadcast = server
        .handle_node_message(NodeMessage::UpdateModel { params: vec![20] })
        .unwrap();
    assert_eq!(broadcast.params, vec![15]);
    // "direct" was registered internally but is excluded everywhere.
    assert!(server.handle_get_nodes(GetNodesRequest).is_empty());
    assert!(broadcast.targets.is_empty());
}

#[test]
fn mismatched_lengths_accumulate_over_the_shorter_only() {
    let mut server = CentralServer::new(3);
    server.handle_server_message(update("n1", vec![1, 1, 1]));
    server.handle_server_message(update("n2", vec![5, 5]));
    assert_eq!(server.accumulator_snapshot(), Some(vec![6, 6, 1]));
}

#[test]
fn post_closure_reset_seeds_a_fresh_accumulator() {
    let mut server = CentralServer::new(2);
    server.handle_server_message(update("n1", vec![2, 4]));
    assert!(server.handle_server_message(update("n2", vec![4, 6])).is_some());
    assert_eq!(server.received_count(), 0);
    assert!(server.accumulator_snapshot().is_none());
    assert!(server.handle_server_message(update("n1", vec![7, 8])).is_none());
    assert_eq!(server.accumulator_snapshot(), Some(vec![7, 8]));
    assert_eq!(server.received_count(), 1);
}

#[test]
fn first_update_seeds_the_accumulator_unchanged() {
    let mut server = CentralServer::new(2);
    server.handle_server_message(update("n1", vec![9, -9, 0]));
    assert_eq!(server.accumulator_snapshot(), Some(vec![9, -9, 0]));
}

#[test]
fn train_and_predict_are_ignored_at_the_aggregator() {
    let mut server = CentralServer::new(2);
    let r1 = server.handle_node_message(NodeMessage::Train { data: vec![1], labels: vec![2] });
    let r2 = server.handle_node_message(NodeMessage::Predict { data: vec![1] });
    assert!(r1.is_none());
    assert!(r2.is_none());
    assert_eq!(server.received_count(), 0);
    assert!(server.handle_get_nodes(GetNodesRequest).is_empty());
}
