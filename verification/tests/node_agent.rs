use fedlearn::messages::NodeMessage;
use fedlearn::node::{NodeAction, NodeActor};
use fedlearn::registry::is_sentinel_addr;

fn agent() -> NodeActor {
    NodeActor::new("http://server".to_string(), "http://n1".to_string())
}

#[test]
fn fresh_agent_has_the_standard_zero_model() {
    let node = agent();
    let params = node.params_snapshot();
    assert_eq!(params.len(), 769);
    assert!(params.iter().all(|&p| p == 0));
}

#[test]
fn registration_message_carries_the_node_address() {
    let node = agent();
    match node.registration_message() {
        NodeMessage::RegisterNode { addr } => assert_eq!(addr, "http://n1"),
        _ => panic!("expected a registration announcement"),
    }
}

#[test]
fn train_accepts_a_matching_batch() {
    let mut node = agent();
    let msg = NodeMessage::Train { data: vec![1; 20], labels: vec![1; 2] };
    let action = node.handle_message(&msg).unwrap();
    assert!(matches!(action, NodeAction::TrainLocally { samples: 2, epochs: 10 }));
}

#[test]
fn train_rejects_a_mismatched_batch() {
    let mut node = agent();
    let before = node.params_snapshot();
    let msg = NodeMessage::Train { data: vec![1; 19], labels: vec![1; 2] };
    assert!(node.handle_message(&msg).is_err());
    assert_eq!(node.params_snapshot(), before);
}

#[test]
fn train_accepts_an_empty_batch() {
    let mut node = agent();
    let msg = NodeMessage::Train { data: Vec::new(), labels: Vec::new() };
    let action = node.handle_message(&msg).unwrap();
    assert!(matches!(action, NodeAction::TrainLocally { samples: 0, epochs: 10 }));
}

#[test]
fn predict_accepts_whole_rows_only() {
    let mut node = agent();
    let ok = node.handle_message(&NodeMessage::Predict { data: vec![0; 30] }).unwrap();
    assert!(matches!(ok, NodeAction::ComputeForward { batch_size: 3 }));
    assert!(node.handle_message(&NodeMessage::Predict { data: vec![0; 7] }).is_err());
}

#[test]
fn inbound_global_update_is_applied_tolerantly() {
    let mut node = agent();
    let action = node
        .handle_message(&NodeMessage::UpdateModel { params: vec![9, 8, 7] })
        .unwrap();
    assert!(matches!(action, NodeAction::ModelUpdated));
    let params = node.params_snapshot();
    assert_eq!(&params[..3], &[9, 8, 7]);
    assert!(params[3..].iter().all(|&p| p == 0));
}

#[test]
fn registration_is_ignored_at_a_node() {
    let mut node = agent();
    let action = node
        .handle_message(&NodeMessage::RegisterNode { addr: "x".to_string() })
        .unwrap();
    assert!(matches!(action, NodeAction::Ignored));
}

#[test]
fn finish_training_applies_and_reports_the_new_state() {
    let mut node = agent();
    let trained = vec![5; 769];
    match node.finish_training(&trained) {
        NodeMessage::UpdateModel { params } => assert_eq!(params, trained),
        _ => panic!("expected an update message"),
    }
    assert_eq!(node.params_snapshot(), trained);
}

#[test]
fn sentinel_addresses_are_recognized() {
    assert!(is_sentinel_addr(&"ping".to_string()));
    assert!(is_sentinel_addr(&"direct".to_string()));
    assert!(is_sentinel_addr(&String::new()));
    assert!(!is_sentinel_addr(&"http://n1".to_string()));
}
