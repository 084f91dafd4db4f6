use referee::poll::{plan_cycle, PollCursor};
use referee::settle::{
    next_action, pipeline_step, Hyle, HyleNetwork, PipelineAction, PipelineState,
};

#[test]
fn plan_cycle_orders_new_messages_by_timestamp() {
    let ts: Vec<i64> = vec![5, 1, 9, 3];
    assert_eq!(plan_cycle(&ts, 2), vec![3usize, 0, 2]);
    assert_eq!(plan_cycle(&ts, 9), Vec::<usize>::new());
    // equal timestamps both appear
    let ties: Vec<i64> = vec![4, 4];
    assert_eq!(plan_cycle(&ties, 0), vec![0usize, 1]);
}

#[test]
fn watermark_moves_forward_one_message_at_a_time() {
    let mut cur = PollCursor::new(2);
    assert!(!cur.should_process(1));
    assert!(!cur.should_process(2));
    assert!(cur.should_process(3));
    cur.advance(3);
    assert_eq!(cur.watermark, 3);
    assert!(!cur.should_process(3));
    cur.advance(5);
    assert!(cur.watermark > 3);
    // a restart from the persisted watermark reselects nothing old
    let ts: Vec<i64> = vec![1, 3, 5];
    let again = PollCursor::new(cur.watermark);
    assert_eq!(plan_cycle(&ts, again.watermark), Vec::<usize>::new());
}

#[test]
fn the_pipeline_walks_its_steps_in_order() {
    let mut s = PipelineState::Pending;
    let owed = [
        PipelineAction::Publish,
        PipelineAction::Prove,
        PipelineAction::PersistReceipt,
        PipelineAction::VerifyReceipt,
        PipelineAction::Broadcast,
    ];
    for want in owed.iter() {
        assert_eq!(next_action(s), *want);
        s = pipeline_step(s, true);
    }
    assert_eq!(s, PipelineState::Settled);
    assert_eq!(next_action(s), PipelineAction::FinalizeGame);
}

#[test]
fn a_failed_verification_aborts_and_stays_aborted() {
    let mut s = PipelineState::Pending;
    for _ in 0..3 {
        s = pipeline_step(s, true);
    }
    assert_eq!(s, PipelineState::ReceiptStored);
    s = pipeline_step(s, false);
    assert_eq!(s, PipelineState::Aborted);
    assert_eq!(next_action(s), PipelineAction::Nothing);
    s = pipeline_step(s, true);
    assert_eq!(s, PipelineState::Aborted);
}

#[test]
fn the_ledger_client_keeps_its_configuration() {
    let h = Hyle::new(HyleNetwork::Devnet, "/usr/local/bin/hyled");
    assert_eq!(h.network, HyleNetwork::Devnet);
    assert_eq!(h.hyled_path, "/usr/local/bin/hyled");
}
