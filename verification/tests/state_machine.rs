use rbx_studio_mcp::dispatch::conclude_dispatch;
use rbx_studio_mcp::dispatch::AwaitOutcome;
use rbx_studio_mcp::dispatch::BrokerError;
use rbx_studio_mcp::dispatch::DispatchConclusion;
use rbx_studio_mcp::state_manager::Effect;
use rbx_studio_mcp::state_manager::StateManager;
use rbx_studio_mcp::state_manager::StateManagerCommand;
use rbx_studio_mcp::tool_args::ToolArgumentValues;
use rbx_studio_mcp::tool_args::ToolArguments;
use rbx_studio_mcp::tool_result::ContentItem;
use rbx_studio_mcp::tool_result::ToolResult;

fn task(command: &str, id: u128) -> ToolArguments {
    ToolArguments {
        args: ToolArgumentValues::RunCommand { command: command.to_string() },
        id: Some(id),
    }
}

fn text_result(text: &str) -> ToolResult {
    ToolResult {
        content: vec![ContentItem::Text { text: text.to_string() }],
        is_error: None,
    }
}

#[test]
fn s1_happy_path() {
    let mut sm = StateManager::new();
    let (t, id) = ToolArguments::new_with_id(ToolArgumentValues::RunCommand {
        command: "print(1)".to_string(),
    });
    // The client dispatches; no poller is parked, so nothing is sent yet.
    let effects = sm.handle_dispatch(t.clone(), 1);
    assert!(effects.is_empty());
    // The plugin polls and receives the task, with the generated id inside.
    let effects = sm.handle_poll(100);
    assert_eq!(effects, vec![Effect::DeliverTask { ch: 100, task: t.clone() }]);
    let delivered = match &effects[0] {
        Effect::DeliverTask { task, .. } => task.clone(),
        _ => unreachable!(),
    };
    assert_eq!(delivered.id, Some(id));
    let body = delivered.to_luau_string();
    assert!(body.contains(&uuid::Uuid::from_u128(id).hyphenated().to_string()));
    assert!(body.contains("RunCommand = { command = [[print(1)]] }"));
    // The plugin submits under that id; the dispatcher receives it verbatim.
    let result = text_result("1");
    let effects = sm.handle_submit(id, result.clone());
    assert_eq!(effects, vec![Effect::DeliverResult { ch: 1, result: result.clone() }]);
    let concluded = conclude_dispatch(id, AwaitOutcome::Received { result: result.clone() });
    assert_eq!(concluded, DispatchConclusion::Done { result });
}

#[test]
fn s2_queue_behind_poll() {
    let mut sm = StateManager::new();
    let t = ToolArguments {
        args: ToolArgumentValues::InsertModel { query: "tree".to_string() },
        id: Some(7),
    };
    // Dispatched with no poller parked: queued, nothing delivered.
    assert!(sm.handle_dispatch(t.clone(), 1).is_empty());
    // The poll drains the queue.
    let effects = sm.handle_poll(100);
    assert_eq!(effects, vec![Effect::DeliverTask { ch: 100, task: t }]);
    // The submit resolves the single pending entry...
    let result = text_result("done");
    let effects = sm.handle_submit(7, result.clone());
    assert_eq!(effects, vec![Effect::DeliverResult { ch: 1, result }]);
    // ...after which the table is empty: a second submit is stale.
    assert!(sm.handle_submit(7, text_result("again")).is_empty());
}

#[test]
fn s3_immediate_handoff() {
    let mut sm = StateManager::new();
    // The plugin polls first and parks.
    assert!(sm.handle_poll(100).is_empty());
    // The dispatch goes straight to the parked poller; the queue stays
    // empty, as the next poll shows by parking instead of delivering.
    let t = task("print(1)", 9);
    let effects = sm.handle_dispatch(t.clone(), 1);
    assert_eq!(effects, vec![Effect::HandToWaiter { ch: 100, task: t }]);
    assert!(sm.handle_poll(101).is_empty());
}

#[test]
fn s4_tool_timeout() {
    let mut sm = StateManager::new();
    let t = task("while true do end", 11);
    assert!(sm.handle_dispatch(t.clone(), 1).is_empty());
    let effects = sm.handle_poll(100);
    assert_eq!(effects, vec![Effect::DeliverTask { ch: 100, task: t }]);
    // The plugin never submits; the dispatcher's deadline elapses.
    let concluded = conclude_dispatch(11, AwaitOutcome::TimedOut);
    match concluded {
        DispatchConclusion::TimedOutCleanup { task_id, error } => {
            assert_eq!(task_id, 11);
            assert_eq!(error.message, "Tool execution timed out after 30s.");
            assert!(error.message.contains("timed out after 30s"));
        }
        other => panic!("expected a timeout cleanup, got {:?}", other),
    }
    sm.handle_cleanup(11);
    // A submission arriving later is stale: dropped without effects.
    assert!(sm.handle_submit(11, text_result("late")).is_empty());
}

#[test]
fn s6_superseded_poll() {
    let mut sm = StateManager::new();
    // Plugin A polls and parks.
    assert!(sm.handle_poll(100).is_empty());
    // Plugin B polls: A is cancelled (it answers 204), B becomes the waiter.
    let effects = sm.handle_poll(200);
    assert_eq!(effects, vec![Effect::CancelPoller { ch: 100 }]);
    let t = task("print(1)", 3);
    let effects = sm.handle_dispatch(t.clone(), 1);
    assert_eq!(effects, vec![Effect::HandToWaiter { ch: 200, task: t }]);
}

#[test]
fn correlation_is_per_id() {
    let mut sm = StateManager::new();
    let a = task("a", 1);
    let b = task("b", 2);
    assert!(sm.handle_dispatch(a, 10).is_empty());
    assert!(sm.handle_dispatch(b, 20).is_empty());
    // Results arrive out of dispatch order; each goes to its own waiter.
    let rb = text_result("b done");
    assert_eq!(
        sm.handle_submit(2, rb.clone()),
        vec![Effect::DeliverResult { ch: 20, result: rb }]
    );
    let ra = text_result("a done");
    assert_eq!(
        sm.handle_submit(1, ra.clone()),
        vec![Effect::DeliverResult { ch: 10, result: ra }]
    );
}

#[test]
fn at_most_once_delivery() {
    let mut sm = StateManager::new();
    let a = task("a", 1);
    let b = task("b", 2);
    assert!(sm.handle_dispatch(a.clone(), 10).is_empty());
    assert!(sm.handle_dispatch(b.clone(), 20).is_empty());
    let first = sm.handle_poll(100);
    let second = sm.handle_poll(101);
    assert_eq!(first, vec![Effect::DeliverTask { ch: 100, task: a }]);
    assert_eq!(second, vec![Effect::DeliverTask { ch: 101, task: b }]);
    // Nothing is handed out twice: the third poll parks.
    assert!(sm.handle_poll(102).is_empty());
}

#[test]
fn fifo_order_without_waiter() {
    let mut sm = StateManager::new();
    let ids: Vec<u128> = vec![5, 6, 7, 8];
    for &id in &ids {
        assert!(sm.handle_dispatch(task("t", id), id as u64).is_empty());
    }
    for &id in &ids {
        let effects = sm.handle_poll(100);
        match &effects[..] {
            [Effect::DeliverTask { task, .. }] => assert_eq!(task.id, Some(id)),
            other => panic!("expected one delivery, got {:?}", other),
        }
    }
}

#[test]
fn at_most_one_result_per_dispatcher() {
    let mut sm = StateManager::new();
    assert!(sm.handle_dispatch(task("t", 1), 10).is_empty());
    let r = text_result("ok");
    assert_eq!(sm.handle_submit(1, r.clone()).len(), 1);
    // The entry was removed with the first submission.
    assert!(sm.handle_submit(1, r).is_empty());
}

#[test]
fn shutdown_clears_all_state() {
    let mut sm = StateManager::new();
    assert!(sm.handle_dispatch(task("t", 1), 10).is_empty());
    assert!(sm.handle_poll(100).len() == 1);
    sm.shutdown();
    // Nothing is tracked any more: a submit for the old id is stale.
    assert!(sm.handle_submit(1, text_result("late")).is_empty());
}

#[test]
fn handle_command_matches_the_individual_handlers() {
    let mut sm = StateManager::new();
    let t = task("print(1)", 21);
    let effects = sm.handle_command(StateManagerCommand::DispatchTask {
        args: t.clone(),
        response_ch: 1,
    });
    assert!(effects.is_empty());
    let effects = sm.handle_command(StateManagerCommand::PollForTask { response_ch: 100 });
    assert_eq!(effects, vec![Effect::DeliverTask { ch: 100, task: t }]);
    let r = text_result("1");
    let effects = sm.handle_command(StateManagerCommand::SubmitTaskResult {
        task_id: 21,
        result: r.clone(),
    });
    assert_eq!(effects, vec![Effect::DeliverResult { ch: 1, result: r }]);
    let effects = sm.handle_command(StateManagerCommand::CleanupTaskOnTimeout { task_id: 21 });
    assert!(effects.is_empty());
}

#[test]
fn failed_handoff_requeues_the_task() {
    let mut sm = StateManager::new();
    // A poller parks, then proves dead: its hand-off fails and the runtime
    // puts the committed task back.
    assert!(sm.handle_poll(100).is_empty());
    let t = task("print(1)", 13);
    let effects = sm.handle_dispatch(t.clone(), 1);
    assert_eq!(effects, vec![Effect::HandToWaiter { ch: 100, task: t.clone() }]);
    sm.requeue_undelivered(t.clone());
    // The next live poller receives the same task, exactly once.
    let effects = sm.handle_poll(101);
    assert_eq!(effects, vec![Effect::DeliverTask { ch: 101, task: t }]);
    assert!(sm.handle_poll(102).is_empty());
    // Its result still reaches the original dispatcher.
    let r = text_result("1");
    assert_eq!(
        sm.handle_submit(13, r.clone()),
        vec![Effect::DeliverResult { ch: 1, result: r }]
    );
}

#[test]
fn broker_error_messages() {
    assert_eq!(BrokerError::broker_unavailable().message, "StateManager unavailable.");
    match conclude_dispatch(0, AwaitOutcome::ChannelClosed) {
        DispatchConclusion::Failed { error } => {
            assert_eq!(error.message, "Oneshot channel dropped.")
        }
        other => panic!("expected a failure, got {:?}", other),
    }
}
