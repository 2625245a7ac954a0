use extraction_store::json::JsonValue;
use extraction_store::persistence::Repository;
use extraction_store::work::{Work, WorkState};

fn work(content: &str) -> Work {
    Work::new(content, "docs", "vectors", "embedder", &JsonValue::empty_object(), None)
}

#[test]
fn new_work_is_pending() {
    let w = work("c1");
    assert_eq!(w.work_state, WorkState::Pending);
    assert_eq!(w.worker_id, None);
    assert_eq!(w.content_id, "c1");
    assert_eq!(w.repository_id, "docs");
    assert_eq!(w.index_name, "vectors");
    assert_eq!(w.extractor, "embedder");
    assert!(!w.terminal_state());
    let assigned = Work::new("c1", "docs", "vectors", "embedder", &JsonValue::Null, Some("w1"));
    assert_eq!(assigned.worker_id.as_deref(), Some("w1"));
}

#[test]
fn completed_and_failed_are_terminal() {
    let mut w = work("c1");
    w.work_state = WorkState::Completed;
    assert!(w.terminal_state());
    w.work_state = WorkState::Failed;
    assert!(w.terminal_state());
    w.work_state = WorkState::InProgress;
    assert!(!w.terminal_state());
    w.work_state = WorkState::Unknown;
    assert!(!w.terminal_state());
}

#[test]
fn work_is_enqueued_once() {
    let mut store = Repository::new();
    store.insert_work(&work("c1")).unwrap();
    store.insert_work(&work("c1")).unwrap();
    store.insert_work(&work("c2")).unwrap();
    let waiting = store.unallocated_work().unwrap();
    assert_eq!(waiting.len(), 2);
    assert_eq!(waiting[0].id, work("c1").id);
    assert_eq!(waiting[0].state, "Pending");
    assert_eq!(waiting[0].worker_id, None);
    assert_eq!(waiting[1].id, work("c2").id);
}

#[test]
fn assigned_work_is_not_unassigned() {
    let mut store = Repository::new();
    let first = work("c1");
    let second = work("c2");
    store.insert_work(&first).unwrap();
    store.insert_work(&second).unwrap();
    store
        .assign_work(vec![
            (first.id.clone(), "w1".to_string()),
            ("nothing".to_string(), "w1".to_string()),
        ])
        .unwrap();
    let waiting = store.unallocated_work().unwrap();
    assert_eq!(waiting.len(), 1);
    assert_eq!(waiting[0].id, second.id);
    let mine = store.work_for_worker("w1").unwrap();
    assert_eq!(mine.len(), 1);
    assert_eq!(mine[0].id, first.id);
    assert_eq!(mine[0].work_state, WorkState::Pending);
    assert_eq!(mine[0].worker_id.as_deref(), Some("w1"));
    assert!(store.work_for_worker("w2").unwrap().is_empty());
}

#[test]
fn the_last_assignment_stays() {
    let mut store = Repository::new();
    let first = work("c1");
    store.insert_work(&first).unwrap();
    store
        .assign_work(vec![
            (first.id.clone(), "w1".to_string()),
            (first.id.clone(), "w2".to_string()),
        ])
        .unwrap();
    assert!(store.work_for_worker("w1").unwrap().is_empty());
    assert_eq!(store.work_for_worker("w2").unwrap().len(), 1);
    store.assign_work(vec![(first.id.clone(), "w3".to_string())]).unwrap();
    assert!(store.work_for_worker("w2").unwrap().is_empty());
    assert_eq!(store.work_for_worker("w3").unwrap().len(), 1);
}

#[test]
fn completed_work_leaves_the_queues() {
    let mut store = Repository::new();
    let first = work("c1");
    let second = work("c2");
    store.insert_work(&first).unwrap();
    store.insert_work(&second).unwrap();
    store.assign_work(vec![(second.id.clone(), "w1".to_string())]).unwrap();
    store.update_work_state(&first.id, WorkState::Completed).unwrap();
    store.update_work_state(&second.id, WorkState::Completed).unwrap();
    assert!(store.unallocated_work().unwrap().is_empty());
    assert!(store.work_for_worker("w1").unwrap().is_empty());
    store.assign_work(vec![(first.id.clone(), "w1".to_string())]).unwrap();
    assert!(store.work_for_worker("w1").unwrap().is_empty());
    store.insert_work(&first).unwrap();
    assert!(store.unallocated_work().unwrap().is_empty());
}

#[test]
fn state_is_set_whatever_it_was() {
    let mut store = Repository::new();
    let first = work("c1");
    store.insert_work(&first).unwrap();
    store.update_work_state(&first.id, WorkState::InProgress).unwrap();
    assert!(store.unallocated_work().unwrap().is_empty());
    store.update_work_state(&first.id, WorkState::Failed).unwrap();
    assert!(store.unallocated_work().unwrap().is_empty());
    store.update_work_state(&first.id, WorkState::Pending).unwrap();
    assert_eq!(store.unallocated_work().unwrap().len(), 1);
    store.update_work_state("nothing", WorkState::Completed).unwrap();
    assert_eq!(store.unallocated_work().unwrap().len(), 1);
}

#[test]
fn work_is_enqueued_pending_and_unassigned() {
    let mut store = Repository::new();
    let mut assigned =
        Work::new("c1", "docs", "vectors", "embedder", &JsonValue::text("p"), Some("w1"));
    assigned.work_state = WorkState::Completed;
    store.insert_work(&assigned).unwrap();
    assert!(store.work_for_worker("w1").unwrap().is_empty());
    let waiting = store.unallocated_work().unwrap();
    assert_eq!(waiting.len(), 1);
    assert_eq!(waiting[0].id, assigned.id);
    assert_eq!(waiting[0].state, "Pending");
    assert_eq!(waiting[0].worker_id, None);
    assert_eq!(waiting[0].extractor_params.as_str(), Some("p"));
    assert_eq!(waiting[0].content_id, "c1");
    let row = assigned.to_row();
    assert_eq!(row.state, "Completed");
    assert_eq!(row.worker_id.as_deref(), Some("w1"));
}

#[test]
fn work_states_have_names() {
    assert_eq!(WorkState::Unknown.to_string(), "Unknown");
    assert_eq!(WorkState::Pending.to_string(), "Pending");
    assert_eq!(WorkState::InProgress.to_string(), "InProgress");
    assert_eq!(WorkState::Completed.to_string(), "Completed");
    assert_eq!(WorkState::Failed.to_string(), "Failed");
    assert_eq!(WorkState::default(), WorkState::Unknown);
}

#[test]
fn work_states_are_read_from_their_names() {
    for state in [
        WorkState::Unknown,
        WorkState::Pending,
        WorkState::InProgress,
        WorkState::Completed,
        WorkState::Failed,
    ] {
        assert_eq!(WorkState::from_str(&state.to_string()), Some(state));
    }
    assert_eq!(WorkState::from_str("pending"), None);
    assert_eq!(WorkState::from_str(""), None);
}

#[test]
fn a_row_with_an_unreadable_state_is_unknown_work() {
    let mut row = work("c1").to_row();
    assert_eq!(row.state, "Pending");
    row.state = "Sleeping".to_string();
    let read = Work::from(row);
    assert_eq!(read.work_state, WorkState::Unknown);
    let mut row = work("c1").to_row();
    row.state = "Failed".to_string();
    row.worker_id = Some("w1".to_string());
    let read: Work = row.into();
    assert_eq!(read.work_state, WorkState::Failed);
    assert_eq!(read.worker_id.as_deref(), Some("w1"));
    assert_eq!(read.id, work("c1").id);
}
