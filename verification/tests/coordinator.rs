use file_processor::{process_files, FileProcessingThread, ThreadState};

fn names(list: &[&str]) -> Vec<String> {
    list.iter().map(|name| String::from(*name)).collect()
}

fn fails_for_b(file: &String) -> Result<(), String> {
    if file == "B" {
        Err(String::from("B failed"))
    } else {
        Ok(())
    }
}

fn always_ok(_file: &String) -> Result<(), String> {
    Ok(())
}

fn fails_with_name(file: &String) -> Result<(), String> {
    Err(format!("cannot read {}", file))
}

#[test]
fn new_coordinator_is_uninitialized_and_empty() {
    let coordinator = FileProcessingThread::new();
    assert_eq!(coordinator.get_state(), ThreadState::Uninitialized);
    assert!(coordinator.is_in_state(ThreadState::Uninitialized));
    assert!(!coordinator.is_in_state(ThreadState::Initialized));
    assert!(!coordinator.is_in_state(ThreadState::Running));
    assert!(!coordinator.is_in_state(ThreadState::Done));
    assert_eq!(coordinator.get_results(), Vec::<Result<(), String>>::new());
}

#[test]
fn set_file_list_initializes() {
    let mut coordinator = FileProcessingThread::new();
    coordinator.set_file_list(names(&["A", "B"]));
    assert_eq!(coordinator.get_state(), ThreadState::Initialized);
    assert!(coordinator.is_in_state(ThreadState::Initialized));
    assert!(coordinator.get_results().is_empty());
}

#[test]
fn set_file_list_replaces_the_staged_list() {
    let mut coordinator = FileProcessingThread::new();
    coordinator.set_file_list(names(&["old-1", "old-2", "old-3"]));
    coordinator.set_file_list(names(&["new"]));
    assert_eq!(coordinator.get_state(), ThreadState::Initialized);
    let batch = coordinator.run();
    assert_eq!(batch, names(&["new"]));
}

#[test]
fn run_moves_to_running_and_hands_out_the_files_in_order() {
    let mut coordinator = FileProcessingThread::new();
    coordinator.set_file_list(names(&["c", "a", "b", "a"]));
    let batch = coordinator.run();
    assert_eq!(batch, names(&["c", "a", "b", "a"]));
    assert_eq!(coordinator.get_state(), ThreadState::Running);
    assert!(coordinator.is_in_state(ThreadState::Running));
}

#[test]
fn snapshot_is_not_touched_by_later_staging() {
    let mut coordinator = FileProcessingThread::new();
    coordinator.set_file_list(names(&["A", "B"]));
    let batch = coordinator.run();
    coordinator.set_file_list(names(&["X"]));
    assert_eq!(batch, names(&["A", "B"]));
    assert_eq!(coordinator.get_state(), ThreadState::Initialized);
}

#[test]
fn publish_results_moves_to_done_with_the_outcomes() {
    let mut coordinator = FileProcessingThread::new();
    coordinator.set_file_list(names(&["A"]));
    let _batch = coordinator.run();
    coordinator.publish_results(vec![Err(String::from("no luck"))]);
    assert_eq!(coordinator.get_state(), ThreadState::Done);
    assert_eq!(coordinator.get_results(), vec![Err(String::from("no luck"))]);
}

#[test]
fn one_failure_among_three_keeps_its_place() {
    let mut coordinator = FileProcessingThread::new();
    coordinator.set_file_list(names(&["A", "B", "C"]));
    let batch = coordinator.run();
    let outcomes = process_files(&batch, fails_for_b);
    coordinator.publish_results(outcomes);
    assert_eq!(coordinator.get_state(), ThreadState::Done);
    assert_eq!(
        coordinator.get_results(),
        vec![Ok(()), Err(String::from("B failed")), Ok(())]
    );
}

#[test]
fn empty_file_list_runs_to_done_with_no_outcomes() {
    let mut coordinator = FileProcessingThread::new();
    coordinator.set_file_list(Vec::new());
    assert_eq!(coordinator.get_state(), ThreadState::Initialized);
    let batch = coordinator.run();
    assert!(batch.is_empty());
    let outcomes = process_files(&batch, fails_for_b);
    assert!(outcomes.is_empty());
    coordinator.publish_results(outcomes);
    assert_eq!(coordinator.get_state(), ThreadState::Done);
    assert_eq!(coordinator.get_results(), Vec::<Result<(), String>>::new());
}

#[test]
fn results_are_empty_while_running_and_real_once_done() {
    let mut coordinator = FileProcessingThread::new();
    coordinator.set_file_list(names(&["A"]));
    let batch = coordinator.run();
    assert_eq!(coordinator.get_state(), ThreadState::Running);
    assert_eq!(coordinator.get_results(), Vec::<Result<(), String>>::new());
    let outcomes = process_files(&batch, fails_with_name);
    assert_eq!(coordinator.get_results(), Vec::<Result<(), String>>::new());
    coordinator.publish_results(outcomes);
    assert_eq!(coordinator.get_state(), ThreadState::Done);
    assert_eq!(coordinator.get_results(), vec![Err(String::from("cannot read A"))]);
}

#[test]
fn results_come_back_one_per_file_in_order() {
    let files: Vec<String> = (0..257).map(|i| format!("file-{}", i)).collect();
    let mut coordinator = FileProcessingThread::new();
    coordinator.set_file_list(files.clone());
    let batch = coordinator.run();
    coordinator.publish_results(process_files(&batch, fails_with_name));
    let results = coordinator.get_results();
    assert_eq!(results.len(), 257);
    for (i, result) in results.iter().enumerate() {
        assert_eq!(result, &Err(format!("cannot read file-{}", i)));
    }
}

#[test]
fn a_poller_sees_the_states_in_order() {
    let mut seen = Vec::new();
    let mut coordinator = FileProcessingThread::new();
    seen.push(coordinator.get_state());
    coordinator.set_file_list(names(&["A", "B"]));
    seen.push(coordinator.get_state());
    seen.push(coordinator.get_state());
    let batch = coordinator.run();
    seen.push(coordinator.get_state());
    let outcomes = process_files(&batch, always_ok);
    seen.push(coordinator.get_state());
    coordinator.publish_results(outcomes);
    seen.push(coordinator.get_state());
    seen.push(coordinator.get_state());
    assert_eq!(
        seen,
        vec![
            ThreadState::Uninitialized,
            ThreadState::Initialized,
            ThreadState::Initialized,
            ThreadState::Running,
            ThreadState::Running,
            ThreadState::Done,
            ThreadState::Done,
        ]
    );
}

#[test]
fn staging_after_done_goes_back_to_initialized_and_keeps_the_outcomes() {
    let mut coordinator = FileProcessingThread::new();
    coordinator.set_file_list(names(&["A"]));
    let batch = coordinator.run();
    coordinator.publish_results(process_files(&batch, fails_with_name));
    coordinator.set_file_list(names(&["B", "C"]));
    assert_eq!(coordinator.get_state(), ThreadState::Initialized);
    assert_eq!(coordinator.get_results(), vec![Err(String::from("cannot read A"))]);
}

#[test]
fn reading_twice_gives_the_same() {
    let mut coordinator = FileProcessingThread::new();
    assert_eq!(coordinator.get_state(), coordinator.get_state());
    assert_eq!(coordinator.get_results(), coordinator.get_results());
    coordinator.set_file_list(names(&["A", "B", "C"]));
    assert_eq!(coordinator.get_state(), coordinator.get_state());
    let batch = coordinator.run();
    assert_eq!(coordinator.get_state(), coordinator.get_state());
    assert_eq!(coordinator.get_results(), coordinator.get_results());
    coordinator.publish_results(process_files(&batch, fails_for_b));
    let first = coordinator.get_results();
    let second = coordinator.get_results();
    let third = coordinator.get_results();
    assert_eq!(first, second);
    assert_eq!(second, third);
    assert_eq!(first, vec![Ok(()), Err(String::from("B failed")), Ok(())]);
    assert_eq!(coordinator.get_state(), ThreadState::Done);
    assert_eq!(coordinator.get_state(), ThreadState::Done);
}

#[test]
fn second_batch_holds_nothing_of_the_first() {
    let first_files: Vec<String> = (0..3000).map(|i| format!("first-{}", i)).collect();
    let second_files: Vec<String> = (0..2000).map(|i| format!("second-{}", i)).collect();

    let mut coordinator = FileProcessingThread::new();
    coordinator.set_file_list(first_files);
    let batch = coordinator.run();
    coordinator.publish_results(process_files(&batch, fails_with_name));
    assert_eq!(coordinator.get_results().len(), 3000);

    coordinator = FileProcessingThread::new();
    assert_eq!(coordinator.get_state(), ThreadState::Uninitialized);
    assert!(coordinator.get_results().is_empty());
    coordinator.set_file_list(second_files);
    assert!(coordinator.get_results().is_empty());
    let batch = coordinator.run();
    assert!(coordinator.get_results().is_empty());
    coordinator.publish_results(process_files(&batch, fails_with_name));

    let results = coordinator.get_results();
    assert_eq!(results.len(), 2000);
    for (i, result) in results.iter().enumerate() {
        assert_eq!(result, &Err(format!("cannot read second-{}", i)));
    }
}
