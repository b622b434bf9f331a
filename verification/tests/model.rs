use annatomic::corpus::Corpus;
use annatomic::errors::AppError;
use annatomic::events::UpdateEvent;
use annatomic::jobs::{JobAction, JobExecutor, JobPayload};
use annatomic::make_whitespace_visible;
use annatomic::messages::Notifier;
use annatomic::shutdown::{shutdown_step, ShutdownPhase};
use annatomic::undo::UndoHistory;
use annatomic::views::{CorpusListView, DemoView, MainView};
use annatomic::AnnatomicArgs;

fn label_event(node: &str, value: &str) -> UpdateEvent {
    UpdateEvent::AddNodeLabel {
        node_name: node.to_owned(),
        anno_ns: "annis".to_owned(),
        anno_name: "doc".to_owned(),
        anno_value: value.to_owned(),
    }
}

#[test]
fn whitespace_becomes_visible() {
    let input: Vec<char> = "a b\nc".chars().collect();
    let expected: Vec<char> = vec!['a', '\u{2423}', 'b', '\u{21B5}', 'c'];
    assert_eq!(expected, make_whitespace_visible(&input));
}

#[test]
fn whitespace_visible_leaves_other_text_alone() {
    let input: Vec<char> = "plain".chars().collect();
    assert_eq!(input.clone(), make_whitespace_visible(&input));
    let empty: Vec<char> = Vec::new();
    assert_eq!(empty.clone(), make_whitespace_visible(&empty));
}

#[test]
fn args_default_is_not_dev() {
    let args = AnnatomicArgs::default();
    assert!(!args.dev);
}

#[test]
fn corpus_diff_extension_and_clearing() {
    let mut c = Corpus::new("a".to_owned(), "/tmp/a".to_owned());
    assert!(c.diff_to_last_save.is_empty());
    let batch = vec![label_event("a/doc", "one"), label_event("a/doc", "two")];
    c.extend_diff(&batch);
    assert_eq!(batch, c.diff_to_last_save);
    c.extend_diff(&vec![label_event("a/doc", "three")]);
    assert_eq!(3, c.diff_to_last_save.len());
    c.clear_diff();
    assert!(c.diff_to_last_save.is_empty());
    assert_eq!("a", c.name);
}

#[test]
fn fresh_history_offers_no_undo() {
    let mut h = UndoHistory::new(10);
    assert!(!h.has_undo());
    assert!(!h.has_redo());
    let c = Corpus::new("a".to_owned(), "/tmp/a".to_owned());
    h.record(&c);
    // the single seeded snapshot describes the present state: nothing to undo
    assert!(!h.has_undo());
    assert!(!h.has_redo());
    assert!(h.undo().is_none());
    assert!(h.redo().is_none());
}

#[test]
fn undo_then_redo_round_trip_on_history() {
    let mut h = UndoHistory::new(10);
    let mut c = Corpus::new("a".to_owned(), "/tmp/a".to_owned());
    h.record(&c);
    c.extend_diff(&vec![label_event("a/doc", "one")]);
    h.record(&c);
    assert!(h.has_undo());
    let back = h.undo().expect("one older snapshot");
    assert!(back.diff_to_last_save.is_empty());
    assert!(h.has_redo());
    let forth = h.redo().expect("one newer snapshot");
    assert_eq!(c, forth);
    assert!(!h.has_redo());
}

#[test]
fn history_bound_evicts_oldest_snapshot() {
    let mut h = UndoHistory::new(3);
    let mut c = Corpus::new("a".to_owned(), "/tmp/a".to_owned());
    h.record(&c);
    for i in 0..3 {
        c.extend_diff(&vec![label_event("a/doc", &format!("v{i}"))]);
        h.record(&c);
    }
    // bound 3: the seed snapshot and the first edit were evicted
    let mut undos = 0;
    while h.has_undo() {
        h.undo();
        undos += 1;
    }
    assert_eq!(2, undos);
}

#[test]
fn recording_discards_redo_tail() {
    let mut h = UndoHistory::new(10);
    let mut c = Corpus::new("a".to_owned(), "/tmp/a".to_owned());
    h.record(&c);
    c.extend_diff(&vec![label_event("a/doc", "one")]);
    h.record(&c);
    h.undo().expect("snapshot before the edit");
    assert!(h.has_redo());
    let mut c2 = Corpus::new("a".to_owned(), "/tmp/a".to_owned());
    c2.extend_diff(&vec![label_event("a/doc", "other")]);
    h.record(&c2);
    // a new edit after an undo: the undone future is gone
    assert!(!h.has_redo());
    assert!(h.has_undo());
    let back = h.undo().expect("the seed snapshot");
    assert!(back.diff_to_last_save.is_empty());
}

#[test]
fn job_delivered_exactly_once() {
    let mut jobs = JobExecutor::new();
    let title = "Updating corpus".to_owned();
    jobs.schedule(
        title.clone(),
        JobAction::RefreshStructure { location: "/tmp/a".to_owned() },
    );
    assert!(jobs.has_active_job_with_title(&title));
    assert!(jobs.has_running_jobs());

    // a drain before the result is delivered hands nothing over
    let out = jobs.drain();
    assert!(out.failures.is_empty());
    assert!(out.callbacks.is_empty());
    assert!(out.jobs_running);

    let taken = jobs.take_scheduled();
    assert_eq!(1, taken.len());
    assert_eq!(title, taken[0].0);
    // the title stays registered as running until the result arrives
    assert!(jobs.has_active_job_with_title(&title));

    jobs.deliver_success(&title, JobPayload::RefreshedStructure);
    assert!(!jobs.has_active_job_with_title(&title));
    assert!(!jobs.has_running_jobs());

    // exactly one delivery: one success callback, no failure report
    let out = jobs.drain();
    assert!(out.failures.is_empty());
    assert_eq!(1, out.callbacks.len());
    assert_eq!(title, out.callbacks[0].0);
    assert!(!out.jobs_running);

    // and never a second one
    let out = jobs.drain();
    assert!(out.failures.is_empty());
    assert!(out.callbacks.is_empty());
}

#[test]
fn failed_job_reported_exactly_once() {
    let mut jobs = JobExecutor::new();
    let title = "Updating corpus".to_owned();
    jobs.schedule(
        title.clone(),
        JobAction::RefreshStructure { location: "/tmp/missing".to_owned() },
    );
    let _taken = jobs.take_scheduled();
    jobs.deliver_failure(
        &title,
        AppError::Graph { message: "no such corpus".to_owned() },
    );
    assert!(!jobs.has_running_jobs());
    let out = jobs.drain();
    assert_eq!(1, out.failures.len());
    assert!(out.callbacks.is_empty());
    let out = jobs.drain();
    assert!(out.failures.is_empty());
    assert!(out.callbacks.is_empty());
}

#[test]
fn progress_message_slot_is_shared() {
    let mut jobs = JobExecutor::new();
    jobs.schedule(
        "Updating corpus".to_owned(),
        JobAction::RefreshStructure { location: "/tmp/a".to_owned() },
    );
    let taken = jobs.take_scheduled();
    let job = &taken[0].1;
    assert!(job.current_message().is_none());
    job.update_message("Applying updates");
    let shared = job.share();
    assert_eq!(Some("Applying updates".to_owned()), shared.current_message());
}

#[test]
fn notifier_queues_and_hands_out_messages() {
    let mut n = Notifier::new();
    assert!(n.is_empty());
    n.report_error(&AppError::MissingLocation { name: "a".to_owned() });
    n.report_result(&Ok(()));
    n.report_result(&Err(AppError::Graph { message: "boom".to_owned() }));
    assert!(!n.is_empty());
    let msgs = n.take_messages();
    assert_eq!(
        vec!["Missing location for corpus a".to_owned(), "boom".to_owned()],
        msgs
    );
    assert!(n.is_empty());
}

#[test]
fn error_messages_are_exact() {
    let e = AppError::MissingLocation { name: "example".to_owned() };
    assert_eq!("Missing location for corpus example", e.message_text());
    let g = AppError::Graph { message: "missing file".to_owned() };
    assert_eq!("missing file", g.message_text());
}

#[test]
fn shutdown_waits_for_pending_work() {
    // closing with pending edits: the close is cancelled and the edits
    // are flushed first
    let step = shutdown_step(&ShutdownPhase::NotRequested, true, true, true);
    assert_eq!(ShutdownPhase::Requested, step.phase);
    assert!(step.cancel_close);
    assert!(step.flush_pending_edits);
    assert!(!step.close_now);

    // the exit stays blocked while jobs run
    let step = shutdown_step(&ShutdownPhase::Requested, false, false, true);
    assert_eq!(ShutdownPhase::Requested, step.phase);
    assert!(!step.close_now);

    // once nothing runs any more, the application may close
    let step = shutdown_step(&ShutdownPhase::Requested, false, false, false);
    assert_eq!(ShutdownPhase::SafeToClose, step.phase);
    assert!(step.close_now);

    // closing with nothing pending is safe at once
    let step = shutdown_step(&ShutdownPhase::NotRequested, true, false, false);
    assert_eq!(ShutdownPhase::SafeToClose, step.phase);

    // and that phase is final
    let step = shutdown_step(&ShutdownPhase::SafeToClose, true, true, true);
    assert_eq!(ShutdownPhase::SafeToClose, step.phase);
    assert!(!step.close_now);
}

#[test]
fn view_states_remember_their_selection() {
    let list = CorpusListView::new(Some("single_sentence".to_owned()));
    assert_eq!(Some("single_sentence".to_owned()), list.selected);
    let demo = DemoView::new("single_sentence".to_owned());
    assert_eq!("single_sentence", demo.selected);

    let main = MainView::default();
    assert!(main.get_selected_corpus().is_none());
    let demo_view = MainView::Demo { selected: "a".to_owned() };
    assert_eq!(Some(&"a".to_owned()), demo_view.get_selected_corpus());
}
