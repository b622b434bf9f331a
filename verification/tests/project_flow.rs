use annatomic::cache::CorpusCache;
use annatomic::engine::{apply_events, FgJob};
use annatomic::events::UpdateEvent;
use annatomic::jobs::{JobAction, JobExecutor, JobPayload};
use annatomic::messages::Notifier;
use annatomic::project::Project;

use tempfile::TempDir;

/// Performs every scheduled work order and applies every outcome, as the
/// shell does once per tick, until the executor falls quiet. Exported
/// bytes are collected for the caller.
fn run_all_jobs(
    project: &mut Project,
    jobs: &mut JobExecutor,
    notifier: &mut Notifier,
) -> Vec<(String, Vec<u8>)> {
    let mut exported = Vec::new();
    loop {
        let taken = jobs.take_scheduled();
        let had_work = !taken.is_empty();
        for (title, job, action) in taken {
            match &action {
                JobAction::DeleteCorpusDirectory { name, location } => {
                    // deleting the directory is the shell's file I/O; the
                    // temporary directories of the test clean up themselves
                    jobs.deliver_success(
                        &title,
                        JobPayload::DeletedCorpus {
                            name: name.clone(),
                            location: location.clone(),
                        },
                    );
                }
                _ => match project.perform_action(&job, &action) {
                    Ok(p) => jobs.deliver_success(&title, p),
                    Err(e) => jobs.deliver_failure(&title, e),
                },
            }
        }
        let out = jobs.drain();
        let was_quiet = !had_work && out.failures.is_empty() && out.callbacks.is_empty();
        for (title, e) in &out.failures {
            notifier.report_error(e);
            project.apply_job_failure(title);
        }
        for (_title, p) in &out.callbacks {
            if let JobPayload::ExportedGraphml { bytes, path } = p {
                exported.push((path.clone(), bytes.clone()));
            }
            project.apply_job_outcome(jobs, notifier, p);
        }
        if was_quiet {
            return exported;
        }
    }
}

fn corpus_location(dir: &TempDir, name: &str) -> String {
    dir.path().join(name).to_str().expect("utf-8 path").to_owned()
}

/// A project with one freshly created, persisted corpus of this name.
fn project_with_corpus(dir: &TempDir, name: &str) -> (Project, JobExecutor, Notifier) {
    let mut project = Project::new();
    let jobs = JobExecutor::new();
    let notifier = Notifier::new();
    project
        .new_empty_corpus(name.to_owned(), corpus_location(dir, name))
        .expect("creating an empty corpus");
    (project, jobs, notifier)
}

fn add_doc_changeset(corpus: &str, doc: &str) -> Vec<UpdateEvent> {
    let node = format!("{corpus}/{doc}");
    vec![
        UpdateEvent::AddNode {
            node_name: node.clone(),
            node_type: "corpus".to_owned(),
        },
        UpdateEvent::AddNodeLabel {
            node_name: node,
            anno_ns: "annis".to_owned(),
            anno_name: "doc".to_owned(),
            anno_value: doc.to_owned(),
        },
    ]
}

fn rename_doc_changeset(node: &str, new_value: &str) -> Vec<UpdateEvent> {
    vec![
        UpdateEvent::DeleteNodeLabel {
            node_name: node.to_owned(),
            anno_ns: "annis".to_owned(),
            anno_name: "doc".to_owned(),
        },
        UpdateEvent::AddNodeLabel {
            node_name: node.to_owned(),
            anno_ns: "annis".to_owned(),
            anno_name: "doc".to_owned(),
            anno_value: new_value.to_owned(),
        },
    ]
}

fn apply_changeset(
    project: &mut Project,
    jobs: &mut JobExecutor,
    notifier: &mut Notifier,
    events: Vec<UpdateEvent>,
) {
    project.add_changeset(jobs, events);
    assert!(project.updates_pending());
    run_all_jobs(project, jobs, notifier);
    assert!(!project.updates_pending());
}

/// The live (possibly mutated) graph, serialized in stable order.
fn export_live_graph(
    project: &mut Project,
    jobs: &mut JobExecutor,
    notifier: &mut Notifier,
) -> Vec<u8> {
    project.export_to_graphml(jobs, "exported.graphml".to_owned());
    let exported = run_all_jobs(project, jobs, notifier);
    assert_eq!(1, exported.len());
    exported.into_iter().next().expect("one export").1
}

fn count_occurrences(haystack: &[u8], needle: &[u8]) -> usize {
    if needle.is_empty() || haystack.len() < needle.len() {
        return 0;
    }
    let mut count = 0;
    for i in 0..=(haystack.len() - needle.len()) {
        if &haystack[i..i + needle.len()] == needle {
            count += 1;
        }
    }
    count
}

/// How often a document label with exactly this value occurs in the
/// serialized graph (label values stand between element tags).
fn doc_value_count(bytes: &[u8], value: &str) -> usize {
    let needle = format!(">{value}<");
    count_occurrences(bytes, needle.as_bytes())
}

#[test]
fn select_corpus() {
    let dir = TempDir::new().expect("temp dir");
    let (mut project, mut jobs, mut notifier) = project_with_corpus(&dir, "single_sentence");
    project.select_corpus(&mut jobs, &mut notifier, Some("single_sentence".to_owned()));
    run_all_jobs(&mut project, &mut jobs, &mut notifier);

    assert!(project.selected_corpus().is_some());
    assert_eq!("single_sentence", project.selected_corpus().unwrap().name);
    // the structural-refresh job ran: the corpus graph is loaded
    assert!(project.get_selected_graph().unwrap().is_some());
    assert!(notifier.is_empty());
}

#[test]
fn selecting_unknown_corpus_reports_missing_location() {
    let dir = TempDir::new().expect("temp dir");
    let (mut project, mut jobs, mut notifier) = project_with_corpus(&dir, "single_sentence");
    project.select_corpus(&mut jobs, &mut notifier, Some("unknown".to_owned()));
    assert!(project.selected_corpus().is_none());
    assert_eq!(
        vec!["Missing location for corpus unknown".to_owned()],
        notifier.take_messages()
    );
}

#[test]
fn create_new_corpus() {
    let dir = TempDir::new().expect("temp dir");
    let (mut project, mut jobs, mut notifier) = project_with_corpus(&dir, "single_sentence");
    project
        .new_empty_corpus("example".to_owned(), corpus_location(&dir, "example"))
        .expect("creating the corpus");
    project.select_corpus(&mut jobs, &mut notifier, Some("example".to_owned()));
    run_all_jobs(&mut project, &mut jobs, &mut notifier);

    assert!(project.selected_corpus().is_some());
    assert_eq!("example", project.selected_corpus().unwrap().name);
    assert!(notifier.is_empty());
}

#[test]
fn delete_corpus() {
    let dir = TempDir::new().expect("temp dir");
    let (mut project, mut jobs, mut notifier) = project_with_corpus(&dir, "single_sentence");
    project.select_corpus(&mut jobs, &mut notifier, Some("single_sentence".to_owned()));
    run_all_jobs(&mut project, &mut jobs, &mut notifier);
    // mark the corpus for deletion, then confirm
    project.set_scheduled_for_deletion(Some("single_sentence".to_owned()));
    assert!(project.scheduled_for_deletion().is_some());
    project.delete_corpus(&mut jobs, "single_sentence".to_owned());
    run_all_jobs(&mut project, &mut jobs, &mut notifier);

    assert!(project.selected_corpus().is_none());
    assert!(project.scheduled_for_deletion().is_none());
    assert!(project.location_of(&"single_sentence".to_owned()).is_none());
    // the deleted corpus cannot be selected again
    project.select_corpus(&mut jobs, &mut notifier, Some("single_sentence".to_owned()));
    assert!(project.selected_corpus().is_none());
    assert_eq!(
        vec!["Missing location for corpus single_sentence".to_owned()],
        notifier.take_messages()
    );
}

#[test]
fn undo_redo() {
    let dir = TempDir::new().expect("temp dir");
    let (mut project, mut jobs, mut notifier) = project_with_corpus(&dir, "single_sentence");
    project.select_corpus(&mut jobs, &mut notifier, Some("single_sentence".to_owned()));
    run_all_jobs(&mut project, &mut jobs, &mut notifier);

    apply_changeset(
        &mut project,
        &mut jobs,
        &mut notifier,
        add_doc_changeset("single_sentence", "zossen"),
    );

    // Edit the document name twice
    apply_changeset(
        &mut project,
        &mut jobs,
        &mut notifier,
        rename_doc_changeset("single_sentence/zossen", "zossen-1"),
    );
    let bytes = export_live_graph(&mut project, &mut jobs, &mut notifier);
    assert_eq!(0, doc_value_count(&bytes, "zossen"));
    assert_eq!(1, doc_value_count(&bytes, "zossen-1"));

    apply_changeset(
        &mut project,
        &mut jobs,
        &mut notifier,
        rename_doc_changeset("single_sentence/zossen", "zossen-2"),
    );
    let bytes = export_live_graph(&mut project, &mut jobs, &mut notifier);
    assert_eq!(1, doc_value_count(&bytes, "zossen-2"));
    assert_eq!(0, doc_value_count(&bytes, "zossen-1"));
    assert_eq!(0, doc_value_count(&bytes, "zossen"));
    let diff_before_undo = project.selected_corpus().unwrap().diff_to_last_save.clone();
    let bytes_before_undo = bytes;

    // Undo the last change
    project.undo(&mut jobs);
    run_all_jobs(&mut project, &mut jobs, &mut notifier);
    let bytes = export_live_graph(&mut project, &mut jobs, &mut notifier);
    assert_eq!(1, doc_value_count(&bytes, "zossen-1"));
    assert_eq!(0, doc_value_count(&bytes, "zossen-2"));
    assert_eq!(0, doc_value_count(&bytes, "zossen"));

    // Redo, so the name should be "zossen-2" again
    project.redo(&mut jobs);
    run_all_jobs(&mut project, &mut jobs, &mut notifier);
    let bytes = export_live_graph(&mut project, &mut jobs, &mut notifier);
    assert_eq!(1, doc_value_count(&bytes, "zossen-2"));
    assert_eq!(0, doc_value_count(&bytes, "zossen-1"));
    assert_eq!(0, doc_value_count(&bytes, "zossen"));

    // the round trip reproduced the exact diff log and graph content
    assert_eq!(
        diff_before_undo,
        project.selected_corpus().unwrap().diff_to_last_save
    );
    assert_eq!(bytes_before_undo, bytes);
    assert!(notifier.is_empty());
}

#[test]
fn changesets_then_undos_restore_serialized_content() {
    let dir = TempDir::new().expect("temp dir");
    let (mut project, mut jobs, mut notifier) = project_with_corpus(&dir, "single_sentence");
    project.select_corpus(&mut jobs, &mut notifier, Some("single_sentence".to_owned()));
    run_all_jobs(&mut project, &mut jobs, &mut notifier);

    let bytes_before = export_live_graph(&mut project, &mut jobs, &mut notifier);

    apply_changeset(
        &mut project,
        &mut jobs,
        &mut notifier,
        add_doc_changeset("single_sentence", "zossen"),
    );
    apply_changeset(
        &mut project,
        &mut jobs,
        &mut notifier,
        rename_doc_changeset("single_sentence/zossen", "zossen-1"),
    );

    project.undo(&mut jobs);
    run_all_jobs(&mut project, &mut jobs, &mut notifier);
    project.undo(&mut jobs);
    run_all_jobs(&mut project, &mut jobs, &mut notifier);

    let bytes_after = export_live_graph(&mut project, &mut jobs, &mut notifier);
    assert_eq!(bytes_before, bytes_after);
    assert!(!project.has_undo());
    assert!(project.has_redo());
}

#[test]
fn export_corpus() {
    let dir = TempDir::new().expect("temp dir");
    let (mut project, mut jobs, mut notifier) = project_with_corpus(&dir, "single_sentence");
    project.select_corpus(&mut jobs, &mut notifier, Some("single_sentence".to_owned()));
    run_all_jobs(&mut project, &mut jobs, &mut notifier);

    let bytes = export_live_graph(&mut project, &mut jobs, &mut notifier);
    let text = String::from_utf8(bytes).expect("utf-8 serialization");
    assert!(text.contains("<graphml"));
    assert!(notifier.is_empty());
}

#[test]
fn failed_changeset_clears_dirty_flag() {
    let dir = TempDir::new().expect("temp dir");
    let (mut project, mut jobs, mut notifier) = project_with_corpus(&dir, "single_sentence");
    project.select_corpus(&mut jobs, &mut notifier, Some("single_sentence".to_owned()));
    run_all_jobs(&mut project, &mut jobs, &mut notifier);

    project.add_changeset(&mut jobs, add_doc_changeset("single_sentence", "zossen"));
    assert!(project.updates_pending());

    // the worker fails (an I/O or graph-apply error) instead of succeeding
    let taken = jobs.take_scheduled();
    assert_eq!(1, taken.len());
    let title = taken.into_iter().next().expect("one work order").0;
    assert_eq!("Updating corpus", title);
    jobs.deliver_failure(
        &title,
        annatomic::errors::AppError::Graph { message: "space exhausted".to_owned() },
    );

    let out = jobs.drain();
    assert_eq!(1, out.failures.len());
    for (failed_title, e) in &out.failures {
        notifier.report_error(e);
        project.apply_job_failure(failed_title);
    }

    // the error is reported exactly once; the dirty flag clears even on
    // failure; diff log and undo history are exactly as before the edit
    assert_eq!(vec!["space exhausted".to_owned()], notifier.take_messages());
    assert!(!project.updates_pending());
    assert!(project.selected_corpus().unwrap().diff_to_last_save.is_empty());
    assert!(!project.has_undo());
    assert!(!project.has_redo());
}

#[test]
fn import_corpus_from_graphml_bytes() {
    let dir = TempDir::new().expect("temp dir");
    let (mut project, mut jobs, mut notifier) = project_with_corpus(&dir, "single_sentence");
    project.select_corpus(&mut jobs, &mut notifier, Some("single_sentence".to_owned()));
    run_all_jobs(&mut project, &mut jobs, &mut notifier);
    apply_changeset(
        &mut project,
        &mut jobs,
        &mut notifier,
        add_doc_changeset("single_sentence", "zossen"),
    );
    let bytes = export_live_graph(&mut project, &mut jobs, &mut notifier);

    // importing the serialization as a new corpus registers and selects it
    Project::import_corpus(
        &mut jobs,
        "exported.graphml".to_owned(),
        "imported".to_owned(),
        corpus_location(&dir, "imported"),
        bytes,
    );
    run_all_jobs(&mut project, &mut jobs, &mut notifier);

    assert_eq!("imported", project.selected_corpus().unwrap().name);
    assert!(project.location_of(&"imported".to_owned()).is_some());
    let imported_bytes = export_live_graph(&mut project, &mut jobs, &mut notifier);
    assert_eq!(1, doc_value_count(&imported_bytes, "zossen"));
    assert!(notifier.is_empty());
}

#[test]
fn no_undo_after_select_and_after_persist() {
    let dir = TempDir::new().expect("temp dir");
    let (mut project, mut jobs, mut notifier) = project_with_corpus(&dir, "single_sentence");
    project.select_corpus(&mut jobs, &mut notifier, Some("single_sentence".to_owned()));
    run_all_jobs(&mut project, &mut jobs, &mut notifier);
    assert!(!project.has_undo());

    apply_changeset(
        &mut project,
        &mut jobs,
        &mut notifier,
        add_doc_changeset("single_sentence", "zossen"),
    );
    assert!(!project.selected_corpus().unwrap().diff_to_last_save.is_empty());
    assert!(project.has_undo());

    project.persist_changes_on_exit().expect("persisting");
    assert!(!project.has_undo());
    assert!(!project.has_redo());
    // the diff log is cleared exactly when the content is persisted
    assert!(project.selected_corpus().unwrap().diff_to_last_save.is_empty());

    // and the persisted baseline now holds the change
    let mut cache = CorpusCache::new();
    let location = project.selected_corpus().unwrap().location.clone();
    let handle = cache.load_from_disk(&location).expect("loading the baseline");
    let job = FgJob::new();
    apply_events(&handle, &Vec::new(), &job).expect("empty replay");
}

#[test]
fn cached_graph_is_shared_between_handles() {
    let dir = TempDir::new().expect("temp dir");
    let (mut project, mut jobs, mut notifier) = project_with_corpus(&dir, "single_sentence");
    project.select_corpus(&mut jobs, &mut notifier, Some("single_sentence".to_owned()));
    run_all_jobs(&mut project, &mut jobs, &mut notifier);

    // two consecutive cache accesses with no different-location call in
    // between: a mutation through the first handle is visible through the
    // second without any reload
    let first = project.get_selected_graph().expect("cached graph").expect("selected");
    let job = FgJob::new();
    apply_events(&first, &add_doc_changeset("single_sentence", "zossen"), &job)
        .expect("applying through the first handle");

    let bytes = export_live_graph(&mut project, &mut jobs, &mut notifier);
    assert_eq!(1, doc_value_count(&bytes, "zossen"));
}

#[test]
fn deleted_location_is_never_served_stale() {
    let dir = TempDir::new().expect("temp dir");
    let location = corpus_location(&dir, "single_sentence");
    let mut project = Project::new();
    project
        .new_empty_corpus("single_sentence".to_owned(), location.clone())
        .expect("creating the corpus");

    let mut cache = CorpusCache::new();
    cache.get(&location).expect("loading the corpus");
    // the corpus is deleted: its cache entry goes with it
    cache.evict(&location);
    dir.close().expect("removing the storage");
    // a later access fails cleanly instead of serving the stale graph
    assert!(cache.get(&location).is_err());
}
