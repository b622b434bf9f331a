use annatomic::events::UpdateEvent;
use annatomic::jobs::{JobAction, JobExecutor, JobPayload};
use annatomic::make_whitespace_visible;
use annatomic::messages::Notifier;
use annatomic::project::Project;

use tempfile::TempDir;

fn run_jobs_to_completion(
    project: &mut Project,
    jobs: &mut JobExecutor,
    notifier: &mut Notifier,
) -> Vec<Vec<u8>> {
    let mut exported = Vec::new();
    loop {
        let taken = jobs.take_scheduled();
        let had_work = !taken.is_empty();
        for (title, job, action) in taken {
            match &action {
                JobAction::DeleteCorpusDirectory { name, location } => {
                    jobs.deliver_success(
                        &title,
                        JobPayload::DeletedCorpus {
                            name: name.clone(),
                            location: location.clone(),
                        },
                    );
                }
                _ => match project.perform_action(&job, &action) {
                    Ok(p) => jobs.deliver_success(&title, p),
                    Err(e) => jobs.deliver_failure(&title, e),
                },
            }
        }
        let out = jobs.drain();
        let was_quiet = !had_work && out.failures.is_empty() && out.callbacks.is_empty();
        for (title, e) in &out.failures {
            notifier.report_error(e);
            project.apply_job_failure(title);
        }
        for (_title, p) in &out.callbacks {
            if let JobPayload::ExportedGraphml { bytes, .. } = p {
                exported.push(bytes.clone());
            }
            project.apply_job_outcome(jobs, notifier, p);
        }
        if was_quiet {
            return exported;
        }
    }
}

/// A project with the corpus "single_sentence" selected and its document
/// node "single_sentence/zossen" created, carrying one metadata entry.
fn project_with_zossen(dir: &TempDir) -> (Project, JobExecutor, Notifier) {
    let mut project = Project::new();
    let mut jobs = JobExecutor::new();
    let mut notifier = Notifier::new();
    let location = dir
        .path()
        .join("single_sentence")
        .to_str()
        .expect("utf-8 path")
        .to_owned();
    project
        .new_empty_corpus("single_sentence".to_owned(), location)
        .expect("creating the corpus");
    project.select_corpus(&mut jobs, &mut notifier, Some("single_sentence".to_owned()));
    run_jobs_to_completion(&mut project, &mut jobs, &mut notifier);
    project.add_changeset(
        &mut jobs,
        vec![
            UpdateEvent::AddNode {
                node_name: "single_sentence/zossen".to_owned(),
                node_type: "corpus".to_owned(),
            },
            UpdateEvent::AddNodeLabel {
                node_name: "single_sentence/zossen".to_owned(),
                anno_ns: "annis".to_owned(),
                anno_name: "doc".to_owned(),
                anno_value: "zossen".to_owned(),
            },
            UpdateEvent::AddNodeLabel {
                node_name: "single_sentence/zossen".to_owned(),
                anno_ns: "meta".to_owned(),
                anno_name: "language".to_owned(),
                anno_value: "German".to_owned(),
            },
        ],
    );
    run_jobs_to_completion(&mut project, &mut jobs, &mut notifier);
    (project, jobs, notifier)
}

fn exported_text(project: &mut Project, jobs: &mut JobExecutor, notifier: &mut Notifier) -> String {
    project.export_to_graphml(jobs, "metadata.graphml".to_owned());
    let exported = run_jobs_to_completion(project, jobs, notifier);
    assert_eq!(1, exported.len());
    String::from_utf8(exported.into_iter().next().expect("one export")).expect("utf-8")
}

#[test]
fn show_metadata() {
    let dir = TempDir::new().expect("temp dir");
    let (mut project, mut jobs, mut notifier) = project_with_zossen(&dir);

    // the document of the selected corpus carries its metadata entry
    assert_eq!("single_sentence", project.selected_corpus().unwrap().name);
    let text = exported_text(&mut project, &mut jobs, &mut notifier);
    assert!(text.contains("single_sentence/zossen"));
    assert!(text.contains(">zossen<"));
    assert!(text.contains(">German<"));
    assert!(notifier.is_empty());
}

#[test]
fn tests_show_metadata() {
    let dir = TempDir::new().expect("temp dir");
    let (mut project, mut jobs, mut notifier) = project_with_zossen(&dir);

    // the metadata entry survives a persist and a fresh selection
    project.persist_changes_on_exit().expect("persisting");
    project.select_corpus(&mut jobs, &mut notifier, None);
    project.select_corpus(&mut jobs, &mut notifier, Some("single_sentence".to_owned()));
    run_jobs_to_completion(&mut project, &mut jobs, &mut notifier);
    let text = exported_text(&mut project, &mut jobs, &mut notifier);
    assert!(text.contains("single_sentence/zossen"));
    assert!(text.contains(">German<"));
    assert!(notifier.is_empty());
}

#[test]
fn render_token_with_labels() {
    let dir = TempDir::new().expect("temp dir");
    let (mut project, mut jobs, mut notifier) = project_with_zossen(&dir);

    project.add_changeset(
        &mut jobs,
        vec![
            UpdateEvent::AddNode {
                node_name: "single_sentence/zossen#t1".to_owned(),
                node_type: "node".to_owned(),
            },
            UpdateEvent::AddNodeLabel {
                node_name: "single_sentence/zossen#t1".to_owned(),
                anno_ns: "annis".to_owned(),
                anno_name: "tok".to_owned(),
                anno_value: "Is".to_owned(),
            },
            UpdateEvent::AddNodeLabel {
                node_name: "single_sentence/zossen#t1".to_owned(),
                anno_ns: "pos".to_owned(),
                anno_name: "pos".to_owned(),
                anno_value: "VERB".to_owned(),
            },
        ],
    );
    run_jobs_to_completion(&mut project, &mut jobs, &mut notifier);

    let text = exported_text(&mut project, &mut jobs, &mut notifier);
    assert!(text.contains(">Is<"));
    assert!(text.contains(">VERB<"));
    assert!(notifier.is_empty());
}

#[test]
fn tests_render_token_with_labels() {
    // token text is rendered with its whitespace made visible
    let token: Vec<char> = "Is this ".chars().collect();
    let rendered = make_whitespace_visible(&token);
    let expected: Vec<char> = vec![
        'I', 's', '\u{2423}', 't', 'h', 'i', 's', '\u{2423}',
    ];
    assert_eq!(expected, rendered);
}
