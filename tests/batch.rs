use image_fetch::error::{ErrorKind, SchemaField};
use image_fetch::image::resolve_body;
use image_fetch::pipeline::{Action, Batch, Event, SaveOutcome, Stage};

fn page(title: &str, url: &str) -> Vec<u8> {
    format!(r#"{{"query":{{"pages":{{"1":{{"title":"{}","imageinfo":[{{"url":"{}"}}]}}}}}}}}"#, title, url).into_bytes()
}

fn names(list: &[&str]) -> Vec<String> {
    list.iter().map(|s| s.to_string()).collect()
}

fn fail_kind(acts: &[Action]) -> ErrorKind {
    assert_eq!(acts.len(), 1);
    match &acts[0] {
        Action::Fail { error } => error.kind,
        other => panic!("expected a failure, got {:?}", other),
    }
}

fn save_of(acts: Vec<Action>) -> (usize, String, Vec<u8>) {
    assert_eq!(acts.len(), 1);
    match acts.into_iter().next().unwrap() {
        Action::Save { index, path, bytes } => (index, path, bytes),
        other => panic!("expected a save, got {:?}", other),
    }
}

/// Resolves both names of a two-name batch, B answering first.
fn resolved_pair() -> Batch {
    let (mut batch, _) = Batch::start(names(&["A", "B"]));
    assert!(batch.step(Event::Metadata { index: 1, body: Ok(page("B", "http://x/b.jpg")) }).is_empty());
    let acts = batch.step(Event::Metadata { index: 0, body: Ok(page("A", "http://x/a.jpg")) });
    assert_eq!(acts.len(), 2);
    batch
}

#[test]
fn start_queries_every_name_in_order() {
    let (batch, acts) = Batch::start(names(&["A", "Файл:World of Drugs.jpg"]));
    assert_eq!(batch.stage(), Stage::Resolving);
    assert_eq!(batch.names(), &names(&["A", "Файл:World of Drugs.jpg"]));
    assert_eq!(acts.len(), 2);
    for (i, act) in acts.iter().enumerate() {
        match act {
            Action::FetchMetadata { index, uri } => {
                assert_eq!(*index, i);
                assert_eq!(uri.query().unwrap().contains(&batch.names()[i]), true);
            }
            other => panic!("unexpected {:?}", other),
        }
    }
}

#[test]
fn empty_batch_finishes_at_once() {
    let (batch, acts) = Batch::start(Vec::new());
    assert_eq!(batch.stage(), Stage::Finished);
    assert_eq!(acts.len(), 1);
    match &acts[0] {
        Action::Finish { paths } => assert!(paths.is_empty()),
        other => panic!("unexpected {:?}", other),
    }
}

#[test]
fn end_to_end_saves_each_image_under_its_title() {
    let (mut batch, acts) = Batch::start(names(&["A", "B"]));
    assert_eq!(acts.len(), 2);
    assert!(batch.step(Event::Metadata { index: 0, body: Ok(page("A", "http://x/a.jpg")) }).is_empty());
    let fetches = batch.step(Event::Metadata { index: 1, body: Ok(page("B", "http://x/b.jpg")) });
    assert_eq!(batch.stage(), Stage::Saving);
    assert_eq!(fetches.len(), 2);
    match (&fetches[0], &fetches[1]) {
        (Action::FetchImage { index: 0, url: a }, Action::FetchImage { index: 1, url: b }) => {
            assert_eq!(a, "http://x/a.jpg");
            assert_eq!(b, "http://x/b.jpg");
        }
        other => panic!("unexpected {:?}", other),
    }
    let (index, path, bytes) = save_of(batch.step(Event::Image { index: 0, body: Ok(b"JPEGDATA".to_vec()) }));
    assert_eq!((index, path.as_str(), bytes.as_slice()), (0, "./A", &b"JPEGDATA"[..]));
    let (index, path, _) = save_of(batch.step(Event::Image { index: 1, body: Ok(b"JPEGDATA".to_vec()) }));
    assert_eq!((index, path.as_str()), (1, "./B"));
    assert!(batch.step(Event::Saved { index: 0, outcome: SaveOutcome::Written }).is_empty());
    let done = batch.step(Event::Saved { index: 1, outcome: SaveOutcome::Written });
    assert_eq!(batch.stage(), Stage::Finished);
    match &done[..] {
        [Action::Finish { paths }] => assert_eq!(paths, &names(&["./A", "./B"])),
        other => panic!("unexpected {:?}", other),
    }
}

#[test]
fn paths_follow_input_order_not_completion_order() {
    let mut batch = resolved_pair();
    save_of(batch.step(Event::Image { index: 1, body: Ok(vec![2]) }));
    assert!(batch.step(Event::Saved { index: 1, outcome: SaveOutcome::Written }).is_empty());
    save_of(batch.step(Event::Image { index: 0, body: Ok(vec![1]) }));
    let done = batch.step(Event::Saved { index: 0, outcome: SaveOutcome::Written });
    match &done[..] {
        [Action::Finish { paths }] => assert_eq!(paths, &names(&["./A", "./B"])),
        other => panic!("unexpected {:?}", other),
    }
}

#[test]
fn empty_pages_fail_the_run_with_not_found() {
    let (mut batch, _) = Batch::start(names(&["A", "B"]));
    assert!(batch.step(Event::Metadata { index: 0, body: Ok(page("A", "http://x/a.jpg")) }).is_empty());
    let acts = batch.step(Event::Metadata { index: 1, body: Ok(br#"{"query":{"pages":{}}}"#.to_vec()) });
    assert_eq!(fail_kind(&acts), ErrorKind::NotFound);
    match &acts[0] {
        Action::Fail { error } => assert_eq!(error.chain, vec![String::from("no image found")]),
        _ => unreachable!(),
    }
    assert_eq!(batch.stage(), Stage::Failed);
}

#[test]
fn failed_batch_ignores_later_reports() {
    let (mut batch, _) = Batch::start(names(&["A", "B"]));
    let acts = batch.step(Event::Metadata { index: 1, body: Ok(br#"{"query":{"pages":{}}}"#.to_vec()) });
    assert_eq!(fail_kind(&acts), ErrorKind::NotFound);
    assert!(batch.step(Event::Metadata { index: 0, body: Ok(page("A", "http://x/a.jpg")) }).is_empty());
    assert!(batch.step(Event::Saved { index: 0, outcome: SaveOutcome::Written }).is_empty());
    assert_eq!(batch.stage(), Stage::Failed);
}

#[test]
fn transport_failure_fails_the_run() {
    let (mut batch, _) = Batch::start(names(&["A"]));
    let acts = batch.step(Event::Metadata { index: 0, body: Err(String::from("connection reset")) });
    assert_eq!(fail_kind(&acts), ErrorKind::Fetch);
    match &acts[0] {
        Action::Fail { error } => assert_eq!(error.message(), "cannot resolve response body: connection reset"),
        _ => unreachable!(),
    }
}

#[test]
fn schema_and_decode_failures_fail_the_run() {
    let (mut batch, _) = Batch::start(names(&["A"]));
    let acts = batch.step(Event::Metadata { index: 0, body: Ok(br#"{"query":{"pages":{"1":{"title":"A"}}}}"#.to_vec()) });
    assert_eq!(fail_kind(&acts), ErrorKind::Schema(SchemaField::Url));
    match &acts[0] {
        Action::Fail { error } => assert_eq!(error.message(), "url field in imageinfo[0] is not a string"),
        _ => unreachable!(),
    }
    let (mut batch, _) = Batch::start(names(&["A"]));
    let acts = batch.step(Event::Metadata { index: 0, body: Ok(b"not json".to_vec()) });
    assert_eq!(fail_kind(&acts), ErrorKind::Decode);
    match &acts[0] {
        Action::Fail { error } => {
            assert_eq!(error.chain.len(), 2);
            assert_eq!(error.chain[0], "cannot decode response body");
            assert_eq!(error.chain[1], resolve_body(b"not json").unwrap_err().chain[1]);
        }
        _ => unreachable!(),
    }
}

#[test]
fn download_failure_after_sibling_success_fails_the_run() {
    let mut batch = resolved_pair();
    save_of(batch.step(Event::Image { index: 0, body: Ok(vec![1]) }));
    assert!(batch.step(Event::Saved { index: 0, outcome: SaveOutcome::Written }).is_empty());
    let acts = batch.step(Event::Image { index: 1, body: Err(String::from("timeout")) });
    assert_eq!(fail_kind(&acts), ErrorKind::Fetch);
    match &acts[0] {
        Action::Fail { error } => assert_eq!(error.message(), "cannot resolve response body: timeout"),
        _ => unreachable!(),
    }
    assert_eq!(batch.stage(), Stage::Failed);
}

#[test]
fn save_failures_are_io_errors() {
    let mut batch = resolved_pair();
    save_of(batch.step(Event::Image { index: 0, body: Ok(vec![1]) }));
    let acts = batch.step(Event::Saved { index: 0, outcome: SaveOutcome::CreateFailed(String::from("denied")) });
    assert_eq!(fail_kind(&acts), ErrorKind::Io);
    match &acts[0] {
        Action::Fail { error } => assert_eq!(error.message(), "cannot create file: denied"),
        _ => unreachable!(),
    }
    let mut batch = resolved_pair();
    save_of(batch.step(Event::Image { index: 1, body: Ok(vec![1]) }));
    let acts = batch.step(Event::Saved { index: 1, outcome: SaveOutcome::WriteFailed(String::from("disk full")) });
    assert_eq!(fail_kind(&acts), ErrorKind::Io);
    match &acts[0] {
        Action::Fail { error } => assert_eq!(error.chain[0], "cannot write file"),
        _ => unreachable!(),
    }
}

#[test]
fn reports_out_of_turn_change_nothing() {
    let (mut batch, _) = Batch::start(names(&["A", "B"]));
    assert!(batch.step(Event::Metadata { index: 5, body: Ok(page("A", "u")) }).is_empty());
    assert!(batch.step(Event::Image { index: 0, body: Ok(vec![1]) }).is_empty());
    assert!(batch.step(Event::Saved { index: 0, outcome: SaveOutcome::Written }).is_empty());
    assert!(batch.step(Event::Metadata { index: 0, body: Ok(page("A", "http://x/a.jpg")) }).is_empty());
    assert!(batch.step(Event::Metadata { index: 0, body: Err(String::from("late")) }).is_empty());
    assert_eq!(batch.stage(), Stage::Resolving);
    let mut batch = resolved_pair();
    save_of(batch.step(Event::Image { index: 0, body: Ok(vec![1]) }));
    assert!(batch.step(Event::Image { index: 0, body: Ok(vec![1]) }).is_empty());
    assert_eq!(batch.stage(), Stage::Saving);
}
