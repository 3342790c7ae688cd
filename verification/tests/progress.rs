use tempsystem::progress::{LayerChange, LayerProgress, LayerUpdate, ProgressTable, PullEvent};

fn event(id: Option<&str>, update: LayerUpdate) -> PullEvent {
    PullEvent { id: id.map(|s| s.to_string()), update }
}

fn size(current: u64, total: u64) -> LayerUpdate {
    LayerUpdate::Size { current, total }
}

fn status(text: &str) -> LayerUpdate {
    LayerUpdate::Status { text: text.to_string() }
}

fn entry(id: &str, current: u64, total: Option<u64>, text: &str, completed: bool) -> LayerProgress {
    LayerProgress {
        layer_id: id.to_string(),
        current_bytes: current,
        total_bytes: total,
        status_text: text.to_string(),
        completed,
    }
}

#[test]
fn layer_is_created_updated_and_removed() {
    let mut table = ProgressTable::new();
    assert!(table.is_empty());
    let change = table.apply(&event(Some("abc123"), size(50, 100)));
    assert_eq!(change, LayerChange::Updated(entry("abc123", 50, Some(100), "", false)));
    assert_eq!(table.len(), 1);
    assert_eq!(table.layer(0), &entry("abc123", 50, Some(100), "", false));
    let change = table.apply(&event(Some("abc123"), status("Pull complete")));
    assert_eq!(change, LayerChange::Finalized(entry("abc123", 50, Some(100), "", true)));
    assert_eq!(table.len(), 0);
    assert!(table.is_empty());
    assert_eq!(table.find(&"abc123".to_string()), 0);
}

#[test]
fn tag_alias_and_missing_id_are_ignored() {
    let mut table = ProgressTable::new();
    assert_eq!(table.apply(&event(Some("latest"), size(1, 2))), LayerChange::Ignored);
    assert_eq!(table.apply(&event(Some("latest"), status("Pulling from land/tempsystem"))), LayerChange::Ignored);
    assert_eq!(table.apply(&event(None, status("Digest: sha256:0000"))), LayerChange::Ignored);
    assert_eq!(table.apply(&event(None, size(3, 4))), LayerChange::Ignored);
    assert!(table.is_empty());
}

#[test]
fn status_text_is_kept_for_display() {
    let mut table = ProgressTable::new();
    let change = table.apply(&event(Some("l1"), status("Waiting")));
    assert_eq!(change, LayerChange::Updated(entry("l1", 0, None, "Waiting", false)));
    let change = table.apply(&event(Some("l1"), status("Downloading")));
    assert_eq!(change, LayerChange::Updated(entry("l1", 0, None, "Downloading", false)));
    assert_eq!(table.len(), 1);
}

#[test]
fn stage_completion_snaps_position_when_total_is_known() {
    let mut table = ProgressTable::new();
    table.apply(&event(Some("l1"), size(10, 400)));
    let change = table.apply(&event(Some("l1"), status("Download complete")));
    assert_eq!(change, LayerChange::Updated(entry("l1", 400, Some(400), "", false)));
    assert_eq!(table.layer(0).current_bytes, 400);
}

#[test]
fn stage_completion_without_total_is_a_status_text() {
    let mut table = ProgressTable::new();
    let change = table.apply(&event(Some("l1"), status("Download complete")));
    assert_eq!(change, LayerChange::Updated(entry("l1", 0, None, "Download complete", false)));
}

#[test]
fn size_and_status_in_one_event() {
    let mut table = ProgressTable::new();
    let both = LayerUpdate::SizeAndStatus { current: 7, total: 9, text: "Extracting".to_string() };
    let change = table.apply(&event(Some("l1"), both));
    assert_eq!(change, LayerChange::Updated(entry("l1", 7, Some(9), "Extracting", false)));
    let both = LayerUpdate::SizeAndStatus { current: 8, total: 9, text: "Verifying complete".to_string() };
    let change = table.apply(&event(Some("l1"), both));
    assert_eq!(change, LayerChange::Updated(entry("l1", 9, Some(9), "Extracting", false)));
    let both = LayerUpdate::SizeAndStatus { current: 9, total: 9, text: "Pull complete".to_string() };
    let change = table.apply(&event(Some("l1"), both));
    assert_eq!(change, LayerChange::Finalized(entry("l1", 9, Some(9), "Extracting", true)));
    assert!(table.is_empty());
}

#[test]
fn completion_of_an_unknown_layer_leaves_no_entry() {
    let mut table = ProgressTable::new();
    table.apply(&event(Some("known"), size(1, 2)));
    let change = table.apply(&event(Some("unknown"), status("Pull complete")));
    assert_eq!(change, LayerChange::Finalized(entry("unknown", 0, None, "", true)));
    assert_eq!(table.len(), 1);
    assert_eq!(table.layer(0).layer_id, "known");
    let change = table.apply(&event(Some("unknown"), status("Pull complete")));
    assert_eq!(change, LayerChange::Finalized(entry("unknown", 0, None, "", true)));
    assert_eq!(table.len(), 1);
}

#[test]
fn event_with_nothing_still_opens_the_layer() {
    let mut table = ProgressTable::new();
    let change = table.apply(&event(Some("l1"), LayerUpdate::Nothing));
    assert_eq!(change, LayerChange::Updated(entry("l1", 0, None, "", false)));
    assert_eq!(table.len(), 1);
}

#[test]
fn layers_are_told_apart_by_id_in_any_interleaving() {
    let mut table = ProgressTable::new();
    table.apply(&event(Some("a"), size(1, 10)));
    table.apply(&event(Some("b"), size(2, 20)));
    table.apply(&event(Some("a"), size(5, 10)));
    table.apply(&event(Some("c"), status("Waiting")));
    table.apply(&event(Some("b"), status("Pull complete")));
    assert_eq!(table.len(), 2);
    assert_eq!(table.find(&"a".to_string()), 0);
    assert_eq!(table.find(&"c".to_string()), 1);
    assert_eq!(table.find(&"b".to_string()), 2);
    assert_eq!(table.layer(0), &entry("a", 5, Some(10), "", false));
    assert_eq!(table.layer(1), &entry("c", 0, None, "Waiting", false));
}

#[test]
fn finish_closes_every_open_layer() {
    let mut table = ProgressTable::new();
    table.apply(&event(Some("a"), size(1, 10)));
    table.apply(&event(Some("b"), status("Downloading")));
    table.apply(&event(Some("latest"), status("ignored")));
    let closed = table.finish();
    assert_eq!(closed, vec![entry("a", 1, Some(10), "", true), entry("b", 0, None, "Downloading", true)]);
    assert!(table.is_empty());
    let again = table.finish();
    assert!(again.is_empty());
    assert!(table.is_empty());
}

#[test]
fn update_accessors() {
    assert_eq!(size(1, 2).size(), Some((1, 2)));
    assert_eq!(size(1, 2).status(), None);
    assert_eq!(status("x").size(), None);
    assert_eq!(status("x").status(), Some(&"x".to_string()));
    assert_eq!(LayerUpdate::Nothing.size(), None);
    let e = entry("a", 1, Some(2), "s", false);
    assert_eq!(e.clone(), e);
}

#[test]
fn event_from_the_fields_of_the_engine() {
    assert_eq!(
        PullEvent::new(Some("a".to_string()), Some(50), Some(100), None),
        event(Some("a"), size(50, 100))
    );
    assert_eq!(
        PullEvent::new(Some("a".to_string()), Some(1), Some(2), Some("Downloading".to_string())),
        event(Some("a"), LayerUpdate::SizeAndStatus { current: 1, total: 2, text: "Downloading".to_string() })
    );
    assert_eq!(PullEvent::new(None, Some(50), None, None), event(None, LayerUpdate::Nothing));
    assert_eq!(
        PullEvent::new(Some("a".to_string()), None, Some(9), Some("Waiting".to_string())),
        event(Some("a"), status("Waiting"))
    );
    assert_eq!(
        PullEvent::new(Some("a".to_string()), Some(-1), Some(i64::MIN), None),
        event(Some("a"), size(u64::MAX, 1 << 63))
    );
    assert_eq!(
        PullEvent::new(None, Some(0), Some(i64::MAX), None),
        event(None, size(0, i64::MAX as u64))
    );
    for n in [-5i64, -1, 0, 7, i64::MIN, i64::MAX] {
        assert_eq!(PullEvent::new(None, Some(n), Some(n), None), event(None, size(n as u64, n as u64)));
    }
}
