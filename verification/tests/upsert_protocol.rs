//! Tests of the document upsert semantics: create-or-append, set-once
//! creation timestamp, append-only growth, and isolation between keys.

use fp_extension::upsert::{apply_upsert, build_upsert, LogEvent};

fn event(id: &str, level: i32, time: &str, message: &str) -> LogEvent {
    LogEvent {
        mission_id: id.to_string(),
        level,
        time: time.to_string(),
        message: message.to_string(),
    }
}

#[test]
fn build_upsert_copies_the_event() {
    let cmd = build_upsert(event("m9", 4, "7.5", "boom"), "2024-06-01T00:00:00.000Z".to_string());
    assert_eq!(cmd.mission_id, "m9");
    assert_eq!(cmd.created_at, "2024-06-01T00:00:00.000Z");
    assert_eq!(cmd.entry.time, "7.5");
    assert_eq!(cmd.entry.level, 4);
    assert_eq!(cmd.entry.text, "boom");
}

#[test]
fn two_writes_one_mission() {
    let c1 = build_upsert(event("sess1", 2, "1.5", "start"), "2024-01-02T03:04:05.006Z".to_string());
    let d1 = apply_upsert(None, c1);
    assert_eq!(d1.mission_id, "sess1");
    assert_eq!(d1.created_at, "2024-01-02T03:04:05.006Z");
    assert_eq!(d1.logs.len(), 1);

    let c2 = build_upsert(event("sess1", 3, "2.75", "error"), "2030-12-31T23:59:59.999Z".to_string());
    let d2 = apply_upsert(Some(d1), c2);

    // created_at stays what the first write set, whatever a later write carried
    assert_eq!(d2.created_at, "2024-01-02T03:04:05.006Z");
    // append-only: the first entry is unchanged, the second follows it
    assert_eq!(d2.logs.len(), 2);
    assert_eq!(d2.logs[0].time, "1.5");
    assert_eq!(d2.logs[0].level, 2);
    assert_eq!(d2.logs[0].text, "start");
    assert_eq!(d2.logs[1].time, "2.75");
    assert_eq!(d2.logs[1].level, 3);
    assert_eq!(d2.logs[1].text, "error");
}

#[test]
fn many_writes_grow_by_one_each() {
    let mut doc = None;
    for i in 0..5 {
        let cmd = build_upsert(
            event("w", i, "0.5", "tick"),
            "2024-01-01T00:00:00.000Z".to_string(),
        );
        let next = apply_upsert(doc.take(), cmd);
        assert_eq!(next.logs.len(), (i + 1) as usize);
        // every prior element still holds its own level
        for (j, entry) in next.logs.iter().enumerate() {
            assert_eq!(entry.level, j as i32);
        }
        doc = Some(next);
    }
}

#[test]
fn distinct_missions_stay_apart() {
    // A's delivery fails: its slot is never touched. B's write succeeds
    // regardless and sees only its own slot.
    let slot_a: Option<fp_extension::upsert::LogDocument> = None;
    let cb = build_upsert(event("b", 1, "2.0", "fine"), "2024-05-05T05:05:05.005Z".to_string());
    let doc_b = apply_upsert(None, cb);
    assert!(slot_a.is_none());
    assert_eq!(doc_b.mission_id, "b");
    assert_eq!(doc_b.logs.len(), 1);
    assert_eq!(doc_b.logs[0].text, "fine");
}
