use push_scheduler::entry::NotificationRequest;
use push_scheduler::scheduler::Scheduler;

fn req(token: &str, message: &str, delay: u64) -> NotificationRequest {
    NotificationRequest { fcm_token: token.to_string(), message: message.to_string(), delay }
}

#[test]
fn submit_reports_batch_size() {
    let mut s = Scheduler::new();
    let batch = vec![req("tok-a", "hello", 0), req("tok-b", "there", 5), req("tok-c", "again", 10), req("tok-d", "bye", 2)];
    assert!(s.can_accept(batch.len()));
    let count = s.submit(batch);
    assert_eq!(count, 4);
    assert_eq!(s.pending_len(), 4);
}

#[test]
fn submit_empty_batch_schedules_nothing() {
    let mut s = Scheduler::new();
    assert!(s.can_accept(0));
    let count = s.submit(Vec::new());
    assert_eq!(count, 0);
    assert_eq!(s.pending_len(), 0);
}

#[test]
fn identifiers_distinct_across_batches() {
    let mut s = Scheduler::new();
    let mut ids: Vec<u128> = Vec::new();
    for round in 0..5 {
        let batch = vec![req("tok-x", "m", round), req("tok-y", "n", round)];
        assert!(s.can_accept(batch.len()));
        s.submit(batch);
        for e in s.drain() {
            ids.push(e.id);
        }
    }
    assert_eq!(ids.len(), 10);
    for i in 0..ids.len() {
        for j in 0..ids.len() {
            if i != j {
                assert_ne!(ids[i], ids[j]);
            }
        }
    }
}

#[test]
fn drain_empties_store() {
    let mut s = Scheduler::new();
    assert!(s.can_accept(3));
    s.submit(vec![req("t1", "a", 1), req("t2", "b", 2), req("t3", "c", 3)]);
    assert_eq!(s.pending_len(), 3);
    let taken = s.drain();
    assert_eq!(taken.len(), 3);
    assert_eq!(s.pending_len(), 0);
    let again = s.drain();
    assert_eq!(again.len(), 0);
    assert_eq!(s.pending_len(), 0);
}

#[test]
fn drain_returns_exactly_what_was_appended() {
    let mut s = Scheduler::new();
    assert!(s.can_accept(2));
    s.submit(vec![req("first-token", "first-message", 7), req("second-token", "second-message", 9)]);
    let taken = s.drain();
    assert_eq!(taken.len(), 2);
    assert_eq!(taken[0].request.fcm_token, "first-token");
    assert_eq!(taken[0].request.message, "first-message");
    assert_eq!(taken[0].request.delay, 7);
    assert_eq!(taken[1].request.fcm_token, "second-token");
    assert_eq!(taken[1].request.message, "second-message");
    assert_eq!(taken[1].request.delay, 9);
    assert_ne!(taken[0].id, taken[1].id);
}

#[test]
fn interleaved_submissions_never_lose_entries() {
    // Several independent callers interleave with drain ticks; every
    // submitted message must come out of some drain exactly once.
    let mut s = Scheduler::new();
    let mut submitted_tokens: Vec<String> = Vec::new();
    let mut drained_tokens: Vec<String> = Vec::new();
    for caller in 0..7 {
        let mut batch = Vec::new();
        for k in 0..caller {
            let token = format!("caller-{}-entry-{}", caller, k);
            submitted_tokens.push(token.clone());
            batch.push(req(&token, "payload", k as u64));
        }
        assert!(s.can_accept(batch.len()));
        s.submit(batch);
        if caller % 2 == 0 {
            for e in s.drain() {
                drained_tokens.push(e.request.fcm_token);
            }
        }
    }
    for e in s.drain() {
        drained_tokens.push(e.request.fcm_token);
    }
    assert_eq!(s.pending_len(), 0);
    let mut a = submitted_tokens.clone();
    let mut b = drained_tokens.clone();
    a.sort();
    b.sort();
    assert_eq!(a, b);
}

#[test]
fn identifier_count_tracks_submissions() {
    let mut s = Scheduler::new();
    assert!(s.can_accept(1));
    s.submit(vec![req("t", "m", 0)]);
    let first = s.drain();
    assert!(s.can_accept(1));
    s.submit(vec![req("t", "m", 0)]);
    let second = s.drain();
    // Identifiers are never reused, even after the store was emptied.
    assert_ne!(first[0].id, second[0].id);
}
