use ji::action_history::{store, ActionHistory, PersistedHistory};
use ji::tape::{Act, Failure, Kind, Reply, Request, Stop, Tape};

fn history(n: usize) -> ActionHistory {
    let mut h = ActionHistory::new();
    for i in 0..n {
        h.record(format!("act {i}"), format!("op{i}"), format!("op{}", i + 1));
    }
    h
}

#[test]
fn undo_then_redo_comes_back() {
    let mut h = history(2);
    assert!(h.can_undo() && !h.can_redo());
    assert_eq!(h.undo(), Some(("op1", "act 1")));
    assert!(h.can_redo());
    assert_eq!(h.undo(), Some(("op0", "act 0")));
    assert_eq!(h.undo(), None);
    assert_eq!(h.redo(), Some(("op1", "act 0")));
    assert_eq!(h.redo(), Some(("op2", "act 1")));
    assert_eq!(h.redo(), None);
    assert_eq!(h.applied_records().len(), 2);
}

#[test]
fn a_new_action_drops_what_was_undone() {
    let mut h = history(2);
    h.undo();
    h.record("other".to_string(), "op1".to_string(), "opx".to_string());
    assert!(!h.can_redo());
    let labels: Vec<&str> = h.applied_records().iter().map(|r| r.label.as_str()).collect();
    assert_eq!(labels, ["act 0", "other"]);
    assert_eq!(h.last_op_head.as_deref(), Some("opx"));
    assert_eq!(h.undo(), Some(("op1", "other")));
}

#[test]
fn only_changes_are_recorded() {
    let mut h = ActionHistory::new();
    h.maybe_record("same".to_string(), Some("a".to_string()), Some("a".to_string()));
    h.maybe_record("unknown".to_string(), None, Some("a".to_string()));
    h.maybe_record("unknown".to_string(), Some("a".to_string()), None);
    assert!(!h.can_undo());
    h.maybe_record("new".to_string(), Some("a".to_string()), Some("b".to_string()));
    assert!(h.can_undo());
}

#[test]
fn the_oldest_action_goes_first() {
    let h = history(51);
    assert_eq!(h.applied_records().len(), 50);
    assert_eq!(h.applied_records()[0].label, "act 1");
    assert_eq!(h.applied_records()[49].label, "act 50");
}

#[test]
fn a_stored_history_comes_back() {
    let mut h = history(3);
    h.undo();
    let back = ActionHistory::load(Some(h.save()));
    assert_eq!(back.applied_records().len(), 2);
    assert!(back.can_redo());
    assert_eq!(back.last_op_head.as_deref(), Some("op3"));
    assert!(!ActionHistory::load(None).can_undo());
    let beyond = PersistedHistory { cursor: 9, last_op_head: None, records: Vec::new() };
    assert!(!ActionHistory::load(Some(beyond)).can_undo());
}

fn run_store(fails: Option<Act>) -> (Result<(), Failure>, Vec<String>) {
    let mut replies: Vec<Reply> = Vec::new();
    let mut seen: Vec<String> = Vec::new();
    loop {
        match store(&mut Tape::new(replies.clone()), "/r/.jj/history.json", "{}") {
            Ok(()) => return (Ok(()), seen),
            Err(Stop::Fail(e)) => return (Err(e), seen),
            Err(Stop::Ask(q)) => {
                let Request { act, at, args, .. } = q;
                seen.push(format!("{act:?} {at} {}", args.join(",")));
                replies.push(Reply {
                    kind: if fails == Some(act) { Kind::Unstarted } else { Kind::Done },
                    text: String::new(),
                    err: "full".to_string(),
                    items: Vec::new(),
                    bytes: Vec::new(),
                    stat: None,
                });
            }
        }
    }
}

#[test]
fn storing_goes_through_a_temporary_file() {
    let (r, seen) = run_store(None);
    assert!(r.is_ok());
    assert_eq!(
        seen,
        [
            "WriteFile /r/.jj/history.tmp {}",
            "Rename /r/.jj/history.tmp /r/.jj/history.json",
        ]
    );
    let e = run_store(Some(Act::WriteFile)).0.unwrap_err();
    assert_eq!(e.render(), "failed to write history temp file: full");
    let e = run_store(Some(Act::Rename)).0.unwrap_err();
    assert_eq!(e.render(), "failed to rename history temp file: full");
}
