//! Undo and redo of compound actions.
//!
//! An action runs several jj commands. It is recorded with the operation before it and the one
//! after it, so that restoring one of them undoes or redoes all of it in one step.

use vstd::prelude::*;

use crate::paths::{file_stem, file_stem_spec, parent, parent_spec, path_join, path_join_spec};
use crate::tape::{
    agrees, bind, need, need_spec, request, request_spec, Act, Out, Stop, Tape, Trace,
};
use crate::text::{args1, cat2, copy_opt, same};

verus! {

/// How many actions are kept. The oldest go first.
pub const MAX_RECORDS: usize = 50;

/// An action with the operations before and after it.
#[derive(Debug, Clone)]
pub struct ActionRecord {
    pub label: String,
    pub pre_op_id: String,
    pub post_op_id: String,
}

pub struct ActionRecordV {
    pub label: Seq<char>,
    pub pre_op_id: Seq<char>,
    pub post_op_id: Seq<char>,
}

impl DeepView for ActionRecord {
    type V = ActionRecordV;

    open spec fn deep_view(&self) -> ActionRecordV {
        ActionRecordV {
            label: self.label@,
            pre_op_id: self.pre_op_id@,
            post_op_id: self.post_op_id@,
        }
    }
}

/// A history as it is stored.
#[derive(Debug, Clone)]
pub struct PersistedHistory {
    pub cursor: usize,
    pub last_op_head: Option<String>,
    pub records: Vec<ActionRecord>,
}

/// The records, of which the first `cursor` are applied, and the operation after the last change.
pub struct HistoryV {
    pub records: Seq<ActionRecordV>,
    pub cursor: nat,
    pub last_op_head: Option<Seq<char>>,
}

impl DeepView for PersistedHistory {
    type V = HistoryV;

    open spec fn deep_view(&self) -> HistoryV {
        HistoryV {
            records: self.records.deep_view(),
            cursor: self.cursor as nat,
            last_op_head: self.last_op_head.deep_view(),
        }
    }
}

/// The recorded actions: first those that are applied, then those that can be redone.
#[derive(Debug)]
pub struct ActionStack {
    records: Vec<ActionRecord>,
    cursor: usize,
}

impl ActionStack {
    #[verifier::type_invariant]
    spec fn in_range(self) -> bool {
        self.cursor <= self.records@.len()
    }

    /// All records, the applied ones first.
    pub closed spec fn held(&self) -> Seq<ActionRecordV> {
        self.records.deep_view()
    }

    /// How many records are applied.
    pub closed spec fn applied(&self) -> nat {
        self.cursor as nat
    }
}

/// What was done, of it what is applied, and what can be redone.
#[derive(Debug)]
pub struct ActionHistory {
    pub stack: ActionStack,
    /// The operation after the last change, be it a record, an undo or a redo. Another one means
    /// that jj was used directly. Restoring an operation makes a new one, so whoever restores what
    /// [`ActionHistory::undo`] or [`ActionHistory::redo`] gives sets it here.
    pub last_op_head: Option<String>,
}

impl DeepView for ActionHistory {
    type V = HistoryV;

    open spec fn deep_view(&self) -> HistoryV {
        HistoryV {
            records: self.stack.held(),
            cursor: self.stack.applied(),
            last_op_head: self.last_op_head.deep_view(),
        }
    }
}

impl HistoryV {
    /// No more is applied than there is.
    pub open spec fn wf(self) -> bool {
        self.cursor <= self.records.len()
    }
}

/// A history in which nothing happened.
pub open spec fn empty_history() -> HistoryV {
    HistoryV { records: Seq::empty(), cursor: 0, last_op_head: None }
}

/// The history that was stored; a cursor that is too large is cut.
pub open spec fn loaded(p: Option<HistoryV>) -> HistoryV {
    match p {
        Some(h) => HistoryV {
            cursor: if h.cursor <= h.records.len() {
                h.cursor
            } else {
                h.records.len()
            },
            ..h
        },
        None => empty_history(),
    }
}

/// The history with one more action applied. What could be redone is gone, and so is the oldest
/// action where there are too many.
pub open spec fn recorded(h: HistoryV, r: ActionRecordV) -> HistoryV {
    let all = h.records.take(h.cursor as int).push(r);
    let kept = if all.len() > MAX_RECORDS {
        all.drop_first()
    } else {
        all
    };
    HistoryV { records: kept, cursor: kept.len(), last_op_head: Some(r.post_op_id) }
}

/// What to restore for an undo, and the label of what is undone.
pub open spec fn undo_spec(h: HistoryV) -> Option<(Seq<char>, Seq<char>)> {
    if h.cursor == 0 {
        None
    } else {
        let r = h.records[h.cursor - 1];
        Some((r.pre_op_id, r.label))
    }
}

pub open spec fn undone(h: HistoryV) -> HistoryV {
    if h.cursor == 0 {
        h
    } else {
        HistoryV { cursor: (h.cursor - 1) as nat, ..h }
    }
}

/// What to restore for a redo, and the label of what is redone.
pub open spec fn redo_spec(h: HistoryV) -> Option<(Seq<char>, Seq<char>)> {
    if h.cursor >= h.records.len() {
        None
    } else {
        let r = h.records[h.cursor as int];
        Some((r.post_op_id, r.label))
    }
}

pub open spec fn redone(h: HistoryV) -> HistoryV {
    if h.cursor >= h.records.len() {
        h
    } else {
        HistoryV { cursor: h.cursor + 1, ..h }
    }
}

fn copy_record(r: &ActionRecord) -> (c: ActionRecord)
    ensures
        c.deep_view() == r.deep_view(),
{
    ActionRecord {
        label: r.label.clone(),
        pre_op_id: r.pre_op_id.clone(),
        post_op_id: r.post_op_id.clone(),
    }
}

/// The first `n` records.
fn copy_records(v: &Vec<ActionRecord>, n: usize) -> (r: Vec<ActionRecord>)
    requires
        n <= v@.len(),
    ensures
        r.deep_view() == v.deep_view().take(n as int),
{
    let ghost all = v.deep_view();
    let mut out: Vec<ActionRecord> = Vec::new();
    assert(out.deep_view() =~= all.take(0));
    for i in 0..n
        invariant
            n <= v@.len(),
            all == v.deep_view(),
            out.deep_view() == all.take(i as int),
    {
        let ghost before = out.deep_view();
        out.push(copy_record(&v[i]));
        assert(out.deep_view() =~= before.push(v@[i as int].deep_view()));
        assert(all.take(i + 1) =~= all.take(i as int).push(all[i as int]));
    }
    out
}

impl Default for ActionHistory {
    fn default() -> (r: ActionHistory)
        ensures
            r.deep_view() == empty_history(),
    {
        let records: Vec<ActionRecord> = Vec::new();
        assert(records.deep_view() =~= Seq::empty());
        ActionHistory { stack: ActionStack { records, cursor: 0 }, last_op_head: None }
    }
}

impl ActionHistory {
    pub fn new() -> (r: ActionHistory)
        ensures
            r.deep_view() == empty_history(),
            r.deep_view().wf(),
    {
        ActionHistory::default()
    }

    /// The history that was stored; an empty one if it could not be read.
    pub fn load(parsed: Option<PersistedHistory>) -> (r: ActionHistory)
        ensures
            r.deep_view() == loaded(parsed.deep_view()),
            r.deep_view().wf(),
    {
        match parsed {
            Some(p) => {
                assert(p.records.deep_view().len() == p.records@.len());
                let cursor = if p.cursor <= p.records.len() {
                    p.cursor
                } else {
                    p.records.len()
                };
                ActionHistory {
                    stack: ActionStack { records: p.records, cursor },
                    last_op_head: p.last_op_head,
                }
            },
            None => ActionHistory::new(),
        }
    }

    /// What to store.
    pub fn save(&self) -> (r: PersistedHistory)
        ensures
            r.deep_view() == self.deep_view(),
            r.deep_view().wf(),
    {
        proof {
            use_type_invariant(&self.stack);
        }
        let records = copy_records(&self.stack.records, self.stack.records.len());
        assert(records.deep_view() =~= self.stack.records.deep_view());
        PersistedHistory {
            cursor: self.stack.cursor,
            last_op_head: copy_opt(&self.last_op_head),
            records,
        }
    }

    /// Records a completed action.
    pub fn record(&mut self, label: String, pre: String, post: String)
        ensures
            final(self).deep_view() == recorded(
                old(self).deep_view(),
                ActionRecordV { label: label@, pre_op_id: pre@, post_op_id: post@ },
            ),
            final(self).deep_view().wf(),
    {
        proof {
            use_type_invariant(&self.stack);
        }
        let ghost h = self.deep_view();
        let ghost rv = ActionRecordV { label: label@, pre_op_id: pre@, post_op_id: post@ };
        assert(h.records.len() == self.stack.records@.len());
        let mut kept = copy_records(&self.stack.records, self.stack.cursor);
        let head = post.clone();
        kept.push(ActionRecord { label, pre_op_id: pre, post_op_id: post });
        let ghost all = h.records.take(h.cursor as int).push(rv);
        assert(kept.deep_view() =~= all);
        assert(kept@.len() == all.len());
        if kept.len() > MAX_RECORDS {
            let _ = kept.remove(0);
            assert(kept.deep_view() =~= all.drop_first());
        }
        assert(kept.deep_view().len() == kept@.len());
        self.stack = ActionStack { cursor: kept.len(), records: kept };
        self.last_op_head = Some(head);
    }

    /// Records an action if both operations are known and differ.
    pub fn maybe_record(&mut self, label: String, pre: Option<String>, post: Option<String>)
        ensures
            final(self).deep_view() == (match (pre.deep_view(), post.deep_view()) {
                (Some(a), Some(b)) => if a != b {
                    recorded(
                        old(self).deep_view(),
                        ActionRecordV { label: label@, pre_op_id: a, post_op_id: b },
                    )
                } else {
                    old(self).deep_view()
                },
                _ => old(self).deep_view(),
            }),
            final(self).deep_view().wf(),
    {
        proof {
            use_type_invariant(&self.stack);
            assert(self.stack.held().len() == self.stack.records@.len());
        }
        if let Some(a) = pre {
            if let Some(b) = post {
                if !same(&a, &b) {
                    self.record(label, a, b);
                }
            }
        }
    }

    /// Undoes one action: the operation to restore and the label.
    pub fn undo(&mut self) -> (r: Option<(&str, &str)>)
        ensures
            r.deep_view() == undo_spec(old(self).deep_view()),
            final(self).deep_view() == undone(old(self).deep_view()),
            final(self).deep_view().wf(),
    {
        proof {
            use_type_invariant(&self.stack);
        }
        assert(self.stack.records.deep_view().len() == self.stack.records@.len());
        if self.stack.cursor == 0 {
            return None;
        }
        self.stack.cursor = self.stack.cursor - 1;
        let at = self.stack.cursor;
        assert(self.stack.records.deep_view()[at as int] == self.stack.records@[at as int].deep_view());
        let r = &self.stack.records[at];
        Some((r.pre_op_id.as_str(), r.label.as_str()))
    }

    /// Redoes one action: the operation to restore and the label.
    pub fn redo(&mut self) -> (r: Option<(&str, &str)>)
        ensures
            r.deep_view() == redo_spec(old(self).deep_view()),
            final(self).deep_view() == redone(old(self).deep_view()),
            final(self).deep_view().wf(),
    {
        proof {
            use_type_invariant(&self.stack);
        }
        assert(self.stack.records.deep_view().len() == self.stack.records@.len());
        if self.stack.cursor >= self.stack.records.len() {
            return None;
        }
        let at = self.stack.cursor;
        self.stack.cursor = self.stack.cursor + 1;
        assert(self.stack.records.deep_view()[at as int] == self.stack.records@[at as int].deep_view());
        let r = &self.stack.records[at];
        Some((r.post_op_id.as_str(), r.label.as_str()))
    }

    pub fn can_undo(&self) -> (r: bool)
        ensures
            r == undo_spec(self.deep_view()) is Some,
    {
        self.stack.cursor > 0
    }

    pub fn can_redo(&self) -> (r: bool)
        ensures
            r == redo_spec(self.deep_view()) is Some,
    {
        assert(self.stack.records.deep_view().len() == self.stack.records@.len());
        self.stack.cursor < self.stack.records.len()
    }

    /// The actions that can be undone.
    pub fn applied_records(&self) -> (r: &[ActionRecord])
        ensures
            self.deep_view().wf(),
            r.deep_view() == self.deep_view().records.take(self.deep_view().cursor as int),
    {
        proof {
            use_type_invariant(&self.stack);
        }
        assert(self.stack.records.deep_view().len() == self.stack.records@.len());
        let r = vstd::slice::slice_subrange(self.stack.records.as_slice(), 0, self.stack.cursor);
        assert(r.deep_view() =~= self.deep_view().records.take(self.deep_view().cursor as int));
        r
    }
}

// ---------------------------------------------------------------------------
// Storing
// ---------------------------------------------------------------------------

/// `path` with its extension, if any, replaced by `tmp`.
pub open spec fn temp_of(path: Seq<char>) -> Seq<char> {
    match (parent_spec(path), file_stem_spec(path)) {
        (Some(dir), Some(name)) => path_join_spec(
            dir,
            name + ".tmp"@,
        ),
        _ => path,
    }
}

fn temp_for(path: &str) -> (r: String)
    ensures
        r@ == temp_of(path@),
{
    match (parent(path), file_stem(path)) {
        (Some(dir), Some(name)) => path_join(&dir, &cat2(&name, ".tmp")),
        _ => path.to_string(),
    }
}

#[verifier::opaque]
pub open spec fn store_spec(t: Trace, path: Seq<char>, json: Seq<char>) -> Out<()> {
    bind(
        need_spec(
            t,
            request_spec(Act::WriteFile, temp_of(path), seq![json]),
            "failed to write history temp file"@,
        ),
        |s: Seq<char>, t: Trace|
            bind(
                need_spec(
                    t,
                    request_spec(Act::Rename, temp_of(path), seq![path]),
                    "failed to rename history temp file"@,
                ),
                |s: Seq<char>, t: Trace| Out::Got((), t),
            ),
    )
}

/// Writes a stored history, through a temporary file.
pub fn store(tape: &mut Tape, path: &str, json: &str) -> (r: Result<(), Stop>)
    ensures
        agrees(r, final(tape)@, store_spec(old(tape)@, path@, json@)),
{
    reveal(store_spec);
    let tmp = temp_for(path);
    let _ = need(
        tape,
        request(Act::WriteFile, &tmp, args1(json)),
        "failed to write history temp file",
    )?;
    let _ = need(
        tape,
        request(Act::Rename, &tmp, args1(path)),
        "failed to rename history temp file",
    )?;
    Ok(())
}

// ---------------------------------------------------------------------------
// Laws
// ---------------------------------------------------------------------------

/// Redo after undo gives the action back, and leads to the operation that it ended with.
pub proof fn law_redo_reverts_undo(h: HistoryV)
    requires
        h.wf(),
        h.cursor > 0,
    ensures
        redone(undone(h)) == h,
        redo_spec(undone(h)) matches Some(r) && r == (
            h.records[h.cursor - 1].post_op_id,
            h.records[h.cursor - 1].label,
        ),
{
}

/// Undo after redo takes the action back, and leads to the operation before it.
pub proof fn law_undo_reverts_redo(h: HistoryV)
    requires
        h.wf(),
        h.cursor < h.records.len(),
    ensures
        undone(redone(h)) == h,
        undo_spec(redone(h)) matches Some(r) && r == (
            h.records[h.cursor as int].pre_op_id,
            h.records[h.cursor as int].label,
        ),
{
}

/// What was recorded last is undone first, nothing can be redone after a record, and the operation
/// of the record is remembered.
pub proof fn law_record_then_undo(h: HistoryV, r: ActionRecordV)
    requires
        h.wf(),
    ensures
        undo_spec(recorded(h, r)) == Some((r.pre_op_id, r.label)),
        redo_spec(recorded(h, r)) is None,
        recorded(h, r).last_op_head == Some(r.post_op_id),
{
}

/// Every operation keeps a history well formed, and none lets it grow over the cap.
pub proof fn law_history_stays_bounded(h: HistoryV, r: ActionRecordV)
    requires
        h.wf(),
        h.records.len() <= MAX_RECORDS,
    ensures
        recorded(h, r).wf() && recorded(h, r).records.len() <= MAX_RECORDS,
        undone(h).wf() && undone(h).records == h.records,
        redone(h).wf() && redone(h).records == h.records,
{
}

/// A record drops nothing but what could be redone and, at the cap, the oldest action.
pub proof fn law_record_keeps_applied(h: HistoryV, r: ActionRecordV)
    requires
        h.wf(),
    ensures
        h.cursor < MAX_RECORDS ==> recorded(h, r).records.drop_last() == h.records.take(
            h.cursor as int,
        ),
        h.cursor >= MAX_RECORDS ==> recorded(h, r).records.drop_last() == h.records.take(
            h.cursor as int,
        ).drop_first(),
{
    let all = h.records.take(h.cursor as int).push(r);
    if h.cursor < MAX_RECORDS {
        assert(all.drop_last() =~= h.records.take(h.cursor as int));
    } else {
        assert(all.drop_first().drop_last() =~= h.records.take(h.cursor as int).drop_first());
    }
}

/// A history that was stored comes back as it was.
pub proof fn law_stored_history_comes_back(h: HistoryV)
    requires
        h.wf(),
    ensures
        loaded(Some(h)) == h,
{
}

} // verus!
