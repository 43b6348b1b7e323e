//! Sync state, operations, methods and results of the commands.

use vstd::prelude::*;
use vstd::std_specs::convert::TryFromSpecImpl;

use crate::jj_utils::{WorkspaceHeadInfo, WorkspaceHeadInfoV};
use crate::tape::{render_spec, Failure, FailureV};
use crate::text::{cat2, cat4, copy_all, copy_opt, join, join_spec};

verus! {

// ---------------------------------------------------------------------------
// Sync state
// ---------------------------------------------------------------------------

/// How two workspaces stand to each other, by their effective heads and their last common
/// ancestor.
#[derive(Debug)]
pub enum SyncMode {
    /// Both are at the last common ancestor.
    InSync,
    /// Only the source has new work.
    SourceOnly,
    /// Only the target has new work.
    TargetOnly,
    /// Both have new work.
    Diverged,
    /// The state could not be determined.
    Error(String),
}

pub enum SyncModeV {
    InSync,
    SourceOnly,
    TargetOnly,
    Diverged,
    Error(Seq<char>),
}

impl DeepView for SyncMode {
    type V = SyncModeV;

    open spec fn deep_view(&self) -> SyncModeV {
        match self {
            SyncMode::InSync => SyncModeV::InSync,
            SyncMode::SourceOnly => SyncModeV::SourceOnly,
            SyncMode::TargetOnly => SyncModeV::TargetOnly,
            SyncMode::Diverged => SyncModeV::Diverged,
            SyncMode::Error(e) => SyncModeV::Error(e@),
        }
    }
}

pub open spec fn from_heads_spec(src_at_lca: bool, tgt_at_lca: bool) -> SyncModeV {
    if src_at_lca && tgt_at_lca {
        SyncModeV::InSync
    } else if tgt_at_lca {
        SyncModeV::SourceOnly
    } else if src_at_lca {
        SyncModeV::TargetOnly
    } else {
        SyncModeV::Diverged
    }
}

/// Are two modes of the same kind, whatever an error says?
pub open spec fn same_mode(a: SyncModeV, b: SyncModeV) -> bool {
    match (a, b) {
        (SyncModeV::InSync, SyncModeV::InSync) => true,
        (SyncModeV::SourceOnly, SyncModeV::SourceOnly) => true,
        (SyncModeV::TargetOnly, SyncModeV::TargetOnly) => true,
        (SyncModeV::Diverged, SyncModeV::Diverged) => true,
        (SyncModeV::Error(_), SyncModeV::Error(_)) => true,
        _ => false,
    }
}

impl SyncMode {
    /// The mode of two workspaces, from which of them is at the last common ancestor.
    pub fn from_heads(src_at_lca: bool, tgt_at_lca: bool) -> (r: SyncMode)
        ensures
            r.deep_view() == from_heads_spec(src_at_lca, tgt_at_lca),
    {
        match (src_at_lca, tgt_at_lca) {
            (true, true) => SyncMode::InSync,
            (false, true) => SyncMode::SourceOnly,
            (true, false) => SyncMode::TargetOnly,
            (false, false) => SyncMode::Diverged,
        }
    }

    pub fn same_kind(&self, other: &SyncMode) -> (r: bool)
        ensures
            r == same_mode(self.deep_view(), other.deep_view()),
    {
        match (self, other) {
            (SyncMode::InSync, SyncMode::InSync) => true,
            (SyncMode::SourceOnly, SyncMode::SourceOnly) => true,
            (SyncMode::TargetOnly, SyncMode::TargetOnly) => true,
            (SyncMode::Diverged, SyncMode::Diverged) => true,
            (SyncMode::Error(_), SyncMode::Error(_)) => true,
            _ => false,
        }
    }

    pub fn copy(&self) -> (r: SyncMode)
        ensures
            r.deep_view() == self.deep_view(),
    {
        match self {
            SyncMode::InSync => SyncMode::InSync,
            SyncMode::SourceOnly => SyncMode::SourceOnly,
            SyncMode::TargetOnly => SyncMode::TargetOnly,
            SyncMode::Diverged => SyncMode::Diverged,
            SyncMode::Error(e) => SyncMode::Error(e.clone()),
        }
    }
}

/// Head data of two workspaces, and the operation head it was read at.
#[derive(Debug)]
pub struct SyncModeInfo {
    pub mode: SyncMode,
    pub src_effective_head: String,
    pub tgt_effective_head: String,
    pub src_actual_head: String,
    pub tgt_actual_head: String,
    pub src_trivial_id: Option<String>,
    pub tgt_trivial_id: Option<String>,
    pub src_trivial_ids: Vec<String>,
    pub tgt_trivial_ids: Vec<String>,
    /// Last common ancestor of the effective heads.
    pub lca: String,
    /// Operation head when the data was read.
    pub op_head: String,
}

pub struct SyncModeInfoV {
    pub mode: SyncModeV,
    pub src_effective_head: Seq<char>,
    pub tgt_effective_head: Seq<char>,
    pub src_actual_head: Seq<char>,
    pub tgt_actual_head: Seq<char>,
    pub src_trivial_id: Option<Seq<char>>,
    pub tgt_trivial_id: Option<Seq<char>>,
    pub src_trivial_ids: Seq<Seq<char>>,
    pub tgt_trivial_ids: Seq<Seq<char>>,
    pub lca: Seq<char>,
    pub op_head: Seq<char>,
}

impl DeepView for SyncModeInfo {
    type V = SyncModeInfoV;

    open spec fn deep_view(&self) -> SyncModeInfoV {
        SyncModeInfoV {
            mode: self.mode.deep_view(),
            src_effective_head: self.src_effective_head@,
            tgt_effective_head: self.tgt_effective_head@,
            src_actual_head: self.src_actual_head@,
            tgt_actual_head: self.tgt_actual_head@,
            src_trivial_id: self.src_trivial_id.deep_view(),
            tgt_trivial_id: self.tgt_trivial_id.deep_view(),
            src_trivial_ids: self.src_trivial_ids.deep_view(),
            tgt_trivial_ids: self.tgt_trivial_ids.deep_view(),
            lca: self.lca@,
            op_head: self.op_head@,
        }
    }
}

pub open spec fn src_heads(i: SyncModeInfoV) -> WorkspaceHeadInfoV {
    WorkspaceHeadInfoV {
        effective_head: i.src_effective_head,
        actual_head: i.src_actual_head,
        trivial_id: i.src_trivial_id,
        trivial_ids: i.src_trivial_ids,
    }
}

pub open spec fn tgt_heads(i: SyncModeInfoV) -> WorkspaceHeadInfoV {
    WorkspaceHeadInfoV {
        effective_head: i.tgt_effective_head,
        actual_head: i.tgt_actual_head,
        trivial_id: i.tgt_trivial_id,
        trivial_ids: i.tgt_trivial_ids,
    }
}

impl SyncModeInfo {
    /// The head data of the source.
    pub fn src_head_info(&self) -> (r: WorkspaceHeadInfo)
        ensures
            r.deep_view() == src_heads(self.deep_view()),
    {
        WorkspaceHeadInfo {
            effective_head: self.src_effective_head.clone(),
            actual_head: self.src_actual_head.clone(),
            trivial_id: copy_opt(&self.src_trivial_id),
            trivial_ids: copy_all(&self.src_trivial_ids),
        }
    }

    /// The head data of the target.
    pub fn tgt_head_info(&self) -> (r: WorkspaceHeadInfo)
        ensures
            r.deep_view() == tgt_heads(self.deep_view()),
    {
        WorkspaceHeadInfo {
            effective_head: self.tgt_effective_head.clone(),
            actual_head: self.tgt_actual_head.clone(),
            trivial_id: copy_opt(&self.tgt_trivial_id),
            trivial_ids: copy_all(&self.tgt_trivial_ids),
        }
    }

    pub fn copy(&self) -> (r: SyncModeInfo)
        ensures
            r.deep_view() == self.deep_view(),
    {
        SyncModeInfo {
            mode: self.mode.copy(),
            src_effective_head: self.src_effective_head.clone(),
            tgt_effective_head: self.tgt_effective_head.clone(),
            src_actual_head: self.src_actual_head.clone(),
            tgt_actual_head: self.tgt_actual_head.clone(),
            src_trivial_id: copy_opt(&self.src_trivial_id),
            tgt_trivial_id: copy_opt(&self.tgt_trivial_id),
            src_trivial_ids: copy_all(&self.src_trivial_ids),
            tgt_trivial_ids: copy_all(&self.tgt_trivial_ids),
            lca: self.lca.clone(),
            op_head: self.op_head.clone(),
        }
    }
}

#[derive(Debug)]
pub struct TargetWorkspace {
    pub name: String,
    pub change_id: String,
    pub path: String,
}

// ---------------------------------------------------------------------------
// Operations
// ---------------------------------------------------------------------------

#[derive(Clone, Copy, PartialEq, Eq, Structural, Debug)]
pub enum Operation {
    // Both workspaces are kept.
    Merge,
    AdaptiveMerge,
    FastForwardTarget,
    FastForwardSource,
    MergeAbandonOld,
    Rebase,
    MergeSquash,
    // The source is merged into the target and forgotten.
    AdaptiveClose,
    MergeClose,
    MergeSquashClose,
    FastForwardTargetClose,
    // The source is disposed of.
    Detach,
    Abandon,
}

impl DeepView for Operation {
    type V = Operation;

    open spec fn deep_view(&self) -> Operation {
        *self
    }
}

pub open spec fn close_label(op: Operation) -> Option<Seq<char>> {
    match op {
        Operation::MergeClose => Some("merge"@),
        Operation::MergeSquashClose => Some("squash-merge"@),
        Operation::FastForwardTargetClose => Some("fast-forward"@),
        Operation::Detach => Some("detach"@),
        Operation::Abandon => Some("abandon"@),
        _ => None,
    }
}

impl Operation {
    /// The name of a concrete close operation.
    pub fn close_method_label(self) -> (r: Option<&'static str>)
        ensures
            r.deep_view() == close_label(self),
    {
        match self {
            Operation::MergeClose => Some("merge"),
            Operation::MergeSquashClose => Some("squash-merge"),
            Operation::FastForwardTargetClose => Some("fast-forward"),
            Operation::Detach => Some("detach"),
            Operation::Abandon => Some("abandon"),
            _ => None,
        }
    }
}

#[derive(Clone, Copy, PartialEq, Eq, Structural, Debug)]
pub enum BookmarkAction {
    NoAction,
    Advance,
    Delete,
}

impl Default for BookmarkAction {
    fn default() -> (r: BookmarkAction)
        ensures
            r == BookmarkAction::NoAction,
    {
        BookmarkAction::NoAction
    }
}

#[derive(Clone, Copy, PartialEq, Eq, Structural, Debug)]
pub enum DialogIntent {
    Transfer,
    Close,
}

/// How a workspace is to be closed.
#[derive(Clone, Copy, PartialEq, Eq, Structural, Debug)]
pub enum CloseMethod {
    Adaptive,
    Merge,
    SquashMerge,
    FastForward,
    Detach,
    Abandon,
}

impl Default for CloseMethod {
    fn default() -> (r: CloseMethod)
        ensures
            r == CloseMethod::Adaptive,
    {
        CloseMethod::Adaptive
    }
}

/// How work is to be transferred.
#[derive(Clone, Copy, PartialEq, Eq, Structural, Debug)]
pub enum TransferMethod {
    Adaptive,
    Merge,
    FastForwardTarget,
    FastForwardSource,
    MergeAbandonOld,
    Rebase,
    MergeSquash,
}

impl Default for TransferMethod {
    fn default() -> (r: TransferMethod)
        ensures
            r == TransferMethod::Adaptive,
    {
        TransferMethod::Adaptive
    }
}

/// The operation that a close method asks for.
pub open spec fn close_operation(m: CloseMethod) -> Operation {
    match m {
        CloseMethod::Adaptive => Operation::AdaptiveClose,
        CloseMethod::Merge => Operation::MergeClose,
        CloseMethod::SquashMerge => Operation::MergeSquashClose,
        CloseMethod::FastForward => Operation::FastForwardTargetClose,
        CloseMethod::Detach => Operation::Detach,
        CloseMethod::Abandon => Operation::Abandon,
    }
}

/// The operation that a transfer method asks for.
pub open spec fn transfer_operation(m: TransferMethod) -> Operation {
    match m {
        TransferMethod::Adaptive => Operation::AdaptiveMerge,
        TransferMethod::Merge => Operation::Merge,
        TransferMethod::FastForwardTarget => Operation::FastForwardTarget,
        TransferMethod::FastForwardSource => Operation::FastForwardSource,
        TransferMethod::MergeAbandonOld => Operation::MergeAbandonOld,
        TransferMethod::Rebase => Operation::Rebase,
        TransferMethod::MergeSquash => Operation::MergeSquash,
    }
}

pub open spec fn close_method(op: Operation) -> Result<CloseMethod, Operation> {
    match op {
        Operation::AdaptiveClose => Ok(CloseMethod::Adaptive),
        Operation::MergeClose => Ok(CloseMethod::Merge),
        Operation::MergeSquashClose => Ok(CloseMethod::SquashMerge),
        Operation::FastForwardTargetClose => Ok(CloseMethod::FastForward),
        Operation::Detach => Ok(CloseMethod::Detach),
        Operation::Abandon => Ok(CloseMethod::Abandon),
        other => Err(other),
    }
}

pub open spec fn transfer_method(op: Operation) -> Result<TransferMethod, Operation> {
    match op {
        Operation::AdaptiveMerge => Ok(TransferMethod::Adaptive),
        Operation::Merge => Ok(TransferMethod::Merge),
        Operation::FastForwardTarget => Ok(TransferMethod::FastForwardTarget),
        Operation::FastForwardSource => Ok(TransferMethod::FastForwardSource),
        Operation::MergeAbandonOld => Ok(TransferMethod::MergeAbandonOld),
        Operation::Rebase => Ok(TransferMethod::Rebase),
        Operation::MergeSquash => Ok(TransferMethod::MergeSquash),
        other => Err(other),
    }
}

impl TryFrom<Operation> for CloseMethod {
    type Error = Operation;

    fn try_from(op: Operation) -> (r: Result<CloseMethod, Operation>) {
        match op {
            Operation::AdaptiveClose => Ok(CloseMethod::Adaptive),
            Operation::MergeClose => Ok(CloseMethod::Merge),
            Operation::MergeSquashClose => Ok(CloseMethod::SquashMerge),
            Operation::FastForwardTargetClose => Ok(CloseMethod::FastForward),
            Operation::Detach => Ok(CloseMethod::Detach),
            Operation::Abandon => Ok(CloseMethod::Abandon),
            other => Err(other),
        }
    }
}

impl TryFromSpecImpl<Operation> for CloseMethod {
    open spec fn obeys_try_from_spec() -> bool {
        true
    }

    open spec fn try_from_spec(op: Operation) -> Result<CloseMethod, Operation> {
        close_method(op)
    }
}

impl TryFrom<Operation> for TransferMethod {
    type Error = Operation;

    fn try_from(op: Operation) -> (r: Result<TransferMethod, Operation>) {
        match op {
            Operation::AdaptiveMerge => Ok(TransferMethod::Adaptive),
            Operation::Merge => Ok(TransferMethod::Merge),
            Operation::FastForwardTarget => Ok(TransferMethod::FastForwardTarget),
            Operation::FastForwardSource => Ok(TransferMethod::FastForwardSource),
            Operation::MergeAbandonOld => Ok(TransferMethod::MergeAbandonOld),
            Operation::Rebase => Ok(TransferMethod::Rebase),
            Operation::MergeSquash => Ok(TransferMethod::MergeSquash),
            other => Err(other),
        }
    }
}

impl TryFromSpecImpl<Operation> for TransferMethod {
    open spec fn obeys_try_from_spec() -> bool {
        true
    }

    open spec fn try_from_spec(op: Operation) -> Result<TransferMethod, Operation> {
        transfer_method(op)
    }
}

/// Every operation belongs to exactly one method of exactly one command, and a method's operation
/// leads back to it.
pub proof fn law_methods_partition(op: Operation)
    ensures
        close_method(op) is Ok <==> transfer_method(op) is Err,
        close_method(op) matches Ok(m) ==> close_operation(m) == op,
        transfer_method(op) matches Ok(m) ==> transfer_operation(m) == op,
        forall|m: CloseMethod| #[trigger]
            close_method(close_operation(m)) == Ok::<CloseMethod, Operation>(m),
        forall|m: TransferMethod| #[trigger]
            transfer_method(transfer_operation(m)) == Ok::<TransferMethod, Operation>(m),
{
}

// ---------------------------------------------------------------------------
// Results
// ---------------------------------------------------------------------------

/// What went wrong after the main operation was done.
#[derive(Debug)]
pub enum PostOperationError {
    Command { command: String, stderr: String },
    Message(String),
}

pub enum PostOperationErrorV {
    Command { command: Seq<char>, stderr: Seq<char> },
    Message(Seq<char>),
}

impl DeepView for PostOperationError {
    type V = PostOperationErrorV;

    open spec fn deep_view(&self) -> PostOperationErrorV {
        match self {
            PostOperationError::Command { command, stderr } => PostOperationErrorV::Command {
                command: command@,
                stderr: stderr@,
            },
            PostOperationError::Message(m) => PostOperationErrorV::Message(m@),
        }
    }
}

/// The failing command when there is one, else all messages in one line.
pub open spec fn post_error_spec(e: FailureV) -> PostOperationErrorV {
    match e.command {
        Some(c) => PostOperationErrorV::Command { command: c.command, stderr: c.stderr },
        None => PostOperationErrorV::Message(render_spec(e)),
    }
}

pub open spec fn block_spec(e: PostOperationErrorV) -> Seq<char> {
    match e {
        PostOperationErrorV::Command { command, stderr } => "Cmd: `"@ + command + "`\n"@ + stderr,
        PostOperationErrorV::Message(m) => "Error: "@ + m,
    }
}

impl PostOperationError {
    pub fn from_anyhow(error: &Failure) -> (r: PostOperationError)
        ensures
            r.deep_view() == post_error_spec(error.deep_view()),
    {
        match &error.command {
            Some(c) => PostOperationError::Command {
                command: c.command.clone(),
                stderr: c.stderr.clone(),
            },
            None => PostOperationError::Message(error.render()),
        }
    }

    pub fn display_block(&self) -> (r: String)
        ensures
            r@ == block_spec(self.deep_view()),
    {
        match self {
            PostOperationError::Command { command, stderr } => cat4(
                "Cmd: `",
                command,
                "`\n",
                stderr,
            ),
            PostOperationError::Message(m) => cat2("Error: ", m),
        }
    }
}

/// The blocks of all errors, an empty line between them.
pub open spec fn blocks_spec(errors: Seq<PostOperationErrorV>) -> Seq<char> {
    join_spec(errors.map_values(|e: PostOperationErrorV| block_spec(e)), "\n\n"@)
}

pub fn display_blocks(errors: &[PostOperationError]) -> (r: String)
    ensures
        r@ == blocks_spec(errors.deep_view()),
{
    let ghost all = errors.deep_view().map_values(|e: PostOperationErrorV| block_spec(e));
    let mut blocks: Vec<String> = Vec::new();
    for i in 0..errors.len()
        invariant
            all == errors.deep_view().map_values(|e: PostOperationErrorV| block_spec(e)),
            blocks.deep_view() == all.take(i as int),
    {
        let ghost before = blocks.deep_view();
        let b = errors[i].display_block();
        blocks.push(b);
        assert(blocks.deep_view() =~= before.push(b@));
        assert(all.take(i + 1) =~= all.take(i as int).push(all[i as int]));
    }
    assert(all.take(errors@.len() as int) =~= all);
    join(&blocks, "\n\n")
}

pub open spec fn post_close_spec(
    workspace_name: Seq<char>,
    errors: Seq<PostOperationErrorV>,
) -> Seq<char> {
    "workspace '"@ + workspace_name + "' closed with error.\n"@ + blocks_spec(errors)
}

pub fn format_post_close_errors(workspace_name: &str, errors: &[PostOperationError]) -> (r: String)
    ensures
        r@ == post_close_spec(workspace_name@, errors.deep_view()),
{
    cat4("workspace '", workspace_name, "' closed with error.\n", &display_blocks(errors))
}

/// What a close or a transfer did.
#[derive(Debug)]
pub struct CloseTransferResult {
    /// Workspaces that stayed stale.
    pub stale_warnings: Vec<String>,
    /// Warnings that have nothing to do with staleness.
    pub warnings: Vec<String>,
    /// What failed after the main operation.
    pub post_errors: Vec<PostOperationError>,
    /// The operation that was executed.
    pub resolved_operation: Operation,
    /// Other workspaces that the operation was expected to make stale.
    pub predicted_stale: Vec<String>,
    /// The directory to remove if the user agrees.
    pub pending_remove_path: Option<String>,
}

pub struct CloseTransferResultV {
    pub stale_warnings: Seq<Seq<char>>,
    pub warnings: Seq<Seq<char>>,
    pub post_errors: Seq<PostOperationErrorV>,
    pub resolved_operation: Operation,
    pub predicted_stale: Seq<Seq<char>>,
    pub pending_remove_path: Option<Seq<char>>,
}

impl DeepView for CloseTransferResult {
    type V = CloseTransferResultV;

    open spec fn deep_view(&self) -> CloseTransferResultV {
        CloseTransferResultV {
            stale_warnings: self.stale_warnings.deep_view(),
            warnings: self.warnings.deep_view(),
            post_errors: self.post_errors.deep_view(),
            resolved_operation: self.resolved_operation,
            predicted_stale: self.predicted_stale.deep_view(),
            pending_remove_path: self.pending_remove_path.deep_view(),
        }
    }
}

/// What a creation did.
#[derive(Debug)]
pub struct CreateResult {
    pub workspace_name: String,
    pub workspace_path: String,
    pub warnings: Vec<String>,
}

pub struct CreateResultV {
    pub workspace_name: Seq<char>,
    pub workspace_path: Seq<char>,
    pub warnings: Seq<Seq<char>>,
}

impl DeepView for CreateResult {
    type V = CreateResultV;

    open spec fn deep_view(&self) -> CreateResultV {
        CreateResultV {
            workspace_name: self.workspace_name@,
            workspace_path: self.workspace_path@,
            warnings: self.warnings.deep_view(),
        }
    }
}

} // verus!
