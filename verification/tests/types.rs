use ji::commands::types::{
    format_post_close_errors, CloseMethod, Operation, PostOperationError, TransferMethod,
};
use ji::tape::{Failure, JjCommandError};

#[test]
fn post_close_command_error_matches_status_contract() {
    let error = PostOperationError::Command {
        command: "jj bookmark set --allow-backwards --revision abc -- recovery".into(),
        stderr: "Error: refused\nHint: retry".into(),
    };
    assert_eq!(
        format_post_close_errors("recovery", &[error]),
        "workspace 'recovery' closed with error.\n\
         Cmd: `jj bookmark set --allow-backwards --revision abc -- recovery`\n\
         Error: refused\n\
         Hint: retry"
    );
}

#[test]
fn post_close_blocks_are_apart() {
    let errors = [
        PostOperationError::Message("disk full".into()),
        PostOperationError::Command { command: "jj x".into(), stderr: "no".into() },
    ];
    assert_eq!(
        format_post_close_errors("w", &errors),
        "workspace 'w' closed with error.\nError: disk full\n\nCmd: `jj x`\nno"
    );
}

#[test]
fn a_failed_command_is_shown_with_its_stderr() {
    let failure = Failure {
        chain: vec!["outer".to_string(), "inner".to_string()],
        command: Some(JjCommandError {
            command: "jj log".to_string(),
            stdout: String::new(),
            stderr: "boom".to_string(),
        }),
    };
    assert_eq!(PostOperationError::from_anyhow(&failure).display_block(), "Cmd: `jj log`\nboom");
    let plain = Failure { command: None, ..failure };
    assert_eq!(PostOperationError::from_anyhow(&plain).display_block(), "Error: outer: inner");
}

#[test]
fn each_operation_has_one_method() {
    for op in [
        Operation::AdaptiveMerge,
        Operation::Merge,
        Operation::FastForwardTarget,
        Operation::FastForwardSource,
        Operation::MergeAbandonOld,
        Operation::Rebase,
        Operation::MergeSquash,
        Operation::AdaptiveClose,
        Operation::MergeClose,
        Operation::MergeSquashClose,
        Operation::FastForwardTargetClose,
        Operation::Detach,
        Operation::Abandon,
    ] {
        let close = CloseMethod::try_from(op);
        let transfer = TransferMethod::try_from(op);
        assert!(close.is_ok() != transfer.is_ok(), "{op:?}");
    }
}

#[test]
fn operations_lead_to_their_methods() {
    assert_eq!(CloseMethod::try_from(Operation::AdaptiveClose), Ok(CloseMethod::default()));
    assert_eq!(CloseMethod::try_from(Operation::Detach), Ok(CloseMethod::Detach));
    assert_eq!(CloseMethod::try_from(Operation::Rebase), Err(Operation::Rebase));
    assert_eq!(TransferMethod::try_from(Operation::AdaptiveMerge), Ok(TransferMethod::default()));
    assert_eq!(TransferMethod::try_from(Operation::Rebase), Ok(TransferMethod::Rebase));
    assert_eq!(TransferMethod::try_from(Operation::Detach), Err(Operation::Detach));
}
