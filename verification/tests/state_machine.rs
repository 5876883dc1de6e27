use gcop_rs::error::GcopError;
use gcop_rs::state::{CommitState, GenerationResult, UserAction};
use gcop_rs::commit::{format_edited_header, format_message_header};

#[test]
fn test_initial_state() {
    let state = CommitState::Generating { attempt: 0, feedbacks: vec![] };
    assert!(!state.is_at_max_retries(10));
}

#[test]
fn test_max_retries_boundary() {
    let state_at_limit = CommitState::Generating { attempt: 10, feedbacks: vec![] };
    assert!(state_at_limit.is_at_max_retries(10));

    let state_before_limit = CommitState::Generating { attempt: 9, feedbacks: vec![] };
    assert!(!state_before_limit.is_at_max_retries(10));
}

#[test]
fn test_generating_success_no_auto_accept() {
    let state = CommitState::Generating { attempt: 0, feedbacks: vec![] };
    let result = state
        .handle_generation(GenerationResult::Success("feat: add feature".to_string()), false)
        .unwrap();

    assert!(matches!(result, CommitState::WaitingForAction {
        message,
        attempt: 0,
        ..
    } if message == "feat: add feature"));
}

#[test]
fn test_generating_success_with_auto_accept() {
    let state = CommitState::Generating { attempt: 0, feedbacks: vec![] };
    let result = state
        .handle_generation(GenerationResult::Success("feat: add feature".to_string()), true)
        .unwrap();

    assert!(matches!(result, CommitState::Accepted { message }
        if message == "feat: add feature"));
}

#[test]
fn test_generating_max_retries_exceeded() {
    let state = CommitState::Generating { attempt: 10, feedbacks: vec![] };
    let result = state.handle_generation(GenerationResult::MaxRetriesExceeded, false);

    assert!(result.is_err());
    if let Err(e) = result {
        assert!(matches!(e, GcopError::RetryLimitExceeded));
        assert!(e.message_string().contains("Too many retries"));
    }
}

#[test]
fn test_generating_preserves_feedbacks() {
    let feedbacks = vec!["use Chinese".to_string(), "be concise".to_string()];
    let state = CommitState::Generating { attempt: 2, feedbacks: feedbacks.clone() };

    let result = state
        .handle_generation(GenerationResult::Success("msg".to_string()), false)
        .unwrap();

    if let CommitState::WaitingForAction { feedbacks: f, attempt, .. } = result {
        assert_eq!(f, feedbacks);
        assert_eq!(attempt, 2);
    } else {
        panic!("Expected WaitingForAction");
    }
}

#[test]
fn test_waiting_accept() {
    let state = CommitState::WaitingForAction {
        message: "test msg".to_string(),
        attempt: 0,
        feedbacks: vec![],
    };

    let result = state.handle_action(UserAction::Accept);
    assert!(matches!(result, CommitState::Accepted { message }
        if message == "test msg"));
}

#[test]
fn test_waiting_edit_success() {
    let state = CommitState::WaitingForAction {
        message: "original".to_string(),
        attempt: 1,
        feedbacks: vec!["fb1".to_string()],
    };

    let result = state.handle_action(UserAction::Edit { new_message: "edited".to_string() });

    assert!(matches!(result, CommitState::WaitingForAction {
        message,
        attempt: 1,
        feedbacks
    } if message == "edited" && feedbacks.len() == 1));
}

#[test]
fn test_waiting_edit_cancelled_preserves_message() {
    let state = CommitState::WaitingForAction {
        message: "original".to_string(),
        attempt: 0,
        feedbacks: vec![],
    };

    let result = state.handle_action(UserAction::EditCancelled);

    assert!(matches!(result, CommitState::WaitingForAction {
        message,
        ..
    } if message == "original"));
}

#[test]
fn test_waiting_retry_increments_attempt() {
    let state = CommitState::WaitingForAction {
        message: "msg".to_string(),
        attempt: 2,
        feedbacks: vec!["old".to_string()],
    };

    let result = state.handle_action(UserAction::Retry);

    assert!(matches!(result, CommitState::Generating {
        attempt: 3,
        feedbacks
    } if feedbacks == vec!["old".to_string()]));
}

#[test]
fn test_waiting_retry_with_feedback_accumulates() {
    let state = CommitState::WaitingForAction {
        message: "msg".to_string(),
        attempt: 0,
        feedbacks: vec!["first".to_string()],
    };

    let result = state.handle_action(UserAction::RetryWithFeedback {
        feedback: Some("second".to_string()),
    });

    if let CommitState::Generating { attempt, feedbacks } = result {
        assert_eq!(attempt, 1);
        assert_eq!(feedbacks, vec!["first".to_string(), "second".to_string()]);
    } else {
        panic!("Expected Generating");
    }
}

#[test]
fn test_waiting_retry_with_no_feedback() {
    let state = CommitState::WaitingForAction {
        message: "msg".to_string(),
        attempt: 0,
        feedbacks: vec![],
    };

    let result = state.handle_action(UserAction::RetryWithFeedback { feedback: None });

    if let CommitState::Generating { feedbacks, .. } = result {
        assert!(feedbacks.is_empty());
    } else {
        panic!("Expected Generating");
    }
}

#[test]
fn test_waiting_quit() {
    let state = CommitState::WaitingForAction {
        message: "msg".to_string(),
        attempt: 5,
        feedbacks: vec!["a".to_string(), "b".to_string()],
    };

    let result = state.handle_action(UserAction::Quit);
    assert!(matches!(result, CommitState::Cancelled));
}

#[test]
fn test_edit_then_accept_commits_edited_text() {
    let state = CommitState::WaitingForAction {
        message: "original".to_string(),
        attempt: 0,
        feedbacks: vec![],
    };
    let edited = "  edited\n\twith whitespace  \n".to_string();
    let after_edit = state.handle_action(UserAction::Edit { new_message: edited.clone() });
    let result = after_edit.handle_action(UserAction::Accept);
    assert!(matches!(result, CommitState::Accepted { message } if message == edited));
}

#[test]
fn test_retry_rounds_accumulate_in_order() {
    let mut state = CommitState::WaitingForAction {
        message: "m0".to_string(),
        attempt: 0,
        feedbacks: vec![],
    };
    let actions = vec![
        UserAction::RetryWithFeedback { feedback: Some("s1".to_string()) },
        UserAction::Retry,
        UserAction::RetryWithFeedback { feedback: Some("s2".to_string()) },
        UserAction::RetryWithFeedback { feedback: None },
        UserAction::RetryWithFeedback { feedback: Some("s3".to_string()) },
    ];
    for (round, action) in actions.into_iter().enumerate() {
        let generating = state.handle_action(action);
        state = generating
            .handle_generation(GenerationResult::Success(format!("m{}", round + 1)), false)
            .unwrap();
    }
    if let CommitState::WaitingForAction { attempt, feedbacks, message } = state {
        assert_eq!(attempt, 5);
        assert_eq!(feedbacks, vec!["s1".to_string(), "s2".to_string(), "s3".to_string()]);
        assert_eq!(message, "m5");
    } else {
        panic!("Expected WaitingForAction");
    }
}

#[test]
fn test_format_message_header_first_attempt() {
    let header = format_message_header(0);
    assert_eq!(header, "Generated commit message:");
}

#[test]
fn test_format_message_header_second_attempt() {
    let header = format_message_header(1);
    assert_eq!(header, "Regenerated commit message (attempt 2):");
}

#[test]
fn test_format_message_header_third_attempt() {
    let header = format_message_header(2);
    assert_eq!(header, "Regenerated commit message (attempt 3):");
}

#[test]
fn test_format_edited_header() {
    let header = format_edited_header();
    assert_eq!(header, "Updated commit message:");
}
