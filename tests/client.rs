use kftui_core::client::{
    attempt_error, client_error_message, create_client_with_specific_context, ClientResolution,
    ContextAttempt,
};

#[test]
fn no_context_returns_contexts_only() {
    let r = create_client_with_specific_context(None, &ContextAttempt::NoClient, 2, vec![]);
    assert!(matches!(r, ClientResolution::ContextsOnly));
}

#[test]
fn connected_context_succeeds() {
    let r = create_client_with_specific_context(Some("dev"), &ContextAttempt::Connected, 1, vec![]);
    assert!(matches!(r, ClientResolution::Connected));
}

#[test]
fn failed_context_lists_every_error() {
    let r = create_client_with_specific_context(
        Some("prod"),
        &ContextAttempt::ConfigFailed("no such context".to_string()),
        2,
        vec!["Failed to load /a: missing".to_string()],
    );
    match r {
        ClientResolution::Failed(m) => assert_eq!(
            m,
            "Unable to create Kubernetes client. Tried 2 kubeconfig path(s). Errors encountered:\n  \u{2022} Failed to load /a: missing\n  \u{2022} Failed to create configuration for context 'prod': no such context. Check if the context exists and is properly configured"
        ),
        other => panic!("unexpected {other:?}"),
    }
}

#[test]
fn no_client_error_line() {
    assert_eq!(
        attempt_error("stage", &ContextAttempt::NoClient),
        "Failed to create client for context 'stage': All connection strategies failed"
    );
}

#[test]
fn composite_message_without_errors() {
    assert_eq!(
        client_error_message(0, &vec![]),
        "Unable to create Kubernetes client. Tried 0 kubeconfig path(s). Errors encountered:\n"
    );
}
