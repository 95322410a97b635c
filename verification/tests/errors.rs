use sccache::error::{classify_storage_error, Cause, ErrorChain, RemoteStorageError};

fn remote(operation: &'static str, kind: &str) -> RemoteStorageError {
    RemoteStorageError {
        operation,
        kind: kind.to_string(),
    }
}

#[test]
fn remote_failures_show_operation_and_kind() {
    assert_eq!(remote("reading", "NotFound").to_text(), "reading (NotFound)");
    assert_eq!(ErrorChain::remote(remote("a", "b")).to_text(), "a (b)");
    assert_eq!(ErrorChain::message("plain").to_text(), "plain");
}

#[test]
fn summary_without_remote_failure_names_the_operation_alone() {
    let error = ErrorChain {
        outermost: Cause::Other("outer".to_string()),
        behind: vec![Cause::Other("secret".to_string())],
    };
    assert_eq!(
        classify_storage_error("read raw entry", &error),
        "cache storage read raw entry failed"
    );
}

#[test]
fn summary_finds_a_remote_failure_behind_context() {
    let error = ErrorChain {
        outermost: Cause::Other("outer".to_string()),
        behind: vec![
            Cause::Other("middle".to_string()),
            Cause::Remote(remote("x", "RateLimited")),
            Cause::Remote(remote("y", "NotFound")),
            Cause::Other("inner".to_string()),
        ],
    };
    assert_eq!(
        classify_storage_error("check", &error),
        "cache storage check failed (RateLimited)"
    );
    assert_eq!(error.remote_kind().map(|kind| kind.as_str()), Some("RateLimited"));
    assert_eq!(error.to_text(), "outer");
}

#[test]
fn summary_prefers_the_outermost_remote_failure() {
    let error = ErrorChain {
        outermost: Cause::Remote(remote("x", "Unexpected")),
        behind: vec![Cause::Remote(remote("y", "NotFound"))],
    };
    assert_eq!(
        classify_storage_error("", &error),
        "cache storage  failed (Unexpected)"
    );
}
