use git_sync_service::descriptors::{
    i64_decimal, some_or_empty, u64_decimal, Contributor, GitCommit, GitRemote,
};
use git_sync_service::errors::SyncError;

#[test]
fn decimal_rendering_matches_the_usual_notation() {
    assert_eq!(u64_decimal(0), "0");
    assert_eq!(u64_decimal(7), "7");
    assert_eq!(u64_decimal(10), "10");
    assert_eq!(u64_decimal(1234567890), "1234567890");
    assert_eq!(u64_decimal(u64::MAX), "18446744073709551615");
    assert_eq!(i64_decimal(0), "0");
    assert_eq!(i64_decimal(42), "42");
    assert_eq!(i64_decimal(-1), "-1");
    assert_eq!(i64_decimal(i64::MIN), "-9223372036854775808");
    assert_eq!(i64_decimal(i64::MAX), "9223372036854775807");
}

#[test]
fn commit_description_renders_every_field() {
    let commit = GitCommit {
        id: String::from("abc123"),
        tree_id: String::from("def456"),
        message: Some(String::from("first\n")),
        header: None,
        summary: Some(String::from("first")),
        timestamp: -2,
        author: Contributor {
            name: Some(String::from("ada")),
            email: Some(String::from("ada@example.test")),
        },
        committer: Contributor {
            name: None,
            email: None,
        },
    };
    assert_eq!(
        commit.describe(),
        "{ id=abc123, tree_id=def456, timestamp=-2, header=, message=first\n, summary=first, \
         author={ name=ada, email=ada@example.test }, committer={ name=, email= } }"
    );
}

#[test]
fn some_or_empty_reads_absence_as_empty() {
    assert_eq!(some_or_empty(&Some(String::from("origin"))), "origin");
    assert_eq!(some_or_empty(&None), "");
}

#[test]
fn contributor_description_shows_absent_fields_empty() {
    let c = Contributor {
        name: Some(String::from("ada")),
        email: None,
    };
    assert_eq!(c.describe(), "{ name=ada, email= }");
}

#[test]
fn remote_description_lists_all_three_fields() {
    let r = GitRemote {
        name: Some(String::from("origin")),
        url: Some(String::from("https://example.test/repo.git")),
        push_url: None,
    };
    assert_eq!(
        r.describe(),
        "{ name=origin, url=https://example.test/repo.git, push_url= }"
    );
}

#[test]
fn every_error_kind_carries_its_message() {
    let cases = vec![
        SyncError::BootstrapFailure(String::from("m1")),
        SyncError::RefNotFound(String::from("m2")),
        SyncError::RemoteNotFound(String::from("m3")),
        SyncError::NetworkError(String::from("m4")),
        SyncError::ResetFailed(String::from("m5")),
        SyncError::EncodingFailure(String::from("m6")),
        SyncError::EngineFailure(String::from("m7")),
    ];
    let expected = vec!["m1", "m2", "m3", "m4", "m5", "m6", "m7"];
    for (e, want) in cases.iter().zip(expected.iter()) {
        assert_eq!(e.message(), want);
    }
}
