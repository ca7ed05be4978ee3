use gc_rust::resolver::{parse_http_url, parse_ssh_url, repository, ParseRepoError};

#[test]
fn test_valid_urls() {
    let cases = vec![
        (
            "git@github.com:example/application.git",
            ("github.com", "example", "application"),
        ),
        (
            "github.com/example/application",
            ("github.com", "example", "application"),
        ),
        (
            "example/application",
            ("github.com", "example", "application"),
        ),
        (
            "https://github.com/example/application",
            ("github.com", "example", "application"),
        ),
        (
            "https://github.com/example/application/issues",
            ("github.com", "example", "application"),
        ),
        (
            "https://github.com/example/application/security/dependabot",
            ("github.com", "example", "application"),
        ),
        (
            "https://github.com/example/application/this/is/a/made/up/path",
            ("github.com", "example", "application"),
        ),
    ];

    for (input, expected) in cases {
        let (host, team, project) = repository(input.to_string()).unwrap();
        let (expected_host, expected_team, expected_project) = expected;
        assert_eq!(host, expected_host.to_string());
        assert_eq!(team, expected_team.to_string());
        assert_eq!(project, expected_project.to_string());
    }
}

#[test]
fn test_invalid_url() {
    let cases = vec![""];

    for input in cases {
        let result = repository(input.to_string());
        assert!(result.is_err());
    }
}

#[test]
fn test_valid_http_conversor() {
    let cases = vec![
        (
            "https://github.com/patrickdappollonio/gc-rust",
            false,
            ("github.com", "patrickdappollonio", "gc-rust"),
        ),
        (
            "https://github.com/patrickdappollonio/gc-rust.git",
            false,
            ("github.com", "patrickdappollonio", "gc-rust"),
        ),
        ("http://patrickdap.com", true, ("", "", "")),
        (
            "https://github.com/patrickdappollonio/gc-rust/foo/bar",
            false,
            ("github.com", "patrickdappollonio", "gc-rust"),
        ),
        (
            "patrickdappollonio/gc-rust",
            false,
            ("github.com", "patrickdappollonio", "gc-rust"),
        ),
    ];

    for (input, should_fail, expected) in cases {
        let result = parse_http_url(input);

        if should_fail {
            assert!(result.is_err());
            continue;
        }

        let (expected_host, expected_team, expected_project) = expected;
        let (host, team, project) = result.unwrap();
        assert_eq!(host, expected_host.to_string());
        assert_eq!(team, expected_team.to_string());
        assert_eq!(project, expected_project.to_string());
    }
}

#[test]
fn test_valid_ssh_conversor() {
    let cases = vec![(
        "git@github.com:team/project.git",
        false,
        ("github.com", "team", "project"),
    )];

    for (input, should_fail, expected) in cases {
        let result = parse_ssh_url(input);

        if should_fail {
            assert!(result.is_err());
            continue;
        }

        let (expected_host, expected_team, expected_project) = expected;
        let (host, team, project) = result.unwrap();
        assert_eq!(host, expected_host.to_string());
        assert_eq!(team, expected_team.to_string());
        assert_eq!(project, expected_project.to_string());
    }
}

#[test]
fn ssh_reference_keeps_arbitrary_host() {
    let (host, team, project) =
        repository("deploy@code.example.org:infra/tooling".to_string()).unwrap();
    assert_eq!(host, "code.example.org");
    assert_eq!(team, "infra");
    assert_eq!(project, "tooling");
}

#[test]
fn ssh_reference_strips_git_suffix() {
    let (_, _, with_suffix) = repository("git@github.com:example/application.git".to_string()).unwrap();
    let (_, _, without_suffix) = repository("git@github.com:example/application".to_string()).unwrap();
    assert_eq!(with_suffix, without_suffix);
    assert_eq!(with_suffix, "application");
}

#[test]
fn repeated_git_suffixes_are_all_stripped() {
    let (_, _, project) = repository("git@github.com:a/b.git.git".to_string()).unwrap();
    assert_eq!(project, "b");
}

#[test]
fn http_trailing_segments_do_not_matter() {
    let plain = repository("https://github.com/example/application".to_string()).unwrap();
    let with_issues = repository("https://github.com/example/application/issues/42".to_string()).unwrap();
    let with_deep_path = repository("https://github.com/example/application/a/b/c/d".to_string()).unwrap();
    assert_eq!(plain, with_issues);
    assert_eq!(plain, with_deep_path);
}

#[test]
fn shorthand_uses_default_host() {
    let (host, team, project) = repository("example/application".to_string()).unwrap();
    assert_eq!(host, "github.com");
    assert_eq!(team, "example");
    assert_eq!(project, "application");
}

#[test]
fn shorthand_strips_git_suffix() {
    let (host, team, project) = repository("example/application.git".to_string()).unwrap();
    assert_eq!(host, "github.com");
    assert_eq!(team, "example");
    assert_eq!(project, "application");
}

#[test]
fn empty_input_fails_every_branch() {
    assert!(matches!(
        repository(String::new()),
        Err(ParseRepoError::NotRecognized(_))
    ));
    assert!(matches!(parse_ssh_url(""), Err(ParseRepoError::NotSSH(_))));
    assert!(matches!(
        parse_http_url(""),
        Err(ParseRepoError::UnparseableURL(_))
    ));
}

#[test]
fn empty_segments_fail() {
    assert!(matches!(
        repository("org/".to_string()),
        Err(ParseRepoError::InvalidShorthand(_))
    ));
    assert!(matches!(
        repository("/project".to_string()),
        Err(ParseRepoError::InvalidShorthand(_))
    ));
    assert!(matches!(
        repository("git@github.com:org/".to_string()),
        Err(ParseRepoError::CantFindProjectAndName(_))
    ));
    assert!(matches!(
        repository("git@github.com:/project".to_string()),
        Err(ParseRepoError::CantFindProjectAndName(_))
    ));
    assert!(matches!(
        repository("https://github.com//project".to_string()),
        Err(ParseRepoError::UnparseableURL(_))
    ));
}

#[test]
fn unclassifiable_inputs_are_not_recognized() {
    assert!(matches!(
        repository("plainword".to_string()),
        Err(ParseRepoError::NotRecognized(_))
    ));
    assert!(matches!(
        repository("a/b/c".to_string()),
        Err(ParseRepoError::NotRecognized(_))
    ));
}

#[test]
fn ssh_errors_name_each_failure() {
    assert!(matches!(
        parse_ssh_url("github.com/a/b"),
        Err(ParseRepoError::NotSSH(_))
    ));
    assert!(matches!(
        repository("a:b@cd/e".to_string()),
        Err(ParseRepoError::CantParseColon(_))
    ));
    assert!(matches!(
        repository("git@github.com:orgproject".to_string()),
        Err(ParseRepoError::CantFindProjectAndName(_))
    ));
    assert!(matches!(
        repository("git@github.com:org/project/extra".to_string()),
        Err(ParseRepoError::CantFindProjectAndName(_))
    ));
}

#[test]
fn http_errors_name_each_failure() {
    assert!(matches!(
        repository("https://gitlab.com/org/project".to_string()),
        Err(ParseRepoError::UnsupportedHost(_))
    ));
    assert!(matches!(
        repository("http://patrickdap.com".to_string()),
        Err(ParseRepoError::UnsupportedHost(_))
    ));
    assert!(matches!(
        repository("https://github.com".to_string()),
        Err(ParseRepoError::UnparseableURL(_))
    ));
    assert!(matches!(
        repository("github.com/onlyorg".to_string()),
        Err(ParseRepoError::UnparseableURL(_))
    ));
    assert!(matches!(
        repository("github.com/bad org/project".to_string()),
        Err(ParseRepoError::UnparseableURL(_))
    ));
}

#[test]
fn ssh_empty_host_fails() {
    assert!(matches!(
        repository("git@:org/project".to_string()),
        Err(ParseRepoError::CantParseColon(_))
    ));
}

#[test]
fn scheme_with_empty_host_fails() {
    assert!(matches!(
        repository("https:///org/project".to_string()),
        Err(ParseRepoError::UnsupportedHost(_))
    ));
}

#[test]
fn error_messages_echo_the_input() {
    let err = repository("plainword".to_string()).unwrap_err();
    assert_eq!(
        err.message(),
        "Invalid repository URL: not recognized: plainword"
    );
    let err = parse_ssh_url("github.com/a/b").unwrap_err();
    assert_eq!(
        err.message(),
        "Invalid repository URL: not SSH: github.com/a/b"
    );
    let err = repository("https://gitlab.com/org/project".to_string()).unwrap_err();
    assert_eq!(
        err.message(),
        "Invalid repository URL: unsupported host: https://gitlab.com/org/project"
    );
}
