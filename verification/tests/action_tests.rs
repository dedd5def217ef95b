use codeql_extractor::action::{
    codeql_dir_candidates, sarif_results_path, select_codeql_dir, Action, DirProbe, Language,
    PackAction, WorkingDirectoryPlan,
};
use codeql_extractor::error::Error;

fn action() -> Action {
    Action {
        extractors: vec!["owner/repo".to_string()],
        languages: vec!["iac".to_string()],
        ..Default::default()
    }
}

#[test]
fn test_validate_languages() {
    let action = action();
    let codeqllanguages = vec![Language::from_name("Python")];

    let result = action.validate_languages(&codeqllanguages);
    assert!(result.is_err(), "Expected error for unsupported language");

    let codeqllanguages = vec![
        Language::from_name("Python"),
        Language::from_name("java"),
        Language::from_name("iac"),
    ];
    let result = action.validate_languages(&codeqllanguages);
    assert!(result.is_ok(), "Expected no error for supported language");
}

#[test]
fn test_validate_languages_case_insensitive() {
    let action = Action {
        languages: vec!["Python".to_string()],
        ..Default::default()
    };
    let offered = vec![Language::from_name("python")];
    assert!(action.validate_languages(&offered).is_ok());
}

#[test]
fn test_validate_languages_error_variant() {
    let action = action();
    let offered = vec![Language::from_name("java")];
    assert_eq!(
        action.validate_languages(&offered),
        Err(Error::UnsupportedLanguage)
    );
}

#[test]
fn test_get_token_provided() {
    let action = Action {
        token: "explicit-input".to_string(),
        ..Default::default()
    };
    assert_eq!(
        action.get_token(Some("ambient".to_string())),
        "explicit-input"
    );
}

#[test]
fn test_get_token_ambient_fallback() {
    let action = Action::default();
    assert_eq!(action.get_token(Some("ambient".to_string())), "ambient");
    assert_eq!(action.get_token(None), "");
}

#[test]
fn test_working_directory_default() {
    let action = Action::default();
    assert!(matches!(
        action.working_directory(),
        WorkingDirectoryPlan::UseCurrentDirectory
    ));
}

#[test]
fn test_working_directory_provided() {
    let action = Action {
        working_directory: "./src".to_string(),
        ..Default::default()
    };
    match action.working_directory() {
        WorkingDirectoryPlan::Canonicalize(p) => assert_eq!(p, "./src"),
        _ => panic!("expected the provided directory"),
    }
}

#[test]
fn test_codeql_version_default_and_explicit() {
    let action = Action::default();
    assert_eq!(action.codeql_version(), "latest");
    let action = Action {
        codeql_version: "2.17.0".to_string(),
        ..Default::default()
    };
    assert_eq!(action.codeql_version(), "2.17.0");
}

#[test]
fn test_extractor_repository_parses_configured() {
    let action = Action {
        extractors: vec!["geekmasher/ghactions@v1.0.0".to_string()],
        ..Default::default()
    };
    let repos = action.extractor_repository("unused/unused").unwrap();
    assert_eq!(repos.len(), 1);
    assert_eq!(repos[0].owner, "geekmasher");
    assert_eq!(repos[0].name, "ghactions");
    assert_eq!(repos[0].reference, Some("v1.0.0".to_string()));
}

#[test]
fn test_extractor_repository_falls_back_to_current() {
    let action = Action::default();
    let repos = action.extractor_repository("owner/repo").unwrap();
    assert_eq!(repos.len(), 1);
    assert_eq!(repos[0].owner, "owner");
    assert_eq!(repos[0].name, "repo");
    assert_eq!(repos[0].reference, None);
}

#[test]
fn test_extractor_repository_drops_unparsable() {
    let action = Action {
        extractors: vec![
            "good/repo".to_string(),
            "bad/repo/../x@main".to_string(),
        ],
        ..Default::default()
    };
    let repos = action.extractor_repository("unused/unused").unwrap();
    assert_eq!(repos.len(), 1);
    assert_eq!(repos[0].owner, "good");
}

#[test]
fn test_validate_languages_unicode_case() {
    // The Kelvin sign lower-cases to a plain `k`.
    let action = Action {
        languages: vec!["\u{212A}".to_string()],
        ..Default::default()
    };
    let offered = vec![Language::from_name("k")];
    assert!(action.validate_languages(&offered).is_ok());
}

#[test]
fn test_extractor_repository_keeps_input_order() {
    let action = Action {
        extractors: vec![
            "octo/first@v1".to_string(),
            "octo/second".to_string(),
        ],
        ..Default::default()
    };
    let repos = action.extractor_repository("unused/unused").unwrap();
    assert_eq!(repos.len(), 2);
    assert_eq!(repos[0].name, "first");
    assert_eq!(repos[0].reference, Some("v1".to_string()));
    assert_eq!(repos[1].name, "second");
    assert_eq!(repos[1].reference, None);
}

#[test]
fn test_languages_preserved() {
    let action = Action {
        languages: vec!["iac".to_string(), "java".to_string()],
        ..Default::default()
    };
    let langs = action.languages();
    assert_eq!(langs.len(), 2);
    assert_eq!(langs[0].name, "iac");
    assert_eq!(langs[1].name, "java");
}

#[test]
fn test_pack_action() {
    let action = Action::default();
    assert!(matches!(
        action.pack_action("org/pack", true),
        PackAction::AlreadyInstalled
    ));
    assert!(matches!(
        action.pack_action("./local-pack", false),
        PackAction::InstallLocal
    ));
    assert!(matches!(
        action.pack_action("org/pack", false),
        PackAction::DownloadRemote
    ));
}

#[test]
fn test_codeql_dir_candidates_order() {
    let dirs = codeql_dir_candidates(
        Some("/work/.codeql".to_string()),
        Some("/workspace".to_string()),
        Some("/runner-temp".to_string()),
        Some("/tmp".to_string()),
    );
    assert_eq!(
        dirs,
        vec![
            "/work/.codeql".to_string(),
            "/workspace/.codeql".to_string(),
            "/runner-temp/.codeql".to_string(),
            "/tmp/.codeql".to_string(),
        ]
    );
}

#[test]
fn test_codeql_dir_candidates_missing() {
    let dirs = codeql_dir_candidates(None, None, Some("/runner-temp".to_string()), None);
    assert_eq!(dirs, vec!["/runner-temp/.codeql".to_string()]);
}

#[test]
fn test_select_codeql_dir_first_usable() {
    let probes = vec![
        DirProbe { exists: false, create_ok: false },
        DirProbe { exists: true, create_ok: false },
        DirProbe { exists: true, create_ok: true },
    ];
    assert_eq!(select_codeql_dir(&probes), Ok(1));
}

#[test]
fn test_select_codeql_dir_all_fail() {
    let probes = vec![DirProbe { exists: false, create_ok: false }];
    assert_eq!(select_codeql_dir(&probes), Err(Error::DirectoryCreateFailed));
    assert_eq!(
        select_codeql_dir(&Vec::new()),
        Err(Error::DirectoryCreateFailed)
    );
}

#[test]
fn test_sarif_results_path_ci_relative() {
    assert_eq!(
        sarif_results_path(true, "/work", "/work/.codeql/results"),
        ".codeql/results"
    );
}

#[test]
fn test_sarif_results_path_absolute() {
    assert_eq!(
        sarif_results_path(false, "/work", "/elsewhere/results"),
        "/elsewhere/results"
    );
    assert_eq!(
        sarif_results_path(true, "/work", "/elsewhere/results"),
        "/elsewhere/results"
    );
}
