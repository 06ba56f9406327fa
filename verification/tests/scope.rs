use zk_credential::error::ZkProofError;
use zk_credential::scope::{with_working_dir, DirectoryScope, ScopeAction, ScopeEvent};
use zk_credential::statement::{
    first_existing, resolve_input, MobileJWTCircuit, PrepareCircuit, ShowCircuit,
};

fn current(path: &str) -> ScopeEvent {
    ScopeEvent::CurrentDirectory { path: path.to_string() }
}

fn failed(cause: &str) -> ScopeEvent {
    ScopeEvent::Failed { cause: cause.to_string() }
}

// A process with a working directory, in which only some directories exist.
struct Process {
    working_dir: String,
    existing: Vec<String>,
    changes: usize,
}

impl Process {
    fn set_current_dir(&mut self, path: &str) -> Result<(), String> {
        if self.existing.iter().any(|d| d == path) {
            self.working_dir = path.to_string();
            self.changes += 1;
            Ok(())
        } else {
            Err("No such file or directory (os error 2)".to_string())
        }
    }
}

// Runs `body` in a scope on `target`, doing in `process` what the scope asks for.
fn run_scoped<T>(
    process: &mut Process,
    target: &str,
    body: impl FnOnce(&Process) -> Result<T, ZkProofError>,
) -> Result<T, ZkProofError> {
    let mut scope = DirectoryScope::new(target.to_string());
    let mut body = Some(body);
    let mut result = None;
    let mut action = scope.begin();
    loop {
        let event = match action {
            ScopeAction::ReadCurrentDirectory => current(&process.working_dir),
            ScopeAction::Enter { path } | ScopeAction::Restore { path } => {
                match process.set_current_dir(&path) {
                    Ok(()) => ScopeEvent::Entered,
                    Err(cause) => ScopeEvent::Failed { cause },
                }
            },
            ScopeAction::RunBody => {
                result = body.take().map(|body| body(process));
                ScopeEvent::BodyReturned
            },
            ScopeAction::ReturnBodyResult => return result.unwrap(),
            ScopeAction::Fail { error } => return Err(error),
            ScopeAction::Nothing => panic!("the scope ended without an answer"),
        };
        action = with_working_dir(&mut scope, event);
    }
}

fn process() -> Process {
    Process {
        working_dir: "/home/user".to_string(),
        existing: vec!["/home/user".to_string(), "/data/docs".to_string()],
        changes: 0,
    }
}

#[test]
fn test_with_working_dir_error_handling() {
    let mut process = process();
    let original_dir = process.working_dir.clone();

    // Test with nonexistent path - should return error and restore directory
    let result = run_scoped(&mut process, "/nonexistent/test/path", |_| {
        Ok::<_, ZkProofError>("should not reach here".to_string())
    });

    assert!(result.is_err());
    let e = result.unwrap_err();
    assert!(matches!(e, ZkProofError::IoError { .. }));
    assert_eq!(
        e.message(),
        "Failed to set working directory to '/nonexistent/test/path': No such file or directory (os error 2)"
    );

    // Verify directory was restored
    let after_dir = process.working_dir.clone();
    assert_eq!(original_dir, after_dir);
    assert_eq!(process.changes, 0);
}

#[test]
fn a_scope_runs_the_body_in_the_target_and_comes_back() {
    let mut process = process();
    let seen = run_scoped(&mut process, "/data/docs", |p| Ok(p.working_dir.clone())).unwrap();
    assert_eq!(seen, "/data/docs");
    assert_eq!(process.working_dir, "/home/user");
    assert_eq!(process.changes, 2);
}

#[test]
fn a_scope_comes_back_when_the_body_fails() {
    let mut process = process();
    let result: Result<(), ZkProofError> = run_scoped(&mut process, "/data/docs", |_| {
        Err(ZkProofError::FileNotFound { message: "gone".to_string() })
    });
    assert!(matches!(result, Err(ZkProofError::FileNotFound { .. })));
    assert_eq!(process.working_dir, "/home/user");
    assert_eq!(process.changes, 2);
}

#[test]
fn a_failed_scope_asks_for_nothing_more() {
    let mut scope = DirectoryScope::new("/nonexistent/test/path".to_string());
    assert!(matches!(scope.begin(), ScopeAction::ReadCurrentDirectory));
    match with_working_dir(&mut scope, current("/home/user")) {
        ScopeAction::Enter { path } => assert_eq!(path, "/nonexistent/test/path"),
        other => panic!("unexpected {:?}", other),
    }
    assert!(matches!(
        with_working_dir(&mut scope, failed("No such file or directory (os error 2)")),
        ScopeAction::Fail { .. }
    ));
    assert!(matches!(with_working_dir(&mut scope, ScopeEvent::Entered), ScopeAction::Nothing));
    assert!(matches!(with_working_dir(&mut scope, ScopeEvent::BodyReturned), ScopeAction::Nothing));
}

#[test]
fn a_scope_restores_the_directory_after_the_body() {
    let mut scope = DirectoryScope::new("docs".to_string());
    scope.begin();
    assert!(matches!(with_working_dir(&mut scope, current("/start")), ScopeAction::Enter { .. }));
    assert!(matches!(with_working_dir(&mut scope, ScopeEvent::Entered), ScopeAction::RunBody));
    match with_working_dir(&mut scope, ScopeEvent::BodyReturned) {
        ScopeAction::Restore { path } => assert_eq!(path, "/start"),
        other => panic!("unexpected {:?}", other),
    }
    assert!(matches!(
        with_working_dir(&mut scope, ScopeEvent::Restored),
        ScopeAction::ReturnBodyResult
    ));
    assert!(matches!(with_working_dir(&mut scope, ScopeEvent::Restored), ScopeAction::Nothing));
}

#[test]
fn a_scope_restores_whatever_is_reported_after_the_body_started() {
    let mut scope = DirectoryScope::new("docs".to_string());
    scope.begin();
    with_working_dir(&mut scope, current("/start"));
    with_working_dir(&mut scope, ScopeEvent::Entered);
    match with_working_dir(&mut scope, failed("the body failed")) {
        ScopeAction::Restore { path } => assert_eq!(path, "/start"),
        other => panic!("unexpected {:?}", other),
    }
    assert!(matches!(
        with_working_dir(&mut scope, failed("cannot restore")),
        ScopeAction::ReturnBodyResult
    ));
}

#[test]
fn a_scope_fails_when_the_directory_cannot_be_read() {
    let mut scope = DirectoryScope::new("docs".to_string());
    scope.begin();
    match with_working_dir(&mut scope, failed("permission denied")) {
        ScopeAction::Fail { error } => {
            assert!(matches!(error, ZkProofError::IoError { .. }));
            assert_eq!(error.message(), "permission denied");
        },
        other => panic!("unexpected {:?}", other),
    }
}

#[test]
fn a_scope_begins_once() {
    let mut scope = DirectoryScope::new("docs".to_string());
    assert!(matches!(scope.begin(), ScopeAction::ReadCurrentDirectory));
    assert!(matches!(scope.begin(), ScopeAction::Nothing));
    assert!(matches!(with_working_dir(&mut scope, current("/start")), ScopeAction::Nothing));
}

#[test]
fn the_first_existing_input_wins() {
    assert_eq!(first_existing(&vec![]), None);
    assert_eq!(first_existing(&vec![false, false]), None);
    assert_eq!(first_existing(&vec![true, true, false]), Some(0));
    assert_eq!(first_existing(&vec![false, true, true]), Some(1));
    assert_eq!(first_existing(&vec![false, false, true]), Some(2));
    let candidates = ShowCircuit::new(Some("given.json".to_string())).input_candidates("/opt/pkg");
    assert_eq!(
        candidates,
        vec!["given.json", "circom/show_input.json", "/opt/pkg/../circom/inputs/show/default.json"]
    );
    assert_eq!(resolve_input(candidates.clone(), &vec![true, true, true], "input").unwrap(), "given.json");
    assert_eq!(
        resolve_input(candidates.clone(), &vec![false, true, true], "input").unwrap(),
        "circom/show_input.json"
    );
    assert_eq!(
        resolve_input(candidates.clone(), &vec![false, false, true], "input").unwrap(),
        "/opt/pkg/../circom/inputs/show/default.json"
    );
    let failure = resolve_input(candidates, &vec![false, false, false], "input document").unwrap_err();
    let e = failure.into_error(
        zk_credential::protocol::Operation::Setup,
        zk_credential::circuit::CircuitKind::Show,
    );
    assert!(matches!(e, ZkProofError::FileNotFound { .. }));
    assert_eq!(
        e.message(),
        "Setup of the show circuit failed: No input document was found in any of the places that are tried"
    );
}

#[test]
fn statements_say_what_the_circuits_hold() {
    let show = ShowCircuit::new(None);
    assert_eq!(
        show.input_candidates("/opt/pkg"),
        vec!["circom/show_input.json", "/opt/pkg/../circom/inputs/show/default.json"]
    );
    assert_eq!(
        show.constraints_candidates("/opt/pkg"),
        vec!["circom/show.r1cs", "/opt/pkg/../circom/build/show/show_js/show.r1cs"]
    );
    assert!(show.public_values().is_empty());
    assert_eq!(show.num_challenges(), 0);
    assert_eq!(show.precommitted(), 0);
    assert_eq!(show.shared([1u8; 32], [2u8; 32]), vec![[1u8; 32], [2u8; 32]]);
    let prepare = PrepareCircuit::new(Some("claim.json".to_string()));
    assert_eq!(
        prepare.input_candidates("pkg"),
        vec!["claim.json", "circom/jwt_input.json", "pkg/../circom/inputs/jwt/default.json"]
    );
    assert_eq!(
        prepare.constraints_candidates("pkg"),
        vec!["circom/jwt.r1cs", "pkg/../circom/build/jwt/jwt_js/jwt.r1cs"]
    );
    assert!(prepare.public_values().is_empty());
    assert_eq!(prepare.num_challenges(), 0);
    let mobile = MobileJWTCircuit;
    assert_eq!(mobile.witness_directory(), "circom/build/jwt/jwt_js");
    assert_eq!(mobile.constraints_file(), "jwt.r1cs");
    assert_eq!(mobile.witness_file(), "jwt.wtns");
    assert!(mobile.public_values().is_empty());
    assert!(mobile.shared().is_empty());
    assert_eq!(mobile.num_challenges(), 0);
    match mobile.load_witness(b"nope") {
        Err(ZkProofError::InvalidInput { message }) => {
            assert_eq!(message, "Invalid witness file header")
        },
        other => panic!("unexpected {:?}", other),
    }
}
