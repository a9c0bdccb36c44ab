use ledgerly_bridge::registry::{Operation, Registry};
use ledgerly_bridge::spawn::{echo_request, test_process_spawn, BridgeError};

#[test]
fn request_launches_echo_with_confirmation() {
    let request = echo_request();
    assert_eq!(request.program, "echo");
    assert_eq!(request.args, vec!["Process spawning works!".to_string()]);
}

#[test]
fn launched_output_is_returned_verbatim() {
    let reply = test_process_spawn(Ok("Process spawning works!\n".to_string()));
    assert_eq!(reply, Ok("Process spawning works!\n".to_string()));
}

#[test]
fn empty_output_is_still_success() {
    assert_eq!(test_process_spawn(Ok(String::new())), Ok(String::new()));
}

#[test]
fn failed_launch_carries_label_and_detail() {
    let reply = test_process_spawn(Err("No such file or directory (os error 2)".to_string()));
    let text = reply.unwrap_err();
    assert!(text.contains("Failed to spawn process:"));
    assert_eq!(text, "Failed to spawn process: No such file or directory (os error 2)");
    let detail = &text["Failed to spawn process: ".len()..];
    assert!(!detail.is_empty());
}

#[test]
fn failed_launch_with_empty_detail_keeps_label() {
    let reply = test_process_spawn(Err(String::new()));
    assert_eq!(reply, Err("Failed to spawn process: ".to_string()));
}

#[test]
fn spawn_failure_description() {
    let failure = BridgeError::SpawnFailure { detail: "Permission denied (os error 13)".to_string() };
    assert_eq!(failure.description(), "Failed to spawn process: Permission denied (os error 13)");
}

#[test]
fn repeated_invocations_give_equal_replies() {
    let first = test_process_spawn(Ok("Process spawning works!\n".to_string()));
    let second = test_process_spawn(Ok("Process spawning works!\n".to_string()));
    assert_eq!(first, second);
    assert_eq!(echo_request().program, echo_request().program);
    assert_eq!(echo_request().args, echo_request().args);
}

#[test]
fn invocations_keep_their_own_output() {
    let first = test_process_spawn(Ok("first\n".to_string()));
    let second = test_process_spawn(Ok("second\n".to_string()));
    assert_eq!(first, Ok("first\n".to_string()));
    assert_eq!(second, Ok("second\n".to_string()));
    assert_ne!(first, second);
}

#[test]
fn success_and_failure_never_coincide() {
    let ok = test_process_spawn(Ok("Failed to spawn process: x".to_string()));
    let err = test_process_spawn(Err("x".to_string()));
    assert!(ok.is_ok());
    assert!(err.is_err());
    assert_ne!(ok, err);
}

#[test]
fn registry_finds_the_spawn_operation() {
    let registry = Registry::new();
    assert_eq!(registry.lookup("test_process_spawn"), Some(Operation::TestProcessSpawn));
}

#[test]
fn registry_refuses_unknown_names() {
    let registry = Registry::new();
    assert_eq!(registry.lookup("other"), None);
    assert_eq!(registry.lookup(""), None);
    assert_eq!(registry.lookup("test_process_spawn "), None);
    assert_eq!(registry.lookup("Test_Process_Spawn"), None);
}

#[test]
fn operation_name_matches_registration() {
    assert_eq!(Operation::TestProcessSpawn.name(), "test_process_spawn");
}

#[test]
fn operation_dispatches_to_spawn() {
    let op = Operation::TestProcessSpawn;
    let request = op.request();
    assert_eq!(request.program, "echo");
    assert_eq!(request.args, vec!["Process spawning works!".to_string()]);
    assert_eq!(op.complete(Ok("out\n".to_string())), Ok("out\n".to_string()));
    assert_eq!(
        op.complete(Err("boom".to_string())),
        Err("Failed to spawn process: boom".to_string())
    );
}
