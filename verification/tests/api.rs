use process_cache::api::{
    FAILURE_CODE, STATUS_ACCEPTED, STATUS_BAD_REQUEST, STATUS_CREATED, STATUS_NOT_FOUND,
    STATUS_OK, STATUS_SERVER_ERROR,
};
use process_cache::{
    create_process_at, reply_to_add, reply_to_delete, reply_to_get, reply_to_list,
    reply_to_modify, reply_to_patch, Body, CacheError, Process, ProcessPatchInput, Reply,
    Request,
};

fn rec(name: &str, run: bool) -> Process {
    create_process_at(name, run, None, "t0".to_string())
}

fn failure(message: &str) -> Reply {
    Reply { status: 500, body: Body::Failure { code: 500, message: message.to_string() } }
}

#[test]
fn status_numbers() {
    assert_eq!(STATUS_OK, 200);
    assert_eq!(STATUS_CREATED, 201);
    assert_eq!(STATUS_ACCEPTED, 202);
    assert_eq!(STATUS_BAD_REQUEST, 400);
    assert_eq!(STATUS_NOT_FOUND, 404);
    assert_eq!(STATUS_SERVER_ERROR, 500);
    assert_eq!(FAILURE_CODE, 500);
}

#[test]
fn error_messages() {
    assert_eq!(CacheError::NotFound.message("p1"), "Process with name p1 does not exist");
    assert_eq!(CacheError::AlreadyExists.message("p1"), "Process p1 already exists");
    assert_eq!(
        CacheError::InvalidRequest.message("p1"),
        "Either 'run' or 'tags' must be specified."
    );
    assert_eq!(CacheError::Conflict.message("p1"), "Please retry the operation");
    assert_eq!(CacheError::RemoteUnavailable.message("p1"), "Remote store is unavailable");
    assert_eq!(CacheError::Malformed.message("p1"), "Remote object is malformed");
    assert_eq!(CacheError::NotFound.message(""), "Process with name  does not exist");
}

#[test]
fn get_replies() {
    assert_eq!(
        reply_to_get("p1", Some(rec("p1", false))),
        Reply { status: 200, body: Body::Record(rec("p1", false)) }
    );
    assert_eq!(
        reply_to_get("p1", None),
        Reply { status: 404, body: Body::Fallback { name: "p1".to_string(), run: true } }
    );
}

#[test]
fn add_replies() {
    assert_eq!(
        reply_to_add(rec("p1", true), Ok(())),
        Reply { status: 201, body: Body::Record(rec("p1", true)) }
    );
    assert_eq!(
        reply_to_add(rec("p1", true), Err(CacheError::AlreadyExists)),
        failure("Failed to add process: Process p1 already exists")
    );
    assert_eq!(
        reply_to_add(rec("p1", true), Err(CacheError::Conflict)),
        failure("Failed to add process: Please retry the operation")
    );
}

#[test]
fn modify_replies() {
    assert_eq!(
        reply_to_modify("p1", Ok(())),
        Reply { status: 202, body: Body::Message("Process updated successfully!".to_string()) }
    );
    assert_eq!(
        reply_to_modify("p1", Err(CacheError::NotFound)),
        failure("Failed to add process: Process with name p1 does not exist")
    );
}

#[test]
fn delete_replies() {
    assert_eq!(
        reply_to_delete("p1", Ok(())),
        Reply { status: 200, body: Body::Message("Process p1 deleted successfully".to_string()) }
    );
    assert_eq!(
        reply_to_delete("p1", Err(CacheError::NotFound)),
        failure("Failed to delete process: Process with name p1 does not exist")
    );
    assert_eq!(
        reply_to_delete("p1", Err(CacheError::RemoteUnavailable)),
        failure("Failed to delete process: Remote store is unavailable")
    );
}

#[test]
fn patch_replies() {
    assert_eq!(
        reply_to_patch("p1", Ok(())),
        Reply { status: 200, body: Body::Message("Process patched successfully.".to_string()) }
    );
    assert_eq!(
        reply_to_patch("p1", Err(CacheError::InvalidRequest)),
        Reply {
            status: 500,
            body: Body::Message("Either 'run' or 'tags' must be specified.".to_string()),
        }
    );
    assert_eq!(
        reply_to_patch("p1", Err(CacheError::NotFound)),
        failure("Failed to patch process: Process with name p1 does not exist")
    );
    assert_eq!(
        reply_to_patch("p1", Err(CacheError::Malformed)),
        failure("Failed to patch process: Remote object is malformed")
    );
}

#[test]
fn list_replies() {
    assert_eq!(
        reply_to_list(Some(vec![rec("a", true), rec("b", false)])),
        Reply { status: 200, body: Body::Records(vec![rec("a", true), rec("b", false)]) }
    );
    assert_eq!(
        reply_to_list(Some(Vec::new())),
        Reply { status: 200, body: Body::Records(Vec::new()) }
    );
    assert_eq!(
        reply_to_list(None),
        Reply { status: 400, body: Body::Plain("Invalid query parameters".to_string()) }
    );
}

#[test]
fn patch_input_names_a_field_or_not() {
    let input = |run, tags| ProcessPatchInput { name: "p".to_string(), run, tags };
    assert!(!input(None, None).validatePatch());
    assert!(input(Some(false), None).validatePatch());
    assert!(input(None, Some(Vec::new())).validatePatch());
    assert!(input(Some(true), Some(vec!["x".to_string()])).validatePatch());
}

#[test]
fn patch_input_becomes_a_request() {
    let input = ProcessPatchInput {
        name: "p".to_string(),
        run: Some(true),
        tags: Some(vec!["x".to_string()]),
    };
    assert_eq!(
        input.into_request(),
        Request::Patch {
            name: "p".to_string(),
            run: Some(true),
            tags: Some(vec!["x".to_string()]),
        }
    );
}
