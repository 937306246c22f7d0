use playai::errors::OrchestratorError;
use playai::ident::is_valid_generation_id;
use playai::registry::{JobRegistry, JobStatus};
use playai::request::GenerationRequest;
use playai::response::interpret_worker_result;

const FOX_ID: &str = "123e4567-e89b-42d3-a456-426614174000";

fn fox_request() -> GenerationRequest {
    GenerationRequest {
        model_type: String::from("text-to-image"),
        prompt: String::from("a red fox"),
        parameters: String::from("{}"),
        model_name: None,
        lora_name: None,
    }
}

#[test]
fn submit_text_to_image_completes_with_matching_id() {
    let mut registry = JobRegistry::new();
    let dispatch = registry
        .submit_with_id(&fox_request(), String::from(FOX_ID))
        .expect("a valid request must be accepted");
    assert_eq!(dispatch.generation_id, FOX_ID);
    let expected_payload = format!(
        "{{\"model_type\":\"text-to-image\",\"prompt\":\"a red fox\",\"parameters\":{{}},\
         \"model_name\":null,\"lora_name\":null,\"generation_id\":\"{}\"}}",
        FOX_ID
    );
    assert_eq!(dispatch.payload, expected_payload.as_bytes().to_vec());

    registry.mark_running(FOX_ID).expect("the job is live");
    let stdout = format!(
        "{{\"success\":true,\"data\":{{\"image_path\":\"/tmp/fox.png\"}},\"error\":null,\
         \"generation_id\":\"{}\"}}",
        FOX_ID
    );
    let outcome = interpret_worker_result(FOX_ID, true, stdout.as_bytes(), "");
    let response = match outcome {
        Ok(r) => r,
        Err(_) => panic!("well-formed worker output must decode"),
    };
    assert!(response.success);
    assert_eq!(response.data.as_deref(), Some("{\"image_path\":\"/tmp/fox.png\"}"));
    assert_eq!(response.error, None);
    assert_eq!(response.generation_id, FOX_ID);

    registry.resolve(FOX_ID, Ok(response)).expect("the job is live");
    let job = registry.status_of(FOX_ID).expect("the job is recorded");
    assert_eq!(job.status, JobStatus::Completed);
    let recorded = job.result.as_ref().expect("a completed job records its result");
    assert_eq!(recorded.generation_id, FOX_ID);
    assert!(recorded.success);
}

#[test]
fn submit_bogus_model_type_is_rejected_without_dispatch() {
    let mut registry = JobRegistry::new();
    let request = GenerationRequest {
        model_type: String::from("bogus"),
        prompt: String::from("anything"),
        parameters: String::from("{}"),
        model_name: None,
        lora_name: None,
    };
    // The registry hands dispatches back instead of spawning; an Err carries
    // no dispatch, so zero worker invocations can occur.
    match registry.submit(&request) {
        Err(OrchestratorError::InvalidModelType { given }) => assert_eq!(given, "bogus"),
        _ => panic!("an unknown model_type must fail with InvalidModelType"),
    }
    // And no job was created along the way.
    match registry.status_of("bogus") {
        Err(OrchestratorError::UnknownJob { .. }) => {}
        _ => panic!("a rejected request must not create a job"),
    }
}

#[test]
fn cancel_unknown_id_is_unknown_job() {
    let mut registry = JobRegistry::new();
    match registry.cancel(FOX_ID) {
        Err(OrchestratorError::UnknownJob { generation_id }) => {
            assert_eq!(generation_id, FOX_ID)
        }
        _ => panic!("cancelling an identifier never submitted must be UnknownJob"),
    }
}

#[test]
fn status_unknown_id_is_unknown_job() {
    let registry = JobRegistry::new();
    assert!(matches!(
        registry.status_of("00000000-0000-4000-8000-000000000000"),
        Err(OrchestratorError::UnknownJob { .. })
    ));
}

#[test]
fn status_is_monotonic_through_the_lifecycle() {
    let mut registry = JobRegistry::new();
    let dispatch = registry.submit(&fox_request()).expect("valid request");
    let id = dispatch.generation_id.clone();
    assert_eq!(registry.status_of(&id).unwrap().status, JobStatus::Submitted);
    registry.mark_running(&id).unwrap();
    assert_eq!(registry.status_of(&id).unwrap().status, JobStatus::Running);
    // A second dispatch report does not regress or change anything.
    registry.mark_running(&id).unwrap();
    assert_eq!(registry.status_of(&id).unwrap().status, JobStatus::Running);
    let failure = OrchestratorError::WorkerError { message: String::from("out of memory") };
    registry.resolve(&id, Err(failure)).unwrap();
    let job = registry.status_of(&id).unwrap();
    assert_eq!(job.status, JobStatus::Failed);
    assert!(matches!(job.fault, Some(OrchestratorError::WorkerError { .. })));
    // A late dispatch report after the terminal state changes nothing.
    registry.mark_running(&id).unwrap();
    assert_eq!(registry.status_of(&id).unwrap().status, JobStatus::Failed);
}

#[test]
fn cancel_is_idempotent_and_preserves_terminal_records() {
    let mut registry = JobRegistry::new();
    let dispatch = registry.submit(&fox_request()).expect("valid request");
    let id = dispatch.generation_id.clone();
    registry.mark_running(&id).unwrap();
    // First cancel: eager transition, the worker must be signalled.
    assert_eq!(registry.cancel(&id).unwrap(), true);
    assert_eq!(registry.status_of(&id).unwrap().status, JobStatus::Cancelled);
    // Second cancel: a no-op on the already-terminal job.
    assert_eq!(registry.cancel(&id).unwrap(), false);
    assert_eq!(registry.status_of(&id).unwrap().status, JobStatus::Cancelled);
    // A late worker outcome does not corrupt the cancelled record.
    let stdout = format!(
        "{{\"success\":true,\"data\":{{}},\"error\":null,\"generation_id\":\"{}\"}}",
        id
    );
    let late = interpret_worker_result(&id, true, stdout.as_bytes(), "").unwrap();
    registry.resolve(&id, Ok(late)).unwrap();
    let job = registry.status_of(&id).unwrap();
    assert_eq!(job.status, JobStatus::Cancelled);
    assert!(job.result.is_none());
}

#[test]
fn cancel_completed_job_keeps_its_result() {
    let mut registry = JobRegistry::new();
    let dispatch = registry.submit(&fox_request()).expect("valid request");
    let id = dispatch.generation_id.clone();
    registry.mark_running(&id).unwrap();
    let stdout = format!(
        "{{\"success\":true,\"data\":{{\"ok\":true}},\"error\":null,\"generation_id\":\"{}\"}}",
        id
    );
    let response = interpret_worker_result(&id, true, stdout.as_bytes(), "").unwrap();
    registry.resolve(&id, Ok(response)).unwrap();
    assert_eq!(registry.cancel(&id).unwrap(), false);
    let job = registry.status_of(&id).unwrap();
    assert_eq!(job.status, JobStatus::Completed);
    assert_eq!(
        job.result.as_ref().unwrap().data.as_deref(),
        Some("{\"ok\":true}")
    );
}

#[test]
fn submitted_ids_are_fresh_valid_uuids() {
    let mut registry = JobRegistry::new();
    let first = registry.submit(&fox_request()).expect("valid request");
    let second = registry.submit(&fox_request()).expect("valid request");
    assert!(is_valid_generation_id(&first.generation_id));
    assert!(is_valid_generation_id(&second.generation_id));
    assert_ne!(first.generation_id, second.generation_id);
}

#[test]
fn submit_with_taken_id_is_a_transport_failure() {
    let mut registry = JobRegistry::new();
    registry
        .submit_with_id(&fox_request(), String::from(FOX_ID))
        .expect("valid request");
    assert!(matches!(
        registry.submit_with_id(&fox_request(), String::from(FOX_ID)),
        Err(OrchestratorError::TransportFailure { .. })
    ));
}

#[test]
fn all_four_model_types_are_accepted() {
    let mut registry = JobRegistry::new();
    for name in ["text-to-image", "text-to-audio", "text-to-video", "text-generation"] {
        let request = GenerationRequest {
            model_type: String::from(name),
            prompt: String::from("p"),
            parameters: String::from("null"),
            model_name: None,
            lora_name: None,
        };
        assert!(registry.submit(&request).is_ok());
    }
}
