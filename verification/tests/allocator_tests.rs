//! The identifier allocator's retry discipline, replayed against
//! concrete traces.

use survey::errors::ServiceError;
use survey::ident::{
    alloc_step, is_collision, new_uuid_string, get_random, run_allocation, AllocOutcome,
    AllocStep, AttemptOutcome, DbErrorInfo,
};

fn collision(constraint: &str) -> AttemptOutcome {
    AttemptOutcome::Failed(DbErrorInfo {
        code: Some("23505".to_string()),
        message: format!("duplicate key value violates unique constraint \"{}\"", constraint),
    })
}

fn other_failure() -> AttemptOutcome {
    AttemptOutcome::Failed(DbErrorInfo {
        code: Some("57014".to_string()),
        message: "canceling statement due to statement timeout".to_string(),
    })
}

#[test]
fn collisions_then_success_counts_attempts() {
    let candidates = vec!["a".to_string(), "b".to_string(), "c".to_string()];
    let outcomes = vec![
        collision("survey_users_id_key"),
        collision("survey_users_id_key"),
        AttemptOutcome::Persisted,
    ];
    match run_allocation(&candidates, &outcomes, "survey_users_id_key") {
        AllocOutcome::Allocated { value, attempts } => {
            assert_eq!(value, "c");
            assert_eq!(attempts, 3);
        }
        _ => panic!("expected a successful allocation"),
    }
}

#[test]
fn immediate_success_is_one_attempt() {
    let candidates = vec!["x".to_string()];
    let outcomes = vec![AttemptOutcome::Persisted];
    match run_allocation(&candidates, &outcomes, "survey_users_id_key") {
        AllocOutcome::Allocated { value, attempts } => {
            assert_eq!(value, "x");
            assert_eq!(attempts, 1);
        }
        _ => panic!("expected a successful allocation"),
    }
}

#[test]
fn non_collision_failure_aborts_first_attempt() {
    let candidates = vec!["a".to_string(), "b".to_string()];
    let outcomes = vec![other_failure(), AttemptOutcome::Persisted];
    match run_allocation(&candidates, &outcomes, "survey_users_id_key") {
        AllocOutcome::Aborted { error, attempts } => {
            assert_eq!(error, ServiceError::InternalServerError);
            assert_eq!(attempts, 1);
        }
        _ => panic!("expected an aborted allocation"),
    }
}

#[test]
fn all_collisions_exhaust_the_trace() {
    let candidates = vec!["a".to_string(), "b".to_string()];
    let outcomes = vec![collision("survey_users_id_key"), collision("survey_users_id_key")];
    match run_allocation(&candidates, &outcomes, "survey_users_id_key") {
        AllocOutcome::Exhausted { attempts } => assert_eq!(attempts, 2),
        _ => panic!("expected exhaustion"),
    }
}

#[test]
fn collision_on_other_constraint_aborts() {
    let candidates = vec!["a".to_string()];
    let outcomes = vec![collision("survey_admins_secret_key")];
    match run_allocation(&candidates, &outcomes, "survey_users_id_key") {
        AllocOutcome::Aborted { error, attempts } => {
            assert_eq!(error, ServiceError::InternalServerError);
            assert_eq!(attempts, 1);
        }
        _ => panic!("expected an abort: the constraint does not match"),
    }
}

#[test]
fn collision_classification() {
    let err = DbErrorInfo {
        code: Some("23505".to_string()),
        message: "duplicate key value violates unique constraint \"survey_users_id_key\""
            .to_string(),
    };
    assert!(is_collision(&err, "survey_users_id_key"));
    assert!(!is_collision(&err, "survey_admins_secret_key"));
    let wrong_code = DbErrorInfo {
        code: Some("23503".to_string()),
        message: "survey_users_id_key".to_string(),
    };
    assert!(!is_collision(&wrong_code, "survey_users_id_key"));
    let no_code = DbErrorInfo { code: None, message: "survey_users_id_key".to_string() };
    assert!(!is_collision(&no_code, "survey_users_id_key"));
}

#[test]
fn alloc_step_decisions() {
    assert!(matches!(
        alloc_step(&AttemptOutcome::Persisted, "survey_users_id_key"),
        AllocStep::Accept
    ));
    assert!(matches!(
        alloc_step(&collision("survey_users_id_key"), "survey_users_id_key"),
        AllocStep::RetryFresh
    ));
    match alloc_step(&other_failure(), "survey_users_id_key") {
        AllocStep::Abort(e) => assert_eq!(e, ServiceError::InternalServerError),
        _ => panic!("expected an abort"),
    }
}

#[test]
fn generated_identifiers_have_documented_shape() {
    let uuid = new_uuid_string();
    assert_eq!(uuid.len(), 36);
    let chars: Vec<char> = uuid.chars().collect();
    assert_eq!(chars[8], '-');
    assert_eq!(chars[13], '-');
    assert_eq!(chars[18], '-');
    assert_eq!(chars[23], '-');

    let secret = get_random(32);
    assert_eq!(secret.chars().count(), 32);
    assert!(secret.chars().all(|c| c.is_ascii_alphanumeric()));
    let empty = get_random(0);
    assert_eq!(empty.len(), 0);
}
