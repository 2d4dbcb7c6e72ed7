//! Action classification, fetch-error policy, and the status tracker.

use certificate_helper::controller::{
    classify_fetch_error, create_requeue, delete_plan, determine_action, error_policy_requeue,
    finalizer, update_plan, CustomAction, FetchError, FetchOutcome, Requeue,
};
use certificate_helper::crd::{
    CertificateCondition, CertificateResource, CertificateSpec, CertificateStatus, ResourceMeta,
    Stage,
};
use certificate_helper::errors::Error;
use certificate_helper::utils::{
    apply_stage, classify_operation, classify_status, make_condition, now_timestamp,
    owner_reference, ApiVerb, Operation,
};

fn meta(deletion: Option<&str>, finalizers: Option<Vec<&str>>) -> ResourceMeta {
    ResourceMeta {
        name: "demo".to_string(),
        uid: Some("uid-1".to_string()),
        deletion_timestamp: deletion.map(|d| d.to_string()),
        finalizers: finalizers.map(|v| v.into_iter().map(|f| f.to_string()).collect()),
    }
}

#[test]
fn action_is_create_without_finalizer() {
    assert_eq!(determine_action(&meta(None, None)), CustomAction::Create);
    assert_eq!(determine_action(&meta(None, Some(vec![]))), CustomAction::Create);
    assert_eq!(
        determine_action(&meta(None, Some(vec!["other.io"]))),
        CustomAction::Create
    );
    // Only the finalizer itself counts, not another one it is a prefix of.
    assert_eq!(
        determine_action(&meta(None, Some(vec!["certificate-helper.io/v1"]))),
        CustomAction::Create
    );
}

#[test]
fn action_is_update_with_finalizer() {
    assert_eq!(
        determine_action(&meta(None, Some(vec!["certificate-helper.io"]))),
        CustomAction::Update
    );
    assert_eq!(
        determine_action(&meta(None, Some(vec!["other.io", "certificate-helper.io"]))),
        CustomAction::Update
    );
}

#[test]
fn action_on_deletion_depends_on_finalizer() {
    assert_eq!(
        determine_action(&meta(Some("t0"), Some(vec!["certificate-helper.io"]))),
        CustomAction::Delete
    );
    assert_eq!(determine_action(&meta(Some("t0"), None)), CustomAction::NoOp);
    assert_eq!(
        determine_action(&meta(Some("t0"), Some(vec![]))),
        CustomAction::NoOp
    );
    assert_eq!(
        determine_action(&meta(Some("t0"), Some(vec!["other.io"]))),
        CustomAction::NoOp
    );
    assert_eq!(
        determine_action(&meta(Some("t0"), Some(vec!["certificate-helper.io/v1"]))),
        CustomAction::NoOp
    );
}

#[test]
fn fetch_error_classification() {
    assert_eq!(
        classify_fetch_error(FetchError::Api(404)),
        FetchOutcome::TreatAsAbsent
    );
    assert_eq!(
        classify_fetch_error(FetchError::Api(500)),
        FetchOutcome::RequeueSeconds(15)
    );
    assert_eq!(
        classify_fetch_error(FetchError::Other),
        FetchOutcome::RequeueSeconds(30)
    );
}

#[test]
fn requeue_policies() {
    assert_eq!(create_requeue(), Requeue::After(5));
    assert_eq!(error_policy_requeue(), Requeue::After(60));
    assert_eq!(
        update_plan(&Stage::CertificateCreated("svc1".to_string())),
        Requeue::AwaitChange
    );
    assert_eq!(
        update_plan(&Stage::CreationFailed("boom".to_string())),
        Requeue::AwaitChange
    );
    assert_eq!(update_plan(&Stage::Creating), Requeue::After(5));
    assert_eq!(update_plan(&Stage::Deleting), Requeue::After(5));
}

#[test]
fn unknown_operation_fails_with_its_label() {
    let r = classify_operation(Operation::Unknown("frobnicate".to_string()));
    assert_eq!(
        r,
        Err(Error::UnknownOperation("frobnicate".to_string()))
    );
}

#[test]
fn known_operations_map_to_verbs() {
    assert_eq!(classify_operation(Operation::Get), Ok(ApiVerb::Get));
    assert_eq!(classify_operation(Operation::Create), Ok(ApiVerb::Create));
    assert_eq!(classify_operation(Operation::Update), Ok(ApiVerb::Replace));
    assert_eq!(classify_operation(Operation::Delete), Ok(ApiVerb::Delete));
    assert_eq!(
        classify_operation(Operation::ApplyOwner("uid-9".to_string())),
        Ok(ApiVerb::ApplyOwner("uid-9".to_string()))
    );
}

#[test]
fn owner_reference_fields() {
    let r = owner_reference("uid-42".to_string());
    assert_eq!(r.api_version, "v1");
    assert_eq!(r.kind, "WebhookHelper");
    assert_eq!(r.name, "webhook-helper.io");
    assert_eq!(r.uid, "uid-42");
    assert!(!r.block_owner_deletion);
}

#[test]
fn stage_labels_and_messages() {
    assert_eq!(Stage::Creating.type_label(), "Creating");
    assert_eq!(Stage::Deleting.type_label(), "Deleting");
    let created = Stage::CertificateCreated("svc1".to_string());
    assert_eq!(created.type_label(), "CertificateCreated");
    assert_eq!(created.message(), "Certificate svc1 Created");
    let failed = Stage::CreationFailed("no server".to_string());
    assert_eq!(failed.type_label(), "CreationFailed");
    assert_eq!(
        failed.message(),
        "Webhook-helper failed to created webhook: no server"
    );
    assert_eq!(Stage::Creating.message(), "Creating resource");
    assert_eq!(Stage::Deleting.message(), "Deleting resource");
    let service = Stage::ServiceCreated("svc1".to_string());
    assert_eq!(service.type_label(), "ServiceCreated");
    assert_eq!(service.message(), "Service svc1 Created");
    let webhook = Stage::WebhookCreated("demo".to_string());
    assert_eq!(webhook.type_label(), "WebhookCreated");
    assert_eq!(webhook.message(), "Webhook demo Created");
}

#[test]
fn timestamp_is_not_empty() {
    assert!(!now_timestamp().is_empty());
}

#[test]
fn finalizer_is_the_fixed_literal() {
    assert_eq!(finalizer(), "certificate-helper.io");
}

fn condition(type_: &str, message: &str) -> CertificateCondition {
    CertificateCondition {
        type__: type_.to_string(),
        message: message.to_string(),
        status: "True".to_string(),
        last_transition_time: "01/01/2024 00:00:00".to_string(),
    }
}

#[test]
fn update_status_appends_exactly_one_entry() {
    let old = CertificateStatus {
        certificate: None,
        service: Some("svc1".to_string()),
        alt_names: None,
        conditions: Some(vec![
            condition("Creating", "Creating resource"),
            condition("Deleting", "Deleting resource"),
        ]),
    };
    let stage = Stage::CertificateCreated("svc1".to_string());
    let new = apply_stage(Some(old.clone()), &stage, "02/01/2024 00:00:00".to_string());
    let conds = new.conditions.expect("conditions");
    let old_conds = old.conditions.unwrap();
    assert_eq!(conds.len(), old_conds.len() + 1);
    assert_eq!(&conds[..old_conds.len()], &old_conds[..]);
    let last = conds.last().unwrap();
    assert_eq!(last.type__, "CertificateCreated");
    assert_eq!(last.message, "Certificate svc1 Created");
    assert_eq!(last.status, "True");
    assert_eq!(last.last_transition_time, "02/01/2024 00:00:00");
    assert_eq!(new.certificate, Some("svc1".to_string()));
    assert_eq!(new.service, Some("svc1".to_string()));
}

#[test]
fn update_status_starts_a_log_when_none_exists() {
    let new = apply_stage(None, &Stage::Creating, "t".to_string());
    let conds = new.conditions.expect("conditions");
    assert_eq!(conds.len(), 1);
    assert_eq!(conds[0].type__, "Creating");
    assert_eq!(conds[0].status, "True");
    assert_eq!(new.certificate, None);
}

#[test]
fn failed_stage_records_status_false() {
    let new = apply_stage(None, &Stage::CreationFailed("boom".to_string()), "t".to_string());
    let conds = new.conditions.unwrap();
    assert_eq!(conds[0].status, "False");
    assert_eq!(
        conds[0].message,
        "Webhook-helper failed to created webhook: boom"
    );
}

#[test]
fn empty_condition_list_classifies_as_creating() {
    assert_eq!(classify_status(&None), Ok(Stage::Creating));
    let no_conds = CertificateStatus {
        certificate: None,
        service: None,
        alt_names: None,
        conditions: None,
    };
    assert_eq!(classify_status(&Some(no_conds)), Ok(Stage::Creating));
    let empty = CertificateStatus {
        certificate: None,
        service: None,
        alt_names: None,
        conditions: Some(vec![]),
    };
    assert_eq!(classify_status(&Some(empty)), Ok(Stage::Creating));
}

#[test]
fn last_condition_determines_the_stage() {
    let status = CertificateStatus {
        certificate: Some("svc1".to_string()),
        service: None,
        alt_names: None,
        conditions: Some(vec![
            condition("Creating", "Creating resource"),
            condition("CertificateCreated", "Certificate svc1 Created"),
        ]),
    };
    assert_eq!(
        classify_status(&Some(status)),
        Ok(Stage::CertificateCreated("svc1".to_string()))
    );
    let failed = CertificateStatus {
        certificate: None,
        service: None,
        alt_names: None,
        conditions: Some(vec![condition("CreationFailed", "boom")]),
    };
    assert_eq!(
        classify_status(&Some(failed)),
        Ok(Stage::CreationFailed("boom".to_string()))
    );
}

#[test]
fn created_stage_without_recorded_name_is_unknown() {
    let status = CertificateStatus {
        certificate: None,
        service: None,
        alt_names: None,
        conditions: Some(vec![condition("CertificateCreated", "m")]),
    };
    assert_eq!(
        classify_status(&Some(status)),
        Ok(Stage::CertificateCreated("<unknown>".to_string()))
    );
}

#[test]
fn unrecognized_condition_type_is_an_error() {
    let status = CertificateStatus {
        certificate: None,
        service: None,
        alt_names: None,
        conditions: Some(vec![condition("Bogus", "m")]),
    };
    assert_eq!(
        classify_status(&Some(status)),
        Err(Error::UnknownOperation(
            "Unable to determine condition type: Bogus".to_string()
        ))
    );
}

#[test]
fn delete_plan_names_the_recorded_secret() {
    let resource = CertificateResource {
        metadata: meta(Some("t0"), Some(vec!["certificate-helper.io"])),
        spec: CertificateSpec {
            namespace: "ns".to_string(),
            service: "svc1".to_string(),
            alt_names: None,
        },
        status: Some(CertificateStatus {
            certificate: Some("svc1".to_string()),
            service: None,
            alt_names: None,
            conditions: None,
        }),
    };
    assert_eq!(delete_plan(&resource), Some(&"svc1".to_string()));
    let mut bare = resource.clone();
    bare.status = None;
    assert_eq!(delete_plan(&bare), None);
}
