use pago_backend::file_uploads::{upload_bucket, upload_file_name, UploadKind, UPLOAD_URL_EXPIRY_SECS};
use pago_backend::organizations::client::new_organization_id;
use pago_backend::sns_subscriber::{
    organization_id_from_key, sns_message_kind, upload_kind_for_bucket, uploaded_files, S3Event, S3EventBucket,
    S3EventMessage, S3EventObject, S3EventRecord, S3OwnerIdentity, SnsMessageKind,
};

fn record(bucket: &str, key: &str) -> S3EventRecord {
    S3EventRecord {
        s3: S3Event {
            s3SchemaVersion: "1.0".to_string(),
            configurationId: "cfg".to_string(),
            bucket: S3EventBucket {
                name: bucket.to_string(),
                ownerIdentity: S3OwnerIdentity { principalId: "owner".to_string() },
                arn: format!("arn:aws:s3:::{}", bucket),
            },
            object: S3EventObject {
                key: key.to_string(),
                size: 10,
                eTag: "etag".to_string(),
                sequencer: "seq".to_string(),
            },
        },
    }
}

#[test]
fn upload_buckets_by_kind() {
    assert_eq!(upload_bucket(UploadKind::Organization), "pago-org-data-staging");
    assert_eq!(upload_bucket(UploadKind::Compensation), "pago-comp-data-staging");
    assert_eq!(UPLOAD_URL_EXPIRY_SECS, 600);
}

#[test]
fn upload_file_names() {
    assert_eq!(upload_file_name("org-1", UploadKind::Organization, 2024, 3, 7), "org-1_org_202437");
    assert_eq!(upload_file_name("org-1", UploadKind::Compensation, 2023, 12, 25), "org-1_comp_20231225");
    assert_eq!(upload_file_name("", UploadKind::Organization, -44, 0, 0), "_org_-4400");
}

#[test]
fn organization_from_object_key() {
    assert_eq!(organization_id_from_key("org-1_org_202437"), "org-1");
    assert_eq!(organization_id_from_key("nounderscore"), "nounderscore");
    assert_eq!(organization_id_from_key("_leading"), "");
    assert_eq!(organization_id_from_key(""), "");
}

#[test]
fn uploaded_name_names_its_organization() {
    let org = new_organization_id();
    for kind in [UploadKind::Organization, UploadKind::Compensation] {
        let name = upload_file_name(&org, kind, 2024, 11, 30);
        assert_eq!(organization_id_from_key(&name), org);
    }
    // An organization id with an underscore is cut at it.
    let name = upload_file_name("acme_inc", UploadKind::Organization, 2024, 1, 1);
    assert_eq!(organization_id_from_key(&name), "acme");
}

#[test]
fn bucket_routing() {
    assert_eq!(upload_kind_for_bucket("pago-comp-data-staging"), Some(UploadKind::Compensation));
    assert_eq!(upload_kind_for_bucket("pago-org-data-prod"), Some(UploadKind::Organization));
    assert_eq!(upload_kind_for_bucket("pago-org"), None);
    assert_eq!(upload_kind_for_bucket("other-bucket"), None);
    for kind in [UploadKind::Organization, UploadKind::Compensation] {
        assert_eq!(upload_kind_for_bucket(&upload_bucket(kind)), Some(kind));
    }
}

#[test]
fn message_kinds() {
    assert_eq!(sns_message_kind("SubscriptionConfirmation"), SnsMessageKind::SubscriptionConfirmation);
    assert_eq!(sns_message_kind("Notification"), SnsMessageKind::Notification);
    assert_eq!(sns_message_kind("UnsubscribeConfirmation"), SnsMessageKind::Other);
    assert_eq!(sns_message_kind("notification"), SnsMessageKind::Other);
}

#[test]
fn uploaded_files_of_a_notification() {
    let msg = S3EventMessage {
        Records: vec![
            record("pago-comp-data-staging", "org-1_comp_2024111"),
            record("pago-org-data-staging", "org-2_org_2024111"),
            record("elsewhere", "x"),
        ],
    };
    let files = uploaded_files(&msg);
    assert_eq!(files.len(), 3);
    assert_eq!(files[0].bucket, "pago-comp-data-staging");
    assert_eq!(files[0].key, "org-1_comp_2024111");
    assert_eq!(files[0].organization_id, "org-1");
    assert_eq!(files[0].kind, Some(UploadKind::Compensation));
    assert_eq!(files[1].organization_id, "org-2");
    assert_eq!(files[1].kind, Some(UploadKind::Organization));
    assert_eq!(files[2].organization_id, "x");
    assert_eq!(files[2].kind, None);
    assert!(uploaded_files(&S3EventMessage { Records: vec![] }).is_empty());
}
