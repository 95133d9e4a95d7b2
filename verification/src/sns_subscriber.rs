//! Notifications from the message service about uploaded files: their shape,
//! and how each is routed to the organization and the kind of file it concerns.

use vstd::prelude::*;
use crate::file_uploads::{UploadKind, bucket_name, file_name};
use crate::ids::{is_lower_hex, is_uuid_text};
use crate::text::{chars_of, push_char, starts_with, str_eq, str_starts_with};

verus! {

/// A message from the notification service.
#[allow(non_snake_case)]
#[derive(Debug, Clone)]
pub struct SnsMessage {
    pub Type: String,
    pub MessageId: String,
    pub Token: Option<String>,
    pub TopicArn: String,
    pub Message: String,
    pub SubscribeURL: Option<String>,
    pub Timestamp: String,
}

/// The storage events a notification carries.
#[allow(non_snake_case)]
#[derive(Debug, Clone)]
pub struct S3EventMessage {
    pub Records: Vec<S3EventRecord>,
}

/// One storage event.
#[derive(Debug, Clone)]
pub struct S3EventRecord {
    pub s3: S3Event,
}

/// What a storage event is about.
#[allow(non_snake_case)]
#[derive(Debug, Clone)]
pub struct S3Event {
    pub s3SchemaVersion: String,
    pub configurationId: String,
    pub bucket: S3EventBucket,
    pub object: S3EventObject,
}

/// The bucket of a storage event.
#[allow(non_snake_case)]
#[derive(Debug, Clone)]
pub struct S3EventBucket {
    pub name: String,
    pub ownerIdentity: S3OwnerIdentity,
    pub arn: String,
}

/// The object of a storage event.
#[allow(non_snake_case)]
#[derive(Debug, Clone)]
pub struct S3EventObject {
    pub key: String,
    pub size: i32,
    pub eTag: String,
    pub sequencer: String,
}

/// The owner of a bucket.
#[allow(non_snake_case)]
#[derive(Debug, Clone)]
pub struct S3OwnerIdentity {
    pub principalId: String,
}

/// The kinds of notification message, by their message-type header.
#[derive(Debug, Clone, Copy, PartialEq, Eq, Structural)]
pub enum SnsMessageKind {
    /// The subscription is to be confirmed by visiting the message's subscribe URL.
    SubscriptionConfirmation,
    /// The message carries storage events to process.
    Notification,
    /// Any other message: refused.
    Other,
}

/// The kind of message a message-type header names.
pub open spec fn message_kind(message_type: Seq<char>) -> SnsMessageKind {
    if message_type == "SubscriptionConfirmation"@ {
        SnsMessageKind::SubscriptionConfirmation
    } else if message_type == "Notification"@ {
        SnsMessageKind::Notification
    } else {
        SnsMessageKind::Other
    }
}

/// The kind of message a message-type header names.
pub fn sns_message_kind(message_type: &str) -> (k: SnsMessageKind)
    ensures
        k == message_kind(message_type@),
{
    if str_eq(message_type, "SubscriptionConfirmation") {
        SnsMessageKind::SubscriptionConfirmation
    } else if str_eq(message_type, "Notification") {
        SnsMessageKind::Notification
    } else {
        SnsMessageKind::Other
    }
}

/// The index of the first underscore in `s` at or after `i`, or the length of `s`.
pub open spec fn underscore_from(s: Seq<char>, i: int) -> int
    decreases s.len() - i,
{
    if i < 0 || i >= s.len() {
        s.len() as int
    } else if s[i] == '_' {
        i
    } else {
        underscore_from(s, i + 1)
    }
}

/// The organization an uploaded object's key names: the part before its first
/// underscore (the whole key when it has none).
pub open spec fn key_organization(key: Seq<char>) -> Seq<char> {
    key.take(underscore_from(key, 0))
}

proof fn lemma_underscore_from_bounds(s: Seq<char>, i: int)
    requires
        0 <= i <= s.len(),
    ensures
        i <= underscore_from(s, i) <= s.len(),
        underscore_from(s, i) < s.len() ==> s[underscore_from(s, i)] == '_',
        forall|j: int| i <= j < underscore_from(s, i) ==> s[j] != '_',
    decreases s.len() - i,
{
    if i < s.len() && s[i] != '_' {
        lemma_underscore_from_bounds(s, i + 1);
    }
}

proof fn lemma_underscore_at(s: Seq<char>, i: int, k: int)
    requires
        0 <= i <= k < s.len(),
        s[k] == '_',
        forall|j: int| i <= j < k ==> s[j] != '_',
    ensures
        underscore_from(s, i) == k,
    decreases k - i,
{
    if i < k {
        lemma_underscore_at(s, i + 1, k);
    }
}

/// The organization an uploaded object's key names: the part before its first
/// underscore (the whole key when it has none).
pub fn organization_id_from_key(key: &str) -> (r: String)
    ensures
        r@ == key_organization(key@),
{
    let v = chars_of(key);
    let mut r = String::new();
    let mut i: usize = 0;
    proof {
        lemma_underscore_from_bounds(key@, 0);
    }
    while i < v.len() && v[i] != '_'
        invariant
            v@ == key@,
            i <= v.len(),
            i <= underscore_from(key@, 0) <= key@.len(),
            underscore_from(key@, 0) < key@.len() ==> key@[underscore_from(key@, 0)] == '_',
            r@ == key@.take(i as int),
        decreases v.len() - i,
    {
        push_char(&mut r, v[i]);
        i = i + 1;
        assert(r@ =~= key@.take(i as int));
    }
    proof {
        if i < v.len() {
            lemma_underscore_at(key@, 0, i as int);
        }
    }
    r
}

/// The kind of file an upload to the named bucket holds: compensation for
/// buckets named "pago-comp-data...", the organization's users for
/// "pago-org-data...", and none otherwise.
pub open spec fn bucket_kind(name: Seq<char>) -> Option<UploadKind> {
    if starts_with(name, "pago-comp-data"@) {
        Some(UploadKind::Compensation)
    } else if starts_with(name, "pago-org-data"@) {
        Some(UploadKind::Organization)
    } else {
        None
    }
}

/// The kind of file an upload to the named bucket holds.
pub fn upload_kind_for_bucket(name: &str) -> (k: Option<UploadKind>)
    ensures
        k == bucket_kind(name@),
{
    if str_starts_with(name, "pago-comp-data") {
        Some(UploadKind::Compensation)
    } else if str_starts_with(name, "pago-org-data") {
        Some(UploadKind::Organization)
    } else {
        None
    }
}

/// An uploaded file a notification reports: where it is, whose it is and what it holds.
#[derive(Debug, Clone)]
pub struct UploadedFile {
    pub bucket: String,
    pub key: String,
    pub organization_id: String,
    pub kind: Option<UploadKind>,
}

/// The uploaded files a notification reports, one per storage event, in order.
pub fn uploaded_files(message: &S3EventMessage) -> (files: Vec<UploadedFile>)
    ensures
        files@.len() == message.Records@.len(),
        forall|i: int| 0 <= i < files@.len() ==> {
            let rec = #[trigger] message.Records@[i];
            &&& files@[i].bucket == rec.s3.bucket.name
            &&& files@[i].key == rec.s3.object.key
            &&& files@[i].organization_id@ == key_organization(rec.s3.object.key@)
            &&& files@[i].kind == bucket_kind(rec.s3.bucket.name@)
        },
{
    let mut files: Vec<UploadedFile> = Vec::new();
    let mut i: usize = 0;
    while i < message.Records.len()
        invariant
            i <= message.Records@.len(),
            files@.len() == i,
            forall|j: int| 0 <= j < i ==> {
                let rec = #[trigger] message.Records@[j];
                &&& files@[j].bucket == rec.s3.bucket.name
                &&& files@[j].key == rec.s3.object.key
                &&& files@[j].organization_id@ == key_organization(rec.s3.object.key@)
                &&& files@[j].kind == bucket_kind(rec.s3.bucket.name@)
            },
        decreases message.Records.len() - i,
    {
        let rec = &message.Records[i];
        let file = UploadedFile {
            bucket: rec.s3.bucket.name.clone(),
            key: rec.s3.object.key.clone(),
            organization_id: organization_id_from_key(rec.s3.object.key.as_str()),
            kind: upload_kind_for_bucket(rec.s3.bucket.name.as_str()),
        };
        files.push(file);
        i = i + 1;
    }
    files
}

/// A file uploaded under the name [`file_name`] is attributed to the
/// organization that uploaded it, whenever the organization's id has no
/// underscore (generated ids never do).
pub proof fn lemma_upload_key_names_organization(
    organization_id: Seq<char>,
    kind: UploadKind,
    year: int,
    month: nat,
    day: nat,
)
    requires
        !organization_id.contains('_'),
    ensures
        key_organization(file_name(organization_id, kind, year, month, day)) == organization_id,
{
    let s = file_name(organization_id, kind, year, month, day);
    let k = organization_id.len() as int;
    reveal_strlit("_");
    assert(s[k] == '_');
    assert forall|j: int| 0 <= j < k implies s[j] != '_' by {
        assert(s[j] == organization_id[j]);
    }
    lemma_underscore_at(s, 0, k);
    assert(s.take(k) =~= organization_id);
}

/// Files uploaded by an organization with a generated id are attributed to it.
pub proof fn lemma_generated_organization_uploads(
    organization_id: Seq<char>,
    kind: UploadKind,
    year: int,
    month: nat,
    day: nat,
)
    requires
        is_uuid_text(organization_id),
    ensures
        key_organization(file_name(organization_id, kind, year, month, day)) == organization_id,
{
    assert forall|i: int| 0 <= i < organization_id.len() implies organization_id[i] != '_' by {
        assert(organization_id[i] == '-' || is_lower_hex(organization_id[i]));
    }
    lemma_upload_key_names_organization(organization_id, kind, year, month, day);
}

/// A file uploaded to the bucket for its kind is recognized as that kind.
pub proof fn lemma_upload_bucket_names_kind(kind: UploadKind)
    ensures
        bucket_kind(bucket_name(kind)) == Some(kind),
{
    reveal_strlit("pago-org-data-staging");
    reveal_strlit("pago-comp-data-staging");
    reveal_strlit("pago-org-data");
    reveal_strlit("pago-comp-data");
    match kind {
        UploadKind::Compensation => {
            assert(bucket_name(kind).take("pago-comp-data"@.len() as int) =~= "pago-comp-data"@);
        },
        UploadKind::Organization => {
            assert(bucket_name(kind)[5] != "pago-comp-data"@[5]);
            assert(bucket_name(kind).take("pago-org-data"@.len() as int) =~= "pago-org-data"@);
        },
    }
}

/// Uploads are routed by the start of their bucket's name: any bucket whose
/// name begins "pago-comp-data" holds compensation files, any other whose name
/// begins "pago-org-data" holds user files, and any other bucket is not
/// recognized.
pub proof fn lemma_bucket_routing(name: Seq<char>)
    ensures
        name.len() >= 14 && name.take(14) == "pago-comp-data"@ ==> bucket_kind(name) == Some(UploadKind::Compensation),
        !(name.len() >= 14 && name.take(14) == "pago-comp-data"@) && name.len() >= 13 && name.take(13) == "pago-org-data"@
            ==> bucket_kind(name) == Some(UploadKind::Organization),
        !(name.len() >= 14 && name.take(14) == "pago-comp-data"@) && !(name.len() >= 13 && name.take(13)
            == "pago-org-data"@) ==> bucket_kind(name) is None,
{
    reveal_strlit("pago-comp-data");
    reveal_strlit("pago-org-data");
}

} // verus!
