//! Names under which organizations upload their data files.

use vstd::prelude::*;
use crate::text::{decimal, push_decimal, push_signed_decimal, signed_decimal};

verus! {

/// The two kinds of data file an organization uploads.
#[derive(Debug, Clone, Copy, PartialEq, Eq, Structural)]
pub enum UploadKind {
    /// The organization's users.
    Organization,
    /// The compensation of the organization's users.
    Compensation,
}

/// How long an upload link stays valid, in seconds.
pub const UPLOAD_URL_EXPIRY_SECS: u64 = 600;

/// The storage bucket a kind of file is uploaded to.
pub open spec fn bucket_name(kind: UploadKind) -> Seq<char> {
    match kind {
        UploadKind::Organization => "pago-org-data-staging"@,
        UploadKind::Compensation => "pago-comp-data-staging"@,
    }
}

/// The word that marks a kind of file in its name.
pub open spec fn kind_label(kind: UploadKind) -> Seq<char> {
    match kind {
        UploadKind::Organization => "org"@,
        UploadKind::Compensation => "comp"@,
    }
}

/// The date part of a file name: year, month and day written one after the
/// other in decimal, without padding.
pub open spec fn date_text(year: int, month: nat, day: nat) -> Seq<char> {
    signed_decimal(year) + decimal(month) + decimal(day)
}

/// The name a file is uploaded under: organization, kind and date, joined by underscores.
pub open spec fn file_name(organization_id: Seq<char>, kind: UploadKind, year: int, month: nat, day: nat) -> Seq<char> {
    organization_id + "_"@ + kind_label(kind) + "_"@ + date_text(year, month, day)
}

/// The storage bucket a kind of file is uploaded to.
pub fn upload_bucket(kind: UploadKind) -> (s: String)
    ensures
        s@ == bucket_name(kind),
{
    match kind {
        UploadKind::Organization => "pago-org-data-staging".to_owned(),
        UploadKind::Compensation => "pago-comp-data-staging".to_owned(),
    }
}

/// The name an organization's file of the given kind is uploaded under on the given day.
pub fn upload_file_name(organization_id: &str, kind: UploadKind, year: i32, month: u32, day: u32) -> (s: String)
    ensures
        s@ == file_name(organization_id@, kind, year as int, month as nat, day as nat),
{
    let mut s: String = organization_id.to_owned();
    match kind {
        UploadKind::Organization => s.append("_org_"),
        UploadKind::Compensation => s.append("_comp_"),
    }
    let ghost base = s@;
    push_signed_decimal(&mut s, year);
    push_decimal(&mut s, month as u64);
    push_decimal(&mut s, day as u64);
    proof {
        reveal_strlit("_org_");
        reveal_strlit("_comp_");
        reveal_strlit("_");
        reveal_strlit("org");
        reveal_strlit("comp");
        assert(base =~= organization_id@ + "_"@ + kind_label(kind) + "_"@);
        assert(s@ =~= file_name(organization_id@, kind, year as int, month as nat, day as nat));
    }
    s
}

} // verus!
