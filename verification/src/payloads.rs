//! Inbound and outbound payload bodies for the master-data and sales
//! endpoints, and the authenticated caller's identity.
//!
//! Field names follow the external authority's schema.

use vstd::prelude::*;

verus! {

/// The authenticated caller, resolved from a bearer token: the device or
/// branch whose credential key scopes sequencing and record ownership. The
/// `pin` and `branch_id` fields carry the sealed values from provisioning.
pub struct AuthUser {
    pub api_key: String,
    pub branch_id: String,
    pub company_id: String,
    pub device_serial: String,
    pub environment_name: String,
    pub environment_url: String,
    pub id: i32,
    pub pin: String,
}

/// Receipt block of a sales document.
#[allow(non_snake_case)]
pub struct ReceiptInfo {
    pub custTin: String,
    pub custMblNo: Option<String>,
    pub rptNo: i64,
    pub trdeNm: String,
    pub adrs: String,
    pub topMsg: String,
    pub btmMsg: String,
    pub prchrAcptcYn: String,
}

/// One response element from the upstream authority for a sales upload.
#[allow(non_snake_case)]
pub struct TrnsSalesSaveWrRes {
    pub resultCd: String,
    pub resultMsg: String,
    pub resultDt: String,
    pub data: Option<TrnsSalesSaveResData>,
}

/// Payload of a successful upstream sales response.
#[allow(non_snake_case)]
pub struct TrnsSalesSaveResData {
    pub rcptNo: i64,
    pub intrlData: String,
    pub rcptSign: String,
    pub totRcptNo: i64,
    pub VSCURcptPbctDate: String,
    pub sdcId: String,
    pub mrcNo: String,
}

/// Inbound branch-customer registration body.
#[allow(non_snake_case)]
pub struct BhfCustSaveReq {
    pub tin: String,
    pub bhfId: String,
    pub custNo: String,
    pub custTin: String,
    pub custNm: String,
    pub adrs: Option<String>,
    pub telNo: Option<String>,
    pub email: Option<String>,
    pub faxNo: Option<String>,
    pub useYn: String,
    pub remark: Option<String>,
    pub regrNm: String,
    pub regrId: String,
    pub modrNm: String,
    pub modrId: String,
}

/// Inbound branch-user registration body.
#[allow(non_snake_case)]
pub struct BhfUserSaveReq {
    pub tin: String,
    pub bhfId: String,
    pub userId: String,
    pub userNm: String,
    pub pwd: String,
    pub adrs: Option<String>,
    pub cntc: Option<String>,
    pub authCd: Option<String>,
    pub remark: Option<String>,
    pub useYn: String,
    pub regrNm: String,
    pub regrId: String,
    pub modrNm: String,
    pub modrId: String,
}

/// Inbound branch-insurance registration body.
#[allow(non_snake_case)]
pub struct BhfInsuranceSaveReq {
    pub tin: String,
    pub bhfId: String,
    pub isrccCd: String,
    pub isrccNm: String,
    pub isrcRt: i32,
    pub useYn: String,
    pub regrNm: String,
    pub regrId: String,
    pub modrNm: String,
    pub modrId: String,
}

/// Response body for a branch-insurance registration.
#[allow(non_snake_case)]
pub struct BhfInsuranceSaveRes {
    pub resultCd: String,
    pub resultMsg: String,
    pub resultDt: String,
}

/// Checks the declared item count of an inbound document against the actual
/// number of items it carries; a mismatch rejects the batch before anything
/// is persisted.
pub fn item_count_matches(declared: i64, actual: usize) -> (r: bool)
    ensures
        r <==> declared == actual,
{
    declared >= 0 && declared as u64 == actual as u64
}

} // verus!
