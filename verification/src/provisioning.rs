//! Device provisioning: turning an initialization request into the sealed
//! credential row, with one sealing scheme fixed per field.
//!
//! Fields later used as equality-filter keys (the PIN and the device serial)
//! take the lookup-preserving seal; fields only ever decrypted again for
//! outbound use (company, branch, API key) take the randomized seal. The
//! distinct sealed types make a mix-up a compile-time error.

use vstd::prelude::*;

use crate::accounts::{generate_token, is_token_char, TOKEN_LEN};
use crate::codec::{
    lookup_opened_of, lookup_sealed_of, opened_of, LookupCodec, LookupSealed, OpaqueCodec,
    OpaqueSealed, SEAL_MAX_LEN,
};

verus! {

/// Inbound initialization request body.
#[allow(non_snake_case)]
pub struct InitializeData {
    pub companyId: String,
    pub environmentName: String,
    pub environmentUrl: String,
    pub pin: String,
    pub branchId: String,
    pub deviceSerial: String,
}

/// Inbound verification request body.
#[allow(non_snake_case)]
pub struct VerificationInfo {
    pub tin: String,
    pub bhfId: String,
    pub lastReqDt: String,
}

/// The credential row a successful initialization persists. The PIN and the
/// device serial are sealed with the lookup-preserving scheme so the store
/// can run uniqueness checks over the ciphertext; the rest are sealed with
/// the randomized scheme.
pub struct DeviceCredentials {
    pub company_id: OpaqueSealed,
    pub environment_name: String,
    pub environment_url: String,
    pub pin: LookupSealed,
    pub branch_id: OpaqueSealed,
    pub device_serial: LookupSealed,
    pub api_key: OpaqueSealed,
}

/// Builds the credential row for an initialization request: seals each field
/// under its scheme and generates the fresh API key that is returned to the
/// caller in the clear (its sealed form goes into the row).
pub fn prepare_initialization(
    lookup: &LookupCodec,
    opaque: &OpaqueCodec,
    data: InitializeData,
) -> (r: (DeviceCredentials, String))
    requires
        lookup.wf(),
        opaque.wf(),
        data.pin@.len() <= SEAL_MAX_LEN,
        data.deviceSerial@.len() <= SEAL_MAX_LEN,
        data.companyId@.len() <= SEAL_MAX_LEN,
        data.branchId@.len() <= SEAL_MAX_LEN,
    ensures
        r.0.pin.data@ == lookup_sealed_of(lookup.key_view(), data.pin@),
        lookup_opened_of(lookup.key_view(), r.0.pin.data@) == Some(data.pin@),
        r.0.device_serial.data@ == lookup_sealed_of(lookup.key_view(), data.deviceSerial@),
        lookup_opened_of(lookup.key_view(), r.0.device_serial.data@) == Some(data.deviceSerial@),
        opened_of(opaque.key_view(), r.0.company_id.data@) == Some(data.companyId@),
        opened_of(opaque.key_view(), r.0.branch_id.data@) == Some(data.branchId@),
        opened_of(opaque.key_view(), r.0.api_key.data@) == Some(r.1@),
        r.1@.len() == TOKEN_LEN,
        forall|i: int| 0 <= i < r.1@.len() ==> is_token_char(#[trigger] r.1@[i]),
        r.0.environment_name@ == data.environmentName@,
        r.0.environment_url@ == data.environmentUrl@,
{
    let api_key = generate_token();
    let credentials = DeviceCredentials {
        company_id: opaque.seal(data.companyId.as_str()),
        environment_name: data.environmentName,
        environment_url: data.environmentUrl,
        pin: lookup.seal_lookup(data.pin.as_str()),
        branch_id: opaque.seal(data.branchId.as_str()),
        device_serial: lookup.seal_lookup(data.deviceSerial.as_str()),
        api_key: opaque.seal(api_key.as_str()),
    };
    (credentials, api_key)
}

} // verus!
