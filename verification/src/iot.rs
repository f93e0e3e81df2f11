//! Access decisions for smart locks, gates and other devices that check a
//! lessee's access token before they open.

use vstd::prelude::*;
use crate::access_token::{token_valid_spec, LesseeAccessToken, LesseeAccessTokenManager};
use crate::types::AccountId;

verus! {

/// The kinds of device that ask for access decisions.
#[derive(Clone, Copy, Debug, PartialEq, Eq, Structural)]
pub enum IoTDeviceType {
    SmartLock,
    AccessGate,
    SmartKey,
    Biometric,
    RFID,
    QRCode,
    NFC,
    Bluetooth,
    Hybrid,
}

/// How a device encrypts its traffic.
#[derive(Clone, Copy, Debug, PartialEq, Eq, Structural)]
pub enum EncryptionLevel {
    NoEncryption,
    Basic,
    Standard,
    High,
    Military,
}

/// What a device can do.
#[derive(Clone, Copy, Debug, PartialEq, Eq, Structural)]
pub struct DeviceCapabilities {
    pub device_type: IoTDeviceType,
    pub supports_remote: bool,
    pub supports_offline: bool,
    pub supports_audit: bool,
    pub supports_time_based: bool,
    pub supports_multi_user: bool,
    pub max_concurrent_access: u32,
    pub battery_backup: bool,
    pub encryption_level: EncryptionLevel,
}

/// The state of a registered device.
#[derive(Clone, Copy, Debug, PartialEq, Eq, Structural)]
pub enum DeviceStatus {
    Online,
    Offline,
    Maintenance,
    Error,
    Decommissioned,
}

/// A registered device.
#[derive(Clone, Debug)]
pub struct IoTDevice {
    pub device_id: String,
    pub device_type: IoTDeviceType,
    pub owner: AccountId,
    pub location: String,
    pub capabilities: DeviceCapabilities,
    pub registered_at: u64,
    pub last_seen: u64,
    pub status: DeviceStatus,
    pub firmware_version: String,
    pub hardware_version: String,
}

/// How a user presents themselves to a device.
#[derive(Clone, Copy, Debug, PartialEq, Eq, Structural)]
pub enum AccessMethod {
    Biometric,
    RFID,
    NFC,
    QRCode,
    MobileApp,
    WebApp,
    Voice,
    Physical,
}

/// How urgent an access request is.
#[derive(Clone, Copy, Debug, PartialEq, Eq, Structural)]
pub enum AccessUrgency {
    Low,
    Medium,
    High,
    Critical,
}

/// The access a device grants.
#[derive(Clone, Copy, Debug, PartialEq, Eq, Structural)]
pub enum AccessLevel {
    ReadOnly,
    Limited,
    Standard,
    Full,
    Admin,
    Emergency,
}

/// A device's answer to an access request.
#[derive(Clone, Debug)]
pub struct IoTAccessResponse {
    pub device_id: String,
    pub access_granted: bool,
    pub access_duration: Option<u64>,
    pub access_level: AccessLevel,
    pub granted_at: u64,
    pub expires_at: Option<u64>,
    pub verification_code: Option<[u8; 32]>,
    pub audit_required: bool,
    pub additional_instructions: Vec<String>,
}

/// The health of a device as last seen.
#[derive(Clone, Debug)]
pub struct DeviceHealthStatus {
    pub device_id: String,
    pub is_online: bool,
    pub last_seen: u64,
    pub uptime: u64,
    pub battery_level: Option<u32>,
    pub signal_strength: Option<u32>,
    pub firmware_upto_date: bool,
    pub last_health_check: u64,
    pub issues: Vec<String>,
}

/// Why a device request was refused.
#[derive(Clone, Copy, Debug, PartialEq, Eq, Structural)]
pub enum IoTError {
    DeviceNotFound,
    DeviceNotRegistered,
    DeviceOffline,
    AccessDenied,
    InvalidAccessMethod,
    TokenExpired,
    TokenRevoked,
    UnauthorizedDevice,
    CommunicationFailed,
    EncryptionError,
    RateLimited,
    MaintenanceMode,
    CrossContractCallFailed,
}

impl IoTError {
    /// The stable numeric code of an error (6001 to 6013, in declaration order).
    pub open spec fn code_spec(self) -> u32 {
        match self {
            IoTError::DeviceNotFound => 6001,
            IoTError::DeviceNotRegistered => 6002,
            IoTError::DeviceOffline => 6003,
            IoTError::AccessDenied => 6004,
            IoTError::InvalidAccessMethod => 6005,
            IoTError::TokenExpired => 6006,
            IoTError::TokenRevoked => 6007,
            IoTError::UnauthorizedDevice => 6008,
            IoTError::CommunicationFailed => 6009,
            IoTError::EncryptionError => 6010,
            IoTError::RateLimited => 6011,
            IoTError::MaintenanceMode => 6012,
            IoTError::CrossContractCallFailed => 6013,
        }
    }

    /// The stable numeric code of an error.
    pub fn code(&self) -> (c: u32)
        ensures
            c == self.code_spec(),
    {
        match self {
            IoTError::DeviceNotFound => 6001,
            IoTError::DeviceNotRegistered => 6002,
            IoTError::DeviceOffline => 6003,
            IoTError::AccessDenied => 6004,
            IoTError::InvalidAccessMethod => 6005,
            IoTError::TokenExpired => 6006,
            IoTError::TokenRevoked => 6007,
            IoTError::UnauthorizedDevice => 6008,
            IoTError::CommunicationFailed => 6009,
            IoTError::EncryptionError => 6010,
            IoTError::RateLimited => 6011,
            IoTError::MaintenanceMode => 6012,
            IoTError::CrossContractCallFailed => 6013,
        }
    }
}

/// Decides device registrations and access requests.
pub struct IoTIntegrationManager;

/// Every access method works on every device, except voice, which needs a
/// device that supports remote operation.
pub open spec fn method_supported_spec(capabilities: DeviceCapabilities, method: AccessMethod) -> bool {
    match method {
        AccessMethod::Voice => capabilities.supports_remote,
        _ => true,
    }
}

/// The device access that a token's access level maps to.
pub open spec fn device_level_spec(level: crate::access_token::AccessLevel) -> AccessLevel {
    match level {
        crate::access_token::AccessLevel::Full => AccessLevel::Full,
        crate::access_token::AccessLevel::Limited => AccessLevel::Limited,
        crate::access_token::AccessLevel::TimeBased => AccessLevel::Standard,
        crate::access_token::AccessLevel::Conditional => AccessLevel::Limited,
    }
}

/// Seconds of access granted for each urgency: an hour when critical, half an
/// hour when high, a quarter when medium, five minutes when low.
pub open spec fn access_duration_spec(urgency: AccessUrgency) -> u64 {
    match urgency {
        AccessUrgency::Critical => 3600,
        AccessUrgency::High => 1800,
        AccessUrgency::Medium => 900,
        AccessUrgency::Low => 300,
    }
}

/// The device-specific second instruction shown to the user.
pub open spec fn device_instruction(device_type: IoTDeviceType) -> Seq<char> {
    match device_type {
        IoTDeviceType::SmartLock => "Press the unlock button after verification"@,
        IoTDeviceType::AccessGate => "Proceed to the entrance after access is granted"@,
        IoTDeviceType::SmartKey => "Hold the key near the reader"@,
        _ => "Follow the device instructions"@,
    }
}

/// Whether the token at index `i` of `tokens` is the first valid one at `now`.
pub open spec fn first_valid_token(tokens: Seq<LesseeAccessToken>, now: u64, i: int) -> bool {
    &&& 0 <= i < tokens.len()
    &&& token_valid_spec(tokens[i], now)
    &&& forall|j: int| 0 <= j < i ==> !token_valid_spec(#[trigger] tokens[j], now)
}

impl IoTIntegrationManager {
    /// Registers a device, online from `now`; a device registers once.
    pub fn register_device(
        already_registered: bool,
        device_id: String,
        device_type: IoTDeviceType,
        owner: AccountId,
        location: String,
        capabilities: DeviceCapabilities,
        firmware_version: String,
        hardware_version: String,
        now: u64,
    ) -> (r: Result<IoTDevice, IoTError>)
        ensures
            r is Err <==> already_registered,
            r is Err ==> r->Err_0 == IoTError::DeviceNotRegistered,
            r is Ok ==> r->Ok_0 == (IoTDevice {
                device_id,
                device_type,
                owner,
                location,
                capabilities,
                registered_at: now,
                last_seen: now,
                status: DeviceStatus::Online,
                firmware_version,
                hardware_version,
            }),
    {
        if already_registered {
            return Err(IoTError::DeviceNotRegistered);
        }
        Ok(IoTDevice {
            device_id,
            device_type,
            owner,
            location,
            capabilities,
            registered_at: now,
            last_seen: now,
            status: DeviceStatus::Online,
            firmware_version,
            hardware_version,
        })
    }

    /// Whether a device accepts an access method.
    pub fn is_access_method_supported(capabilities: &DeviceCapabilities, method: AccessMethod) -> (b: bool)
        ensures
            b == method_supported_spec(*capabilities, method),
    {
        match method {
            AccessMethod::Voice => capabilities.supports_remote,
            _ => true,
        }
    }

    /// The first of a user's tokens that is valid at `now`.
    pub fn select_user_access_token(tokens: &Vec<LesseeAccessToken>, now: u64) -> (r: Result<usize, IoTError>)
        ensures
            r is Ok ==> first_valid_token(tokens@, now, r->Ok_0 as int),
            r is Err <==> forall|j: int| 0 <= j < tokens@.len() ==> !token_valid_spec(#[trigger] tokens@[j], now),
            r is Err ==> r->Err_0 == IoTError::AccessDenied,
    {
        let mut i: usize = 0;
        while i < tokens.len()
            invariant
                i <= tokens.len(),
                forall|j: int| 0 <= j < i ==> !token_valid_spec(#[trigger] tokens@[j], now),
            decreases tokens.len() - i,
        {
            if LesseeAccessTokenManager::is_token_valid(&tokens[i], now) {
                return Ok(i);
            }
            i = i + 1;
        }
        Err(IoTError::AccessDenied)
    }

    /// The device access level and access duration for a token's level and
    /// the urgency of the request.
    pub fn determine_access_level(token_level: crate::access_token::AccessLevel, urgency: AccessUrgency) -> (r: (AccessLevel, Option<u64>))
        ensures
            r.0 == device_level_spec(token_level),
            r.1 == Some(access_duration_spec(urgency)),
    {
        let level = match token_level {
            crate::access_token::AccessLevel::Full => AccessLevel::Full,
            crate::access_token::AccessLevel::Limited => AccessLevel::Limited,
            crate::access_token::AccessLevel::TimeBased => AccessLevel::Standard,
            crate::access_token::AccessLevel::Conditional => AccessLevel::Limited,
        };
        let duration: u64 = match urgency {
            AccessUrgency::Critical => 3600,
            AccessUrgency::High => 1800,
            AccessUrgency::Medium => 900,
            AccessUrgency::Low => 300,
        };
        (level, Some(duration))
    }

    /// The one-time code handed to an encrypting device: every byte is the
    /// ledger sequence number modulo 256.
    pub fn generate_verification_code(sequence: u32) -> (code: [u8; 32])
        ensures
            forall|i: int| 0 <= i < 32 ==> code@[i] == sequence % 256,
    {
        let b: u8 = (sequence % 256) as u8;
        [b; 32]
    }

    /// What the user is told: verify their identity, then what to do at this
    /// kind of device.
    pub fn generate_access_instructions(device_type: IoTDeviceType) -> (v: Vec<String>)
        ensures
            v@.len() == 2,
            v@[0]@ == "Please verify your identity"@,
            v@[1]@ == device_instruction(device_type),
    {
        let mut v: Vec<String> = Vec::new();
        v.push("Please verify your identity".to_owned());
        let second = match device_type {
            IoTDeviceType::SmartLock => "Press the unlock button after verification".to_owned(),
            IoTDeviceType::AccessGate => "Proceed to the entrance after access is granted".to_owned(),
            IoTDeviceType::SmartKey => "Hold the key near the reader".to_owned(),
            _ => "Follow the device instructions".to_owned(),
        };
        v.push(second);
        v
    }

    /// Decides an access request from a device at `now`: the device must be
    /// online and accept the access method, and the user must hold a valid
    /// access token; the first such token sets the access level, and the
    /// urgency the duration.
    pub fn process_access_request(
        device: Option<&IoTDevice>,
        access_method: AccessMethod,
        urgency: AccessUrgency,
        user_tokens: &Vec<LesseeAccessToken>,
        now: u64,
        ledger_sequence: u32,
    ) -> (r: Result<IoTAccessResponse, IoTError>)
        requires
            now <= u64::MAX - 3600,
        ensures
            device is None ==> r is Err && r->Err_0 == IoTError::DeviceNotFound,
            device is Some && device->0.status != DeviceStatus::Online ==> r is Err && r->Err_0 == IoTError::DeviceOffline,
            device is Some && device->0.status == DeviceStatus::Online && !method_supported_spec(device->0.capabilities, access_method)
                ==> r is Err && r->Err_0 == IoTError::InvalidAccessMethod,
            device is Some && device->0.status == DeviceStatus::Online && method_supported_spec(device->0.capabilities, access_method)
                && (forall|j: int| 0 <= j < user_tokens@.len() ==> !token_valid_spec(#[trigger] user_tokens@[j], now))
                ==> r is Err && r->Err_0 == IoTError::AccessDenied,
            r is Ok ==> {
                let d = device->0;
                let resp = r->Ok_0;
                &&& d.status == DeviceStatus::Online
                &&& method_supported_spec(d.capabilities, access_method)
                &&& exists|i: int| first_valid_token(user_tokens@, now, i)
                    && resp.access_level == device_level_spec(user_tokens@[i].access_level)
                &&& resp.device_id == d.device_id
                &&& resp.access_granted
                &&& resp.access_duration == Some(access_duration_spec(urgency))
                &&& resp.granted_at == now
                &&& resp.expires_at == Some((now + access_duration_spec(urgency)) as u64)
                &&& (d.capabilities.encryption_level == EncryptionLevel::NoEncryption <==> resp.verification_code is None)
                &&& (resp.verification_code is Some ==> forall|k: int| 0 <= k < 32 ==> resp.verification_code->0@[k] == ledger_sequence % 256)
                &&& resp.audit_required == d.capabilities.supports_audit
                &&& resp.additional_instructions@.len() == 2
                &&& resp.additional_instructions@[0]@ == "Please verify your identity"@
                &&& resp.additional_instructions@[1]@ == device_instruction(d.device_type)
            },
            (device is Some && device->0.status == DeviceStatus::Online && method_supported_spec(device->0.capabilities, access_method)
                && exists|i: int| 0 <= i < user_tokens@.len() && token_valid_spec(#[trigger] user_tokens@[i], now)) ==> r is Ok,
    {
        let d = match device {
            Some(d) => d,
            None => return Err(IoTError::DeviceNotFound),
        };
        if d.status != DeviceStatus::Online {
            return Err(IoTError::DeviceOffline);
        }
        if !Self::is_access_method_supported(&d.capabilities, access_method) {
            return Err(IoTError::InvalidAccessMethod);
        }
        let idx = Self::select_user_access_token(user_tokens, now)?;
        let token = &user_tokens[idx];
        if !LesseeAccessTokenManager::is_token_valid(token, now) {
            return Err(IoTError::TokenExpired);
        }
        if token.revoked {
            return Err(IoTError::TokenRevoked);
        }
        let (access_level, duration) = Self::determine_access_level(token.access_level, urgency);
        let verification_code = if d.capabilities.encryption_level != EncryptionLevel::NoEncryption {
            Some(Self::generate_verification_code(ledger_sequence))
        } else {
            None
        };
        let expires_at = match duration {
            Some(dur) => Some(now + dur),
            None => None,
        };
        Ok(IoTAccessResponse {
            device_id: d.device_id.clone(),
            access_granted: true,
            access_duration: duration,
            access_level,
            granted_at: now,
            expires_at,
            verification_code,
            audit_required: d.capabilities.supports_audit,
            additional_instructions: Self::generate_access_instructions(d.device_type),
        })
    }

    /// Whether a token is valid, as an outside system asks: the check is
    /// recorded on the token.
    pub fn query_token_validity(token: Option<LesseeAccessToken>, token_id: u128, now: u64) -> (r: Result<(bool, LesseeAccessToken), IoTError>)
        requires
            token is Some ==> token->0.verification_count < u32::MAX,
        ensures
            r is Err <==> token is None,
            r is Err ==> r->Err_0 == IoTError::CrossContractCallFailed,
            r is Ok ==> r->Ok_0.0 == token_valid_spec(token->0, now)
                && r->Ok_0.1 == (LesseeAccessToken {
                    last_verified: now,
                    verification_count: (token->0.verification_count + 1) as u32,
                    ..token->0
                }),
    {
        match LesseeAccessTokenManager::verify_access_token(token, token_id, now) {
            Ok((resp, t)) => Ok((resp.is_valid, t)),
            Err(_) => Err(IoTError::CrossContractCallFailed),
        }
    }

    /// Changes a device's status; only its owner may.
    pub fn update_device_status(device: Option<IoTDevice>, new_status: DeviceStatus, requester: AccountId, now: u64)
        -> (r: Result<(IoTDevice, DeviceStatus), IoTError>)
        ensures
            device is None ==> r is Err && r->Err_0 == IoTError::DeviceNotFound,
            device is Some && device->0.owner != requester ==> r is Err && r->Err_0 == IoTError::UnauthorizedDevice,
            r is Ok <==> (device is Some && device->0.owner == requester),
            r is Ok ==> r->Ok_0.1 == device->0.status
                && r->Ok_0.0 == (IoTDevice { status: new_status, last_seen: now, ..device->0 }),
    {
        let mut d = match device {
            Some(d) => d,
            None => return Err(IoTError::DeviceNotFound),
        };
        if d.owner != requester {
            return Err(IoTError::UnauthorizedDevice);
        }
        let old_status = d.status;
        d.status = new_status;
        d.last_seen = now;
        Ok((d, old_status))
    }

    /// A device's health as of `now`: online or not, when last seen and for
    /// how long it has been registered.
    pub fn perform_health_check(device: Option<&IoTDevice>, now: u64) -> (r: Result<DeviceHealthStatus, IoTError>)
        ensures
            r is Err <==> device is None,
            r is Err ==> r->Err_0 == IoTError::DeviceNotFound,
            r is Ok ==> {
                let d = device->0;
                let h = r->Ok_0;
                &&& h.device_id == d.device_id
                &&& h.is_online == (d.status == DeviceStatus::Online)
                &&& h.last_seen == d.last_seen
                &&& h.uptime == (if now >= d.registered_at { now - d.registered_at } else { 0 })
                &&& h.battery_level is None
                &&& h.signal_strength is None
                &&& h.firmware_upto_date
                &&& h.last_health_check == now
                &&& h.issues@.len() == 0
            },
    {
        let d = match device {
            Some(d) => d,
            None => return Err(IoTError::DeviceNotFound),
        };
        Ok(DeviceHealthStatus {
            device_id: d.device_id.clone(),
            is_online: d.status == DeviceStatus::Online,
            last_seen: d.last_seen,
            uptime: now.saturating_sub(d.registered_at),
            battery_level: None,
            signal_strength: None,
            firmware_upto_date: true,
            last_health_check: now,
            issues: Vec::new(),
        })
    }
}

} // verus!
