//! Constants, command bytes and parameter keys of the CTAP2/FIDO2 protocol
//! and of the vendor extensions the firmware understands.

use vstd::prelude::*;

verus! {

/// CTAP2 authenticator command bytes.
#[derive(Debug, Clone, Copy, PartialEq, Eq, Structural)]
pub enum CtapCommand {
    MakeCredential,
    GetAssertion,
    GetInfo,
    ClientPin,
    Reset,
    GetNextAssertion,
    CredentialMgmt,
    Selection,
    LargeBlobs,
    Config,
}

impl CtapCommand {
    /// The command byte sent on the wire.
    #[verifier::allow_in_spec]
    pub fn byte(self) -> u8
        returns
            (match self {
                CtapCommand::MakeCredential => 0x01u8,
                CtapCommand::GetAssertion => 0x02u8,
                CtapCommand::GetInfo => 0x04u8,
                CtapCommand::ClientPin => 0x06u8,
                CtapCommand::Reset => 0x07u8,
                CtapCommand::GetNextAssertion => 0x08u8,
                CtapCommand::CredentialMgmt => 0x0Au8,
                CtapCommand::Selection => 0x0Bu8,
                CtapCommand::LargeBlobs => 0x0Cu8,
                CtapCommand::Config => 0x0Du8,
            }),
    {
        match self {
            CtapCommand::MakeCredential => 0x01,
            CtapCommand::GetAssertion => 0x02,
            CtapCommand::GetInfo => 0x04,
            CtapCommand::ClientPin => 0x06,
            CtapCommand::Reset => 0x07,
            CtapCommand::GetNextAssertion => 0x08,
            CtapCommand::CredentialMgmt => 0x0A,
            CtapCommand::Selection => 0x0B,
            CtapCommand::LargeBlobs => 0x0C,
            CtapCommand::Config => 0x0D,
        }
    }
}

/// Legacy U2F command bytes.
#[derive(Debug, Clone, Copy, PartialEq, Eq, Structural)]
pub enum U2fCommand {
    Register,
    Authenticate,
    Version,
}

impl U2fCommand {
    /// The command byte sent on the wire.
    #[verifier::allow_in_spec]
    pub fn byte(self) -> u8
        returns
            (match self {
                U2fCommand::Register => 0x01u8,
                U2fCommand::Authenticate => 0x02u8,
                U2fCommand::Version => 0x03u8,
            }),
    {
        match self {
            U2fCommand::Register => 0x01,
            U2fCommand::Authenticate => 0x02,
            U2fCommand::Version => 0x03,
        }
    }
}

/// Vendor sub-command bytes carried after the vendor CBOR wrapper command.
#[derive(Debug, Clone, Copy, PartialEq, Eq, Structural)]
pub enum VendorCommand {
    Backup,
    ManageSecurityEnvironment,
    Unlock,
    EnterpriseAttestation,
    PhysicalOptions,
    Memory,
}

impl VendorCommand {
    /// The sub-command byte sent on the wire.
    #[verifier::allow_in_spec]
    pub fn byte(self) -> u8
        returns
            (match self {
                VendorCommand::Backup => 0x01u8,
                VendorCommand::ManageSecurityEnvironment => 0x02u8,
                VendorCommand::Unlock => 0x03u8,
                VendorCommand::EnterpriseAttestation => 0x04u8,
                VendorCommand::PhysicalOptions => 0x05u8,
                VendorCommand::Memory => 0x06u8,
            }),
    {
        match self {
            VendorCommand::Backup => 0x01,
            VendorCommand::ManageSecurityEnvironment => 0x02,
            VendorCommand::Unlock => 0x03,
            VendorCommand::EnterpriseAttestation => 0x04,
            VendorCommand::PhysicalOptions => 0x05,
            VendorCommand::Memory => 0x06,
        }
    }
}

/// U2F authenticate control bytes.
#[derive(Debug, Clone, Copy, PartialEq, Eq, Structural)]
pub enum AuthenticateControl {
    EnforceUserPresence,
    CheckOnly,
}

impl AuthenticateControl {
    /// The control byte sent on the wire.
    #[verifier::allow_in_spec]
    pub fn byte(self) -> u8
        returns
            (match self {
                AuthenticateControl::EnforceUserPresence => 0x03u8,
                AuthenticateControl::CheckOnly => 0x07u8,
            }),
    {
        match self {
            AuthenticateControl::EnforceUserPresence => 0x03,
            AuthenticateControl::CheckOnly => 0x07,
        }
    }
}

/// Sub-commands of authenticatorClientPIN.
#[derive(Debug, Clone, Copy, PartialEq, Eq, Structural)]
pub enum ClientPinSubCommand {
    GetPinRetries,
    GetKeyAgreement,
    SetPin,
    ChangePin,
    GetPinToken,
    GetPinUvAuthTokenUsingUvWithPermissions,
    GetUvRetries,
    GetPinUvAuthTokenUsingPinWithPermissions,
}

impl ClientPinSubCommand {
    /// The sub-command number sent on the wire.
    #[verifier::allow_in_spec]
    pub fn byte(self) -> u8
        returns
            (match self {
                ClientPinSubCommand::GetPinRetries => 0x01u8,
                ClientPinSubCommand::GetKeyAgreement => 0x02u8,
                ClientPinSubCommand::SetPin => 0x03u8,
                ClientPinSubCommand::ChangePin => 0x04u8,
                ClientPinSubCommand::GetPinToken => 0x05u8,
                ClientPinSubCommand::GetPinUvAuthTokenUsingUvWithPermissions => 0x06u8,
                ClientPinSubCommand::GetUvRetries => 0x07u8,
                ClientPinSubCommand::GetPinUvAuthTokenUsingPinWithPermissions => 0x08u8,
            }),
    {
        match self {
            ClientPinSubCommand::GetPinRetries => 0x01,
            ClientPinSubCommand::GetKeyAgreement => 0x02,
            ClientPinSubCommand::SetPin => 0x03,
            ClientPinSubCommand::ChangePin => 0x04,
            ClientPinSubCommand::GetPinToken => 0x05,
            ClientPinSubCommand::GetPinUvAuthTokenUsingUvWithPermissions => 0x06,
            ClientPinSubCommand::GetUvRetries => 0x07,
            ClientPinSubCommand::GetPinUvAuthTokenUsingPinWithPermissions => 0x08,
        }
    }
}

/// Parameter keys of authenticatorMakeCredential.
#[derive(Debug, Clone, Copy, PartialEq, Eq, Structural)]
pub enum MakeCredentialParam {
    ClientDataHash,
    Rp,
    User,
    PubKeyCredParams,
    ExcludeList,
    Extensions,
    Options,
    PinUvAuthParam,
    PinUvAuthProtocol,
    EnterpriseAttestation,
}

impl MakeCredentialParam {
    /// The CBOR map key of the parameter.
    #[verifier::allow_in_spec]
    pub fn key(self) -> u8
        returns
            (match self {
                MakeCredentialParam::ClientDataHash => 0x01u8,
                MakeCredentialParam::Rp => 0x02u8,
                MakeCredentialParam::User => 0x03u8,
                MakeCredentialParam::PubKeyCredParams => 0x04u8,
                MakeCredentialParam::ExcludeList => 0x05u8,
                MakeCredentialParam::Extensions => 0x06u8,
                MakeCredentialParam::Options => 0x07u8,
                MakeCredentialParam::PinUvAuthParam => 0x08u8,
                MakeCredentialParam::PinUvAuthProtocol => 0x09u8,
                MakeCredentialParam::EnterpriseAttestation => 0x0Au8,
            }),
    {
        match self {
            MakeCredentialParam::ClientDataHash => 0x01,
            MakeCredentialParam::Rp => 0x02,
            MakeCredentialParam::User => 0x03,
            MakeCredentialParam::PubKeyCredParams => 0x04,
            MakeCredentialParam::ExcludeList => 0x05,
            MakeCredentialParam::Extensions => 0x06,
            MakeCredentialParam::Options => 0x07,
            MakeCredentialParam::PinUvAuthParam => 0x08,
            MakeCredentialParam::PinUvAuthProtocol => 0x09,
            MakeCredentialParam::EnterpriseAttestation => 0x0A,
        }
    }
}

/// Parameter keys of authenticatorGetAssertion.
#[derive(Debug, Clone, Copy, PartialEq, Eq, Structural)]
pub enum GetAssertionParam {
    RpId,
    ClientDataHash,
    AllowList,
    Extensions,
    Options,
    PinUvAuthParam,
    PinUvAuthProtocol,
}

impl GetAssertionParam {
    /// The CBOR map key of the parameter.
    #[verifier::allow_in_spec]
    pub fn key(self) -> u8
        returns
            (match self {
                GetAssertionParam::RpId => 0x01u8,
                GetAssertionParam::ClientDataHash => 0x02u8,
                GetAssertionParam::AllowList => 0x03u8,
                GetAssertionParam::Extensions => 0x04u8,
                GetAssertionParam::Options => 0x05u8,
                GetAssertionParam::PinUvAuthParam => 0x06u8,
                GetAssertionParam::PinUvAuthProtocol => 0x07u8,
            }),
    {
        match self {
            GetAssertionParam::RpId => 0x01,
            GetAssertionParam::ClientDataHash => 0x02,
            GetAssertionParam::AllowList => 0x03,
            GetAssertionParam::Extensions => 0x04,
            GetAssertionParam::Options => 0x05,
            GetAssertionParam::PinUvAuthParam => 0x06,
            GetAssertionParam::PinUvAuthProtocol => 0x07,
        }
    }
}

/// Parameter keys of authenticatorClientPIN.
#[derive(Debug, Clone, Copy, PartialEq, Eq, Structural)]
pub enum ClientPinParam {
    PinUvAuthProtocol,
    SubCommand,
    KeyAgreement,
    PinUvAuthParam,
    NewPinEnc,
    PinHashEnc,
    Permissions,
    PermissionsRpId,
}

impl ClientPinParam {
    /// The CBOR map key of the parameter.
    #[verifier::allow_in_spec]
    pub fn key(self) -> u8
        returns
            (match self {
                ClientPinParam::PinUvAuthProtocol => 0x01u8,
                ClientPinParam::SubCommand => 0x02u8,
                ClientPinParam::KeyAgreement => 0x03u8,
                ClientPinParam::PinUvAuthParam => 0x04u8,
                ClientPinParam::NewPinEnc => 0x05u8,
                ClientPinParam::PinHashEnc => 0x06u8,
                ClientPinParam::Permissions => 0x09u8,
                ClientPinParam::PermissionsRpId => 0x0Au8,
            }),
    {
        match self {
            ClientPinParam::PinUvAuthProtocol => 0x01,
            ClientPinParam::SubCommand => 0x02,
            ClientPinParam::KeyAgreement => 0x03,
            ClientPinParam::PinUvAuthParam => 0x04,
            ClientPinParam::NewPinEnc => 0x05,
            ClientPinParam::PinHashEnc => 0x06,
            ClientPinParam::Permissions => 0x09,
            ClientPinParam::PermissionsRpId => 0x0A,
        }
    }
}

/// Parameter keys of the authenticatorConfig map; the wire encoding must
/// list them in this ascending order.
#[derive(Debug, Clone, Copy, PartialEq, Eq, Structural)]
pub enum ConfigParam {
    SubCommand,
    SubCommandParams,
    PinUvAuthProtocol,
    PinUvAuthParam,
}

impl ConfigParam {
    /// The CBOR map key of the parameter.
    #[verifier::allow_in_spec]
    pub fn key(self) -> u8
        returns
            (match self {
                ConfigParam::SubCommand => 0x01u8,
                ConfigParam::SubCommandParams => 0x02u8,
                ConfigParam::PinUvAuthProtocol => 0x03u8,
                ConfigParam::PinUvAuthParam => 0x04u8,
            }),
    {
        match self {
            ConfigParam::SubCommand => 0x01,
            ConfigParam::SubCommandParams => 0x02,
            ConfigParam::PinUvAuthProtocol => 0x03,
            ConfigParam::PinUvAuthParam => 0x04,
        }
    }
}

/// Sub-commands of authenticatorConfig.
#[derive(Debug, Clone, Copy, PartialEq, Eq, Structural)]
pub enum ConfigSubCommand {
    EnableEnterpriseAttestation,
    ToggleAlwaysUv,
    SetMinPinLength,
    VendorPrototype,
}

impl ConfigSubCommand {
    /// The sub-command number sent on the wire.
    #[verifier::allow_in_spec]
    pub fn byte(self) -> u8
        returns
            (match self {
                ConfigSubCommand::EnableEnterpriseAttestation => 0x01u8,
                ConfigSubCommand::ToggleAlwaysUv => 0x02u8,
                ConfigSubCommand::SetMinPinLength => 0x03u8,
                ConfigSubCommand::VendorPrototype => 0xFFu8,
            }),
    {
        match self {
            ConfigSubCommand::EnableEnterpriseAttestation => 0x01,
            ConfigSubCommand::ToggleAlwaysUv => 0x02,
            ConfigSubCommand::SetMinPinLength => 0x03,
            ConfigSubCommand::VendorPrototype => 0xFF,
        }
    }
}

/// Parameter keys of the vendor command map.
#[derive(Debug, Clone, Copy, PartialEq, Eq, Structural)]
pub enum VendorParam {
    VendorCommand,
    VendorSubParams,
    PinUvAuthProtocol,
    PinUvAuthParam,
}

impl VendorParam {
    /// The CBOR map key of the parameter.
    #[verifier::allow_in_spec]
    pub fn key(self) -> u8
        returns
            (match self {
                VendorParam::VendorCommand => 0x01u8,
                VendorParam::VendorSubParams => 0x02u8,
                VendorParam::PinUvAuthProtocol => 0x03u8,
                VendorParam::PinUvAuthParam => 0x04u8,
            }),
    {
        match self {
            VendorParam::VendorCommand => 0x01,
            VendorParam::VendorSubParams => 0x02,
            VendorParam::PinUvAuthProtocol => 0x03,
            VendorParam::PinUvAuthParam => 0x04,
        }
    }
}

/// Keys of the vendor sub-parameter map; which one carries the payload
/// depends on the payload's CBOR type.
#[derive(Debug, Clone, Copy, PartialEq, Eq, Structural)]
pub enum VendorSubParam {
    VendorParam,
    CoseKey,
    VendorParamInt,
    VendorParamText,
}

impl VendorSubParam {
    /// The CBOR map key of the parameter.
    #[verifier::allow_in_spec]
    pub fn key(self) -> u8
        returns
            (match self {
                VendorSubParam::VendorParam => 0x01u8,
                VendorSubParam::CoseKey => 0x02u8,
                VendorSubParam::VendorParamInt => 0x03u8,
                VendorSubParam::VendorParamText => 0x04u8,
            }),
    {
        match self {
            VendorSubParam::VendorParam => 0x01,
            VendorSubParam::CoseKey => 0x02,
            VendorSubParam::VendorParamInt => 0x03,
            VendorSubParam::VendorParamText => 0x04,
        }
    }
}

/// Keys of the setMinPINLength sub-parameter map.
#[derive(Debug, Clone, Copy, PartialEq, Eq, Structural)]
pub enum ConfigSubCommandParam {
    NewMinPinLength,
    MinPinLengthRPIDs,
    ForceChangePin,
}

impl ConfigSubCommandParam {
    /// The CBOR map key of the parameter.
    #[verifier::allow_in_spec]
    pub fn key(self) -> u8
        returns
            (match self {
                ConfigSubCommandParam::NewMinPinLength => 0x01u8,
                ConfigSubCommandParam::MinPinLengthRPIDs => 0x02u8,
                ConfigSubCommandParam::ForceChangePin => 0x03u8,
            }),
    {
        match self {
            ConfigSubCommandParam::NewMinPinLength => 0x01,
            ConfigSubCommandParam::MinPinLengthRPIDs => 0x02,
            ConfigSubCommandParam::ForceChangePin => 0x03,
        }
    }
}

/// The vendor configuration commands, identified on the wire by opaque
/// 64-bit capability constants rather than small integers.
#[derive(Debug, Clone, Copy, PartialEq, Eq, Structural)]
pub enum VendorConfigCommand {
    AuthEncryptionEnable,
    AuthEncryptionDisable,
    EnterpriseAttestationUpload,
    PinComplexityPolicy,
    PhysicalVidPid,
    PhysicalLedBrightness,
    PhysicalLedGpio,
    PhysicalOptions,
}

impl VendorConfigCommand {
    /// The 64-bit identifier sent as the vendor command id.
    #[verifier::allow_in_spec]
    pub fn to_u64(self) -> u64
        returns
            (match self {
                VendorConfigCommand::AuthEncryptionEnable => 0x03e43f56b34285e2u64,
                VendorConfigCommand::AuthEncryptionDisable => 0x1831a40f04a25ed9u64,
                VendorConfigCommand::EnterpriseAttestationUpload => 0x66f2a674c29a8dcfu64,
                VendorConfigCommand::PinComplexityPolicy => 0x6c07d70fe96c3897u64,
                VendorConfigCommand::PhysicalVidPid => 0x6fcb19b0cbe3acfau64,
                VendorConfigCommand::PhysicalLedBrightness => 0x76a85945985d02fdu64,
                VendorConfigCommand::PhysicalLedGpio => 0x7b392a394de9f948u64,
                VendorConfigCommand::PhysicalOptions => 0x269f3b09eceb805fu64,
            }),
    {
        match self {
            VendorConfigCommand::AuthEncryptionEnable => 0x03e43f56b34285e2,
            VendorConfigCommand::AuthEncryptionDisable => 0x1831a40f04a25ed9,
            VendorConfigCommand::EnterpriseAttestationUpload => 0x66f2a674c29a8dcf,
            VendorConfigCommand::PinComplexityPolicy => 0x6c07d70fe96c3897,
            VendorConfigCommand::PhysicalVidPid => 0x6fcb19b0cbe3acfa,
            VendorConfigCommand::PhysicalLedBrightness => 0x76a85945985d02fd,
            VendorConfigCommand::PhysicalLedGpio => 0x7b392a394de9f948,
            VendorConfigCommand::PhysicalOptions => 0x269f3b09eceb805f,
        }
    }

    /// Recognises a raw 64-bit identifier.
    #[verifier::allow_in_spec]
    pub fn from_u64(val: u64) -> Option<Self>
        returns
            (if val == 0x03e43f56b34285e2u64 {
                Some(VendorConfigCommand::AuthEncryptionEnable)
            } else if val == 0x1831a40f04a25ed9u64 {
                Some(VendorConfigCommand::AuthEncryptionDisable)
            } else if val == 0x66f2a674c29a8dcfu64 {
                Some(VendorConfigCommand::EnterpriseAttestationUpload)
            } else if val == 0x6c07d70fe96c3897u64 {
                Some(VendorConfigCommand::PinComplexityPolicy)
            } else if val == 0x6fcb19b0cbe3acfau64 {
                Some(VendorConfigCommand::PhysicalVidPid)
            } else if val == 0x76a85945985d02fdu64 {
                Some(VendorConfigCommand::PhysicalLedBrightness)
            } else if val == 0x7b392a394de9f948u64 {
                Some(VendorConfigCommand::PhysicalLedGpio)
            } else if val == 0x269f3b09eceb805fu64 {
                Some(VendorConfigCommand::PhysicalOptions)
            } else {
                None
            }),
    {
        match val {
            0x03e43f56b34285e2 => Some(VendorConfigCommand::AuthEncryptionEnable),
            0x1831a40f04a25ed9 => Some(VendorConfigCommand::AuthEncryptionDisable),
            0x66f2a674c29a8dcf => Some(VendorConfigCommand::EnterpriseAttestationUpload),
            0x6c07d70fe96c3897 => Some(VendorConfigCommand::PinComplexityPolicy),
            0x6fcb19b0cbe3acfa => Some(VendorConfigCommand::PhysicalVidPid),
            0x76a85945985d02fd => Some(VendorConfigCommand::PhysicalLedBrightness),
            0x7b392a394de9f948 => Some(VendorConfigCommand::PhysicalLedGpio),
            0x269f3b09eceb805f => Some(VendorConfigCommand::PhysicalOptions),
            _ => None,
        }
    }

    /// A readable name for diagnostics.
    pub fn name(self) -> (r: String)
        ensures
            r@.len() > 0,
    {
        proof {
            reveal_strlit("AuthEncryptionEnable");
            reveal_strlit("AuthEncryptionDisable");
            reveal_strlit("EnterpriseAttestationUpload");
            reveal_strlit("PinComplexityPolicy");
            reveal_strlit("PhysicalVidPid");
            reveal_strlit("PhysicalLedBrightness");
            reveal_strlit("PhysicalLedGpio");
            reveal_strlit("PhysicalOptions");
        }
        match self {
            VendorConfigCommand::AuthEncryptionEnable => String::from_str("AuthEncryptionEnable"),
            VendorConfigCommand::AuthEncryptionDisable => String::from_str(
                "AuthEncryptionDisable",
            ),
            VendorConfigCommand::EnterpriseAttestationUpload => String::from_str(
                "EnterpriseAttestationUpload",
            ),
            VendorConfigCommand::PinComplexityPolicy => String::from_str("PinComplexityPolicy"),
            VendorConfigCommand::PhysicalVidPid => String::from_str("PhysicalVidPid"),
            VendorConfigCommand::PhysicalLedBrightness => String::from_str(
                "PhysicalLedBrightness",
            ),
            VendorConfigCommand::PhysicalLedGpio => String::from_str("PhysicalLedGpio"),
            VendorConfigCommand::PhysicalOptions => String::from_str("PhysicalOptions"),
        }
    }
}

/// The identifier and its recogniser agree: reading back the identifier of
/// any vendor command yields that command.
pub proof fn lemma_vendor_config_command_roundtrip(c: VendorConfigCommand)
    ensures
        VendorConfigCommand::from_u64(c.to_u64()) == Some(c),
{
}

/// Sub-commands of the vendor backup command.
#[derive(Debug, Clone, Copy, PartialEq, Eq, Structural)]
pub enum BackupSubCommand {
    GetEncryptedBackup,
    RestoreEncryptedBackup,
}

impl BackupSubCommand {
    /// The sub-command number sent on the wire.
    #[verifier::allow_in_spec]
    pub fn byte(self) -> u8
        returns
            (match self {
                BackupSubCommand::GetEncryptedBackup => 0x01u8,
                BackupSubCommand::RestoreEncryptedBackup => 0x02u8,
            }),
    {
        match self {
            BackupSubCommand::GetEncryptedBackup => 0x01,
            BackupSubCommand::RestoreEncryptedBackup => 0x02,
        }
    }
}

/// Sub-commands of the vendor manage-security-environment command.
#[derive(Debug, Clone, Copy, PartialEq, Eq, Structural)]
pub enum MseSubCommand {
    KeyAgreement,
}

impl MseSubCommand {
    /// The sub-command number sent on the wire.
    #[verifier::allow_in_spec]
    pub fn byte(self) -> u8
        returns
            (match self {
                MseSubCommand::KeyAgreement => 0x01u8,
            }),
    {
        match self {
            MseSubCommand::KeyAgreement => 0x01,
        }
    }
}

/// Sub-commands of the vendor enterprise-attestation command.
#[derive(Debug, Clone, Copy, PartialEq, Eq, Structural)]
pub enum EnterpriseAttestationSubCommand {
    GenerateCsr,
}

impl EnterpriseAttestationSubCommand {
    /// The sub-command number sent on the wire.
    #[verifier::allow_in_spec]
    pub fn byte(self) -> u8
        returns
            (match self {
                EnterpriseAttestationSubCommand::GenerateCsr => 0x01u8,
            }),
    {
        match self {
            EnterpriseAttestationSubCommand::GenerateCsr => 0x01,
        }
    }
}

/// Sub-commands of the vendor physical-options command.
#[derive(Debug, Clone, Copy, PartialEq, Eq, Structural)]
pub enum PhysicalOptionsSubCommand {
    GetOptions,
}

impl PhysicalOptionsSubCommand {
    /// The sub-command number sent on the wire.
    #[verifier::allow_in_spec]
    pub fn byte(self) -> u8
        returns
            (match self {
                PhysicalOptionsSubCommand::GetOptions => 0x01u8,
            }),
    {
        match self {
            PhysicalOptionsSubCommand::GetOptions => 0x01,
        }
    }
}

/// Sub-commands of the vendor memory command.
#[derive(Debug, Clone, Copy, PartialEq, Eq, Structural)]
pub enum MemorySubCommand {
    GetStats,
}

impl MemorySubCommand {
    /// The sub-command number sent on the wire.
    #[verifier::allow_in_spec]
    pub fn byte(self) -> u8
        returns
            (match self {
                MemorySubCommand::GetStats => 0x01u8,
            }),
    {
        match self {
            MemorySubCommand::GetStats => 0x01,
        }
    }
}

/// Keys of the memory statistics response map.
#[derive(Debug, Clone, Copy, PartialEq, Eq, Structural)]
pub enum MemoryResponseKey {
    FreeSpace,
    UsedSpace,
    TotalSpace,
    NumFiles,
    FlashSize,
}

impl MemoryResponseKey {
    /// The CBOR map key of the statistic.
    #[verifier::allow_in_spec]
    pub fn key(self) -> u8
        returns
            (match self {
                MemoryResponseKey::FreeSpace => 0x01u8,
                MemoryResponseKey::UsedSpace => 0x02u8,
                MemoryResponseKey::TotalSpace => 0x03u8,
                MemoryResponseKey::NumFiles => 0x04u8,
                MemoryResponseKey::FlashSize => 0x05u8,
            }),
    {
        match self {
            MemoryResponseKey::FreeSpace => 0x01,
            MemoryResponseKey::UsedSpace => 0x02,
            MemoryResponseKey::TotalSpace => 0x03,
            MemoryResponseKey::NumFiles => 0x04,
            MemoryResponseKey::FlashSize => 0x05,
        }
    }
}

/// COSE algorithm identifiers.
#[derive(Debug, Clone, Copy, PartialEq, Eq, Structural)]
pub enum CoseAlgorithm {
    ES256,
    EdDSA,
    ESP256,
    Ed25519,
    EcdhEsHkdf256,
    ES384,
    ES512,
    ES256K,
    ESP384,
    ESP512,
    Ed448,
    RS256,
    RS384,
    RS512,
    ESB256,
    ESB384,
    ESB512,
}

impl CoseAlgorithm {
    /// The signed COSE algorithm code.
    #[verifier::allow_in_spec]
    pub fn code(self) -> i32
        returns
            (match self {
                CoseAlgorithm::ES256 => -7i32,
                CoseAlgorithm::EdDSA => -8i32,
                CoseAlgorithm::ESP256 => -9i32,
                CoseAlgorithm::Ed25519 => -19i32,
                CoseAlgorithm::EcdhEsHkdf256 => -25i32,
                CoseAlgorithm::ES384 => -35i32,
                CoseAlgorithm::ES512 => -36i32,
                CoseAlgorithm::ES256K => -47i32,
                CoseAlgorithm::ESP384 => -51i32,
                CoseAlgorithm::ESP512 => -52i32,
                CoseAlgorithm::Ed448 => -53i32,
                CoseAlgorithm::RS256 => -257i32,
                CoseAlgorithm::RS384 => -258i32,
                CoseAlgorithm::RS512 => -259i32,
                CoseAlgorithm::ESB256 => -265i32,
                CoseAlgorithm::ESB384 => -267i32,
                CoseAlgorithm::ESB512 => -268i32,
            }),
    {
        match self {
            CoseAlgorithm::ES256 => -7,
            CoseAlgorithm::EdDSA => -8,
            CoseAlgorithm::ESP256 => -9,
            CoseAlgorithm::Ed25519 => -19,
            CoseAlgorithm::EcdhEsHkdf256 => -25,
            CoseAlgorithm::ES384 => -35,
            CoseAlgorithm::ES512 => -36,
            CoseAlgorithm::ES256K => -47,
            CoseAlgorithm::ESP384 => -51,
            CoseAlgorithm::ESP512 => -52,
            CoseAlgorithm::Ed448 => -53,
            CoseAlgorithm::RS256 => -257,
            CoseAlgorithm::RS384 => -258,
            CoseAlgorithm::RS512 => -259,
            CoseAlgorithm::ESB256 => -265,
            CoseAlgorithm::ESB384 => -267,
            CoseAlgorithm::ESB512 => -268,
        }
    }
}

/// COSE elliptic curve identifiers.
#[derive(Debug, Clone, Copy, PartialEq, Eq, Structural)]
pub enum CoseCurve {
    P256,
    P384,
    P521,
    X25519,
    X448,
    Ed25519,
    Ed448,
    P256K1,
    BP256R1,
    BP384R1,
    BP512R1,
}

impl CoseCurve {
    /// The COSE curve code.
    #[verifier::allow_in_spec]
    pub fn code(self) -> u8
        returns
            (match self {
                CoseCurve::P256 => 1u8,
                CoseCurve::P384 => 2u8,
                CoseCurve::P521 => 3u8,
                CoseCurve::X25519 => 4u8,
                CoseCurve::X448 => 5u8,
                CoseCurve::Ed25519 => 6u8,
                CoseCurve::Ed448 => 7u8,
                CoseCurve::P256K1 => 8u8,
                CoseCurve::BP256R1 => 9u8,
                CoseCurve::BP384R1 => 10u8,
                CoseCurve::BP512R1 => 11u8,
            }),
    {
        match self {
            CoseCurve::P256 => 1,
            CoseCurve::P384 => 2,
            CoseCurve::P521 => 3,
            CoseCurve::X25519 => 4,
            CoseCurve::X448 => 5,
            CoseCurve::Ed25519 => 6,
            CoseCurve::Ed448 => 7,
            CoseCurve::P256K1 => 8,
            CoseCurve::BP256R1 => 9,
            CoseCurve::BP384R1 => 10,
            CoseCurve::BP512R1 => 11,
        }
    }
}

/// COSE key structure parameter labels.
#[derive(Debug, Clone, Copy, PartialEq, Eq, Structural)]
pub enum CoseKeyParam {
    Kty,
    Kid,
    Alg,
    KeyOps,
    BaseIV,
    Crv,
    X,
    Y,
    D,
}

impl CoseKeyParam {
    /// The signed COSE key label.
    #[verifier::allow_in_spec]
    pub fn code(self) -> i32
        returns
            (match self {
                CoseKeyParam::Kty => 1i32,
                CoseKeyParam::Kid => 2i32,
                CoseKeyParam::Alg => 3i32,
                CoseKeyParam::KeyOps => 4i32,
                CoseKeyParam::BaseIV => 5i32,
                CoseKeyParam::Crv => -1i32,
                CoseKeyParam::X => -2i32,
                CoseKeyParam::Y => -3i32,
                CoseKeyParam::D => -4i32,
            }),
    {
        match self {
            CoseKeyParam::Kty => 1,
            CoseKeyParam::Kid => 2,
            CoseKeyParam::Alg => 3,
            CoseKeyParam::KeyOps => 4,
            CoseKeyParam::BaseIV => 5,
            CoseKeyParam::Crv => -1,
            CoseKeyParam::X => -2,
            CoseKeyParam::Y => -3,
            CoseKeyParam::D => -4,
        }
    }
}

/// CTAP2 status codes the authenticator can answer with.
#[derive(Debug, Clone, Copy, PartialEq, Eq, Structural)]
pub enum Ctap2Error {
    Success,
    CborUnexpectedType,
    InvalidCbor,
    MissingParameter,
    LimitExceeded,
    FpDatabaseFull,
    LargeBlobStorageFull,
    CredentialExcluded,
    Processing,
    InvalidCredential,
    UserActionPending,
    OperationPending,
    NoOperations,
    UnsupportedAlgorithm,
    OperationDenied,
    KeyStoreFull,
    UnsupportedOption,
    InvalidOption,
    KeepaliveCancel,
    NoCredentials,
    UserActionTimeout,
    NotAllowed,
    PinInvalid,
    PinBlocked,
    PinAuthInvalid,
    PinAuthBlocked,
    PinNotSet,
    PuatRequired,
    PinPolicyViolation,
    RequestTooLarge,
    ActionTimeout,
    UpRequired,
    UvBlocked,
    IntegrityFailure,
    InvalidSubcommand,
    UvInvalid,
    UnauthorizedPermission,
}

impl Ctap2Error {
    /// The status code byte.
    #[verifier::allow_in_spec]
    pub fn code(self) -> u8
        returns
            (match self {
                Ctap2Error::Success => 0x00u8,
                Ctap2Error::CborUnexpectedType => 0x11u8,
                Ctap2Error::InvalidCbor => 0x12u8,
                Ctap2Error::MissingParameter => 0x14u8,
                Ctap2Error::LimitExceeded => 0x15u8,
                Ctap2Error::FpDatabaseFull => 0x17u8,
                Ctap2Error::LargeBlobStorageFull => 0x18u8,
                Ctap2Error::CredentialExcluded => 0x19u8,
                Ctap2Error::Processing => 0x21u8,
                Ctap2Error::InvalidCredential => 0x22u8,
                Ctap2Error::UserActionPending => 0x23u8,
                Ctap2Error::OperationPending => 0x24u8,
                Ctap2Error::NoOperations => 0x25u8,
                Ctap2Error::UnsupportedAlgorithm => 0x26u8,
                Ctap2Error::OperationDenied => 0x27u8,
                Ctap2Error::KeyStoreFull => 0x28u8,
                Ctap2Error::UnsupportedOption => 0x2Bu8,
                Ctap2Error::InvalidOption => 0x2Cu8,
                Ctap2Error::KeepaliveCancel => 0x2Du8,
                Ctap2Error::NoCredentials => 0x2Eu8,
                Ctap2Error::UserActionTimeout => 0x2Fu8,
                Ctap2Error::NotAllowed => 0x30u8,
                Ctap2Error::PinInvalid => 0x31u8,
                Ctap2Error::PinBlocked => 0x32u8,
                Ctap2Error::PinAuthInvalid => 0x33u8,
                Ctap2Error::PinAuthBlocked => 0x34u8,
                Ctap2Error::PinNotSet => 0x35u8,
                Ctap2Error::PuatRequired => 0x36u8,
                Ctap2Error::PinPolicyViolation => 0x37u8,
                Ctap2Error::RequestTooLarge => 0x39u8,
                Ctap2Error::ActionTimeout => 0x3Au8,
                Ctap2Error::UpRequired => 0x3Bu8,
                Ctap2Error::UvBlocked => 0x3Cu8,
                Ctap2Error::IntegrityFailure => 0x3Du8,
                Ctap2Error::InvalidSubcommand => 0x3Eu8,
                Ctap2Error::UvInvalid => 0x3Fu8,
                Ctap2Error::UnauthorizedPermission => 0x40u8,
            }),
    {
        match self {
            Ctap2Error::Success => 0x00,
            Ctap2Error::CborUnexpectedType => 0x11,
            Ctap2Error::InvalidCbor => 0x12,
            Ctap2Error::MissingParameter => 0x14,
            Ctap2Error::LimitExceeded => 0x15,
            Ctap2Error::FpDatabaseFull => 0x17,
            Ctap2Error::LargeBlobStorageFull => 0x18,
            Ctap2Error::CredentialExcluded => 0x19,
            Ctap2Error::Processing => 0x21,
            Ctap2Error::InvalidCredential => 0x22,
            Ctap2Error::UserActionPending => 0x23,
            Ctap2Error::OperationPending => 0x24,
            Ctap2Error::NoOperations => 0x25,
            Ctap2Error::UnsupportedAlgorithm => 0x26,
            Ctap2Error::OperationDenied => 0x27,
            Ctap2Error::KeyStoreFull => 0x28,
            Ctap2Error::UnsupportedOption => 0x2B,
            Ctap2Error::InvalidOption => 0x2C,
            Ctap2Error::KeepaliveCancel => 0x2D,
            Ctap2Error::NoCredentials => 0x2E,
            Ctap2Error::UserActionTimeout => 0x2F,
            Ctap2Error::NotAllowed => 0x30,
            Ctap2Error::PinInvalid => 0x31,
            Ctap2Error::PinBlocked => 0x32,
            Ctap2Error::PinAuthInvalid => 0x33,
            Ctap2Error::PinAuthBlocked => 0x34,
            Ctap2Error::PinNotSet => 0x35,
            Ctap2Error::PuatRequired => 0x36,
            Ctap2Error::PinPolicyViolation => 0x37,
            Ctap2Error::RequestTooLarge => 0x39,
            Ctap2Error::ActionTimeout => 0x3A,
            Ctap2Error::UpRequired => 0x3B,
            Ctap2Error::UvBlocked => 0x3C,
            Ctap2Error::IntegrityFailure => 0x3D,
            Ctap2Error::InvalidSubcommand => 0x3E,
            Ctap2Error::UvInvalid => 0x3F,
            Ctap2Error::UnauthorizedPermission => 0x40,
        }
    }
}

/// CTAPHID command byte carrying the vendor CBOR wrapper.
pub const CTAP_VENDOR_CBOR_CMD: u8 = 0xC1;

/// CTAPHID command byte of the vendor config channel.
pub const CTAP_VENDOR_CONFIG_CMD: u8 = 0xC2;

} // verus!
