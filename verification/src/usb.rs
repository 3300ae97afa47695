//! Wire types of the vendor USB control protocol: request codes and the
//! enumerations carried in request values and single-byte replies.

use vstd::prelude::*;

verus! {

/// USB vendor id of the badge.
pub const VID: u16 = 0x33ff;

/// USB product id of the badge.
pub const PID: u16 = 0x4025;

/// The vendor request codes.
#[derive(Eq, PartialEq, Structural, Debug, Clone, Copy)]
pub enum Request {
    /// Press a button on the badge.
    ButtonPress,
    /// Read the loaded system's name, or its source id.
    GetSystemName,
    /// Read the loaded system's member count.
    GetMemberCount,
    /// Read the name of one member.
    GetMemberName,
    /// Read the pronouns of one member.
    GetMemberPronouns,
    /// Read the menu state as an opaque byte blob.
    GetState,
    /// Replace the menu state with an opaque byte blob.
    SetState,
    /// Redraw the display.
    UpdateDisplay,
    /// Read a version datum selected by a `VersionType` value.
    GetVersion,
    /// Reboot, into a target selected by a `BootSel` value.
    Reboot,
    /// Enter update mode; also the status poll while updating.
    SystemUpload,
    /// Push one chunk of a new roster; a zero-length chunk finalizes.
    SystemDNLoad,
}

impl Request {
    pub open spec fn spec_code(self) -> u8 {
        match self {
            Request::ButtonPress => 0x00,
            Request::GetSystemName => 0x01,
            Request::GetMemberCount => 0x02,
            Request::GetMemberName => 0x03,
            Request::GetMemberPronouns => 0x04,
            Request::GetState => 0x05,
            Request::SetState => 0x06,
            Request::UpdateDisplay => 0x07,
            Request::GetVersion => 0x08,
            Request::Reboot => 0x09,
            Request::SystemUpload => 0x0a,
            Request::SystemDNLoad => 0x0b,
        }
    }

    pub fn code(self) -> (r: u8)
        ensures
            r == self.spec_code(),
    {
        match self {
            Request::ButtonPress => 0x00,
            Request::GetSystemName => 0x01,
            Request::GetMemberCount => 0x02,
            Request::GetMemberName => 0x03,
            Request::GetMemberPronouns => 0x04,
            Request::GetState => 0x05,
            Request::SetState => 0x06,
            Request::UpdateDisplay => 0x07,
            Request::GetVersion => 0x08,
            Request::Reboot => 0x09,
            Request::SystemUpload => 0x0a,
            Request::SystemDNLoad => 0x0b,
        }
    }

    /// Decodes a request code; inverse of `code` exactly on assigned codes.
    pub fn from_u8(value: u8) -> (r: Option<Request>)
        ensures
            r matches Some(q) ==> q.spec_code() == value,
            r is None <==> value > 0x0b,
    {
        match value {
            0x00 => Some(Request::ButtonPress),
            0x01 => Some(Request::GetSystemName),
            0x02 => Some(Request::GetMemberCount),
            0x03 => Some(Request::GetMemberName),
            0x04 => Some(Request::GetMemberPronouns),
            0x05 => Some(Request::GetState),
            0x06 => Some(Request::SetState),
            0x07 => Some(Request::UpdateDisplay),
            0x08 => Some(Request::GetVersion),
            0x09 => Some(Request::Reboot),
            0x0a => Some(Request::SystemUpload),
            0x0b => Some(Request::SystemDNLoad),
            _ => None,
        }
    }
}

/// Which version datum a `GetVersion` request selects.
#[derive(Eq, PartialEq, Structural, Debug, Clone, Copy)]
pub enum VersionType {
    /// The flash chip's JEDEC id.
    Jedec,
    /// The flash chip's unique id.
    UniqueId,
    /// The badge's serial number.
    SerialNumber,
    /// The firmware's semantic version string.
    SemVer,
    /// The firmware's build matrix string.
    Matrix,
}

impl VersionType {
    pub open spec fn spec_code(self) -> u8 {
        match self {
            VersionType::Jedec => 0x01,
            VersionType::UniqueId => 0x02,
            VersionType::SerialNumber => 0x03,
            VersionType::SemVer => 0x10,
            VersionType::Matrix => 0x11,
        }
    }

    pub fn code(self) -> (r: u8)
        ensures
            r == self.spec_code(),
    {
        match self {
            VersionType::Jedec => 0x01,
            VersionType::UniqueId => 0x02,
            VersionType::SerialNumber => 0x03,
            VersionType::SemVer => 0x10,
            VersionType::Matrix => 0x11,
        }
    }

    pub fn from_u8(value: u8) -> (r: Option<VersionType>)
        ensures
            r matches Some(v) ==> v.spec_code() == value,
            r is None <==> !(value == 0x01 || value == 0x02 || value == 0x03 || value == 0x10
                || value == 0x11),
    {
        match value {
            0x01 => Some(VersionType::Jedec),
            0x02 => Some(VersionType::UniqueId),
            0x03 => Some(VersionType::SerialNumber),
            0x10 => Some(VersionType::SemVer),
            0x11 => Some(VersionType::Matrix),
            _ => None,
        }
    }
}

/// Which target a `Reboot` request selects.
#[derive(Eq, PartialEq, Structural, Debug, Clone, Copy)]
pub enum BootSel {
    /// Restart the application firmware.
    Application,
    /// Enter the bootloader with every interface enabled.
    Bootloader,
    /// Enter the bootloader's mass-storage mode (PicoBoot disabled).
    MassStorage,
    /// Enter the bootloader's PicoBoot mode (mass storage disabled).
    PicoBoot,
}

impl BootSel {
    pub open spec fn spec_code(self) -> u8 {
        match self {
            BootSel::Application => 0x00,
            BootSel::Bootloader => 0x01,
            BootSel::MassStorage => 0x02,
            BootSel::PicoBoot => 0x03,
        }
    }

    pub fn code(self) -> (r: u8)
        ensures
            r == self.spec_code(),
    {
        match self {
            BootSel::Application => 0x00,
            BootSel::Bootloader => 0x01,
            BootSel::MassStorage => 0x02,
            BootSel::PicoBoot => 0x03,
        }
    }

    pub fn from_u8(value: u8) -> (r: Option<BootSel>)
        ensures
            r matches Some(v) ==> v.spec_code() == value,
            r is None <==> value > 0x03,
    {
        match value {
            0x00 => Some(BootSel::Application),
            0x01 => Some(BootSel::Bootloader),
            0x02 => Some(BootSel::MassStorage),
            0x03 => Some(BootSel::PicoBoot),
            _ => None,
        }
    }

    /// The hardware mask of bootrom interfaces to disable for this target,
    /// or nothing for a plain application reboot. Entering mass-storage mode
    /// disables PicoBoot (bit 1) and entering PicoBoot disables mass storage
    /// (bit 0).
    pub fn disable_interface_mask(self) -> (r: Option<u32>)
        ensures
            self is Application <==> r is None,
            self is Bootloader ==> r == Some(0u32),
            self is MassStorage ==> r == Some(2u32),
            self is PicoBoot ==> r == Some(1u32),
    {
        match self {
            BootSel::Application => None,
            BootSel::Bootloader => Some(0),
            BootSel::MassStorage => Some(2),
            BootSel::PicoBoot => Some(1),
        }
    }
}

/// The single-byte status returned by a `SystemUpload` status poll.
#[derive(Eq, PartialEq, Structural, Debug, Clone, Copy)]
pub enum SystemUpdateStatus {
    /// No update sequence is active.
    NotInUpdateMode,
    /// An erase of the roster region is running.
    Erasing,
    /// The roster region was erased for an update.
    ErasedForUpdate,
    /// Update mode was entered; chunks may be pushed.
    ReadyForUpdate,
    /// A chunk write is running.
    Writing,
    /// The last chunk was written.
    Written,
    /// The erase failed; the sequence must be restarted.
    EraseError,
    /// A write failed; the sequence must be restarted.
    WriteError,
}

impl SystemUpdateStatus {
    pub open spec fn spec_code(self) -> u8 {
        match self {
            SystemUpdateStatus::NotInUpdateMode => 0x00,
            SystemUpdateStatus::Erasing => 0x01,
            SystemUpdateStatus::ErasedForUpdate => 0x02,
            SystemUpdateStatus::ReadyForUpdate => 0x03,
            SystemUpdateStatus::Writing => 0x04,
            SystemUpdateStatus::Written => 0x05,
            SystemUpdateStatus::EraseError => 0x06,
            SystemUpdateStatus::WriteError => 0x07,
        }
    }

    pub fn code(self) -> (r: u8)
        ensures
            r == self.spec_code(),
    {
        match self {
            SystemUpdateStatus::NotInUpdateMode => 0x00,
            SystemUpdateStatus::Erasing => 0x01,
            SystemUpdateStatus::ErasedForUpdate => 0x02,
            SystemUpdateStatus::ReadyForUpdate => 0x03,
            SystemUpdateStatus::Writing => 0x04,
            SystemUpdateStatus::Written => 0x05,
            SystemUpdateStatus::EraseError => 0x06,
            SystemUpdateStatus::WriteError => 0x07,
        }
    }

    pub fn from_u8(value: u8) -> (r: Option<SystemUpdateStatus>)
        ensures
            r matches Some(v) ==> v.spec_code() == value,
            r is None <==> value > 0x07,
    {
        match value {
            0x00 => Some(SystemUpdateStatus::NotInUpdateMode),
            0x01 => Some(SystemUpdateStatus::Erasing),
            0x02 => Some(SystemUpdateStatus::ErasedForUpdate),
            0x03 => Some(SystemUpdateStatus::ReadyForUpdate),
            0x04 => Some(SystemUpdateStatus::Writing),
            0x05 => Some(SystemUpdateStatus::Written),
            0x06 => Some(SystemUpdateStatus::EraseError),
            0x07 => Some(SystemUpdateStatus::WriteError),
            _ => None,
        }
    }
}

/// Which provider a roster file came from.
#[derive(Eq, PartialEq, Structural, Debug, Clone, Copy)]
pub enum SystemIdType {
    /// Not generated by a known provider.
    Unspecified,
    /// Generated from PluralKit data.
    PluralKit,
    /// Generated from PronounsCC data.
    PronounsCC,
}

impl SystemIdType {
    pub open spec fn spec_code(self) -> u8 {
        match self {
            SystemIdType::Unspecified => 0x00,
            SystemIdType::PluralKit => 0x01,
            SystemIdType::PronounsCC => 0x02,
        }
    }

    pub fn code(self) -> (r: u8)
        ensures
            r == self.spec_code(),
    {
        match self {
            SystemIdType::Unspecified => 0x00,
            SystemIdType::PluralKit => 0x01,
            SystemIdType::PronounsCC => 0x02,
        }
    }

    pub fn from_u8(value: u8) -> (r: Option<SystemIdType>)
        ensures
            r matches Some(v) ==> v.spec_code() == value,
            r is None <==> value > 0x02,
    {
        match value {
            0x00 => Some(SystemIdType::Unspecified),
            0x01 => Some(SystemIdType::PluralKit),
            0x02 => Some(SystemIdType::PronounsCC),
            _ => None,
        }
    }
}

/// A provider id together with the provider it names.
#[derive(Eq, PartialEq, Debug, Clone)]
pub enum SystemId {
    Unspecified,
    PluralKit(String),
    PronounsCC(String),
}

impl SystemId {
    /// Pairs a provider selector with an id string; the string is dropped
    /// when no provider is selected.
    pub fn new(id: SystemIdType, s: String) -> (r: SystemId)
        ensures
            id is Unspecified ==> r is Unspecified,
            id is PluralKit ==> r == SystemId::PluralKit(s),
            id is PronounsCC ==> r == SystemId::PronounsCC(s),
    {
        match id {
            SystemIdType::Unspecified => SystemId::Unspecified,
            SystemIdType::PluralKit => SystemId::PluralKit(s),
            SystemIdType::PronounsCC => SystemId::PronounsCC(s),
        }
    }

    /// The provider this id names.
    pub fn id_type(&self) -> (r: SystemIdType)
        ensures
            *self is Unspecified <==> r is Unspecified,
            *self is PluralKit <==> r is PluralKit,
            *self is PronounsCC <==> r is PronounsCC,
    {
        match self {
            SystemId::Unspecified => SystemIdType::Unspecified,
            SystemId::PluralKit(_) => SystemIdType::PluralKit,
            SystemId::PronounsCC(_) => SystemIdType::PronounsCC,
        }
    }
}

} // verus!
