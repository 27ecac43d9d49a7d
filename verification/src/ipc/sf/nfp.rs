//! The amiibo services: the layouts and values of their commands.

use crate::ipc::sf::{
    hid, mii, ncm, AppletResourceUserId, CopyHandle, InFixedPointerBuffer, InMapAliasBuffer,
    OutFixedPointerBuffer, OutMapAliasBuffer, OutPointerBuffer, PrimitiveEnum, ProcessId, Session,
};
use crate::result::ResultCode;
use crate::util;
use vstd::prelude::*;

verus! {

/// The version of the firmware of the NFC chip.
#[derive(Copy, Clone, PartialEq, Eq, Debug)]
pub struct McuVersionData {
    pub version: u64,
    pub reserved: [u8; 0x18],
}

impl McuVersionData {
    /// Whether every field holds its default: zero, or the default variant.
    pub open spec fn is_default(&self) -> bool {
        &&& self.version == 0
        &&& forall|i: int| 0 <= i < 0x18 ==> self.reserved@[i] == 0
    }
}

impl Default for McuVersionData {
    fn default() -> (value: Self)
        ensures
            value.is_default(),
    {
        Self {
            version: 0,
            reserved: [0u8; 0x18],
        }
    }
}

impl McuVersionData {
    /// The number of bytes that the layout takes in a command.
    pub const WIRE_SIZE: usize = 0x20;
}

/// The handle of an NFC device.
#[derive(Copy, Clone, PartialEq, Eq, Debug)]
pub struct DeviceHandle {
    pub id: u32,
    pub reserved: [u8; 4],
}

impl DeviceHandle {
    /// Whether every field holds its default: zero, or the default variant.
    pub open spec fn is_default(&self) -> bool {
        &&& self.id == 0
        &&& forall|i: int| 0 <= i < 4 ==> self.reserved@[i] == 0
    }
}

impl Default for DeviceHandle {
    fn default() -> (value: Self)
        ensures
            value.is_default(),
    {
        Self {
            id: 0,
            reserved: [0u8; 4],
        }
    }
}

impl DeviceHandle {
    /// The number of bytes that the layout takes in a command.
    pub const WIRE_SIZE: usize = 0x8;
}

/// Whether the service is initialized.
#[derive(Copy, Clone, PartialEq, Eq, Structural, Debug)]
pub enum State {
    NonInitialized,
    Initialized,
}

impl State {
    /// The number that stands for the variant.
    pub open spec fn spec_value(self) -> u32 {
        match self {
            State::NonInitialized => 0,
            State::Initialized => 1,
        }
    }

    /// The variant that `value` stands for, if it stands for one.
    pub open spec fn spec_from_value(value: u32) -> Option<Self> {
        if value == 0 {
            Some(State::NonInitialized)
        } else if value == 1 {
            Some(State::Initialized)
        } else {
            None
        }
    }

    pub fn value(self) -> (value: u32)
        ensures
            value == self.spec_value(),
    {
        match self {
            State::NonInitialized => 0,
            State::Initialized => 1,
        }
    }

    /// The variant that `value` stands for, if it stands for one.
    pub fn from_value(value: u32) -> (variant: Option<Self>)
        ensures
            variant == Self::spec_from_value(value),
    {
        if value == 0 {
            Some(State::NonInitialized)
        } else if value == 1 {
            Some(State::Initialized)
        } else {
            None
        }
    }
}

impl PrimitiveEnum<u32> for State {
    open spec fn spec_to_primitive(self) -> u32 {
        self.spec_value()
    }

    open spec fn spec_from_primitive(value: u32) -> Option<Self> {
        Self::spec_from_value(value)
    }

    proof fn lemma_round_trip(self) {
    }

    fn to_primitive(self) -> (value: u32) {
        self.value()
    }

    fn from_primitive(value: u32) -> (variant: Option<Self>) {
        Self::from_value(value)
    }
}

/// What an NFC device is doing.
#[derive(Copy, Clone, PartialEq, Eq, Structural, Debug)]
pub enum DeviceState {
    Initialized,
    SearchingForTag,
    TagFound,
    TagRemoved,
    TagMounted,
    Unavailable,
    Finalized,
}

impl DeviceState {
    /// The number that stands for the variant.
    pub open spec fn spec_value(self) -> u32 {
        match self {
            DeviceState::Initialized => 0,
            DeviceState::SearchingForTag => 1,
            DeviceState::TagFound => 2,
            DeviceState::TagRemoved => 3,
            DeviceState::TagMounted => 4,
            DeviceState::Unavailable => 5,
            DeviceState::Finalized => 6,
        }
    }

    /// The variant that `value` stands for, if it stands for one.
    pub open spec fn spec_from_value(value: u32) -> Option<Self> {
        if value == 0 {
            Some(DeviceState::Initialized)
        } else if value == 1 {
            Some(DeviceState::SearchingForTag)
        } else if value == 2 {
            Some(DeviceState::TagFound)
        } else if value == 3 {
            Some(DeviceState::TagRemoved)
        } else if value == 4 {
            Some(DeviceState::TagMounted)
        } else if value == 5 {
            Some(DeviceState::Unavailable)
        } else if value == 6 {
            Some(DeviceState::Finalized)
        } else {
            None
        }
    }

    pub fn value(self) -> (value: u32)
        ensures
            value == self.spec_value(),
    {
        match self {
            DeviceState::Initialized => 0,
            DeviceState::SearchingForTag => 1,
            DeviceState::TagFound => 2,
            DeviceState::TagRemoved => 3,
            DeviceState::TagMounted => 4,
            DeviceState::Unavailable => 5,
            DeviceState::Finalized => 6,
        }
    }

    /// The variant that `value` stands for, if it stands for one.
    pub fn from_value(value: u32) -> (variant: Option<Self>)
        ensures
            variant == Self::spec_from_value(value),
    {
        if value == 0 {
            Some(DeviceState::Initialized)
        } else if value == 1 {
            Some(DeviceState::SearchingForTag)
        } else if value == 2 {
            Some(DeviceState::TagFound)
        } else if value == 3 {
            Some(DeviceState::TagRemoved)
        } else if value == 4 {
            Some(DeviceState::TagMounted)
        } else if value == 5 {
            Some(DeviceState::Unavailable)
        } else if value == 6 {
            Some(DeviceState::Finalized)
        } else {
            None
        }
    }
}

impl PrimitiveEnum<u32> for DeviceState {
    open spec fn spec_to_primitive(self) -> u32 {
        self.spec_value()
    }

    open spec fn spec_from_primitive(value: u32) -> Option<Self> {
        Self::spec_from_value(value)
    }

    proof fn lemma_round_trip(self) {
    }

    fn to_primitive(self) -> (value: u32) {
        self.value()
    }

    fn from_primitive(value: u32) -> (variant: Option<Self>) {
        Self::from_value(value)
    }
}

/// The kinds of figures.
#[derive(Copy, Clone, PartialEq, Eq, Structural, Debug)]
pub enum ModelType {
    Amiibo,
}

impl ModelType {
    /// The number that stands for the variant.
    pub open spec fn spec_value(self) -> u32 {
        match self {
            ModelType::Amiibo => 0,
        }
    }

    /// The variant that `value` stands for, if it stands for one.
    pub open spec fn spec_from_value(value: u32) -> Option<Self> {
        if value == 0 {
            Some(ModelType::Amiibo)
        } else {
            None
        }
    }

    pub fn value(self) -> (value: u32)
        ensures
            value == self.spec_value(),
    {
        match self {
            ModelType::Amiibo => 0,
        }
    }

    /// The variant that `value` stands for, if it stands for one.
    pub fn from_value(value: u32) -> (variant: Option<Self>)
        ensures
            variant == Self::spec_from_value(value),
    {
        if value == 0 {
            Some(ModelType::Amiibo)
        } else {
            None
        }
    }
}

impl PrimitiveEnum<u32> for ModelType {
    open spec fn spec_to_primitive(self) -> u32 {
        self.spec_value()
    }

    open spec fn spec_from_primitive(value: u32) -> Option<Self> {
        Self::spec_from_value(value)
    }

    proof fn lemma_round_trip(self) {
    }

    fn to_primitive(self) -> (value: u32) {
        self.value()
    }

    fn from_primitive(value: u32) -> (variant: Option<Self>) {
        Self::from_value(value)
    }
}

/// A calendar date.
#[derive(Copy, Clone, PartialEq, Eq, Debug)]
pub struct Date {
    pub year: u16,
    pub month: u8,
    pub day: u8,
}

impl Date {
    /// Whether every field holds its default: zero, or the default variant.
    pub open spec fn is_default(&self) -> bool {
        &&& self.year == 0
        &&& self.month == 0
        &&& self.day == 0
    }
}

impl Default for Date {
    fn default() -> (value: Self)
        ensures
            value.is_default(),
    {
        Self {
            year: 0,
            month: 0,
            day: 0,
        }
    }
}

impl Date {
    /// The number of bytes that the layout takes in a command.
    pub const WIRE_SIZE: usize = 0x4;
}

/// What a tag tells of itself.
#[derive(Copy, Clone, PartialEq, Eq, Debug)]
pub struct TagInfo {
    pub uuid: [u8; 10],
    pub uuid_length: u8,
    pub reserved_1: [u8; 0x15],
    pub protocol: u32,
    pub tag_type: u32,
    pub reserved_2: [u8; 0x30],
}

impl TagInfo {
    /// The number of bytes that the layout takes in a command.
    pub const WIRE_SIZE: usize = 0x58;
}

/// Who owns a figure: the owner's character and name, and the date of
/// registration.
#[derive(Copy, Clone, PartialEq, Eq, Debug)]
pub struct RegisterInfo {
    pub mii_charinfo: mii::CharInfo,
    pub first_write_date: Date,
    pub name: util::ArrayString<41>,
    pub font_region: u8,
    pub reserved: [u8; 0x7A],
}

impl RegisterInfo {
    /// The number of bytes that the layout takes in a command.
    pub const WIRE_SIZE: usize = 0x100;
}

/// What every figure records: its last write, its counters and the size of its
/// application area.
#[derive(Copy, Clone, PartialEq, Eq, Debug)]
pub struct CommonInfo {
    pub last_write_date: Date,
    pub write_counter: u16,
    pub version: u8,
    pub pad: u8,
    pub application_area_size: u32,
    pub reserved: [u8; 0x34],
}

impl CommonInfo {
    /// The number of bytes that the layout takes in a command.
    pub const WIRE_SIZE: usize = 0x40;
}

/// Which figure a tag belongs to.
#[derive(Copy, Clone, PartialEq, Eq, Debug)]
pub struct ModelInfo {
    pub game_character_id: u16,
    pub character_variant: u8,
    pub series: u8,
    pub model_number: u16,
    pub figure_type: u8,
    pub reserved: [u8; 0x39],
}

impl ModelInfo {
    /// The number of bytes that the layout takes in a command.
    pub const WIRE_SIZE: usize = 0x40;
}

/// The family of consoles that wrote the application area.
#[derive(Copy, Clone, PartialEq, Eq, Structural, Debug)]
pub enum ApplicationAreaVersion {
    Default,
    NintendoWiiU,
    Nintendo3DS,
    NintendoSwitch,
}

impl ApplicationAreaVersion {
    /// The number that stands for the variant.
    pub open spec fn spec_value(self) -> u8 {
        match self {
            ApplicationAreaVersion::Default => 0,
            ApplicationAreaVersion::NintendoWiiU => 1,
            ApplicationAreaVersion::Nintendo3DS => 2,
            ApplicationAreaVersion::NintendoSwitch => 3,
        }
    }

    /// The variant that `value` stands for, if it stands for one.
    pub open spec fn spec_from_value(value: u8) -> Option<Self> {
        if value == 0 {
            Some(ApplicationAreaVersion::Default)
        } else if value == 1 {
            Some(ApplicationAreaVersion::NintendoWiiU)
        } else if value == 2 {
            Some(ApplicationAreaVersion::Nintendo3DS)
        } else if value == 3 {
            Some(ApplicationAreaVersion::NintendoSwitch)
        } else {
            None
        }
    }

    pub fn value(self) -> (value: u8)
        ensures
            value == self.spec_value(),
    {
        match self {
            ApplicationAreaVersion::Default => 0,
            ApplicationAreaVersion::NintendoWiiU => 1,
            ApplicationAreaVersion::Nintendo3DS => 2,
            ApplicationAreaVersion::NintendoSwitch => 3,
        }
    }

    /// The variant that `value` stands for, if it stands for one.
    pub fn from_value(value: u8) -> (variant: Option<Self>)
        ensures
            variant == Self::spec_from_value(value),
    {
        if value == 0 {
            Some(ApplicationAreaVersion::Default)
        } else if value == 1 {
            Some(ApplicationAreaVersion::NintendoWiiU)
        } else if value == 2 {
            Some(ApplicationAreaVersion::Nintendo3DS)
        } else if value == 3 {
            Some(ApplicationAreaVersion::NintendoSwitch)
        } else {
            None
        }
    }
}

impl Default for ApplicationAreaVersion {
    fn default() -> (variant: Self)
        ensures
            variant == ApplicationAreaVersion::Default,
    {
        ApplicationAreaVersion::Default
    }
}

impl PrimitiveEnum<u8> for ApplicationAreaVersion {
    open spec fn spec_to_primitive(self) -> u8 {
        self.spec_value()
    }

    open spec fn spec_from_primitive(value: u8) -> Option<Self> {
        Self::spec_from_value(value)
    }

    proof fn lemma_round_trip(self) {
    }

    fn to_primitive(self) -> (value: u8) {
        self.value()
    }

    fn from_primitive(value: u8) -> (variant: Option<Self>) {
        Self::from_value(value)
    }
}

/// The families of consoles.
#[derive(Copy, Clone, PartialEq, Eq, Structural, Debug)]
pub enum ConsoleFamily {
    Default,
    NintendoWiiU,
    Nintendo3DS,
    NintendoSwitch,
}

impl ConsoleFamily {
    /// The number that stands for the variant.
    pub open spec fn spec_value(self) -> u8 {
        match self {
            ConsoleFamily::Default => 0,
            ConsoleFamily::NintendoWiiU => 1,
            ConsoleFamily::Nintendo3DS => 2,
            ConsoleFamily::NintendoSwitch => 3,
        }
    }

    /// The variant that `value` stands for, if it stands for one.
    pub open spec fn spec_from_value(value: u8) -> Option<Self> {
        if value == 0 {
            Some(ConsoleFamily::Default)
        } else if value == 1 {
            Some(ConsoleFamily::NintendoWiiU)
        } else if value == 2 {
            Some(ConsoleFamily::Nintendo3DS)
        } else if value == 3 {
            Some(ConsoleFamily::NintendoSwitch)
        } else {
            None
        }
    }

    pub fn value(self) -> (value: u8)
        ensures
            value == self.spec_value(),
    {
        match self {
            ConsoleFamily::Default => 0,
            ConsoleFamily::NintendoWiiU => 1,
            ConsoleFamily::Nintendo3DS => 2,
            ConsoleFamily::NintendoSwitch => 3,
        }
    }

    /// The variant that `value` stands for, if it stands for one.
    pub fn from_value(value: u8) -> (variant: Option<Self>)
        ensures
            variant == Self::spec_from_value(value),
    {
        if value == 0 {
            Some(ConsoleFamily::Default)
        } else if value == 1 {
            Some(ConsoleFamily::NintendoWiiU)
        } else if value == 2 {
            Some(ConsoleFamily::Nintendo3DS)
        } else if value == 3 {
            Some(ConsoleFamily::NintendoSwitch)
        } else {
            None
        }
    }
}

impl Default for ConsoleFamily {
    fn default() -> (variant: Self)
        ensures
            variant == ConsoleFamily::Default,
    {
        ConsoleFamily::Default
    }
}

impl PrimitiveEnum<u8> for ConsoleFamily {
    open spec fn spec_to_primitive(self) -> u8 {
        self.spec_value()
    }

    open spec fn spec_from_primitive(value: u8) -> Option<Self> {
        Self::spec_from_value(value)
    }

    proof fn lemma_round_trip(self) {
    }

    fn to_primitive(self) -> (value: u8) {
        self.value()
    }

    fn from_primitive(value: u8) -> (variant: Option<Self>) {
        Self::from_value(value)
    }
}

/// What the system records of the application area of a figure.
#[derive(Copy, Clone, PartialEq, Eq, Debug)]
pub struct AdminInfo {
    pub program_id: ncm::ProgramId,
    pub access_id: AccessId,
    pub crc32_change_counter: u16,
    pub flags: AdminInfoFlags,
    pub tag_type: u8,
    pub console_family: ConsoleFamily,
    pub pad: [u8; 0x7],
    pub reserved: [u8; 0x28],
}

impl AdminInfo {
    /// The number of bytes that the layout takes in a command.
    pub const WIRE_SIZE: usize = 0x40;
}

/// Who owns a figure, with the owner's character as the database stores it.
#[derive(Copy, Clone, PartialEq, Eq, Debug)]
pub struct RegisterInfoPrivate {
    pub mii_store_data: mii::StoreData,
    pub first_write_date: Date,
    pub name: util::ArrayString<41>,
    pub unk: u8,
    pub reserved: [u8; 0x8E],
}

impl RegisterInfoPrivate {
    /// The number of bytes that the layout takes in a command.
    pub const WIRE_SIZE: usize = 0x100;
}

/// The whole content of a figure's tag.
#[derive(Copy, Clone, PartialEq, Eq, Debug)]
pub struct NfpData {
    pub header_magic: u8,
    pub reserved: u8,
    pub header_write_counter: u16,
    pub terminal_id_crc32: u32,
    pub reserved_2: [u8; 0x38],
    pub common_info: CommonInfo,
    pub mii_v3: mii::Ver3StoreData,
    pub pad: [u8; 2],
    pub mii_crc16: u16,
    pub mii_store_data_extension: mii::NfpStoreDataExtension,
    pub first_write_date: Date,
    pub name: util::ArrayWideString<11>,
    pub font_region: u8,
    pub unk_1: u8,
    pub mii_crc32: u32,
    pub unk_2: [u8; 0x14],
    pub reserved_3: [u8; 100],
    pub modified_app_id: u64,
    pub access_id: AccessId,
    pub terminal_id_crc32_change_counter: u16,
    pub flags: AdminInfoFlags,
    pub unk_3: u8,
    pub app_id_byte: u8,
    pub reserved_4: [u8; 0x2E],
    pub app_area: [u8; 0xD8],
}

impl NfpData {
    /// The number of bytes that the layout takes in a command.
    pub const WIRE_SIZE: usize = 0x298;
}

/// How to damage a tag on purpose.
#[derive(Copy, Clone, PartialEq, Eq, Structural, Debug)]
pub enum BreakType {
    FlushOnly,
    BreakDataHash,
    BreakHeaderMagic,
}

impl BreakType {
    /// The number that stands for the variant.
    pub open spec fn spec_value(self) -> u32 {
        match self {
            BreakType::FlushOnly => 0,
            BreakType::BreakDataHash => 1,
            BreakType::BreakHeaderMagic => 2,
        }
    }

    /// The variant that `value` stands for, if it stands for one.
    pub open spec fn spec_from_value(value: u32) -> Option<Self> {
        if value == 0 {
            Some(BreakType::FlushOnly)
        } else if value == 1 {
            Some(BreakType::BreakDataHash)
        } else if value == 2 {
            Some(BreakType::BreakHeaderMagic)
        } else {
            None
        }
    }

    pub fn value(self) -> (value: u32)
        ensures
            value == self.spec_value(),
    {
        match self {
            BreakType::FlushOnly => 0,
            BreakType::BreakDataHash => 1,
            BreakType::BreakHeaderMagic => 2,
        }
    }

    /// The variant that `value` stands for, if it stands for one.
    pub fn from_value(value: u32) -> (variant: Option<Self>)
        ensures
            variant == Self::spec_from_value(value),
    {
        if value == 0 {
            Some(BreakType::FlushOnly)
        } else if value == 1 {
            Some(BreakType::BreakDataHash)
        } else if value == 2 {
            Some(BreakType::BreakHeaderMagic)
        } else {
            None
        }
    }
}

impl PrimitiveEnum<u32> for BreakType {
    open spec fn spec_to_primitive(self) -> u32 {
        self.spec_value()
    }

    open spec fn spec_from_primitive(value: u32) -> Option<Self> {
        Self::spec_from_value(value)
    }

    proof fn lemma_round_trip(self) {
    }

    fn to_primitive(self) -> (value: u32) {
        self.value()
    }

    fn from_primitive(value: u32) -> (variant: Option<Self>) {
        Self::from_value(value)
    }
}

/// How to write to a tag.
#[derive(Copy, Clone, PartialEq, Eq, Structural, Debug)]
pub enum WriteType {
    Unk0,
    Unk1,
}

impl WriteType {
    /// The number that stands for the variant.
    pub open spec fn spec_value(self) -> u32 {
        match self {
            WriteType::Unk0 => 0,
            WriteType::Unk1 => 1,
        }
    }

    /// The variant that `value` stands for, if it stands for one.
    pub open spec fn spec_from_value(value: u32) -> Option<Self> {
        if value == 0 {
            Some(WriteType::Unk0)
        } else if value == 1 {
            Some(WriteType::Unk1)
        } else {
            None
        }
    }

    pub fn value(self) -> (value: u32)
        ensures
            value == self.spec_value(),
    {
        match self {
            WriteType::Unk0 => 0,
            WriteType::Unk1 => 1,
        }
    }

    /// The variant that `value` stands for, if it stands for one.
    pub fn from_value(value: u32) -> (variant: Option<Self>)
        ensures
            variant == Self::spec_from_value(value),
    {
        if value == 0 {
            Some(WriteType::Unk0)
        } else if value == 1 {
            Some(WriteType::Unk1)
        } else {
            None
        }
    }
}

impl PrimitiveEnum<u32> for WriteType {
    open spec fn spec_to_primitive(self) -> u32 {
        self.spec_value()
    }

    open spec fn spec_from_primitive(value: u32) -> Option<Self> {
        Self::spec_from_value(value)
    }

    proof fn lemma_round_trip(self) {
    }

    fn to_primitive(self) -> (value: u32) {
        self.value()
    }

    fn from_primitive(value: u32) -> (variant: Option<Self>) {
        Self::from_value(value)
    }
}

/// Where a tag is mounted from.
#[derive(Copy, Clone, PartialEq, Eq, Structural, Debug)]
pub struct MountTarget {
    pub bits: u32,
}

impl MountTarget {
    pub fn from(bits: u32) -> (flags: Self)
        ensures
            flags.bits == bits,
    {
        Self { bits }
    }

    pub fn get(&self) -> (bits: u32)
        ensures
            bits == self.bits,
    {
        self.bits
    }

    /// Whether every flag of `other` is set.
    pub fn contains(&self, other: Self) -> (b: bool)
        ensures
            b == (self.bits & other.bits == other.bits),
    {
        self.bits & other.bits == other.bits
    }

    #[allow(non_snake_case)]
    pub fn Rom() -> (flags: Self)
        ensures
            flags.bits == 1,
    {
        Self { bits: 1 }
    }

    #[allow(non_snake_case)]
    pub fn Ram() -> (flags: Self)
        ensures
            flags.bits == 2,
    {
        Self { bits: 2 }
    }
}

/// What is set up on a tag.
#[derive(Copy, Clone, PartialEq, Eq, Structural, Debug)]
pub struct AdminInfoFlags {
    pub bits: u8,
}

impl AdminInfoFlags {
    pub fn from(bits: u8) -> (flags: Self)
        ensures
            flags.bits == bits,
    {
        Self { bits }
    }

    pub fn get(&self) -> (bits: u8)
        ensures
            bits == self.bits,
    {
        self.bits
    }

    /// Whether every flag of `other` is set.
    pub fn contains(&self, other: Self) -> (b: bool)
        ensures
            b == (self.bits & other.bits == other.bits),
    {
        self.bits & other.bits == other.bits
    }

    #[allow(non_snake_case)]
    pub fn IsInitialized() -> (flags: Self)
        ensures
            flags.bits == 1,
    {
        Self { bits: 1 }
    }

    #[allow(non_snake_case)]
    pub fn HasApplicationArea() -> (flags: Self)
        ensures
            flags.bits == 2,
    {
        Self { bits: 2 }
    }
}

/// The id under which an application keeps its area on a tag.
pub type AccessId = u32;

/// The commands of the `User` interface, by request id.
#[derive(Copy, Clone, PartialEq, Eq, Structural, Debug)]
pub enum UserCommand {
    Initialize,
    Finalize,
    ListDevices,
    StartDetection,
    StopDetection,
    Mount,
    Unmount,
    OpenApplicationArea,
    GetApplicationArea,
    SetApplicationArea,
    Flush,
    Restore,
    CreateApplicationArea,
    GetTagInfo,
    GetRegisterInfo,
    GetCommonInfo,
    GetModelInfo,
    AttachActivateEvent,
    AttachDeactivateEvent,
    GetState,
    GetDeviceState,
    GetNpadId,
    GetApplicationAreaSize,
    AttachAvailabilityChangeEvent,
    RecreateApplicationArea,
}

impl UserCommand {
    /// The number that stands for the variant.
    pub open spec fn spec_value(self) -> u32 {
        match self {
            UserCommand::Initialize => 0,
            UserCommand::Finalize => 1,
            UserCommand::ListDevices => 2,
            UserCommand::StartDetection => 3,
            UserCommand::StopDetection => 4,
            UserCommand::Mount => 5,
            UserCommand::Unmount => 6,
            UserCommand::OpenApplicationArea => 7,
            UserCommand::GetApplicationArea => 8,
            UserCommand::SetApplicationArea => 9,
            UserCommand::Flush => 0xa,
            UserCommand::Restore => 0xb,
            UserCommand::CreateApplicationArea => 0xc,
            UserCommand::GetTagInfo => 0xd,
            UserCommand::GetRegisterInfo => 0xe,
            UserCommand::GetCommonInfo => 0xf,
            UserCommand::GetModelInfo => 0x10,
            UserCommand::AttachActivateEvent => 0x11,
            UserCommand::AttachDeactivateEvent => 0x12,
            UserCommand::GetState => 0x13,
            UserCommand::GetDeviceState => 0x14,
            UserCommand::GetNpadId => 0x15,
            UserCommand::GetApplicationAreaSize => 0x16,
            UserCommand::AttachAvailabilityChangeEvent => 0x17,
            UserCommand::RecreateApplicationArea => 0x18,
        }
    }

    /// The variant that `value` stands for, if it stands for one.
    pub open spec fn spec_from_value(value: u32) -> Option<Self> {
        if value == 0 {
            Some(UserCommand::Initialize)
        } else if value == 1 {
            Some(UserCommand::Finalize)
        } else if value == 2 {
            Some(UserCommand::ListDevices)
        } else if value == 3 {
            Some(UserCommand::StartDetection)
        } else if value == 4 {
            Some(UserCommand::StopDetection)
        } else if value == 5 {
            Some(UserCommand::Mount)
        } else if value == 6 {
            Some(UserCommand::Unmount)
        } else if value == 7 {
            Some(UserCommand::OpenApplicationArea)
        } else if value == 8 {
            Some(UserCommand::GetApplicationArea)
        } else if value == 9 {
            Some(UserCommand::SetApplicationArea)
        } else if value == 0xa {
            Some(UserCommand::Flush)
        } else if value == 0xb {
            Some(UserCommand::Restore)
        } else if value == 0xc {
            Some(UserCommand::CreateApplicationArea)
        } else if value == 0xd {
            Some(UserCommand::GetTagInfo)
        } else if value == 0xe {
            Some(UserCommand::GetRegisterInfo)
        } else if value == 0xf {
            Some(UserCommand::GetCommonInfo)
        } else if value == 0x10 {
            Some(UserCommand::GetModelInfo)
        } else if value == 0x11 {
            Some(UserCommand::AttachActivateEvent)
        } else if value == 0x12 {
            Some(UserCommand::AttachDeactivateEvent)
        } else if value == 0x13 {
            Some(UserCommand::GetState)
        } else if value == 0x14 {
            Some(UserCommand::GetDeviceState)
        } else if value == 0x15 {
            Some(UserCommand::GetNpadId)
        } else if value == 0x16 {
            Some(UserCommand::GetApplicationAreaSize)
        } else if value == 0x17 {
            Some(UserCommand::AttachAvailabilityChangeEvent)
        } else if value == 0x18 {
            Some(UserCommand::RecreateApplicationArea)
        } else {
            None
        }
    }

    pub fn value(self) -> (value: u32)
        ensures
            value == self.spec_value(),
    {
        match self {
            UserCommand::Initialize => 0,
            UserCommand::Finalize => 1,
            UserCommand::ListDevices => 2,
            UserCommand::StartDetection => 3,
            UserCommand::StopDetection => 4,
            UserCommand::Mount => 5,
            UserCommand::Unmount => 6,
            UserCommand::OpenApplicationArea => 7,
            UserCommand::GetApplicationArea => 8,
            UserCommand::SetApplicationArea => 9,
            UserCommand::Flush => 0xa,
            UserCommand::Restore => 0xb,
            UserCommand::CreateApplicationArea => 0xc,
            UserCommand::GetTagInfo => 0xd,
            UserCommand::GetRegisterInfo => 0xe,
            UserCommand::GetCommonInfo => 0xf,
            UserCommand::GetModelInfo => 0x10,
            UserCommand::AttachActivateEvent => 0x11,
            UserCommand::AttachDeactivateEvent => 0x12,
            UserCommand::GetState => 0x13,
            UserCommand::GetDeviceState => 0x14,
            UserCommand::GetNpadId => 0x15,
            UserCommand::GetApplicationAreaSize => 0x16,
            UserCommand::AttachAvailabilityChangeEvent => 0x17,
            UserCommand::RecreateApplicationArea => 0x18,
        }
    }

    /// The variant that `value` stands for, if it stands for one.
    pub fn from_value(value: u32) -> (variant: Option<Self>)
        ensures
            variant == Self::spec_from_value(value),
    {
        if value == 0 {
            Some(UserCommand::Initialize)
        } else if value == 1 {
            Some(UserCommand::Finalize)
        } else if value == 2 {
            Some(UserCommand::ListDevices)
        } else if value == 3 {
            Some(UserCommand::StartDetection)
        } else if value == 4 {
            Some(UserCommand::StopDetection)
        } else if value == 5 {
            Some(UserCommand::Mount)
        } else if value == 6 {
            Some(UserCommand::Unmount)
        } else if value == 7 {
            Some(UserCommand::OpenApplicationArea)
        } else if value == 8 {
            Some(UserCommand::GetApplicationArea)
        } else if value == 9 {
            Some(UserCommand::SetApplicationArea)
        } else if value == 0xa {
            Some(UserCommand::Flush)
        } else if value == 0xb {
            Some(UserCommand::Restore)
        } else if value == 0xc {
            Some(UserCommand::CreateApplicationArea)
        } else if value == 0xd {
            Some(UserCommand::GetTagInfo)
        } else if value == 0xe {
            Some(UserCommand::GetRegisterInfo)
        } else if value == 0xf {
            Some(UserCommand::GetCommonInfo)
        } else if value == 0x10 {
            Some(UserCommand::GetModelInfo)
        } else if value == 0x11 {
            Some(UserCommand::AttachActivateEvent)
        } else if value == 0x12 {
            Some(UserCommand::AttachDeactivateEvent)
        } else if value == 0x13 {
            Some(UserCommand::GetState)
        } else if value == 0x14 {
            Some(UserCommand::GetDeviceState)
        } else if value == 0x15 {
            Some(UserCommand::GetNpadId)
        } else if value == 0x16 {
            Some(UserCommand::GetApplicationAreaSize)
        } else if value == 0x17 {
            Some(UserCommand::AttachAvailabilityChangeEvent)
        } else if value == 0x18 {
            Some(UserCommand::RecreateApplicationArea)
        } else {
            None
        }
    }
}

impl UserCommand {
    /// The first system version that knows the command, as major, minor
    /// and micro number; nothing where every version knows it.
    pub fn since(self) -> (version: Option<(u8, u8, u8)>)
        ensures
            version == match self {
                UserCommand::AttachAvailabilityChangeEvent => Some((3u8, 0u8, 0u8)),
                UserCommand::RecreateApplicationArea => Some((3u8, 0u8, 0u8)),
                _ => None,
            },
    {
        match self {
            UserCommand::AttachAvailabilityChangeEvent => Some((3, 0, 0)),
            UserCommand::RecreateApplicationArea => Some((3, 0, 0)),
            _ => None,
        }
    }
}

/// The `User` interface: what a client of it can ask for.
pub trait User {
    fn initialize(
        &self,
        aruid: AppletResourceUserId,
        process_id: ProcessId,
        mcu_data: InMapAliasBuffer<McuVersionData>,
    ) -> Result<(), ResultCode>;

    fn finalize(&self) -> Result<(), ResultCode>;

    fn list_devices(&self, out_devices: OutPointerBuffer<DeviceHandle>) -> Result<u32, ResultCode>;

    fn start_detection(&self, device_handle: DeviceHandle) -> Result<(), ResultCode>;

    fn stop_detection(&self, device_handle: DeviceHandle) -> Result<(), ResultCode>;

    fn mount(
        &self,
        device_handle: DeviceHandle,
        model_type: ModelType,
        mount_target: MountTarget,
    ) -> Result<(), ResultCode>;

    fn unmount(&self, device_handle: DeviceHandle) -> Result<(), ResultCode>;

    fn open_application_area(
        &self,
        device_handle: DeviceHandle,
        access_id: AccessId,
    ) -> Result<(), ResultCode>;

    fn get_application_area(
        &self,
        device_handle: DeviceHandle,
        out_data: OutMapAliasBuffer<u8>,
    ) -> Result<u32, ResultCode>;

    fn set_application_area(
        &self,
        device_handle: DeviceHandle,
        data: InMapAliasBuffer<u8>,
    ) -> Result<(), ResultCode>;

    fn flush(&self, device_handle: DeviceHandle) -> Result<(), ResultCode>;

    fn restore(&self, device_handle: DeviceHandle) -> Result<(), ResultCode>;

    fn create_application_area(
        &self,
        device_handle: DeviceHandle,
        access_id: AccessId,
        data: InMapAliasBuffer<u8>,
    ) -> Result<(), ResultCode>;

    fn get_tag_info(
        &self,
        device_handle: DeviceHandle,
        out_tag_info: OutFixedPointerBuffer<TagInfo>,
    ) -> Result<(), ResultCode>;

    fn get_register_info(
        &self,
        device_handle: DeviceHandle,
        out_register_info: OutFixedPointerBuffer<RegisterInfo>,
    ) -> Result<(), ResultCode>;

    fn get_common_info(
        &self,
        device_handle: DeviceHandle,
        out_common_info: OutFixedPointerBuffer<CommonInfo>,
    ) -> Result<(), ResultCode>;

    fn get_model_info(
        &self,
        device_handle: DeviceHandle,
        out_model_info: OutFixedPointerBuffer<ModelInfo>,
    ) -> Result<(), ResultCode>;

    fn attach_activate_event(&self, device_handle: DeviceHandle) -> Result<CopyHandle, ResultCode>;

    fn attach_deactivate_event(
        &self,
        device_handle: DeviceHandle,
    ) -> Result<CopyHandle, ResultCode>;

    fn get_state(&self) -> Result<State, ResultCode>;

    fn get_device_state(&self, device_handle: DeviceHandle) -> Result<DeviceState, ResultCode>;

    fn get_npad_id(&self, device_handle: DeviceHandle) -> Result<hid::NpadIdType, ResultCode>;

    fn get_application_area_size(&self, device_handle: DeviceHandle) -> Result<u32, ResultCode>;

    fn attach_availability_change_event(&self) -> Result<CopyHandle, ResultCode>;

    fn recreate_application_area(
        &self,
        device_handle: DeviceHandle,
        access_id: AccessId,
        data: InMapAliasBuffer<u8>,
    ) -> Result<(), ResultCode>;
}

/// The commands of the `UserManager` interface, by request id.
#[derive(Copy, Clone, PartialEq, Eq, Structural, Debug)]
pub enum UserManagerCommand {
    CreateUserInterface,
}

impl UserManagerCommand {
    /// The number that stands for the variant.
    pub open spec fn spec_value(self) -> u32 {
        match self {
            UserManagerCommand::CreateUserInterface => 0,
        }
    }

    /// The variant that `value` stands for, if it stands for one.
    pub open spec fn spec_from_value(value: u32) -> Option<Self> {
        if value == 0 {
            Some(UserManagerCommand::CreateUserInterface)
        } else {
            None
        }
    }

    pub fn value(self) -> (value: u32)
        ensures
            value == self.spec_value(),
    {
        match self {
            UserManagerCommand::CreateUserInterface => 0,
        }
    }

    /// The variant that `value` stands for, if it stands for one.
    pub fn from_value(value: u32) -> (variant: Option<Self>)
        ensures
            variant == Self::spec_from_value(value),
    {
        if value == 0 {
            Some(UserManagerCommand::CreateUserInterface)
        } else {
            None
        }
    }
}

/// The `UserManager` interface: what a client of it can ask for.
pub trait UserManager {
    fn create_user_interface(&self) -> Result<Session, ResultCode>;
}

/// The commands of the `System` interface, by request id.
#[derive(Copy, Clone, PartialEq, Eq, Structural, Debug)]
pub enum SystemCommand {
    Initialize,
    Finalize,
    ListDevices,
    StartDetection,
    StopDetection,
    Mount,
    Unmount,
    Flush,
    Restore,
    GetTagInfo,
    GetRegisterInfo,
    GetCommonInfo,
    GetModelInfo,
    AttachActivateEvent,
    AttachDeactivateEvent,
    GetState,
    GetDeviceState,
    GetNpadId,
    AttachAvailabilityChangeEvent,
    Format,
    GetAdminInfo,
    GetRegisterInfoPrivate,
    SetRegisterInfoPrivate,
    DeleteRegisterInfo,
    DeleteApplicationArea,
    ExistsApplicationArea,
}

impl SystemCommand {
    /// The number that stands for the variant.
    pub open spec fn spec_value(self) -> u32 {
        match self {
            SystemCommand::Initialize => 0,
            SystemCommand::Finalize => 1,
            SystemCommand::ListDevices => 2,
            SystemCommand::StartDetection => 3,
            SystemCommand::StopDetection => 4,
            SystemCommand::Mount => 5,
            SystemCommand::Unmount => 6,
            SystemCommand::Flush => 0xa,
            SystemCommand::Restore => 0xb,
            SystemCommand::GetTagInfo => 0xd,
            SystemCommand::GetRegisterInfo => 0xe,
            SystemCommand::GetCommonInfo => 0xf,
            SystemCommand::GetModelInfo => 0x10,
            SystemCommand::AttachActivateEvent => 0x11,
            SystemCommand::AttachDeactivateEvent => 0x12,
            SystemCommand::GetState => 0x13,
            SystemCommand::GetDeviceState => 0x14,
            SystemCommand::GetNpadId => 0x15,
            SystemCommand::AttachAvailabilityChangeEvent => 0x17,
            SystemCommand::Format => 0x64,
            SystemCommand::GetAdminInfo => 0x65,
            SystemCommand::GetRegisterInfoPrivate => 0x66,
            SystemCommand::SetRegisterInfoPrivate => 0x67,
            SystemCommand::DeleteRegisterInfo => 0x68,
            SystemCommand::DeleteApplicationArea => 0x69,
            SystemCommand::ExistsApplicationArea => 0x6a,
        }
    }

    /// The variant that `value` stands for, if it stands for one.
    pub open spec fn spec_from_value(value: u32) -> Option<Self> {
        if value == 0 {
            Some(SystemCommand::Initialize)
        } else if value == 1 {
            Some(SystemCommand::Finalize)
        } else if value == 2 {
            Some(SystemCommand::ListDevices)
        } else if value == 3 {
            Some(SystemCommand::StartDetection)
        } else if value == 4 {
            Some(SystemCommand::StopDetection)
        } else if value == 5 {
            Some(SystemCommand::Mount)
        } else if value == 6 {
            Some(SystemCommand::Unmount)
        } else if value == 0xa {
            Some(SystemCommand::Flush)
        } else if value == 0xb {
            Some(SystemCommand::Restore)
        } else if value == 0xd {
            Some(SystemCommand::GetTagInfo)
        } else if value == 0xe {
            Some(SystemCommand::GetRegisterInfo)
        } else if value == 0xf {
            Some(SystemCommand::GetCommonInfo)
        } else if value == 0x10 {
            Some(SystemCommand::GetModelInfo)
        } else if value == 0x11 {
            Some(SystemCommand::AttachActivateEvent)
        } else if value == 0x12 {
            Some(SystemCommand::AttachDeactivateEvent)
        } else if value == 0x13 {
            Some(SystemCommand::GetState)
        } else if value == 0x14 {
            Some(SystemCommand::GetDeviceState)
        } else if value == 0x15 {
            Some(SystemCommand::GetNpadId)
        } else if value == 0x17 {
            Some(SystemCommand::AttachAvailabilityChangeEvent)
        } else if value == 0x64 {
            Some(SystemCommand::Format)
        } else if value == 0x65 {
            Some(SystemCommand::GetAdminInfo)
        } else if value == 0x66 {
            Some(SystemCommand::GetRegisterInfoPrivate)
        } else if value == 0x67 {
            Some(SystemCommand::SetRegisterInfoPrivate)
        } else if value == 0x68 {
            Some(SystemCommand::DeleteRegisterInfo)
        } else if value == 0x69 {
            Some(SystemCommand::DeleteApplicationArea)
        } else if value == 0x6a {
            Some(SystemCommand::ExistsApplicationArea)
        } else {
            None
        }
    }

    pub fn value(self) -> (value: u32)
        ensures
            value == self.spec_value(),
    {
        match self {
            SystemCommand::Initialize => 0,
            SystemCommand::Finalize => 1,
            SystemCommand::ListDevices => 2,
            SystemCommand::StartDetection => 3,
            SystemCommand::StopDetection => 4,
            SystemCommand::Mount => 5,
            SystemCommand::Unmount => 6,
            SystemCommand::Flush => 0xa,
            SystemCommand::Restore => 0xb,
            SystemCommand::GetTagInfo => 0xd,
            SystemCommand::GetRegisterInfo => 0xe,
            SystemCommand::GetCommonInfo => 0xf,
            SystemCommand::GetModelInfo => 0x10,
            SystemCommand::AttachActivateEvent => 0x11,
            SystemCommand::AttachDeactivateEvent => 0x12,
            SystemCommand::GetState => 0x13,
            SystemCommand::GetDeviceState => 0x14,
            SystemCommand::GetNpadId => 0x15,
            SystemCommand::AttachAvailabilityChangeEvent => 0x17,
            SystemCommand::Format => 0x64,
            SystemCommand::GetAdminInfo => 0x65,
            SystemCommand::GetRegisterInfoPrivate => 0x66,
            SystemCommand::SetRegisterInfoPrivate => 0x67,
            SystemCommand::DeleteRegisterInfo => 0x68,
            SystemCommand::DeleteApplicationArea => 0x69,
            SystemCommand::ExistsApplicationArea => 0x6a,
        }
    }

    /// The variant that `value` stands for, if it stands for one.
    pub fn from_value(value: u32) -> (variant: Option<Self>)
        ensures
            variant == Self::spec_from_value(value),
    {
        if value == 0 {
            Some(SystemCommand::Initialize)
        } else if value == 1 {
            Some(SystemCommand::Finalize)
        } else if value == 2 {
            Some(SystemCommand::ListDevices)
        } else if value == 3 {
            Some(SystemCommand::StartDetection)
        } else if value == 4 {
            Some(SystemCommand::StopDetection)
        } else if value == 5 {
            Some(SystemCommand::Mount)
        } else if value == 6 {
            Some(SystemCommand::Unmount)
        } else if value == 0xa {
            Some(SystemCommand::Flush)
        } else if value == 0xb {
            Some(SystemCommand::Restore)
        } else if value == 0xd {
            Some(SystemCommand::GetTagInfo)
        } else if value == 0xe {
            Some(SystemCommand::GetRegisterInfo)
        } else if value == 0xf {
            Some(SystemCommand::GetCommonInfo)
        } else if value == 0x10 {
            Some(SystemCommand::GetModelInfo)
        } else if value == 0x11 {
            Some(SystemCommand::AttachActivateEvent)
        } else if value == 0x12 {
            Some(SystemCommand::AttachDeactivateEvent)
        } else if value == 0x13 {
            Some(SystemCommand::GetState)
        } else if value == 0x14 {
            Some(SystemCommand::GetDeviceState)
        } else if value == 0x15 {
            Some(SystemCommand::GetNpadId)
        } else if value == 0x17 {
            Some(SystemCommand::AttachAvailabilityChangeEvent)
        } else if value == 0x64 {
            Some(SystemCommand::Format)
        } else if value == 0x65 {
            Some(SystemCommand::GetAdminInfo)
        } else if value == 0x66 {
            Some(SystemCommand::GetRegisterInfoPrivate)
        } else if value == 0x67 {
            Some(SystemCommand::SetRegisterInfoPrivate)
        } else if value == 0x68 {
            Some(SystemCommand::DeleteRegisterInfo)
        } else if value == 0x69 {
            Some(SystemCommand::DeleteApplicationArea)
        } else if value == 0x6a {
            Some(SystemCommand::ExistsApplicationArea)
        } else {
            None
        }
    }
}

/// The `System` interface: what a client of it can ask for.
pub trait System {
    fn initialize(
        &self,
        aruid: AppletResourceUserId,
        process_id: ProcessId,
        mcu_data: InMapAliasBuffer<McuVersionData>,
    ) -> Result<(), ResultCode>;

    fn finalize(&self) -> Result<(), ResultCode>;

    fn list_devices(&self, out_devices: OutPointerBuffer<DeviceHandle>) -> Result<u32, ResultCode>;

    fn start_detection(&self, device_handle: DeviceHandle) -> Result<(), ResultCode>;

    fn stop_detection(&self, device_handle: DeviceHandle) -> Result<(), ResultCode>;

    fn mount(
        &self,
        device_handle: DeviceHandle,
        model_type: ModelType,
        mount_target: MountTarget,
    ) -> Result<(), ResultCode>;

    fn unmount(&self, device_handle: DeviceHandle) -> Result<(), ResultCode>;

    fn flush(&self, device_handle: DeviceHandle) -> Result<(), ResultCode>;

    fn restore(&self, device_handle: DeviceHandle) -> Result<(), ResultCode>;

    fn get_tag_info(
        &self,
        device_handle: DeviceHandle,
        out_tag_info: OutFixedPointerBuffer<TagInfo>,
    ) -> Result<(), ResultCode>;

    fn get_register_info(
        &self,
        device_handle: DeviceHandle,
        out_register_info: OutFixedPointerBuffer<RegisterInfo>,
    ) -> Result<(), ResultCode>;

    fn get_common_info(
        &self,
        device_handle: DeviceHandle,
        out_common_info: OutFixedPointerBuffer<CommonInfo>,
    ) -> Result<(), ResultCode>;

    fn get_model_info(
        &self,
        device_handle: DeviceHandle,
        out_model_info: OutFixedPointerBuffer<ModelInfo>,
    ) -> Result<(), ResultCode>;

    fn attach_activate_event(&self, device_handle: DeviceHandle) -> Result<CopyHandle, ResultCode>;

    fn attach_deactivate_event(
        &self,
        device_handle: DeviceHandle,
    ) -> Result<CopyHandle, ResultCode>;

    fn get_state(&self) -> Result<State, ResultCode>;

    fn get_device_state(&self, device_handle: DeviceHandle) -> Result<DeviceState, ResultCode>;

    fn get_npad_id(&self, device_handle: DeviceHandle) -> Result<hid::NpadIdType, ResultCode>;

    fn attach_availability_change_event(&self) -> Result<CopyHandle, ResultCode>;

    fn format(&self, device_handle: DeviceHandle) -> Result<(), ResultCode>;

    fn get_admin_info(
        &self,
        device_handle: DeviceHandle,
        out_admin_info: OutFixedPointerBuffer<AdminInfo>,
    ) -> Result<(), ResultCode>;

    fn get_register_info_private(
        &self,
        device_handle: DeviceHandle,
        out_register_info_private: OutFixedPointerBuffer<RegisterInfoPrivate>,
    ) -> Result<(), ResultCode>;

    fn set_register_info_private(
        &self,
        device_handle: DeviceHandle,
        register_info_private: InFixedPointerBuffer<RegisterInfoPrivate>,
    ) -> Result<(), ResultCode>;

    fn delete_register_info(&self, device_handle: DeviceHandle) -> Result<(), ResultCode>;

    fn delete_application_area(&self, device_handle: DeviceHandle) -> Result<(), ResultCode>;

    fn exists_application_area(&self, device_handle: DeviceHandle) -> Result<bool, ResultCode>;
}

/// The commands of the `SystemManager` interface, by request id.
#[derive(Copy, Clone, PartialEq, Eq, Structural, Debug)]
pub enum SystemManagerCommand {
    CreateSystemInterface,
}

impl SystemManagerCommand {
    /// The number that stands for the variant.
    pub open spec fn spec_value(self) -> u32 {
        match self {
            SystemManagerCommand::CreateSystemInterface => 0,
        }
    }

    /// The variant that `value` stands for, if it stands for one.
    pub open spec fn spec_from_value(value: u32) -> Option<Self> {
        if value == 0 {
            Some(SystemManagerCommand::CreateSystemInterface)
        } else {
            None
        }
    }

    pub fn value(self) -> (value: u32)
        ensures
            value == self.spec_value(),
    {
        match self {
            SystemManagerCommand::CreateSystemInterface => 0,
        }
    }

    /// The variant that `value` stands for, if it stands for one.
    pub fn from_value(value: u32) -> (variant: Option<Self>)
        ensures
            variant == Self::spec_from_value(value),
    {
        if value == 0 {
            Some(SystemManagerCommand::CreateSystemInterface)
        } else {
            None
        }
    }
}

/// The `SystemManager` interface: what a client of it can ask for.
pub trait SystemManager {
    fn create_system_interface(&self) -> Result<Session, ResultCode>;
}

/// The commands of the `Debug` interface, by request id.
#[derive(Copy, Clone, PartialEq, Eq, Structural, Debug)]
pub enum DebugCommand {
    Initialize,
    Finalize,
    ListDevices,
    StartDetection,
    StopDetection,
    Mount,
    Unmount,
    OpenApplicationArea,
    GetApplicationArea,
    SetApplicationArea,
    Flush,
    Restore,
    CreateApplicationArea,
    GetTagInfo,
    GetRegisterInfo,
    GetCommonInfo,
    GetModelInfo,
    AttachActivateEvent,
    AttachDeactivateEvent,
    GetState,
    GetDeviceState,
    GetNpadId,
    GetApplicationAreaSize,
    AttachAvailabilityChangeEvent,
    RecreateApplicationArea,
    Format,
    GetAdminInfo,
    GetRegisterInfoPrivate,
    SetRegisterInfoPrivate,
    DeleteRegisterInfo,
    DeleteApplicationArea,
    ExistsApplicationArea,
    GetAll,
    SetAll,
    FlushDebug,
    BreakTag,
    ReadBackupData,
    WriteBackupData,
    WriteNtf,
}

impl DebugCommand {
    /// The number that stands for the variant.
    pub open spec fn spec_value(self) -> u32 {
        match self {
            DebugCommand::Initialize => 0,
            DebugCommand::Finalize => 1,
            DebugCommand::ListDevices => 2,
            DebugCommand::StartDetection => 3,
            DebugCommand::StopDetection => 4,
            DebugCommand::Mount => 5,
            DebugCommand::Unmount => 6,
            DebugCommand::OpenApplicationArea => 7,
            DebugCommand::GetApplicationArea => 8,
            DebugCommand::SetApplicationArea => 9,
            DebugCommand::Flush => 0xa,
            DebugCommand::Restore => 0xb,
            DebugCommand::CreateApplicationArea => 0xc,
            DebugCommand::GetTagInfo => 0xd,
            DebugCommand::GetRegisterInfo => 0xe,
            DebugCommand::GetCommonInfo => 0xf,
            DebugCommand::GetModelInfo => 0x10,
            DebugCommand::AttachActivateEvent => 0x11,
            DebugCommand::AttachDeactivateEvent => 0x12,
            DebugCommand::GetState => 0x13,
            DebugCommand::GetDeviceState => 0x14,
            DebugCommand::GetNpadId => 0x15,
            DebugCommand::GetApplicationAreaSize => 0x16,
            DebugCommand::AttachAvailabilityChangeEvent => 0x17,
            DebugCommand::RecreateApplicationArea => 0x18,
            DebugCommand::Format => 0x64,
            DebugCommand::GetAdminInfo => 0x65,
            DebugCommand::GetRegisterInfoPrivate => 0x66,
            DebugCommand::SetRegisterInfoPrivate => 0x67,
            DebugCommand::DeleteRegisterInfo => 0x68,
            DebugCommand::DeleteApplicationArea => 0x69,
            DebugCommand::ExistsApplicationArea => 0x6a,
            DebugCommand::GetAll => 0xc8,
            DebugCommand::SetAll => 0xc9,
            DebugCommand::FlushDebug => 0xca,
            DebugCommand::BreakTag => 0xcb,
            DebugCommand::ReadBackupData => 0xcc,
            DebugCommand::WriteBackupData => 0xcd,
            DebugCommand::WriteNtf => 0xce,
        }
    }

    /// The variant that `value` stands for, if it stands for one.
    pub open spec fn spec_from_value(value: u32) -> Option<Self> {
        if value == 0 {
            Some(DebugCommand::Initialize)
        } else if value == 1 {
            Some(DebugCommand::Finalize)
        } else if value == 2 {
            Some(DebugCommand::ListDevices)
        } else if value == 3 {
            Some(DebugCommand::StartDetection)
        } else if value == 4 {
            Some(DebugCommand::StopDetection)
        } else if value == 5 {
            Some(DebugCommand::Mount)
        } else if value == 6 {
            Some(DebugCommand::Unmount)
        } else if value == 7 {
            Some(DebugCommand::OpenApplicationArea)
        } else if value == 8 {
            Some(DebugCommand::GetApplicationArea)
        } else if value == 9 {
            Some(DebugCommand::SetApplicationArea)
        } else if value == 0xa {
            Some(DebugCommand::Flush)
        } else if value == 0xb {
            Some(DebugCommand::Restore)
        } else if value == 0xc {
            Some(DebugCommand::CreateApplicationArea)
        } else if value == 0xd {
            Some(DebugCommand::GetTagInfo)
        } else if value == 0xe {
            Some(DebugCommand::GetRegisterInfo)
        } else if value == 0xf {
            Some(DebugCommand::GetCommonInfo)
        } else if value == 0x10 {
            Some(DebugCommand::GetModelInfo)
        } else if value == 0x11 {
            Some(DebugCommand::AttachActivateEvent)
        } else if value == 0x12 {
            Some(DebugCommand::AttachDeactivateEvent)
        } else if value == 0x13 {
            Some(DebugCommand::GetState)
        } else if value == 0x14 {
            Some(DebugCommand::GetDeviceState)
        } else if value == 0x15 {
            Some(DebugCommand::GetNpadId)
        } else if value == 0x16 {
            Some(DebugCommand::GetApplicationAreaSize)
        } else if value == 0x17 {
            Some(DebugCommand::AttachAvailabilityChangeEvent)
        } else if value == 0x18 {
            Some(DebugCommand::RecreateApplicationArea)
        } else if value == 0x64 {
            Some(DebugCommand::Format)
        } else if value == 0x65 {
            Some(DebugCommand::GetAdminInfo)
        } else if value == 0x66 {
            Some(DebugCommand::GetRegisterInfoPrivate)
        } else if value == 0x67 {
            Some(DebugCommand::SetRegisterInfoPrivate)
        } else if value == 0x68 {
            Some(DebugCommand::DeleteRegisterInfo)
        } else if value == 0x69 {
            Some(DebugCommand::DeleteApplicationArea)
        } else if value == 0x6a {
            Some(DebugCommand::ExistsApplicationArea)
        } else if value == 0xc8 {
            Some(DebugCommand::GetAll)
        } else if value == 0xc9 {
            Some(DebugCommand::SetAll)
        } else if value == 0xca {
            Some(DebugCommand::FlushDebug)
        } else if value == 0xcb {
            Some(DebugCommand::BreakTag)
        } else if value == 0xcc {
            Some(DebugCommand::ReadBackupData)
        } else if value == 0xcd {
            Some(DebugCommand::WriteBackupData)
        } else if value == 0xce {
            Some(DebugCommand::WriteNtf)
        } else {
            None
        }
    }

    pub fn value(self) -> (value: u32)
        ensures
            value == self.spec_value(),
    {
        match self {
            DebugCommand::Initialize => 0,
            DebugCommand::Finalize => 1,
            DebugCommand::ListDevices => 2,
            DebugCommand::StartDetection => 3,
            DebugCommand::StopDetection => 4,
            DebugCommand::Mount => 5,
            DebugCommand::Unmount => 6,
            DebugCommand::OpenApplicationArea => 7,
            DebugCommand::GetApplicationArea => 8,
            DebugCommand::SetApplicationArea => 9,
            DebugCommand::Flush => 0xa,
            DebugCommand::Restore => 0xb,
            DebugCommand::CreateApplicationArea => 0xc,
            DebugCommand::GetTagInfo => 0xd,
            DebugCommand::GetRegisterInfo => 0xe,
            DebugCommand::GetCommonInfo => 0xf,
            DebugCommand::GetModelInfo => 0x10,
            DebugCommand::AttachActivateEvent => 0x11,
            DebugCommand::AttachDeactivateEvent => 0x12,
            DebugCommand::GetState => 0x13,
            DebugCommand::GetDeviceState => 0x14,
            DebugCommand::GetNpadId => 0x15,
            DebugCommand::GetApplicationAreaSize => 0x16,
            DebugCommand::AttachAvailabilityChangeEvent => 0x17,
            DebugCommand::RecreateApplicationArea => 0x18,
            DebugCommand::Format => 0x64,
            DebugCommand::GetAdminInfo => 0x65,
            DebugCommand::GetRegisterInfoPrivate => 0x66,
            DebugCommand::SetRegisterInfoPrivate => 0x67,
            DebugCommand::DeleteRegisterInfo => 0x68,
            DebugCommand::DeleteApplicationArea => 0x69,
            DebugCommand::ExistsApplicationArea => 0x6a,
            DebugCommand::GetAll => 0xc8,
            DebugCommand::SetAll => 0xc9,
            DebugCommand::FlushDebug => 0xca,
            DebugCommand::BreakTag => 0xcb,
            DebugCommand::ReadBackupData => 0xcc,
            DebugCommand::WriteBackupData => 0xcd,
            DebugCommand::WriteNtf => 0xce,
        }
    }

    /// The variant that `value` stands for, if it stands for one.
    pub fn from_value(value: u32) -> (variant: Option<Self>)
        ensures
            variant == Self::spec_from_value(value),
    {
        if value == 0 {
            Some(DebugCommand::Initialize)
        } else if value == 1 {
            Some(DebugCommand::Finalize)
        } else if value == 2 {
            Some(DebugCommand::ListDevices)
        } else if value == 3 {
            Some(DebugCommand::StartDetection)
        } else if value == 4 {
            Some(DebugCommand::StopDetection)
        } else if value == 5 {
            Some(DebugCommand::Mount)
        } else if value == 6 {
            Some(DebugCommand::Unmount)
        } else if value == 7 {
            Some(DebugCommand::OpenApplicationArea)
        } else if value == 8 {
            Some(DebugCommand::GetApplicationArea)
        } else if value == 9 {
            Some(DebugCommand::SetApplicationArea)
        } else if value == 0xa {
            Some(DebugCommand::Flush)
        } else if value == 0xb {
            Some(DebugCommand::Restore)
        } else if value == 0xc {
            Some(DebugCommand::CreateApplicationArea)
        } else if value == 0xd {
            Some(DebugCommand::GetTagInfo)
        } else if value == 0xe {
            Some(DebugCommand::GetRegisterInfo)
        } else if value == 0xf {
            Some(DebugCommand::GetCommonInfo)
        } else if value == 0x10 {
            Some(DebugCommand::GetModelInfo)
        } else if value == 0x11 {
            Some(DebugCommand::AttachActivateEvent)
        } else if value == 0x12 {
            Some(DebugCommand::AttachDeactivateEvent)
        } else if value == 0x13 {
            Some(DebugCommand::GetState)
        } else if value == 0x14 {
            Some(DebugCommand::GetDeviceState)
        } else if value == 0x15 {
            Some(DebugCommand::GetNpadId)
        } else if value == 0x16 {
            Some(DebugCommand::GetApplicationAreaSize)
        } else if value == 0x17 {
            Some(DebugCommand::AttachAvailabilityChangeEvent)
        } else if value == 0x18 {
            Some(DebugCommand::RecreateApplicationArea)
        } else if value == 0x64 {
            Some(DebugCommand::Format)
        } else if value == 0x65 {
            Some(DebugCommand::GetAdminInfo)
        } else if value == 0x66 {
            Some(DebugCommand::GetRegisterInfoPrivate)
        } else if value == 0x67 {
            Some(DebugCommand::SetRegisterInfoPrivate)
        } else if value == 0x68 {
            Some(DebugCommand::DeleteRegisterInfo)
        } else if value == 0x69 {
            Some(DebugCommand::DeleteApplicationArea)
        } else if value == 0x6a {
            Some(DebugCommand::ExistsApplicationArea)
        } else if value == 0xc8 {
            Some(DebugCommand::GetAll)
        } else if value == 0xc9 {
            Some(DebugCommand::SetAll)
        } else if value == 0xca {
            Some(DebugCommand::FlushDebug)
        } else if value == 0xcb {
            Some(DebugCommand::BreakTag)
        } else if value == 0xcc {
            Some(DebugCommand::ReadBackupData)
        } else if value == 0xcd {
            Some(DebugCommand::WriteBackupData)
        } else if value == 0xce {
            Some(DebugCommand::WriteNtf)
        } else {
            None
        }
    }
}

impl DebugCommand {
    /// The first system version that knows the command, as major, minor
    /// and micro number; nothing where every version knows it.
    pub fn since(self) -> (version: Option<(u8, u8, u8)>)
        ensures
            version == match self {
                DebugCommand::AttachAvailabilityChangeEvent => Some((3u8, 0u8, 0u8)),
                DebugCommand::RecreateApplicationArea => Some((3u8, 0u8, 0u8)),
                _ => None,
            },
    {
        match self {
            DebugCommand::AttachAvailabilityChangeEvent => Some((3, 0, 0)),
            DebugCommand::RecreateApplicationArea => Some((3, 0, 0)),
            _ => None,
        }
    }
}

/// The `Debug` interface: what a client of it can ask for.
pub trait Debug {
    fn initialize(
        &self,
        aruid: AppletResourceUserId,
        process_id: ProcessId,
        mcu_data: InMapAliasBuffer<McuVersionData>,
    ) -> Result<(), ResultCode>;

    fn finalize(&self) -> Result<(), ResultCode>;

    fn list_devices(&self, out_devices: OutPointerBuffer<DeviceHandle>) -> Result<u32, ResultCode>;

    fn start_detection(&self, device_handle: DeviceHandle) -> Result<(), ResultCode>;

    fn stop_detection(&self, device_handle: DeviceHandle) -> Result<(), ResultCode>;

    fn mount(
        &self,
        device_handle: DeviceHandle,
        model_type: ModelType,
        mount_target: MountTarget,
    ) -> Result<(), ResultCode>;

    fn unmount(&self, device_handle: DeviceHandle) -> Result<(), ResultCode>;

    fn open_application_area(
        &self,
        device_handle: DeviceHandle,
        access_id: AccessId,
    ) -> Result<(), ResultCode>;

    fn get_application_area(
        &self,
        device_handle: DeviceHandle,
        out_data: OutMapAliasBuffer<u8>,
    ) -> Result<u32, ResultCode>;

    fn set_application_area(
        &self,
        device_handle: DeviceHandle,
        data: InMapAliasBuffer<u8>,
    ) -> Result<(), ResultCode>;

    fn flush(&self, device_handle: DeviceHandle) -> Result<(), ResultCode>;

    fn restore(&self, device_handle: DeviceHandle) -> Result<(), ResultCode>;

    fn create_application_area(
        &self,
        device_handle: DeviceHandle,
        access_id: AccessId,
        data: InMapAliasBuffer<u8>,
    ) -> Result<(), ResultCode>;

    fn get_tag_info(
        &self,
        device_handle: DeviceHandle,
        out_tag_info: OutFixedPointerBuffer<TagInfo>,
    ) -> Result<(), ResultCode>;

    fn get_register_info(
        &self,
        device_handle: DeviceHandle,
        out_register_info: OutFixedPointerBuffer<RegisterInfo>,
    ) -> Result<(), ResultCode>;

    fn get_common_info(
        &self,
        device_handle: DeviceHandle,
        out_common_info: OutFixedPointerBuffer<CommonInfo>,
    ) -> Result<(), ResultCode>;

    fn get_model_info(
        &self,
        device_handle: DeviceHandle,
        out_model_info: OutFixedPointerBuffer<ModelInfo>,
    ) -> Result<(), ResultCode>;

    fn attach_activate_event(&self, device_handle: DeviceHandle) -> Result<CopyHandle, ResultCode>;

    fn attach_deactivate_event(
        &self,
        device_handle: DeviceHandle,
    ) -> Result<CopyHandle, ResultCode>;

    fn get_state(&self) -> Result<State, ResultCode>;

    fn get_device_state(&self, device_handle: DeviceHandle) -> Result<DeviceState, ResultCode>;

    fn get_npad_id(&self, device_handle: DeviceHandle) -> Result<hid::NpadIdType, ResultCode>;

    fn get_application_area_size(&self, device_handle: DeviceHandle) -> Result<u32, ResultCode>;

    fn attach_availability_change_event(&self) -> Result<CopyHandle, ResultCode>;

    fn recreate_application_area(
        &self,
        device_handle: DeviceHandle,
        access_id: AccessId,
        data: InMapAliasBuffer<u8>,
    ) -> Result<(), ResultCode>;

    fn format(&self, device_handle: DeviceHandle) -> Result<(), ResultCode>;

    fn get_admin_info(
        &self,
        device_handle: DeviceHandle,
        out_admin_info: OutFixedPointerBuffer<AdminInfo>,
    ) -> Result<(), ResultCode>;

    fn get_register_info_private(
        &self,
        device_handle: DeviceHandle,
        out_register_info_private: OutFixedPointerBuffer<RegisterInfoPrivate>,
    ) -> Result<(), ResultCode>;

    fn set_register_info_private(
        &self,
        device_handle: DeviceHandle,
        register_info_private: InFixedPointerBuffer<RegisterInfoPrivate>,
    ) -> Result<(), ResultCode>;

    fn delete_register_info(&self, device_handle: DeviceHandle) -> Result<(), ResultCode>;

    fn delete_application_area(&self, device_handle: DeviceHandle) -> Result<(), ResultCode>;

    fn exists_application_area(&self, device_handle: DeviceHandle) -> Result<bool, ResultCode>;

    fn get_all(
        &self,
        device_handle: DeviceHandle,
        out_data: OutFixedPointerBuffer<NfpData>,
    ) -> Result<(), ResultCode>;

    fn set_all(
        &self,
        device_handle: DeviceHandle,
        data: InFixedPointerBuffer<NfpData>,
    ) -> Result<(), ResultCode>;

    fn flush_debug(&self, device_handle: DeviceHandle) -> Result<(), ResultCode>;

    fn break_tag(
        &self,
        device_handle: DeviceHandle,
        break_type: BreakType,
    ) -> Result<(), ResultCode>;

    fn read_backup_data(
        &self,
        device_handle: DeviceHandle,
        out_buf: OutMapAliasBuffer<u8>,
    ) -> Result<u32, ResultCode>;

    fn write_backup_data(
        &self,
        device_handle: DeviceHandle,
        buf: InMapAliasBuffer<u8>,
    ) -> Result<(), ResultCode>;

    fn write_ntf(
        &self,
        device_handle: DeviceHandle,
        write_type: WriteType,
        buf: InMapAliasBuffer<u8>,
    ) -> Result<(), ResultCode>;
}

/// The commands of the `DebugManager` interface, by request id.
#[derive(Copy, Clone, PartialEq, Eq, Structural, Debug)]
pub enum DebugManagerCommand {
    CreateDebugInterface,
}

impl DebugManagerCommand {
    /// The number that stands for the variant.
    pub open spec fn spec_value(self) -> u32 {
        match self {
            DebugManagerCommand::CreateDebugInterface => 0,
        }
    }

    /// The variant that `value` stands for, if it stands for one.
    pub open spec fn spec_from_value(value: u32) -> Option<Self> {
        if value == 0 {
            Some(DebugManagerCommand::CreateDebugInterface)
        } else {
            None
        }
    }

    pub fn value(self) -> (value: u32)
        ensures
            value == self.spec_value(),
    {
        match self {
            DebugManagerCommand::CreateDebugInterface => 0,
        }
    }

    /// The variant that `value` stands for, if it stands for one.
    pub fn from_value(value: u32) -> (variant: Option<Self>)
        ensures
            variant == Self::spec_from_value(value),
    {
        if value == 0 {
            Some(DebugManagerCommand::CreateDebugInterface)
        } else {
            None
        }
    }
}

/// The `DebugManager` interface: what a client of it can ask for.
pub trait DebugManager {
    fn create_debug_interface(&self) -> Result<Session, ResultCode>;
}
} // verus!
