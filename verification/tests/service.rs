use nx::ipc::sf::dispdrv::{NativeHandleType, ParcelTransactionId, RefcountType};
use nx::ipc::sf::nfc::{
    DeviceState, MifareCommand, MifareManager, State, SystemManager, UserManager,
};
use nx::ipc::sf::nfp::{
    AdminInfoFlags, ApplicationAreaVersion, BreakType, ConsoleFamily, ModelType, MountTarget,
    NfpData, RegisterInfo, WriteType,
};
use nx::ipc::sf::sm::ServiceName;
use nx::ipc::sf::vi::{DisplayServiceMode, LayerStackId, ScalingMode};
use nx::ipc::sf::{AppletResourceUserId, CopyHandle, MoveHandle, PrimitiveEnum, ProcessId, Session};
use nx::service::psc::PmService;
use nx::service::IService;

#[test]
fn service_name_is_eight_zero_filled_bytes() {
    assert_eq!(ServiceName::new("nfc:user").name, *b"nfc:user");
    assert_eq!(ServiceName::new("psc:m").name, *b"psc:m\0\0\0");
    assert_eq!(ServiceName::new("a-name-that-is-too-long").name, *b"a-name-t");
    assert_eq!(ServiceName::new("").name, [0u8; 8]);
    assert!(ServiceName::empty().is_empty());
    assert!(!ServiceName::new("sm:").is_empty());
}

#[test]
fn nfc_services_are_opened_by_name_as_domains() {
    assert_eq!(UserManager::get_name(), ServiceName::new("nfc:user"));
    assert_eq!(SystemManager::get_name(), ServiceName::new("nfc:sys"));
    assert_eq!(MifareManager::get_name(), ServiceName::new("nfc:mf:u"));
    assert!(UserManager::as_domain());
    assert!(SystemManager::as_domain());
    assert!(MifareManager::as_domain());
    let mut service = UserManager { session: Session::from_handle(5) };
    assert_eq!(service.post_initialize(), Ok(()));
    assert_eq!(service.session.object_info.handle, 5);
    let mut system = SystemManager { session: Session::from_handle(6) };
    assert!(system.post_initialize().is_ok());
    let mut mifare = MifareManager { session: Session::from_handle(7) };
    assert!(mifare.post_initialize().is_ok());
}

#[test]
fn psc_service_is_opened_by_name_as_a_domain() {
    assert_eq!(PmService::get_name().name, *b"psc:m\0\0\0");
    assert!(PmService::as_domain());
    let mut service = PmService { session: Session::from_handle(5) };
    assert_eq!(service.post_initialize(), Ok(()));
    assert_eq!(service.session.object_info.handle, 5);
}

#[test]
fn command_enums_have_their_numbers() {
    assert_eq!(RefcountType::Strong.value(), 1);
    assert_eq!(ParcelTransactionId::RequestBuffer.value(), 1);
    assert_eq!(ParcelTransactionId::SetPreallocatedBuffer.value(), 14);
    assert_eq!(ParcelTransactionId::from_value(0), None);
    assert_eq!(NativeHandleType::BufferEvent.value(), 0xF);
    assert_eq!(State::Initialized.value(), 1);
    assert_eq!(DeviceState::Finalized.value(), 6);
    assert_eq!(DeviceState::from_value(7), None);
    assert_eq!(MifareCommand::Store.value(), 0xC2);
    assert_eq!(MifareCommand::from_value(0xA0), Some(MifareCommand::Write));
    assert_eq!(ModelType::Amiibo.value(), 0);
    assert_eq!(ApplicationAreaVersion::NintendoSwitch.value(), 3);
    assert_eq!(ApplicationAreaVersion::default(), ApplicationAreaVersion::Default);
    assert_eq!(ConsoleFamily::Nintendo3DS.value(), 2);
    assert_eq!(BreakType::BreakHeaderMagic.value(), 2);
    assert_eq!(WriteType::Unk1.value(), 1);
    assert_eq!(ScalingMode::NoScaling.value(), 0);
    assert_eq!(ScalingMode::FitToLayer.value(), 2);
    assert_eq!(ScalingMode::PreserveAspectRatio.value(), 4);
    assert_eq!(ScalingMode::from_value(1), None);
    assert_eq!(ScalingMode::default(), ScalingMode::FitToLayer);
    assert_eq!(DisplayServiceMode::Privileged.value(), 1);
    assert_eq!(LayerStackId::Null.value(), 7);
    assert_eq!(LayerStackId::default(), LayerStackId::Default);
    assert_eq!(<MifareCommand as PrimitiveEnum<u8>>::to_primitive(MifareCommand::AuthA), 0x60);
    assert_eq!(<LayerStackId as PrimitiveEnum<u32>>::from_primitive(2), Some(LayerStackId::Screenshot));
}

#[test]
fn handles_and_process_ids_hold_what_they_are_given() {
    assert_eq!(CopyHandle::from(5).handle, 5);
    assert_eq!(MoveHandle::from(6).handle, 6);
    assert_eq!(ProcessId::new().process_id, 0);
    assert_eq!(ProcessId::from(77).process_id, 77);
    assert_eq!(ProcessId::default(), ProcessId::new());
    let aruid = AppletResourceUserId::new(0x55);
    assert_eq!((aruid.process_id, aruid.aruid), (0, 0x55));
    let both = AppletResourceUserId::from(1, 2);
    assert_eq!((both.process_id, both.aruid), (1, 2));
    let global = AppletResourceUserId::from_global(0x99);
    assert_eq!((global.process_id, global.aruid), (0, 0x99));
    assert_eq!(AppletResourceUserId::default(), AppletResourceUserId::new(0));
}

#[test]
fn applet_resource_user_id_is_zero_or_the_own_process_id() {
    assert!(AppletResourceUserId::new(0).is_permitted_for(0x55));
    assert!(AppletResourceUserId::new(0x55).is_permitted_for(0x55));
    assert!(!AppletResourceUserId::new(0x56).is_permitted_for(0x55));
    assert!(AppletResourceUserId::from(0x56, 0).is_permitted_for(0x55));
    assert_eq!(AppletResourceUserId::new_checked(0, 0x55), Some(AppletResourceUserId::new(0)));
    assert_eq!(AppletResourceUserId::new_checked(0x55, 0x55), Some(AppletResourceUserId::new(0x55)));
    assert_eq!(AppletResourceUserId::new_checked(0x56, 0x55), None);
    let name = nx::ipc::sf::vi::DisplayName::from_str("Default");
    assert_eq!(name.len(), 7);
    assert_eq!(&name.c_str[..8], b"Default\0");
}

#[test]
fn layouts_take_their_bytes() {
    assert_eq!(nx::ipc::sf::nfc::DeviceHandle::WIRE_SIZE, 8);
    assert_eq!(nx::ipc::sf::nfc::TagInfo::WIRE_SIZE, 0x58);
    assert_eq!(nx::ipc::sf::nfp::Date::WIRE_SIZE, 4);
    assert_eq!(RegisterInfo::WIRE_SIZE, 0x100);
    assert_eq!(NfpData::WIRE_SIZE, 0x298);
}

#[test]
fn flag_sets_combine() {
    let both = MountTarget::from(MountTarget::Rom().get() | MountTarget::Ram().get());
    assert_eq!(both.get(), 3);
    assert!(both.contains(MountTarget::Ram()));
    assert!(!MountTarget::Rom().contains(MountTarget::Ram()));
    assert!(AdminInfoFlags::from(3).contains(AdminInfoFlags::HasApplicationArea()));
    assert_eq!(AdminInfoFlags::IsInitialized().get(), 1);
}
