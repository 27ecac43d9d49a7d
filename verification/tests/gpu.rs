use nx::gpu::rc::{
    ResultNvErrorCodeBusy, ResultNvErrorCodeInvalid, ResultNvErrorCodeIoctlFailed,
    ResultNvErrorCodeNotImplemented, ResultNvErrorCodeSharedMemoryTooSmall,
    ResultNvErrorCodeTimeOut,
};
use nx::gpu::{
    Fence, MultiFence, Plane, QueueBufferInput, Rect,
    convert_nv_error_code, BlockLinearHeights, ColorFormat, ConnectionApi, Context, ContextSetup,
    DevicePath, DisconnectMode, DisplayScanFormat, GraphicBuffer, GraphicBufferHeader,
    GraphicsAllocatorUsage, Kind, Layout, NvDrvServiceKind, PixelFormat, QueueBufferOutput,
    RootServiceHolder, SetupAction, SetupEvent, SetupStage, Teardown, Transform, ViServiceKind,
    SCREEN_HEIGHT, SCREEN_WIDTH,
};
use nx::ipc::sf::nv::ErrorCode;
use nx::ipc::sf::vi::DisplayServiceMode;
use nx::ipc::sf::Session;
use nx::result::{ResultBase, ResultCode};

#[test]
fn bytes_per_pixel_is_the_bpp_field() {
    assert_eq!(ColorFormat::A8B8G8R8.bytes_per_pixel(), 4);
    assert_eq!(ColorFormat::R5G6B5.bytes_per_pixel(), 2);
    assert_eq!(ColorFormat::A16B16G16R16.bytes_per_pixel(), 8);
    assert_eq!(ColorFormat::R8_G8_B8.bytes_per_pixel(), 3);
    assert_eq!(ColorFormat::NonColor8.bytes_per_pixel(), 1);
    assert_eq!(ColorFormat::A1.bytes_per_pixel(), 0);
    assert_eq!(ColorFormat::Unspecified.bytes_per_pixel(), 0);
    assert_eq!(ColorFormat::XYZ.bytes_per_pixel(), 8);
}

#[test]
fn color_formats_have_their_numbers() {
    assert_eq!(ColorFormat::A8B8G8R8.value(), 0x0100532120);
    assert_eq!(ColorFormat::XYZ.value(), 0x140A886640);
    assert_eq!(ColorFormat::from_value(0x010A881210), Some(ColorFormat::R5G6B5));
    assert_eq!(ColorFormat::from_value(1), None);
    assert_eq!(ColorFormat::default(), ColorFormat::Unspecified);
}

#[test]
fn kinds_have_their_numbers() {
    assert_eq!(Kind::Pitch.value(), 0);
    assert_eq!(Kind::C32_MS2_2CRA.value(), 0xcc);
    assert_eq!(Kind::Generic_16BX2.value(), 0xfe);
    assert_eq!(Kind::Invalid.value(), 0xff);
    assert_eq!(Kind::from_value(0xfe), Some(Kind::Generic_16BX2));
    assert_eq!(Kind::from_value(0x2c), None);
    assert_eq!(Kind::from_value(0x100), None);
    let mut found = 0;
    for value in 0..=0xffu32 {
        if let Some(kind) = Kind::from_value(value) {
            assert_eq!(kind.value(), value);
            found += 1;
        }
    }
    assert_eq!(found, 233);
}

#[test]
fn small_enums_have_their_numbers() {
    assert_eq!(Layout::BlockLinear.value(), 3);
    assert_eq!(Layout::default(), Layout::Invalid);
    assert_eq!(DisplayScanFormat::Interlaced.value(), 1);
    assert_eq!(PixelFormat::YV12.value(), 0x32315659);
    assert_eq!(PixelFormat::from_value(17), Some(PixelFormat::YCRB_420_SP));
    assert_eq!(PixelFormat::from_value(8), None);
    assert_eq!(ConnectionApi::Camera.value(), 4);
    assert_eq!(ConnectionApi::from_value(-1), None);
    assert_eq!(DisconnectMode::AllLocal.value(), 1);
    assert_eq!(Transform::Rotate90.value(), 4);
    assert_eq!(Transform::Rotate180.value(), 3);
    assert_eq!(Transform::from_value(7), Some(Transform::Rotate270));
    assert_eq!(Transform::from_value(5), None);
    assert_eq!(SCREEN_WIDTH, 1280);
    assert_eq!(SCREEN_HEIGHT, 720);
    assert_eq!(GraphicBufferHeader::MAGIC, u32::from_be_bytes(*b"GBFR"));
    assert_eq!(GraphicBuffer::MAGIC, 0xDAFFCAFF);
}

#[test]
fn block_heights_are_powers_of_two() {
    let all = [
        (BlockLinearHeights::OneGob, 0, 1),
        (BlockLinearHeights::TwoGobs, 1, 2),
        (BlockLinearHeights::FourGobs, 2, 4),
        (BlockLinearHeights::EightGobs, 3, 8),
        (BlockLinearHeights::SixteenGobs, 4, 16),
        (BlockLinearHeights::ThirtyTwoGobs, 5, 32),
    ];
    for (height, log2, gobs) in all {
        assert_eq!(height.block_height_log2(), log2);
        assert_eq!(height.block_height(), gobs);
        assert_eq!(height.block_height_bytes(), 8 * gobs);
    }
    assert_eq!(BlockLinearHeights::default(), BlockLinearHeights::SixteenGobs);
}

#[test]
fn queue_buffer_output_starts_empty() {
    let out = QueueBufferOutput::new();
    assert_eq!(out, QueueBufferOutput { width: 0, height: 0, transform_hint: 0, pending_buffer_count: 0 });
}

#[test]
fn usage_flags_combine() {
    let usage = GraphicsAllocatorUsage::from(
        GraphicsAllocatorUsage::HardwareComposer().get()
            | GraphicsAllocatorUsage::HardwareRender().get()
            | GraphicsAllocatorUsage::HardwareTexture().get(),
    );
    assert_eq!(usage.get(), 0xB00);
    assert!(usage.contains(GraphicsAllocatorUsage::HardwareRender()));
    assert!(!usage.contains(GraphicsAllocatorUsage::HardwareCursor()));
    assert_eq!(GraphicsAllocatorUsage::HardwareMask().get(), 0x71F00);
    assert_eq!(GraphicsAllocatorUsage::default().get(), 0);
}

#[test]
fn driver_error_codes_become_results() {
    assert_eq!(convert_nv_error_code(ErrorCode::Success), Ok(()));
    assert_eq!(convert_nv_error_code(ErrorCode::NotImplemented), Err(ResultNvErrorCodeNotImplemented::make()));
    assert_eq!(convert_nv_error_code(ErrorCode::TimeOut), Err(ResultNvErrorCodeTimeOut::make()));
    assert_eq!(convert_nv_error_code(ErrorCode::Busy), Err(ResultNvErrorCodeBusy::make()));
    assert_eq!(
        convert_nv_error_code(ErrorCode::SharedMemoryTooSmall),
        Err(ResultNvErrorCodeSharedMemoryTooSmall::make())
    );
    assert_eq!(convert_nv_error_code(ErrorCode::IoctlFailed), Err(ResultNvErrorCodeIoctlFailed::make()));
    assert_eq!(convert_nv_error_code(ErrorCode::AccessDenied), Err(ResultNvErrorCodeInvalid::make()));
    assert_eq!(convert_nv_error_code(ErrorCode::FileNotFound), Err(ResultNvErrorCodeInvalid::make()));
    assert_eq!(convert_nv_error_code(ErrorCode::ModuleNotPresent), Err(ResultNvErrorCodeInvalid::make()));
    assert_eq!(
        convert_nv_error_code(ErrorCode::DirectoryOperationFailed),
        Err(ResultNvErrorCodeInvalid::make())
    );
    assert_eq!(ResultNvErrorCodeInvalid::make().get_module(), 430);
    assert_eq!(ResultNvErrorCodeInvalid::make().get_description(), 501);
    assert_eq!(ResultNvErrorCodeIoctlFailed::make().get_description(), 519);
    assert_eq!(ErrorCode::IoctlFailed.value(), 0x3000F);
    assert_eq!(ErrorCode::from_value(12), None);
}

#[test]
fn context_plan_follows_the_kinds() {
    let plan = Context::new(NvDrvServiceKind::Application, ViServiceKind::Application, 0x8000);
    assert_eq!(plan.display_service_mode, DisplayServiceMode::User);
    assert!(plan.nv_host_as_gpu);
    assert_eq!(plan.transfer_mem_size, 0x8000);
    let plan = Context::new(NvDrvServiceKind::Applet, ViServiceKind::Manager, 1);
    assert_eq!(plan.display_service_mode, DisplayServiceMode::Privileged);
    assert!(plan.nv_host_as_gpu);
    assert_eq!(plan.vi_kind, ViServiceKind::Manager);
    let plan = Context::new(NvDrvServiceKind::System, ViServiceKind::System, 1);
    assert_eq!(plan.display_service_mode, DisplayServiceMode::Privileged);
    assert!(!plan.nv_host_as_gpu);
    assert_eq!(plan.nv_kind, NvDrvServiceKind::System);
}

fn run(setup: ContextSetup, events: &[SetupEvent]) -> (ContextSetup, SetupAction) {
    let mut state = setup;
    let mut action = SetupAction::Finish;
    for event in events {
        let (next, next_action) = state.advance(*event);
        state = next;
        action = next_action;
    }
    (state, action)
}

fn opened(fd: u32) -> SetupEvent {
    SetupEvent::DeviceOpened { fd, error: ErrorCode::Success }
}

#[test]
fn setup_goes_through_its_steps_in_order() {
    let (setup, first) = ContextSetup::begin(0x1_0000_8000, true);
    assert_eq!(first, SetupAction::AllocateMemory { size: 0x1_0000_8000 });
    assert_eq!(setup.stage, SetupStage::AllocateMemory);
    let (setup, action) = setup.advance(SetupEvent::Allocated(0x7000_0000));
    assert_eq!(action, SetupAction::CreateTransferMemory { address: 0x7000_0000, size: 0x1_0000_8000 });
    let (setup, action) = setup.advance(SetupEvent::TransferMemoryCreated(0x42));
    assert_eq!(
        action,
        SetupAction::InitializeDriver {
            transfer_mem_size: 0x8000,
            process_handle: 0xFFFF8001,
            transfer_mem_handle: 0x42
        }
    );
    let (setup, action) = setup.advance(SetupEvent::DriverInitialized);
    assert_eq!(action, SetupAction::OpenDevice(DevicePath::NvHostAsGpu));
    let (setup, action) = setup.advance(opened(3));
    assert_eq!(action, SetupAction::OpenDevice(DevicePath::NvMap));
    let (setup, action) = setup.advance(opened(4));
    assert_eq!(action, SetupAction::OpenDevice(DevicePath::NvHostCtrl));
    let (setup, action) = setup.advance(opened(5));
    assert_eq!(action, SetupAction::GetRelayService);
    let (setup, action) = setup.advance(SetupEvent::RelayServiceOpened);
    assert_eq!(action, SetupAction::Finish);
    assert_eq!(setup.stage, SetupStage::Done);
    assert_eq!((setup.nvhost_fd, setup.nvmap_fd, setup.nvhostctrl_fd), (3, 4, 5));
    assert_eq!(setup.transfer_mem_handle, 0x42);
    assert_eq!(setup.transfer_mem_address, 0x7000_0000);

    let context = Context::from(
        RootServiceHolder::Application(Session::from_handle(1)),
        Session::from_handle(2),
        Session::from_handle(3),
        Session::from_handle(4),
        setup,
    );
    assert_eq!(context.nvdrv_service().object_info.handle, 3);
    assert_eq!(context.get_application_display_service().object_info.handle, 2);
    assert_eq!(context.get_hos_binder_driver().object_info.handle, 4);
    assert_eq!(
        context.teardown(),
        Teardown {
            in_driver: true,
            nvhost_fd: 3,
            nvmap_fd: 4,
            nvhostctrl_fd: 5,
            close_transfer_mem_handle: true,
            transfer_mem_handle: 0x42,
            release_must_succeed: true,
            reclaim_memory: true,
        }
    );
    let mut context = context;
    context.nvdrv_service_mut().object_info.handle = 30;
    context.get_application_display_service_mut().object_info.handle = 20;
    assert_eq!(context.nvdrv_service().object_info.handle, 30);
    assert_eq!(context.get_application_display_service().object_info.handle, 20);
}

#[test]
fn system_driver_skips_the_gpu() {
    let (setup, _) = ContextSetup::begin(0x8000, false);
    let (setup, action) = run(
        setup,
        &[SetupEvent::Allocated(0x1000), SetupEvent::TransferMemoryCreated(7), SetupEvent::DriverInitialized],
    );
    assert_eq!(action, SetupAction::OpenDevice(DevicePath::NvMap));
    assert_eq!(setup.stage, SetupStage::OpenMap);
    let (setup, action) = run(setup, &[opened(8), opened(9)]);
    assert_eq!(action, SetupAction::GetRelayService);
    assert_eq!((setup.nvhost_fd, setup.nvmap_fd, setup.nvhostctrl_fd), (0, 8, 9));
}

#[test]
fn early_failure_has_nothing_to_undo() {
    let rc = ResultCode::new(0x1234);
    let nothing = Teardown {
        in_driver: false,
        nvhost_fd: 0,
        nvmap_fd: 0,
        nvhostctrl_fd: 0,
        close_transfer_mem_handle: false,
        transfer_mem_handle: 0,
        release_must_succeed: false,
        reclaim_memory: false,
    };
    let (setup, _) = ContextSetup::begin(0x8000, true);
    let (failed, action) = setup.advance(SetupEvent::Failed(rc));
    assert_eq!(action, SetupAction::Abort { error: rc, teardown: nothing });
    assert_eq!(failed.stage, SetupStage::Failed);
    let (failed, action) = run(setup, &[SetupEvent::Allocated(0x1000), SetupEvent::Failed(rc)]);
    assert_eq!(action, SetupAction::Abort { error: rc, teardown: nothing });
    assert_eq!(failed.stage, SetupStage::Failed);
}

#[test]
fn driver_refusal_releases_the_transfer_memory() {
    let rc = ResultCode::new(0x1234);
    let (setup, _) = ContextSetup::begin(0x8000, true);
    let (_, action) = run(
        setup,
        &[SetupEvent::Allocated(0x1000), SetupEvent::TransferMemoryCreated(7), SetupEvent::Failed(rc)],
    );
    assert_eq!(
        action,
        SetupAction::Abort {
            error: rc,
            teardown: Teardown {
                in_driver: false,
                nvhost_fd: 0,
                nvmap_fd: 0,
                nvhostctrl_fd: 0,
                close_transfer_mem_handle: true,
                transfer_mem_handle: 7,
                release_must_succeed: false,
                reclaim_memory: true,
            }
        }
    );
}

#[test]
fn late_failure_closes_what_was_opened() {
    let (setup, _) = ContextSetup::begin(0x8000, true);
    let (setup, _) = run(
        setup,
        &[
            SetupEvent::Allocated(0x1000),
            SetupEvent::TransferMemoryCreated(7),
            SetupEvent::DriverInitialized,
            opened(3),
        ],
    );
    let (failed, action) = setup.advance(SetupEvent::DeviceOpened { fd: 99, error: ErrorCode::Busy });
    assert_eq!(failed.stage, SetupStage::Failed);
    assert_eq!(
        action,
        SetupAction::Abort {
            error: ResultNvErrorCodeBusy::make(),
            teardown: Teardown {
                in_driver: true,
                nvhost_fd: 3,
                nvmap_fd: 0,
                nvhostctrl_fd: 0,
                close_transfer_mem_handle: true,
                transfer_mem_handle: 7,
                release_must_succeed: true,
                reclaim_memory: true,
            }
        }
    );
    let (setup, _) = run(setup, &[opened(4), opened(5)]);
    let rc = ResultCode::new(0xAB);
    let (_, action) = setup.advance(SetupEvent::Failed(rc));
    match action {
        SetupAction::Abort { error, teardown } => {
            assert_eq!(error, rc);
            assert_eq!((teardown.nvhost_fd, teardown.nvmap_fd, teardown.nvhostctrl_fd), (3, 4, 5));
            assert!(teardown.in_driver && teardown.release_must_succeed);
        }
        other => panic!("unexpected action {:?}", other),
    }
}

#[test]
fn device_paths_are_terminated() {
    assert_eq!(DevicePath::NvHostAsGpu.as_str(), "/dev/nvhost-as-gpu\0");
    assert_eq!(DevicePath::NvMap.as_str(), "/dev/nvmap\0");
    assert_eq!(DevicePath::NvHostCtrl.as_str(), "/dev/nvhost-ctrl\0");
}

#[test]
fn service_kinds_have_their_names() {
    assert_eq!(NvDrvServiceKind::Application.service_name(), "nvdrv");
    assert_eq!(NvDrvServiceKind::Applet.service_name(), "nvdrv:a");
    assert_eq!(NvDrvServiceKind::System.service_name(), "nvdrv:s");
    assert_eq!(ViServiceKind::Application.service_name(), "vi:u");
    assert_eq!(ViServiceKind::System.service_name(), "vi:s");
    assert_eq!(ViServiceKind::Manager.service_name(), "vi:m");
}

#[test]
fn layouts_start_zeroed() {
    assert_eq!(QueueBufferOutput::default(), QueueBufferOutput::new());
    assert_eq!(Fence::default(), Fence { id: 0, value: 0 });
    assert_eq!(Rect::default(), Rect { left: 0, top: 0, right: 0, bottom: 0 });
    let fences = MultiFence::default();
    assert_eq!(fences.fence_count, 0);
    assert_eq!(fences.fences, [Fence { id: 0, value: 0 }; 4]);
    let plane = Plane::default();
    assert_eq!(plane.color_format, ColorFormat::Unspecified);
    assert_eq!(plane.layout, Layout::Invalid);
    assert_eq!(plane.kind, Kind::Pitch);
    assert_eq!(plane.block_height_log2, BlockLinearHeights::SixteenGobs);
    assert_eq!(plane.display_scan_format, DisplayScanFormat::Progressive);
    assert_eq!((plane.width, plane.height, plane.pitch, plane.size, plane.flags), (0, 0, 0, 0, 0));
    assert_eq!(plane.unk, [0; 6]);
    let header = GraphicBufferHeader::default();
    assert_eq!(header.pixel_format, PixelFormat::Invalid);
    assert_eq!(header.gfx_alloc_usage, GraphicsAllocatorUsage::from(0));
    assert_eq!((header.magic, header.width, header.buffer_size), (0, 0, 0));
    let buffer = GraphicBuffer::default();
    assert_eq!(buffer.header, header);
    assert_eq!(buffer.planes, [plane; 3]);
    assert_eq!((buffer.unknown, buffer.magic, buffer.unused), (0, 0, 0));
    let input = QueueBufferInput::default();
    assert_eq!(input.transform, Transform::Invalid);
    assert_eq!(input.crop, Rect::default());
    assert_eq!(input.fences, fences);
    assert_eq!((input.timestamp, input.is_auto_timestamp, input.swap_interval), (0, 0, 0));
    assert_eq!(nx::ipc::sf::nfc::DeviceHandle::default(), nx::ipc::sf::nfc::DeviceHandle { id: 0, reserved: [0; 4] });
    assert_eq!(nx::ipc::sf::nfp::DeviceHandle::default().id, 0);
    assert_eq!(nx::ipc::sf::nfp::Date::default(), nx::ipc::sf::nfp::Date { year: 0, month: 0, day: 0 });
    let version = nx::ipc::sf::nfp::McuVersionData::default();
    assert_eq!((version.version, version.reserved), (0, [0; 0x18]));
}
