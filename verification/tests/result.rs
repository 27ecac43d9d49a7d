use nx::ipc::cmif::rc::ResultInvalidOutputHeader;
use nx::ipc::rc::{ResultInvalidBufferAttributes, ResultInvalidBufferPointer};
use nx::ipc::sf::nfc::rc::{ResultDeviceNotFound, ResultMifareAccessError};
use nx::result::{ResultBase, ResultCode, ResultSuccess};
use nx::thread::rc::{ResultInvalidPriority, ResultInvalidStack, ResultInvalidState};

#[test]
fn result_code_packs_module_and_description() {
    let rc = ResultCode::new(430 + (618 << 9));
    assert_eq!(rc.get_module(), 430);
    assert_eq!(rc.get_description(), 618);
    assert_eq!(rc.get_value(), 430 + (618 << 9));
    assert!(rc.is_failure());
    assert!(!rc.is_success());
    let top = ResultCode::new(u32::MAX);
    assert_eq!(top.get_module(), 511);
    assert_eq!(top.get_description(), 8191);
}

#[test]
fn success_is_zero() {
    assert_eq!(ResultSuccess::make(), ResultCode::new(0));
    assert!(ResultSuccess::make().is_success());
    assert!(ResultSuccess::matches(ResultCode::new(0)));
    assert!(!ResultSuccess::matches(ResultCode::new(1)));
}

#[test]
fn named_results_have_their_numbers() {
    assert_eq!(ResultInvalidBufferPointer::get_module(), 430);
    assert_eq!(ResultInvalidBufferPointer::get_description(), 618);
    assert_eq!(ResultInvalidBufferPointer::get_value(), 430 + (618 << 9));
    assert_eq!(ResultInvalidBufferPointer::make(), ResultCode::new(430 + (618 << 9)));
    assert_eq!(ResultInvalidBufferPointer::make_err::<u8>(), Err(ResultCode::new(430 + (618 << 9))));
    assert!(ResultInvalidBufferPointer::matches(ResultInvalidBufferPointer::make()));
    assert!(!ResultInvalidBufferPointer::matches(ResultInvalidBufferAttributes::make()));
    assert_eq!(ResultInvalidOutputHeader::make(), ResultCode::new(10 + (212 << 9)));
}

#[test]
fn thread_results_stand_in_their_submodule() {
    assert_eq!(ResultInvalidStack::get_description(), 901);
    assert_eq!(ResultInvalidState::get_description(), 902);
    assert_eq!(ResultInvalidPriority::get_description(), 1012);
    assert_eq!(ResultInvalidPriority::get_module(), 430);
    assert_eq!(nx::thread::rc::RESULT_SUBMODULE, 900);
}

#[test]
fn nfc_results_stand_in_their_module() {
    assert_eq!(ResultDeviceNotFound::make(), ResultCode::new(161 + (64 << 9)));
    assert_eq!(ResultMifareAccessError::make().get_description(), 288);
    assert_eq!(nx::ipc::sf::nfc::rc::RESULT_MODULE, 161);
}
