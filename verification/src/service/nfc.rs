//! The NFC services by name.

use crate::ipc::sf::nfc::{MifareManager, SystemManager, UserManager};
use crate::ipc::sf::sm::ServiceName;
use crate::ipc::sf::Session;
use crate::result::ResultCode;
use crate::service::IService;
use vstd::prelude::*;
use vstd::string::StringSliceAdditionalSpecFns;

verus! {

impl IService for UserManager {
    open spec fn spec_name() -> Seq<u8> {
        "nfc:user".spec_bytes()
    }

    open spec fn spec_as_domain() -> bool {
        true
    }

    open spec fn spec_session(&self) -> Session {
        self.session
    }

    fn get_name() -> (name: ServiceName) {
        ServiceName::new("nfc:user")
    }

    fn as_domain() -> (b: bool) {
        true
    }

    fn post_initialize(&mut self) -> (r: Result<(), ResultCode>)
        ensures
            r.is_ok(),
            *final(self) == *old(self),
    {
        Ok(())
    }
}

impl IService for SystemManager {
    open spec fn spec_name() -> Seq<u8> {
        "nfc:sys".spec_bytes()
    }

    open spec fn spec_as_domain() -> bool {
        true
    }

    open spec fn spec_session(&self) -> Session {
        self.session
    }

    fn get_name() -> (name: ServiceName) {
        ServiceName::new("nfc:sys")
    }

    fn as_domain() -> (b: bool) {
        true
    }

    fn post_initialize(&mut self) -> (r: Result<(), ResultCode>)
        ensures
            r.is_ok(),
            *final(self) == *old(self),
    {
        Ok(())
    }
}

impl IService for MifareManager {
    open spec fn spec_name() -> Seq<u8> {
        "nfc:mf:u".spec_bytes()
    }

    open spec fn spec_as_domain() -> bool {
        true
    }

    open spec fn spec_session(&self) -> Session {
        self.session
    }

    fn get_name() -> (name: ServiceName) {
        ServiceName::new("nfc:mf:u")
    }

    fn as_domain() -> (b: bool) {
        true
    }

    fn post_initialize(&mut self) -> (r: Result<(), ResultCode>)
        ensures
            r.is_ok(),
            *final(self) == *old(self),
    {
        Ok(())
    }
}

} // verus!
