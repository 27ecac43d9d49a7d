//! The power state control service by name.

use crate::ipc::sf::sm::ServiceName;
use crate::ipc::sf::Session;
use crate::result::ResultCode;
use crate::service::IService;
use vstd::prelude::*;
use vstd::string::StringSliceAdditionalSpecFns;

verus! {

/// The power state control service for modules.
#[derive(Debug)]
pub struct PmService {
    pub session: Session,
}

impl IService for PmService {
    open spec fn spec_name() -> Seq<u8> {
        "psc:m".spec_bytes()
    }

    open spec fn spec_as_domain() -> bool {
        true
    }

    open spec fn spec_session(&self) -> Session {
        self.session
    }

    fn get_name() -> (name: ServiceName) {
        ServiceName::new("psc:m")
    }

    fn as_domain() -> (b: bool) {
        true
    }

    fn post_initialize(&mut self) -> (r: Result<(), ResultCode>)
        ensures
            r.is_ok(),
            *final(self) == *old(self),
    {
        Ok(())
    }
}

} // verus!
