//! Services: how a service object names itself to the service manager.

use crate::ipc::sf::sm::ServiceName;
use crate::ipc::sf::Session;
use crate::result::ResultCode;
use vstd::prelude::*;

pub mod nfc;
pub mod psc;

verus! {

/// A service that is opened by name.
pub trait IService: Sized {
    /// The bytes of the name under which the service is registered.
    spec fn spec_name() -> Seq<u8>;

    /// Whether the session is turned into a domain once it is open.
    spec fn spec_as_domain() -> bool;

    /// The session of the service.
    spec fn spec_session(&self) -> Session;

    /// The name under which the service is registered.
    fn get_name() -> (name: ServiceName)
        ensures
            name.name@ == ServiceName::bytes_of(Self::spec_name()),
    ;

    /// Whether the session is turned into a domain once it is open.
    fn as_domain() -> (b: bool)
        ensures
            b == Self::spec_as_domain(),
    ;

    /// What the service does once its session is open.
    fn post_initialize(&mut self) -> (r: Result<(), ResultCode>)
        ensures
            r.is_ok() ==> final(self).spec_session().object_info == old(self).spec_session().object_info,
    ;
}

} // verus!
