//! Result codes: a module number and a description number packed into 32 bits.

use vstd::prelude::*;

verus! {

/// Number of distinct module values (the module takes the low 9 bits).
pub const MODULE_LIMIT: u32 = 512;

/// Number of distinct description values (the description takes the next 13 bits).
pub const DESCRIPTION_LIMIT: u32 = 8192;

/// The packed value of a module and a description.
pub open spec fn pack(module: u32, description: u32) -> u32
    recommends
        module < MODULE_LIMIT,
        description < DESCRIPTION_LIMIT,
{
    (module + description * MODULE_LIMIT) as u32
}

/// A result value as it travels over the wire. Zero is success.
#[derive(Copy, Clone, PartialEq, Eq, Structural, Debug)]
pub struct ResultCode {
    pub value: u32,
}

impl ResultCode {
    /// The module number: the low 9 bits.
    pub open spec fn module(&self) -> u32 {
        self.value % MODULE_LIMIT
    }

    /// The description number: the 13 bits above the module.
    pub open spec fn description(&self) -> u32 {
        (self.value / MODULE_LIMIT) % DESCRIPTION_LIMIT
    }

    pub fn new(value: u32) -> (rc: Self)
        ensures
            rc.value == value,
    {
        Self { value }
    }

    pub fn is_success(&self) -> (b: bool)
        ensures
            b == (self.value == 0),
    {
        self.value == 0
    }

    pub fn is_failure(&self) -> (b: bool)
        ensures
            b == (self.value != 0),
    {
        self.value != 0
    }

    pub fn get_value(&self) -> (v: u32)
        ensures
            v == self.value,
    {
        self.value
    }

    pub fn get_module(&self) -> (m: u32)
        ensures
            m == self.module(),
    {
        self.value % MODULE_LIMIT
    }

    pub fn get_description(&self) -> (d: u32)
        ensures
            d == self.description(),
    {
        (self.value / MODULE_LIMIT) % DESCRIPTION_LIMIT
    }
}

/// Packing a module and a description that are in range loses neither.
pub proof fn lemma_pack_unpack(module: u32, description: u32)
    requires
        module < MODULE_LIMIT,
        description < DESCRIPTION_LIMIT,
    ensures
        pack(module, description) % MODULE_LIMIT == module,
        (pack(module, description) / MODULE_LIMIT) % DESCRIPTION_LIMIT == description,
        pack(module, description) == 0 <==> (module == 0 && description == 0),
{
}

/// The result code that the name `R` stands for.
pub open spec fn code_of<R: ResultBase>() -> ResultCode {
    ResultCode { value: pack(R::spec_module(), R::spec_description()) }
}

/// A named result: a fixed module and description.
pub trait ResultBase: Sized {
    spec fn spec_module() -> u32;

    spec fn spec_description() -> u32;

    /// Every named result fits the packed layout.
    proof fn lemma_in_range()
        ensures
            Self::spec_module() < MODULE_LIMIT,
            Self::spec_description() < DESCRIPTION_LIMIT,
    ;

    fn get_module() -> (m: u32)
        ensures
            m == Self::spec_module(),
    ;

    fn get_description() -> (d: u32)
        ensures
            d == Self::spec_description(),
    ;

    fn get_value() -> (v: u32)
        ensures
            v == pack(Self::spec_module(), Self::spec_description()),
    {
        proof {
            Self::lemma_in_range();
        }
        Self::get_module() + Self::get_description() * MODULE_LIMIT
    }

    fn make() -> (rc: ResultCode)
        ensures
            rc == (ResultCode { value: pack(Self::spec_module(), Self::spec_description()) }),
    {
        ResultCode::new(Self::get_value())
    }

    fn make_err<T>() -> (r: Result<T, ResultCode>)
        ensures
            r == Err::<T, ResultCode>((ResultCode { value: pack(Self::spec_module(), Self::spec_description()) })),
    {
        Err(Self::make())
    }

    fn matches(rc: ResultCode) -> (b: bool)
        ensures
            b == (rc == (ResultCode { value: pack(Self::spec_module(), Self::spec_description()) })),
    {
        rc.get_value() == Self::get_value()
    }
}

/// The success value.
pub struct ResultSuccess;

impl ResultBase for ResultSuccess {
    open spec fn spec_module() -> u32 {
        0
    }

    open spec fn spec_description() -> u32 {
        0
    }

    proof fn lemma_in_range() {
    }

    fn get_module() -> (m: u32) {
        0
    }

    fn get_description() -> (d: u32) {
        0
    }
}

} // verus!
