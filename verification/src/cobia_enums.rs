use vstd::prelude::*;

verus! {
/// Type of a value in the COBIA registry.
#[derive(Debug, Copy, Clone, PartialEq, Eq, Structural)]
pub enum CapeRegistryValueType {
    String,
    Integer,
    UUID,
    Empty,
}

/// Number of registry value types.
pub const REGISTRY_VALUE_TYPE_COUNT: i32 = 4i32;

/// The registry value type with raw value `v`, if any.
pub open spec fn registry_value_type_from(v: int) -> Option<CapeRegistryValueType> {
    if v == 0 {
        Some(CapeRegistryValueType::String)
    } else if v == 1 {
        Some(CapeRegistryValueType::Integer)
    } else if v == 2 {
        Some(CapeRegistryValueType::UUID)
    } else if v == 3 {
        Some(CapeRegistryValueType::Empty)
    } else {
        None
    }
}

/// Raw value of a registry value type.
pub open spec fn registry_value_type_raw(t: CapeRegistryValueType) -> int {
    match t {
        CapeRegistryValueType::String => 0,
        CapeRegistryValueType::Integer => 1,
        CapeRegistryValueType::UUID => 2,
        CapeRegistryValueType::Empty => 3,
    }
}

/// Name of a registry value type.
pub open spec fn registry_value_type_name(t: CapeRegistryValueType) -> Seq<char> {
    match t {
        CapeRegistryValueType::String => "String"@,
        CapeRegistryValueType::Integer => "Integer"@,
        CapeRegistryValueType::UUID => "UUID"@,
        CapeRegistryValueType::Empty => "Empty"@,
    }
}

impl CapeRegistryValueType {
    /// Converts a raw value; `None` when no registry value type has it.
    pub fn from(value: i32) -> (r: Option<CapeRegistryValueType>)
        ensures
            r == registry_value_type_from(value as int),
    {
        match value {
            0 => Some(CapeRegistryValueType::String),
            1 => Some(CapeRegistryValueType::Integer),
            2 => Some(CapeRegistryValueType::UUID),
            3 => Some(CapeRegistryValueType::Empty),
            _ => None,
        }
    }

    /// Name of the registry value type.
    pub fn as_string(&self) -> (r: &'static str)
        ensures
            r@ == registry_value_type_name(*self),
    {
        match self {
            CapeRegistryValueType::String => "String",
            CapeRegistryValueType::Integer => "Integer",
            CapeRegistryValueType::UUID => "UUID",
            CapeRegistryValueType::Empty => "Empty",
        }
    }

    /// Iterator over all registry value types, in the order of their raw values.
    pub fn iter() -> (r: CapeRegistryValueTypeIterator)
        ensures
            r.position() == 0,
    {
        CapeRegistryValueTypeIterator { current: 0 }
    }
}

/// Iterator over all registry value types.
pub struct CapeRegistryValueTypeIterator {
    current: i32,
}

impl CapeRegistryValueTypeIterator {
    /// Raw value of the next registry value type to hand out.
    pub closed spec fn position(&self) -> int {
        self.current as int
    }

    #[verifier::type_invariant]
    closed spec fn inv(&self) -> bool {
        0 <= self.current <= REGISTRY_VALUE_TYPE_COUNT
    }

    /// Hands out the next registry value type, or `None` once all have been handed out.
    pub fn next(&mut self) -> (r: Option<CapeRegistryValueType>)
        ensures
            old(self).position() < REGISTRY_VALUE_TYPE_COUNT ==> {
                &&& r == registry_value_type_from(old(self).position())
                &&& r is Some
                &&& final(self).position() == old(self).position() + 1
            },
            old(self).position() >= REGISTRY_VALUE_TYPE_COUNT ==> {
                &&& r is None
                &&& final(self).position() == old(self).position()
            },
    {
        proof {
            use_type_invariant(&*self);
        }
        if self.current >= REGISTRY_VALUE_TYPE_COUNT {
            None
        } else {
            let result = CapeRegistryValueType::from(self.current);
            self.current = self.current + 1;
            result
        }
    }
}

/// Type of the content of a CAPE-OPEN value.
#[derive(Debug, Copy, Clone, PartialEq, Eq, Structural)]
pub enum CapeValueType {
    String,
    Integer,
    Boolean,
    Real,
    Empty,
}

/// Number of value types.
pub const VALUE_TYPE_COUNT: i32 = 5i32;

/// The value type with raw value `v`, if any.
pub open spec fn value_type_from(v: int) -> Option<CapeValueType> {
    if v == 0 {
        Some(CapeValueType::String)
    } else if v == 1 {
        Some(CapeValueType::Integer)
    } else if v == 2 {
        Some(CapeValueType::Boolean)
    } else if v == 3 {
        Some(CapeValueType::Real)
    } else if v == 4 {
        Some(CapeValueType::Empty)
    } else {
        None
    }
}

/// Raw value of a value type.
pub open spec fn value_type_raw(t: CapeValueType) -> int {
    match t {
        CapeValueType::String => 0,
        CapeValueType::Integer => 1,
        CapeValueType::Boolean => 2,
        CapeValueType::Real => 3,
        CapeValueType::Empty => 4,
    }
}

/// Name of a value type.
pub open spec fn value_type_name(t: CapeValueType) -> Seq<char> {
    match t {
        CapeValueType::String => "String"@,
        CapeValueType::Integer => "Integer"@,
        CapeValueType::Boolean => "Boolean"@,
        CapeValueType::Real => "Real"@,
        CapeValueType::Empty => "Empty"@,
    }
}

impl CapeValueType {
    /// Converts a raw value; `None` when no value type has it.
    pub fn from(value: i32) -> (r: Option<CapeValueType>)
        ensures
            r == value_type_from(value as int),
    {
        match value {
            0 => Some(CapeValueType::String),
            1 => Some(CapeValueType::Integer),
            2 => Some(CapeValueType::Boolean),
            3 => Some(CapeValueType::Real),
            4 => Some(CapeValueType::Empty),
            _ => None,
        }
    }

    /// Name of the value type.
    pub fn as_string(&self) -> (r: &'static str)
        ensures
            r@ == value_type_name(*self),
    {
        match self {
            CapeValueType::String => "String",
            CapeValueType::Integer => "Integer",
            CapeValueType::Boolean => "Boolean",
            CapeValueType::Real => "Real",
            CapeValueType::Empty => "Empty",
        }
    }

    /// Iterator over all value types, in the order of their raw values.
    pub fn iter() -> (r: CapeValueTypeIterator)
        ensures
            r.position() == 0,
    {
        CapeValueTypeIterator { current: 0 }
    }
}

/// Iterator over all value types.
pub struct CapeValueTypeIterator {
    current: i32,
}

impl CapeValueTypeIterator {
    /// Raw value of the next value type to hand out.
    pub closed spec fn position(&self) -> int {
        self.current as int
    }

    #[verifier::type_invariant]
    closed spec fn inv(&self) -> bool {
        0 <= self.current <= VALUE_TYPE_COUNT
    }

    /// Hands out the next value type, or `None` once all have been handed out.
    pub fn next(&mut self) -> (r: Option<CapeValueType>)
        ensures
            old(self).position() < VALUE_TYPE_COUNT ==> {
                &&& r == value_type_from(old(self).position())
                &&& r is Some
                &&& final(self).position() == old(self).position() + 1
            },
            old(self).position() >= VALUE_TYPE_COUNT ==> {
                &&& r is None
                &&& final(self).position() == old(self).position()
            },
    {
        proof {
            use_type_invariant(&*self);
        }
        if self.current >= VALUE_TYPE_COUNT {
            None
        } else {
            let result = CapeValueType::from(self.current);
            self.current = self.current + 1;
            result
        }
    }
}

/// Service through which a process modelling component is instantiated.
#[derive(Debug, Copy, Clone, PartialEq, Eq, Structural)]
pub enum CapePMCServiceType {
    Inproc32,
    Inproc64,
    COM32,
    COM64,
    Remote,
    Local,
}

/// Number of service types.
pub const PMC_SERVICE_TYPE_COUNT: i32 = 6i32;

/// The service type with raw value `v`, if any.
pub open spec fn pmc_service_type_from(v: int) -> Option<CapePMCServiceType> {
    if v == 0 {
        Some(CapePMCServiceType::Inproc32)
    } else if v == 1 {
        Some(CapePMCServiceType::Inproc64)
    } else if v == 2 {
        Some(CapePMCServiceType::COM32)
    } else if v == 3 {
        Some(CapePMCServiceType::COM64)
    } else if v == 4 {
        Some(CapePMCServiceType::Remote)
    } else if v == 5 {
        Some(CapePMCServiceType::Local)
    } else {
        None
    }
}

/// Raw value of a service type.
pub open spec fn pmc_service_type_raw(t: CapePMCServiceType) -> int {
    match t {
        CapePMCServiceType::Inproc32 => 0,
        CapePMCServiceType::Inproc64 => 1,
        CapePMCServiceType::COM32 => 2,
        CapePMCServiceType::COM64 => 3,
        CapePMCServiceType::Remote => 4,
        CapePMCServiceType::Local => 5,
    }
}

/// Name of a service type.
pub open spec fn pmc_service_type_name(t: CapePMCServiceType) -> Seq<char> {
    match t {
        CapePMCServiceType::Inproc32 => "Inproc32"@,
        CapePMCServiceType::Inproc64 => "Inproc64"@,
        CapePMCServiceType::COM32 => "COM32"@,
        CapePMCServiceType::COM64 => "COM64"@,
        CapePMCServiceType::Remote => "Remote"@,
        CapePMCServiceType::Local => "Local"@,
    }
}

impl CapePMCServiceType {
    /// Converts a raw value; `None` when no service type has it.
    pub fn from(value: i32) -> (r: Option<CapePMCServiceType>)
        ensures
            r == pmc_service_type_from(value as int),
    {
        match value {
            0 => Some(CapePMCServiceType::Inproc32),
            1 => Some(CapePMCServiceType::Inproc64),
            2 => Some(CapePMCServiceType::COM32),
            3 => Some(CapePMCServiceType::COM64),
            4 => Some(CapePMCServiceType::Remote),
            5 => Some(CapePMCServiceType::Local),
            _ => None,
        }
    }

    /// Name of the service type.
    pub fn as_string(&self) -> (r: &'static str)
        ensures
            r@ == pmc_service_type_name(*self),
    {
        match self {
            CapePMCServiceType::Inproc32 => "Inproc32",
            CapePMCServiceType::Inproc64 => "Inproc64",
            CapePMCServiceType::COM32 => "COM32",
            CapePMCServiceType::COM64 => "COM64",
            CapePMCServiceType::Remote => "Remote",
            CapePMCServiceType::Local => "Local",
        }
    }

    /// Iterator over all service types, in the order of their raw values.
    pub fn iter() -> (r: CapePMCServiceTypeIterator)
        ensures
            r.position() == 0,
    {
        CapePMCServiceTypeIterator { current: 0 }
    }
}

/// Iterator over all service types.
pub struct CapePMCServiceTypeIterator {
    current: i32,
}

impl CapePMCServiceTypeIterator {
    /// Raw value of the next service type to hand out.
    pub closed spec fn position(&self) -> int {
        self.current as int
    }

    #[verifier::type_invariant]
    closed spec fn inv(&self) -> bool {
        0 <= self.current <= PMC_SERVICE_TYPE_COUNT
    }

    /// Hands out the next service type, or `None` once all have been handed out.
    pub fn next(&mut self) -> (r: Option<CapePMCServiceType>)
        ensures
            old(self).position() < PMC_SERVICE_TYPE_COUNT ==> {
                &&& r == pmc_service_type_from(old(self).position())
                &&& r is Some
                &&& final(self).position() == old(self).position() + 1
            },
            old(self).position() >= PMC_SERVICE_TYPE_COUNT ==> {
                &&& r is None
                &&& final(self).position() == old(self).position()
            },
    {
        proof {
            use_type_invariant(&*self);
        }
        if self.current >= PMC_SERVICE_TYPE_COUNT {
            None
        } else {
            let result = CapePMCServiceType::from(self.current);
            self.current = self.current + 1;
            result
        }
    }
}

/// Every raw value that `from` accepts is the raw value of the type it
/// gives, and every value type comes back from its raw value.
pub proof fn lemma_value_type_raw_round_trip(v: int, t: CapeValueType)
    ensures
        value_type_from(v) == Some(t) <==> v == value_type_raw(t),
{
}

/// Every raw registry value type that `from` accepts is the raw value of the
/// type it gives, and every type comes back from its raw value.
pub proof fn lemma_registry_value_type_raw_round_trip(v: int, t: CapeRegistryValueType)
    ensures
        registry_value_type_from(v) == Some(t) <==> v == registry_value_type_raw(t),
{
}

/// Every raw service type that `from` accepts is the raw value of the type it
/// gives, and every service type comes back from its raw value.
pub proof fn lemma_pmc_service_type_raw_round_trip(v: int, t: CapePMCServiceType)
    ensures
        pmc_service_type_from(v) == Some(t) <==> v == pmc_service_type_raw(t),
{
}

/// Different registry value types have different names.
pub proof fn law_registry_value_type_names_distinct(t: CapeRegistryValueType, u: CapeRegistryValueType)
    ensures
        registry_value_type_name(t) == registry_value_type_name(u) ==> t == u,
{
    reveal_strlit("String");
    reveal_strlit("Integer");
    reveal_strlit("UUID");
    reveal_strlit("Empty");
    if registry_value_type_name(t) == registry_value_type_name(u) && t != u {
        assert(registry_value_type_name(t)[0] == registry_value_type_name(u)[0]);
        assert(registry_value_type_name(t).len() == registry_value_type_name(u).len());
    }
}

/// Different value types have different names.
pub proof fn law_value_type_names_distinct(t: CapeValueType, u: CapeValueType)
    ensures
        value_type_name(t) == value_type_name(u) ==> t == u,
{
    reveal_strlit("String");
    reveal_strlit("Integer");
    reveal_strlit("Boolean");
    reveal_strlit("Real");
    reveal_strlit("Empty");
    if value_type_name(t) == value_type_name(u) && t != u {
        assert(value_type_name(t)[0] == value_type_name(u)[0]);
        assert(value_type_name(t).len() == value_type_name(u).len());
    }
}

/// Different service types have different names, and a name says what it
/// stands for: the in-process services (raw values 0 and 1) are named
/// `Inproc...`, the COM services (2 and 3) `COM...`, and of each pair the
/// first ends in `32`, the second in `64`.
pub proof fn law_pmc_service_type_names(t: CapePMCServiceType, u: CapePMCServiceType)
    ensures
        pmc_service_type_name(t) == pmc_service_type_name(u) ==> t == u,
        pmc_service_type_name(t).len() >= 5,
        pmc_service_type_raw(t) < 2 <==> pmc_service_type_name(t).len() >= 6 && pmc_service_type_name(t).take(6) == "Inproc"@,
        2 <= pmc_service_type_raw(t) < 4 <==> pmc_service_type_name(t).take(3) == "COM"@,
        pmc_service_type_raw(t) < 4 ==> pmc_service_type_name(t).skip(pmc_service_type_name(t).len() - 2)
            == (if pmc_service_type_raw(t) % 2 == 0 { "32"@ } else { "64"@ }),
{
    reveal_strlit("Inproc32");
    reveal_strlit("Inproc64");
    reveal_strlit("COM32");
    reveal_strlit("COM64");
    reveal_strlit("Remote");
    reveal_strlit("Local");
    reveal_strlit("Inproc");
    reveal_strlit("COM");
    reveal_strlit("32");
    reveal_strlit("64");
    let n = pmc_service_type_name(t);
    assert(n.len() >= 6 && n.take(6) =~= "Inproc"@ <==> pmc_service_type_raw(t) < 2) by {
        if pmc_service_type_raw(t) < 2 {
            assert(n.take(6) =~= "Inproc"@);
        }
        if n.len() >= 6 && n.take(6) =~= "Inproc"@ && pmc_service_type_raw(t) >= 2 {
            assert(n.take(6)[0] == n[0]);
        }
    }
    assert(n.take(3) =~= "COM"@ <==> 2 <= pmc_service_type_raw(t) < 4) by {
        if !(n.take(3) =~= "COM"@) && 2 <= pmc_service_type_raw(t) < 4 {
            assert(n.take(3) =~= "COM"@);
        }
        if n.take(3) =~= "COM"@ && !(2 <= pmc_service_type_raw(t) < 4) {
            assert(n.take(3)[0] == n[0]);
        }
    }
    if pmc_service_type_raw(t) < 4 {
        assert(n.skip(n.len() - 2) =~= (if pmc_service_type_raw(t) % 2 == 0 { "32"@ } else { "64"@ }));
    }
    if n == pmc_service_type_name(u) && t != u {
        assert(n[0] == pmc_service_type_name(u)[0]);
        assert(n.len() == pmc_service_type_name(u).len());
        assert(n[n.len() - 1] == pmc_service_type_name(u)[n.len() - 1]);
        assert(n[1] == pmc_service_type_name(u)[1]);
    }
}

impl Default for CapeRegistryValueType {
    /// The registry value type with raw value zero.
    fn default() -> (r: Self)
        ensures
            registry_value_type_from(0) == Some(r),
    {
        CapeRegistryValueType::String
    }
}

impl Default for CapeValueType {
    /// The value type with raw value zero.
    fn default() -> (r: Self)
        ensures
            value_type_from(0) == Some(r),
    {
        CapeValueType::String
    }
}

impl Default for CapePMCServiceType {
    /// The service type with raw value zero; an enumeration array that
    /// grows fills new places with it.
    fn default() -> (r: Self)
        ensures
            pmc_service_type_from(0) == Some(r),
    {
        CapePMCServiceType::Inproc32
    }
}

/// An enumeration whose values have names, as arrays of it display them.
pub trait CapeEnumerationName {
    /// The name of the value.
    spec fn name(&self) -> Seq<char>;

    /// The name of the value.
    fn as_str(&self) -> (r: &'static str)
        ensures
            r@ == self.name(),
    ;
}

impl CapeEnumerationName for CapeRegistryValueType {
    open spec fn name(&self) -> Seq<char> {
        registry_value_type_name(*self)
    }

    fn as_str(&self) -> (r: &'static str) {
        self.as_string()
    }
}

impl CapeEnumerationName for CapeValueType {
    open spec fn name(&self) -> Seq<char> {
        value_type_name(*self)
    }

    fn as_str(&self) -> (r: &'static str) {
        self.as_string()
    }
}

impl CapeEnumerationName for CapePMCServiceType {
    open spec fn name(&self) -> Seq<char> {
        pmc_service_type_name(*self)
    }

    fn as_str(&self) -> (r: &'static str) {
        self.as_string()
    }
}

/// Service type for in-process instantiation at the pointer width of this build.
pub fn inproc_service_type() -> (r: CapePMCServiceType)
    ensures
        r == (if usize::BITS == 64 { CapePMCServiceType::Inproc64 } else { CapePMCServiceType::Inproc32 }),
{
    if usize::BITS == 64 {
        CapePMCServiceType::Inproc64
    } else {
        CapePMCServiceType::Inproc32
    }
}

} // verus!
