use vstd::prelude::*;

use crate::error::StringError;
use crate::name::{encodes_to, is_valid_name, padded, InterfaceName, IFNAMSIZ};

verus! {

/// Bytes in the kernel's interface request record (`struct ifreq` on 64-bit
/// Linux): the name, then a 24-byte union.
pub const IFREQ_SIZE: usize = 40;

/// The memory mapping of an interface, one of the members of the kernel's
/// field-replacement union.
#[derive(Clone, Copy, Debug, PartialEq, Eq, Structural)]
pub struct InterfaceMap {
    pub mem_start: u64,
    pub mem_end: u64,
    pub base_addr: u16,
    pub irq: u8,
    pub dma: u8,
    pub port: u8,
}

/// The two bytes of `x`, least significant first.
pub open spec fn le_bytes(x: i16) -> Seq<u8> {
    seq![((x as u16) % 256) as u8, ((x as u16) / 256) as u8]
}

/// The two bytes of `x`, most significant first.
pub open spec fn be_bytes(x: i16) -> Seq<u8> {
    seq![((x as u16) / 256) as u8, ((x as u16) % 256) as u8]
}

/// `b` is `x` in one of the two byte orders a machine may use.
pub open spec fn is_native_bytes(x: i16, b: Seq<u8>) -> bool {
    b == le_bytes(x) || b == be_bytes(x)
}

/// Relies on `i16::to_ne_bytes`: the bytes of `x` in the machine's byte
/// order, which is little- or big-endian.
#[verifier::external_body]
fn native_bytes(x: i16) -> (r: [u8; 2])
    ensures
        is_native_bytes(x, r@),
{
    x.to_ne_bytes()
}

/// The field-replacement part of an interface request.
///
/// The kernel's record overlays many fields here; this library only ever
/// sets the interface flags, so that is the one field it holds. The rest of
/// the region stays zero when the request is laid out for the kernel.
#[derive(Clone, Copy, Debug)]
pub struct InterfaceFieldReplaceUnit {
    flags: i16,
}

impl InterfaceFieldReplaceUnit {
    /// The flags this unit replaces the interface's flags with.
    pub closed spec fn spec_flags(&self) -> i16 {
        self.flags
    }

    /// The all-zero unit.
    fn new() -> (r: Self)
        ensures
            r.spec_flags() == 0,
    {
        Self { flags: 0 }
    }

    /// A unit that replaces the interface's flags with `flags`.
    pub fn flags(flags: i16) -> (r: Self)
        ensures
            r.spec_flags() == flags,
    {
        let mut ret = Self::new();
        ret.flags = flags;
        ret
    }

    /// The flags held by this unit.
    pub fn get_flags(&self) -> (r: i16)
        ensures
            r == self.spec_flags(),
    {
        self.flags
    }
}

/// An interface request, as handed to the `TUNSETIFF` control call: the
/// interface name and the flags of the device to create or attach to.
#[derive(Clone, Copy, Debug)]
pub struct InterfaceRequest {
    name: InterfaceName,
    fru: InterfaceFieldReplaceUnit,
}

impl InterfaceRequest {
    /// The name buffer of this request.
    pub closed spec fn spec_name(&self) -> Seq<u8> {
        self.name.name@
    }

    /// The flags of this request.
    pub closed spec fn spec_flags(&self) -> i16 {
        self.fru.spec_flags()
    }

    /// The name buffer; after the control call it holds the kernel's name.
    pub fn get_name(&self) -> (r: &InterfaceName)
        ensures
            r.name@ == self.spec_name(),
    {
        &self.name
    }

    /// The field-replacement unit of this request.
    pub fn get_fru(&self) -> (r: &InterfaceFieldReplaceUnit)
        ensures
            r.spec_flags() == self.spec_flags(),
    {
        &self.fru
    }

    /// Replaces the name buffer, as the control call does in place.
    pub fn set_name(&mut self, name: InterfaceName)
        ensures
            final(self).spec_name() == name.name@,
            final(self).spec_flags() == old(self).spec_flags(),
    {
        self.name = name;
    }

    /// The request laid out as the kernel reads it: the name buffer, then the
    /// flags in the machine's byte order, then zeros to the end of the union.
    pub fn to_bytes(&self) -> (r: [u8; IFREQ_SIZE])
        ensures
            r@.subrange(0, IFNAMSIZ as int) == self.spec_name(),
            is_native_bytes(self.spec_flags(), r@.subrange(IFNAMSIZ as int, IFNAMSIZ + 2)),
            forall|i: int| IFNAMSIZ + 2 <= i < IFREQ_SIZE ==> #[trigger] r@[i] == 0,
    {
        let mut buf = [0u8; IFREQ_SIZE];
        let mut i: usize = 0;
        while i < IFNAMSIZ
            invariant
                i <= IFNAMSIZ,
                self.name.name@.len() == IFNAMSIZ,
                forall|k: int| 0 <= k < i ==> buf@[k] == self.name.name@[k],
                forall|k: int| i <= k < IFREQ_SIZE ==> buf@[k] == 0,
            decreases IFNAMSIZ - i,
        {
            buf[i] = self.name.name[i];
            i = i + 1;
        }
        let flags = native_bytes(self.fru.flags);
        buf[IFNAMSIZ] = flags[0];
        buf[IFNAMSIZ + 1] = flags[1];
        assert(buf@.subrange(0, IFNAMSIZ as int) =~= self.spec_name());
        assert(buf@.subrange(IFNAMSIZ as int, IFNAMSIZ + 2) =~= flags@);
        buf
    }

    /// The name buffer of a record laid out as by [`Self::to_bytes`], as the
    /// control call left it.
    pub fn name_of_record(record: &[u8; IFREQ_SIZE]) -> (r: InterfaceName)
        ensures
            r.name@ == record@.subrange(0, IFNAMSIZ as int),
    {
        let mut name = InterfaceName::empty();
        let mut i: usize = 0;
        while i < IFNAMSIZ
            invariant
                i <= IFNAMSIZ,
                name.name@.len() == IFNAMSIZ,
                forall|k: int| 0 <= k < i ==> name.name@[k] == record@[k],
            decreases IFNAMSIZ - i,
        {
            name.name[i] = record[i];
            i = i + 1;
        }
        assert(name.name@ =~= record@.subrange(0, IFNAMSIZ as int));
        name
    }

    /// A request to attach to the device named `device_name` (or to a new
    /// device with a kernel-assigned name, if it is empty) with `flags`.
    pub fn tun_set_request(device_name: &str, flags: i16) -> (r: Result<Self, StringError>)
        ensures
            r is Ok <==> is_valid_name(device_name@),
            match r {
                Ok(req) => req.spec_name() == padded(device_name@) && req.spec_flags() == flags,
                Err(e) => encodes_to(device_name@, Err(e)),
            },
    {
        let name = InterfaceName::from_str(device_name)?;
        Ok(Self { name, fru: InterfaceFieldReplaceUnit::flags(flags) })
    }
}

} // verus!
