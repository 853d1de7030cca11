use vstd::prelude::*;
use vstd::string::StringExecFns;

use crate::error::{CreationError, StringError};
use crate::name::{
    decodes_to, encodes_to, is_name_char, is_valid_name, lemma_decode_encode, padded, IFNAMSIZ,
};
use crate::request::InterfaceRequest;

verus! {

/// Mode a device runs in.
/// * `Tun` - layer 3 virtual interface carrying IP packets; cannot be bridged.
/// * `Tap` - layer 2 virtual interface carrying Ethernet frames.
#[derive(Debug, Clone, Copy, PartialEq, Eq, Structural)]
pub enum DeviceMode {
    Tun,
    Tap,
}

/// The short name of a mode.
pub open spec fn mode_text(mode: DeviceMode) -> Seq<char> {
    match mode {
        DeviceMode::Tun => seq!['t', 'u', 'n'],
        DeviceMode::Tap => seq!['t', 'a', 'p'],
    }
}

impl DeviceMode {
    /// `"tun"` or `"tap"`.
    pub fn to_string(&self) -> (r: String)
        ensures
            r@ == mode_text(*self),
    {
        proof {
            reveal_strlit("tun");
            reveal_strlit("tap");
        }
        match self {
            DeviceMode::Tun => String::from_str("tun"),
            DeviceMode::Tap => String::from_str("tap"),
        }
    }
}

/// Relies on `libc::IFF_TUN`, the flag that asks `TUNSETIFF` for a tun device.
#[verifier::external_body]
fn iff_tun() -> (r: i32)
    ensures
        r == 0x0001,
{
    libc::IFF_TUN
}

/// Relies on `libc::IFF_TAP`, the flag that asks `TUNSETIFF` for a tap device.
#[verifier::external_body]
fn iff_tap() -> (r: i32)
    ensures
        r == 0x0002,
{
    libc::IFF_TAP
}

/// Relies on `libc::IFF_NO_PI`, the flag that turns off the packet info prefix.
#[verifier::external_body]
fn iff_no_pi() -> (r: i32)
    ensures
        r == 0x1000,
{
    libc::IFF_NO_PI
}

/// The interface flags that ask for a device of `mode`, with or without the
/// 4-byte packet info prefix: `IFF_TUN` (0x0001) or `IFF_TAP` (0x0002), with
/// `IFF_NO_PI` (0x1000) added when the prefix is not wanted.
pub open spec fn ifr_flags(mode: DeviceMode, packet_info: bool) -> i16 {
    let m: i16 = if mode == DeviceMode::Tun { 0x0001 } else { 0x0002 };
    if packet_info { m } else { (m + 0x1000) as i16 }
}

/// The name asked for: the empty name when none was set.
pub open spec fn requested_name(name: Option<Seq<char>>) -> Seq<char> {
    match name {
        Some(s) => s,
        None => Seq::<char>::empty(),
    }
}

/// Builder of a tun or tap device.
#[derive(Debug, Clone)]
pub struct DeviceBuilder<'a> {
    name: Option<&'a str>,
    mode: DeviceMode,
    packet_info: bool,
}

impl<'a> DeviceBuilder<'a> {
    /// The name set, if any.
    pub closed spec fn spec_name(&self) -> Option<Seq<char>> {
        match self.name {
            Some(s) => Some(s@),
            None => None,
        }
    }

    /// The mode set.
    pub closed spec fn spec_mode(&self) -> DeviceMode {
        self.mode
    }

    /// Whether the packet info prefix is kept.
    pub closed spec fn spec_packet_info(&self) -> bool {
        self.packet_info
    }

    /// A builder of a device running in `mode`, with a kernel-assigned name
    /// and without the packet info prefix.
    pub fn new(mode: DeviceMode) -> (r: Self)
        ensures
            r.spec_mode() == mode,
            r.spec_name() == None::<Seq<char>>,
            !r.spec_packet_info(),
    {
        Self { mode, name: None, packet_info: false }
    }

    /// Sets the name of the device; without one the kernel assigns a unique name.
    pub fn name(&'a mut self, name: &'a str) -> (r: &'a mut Self)
        ensures
            r.spec_name() == Some(name@),
            r.spec_mode() == old(self).spec_mode(),
            r.spec_packet_info() == old(self).spec_packet_info(),
            *final(self) == *final(r),
    {
        self.name = Some(name);
        self
    }

    /// Sets whether each packet carries the kernel's 4-byte packet info prefix.
    pub fn packet_info(&'a mut self, packet_info: bool) -> (r: &'a mut Self)
        ensures
            r.spec_packet_info() == packet_info,
            r.spec_name() == old(self).spec_name(),
            r.spec_mode() == old(self).spec_mode(),
            *final(self) == *final(r),
    {
        self.packet_info = packet_info;
        self
    }

    /// The interface flags for the control call.
    pub fn flags(&self) -> (r: i16)
        ensures
            r == ifr_flags(self.spec_mode(), self.spec_packet_info()),
    {
        let mut bits: i32 = 0x0;
        if self.mode == DeviceMode::Tun {
            bits = bits | iff_tun();
            assert(0i32 | 1i32 == 1i32) by (bit_vector);
        } else {
            bits = bits | iff_tap();
            assert(0i32 | 2i32 == 2i32) by (bit_vector);
        }
        if !self.packet_info {
            let before = bits;
            bits = bits | iff_no_pi();
            assert(before == 1i32 || before == 2i32 ==> before | 0x1000i32 == before + 0x1000i32)
                by (bit_vector);
        }
        bits as i16
    }

    /// The request for the control call: the name asked for (empty when
    /// none was set) and the flags. A name that cannot be encoded gives
    /// `InvalidName`.
    pub fn request(&self) -> (r: Result<InterfaceRequest, CreationError>)
        ensures
            r is Ok <==> is_valid_name(requested_name(self.spec_name())),
            match r {
                Ok(req) => {
                    &&& req.spec_name() == padded(requested_name(self.spec_name()))
                    &&& req.spec_flags() == ifr_flags(self.spec_mode(), self.spec_packet_info())
                },
                Err(CreationError::InvalidName(e)) => encodes_to(
                    requested_name(self.spec_name()),
                    Err(e),
                ),
                Err(_) => false,
            },
    {
        let name: &str = match self.name {
            Some(n) => n,
            None => "",
        };
        proof {
            reveal_strlit("");
        }
        let flags = self.flags();
        match InterfaceRequest::tun_set_request(name, flags) {
            Ok(req) => Ok(req),
            Err(e) => Err(CreationError::InvalidName(e)),
        }
    }

    /// Completes the opening of a device on `file`, once the control call
    /// has been made with the request of [`Self::request`]: `upgraded` is
    /// what the call returned and `request` the request as the call left it.
    ///
    /// A failed call gives `IoctlError` with its error code; otherwise the
    /// name the kernel left in the request is decoded, and a name that
    /// cannot be decoded gives `InvalidName`.
    pub fn finish<F>(
        &self,
        file: F,
        upgraded: Result<(), nix::errno::Errno>,
        request: &InterfaceRequest,
    ) -> (r: Result<Device<F>, CreationError>)
        ensures
            finishes_to(self.spec_mode(), file, upgraded, request.spec_name(), r),
    {
        if let Err(code) = upgraded {
            return Err(CreationError::IoctlError(code));
        }
        match request.get_name().to_string() {
            Ok(name) => Ok(Device { file, mode: self.mode, name }),
            Err(e) => Err(CreationError::InvalidName(e)),
        }
    }
}

/// How opening the device file failed, as far as device creation tells
/// failures apart.
#[derive(Debug, Clone, Copy, PartialEq, Eq, Structural)]
pub enum OpenFailure {
    NotFound,
    PermissionDenied,
    Other,
}

/// The kind of an error met while opening the device file, as
/// `std::io::Error::kind` reports it.
pub uninterp spec fn failure_kind(e: std::io::Error) -> OpenFailure;

/// Relies on `std::io::Error::kind`: tells the kinds `NotFound` and
/// `PermissionDenied` apart from all others.
#[verifier::external_body]
fn open_failure_of(e: &std::io::Error) -> (r: OpenFailure)
    ensures
        r == failure_kind(*e),
{
    match e.kind() {
        std::io::ErrorKind::NotFound => OpenFailure::NotFound,
        std::io::ErrorKind::PermissionDenied => OpenFailure::PermissionDenied,
        _ => OpenFailure::Other,
    }
}

/// The creation error for a failure of `kind` to open the device file.
pub open spec fn open_error_for(kind: OpenFailure, e: std::io::Error) -> CreationError {
    match kind {
        OpenFailure::NotFound => CreationError::FileNotFound,
        OpenFailure::PermissionDenied => CreationError::PermissionDenied,
        OpenFailure::Other => CreationError::UnableToOpenFile(e),
    }
}

/// The creation error for the failure `e`, of kind `kind`, to open the
/// device file: a missing file, a denied permission, or the error itself.
pub fn creation_error(kind: OpenFailure, e: std::io::Error) -> (r: CreationError)
    ensures
        r == open_error_for(kind, e),
{
    match kind {
        OpenFailure::NotFound => CreationError::FileNotFound,
        OpenFailure::PermissionDenied => CreationError::PermissionDenied,
        OpenFailure::Other => CreationError::UnableToOpenFile(e),
    }
}

/// The creation error for the failure `e` to open the device file, by the
/// kind of `e`.
pub fn open_error(e: std::io::Error) -> (r: CreationError)
    ensures
        r == open_error_for(failure_kind(e), e),
{
    let kind = open_failure_of(&e);
    creation_error(kind, e)
}

/// `r` is what completing the opening gives, for a device of `mode` on
/// `file`, when the control call returned `upgraded` and left the name
/// buffer `assigned`.
pub open spec fn finishes_to<F>(
    mode: DeviceMode,
    file: F,
    upgraded: Result<(), nix::errno::Errno>,
    assigned: Seq<u8>,
    r: Result<Device<F>, CreationError>,
) -> bool {
    match upgraded {
        Err(code) => r == Err::<Device<F>, CreationError>(CreationError::IoctlError(code)),
        Ok(_) => match r {
            Ok(d) => {
                &&& decodes_to(assigned, Ok(d.spec_name()))
                &&& d.spec_mode() == mode
                &&& d.spec_file() == file
            },
            Err(CreationError::InvalidName(e)) => decodes_to(assigned, Err(e)),
            Err(_) => false,
        },
    }
}

/// An open tun or tap device: the handle bound to it, its mode and the
/// name of its network interface.
#[derive(Debug)]
pub struct Device<F> {
    file: F,
    mode: DeviceMode,
    name: String,
}

impl<F> Device<F> {
    /// The interface name.
    pub closed spec fn spec_name(&self) -> Seq<char> {
        self.name@
    }

    /// The mode the device runs in.
    pub closed spec fn spec_mode(&self) -> DeviceMode {
        self.mode
    }

    /// The handle bound to the device.
    pub closed spec fn spec_file(&self) -> F {
        self.file
    }

    /// The name of the network interface.
    pub fn name(&self) -> (r: &str)
        ensures
            r@ == self.spec_name(),
    {
        self.name.as_str()
    }

    /// The mode the device runs in.
    pub fn mode(&self) -> (r: DeviceMode)
        ensures
            r == self.spec_mode(),
    {
        self.mode
    }

    /// The handle bound to the device, for reading and writing packets.
    pub fn file(&self) -> (r: &F)
        ensures
            *r == self.spec_file(),
    {
        &self.file
    }

    /// Diagnostic text: `TunDevice(<name>)` or `TapDevice(<name>)`.
    pub fn describe(&self) -> (r: String)
        ensures
            r@ == (match self.spec_mode() {
                DeviceMode::Tun => seq!['T', 'u', 'n'],
                DeviceMode::Tap => seq!['T', 'a', 'p'],
            }) + seq!['D', 'e', 'v', 'i', 'c', 'e', '('] + self.spec_name() + seq![')'],
    {
        proof {
            reveal_strlit("TunDevice(");
            reveal_strlit("TapDevice(");
            reveal_strlit(")");
        }
        let mut r = match self.mode {
            DeviceMode::Tun => String::from_str("TunDevice("),
            DeviceMode::Tap => String::from_str("TapDevice("),
        };
        r.append(self.name.as_str());
        r.append(")");
        assert(r@ =~= (match self.spec_mode() {
            DeviceMode::Tun => seq!['T', 'u', 'n'],
            DeviceMode::Tap => seq!['T', 'a', 'p'],
        }) + seq!['D', 'e', 'v', 'i', 'c', 'e', '('] + self.spec_name() + seq![')']);
        r
    }
}

/// When the control call succeeds and leaves the requested name in place,
/// the device opened carries exactly that name, and the mode asked for.
pub proof fn lemma_requested_name_kept<F>(
    mode: DeviceMode,
    s: Seq<char>,
    file: F,
    upgraded: Result<(), nix::errno::Errno>,
    r: Result<Device<F>, CreationError>,
)
    requires
        is_valid_name(s),
        upgraded is Ok,
        finishes_to(mode, file, upgraded, padded(s), r),
    ensures
        r is Ok,
        r->Ok_0.spec_name() == s,
        r->Ok_0.spec_mode() == mode,
{
    let e = Ok::<Seq<u8>, StringError>(padded(s));
    match r {
        Ok(d) => {
            lemma_decode_encode(s, e, Ok(d.spec_name()));
        },
        Err(CreationError::InvalidName(err)) => {
            lemma_decode_encode(s, e, Err(err));
        },
        Err(_) => {},
    }
}

/// The name of an opened device, whether asked for or assigned by the
/// kernel, is itself a valid interface name: ASCII, without zeros, and
/// shorter than `IFNAMSIZ`.
pub proof fn lemma_opened_name_valid<F>(
    mode: DeviceMode,
    file: F,
    upgraded: Result<(), nix::errno::Errno>,
    assigned: Seq<u8>,
    r: Result<Device<F>, CreationError>,
)
    requires
        assigned.len() == IFNAMSIZ,
        finishes_to(mode, file, upgraded, assigned, r),
        r is Ok,
    ensures
        is_valid_name(r->Ok_0.spec_name()),
{
    let s = r->Ok_0.spec_name();
    assert forall|i: int| 0 <= i < s.len() implies is_name_char(#[trigger] s[i]) by {
        let b = assigned[i];
        assert(s[i] == (b as char));
        assert(0 < b < 128);
    }
}

} // verus!
