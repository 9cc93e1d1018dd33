//! The error taxonomy, and the mapping of the two native status vocabularies
//! (protocol engine and USB transport) onto it.
use vstd::prelude::*;

verus! {

/// Protocol engine: the operation succeeded.
pub const NSPIRE_ERR_SUCCESS: i32 = 0;
/// Protocol engine: the device did not answer in time.
pub const NSPIRE_ERR_TIMEOUT: i32 = 1;
/// Protocol engine: an allocation failed.
pub const NSPIRE_ERR_NOMEM: i32 = 2;
/// Protocol engine: an argument was rejected.
pub const NSPIRE_ERR_INVALID: i32 = 3;
/// Protocol engine: the USB layer failed.
pub const NSPIRE_ERR_LIBUSB: i32 = 4;
/// Protocol engine: no device is attached.
pub const NSPIRE_ERR_NODEVICE: i32 = 5;
/// Protocol engine: a malformed packet arrived.
pub const NSPIRE_ERR_INVALPKT: i32 = 6;
/// Protocol engine: the device answered with a NACK.
pub const NSPIRE_ERR_NACK: i32 = 7;
/// Protocol engine: the device is busy.
pub const NSPIRE_ERR_BUSY: i32 = 8;
/// Protocol engine: the target already exists.
pub const NSPIRE_ERR_EXISTS: i32 = 9;
/// Protocol engine: the target does not exist.
pub const NSPIRE_ERR_NONEXIST: i32 = 10;

/// USB transport: input/output error.
pub const LIBUSB_ERROR_IO: i32 = -1;
/// USB transport: invalid parameter.
pub const LIBUSB_ERROR_INVALID_PARAM: i32 = -2;
/// USB transport: access denied.
pub const LIBUSB_ERROR_ACCESS: i32 = -3;
/// USB transport: the device is gone.
pub const LIBUSB_ERROR_NO_DEVICE: i32 = -4;
/// USB transport: entity not found.
pub const LIBUSB_ERROR_NOT_FOUND: i32 = -5;
/// USB transport: resource busy.
pub const LIBUSB_ERROR_BUSY: i32 = -6;
/// USB transport: timed out.
pub const LIBUSB_ERROR_TIMEOUT: i32 = -7;
/// USB transport: overflow.
pub const LIBUSB_ERROR_OVERFLOW: i32 = -8;
/// USB transport: pipe error.
pub const LIBUSB_ERROR_PIPE: i32 = -9;
/// USB transport: system call interrupted.
pub const LIBUSB_ERROR_INTERRUPTED: i32 = -10;
/// USB transport: insufficient memory.
pub const LIBUSB_ERROR_NO_MEM: i32 = -11;
/// USB transport: operation not supported.
pub const LIBUSB_ERROR_NOT_SUPPORTED: i32 = -12;

/// A failure reported by the USB stack while talking to the device
/// (outside any protocol-engine call), e.g. while reading its descriptor.
#[derive(Debug, Clone, Copy, PartialEq, Eq, Structural)]
pub enum UsbError {
    Io,
    InvalidParam,
    Access,
    NoDevice,
    NotFound,
    Busy,
    Timeout,
    Overflow,
    Pipe,
    Interrupted,
    NoMem,
    NotSupported,
    BadDescriptor,
    Other,
}

/// A libnspire error.
#[derive(Debug, Clone, Copy, PartialEq, Eq, Structural)]
#[non_exhaustive]
pub enum Error {
    /// Input/output error
    Io,
    /// Access denied (insufficient permissions)
    Access,
    /// Operation not supported or unimplemented on this platform
    NotSupported,
    /// Timeout
    Timeout,
    /// Out of memory
    OutOfMemory,
    /// LibUSB error
    LibUsb,
    /// No device found
    NoDevice,
    /// Invalid packet received
    InvalidPacket,
    /// NACK received
    Nack,
    /// Busy
    Busy,
    /// Invalid input
    Invalid,
    /// Already exists
    Exists,
    /// Path does not exist
    DoesNotExist,
    /// Null byte in a string, at the given byte position
    NulError(usize),
    /// USB error
    Usb(UsbError),
    /// Unknown bits-per-pixel value
    UnknownBpp(u8),
    /// unknown error
    Unknown,
}

/// The generic result type.
pub type Result<T> = core::result::Result<T, Error>;

/// What the protocol engine's vocabulary says of a code, if it knows the code.
pub open spec fn protocol_status(code: i32) -> Option<Result<()>> {
    if code == NSPIRE_ERR_SUCCESS {
        Some(Ok(()))
    } else if code == NSPIRE_ERR_TIMEOUT {
        Some(Err(Error::Timeout))
    } else if code == NSPIRE_ERR_NOMEM {
        Some(Err(Error::OutOfMemory))
    } else if code == NSPIRE_ERR_LIBUSB {
        Some(Err(Error::LibUsb))
    } else if code == NSPIRE_ERR_NODEVICE {
        Some(Err(Error::NoDevice))
    } else if code == NSPIRE_ERR_INVALPKT {
        Some(Err(Error::InvalidPacket))
    } else if code == NSPIRE_ERR_NACK {
        Some(Err(Error::Nack))
    } else if code == NSPIRE_ERR_BUSY {
        Some(Err(Error::Busy))
    } else if code == NSPIRE_ERR_INVALID {
        Some(Err(Error::Invalid))
    } else if code == NSPIRE_ERR_EXISTS {
        Some(Err(Error::Exists))
    } else if code == NSPIRE_ERR_NONEXIST {
        Some(Err(Error::DoesNotExist))
    } else {
        None
    }
}

/// What the USB transport's vocabulary says of a code, if it knows the code.
pub open spec fn transport_error(code: i32) -> Option<Error> {
    if code == LIBUSB_ERROR_IO {
        Some(Error::Io)
    } else if code == LIBUSB_ERROR_INVALID_PARAM {
        Some(Error::Invalid)
    } else if code == LIBUSB_ERROR_ACCESS {
        Some(Error::Access)
    } else if code == LIBUSB_ERROR_NO_DEVICE || code == LIBUSB_ERROR_NOT_FOUND {
        Some(Error::NoDevice)
    } else if code == LIBUSB_ERROR_BUSY {
        Some(Error::Busy)
    } else if code == LIBUSB_ERROR_TIMEOUT {
        Some(Error::Timeout)
    } else if code == LIBUSB_ERROR_OVERFLOW || code == LIBUSB_ERROR_PIPE || code
        == LIBUSB_ERROR_INTERRUPTED {
        Some(Error::LibUsb)
    } else if code == LIBUSB_ERROR_NO_MEM {
        Some(Error::OutOfMemory)
    } else if code == LIBUSB_ERROR_NOT_SUPPORTED {
        Some(Error::NotSupported)
    } else {
        None
    }
}

/// The meaning of a native status code: the protocol vocabulary first, then
/// the transport vocabulary, and `Unknown` for a code that neither knows.
pub open spec fn status_result(code: i32) -> Result<()> {
    match protocol_status(code) {
        Some(r) => r,
        None => match transport_error(code) {
            Some(e) => Err(e),
            None => Err(Error::Unknown),
        },
    }
}

fn protocol_status_of(code: i32) -> (r: Option<Result<()>>)
    ensures
        r == protocol_status(code),
{
    match code {
        NSPIRE_ERR_SUCCESS => Some(Ok(())),
        NSPIRE_ERR_TIMEOUT => Some(Err(Error::Timeout)),
        NSPIRE_ERR_NOMEM => Some(Err(Error::OutOfMemory)),
        NSPIRE_ERR_LIBUSB => Some(Err(Error::LibUsb)),
        NSPIRE_ERR_NODEVICE => Some(Err(Error::NoDevice)),
        NSPIRE_ERR_INVALPKT => Some(Err(Error::InvalidPacket)),
        NSPIRE_ERR_NACK => Some(Err(Error::Nack)),
        NSPIRE_ERR_BUSY => Some(Err(Error::Busy)),
        NSPIRE_ERR_INVALID => Some(Err(Error::Invalid)),
        NSPIRE_ERR_EXISTS => Some(Err(Error::Exists)),
        NSPIRE_ERR_NONEXIST => Some(Err(Error::DoesNotExist)),
        _ => None,
    }
}

fn transport_error_of(code: i32) -> (r: Option<Error>)
    ensures
        r == transport_error(code),
{
    match code {
        LIBUSB_ERROR_IO => Some(Error::Io),
        LIBUSB_ERROR_INVALID_PARAM => Some(Error::Invalid),
        LIBUSB_ERROR_ACCESS => Some(Error::Access),
        LIBUSB_ERROR_NO_DEVICE => Some(Error::NoDevice),
        LIBUSB_ERROR_NOT_FOUND => Some(Error::NoDevice),
        LIBUSB_ERROR_BUSY => Some(Error::Busy),
        LIBUSB_ERROR_TIMEOUT => Some(Error::Timeout),
        LIBUSB_ERROR_OVERFLOW => Some(Error::LibUsb),
        LIBUSB_ERROR_PIPE => Some(Error::LibUsb),
        LIBUSB_ERROR_INTERRUPTED => Some(Error::LibUsb),
        LIBUSB_ERROR_NO_MEM => Some(Error::OutOfMemory),
        LIBUSB_ERROR_NOT_SUPPORTED => Some(Error::NotSupported),
        _ => None,
    }
}

/// Turns a native status code into a result.
pub fn err(code: i32) -> (r: Result<()>)
    ensures
        r == status_result(code),
{
    match protocol_status_of(code) {
        Some(r) => r,
        None => match transport_error_of(code) {
            Some(e) => Err(e),
            None => Err(Error::Unknown),
        },
    }
}

/// Exactly one code means success; a code that the protocol vocabulary knows
/// is read by it alone, whatever the transport vocabulary would say of the
/// same number; a code that neither vocabulary knows is `Unknown`.
pub proof fn lemma_status_precedence(code: i32)
    ensures
        status_result(code) is Ok <==> code == NSPIRE_ERR_SUCCESS,
        protocol_status(code) is Some ==> status_result(code) == protocol_status(code)->0,
        protocol_status(code) is None && transport_error(code) is None ==> status_result(code)
            == Err::<(), Error>(Error::Unknown),
{
}

} // verus!
