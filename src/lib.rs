//! Host-side client library for TI-Nspire handheld calculators: the verified
//! core between a safe API and the native protocol engine. Start with
//! [`err`] for status codes, [`framebuffer::Image`] for screenshots,
//! [`dir::DirList`] for directory listings and [`info::Info`] for device
//! information.
use vstd::prelude::*;

pub mod cstr;
pub mod dir;
pub mod error;
pub mod framebuffer;
pub mod info;

pub use error::{err, Error, Result, UsbError};
pub use framebuffer::Image;

verus! {

/// The USB vendor ID used by all Nspire calculators.
pub const VID: u16 = 0x0451;
/// The USB product ID used by all non-CX and original CX calculators.
pub const PID: u16 = 0xe012;
/// The USB product ID used by all CX II calculators.
pub const PID_CX2: u16 = 0xe022;

/// Whether a USB product identifier is that of a CX II, which the protocol
/// engine must be told of when it is initialised.
pub fn is_cx_ii_product(product_id: u16) -> (r: bool)
    ensures
        r <==> product_id == PID_CX2,
{
    product_id == PID_CX2
}

/// The outcome of initialising the protocol engine: the status code's error
/// if it has one, else `NoDevice` when no engine instance came back.
pub fn init_result(code: i32, has_instance: bool) -> (r: Result<()>)
    ensures
        error::status_result(code) is Err ==> r == error::status_result(code),
        error::status_result(code) is Ok ==> (r is Ok <==> has_instance),
        error::status_result(code) is Ok && !has_instance ==> r == Err::<(), Error>(
            Error::NoDevice),
{
    match err(code) {
        Err(e) => Err(e),
        Ok(()) => {
            if has_instance {
                Ok(())
            } else {
                Err(Error::NoDevice)
            }
        },
    }
}

} // verus!
