//! Which firmware a controller is given, and how a load goes on after each step.

use vstd::prelude::*;

use crate::bytes;
use crate::errno::Errno;
use crate::text;

verus! {

/// Bytes that go to the controller at once; 0 stands for the longest packet of the endpoint.
pub const FW_DEFAULT_CHUNK_SIZE: i32 = 0;

/// The start of every file name: "sparklink/".
pub open spec fn base_path() -> Seq<u8> {
    seq![115u8, 112, 97, 114, 107, 108, 105, 110, 107, 47]
}

/// The end of every file name: ".bin" and a zero byte.
pub open spec fn suffix() -> Seq<u8> {
    seq![46u8, 98, 105, 110, 0]
}

/// The file for controllers on USB in a version, closed by a zero byte.
pub open spec fn usb_file(version: nat) -> Seq<u8> {
    base_path() + seq![115u8, 108, 101, 95, 117, 115, 98, 95, 118] + text::digits(version)
        + suffix()
}

/// The file for controllers on a serial line in a version, closed by a zero byte.
pub open spec fn uart_file(version: nat) -> Seq<u8> {
    base_path() + seq![115u8, 108, 101, 95, 117, 97, 114, 116, 95, 118] + text::digits(version)
        + suffix()
}

/// The start of every file name.
pub fn fw_base_path() -> (r: Vec<u8>)
    ensures
        r@ == base_path(),
{
    let r = bytes::to_vec(&[115, 112, 97, 114, 107, 108, 105, 110, 107, 47]);
    assert(r@ =~= base_path());
    r
}

fn file(stem: &[u8], version: u32) -> (r: Vec<u8>)
    ensures
        r@ == base_path() + stem@ + text::digits(version as nat) + suffix(),
{
    let mut r = fw_base_path();
    bytes::extend(&mut r, stem);
    let d = text::to_digits(version);
    bytes::extend(&mut r, d.as_slice());
    let end = [46u8, 98, 105, 110, 0];
    assert(end@ =~= suffix());
    bytes::extend(&mut r, &end);
    r
}

/// The file for controllers on USB in a version, closed by a zero byte.
pub fn usb_file_name(version: u32) -> (r: Vec<u8>)
    ensures
        r@ == usb_file(version as nat),
{
    let stem = [115u8, 108, 101, 95, 117, 115, 98, 95, 118];
    assert(stem@ =~= seq![115u8, 108, 101, 95, 117, 115, 98, 95, 118]);
    file(&stem, version)
}

/// The file for controllers on USB unless told otherwise, closed by a zero byte.
pub fn fw_usb_default() -> (r: Vec<u8>)
    ensures
        r@ == usb_file(1),
{
    usb_file_name(1)
}

/// The file for controllers on a serial line unless told otherwise, closed by a zero
/// byte.
pub fn fw_uart_default() -> (r: Vec<u8>)
    ensures
        r@ == uart_file(1),
{
    let stem = [115u8, 108, 101, 95, 117, 97, 114, 116, 95, 118];
    assert(stem@ =~= seq![115u8, 108, 101, 95, 117, 97, 114, 116, 95, 118]);
    file(&stem, 1)
}

/// A load that went through.
#[derive(Clone, Copy, Debug, PartialEq, Eq, Structural)]
pub struct FwDownloadResult {
    /// Length of the firmware.
    pub size: usize,
    /// Whether the controller took it.
    pub success: bool,
}

/// Why a load failed.
#[derive(Clone, Copy, Debug, PartialEq, Eq, Structural)]
pub enum FwError {
    /// The file is of no use.
    Refused(Errno),
    /// The machine reported a number.
    Reported(i32),
}

/// What a load waits for.
pub enum FwStep {
    /// For a file; where there is none, the usual file is asked for if `fallback`.
    Request { name: Vec<u8>, fallback: bool },
    /// For the controller to take `size` bytes.
    Download { size: usize },
    /// For nothing: it went through.
    Done(FwDownloadResult),
    /// For nothing: it failed.
    Failed(FwError),
}

/// What a load waits for as a value.
#[verifier::ext_equal]
pub enum FwStepModel {
    /// For a file; where there is none, the usual file is asked for if `fallback`.
    Request { name: Seq<u8>, fallback: bool },
    /// For the controller to take `size` bytes.
    Download { size: usize },
    /// For nothing: it went through.
    Done(FwDownloadResult),
    /// For nothing: it failed.
    Failed(FwError),
}

impl View for FwStep {
    type V = FwStepModel;

    open spec fn view(&self) -> FwStepModel {
        match *self {
            FwStep::Request { name, fallback } => FwStepModel::Request { name: name@, fallback },
            FwStep::Download { size } => FwStepModel::Download { size },
            FwStep::Done(r) => FwStepModel::Done(r),
            FwStep::Failed(e) => FwStepModel::Failed(e),
        }
    }
}

impl FwStepModel {
    /// After the reply to a request: the length of the file, or a number where there is none.
    pub open spec fn found(self, reply: Result<usize, i32>) -> FwStepModel {
        match reply {
            Ok(size) => if size == 0 {
                FwStepModel::Failed(FwError::Refused(Errno::EINVAL))
            } else {
                FwStepModel::Download { size }
            },
            Err(code) => if self->fallback {
                FwStepModel::Request { name: usb_file(1), fallback: false }
            } else {
                FwStepModel::Failed(FwError::Reported(code))
            },
        }
    }

    /// After the controller answered; a number below 0 is a failure.
    pub open spec fn taken(self, ret: i32) -> FwStepModel {
        if ret < 0 {
            FwStepModel::Failed(FwError::Reported(ret))
        } else {
            FwStepModel::Done(
                FwDownloadResult { size: self->Download_size, success: true },
            )
        }
    }
}

/// Starts a load of one file, whose name is handed on as it is, with its closing zero
/// byte.
pub fn load_usb_firmware(fw_name: &[u8]) -> (r: FwStep)
    ensures
        r@ == (FwStepModel::Request { name: fw_name@, fallback: false }),
{
    FwStep::Request { name: bytes::to_vec(fw_name), fallback: false }
}

/// Starts a load of the file of a version, where it is known, and of the usual file where
/// there is no such file.
pub fn load_usb_firmware_versioned(fw_version: u32) -> (r: FwStep)
    ensures
        r@ == (if fw_version > 0 {
            FwStepModel::Request { name: usb_file(fw_version as nat), fallback: true }
        } else {
            FwStepModel::Request { name: usb_file(1), fallback: false }
        }),
{
    if fw_version > 0 {
        FwStep::Request { name: usb_file_name(fw_version), fallback: true }
    } else {
        FwStep::Request { name: fw_usb_default(), fallback: false }
    }
}

impl FwStep {
    /// The reply to a request came: the length of the file, or a number where there is none.
    pub fn found(self, reply: Result<usize, i32>) -> (r: FwStep)
        requires
            self is Request,
        ensures
            r@ == self@.found(reply),
    {
        match reply {
            Ok(size) => if size == 0 {
                FwStep::Failed(FwError::Refused(Errno::EINVAL))
            } else {
                FwStep::Download { size }
            },
            Err(code) => {
                let fallback = match self {
                    FwStep::Request { fallback, .. } => fallback,
                    _ => false,
                };
                if fallback {
                    FwStep::Request { name: fw_usb_default(), fallback: false }
                } else {
                    FwStep::Failed(FwError::Reported(code))
                }
            },
        }
    }

    /// The controller answered; a number below 0 is a failure.
    pub fn taken(self, ret: i32) -> (r: FwStep)
        requires
            self is Download,
        ensures
            r@ == self@.taken(ret),
    {
        if ret < 0 {
            return FwStep::Failed(FwError::Reported(ret));
        }
        let size: usize = match self {
            FwStep::Download { size } => size,
            _ => 0,
        };
        FwStep::Done(FwDownloadResult { size, success: true })
    }
}

/// A file name is closed by a zero byte and holds none before it.
pub proof fn names_are_closed(version: nat)
    ensures
        usb_file(version).last() == 0,
        uart_file(version).last() == 0,
        forall|i: int| 0 <= i < usb_file(version).len() - 1 ==> usb_file(version)[i] != 0,
        forall|i: int| 0 <= i < uart_file(version).len() - 1 ==> uart_file(version)[i] != 0,
{
    text::digits_are_digits(version);
}

/// Where there is no file of a version, the usual file is asked for, and after that nothing:
/// the load fails with the number that the last request gave.
pub proof fn falls_back_once(s: FwStepModel, code: i32, last: i32)
    requires
        s matches FwStepModel::Request { fallback, .. } && fallback,
    ensures
        s.found(Err(code)) == (FwStepModel::Request { name: usb_file(1), fallback: false }),
        s.found(Err(code)).found(Err(last)) == FwStepModel::Failed(FwError::Reported(last)),
{
}

/// A file that is not empty and that the controller takes is reported with its length.
pub proof fn goes_through(s: FwStepModel, size: usize, ret: i32)
    requires
        s is Request,
        size > 0,
        ret >= 0,
    ensures
        s.found(Ok(size)).taken(ret) == FwStepModel::Done(
            FwDownloadResult { size, success: true },
        ),
{
}

} // verus!
