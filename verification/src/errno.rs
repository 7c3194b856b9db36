//! Error numbers, and how the errors of other layers turn into the negative numbers that the C
//! API returns.
use vstd::prelude::*;

use protobuf::ProtobufError;

verus! {

/// No such entry.
pub const ENOENT: i32 = 2;

/// Invalid argument.
pub const EINVAL: i32 = 22;

/// Protocol error.
pub const EPROTO: i32 = 71;

/// Not connected.
pub const ENOTCONN: i32 = 107;

/// `libc::ENOENT`, on the x86 and ARM Linux hosts that a virtual machine monitor runs on.
#[verifier::external_body]
pub(crate) fn libc_enoent() -> (r: i32)
    ensures
        r == ENOENT,
{
    libc::ENOENT
}

/// `libc::EINVAL`, on the x86 and ARM Linux hosts that a virtual machine monitor runs on.
#[verifier::external_body]
pub(crate) fn libc_einval() -> (r: i32)
    ensures
        r == EINVAL,
{
    libc::EINVAL
}

/// `libc::EPROTO`, on the x86 and ARM Linux hosts that a virtual machine monitor runs on.
#[verifier::external_body]
pub(crate) fn libc_eproto() -> (r: i32)
    ensures
        r == EPROTO,
{
    libc::EPROTO
}

/// `libc::ENOTCONN`, on the x86 and ARM Linux hosts that a virtual machine monitor runs on.
#[verifier::external_body]
pub(crate) fn libc_enotconn() -> (r: i32)
    ensures
        r == ENOTCONN,
{
    libc::ENOTCONN
}

/// What a protobuf message fails with when it is written or parsed.
#[verifier::external_type_specification]
#[verifier::external_body]
pub struct ExProtobufError(ProtobufError);

/// What an operation of the operating system fails with.
#[verifier::external_type_specification]
#[verifier::external_body]
pub struct ExIoError(std::io::Error);

/// The I/O error that `e` holds, if it is `ProtobufError::IoError`.
pub uninterp spec fn protobuf_io_error(e: ProtobufError) -> Option<std::io::Error>;

/// The operating system's number of the error `e`, if it has one.
pub uninterp spec fn os_error_number(e: std::io::Error) -> Option<i32>;

/// Tells `ProtobufError::IoError` from the other variants of protobuf's error and hands out the
/// I/O error inside. Which variant it is depends on the error alone.
#[verifier::external_body]
fn io_error_of(e: ProtobufError) -> (r: Option<std::io::Error>)
    ensures
        r == protobuf_io_error(e),
{
    match e {
        ProtobufError::IoError(e) => Some(e),
        _ => None,
    }
}

/// `std::io::Error::raw_os_error` returns the number of the operating system's error that `e`
/// represents, and `None` if it represents none. The number depends on the error alone.
#[verifier::external_body]
fn raw_os_error(e: &std::io::Error) -> (r: Option<i32>)
    ensures
        r == os_error_number(*e),
{
    e.raw_os_error()
}

/// `n` with its sign turned round, as a machine does it: the least number stays as it is.
pub open spec fn negated(n: i32) -> i32 {
    if n == i32::MIN {
        n
    } else {
        (-n) as i32
    }
}

/// The code that stands for the error number `errno`.
pub fn errno_to_int(errno: i32) -> (r: i32)
    ensures
        r == negated(errno),
        errno > i32::MIN ==> r == -errno,
        errno == i32::MIN ==> r == errno,
{
    if errno == i32::MIN {
        errno
    } else {
        -errno
    }
}

/// The code that stands for an I/O error with the number `os_error`.
pub open spec fn os_error_code(os_error: Option<i32>) -> i32 {
    match os_error {
        Some(n) => negated(n),
        None => negated(EINVAL),
    }
}

/// The code that stands for an I/O error, given its number: `-EINVAL` if it has none.
pub fn os_error_to_int(os_error: Option<i32>) -> (r: i32)
    ensures
        r == os_error_code(os_error),
        os_error matches Some(n) ==> (n > i32::MIN ==> r == -n),
        os_error is None ==> r == -EINVAL,
{
    match os_error {
        Some(n) => errno_to_int(n),
        None => -libc_einval(),
    }
}

/// The code that stands for an I/O error.
pub fn io_error_to_int(e: std::io::Error) -> (r: i32)
    ensures
        r == os_error_code(os_error_number(e)),
{
    os_error_to_int(raw_os_error(&e))
}

/// The code that stands for an error in writing or parsing a message: that of the I/O error
/// behind it, and `-EINVAL` if there is none.
pub open spec fn proto_error_code(e: ProtobufError) -> i32 {
    match protobuf_io_error(e) {
        Some(io) => os_error_code(os_error_number(io)),
        None => negated(EINVAL),
    }
}

/// The code that stands for an error in writing or parsing a message: that of the I/O error
/// behind it, and `-EINVAL` if there is none.
pub fn proto_error_to_int(e: ProtobufError) -> (r: i32)
    ensures
        r == proto_error_code(e),
{
    let os_error: Option<i32> = match io_error_of(e) {
        Some(io) => raw_os_error(&io),
        None => None,
    };
    os_error_to_int(os_error)
}

/// The code of an error is its number with the sign turned round, so that no two numbers share a
/// code and the sum of both is zero.
pub proof fn law_codes_are_negative_numbers(m: i32, n: i32)
    ensures
        n > i32::MIN ==> negated(n) + n == 0,
        n > i32::MIN ==> negated(negated(n)) == n,
        n > 0 ==> negated(n) < 0,
        negated(m) == negated(n) ==> m == n,
        os_error_code(Some(n)) == negated(n),
        os_error_code(None) == -22,
{
}

/// An error in writing or parsing a message that is an I/O error at heart has the code of that
/// error. One that is not, or whose I/O error has no number, counts as an invalid argument.
pub proof fn law_proto_error_codes(e: ProtobufError, io: std::io::Error, n: i32)
    ensures
        protobuf_io_error(e) is None ==> proto_error_code(e) == -22,
        protobuf_io_error(e) == Some(io) && os_error_number(io) is None ==> proto_error_code(e)
            == -22,
        protobuf_io_error(e) == Some(io) && os_error_number(io) == Some(n) && n > i32::MIN
            ==> proto_error_code(e) + n == 0,
{
}

/// The numbers behind the names.
pub proof fn law_error_numbers()
    ensures
        ENOENT == 2,
        EINVAL == 22,
        EPROTO == 71,
        ENOTCONN == 107,
{
}

} // verus!
