//! What the C API returns: zero, or the code of an error, with the result of an operation stored
//! where the caller wants it.
use vstd::prelude::*;

use crate::errno::{libc_einval, libc_enoent, libc_enotconn, libc_eproto};
use crate::vcpu::copy_from_slice;

verus! {

/// The number that a function of the C API returns for the result of an operation.
pub fn status(result: Result<(), i32>) -> (r: i32)
    ensures
        r == (match result {
            Ok(_) => 0,
            Err(e) => e,
        }),
{
    match result {
        Ok(_) => 0,
        Err(e) => e,
    }
}

/// Stores the result of an operation in `out` and returns zero. If the operation failed, `out` is
/// left as it is.
pub fn deliver<T>(result: Result<T, i32>, out: &mut T) -> (r: i32)
    ensures
        match result {
            Ok(value) => r == 0 && *final(out) == value,
            Err(e) => r == e && *final(out) == *old(out),
        },
{
    match result {
        Ok(value) => {
            *out = value;
            0
        },
        Err(e) => e,
    }
}

/// What was looked for, or the error that there is no such thing.
pub fn found<T>(sought: Option<T>) -> (r: Result<T, i32>)
    ensures
        r == (match sought {
            Some(value) => Ok(value),
            None => Err(crate::errno::negated(crate::errno::ENOENT)),
        }),
{
    match sought {
        Some(value) => Ok(value),
        None => Err(-libc_enoent()),
    }
}

/// Copies a dirty log to where the caller wants it, if it is of the size that the memory has.
pub fn crosvm_memory_get_dirty_log(bitmap: Result<Vec<u8>, i32>, log_slice: &mut [u8]) -> (r: i32)
    ensures
        final(log_slice)@.len() == old(log_slice)@.len(),
        match bitmap {
            Ok(bitmap) if bitmap@.len() == old(log_slice)@.len() => {
                &&& r == 0
                &&& final(log_slice)@ == bitmap@
            },
            Ok(_) => {
                &&& r == crate::errno::negated(crate::errno::EPROTO)
                &&& final(log_slice)@ == old(log_slice)@
            },
            Err(e) => {
                &&& r == e
                &&& final(log_slice)@ == old(log_slice)@
            },
        },
{
    match bitmap {
        Ok(bitmap) => {
            if bitmap.len() == log_slice.len() {
                copy_from_slice(log_slice, &bitmap);
                0
            } else {
                -libc_eproto()
            }
        },
        Err(e) => e,
    }
}

/// The number that decimal digits stand for, if `s` is made of digits alone.
pub open spec fn decimal(s: Seq<char>) -> Option<nat>
    decreases s.len(),
{
    if s.len() == 0 {
        Some(0)
    } else if '0' <= s.last() <= '9' {
        match decimal(s.drop_last()) {
            Some(n) => Some((10 * n + (s.last() as nat - '0' as nat)) as nat),
            None => None,
        }
    } else {
        None
    }
}

/// The number that `s` stands for: an optional sign, then at least one decimal digit and nothing
/// else. A number that an `i32` cannot hold is none.
pub open spec fn parsed_i32(s: Seq<char>) -> Option<i32> {
    let signed = s.len() > 0 && (s[0] == '-' || s[0] == '+');
    let digits = if signed { s.skip(1) } else { s };
    match decimal(digits) {
        Some(n) if digits.len() > 0 => {
            let value: int = if signed && s[0] == '-' { -n } else { n as int };
            if i32::MIN <= value <= i32::MAX {
                Some(value as i32)
            } else {
                None
            }
        },
        _ => None,
    }
}

/// `str::parse::<i32>` reads an optional `+` or `-` followed by decimal digits only. It fails on
/// anything else, on an empty string or a sign alone, and on a number out of range.
#[verifier::external_body]
fn parse_i32(s: &str) -> (r: Option<i32>)
    ensures
        r == parsed_i32(s@),
{
    s.parse().ok()
}

/// The descriptor of the socket that a plugin is to connect over, given what the environment
/// names it.
pub fn connection_socket(socket_name: Option<&str>) -> (r: Result<i32, i32>)
    ensures
        r == (match socket_name {
            None => Err(crate::errno::negated(crate::errno::ENOTCONN)),
            Some(name) => match parsed_i32(name@) {
                Some(socket) if socket >= 0 => Ok(socket),
                _ => Err(crate::errno::negated(crate::errno::EINVAL)),
            },
        }),
        socket_name is None ==> (r matches Err(e) && e == -crate::errno::ENOTCONN),
        socket_name matches Some(name) ==> (r is Ok <==> parsed_i32(name@) is Some && parsed_i32(
            name@,
        )->0 >= 0),
        socket_name matches Some(name) ==> (r matches Ok(socket) ==> parsed_i32(name@) == Some(
            socket,
        )),
        socket_name matches Some(name) ==> (r matches Err(e) ==> e == -crate::errno::EINVAL),
{
    let name = match socket_name {
        Some(name) => name,
        None => return Err(-libc_enotconn()),
    };
    match parse_i32(name) {
        Some(socket) => {
            if socket < 0 {
                Err(-libc_einval())
            } else {
                Ok(socket)
            }
        },
        None => Err(-libc_einval()),
    }
}

/// A digit after a number makes it ten times as large and adds the digit. Anything else after it
/// makes it no number.
pub proof fn law_digits_append(s: Seq<char>, c: char)
    ensures
        decimal(Seq::<char>::empty()) == Some(0nat),
        decimal(s) matches Some(n) ==> ('0' <= c <= '9' ==> (decimal(s.push(c)) matches Some(m) && m
            == 10 * n + (c as int - '0' as int))),
        !('0' <= c <= '9') ==> decimal(s.push(c)) is None,
        decimal(s) is None ==> decimal(s.push(c)) is None,
{
    assert(s.push(c).drop_last() == s);
}

/// A number is made of digits alone.
pub proof fn law_numbers_are_digits(s: Seq<char>)
    ensures
        decimal(s) is Some <==> forall|i: int| 0 <= i < s.len() ==> '0' <= #[trigger] s[i] <= '9',
    decreases s.len(),
{
    if s.len() > 0 {
        let init = s.drop_last();
        law_numbers_are_digits(init);
        if decimal(s) is Some {
            assert forall|i: int| 0 <= i < s.len() implies '0' <= #[trigger] s[i] <= '9' by {
                if i < init.len() {
                    assert(init[i] == s[i]);
                }
            }
        } else if forall|i: int| 0 <= i < s.len() ==> '0' <= #[trigger] s[i] <= '9' {
            assert forall|i: int| 0 <= i < init.len() implies '0' <= #[trigger] init[i] <= '9' by {
                assert(init[i] == s[i]);
            }
        }
    }
}

/// What is read is the number that the digits stand for, less than zero after a minus. A plus
/// changes nothing. Without a digit, or out of range, nothing is read.
pub proof fn law_sign_and_range(digits: Seq<char>)
    requires
        digits.len() == 0 || (digits[0] != '-' && digits[0] != '+'),
    ensures
        parsed_i32(seq!['+'] + digits) == parsed_i32(digits),
        digits.len() == 0 || decimal(digits) is None ==> parsed_i32(digits) is None && parsed_i32(
            seq!['-'] + digits,
        ) is None,
        decimal(digits) matches Some(n) ==> (digits.len() > 0 ==> {
            &&& n <= i32::MAX ==> (parsed_i32(digits) matches Some(v) && v == n)
            &&& n > i32::MAX ==> parsed_i32(digits) is None
            &&& n <= 0x8000_0000 ==> (parsed_i32(seq!['-'] + digits) matches Some(v) && v + n == 0)
            &&& n > 0x8000_0000 ==> parsed_i32(seq!['-'] + digits) is None
        }),
{
    assert((seq!['+'] + digits).skip(1) == digits);
    assert((seq!['-'] + digits).skip(1) == digits);
}

/// A function of the C API returns zero if the transaction behind it succeeded, and else the code of
/// its error.
pub proof fn law_status_of_a_transaction<H>(
    reply: crate::connection::MainReply<H>,
    result: Result<(), i32>,
    r: i32,
)
    requires
        call_ensures(crate::connection::acknowledge::<H>, (reply,), result),
        call_ensures(status, (result,), r),
    ensures
        reply is Ok ==> r == 0,
        reply matches Err(e) ==> r == e,
{
}

/// The same holds of a transaction over the connection of a VCPU.
pub proof fn law_status_of_a_vcpu_transaction(
    reply: crate::vcpu::VcpuReply,
    result: Result<(), i32>,
    r: i32,
)
    requires
        call_ensures(crate::vcpu::acknowledge_vcpu, (reply,), result),
        call_ensures(status, (result,), r),
    ensures
        reply is Ok ==> r == 0,
        reply matches Err(e) ==> r == e,
{
}

/// What is there is found, and what is not has the code of a missing entry.
pub proof fn law_found_or_missing<T>(sought: Option<T>, r: Result<T, i32>)
    requires
        call_ensures(found::<T>, (sought,), r),
    ensures
        r matches Ok(value) ==> sought == Some(value),
        r matches Err(e) ==> sought is None && e == -2,
{
}

/// A result is stored if and only if there is one, and then zero is returned.
pub proof fn law_result_is_delivered<T>(result: Result<T, i32>, out: &mut T, r: i32)
    requires
        call_ensures(deliver::<T>, (result, out), r),
    ensures
        result matches Ok(value) ==> r == 0 && *final(out) == value,
        result matches Err(e) ==> r == e && *final(out) == *old(out),
{
}

/// A dirty log comes whole, to where it was wanted, or not at all. It does come if it is as long as
/// the place for it.
pub proof fn law_dirty_log_comes_whole(bitmap: Vec<u8>, log_slice: &mut [u8], r: i32)
    requires
        call_ensures(crosvm_memory_get_dirty_log, (Ok(bitmap), log_slice), r),
    ensures
        bitmap@.len() == old(log_slice)@.len() ==> r == 0,
        r == 0 ==> final(log_slice)@ == bitmap@,
        r != 0 ==> r == -71 && final(log_slice)@ == old(log_slice)@,
{
}

/// A plugin is connected over the descriptor that the environment names: digits alone stand for
/// their number, whatever it is, up to the largest that there is.
pub proof fn law_socket_is_the_one_named(name: &str, n: nat, r: Result<i32, i32>)
    requires
        call_ensures(connection_socket, (Some(name),), r),
        name@.len() > 0,
        decimal(name@) == Some(n),
    ensures
        n <= i32::MAX ==> (r matches Ok(socket) && socket == n),
        n > i32::MAX ==> (r matches Err(e) && e == -22),
{
    law_numbers_are_digits(name@);
    law_sign_and_range(name@);
}

} // verus!
