//! The objects that a plugin creates: events on writes of the guest, ranges of guest memory, and
//! pairs of events for an interrupt.
//!
//! To create one, its identifier is taken and a request made. If nothing comes of the request, the
//! identifier is given back.
use vstd::prelude::*;

use vstd::arithmetic::div_mod::lemma_div_denominator;
use vstd::arithmetic::power::{lemma_pow_positive, pow};

use crate::connection::{take_file, MainCall, MainReply};
use crate::errno::{libc_einval, libc_eproto};
use crate::ids::IdAllocator;
use crate::protocol::{AddressSpace, CreateObject, MainRequest};

verus! {

/// An object that was asked for: its identifier and the call that asks for it.
pub struct Creation {
    pub id: u32,
    pub call: MainCall,
}

impl Creation {
    /// Whether this asks for `object` under the identifier that comes next at `next`, and sends
    /// `fds` along.
    pub open spec fn asks_for(self, next: usize, object: CreateObject, fds: Seq<i32>) -> bool {
        &&& self.id == crate::ids::id_at(next)
        &&& self.call.request == (MainRequest::Create { id: self.id, object })
        &&& self.call.fds@ == fds
    }
}

/// The number that `bytes` hold, the least significant byte first.
pub open spec fn le_value(bytes: Seq<u8>) -> nat
    decreases bytes.len(),
{
    if bytes.len() == 0 {
        0
    } else {
        bytes[0] as nat + 256 * le_value(bytes.skip(1))
    }
}

/// Whether a write of `length` bytes can be matched against a value. Of no bytes means of any
/// length.
pub open spec fn is_datamatch_length(length: u32) -> bool {
    length == 0 || length == 1 || length == 2 || length == 4 || length == 8
}

/// How many bytes the value has that writes of `length` bytes are matched against.
pub fn datamatch_size(length: u32) -> (r: Result<usize, i32>)
    ensures
        r == (if is_datamatch_length(length) {
            Ok(length as usize)
        } else {
            Err(crate::errno::negated(crate::errno::EINVAL))
        }),
        r is Ok <==> length == 0 || length == 1 || length == 2 || length == 4 || length == 8,
        r matches Ok(size) ==> size == length,
        r matches Err(e) ==> e == -crate::errno::EINVAL,
{
    match length {
        0 => Ok(0),
        1 => Ok(1),
        2 => Ok(2),
        4 => Ok(4),
        8 => Ok(8),
        _ => Err(-libc_einval()),
    }
}

/// The number that bytes hold, the least significant first, has just these bytes as its digits to
/// the base 256.
pub proof fn law_bytes_are_the_digits(bytes: Seq<u8>)
    ensures
        0 <= le_value(bytes) < pow(256, bytes.len()),
        forall|i: int|
            0 <= i < bytes.len() ==> (le_value(bytes) as int / pow(256, i as nat)) % 256
                == #[trigger] bytes[i],
    decreases bytes.len(),
{
    reveal_with_fuel(pow, 2);
    if bytes.len() > 0 {
        let rest = bytes.skip(1);
        let value = le_value(bytes) as int;
        law_bytes_are_the_digits(rest);
        assert(pow(256, bytes.len()) == 256 * pow(256, rest.len()));
        assert(value / 256 == le_value(rest));
        assert forall|i: int| 0 <= i < bytes.len() implies (value / pow(256, i as nat)) % 256
            == #[trigger] bytes[i] by {
            if i == 0 {
                assert(pow(256, i as nat) == 1);
                assert(value / 1 == value);
                assert(value % 256 == bytes[0]);
            } else {
                let p = pow(256, (i - 1) as nat);
                lemma_pow_positive(256, (i - 1) as nat);
                assert(pow(256, i as nat) == 256 * p);
                lemma_div_denominator(value, 256, p);
                assert(value / pow(256, i as nat) == le_value(rest) as int / p);
                assert(rest[i - 1] == bytes[i]);
                assert((le_value(rest) as int / pow(256, (i - 1) as nat)) % 256 == rest[i - 1]);
            }
        }
    }
}

/// Different bytes of one length hold different numbers.
pub proof fn law_bytes_are_told_apart(a: Seq<u8>, b: Seq<u8>)
    requires
        a.len() == b.len(),
        le_value(a) == le_value(b),
    ensures
        a == b,
{
    law_bytes_are_the_digits(a);
    law_bytes_are_the_digits(b);
    assert forall|i: int| 0 <= i < a.len() implies a[i] == b[i] by {
        assert(a[i] == (le_value(a) as int / pow(256, i as nat)) % 256);
        assert(b[i] == (le_value(b) as int / pow(256, i as nat)) % 256);
    }
}

/// A write can be matched against a value if it is of one, two, four or eight bytes, or of any
/// length.
pub proof fn law_lengths_that_can_be_matched(length: u32)
    ensures
        is_datamatch_length(0),
        is_datamatch_length(length) && length > 0 ==> 8u32 % length == 0,
        length > 0 && 8u32 % length == 0 ==> is_datamatch_length(length),
{
    if 8 < length {
        assert(8u32 % length == 8) by (nonlinear_arith)
            requires
                8 < length,
        ;
    } else {
        assert(8u32 % 3 == 2);
        assert(8u32 % 5 == 3);
        assert(8u32 % 6 == 2);
        assert(8u32 % 7 == 1);
    }
}

/// An object is asked for under one identifier, the next, and with the descriptors given.
pub proof fn law_creation_asks_for_one_object(
    creation: Creation,
    next: usize,
    object: CreateObject,
    fds: Seq<i32>,
)
    requires
        creation.asks_for(next, object, fds),
    ensures
        next <= u32::MAX ==> creation.id == next,
        creation.call.request matches MainRequest::Create { id, object: asked } && id
            == creation.id && asked == object,
        creation.call.fds@ == fds,
{
}

/// 256 to the power `n`.
spec fn pow256(n: nat) -> nat
    decreases n,
{
    if n == 0 {
        1
    } else {
        256 * pow256((n - 1) as nat)
    }
}

proof fn lemma_le_value_bound(bytes: Seq<u8>)
    ensures
        le_value(bytes) < pow256(bytes.len()),
    decreases bytes.len(),
{
    if bytes.len() > 0 {
        lemma_le_value_bound(bytes.skip(1));
    }
}

/// The number that `bytes` hold, the least significant byte first.
fn read_le(bytes: &[u8]) -> (r: u64)
    requires
        bytes@.len() <= 8,
    ensures
        r == le_value(bytes@),
        r < pow(256, bytes@.len()),
        forall|i: int|
            0 <= i < bytes@.len() ==> (r as int / pow(256, i as nat)) % 256 == #[trigger] bytes@[i],
{
    let mut value: u64 = 0;
    let mut i: usize = bytes.len();
    assert(bytes@.skip(i as int) == Seq::<u8>::empty());
    while i > 0
        invariant
            i <= bytes@.len() <= 8,
            value == le_value(bytes@.skip(i as int)),
        decreases i,
    {
        i = i - 1;
        let ghost rest = bytes@.skip(i as int);
        assert(rest.skip(1) == bytes@.skip(i + 1));
        proof {
            lemma_le_value_bound(rest);
            reveal_with_fuel(pow256, 9);
        }
        assert(value * 256 + bytes@[i as int] == le_value(rest));
        value = value * 256 + bytes[i] as u64;
    }
    assert(bytes@.skip(0) == bytes@);
    proof {
        law_bytes_are_the_digits(bytes@);
    }
    value
}

/// An event that fires when the guest writes to an address.
pub struct crosvm_io_event<H> {
    pub id: u32,
    pub evt: H,
}

impl<H> crosvm_io_event<H> {
    /// Asks for an event. Its value to match is in the first bytes of `datamatch`, the least
    /// significant first, as many as the length says.
    pub fn create_request(
        ids: &mut IdAllocator,
        space: Option<AddressSpace>,
        addr: u64,
        length: u32,
        datamatch: &[u8],
    ) -> (r: Result<Creation, i32>)
        requires
            is_datamatch_length(length) ==> length <= datamatch@.len(),
        ensures
            match space {
                Some(space) if is_datamatch_length(length) => {
                    &&& r matches Ok(c)
                    &&& c.asks_for(
                        old(ids)@,
                        CreateObject::IoEvent {
                            space,
                            address: addr,
                            length,
                            datamatch: le_value(datamatch@.take(length as int)) as u64,
                        },
                        Seq::empty(),
                    )
                    &&& le_value(datamatch@.take(length as int)) <= u64::MAX
                },
                _ => r == Err::<Creation, i32>(crate::errno::negated(crate::errno::EINVAL)),
            },
            final(ids)@ == (if is_datamatch_length(length) {
                crate::ids::after_alloc(old(ids)@)
            } else {
                old(ids)@
            }),
            r is Ok <==> space is Some && (length == 0 || length == 1 || length == 2 || length == 4
                || length == 8),
            r matches Err(e) ==> e == -crate::errno::EINVAL,
            r matches Ok(c) ==> {
                &&& c.id == old(ids)@ as int % 0x1_0000_0000
                &&& c.call.fds@ == Seq::<i32>::empty()
                &&& c.call.request matches MainRequest::Create {
                    id,
                    object: CreateObject::IoEvent { space: s, address: a, length: l, datamatch: d },
                }
                &&& id == c.id
                &&& space == Some(s)
                &&& a == addr
                &&& l == length
                &&& d < pow(256, length as nat)
                &&& forall|i: int|
                    0 <= i < length ==> (d as int / pow(256, i as nat)) % 256
                        == #[trigger] datamatch@[i]
            },
    {
        let size: usize = match datamatch_size(length) {
            Ok(size) => size,
            Err(e) => return Err(e),
        };
        let value: u64 = read_le(vstd::slice::slice_subrange(datamatch, 0, size));
        assert forall|i: int| 0 <= i < length implies (value as int / pow(256, i as nat)) % 256
            == #[trigger] datamatch@[i] by {
            assert(datamatch@.take(length as int)[i] == datamatch@[i]);
        }
        Self::safe_create_request(ids, space, addr, length, value)
    }

    /// Asks for an event, given the value to match. The identifier is taken before the address
    /// space is looked at: it stays taken if there is no such space.
    pub fn safe_create_request(
        ids: &mut IdAllocator,
        space: Option<AddressSpace>,
        addr: u64,
        length: u32,
        datamatch: u64,
    ) -> (r: Result<Creation, i32>)
        ensures
            match space {
                Some(space) => {
                    &&& r matches Ok(c)
                    &&& c.asks_for(
                        old(ids)@,
                        CreateObject::IoEvent { space, address: addr, length, datamatch },
                        Seq::empty(),
                    )
                },
                None => r == Err::<Creation, i32>(crate::errno::negated(crate::errno::EINVAL)),
            },
            final(ids)@ == crate::ids::after_alloc(old(ids)@),
            old(ids)@ < usize::MAX ==> final(ids)@ == old(ids)@ + 1,
            r matches Ok(c) ==> {
                &&& c.id == old(ids)@ as int % 0x1_0000_0000
                &&& c.call.fds@ == Seq::<i32>::empty()
                &&& c.call.request == (MainRequest::Create {
                    id: c.id,
                    object: CreateObject::IoEvent {
                        space: space->0,
                        address: addr,
                        length,
                        datamatch,
                    },
                })
            },
    {
        let id: u32 = ids.allocate();
        match space {
            Some(space) => {
                let object: CreateObject = CreateObject::IoEvent {
                    space,
                    address: addr,
                    length,
                    datamatch,
                };
                Ok(
                    Creation {
                        id,
                        call: MainCall {
                            request: MainRequest::Create { id, object },
                            fds: Vec::new(),
                        },
                    },
                )
            },
            None => Err(-libc_einval()),
        }
    }

    /// Makes the event of what came of asking for it: it is the last file that came. If there is
    /// none, the identifier is given back.
    pub fn safe_create(ids: &mut IdAllocator, id: u32, reply: MainReply<H>) -> (r: Result<
        crosvm_io_event<H>,
        i32,
    >)
        ensures
            match crate::connection::last_file(reply) {
                Ok(evt) => {
                    &&& r == Ok::<crosvm_io_event<H>, i32>(crosvm_io_event { id, evt })
                    &&& final(ids)@ == old(ids)@
                },
                Err(e) => {
                    &&& r == Err::<crosvm_io_event<H>, i32>(e)
                    &&& final(ids)@ == crate::ids::after_free(old(ids)@, id)
                },
            },
            reply matches Ok((_, files)) ==> (files@.len() >= 1 ==> (r matches Ok(event)
                && event.id == id && event.evt == files@[files@.len() - 1])),
            reply matches Ok((_, files)) ==> (files@.len() == 0 ==> (r matches Err(e) && e
                == -crate::errno::EPROTO)),
            reply matches Err(e) ==> (r matches Err(f) && f == e),
            r is Ok || old(ids)@ != id + 1 ==> final(ids)@ == old(ids)@,
            r is Err && old(ids)@ == id + 1 ==> final(ids)@ == id,
    {
        match take_file(reply) {
            Ok(evt) => Ok(crosvm_io_event { id, evt }),
            Err(e) => {
                ids.free(id);
                Err(e)
            },
        }
    }
}

/// A range of guest memory.
#[derive(Debug, PartialEq, Eq)]
pub struct crosvm_memory {
    pub id: u32,
    pub length: u64,
}

/// The size of a page of memory.
pub const PAGE_SIZE: u64 = 0x1000;

/// What of an address lies inside a page.
const PAGE_MASK: u64 = 0x0fff;

impl crosvm_memory {
    /// Asks for a range of guest memory, backed by the file `fd`. The range and the place in the
    /// file have to be made of whole pages.
    pub fn create_request(
        ids: &mut IdAllocator,
        fd: i32,
        offset: u64,
        length: u64,
        start: u64,
        read_only: bool,
        dirty_log: bool,
    ) -> (r: Result<Creation, i32>)
        ensures
            if offset % PAGE_SIZE == 0 && length % PAGE_SIZE == 0 {
                &&& r matches Ok(c)
                &&& c.asks_for(
                    old(ids)@,
                    CreateObject::Memory { offset, start, length, read_only, dirty_log },
                    seq![fd],
                )
                &&& final(ids)@ == crate::ids::after_alloc(old(ids)@)
            } else {
                &&& r == Err::<Creation, i32>(crate::errno::negated(crate::errno::EINVAL))
                &&& final(ids)@ == old(ids)@
            },
            r is Ok <==> offset as int % 4096 == 0 && length as int % 4096 == 0,
            r matches Err(e) ==> e == -crate::errno::EINVAL && final(ids)@ == old(ids)@,
            r matches Ok(c) ==> {
                &&& old(ids)@ < usize::MAX ==> final(ids)@ == old(ids)@ + 1
                &&& c.id == old(ids)@ as int % 0x1_0000_0000
                &&& c.call.fds@ == seq![fd]
                &&& c.call.request == (MainRequest::Create {
                    id: c.id,
                    object: CreateObject::Memory { offset, start, length, read_only, dirty_log },
                })
            },
    {
        assert(offset & 0x0fff == offset % 0x1000) by (bit_vector);
        assert(length & 0x0fff == length % 0x1000) by (bit_vector);
        if offset & PAGE_MASK != 0 || length & PAGE_MASK != 0 {
            return Err(-libc_einval());
        }
        let id: u32 = ids.allocate();
        let object: CreateObject = CreateObject::Memory {
            offset,
            start,
            length,
            read_only,
            dirty_log,
        };
        let mut fds: Vec<i32> = Vec::new();
        fds.push(fd);
        Ok(Creation { id, call: MainCall { request: MainRequest::Create { id, object }, fds } })
    }

    /// Makes the memory of what came of asking for `length` bytes of it. If it was refused, the
    /// identifier is given back.
    pub fn create<H>(ids: &mut IdAllocator, id: u32, length: u64, reply: MainReply<H>) -> (r: Result<
        crosvm_memory,
        i32,
    >)
        ensures
            match reply {
                Ok(_) => {
                    &&& r == Ok::<crosvm_memory, i32>(crosvm_memory { id, length })
                    &&& final(ids)@ == old(ids)@
                },
                Err(e) => {
                    &&& r == Err::<crosvm_memory, i32>(e)
                    &&& final(ids)@ == crate::ids::after_free(old(ids)@, id)
                },
            },
            r is Ok || old(ids)@ != id + 1 ==> final(ids)@ == old(ids)@,
            r is Err && old(ids)@ == id + 1 ==> final(ids)@ == id,
    {
        match reply {
            Ok(_) => Ok(crosvm_memory { id, length }),
            Err(e) => {
                ids.free(id);
                Err(e)
            },
        }
    }

    /// Asks which pages were written to.
    pub fn get_dirty_log_request(&self) -> (r: MainCall)
        ensures
            r.sends(MainRequest::DirtyLog { id: self.id }),
            r.request == (MainRequest::DirtyLog { id: self.id }),
            r.fds@ == Seq::<i32>::empty(),
    {
        MainCall { request: MainRequest::DirtyLog { id: self.id }, fds: Vec::new() }
    }

    /// The bitmap of the pages that were written to.
    pub fn get_dirty_log<H>(reply: MainReply<H>) -> (r: Result<Vec<u8>, i32>)
        ensures
            r == (match reply {
                Ok((response, _)) => match response.dirty_log {
                    Some(bitmap) => Ok(bitmap),
                    None => Err(crate::errno::negated(crate::errno::EPROTO)),
                },
                Err(e) => Err(e),
            }),
    {
        match reply {
            Ok((response, _)) => match response.dirty_log {
                Some(bitmap) => Ok(bitmap),
                None => Err(-libc_eproto()),
            },
            Err(e) => Err(e),
        }
    }
}

/// A pair of events that trigger an interrupt and tell that it is to be sampled again.
pub struct crosvm_irq_event<H> {
    pub id: u32,
    pub trigger_evt: H,
    pub resample_evt: H,
}

impl<H> crosvm_irq_event<H> {
    /// Asks for the events of the interrupt `irq_id`.
    pub fn create_request(ids: &mut IdAllocator, irq_id: u32) -> (r: Creation)
        ensures
            r.asks_for(
                old(ids)@,
                CreateObject::IrqEvent { irq_id, resample: true },
                Seq::empty(),
            ),
            final(ids)@ == crate::ids::after_alloc(old(ids)@),
            old(ids)@ < usize::MAX ==> final(ids)@ == old(ids)@ + 1,
            r.id == old(ids)@ as int % 0x1_0000_0000,
            r.call.fds@ == Seq::<i32>::empty(),
            r.call.request == (MainRequest::Create {
                id: r.id,
                object: CreateObject::IrqEvent { irq_id, resample: true },
            }),
    {
        let id: u32 = ids.allocate();
        let object: CreateObject = CreateObject::IrqEvent { irq_id, resample: true };
        Creation {
            id,
            call: MainCall { request: MainRequest::Create { id, object }, fds: Vec::new() },
        }
    }

    /// Makes the events of what came of asking for them: they are the last two files that came,
    /// the trigger first. If there are not as many, the identifier is given back.
    pub fn create(ids: &mut IdAllocator, id: u32, reply: MainReply<H>) -> (r: Result<
        crosvm_irq_event<H>,
        i32,
    >)
        ensures
            match reply {
                Ok((_, files)) if files@.len() >= 2 => {
                    &&& r == Ok::<crosvm_irq_event<H>, i32>(
                        crosvm_irq_event {
                            id,
                            trigger_evt: files@[files@.len() - 2],
                            resample_evt: files@[files@.len() - 1],
                        },
                    )
                    &&& final(ids)@ == old(ids)@
                },
                Ok(_) => {
                    &&& r == Err::<crosvm_irq_event<H>, i32>(
                        crate::errno::negated(crate::errno::EPROTO),
                    )
                    &&& final(ids)@ == crate::ids::after_free(old(ids)@, id)
                },
                Err(e) => {
                    &&& r == Err::<crosvm_irq_event<H>, i32>(e)
                    &&& final(ids)@ == crate::ids::after_free(old(ids)@, id)
                },
            },
            r is Ok || old(ids)@ != id + 1 ==> final(ids)@ == old(ids)@,
            r is Err && old(ids)@ == id + 1 ==> final(ids)@ == id,
    {
        let ret: i32 = match reply {
            Ok((_, files)) => {
                let mut files = files;
                if files.len() >= 2 {
                    let resample_evt = files.pop().unwrap();
                    let trigger_evt = files.pop().unwrap();
                    return Ok(crosvm_irq_event { id, trigger_evt, resample_evt });
                }
                -libc_eproto()
            },
            Err(e) => e,
        };
        ids.free(id);
        Err(ret)
    }
}

/// A page has 4096 bytes.
pub proof fn law_size_of_a_page()
    ensures
        PAGE_SIZE == 4096,
{
}

/// An event on a write is asked for as the plugin wants it, and the value to match has the bytes
/// given as its digits to the base 256, and no others.
pub proof fn law_event_matches_the_bytes_given<H>(
    ids: &mut IdAllocator,
    space: AddressSpace,
    addr: u64,
    length: u32,
    datamatch: &[u8],
    r: Result<Creation, i32>,
)
    requires
        call_ensures(
            crosvm_io_event::<H>::create_request,
            (ids, Some(space), addr, length, datamatch),
            r,
        ),
    ensures
        r is Ok <==> length == 0 || 8u32 % length == 0,
        r matches Ok(c) ==> (c.call.request matches MainRequest::Create {
            id,
            object: CreateObject::IoEvent { space: s, address, length: l, datamatch: d },
        } && {
            &&& id == c.id
            &&& s == space
            &&& address == addr
            &&& l == length
            &&& d < pow(256, length as nat)
            &&& forall|i: int|
                0 <= i < length ==> (d as int / pow(256, i as nat)) % 256
                    == #[trigger] datamatch@[i]
        }),
        r matches Err(e) ==> e == -22,
{
    law_lengths_that_can_be_matched(length);
}

/// If nothing came of asking for an event on a write, its identifier is the next again. If a file
/// came, it is that of the event, and the identifier stays in use.
pub proof fn law_event_or_identifier_back<H>(
    before: &mut IdAllocator,
    after: &mut IdAllocator,
    space: AddressSpace,
    addr: u64,
    length: u32,
    datamatch: u64,
    creation: Creation,
    reply: MainReply<H>,
    r: Result<crosvm_io_event<H>, i32>,
)
    requires
        call_ensures(
            crosvm_io_event::<H>::safe_create_request,
            (before, Some(space), addr, length, datamatch),
            Ok(creation),
        ),
        *old(after) == *final(before),
        call_ensures(crosvm_io_event::<H>::safe_create, (after, creation.id, reply), r),
        old(before)@ <= u32::MAX,
    ensures
        creation.id == old(before)@,
        r is Ok <==> (reply matches Ok((_, files)) && files@.len() >= 1),
        r matches Ok(event) ==> event.id == creation.id && (reply matches Ok((_, files)) && event.evt
            == files@.last()),
        r is Err && old(before)@ < usize::MAX ==> final(after)@ == old(before)@,
        r is Ok && old(before)@ < usize::MAX ==> final(after)@ == old(before)@ + 1,
{
}

/// If memory is refused, its identifier is the next again. Memory that was given has the length
/// asked for, and its identifier stays in use.
pub proof fn law_memory_or_identifier_back<H>(
    before: &mut IdAllocator,
    after: &mut IdAllocator,
    fd: i32,
    offset: u64,
    length: u64,
    start: u64,
    read_only: bool,
    dirty_log: bool,
    creation: Creation,
    reply: MainReply<H>,
    r: Result<crosvm_memory, i32>,
)
    requires
        call_ensures(
            crosvm_memory::create_request,
            (before, fd, offset, length, start, read_only, dirty_log),
            Ok(creation),
        ),
        *old(after) == *final(before),
        call_ensures(crosvm_memory::create::<H>, (after, creation.id, length, reply), r),
        old(before)@ <= u32::MAX,
    ensures
        offset as int % 4096 == 0,
        length as int % 4096 == 0,
        creation.id == old(before)@,
        creation.call.request matches MainRequest::Create {
            id,
            object: CreateObject::Memory {
                offset: o,
                start: s,
                length: l,
                read_only: ro,
                dirty_log: d,
            },
        } && id == creation.id && o == offset && s == start && l == length && ro == read_only && d
            == dirty_log,
        creation.call.fds@.len() == 1,
        creation.call.fds@[0] == fd,
        r is Ok <==> reply is Ok,
        r matches Ok(memory) ==> memory.id == creation.id && memory.length == length,
        r matches Err(e) ==> (reply matches Err(f) && e == f),
        r is Err && old(before)@ < usize::MAX ==> final(after)@ == old(before)@,
        r is Ok && old(before)@ < usize::MAX ==> final(after)@ == old(before)@ + 1,
{
}

/// If fewer than two files came for an interrupt, its identifier is the next again. Else the last
/// two are its events, the trigger before the other, and the identifier stays in use.
pub proof fn law_interrupt_or_identifier_back<H>(
    before: &mut IdAllocator,
    after: &mut IdAllocator,
    irq_id: u32,
    creation: Creation,
    reply: MainReply<H>,
    r: Result<crosvm_irq_event<H>, i32>,
)
    requires
        call_ensures(crosvm_irq_event::<H>::create_request, (before, irq_id), creation),
        *old(after) == *final(before),
        call_ensures(crosvm_irq_event::<H>::create, (after, creation.id, reply), r),
        old(before)@ <= u32::MAX,
    ensures
        creation.id == old(before)@,
        creation.call.request matches MainRequest::Create {
            id,
            object: CreateObject::IrqEvent { irq_id: irq, resample },
        } && id == creation.id && irq == irq_id && resample,
        r is Ok <==> (reply matches Ok((_, files)) && files@.len() >= 2),
        r matches Ok(event) ==> event.id == creation.id && (reply matches Ok((_, files))
            && event.resample_evt == files@.last() && event.trigger_evt
            == files@.drop_last().last()),
        r is Err && old(before)@ < usize::MAX ==> final(after)@ == old(before)@,
        r is Ok && old(before)@ < usize::MAX ==> final(after)@ == old(before)@ + 1,
{
}

/// The bitmap of the pages that were written to is handed on as it came. A response without one is
/// a protocol error.
pub proof fn law_dirty_log_is_handed_on<H>(
    reply: MainReply<H>,
    r: Result<Vec<u8>, i32>,
)
    requires
        call_ensures(crosvm_memory::get_dirty_log::<H>, (reply,), r),
    ensures
        r matches Ok(bitmap) ==> (reply matches Ok((response, _)) && response.dirty_log == Some(
            bitmap,
        )),
        reply matches Ok((response, _)) ==> (r matches Err(e) ==> response.dirty_log is None && e
            == -71),
        reply matches Err(e) ==> r == Err::<Vec<u8>, i32>(e),
{
}

} // verus!
