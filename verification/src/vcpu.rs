//! The connection of a VCPU.
//!
//! As on the main connection, an operation is a request, which a function whose name ends in
//! `_request` makes, and what comes of it, a [`VcpuReply`].
use vstd::prelude::*;

use vstd::slice::slice_to_vec;

use crate::connection::{address_space_number, MAX_DATAGRAM_SIZE};
use crate::errno::libc_eproto;
use crate::protocol::{CpuidEntry, MsrEntry, StateSet, VcpuRequest, VcpuResponse, Wait, WaitIo};

verus! {

/// The VCPU has not run yet.
pub const CROSVM_VCPU_EVENT_KIND_INIT: u32 = 0;

/// The VCPU waits for an access to a reserved address.
pub const CROSVM_VCPU_EVENT_KIND_IO_ACCESS: u32 = 1;

/// The VCPU was paused.
pub const CROSVM_VCPU_EVENT_KIND_PAUSED: u32 = 2;

/// An access to a reserved address. The bytes that are read or written are the
/// [`resume data`](crosvm_vcpu::resume_data) of the VCPU.
#[derive(Copy, Clone, Debug, PartialEq, Eq)]
pub struct anon_io_access {
    pub address_space: u32,
    pub address: u64,
    pub length: u32,
    pub is_write: u8,
}

/// What an event tells beside its kind.
#[derive(Copy, Clone, Debug, PartialEq, Eq)]
pub enum anon_vcpu_event {
    /// Nothing was told yet.
    Unset,
    /// The access that the VCPU waits for.
    IoAccess(anon_io_access),
    /// What was given to the request that paused the VCPU.
    User(u64),
}

/// Why a VCPU stopped, as a plugin is told.
#[derive(Copy, Clone, Debug, PartialEq, Eq)]
pub struct crosvm_vcpu_event {
    pub kind: u32,
    pub event: anon_vcpu_event,
}

/// What came of a transaction over the connection of a VCPU.
pub type VcpuReply = Result<VcpuResponse, i32>;

/// The lower 32 bits of `n`.
pub open spec fn low_32_bits(n: int) -> u32 {
    (n % 0x1_0000_0000) as u32
}

/// What waiting for a VCPU comes to, given the reply and the event that the plugin was told
/// before: the new event and the data of the access, if it is one, or the code of an error. An
/// event that only says that the VCPU has not run yet leaves the rest as it was.
pub open spec fn waited(reply: VcpuReply, before: crosvm_vcpu_event) -> Result<
    (crosvm_vcpu_event, Option<Seq<u8>>),
    i32,
> {
    match reply {
        Err(e) => Err(e),
        Ok(response) => match response.wait {
            None => Err(crate::errno::negated(crate::errno::EPROTO)),
            Some(wait) => if wait.init {
                Ok((
                    crosvm_vcpu_event { kind: CROSVM_VCPU_EVENT_KIND_INIT, event: before.event },
                    None,
                ))
            } else if let Some(io) = wait.io {
                Ok((
                    crosvm_vcpu_event {
                        kind: CROSVM_VCPU_EVENT_KIND_IO_ACCESS,
                        event: anon_vcpu_event::IoAccess(
                            anon_io_access {
                                address_space: low_32_bits(io.space.value as int),
                                address: io.address,
                                length: low_32_bits(io.data@.len() as int),
                                is_write: if io.is_write { 1 } else { 0 },
                            },
                        ),
                    },
                    Some(io.data@),
                ))
            } else if let Some(user) = wait.user {
                Ok((
                    crosvm_vcpu_event {
                        kind: CROSVM_VCPU_EVENT_KIND_PAUSED,
                        event: anon_vcpu_event::User(user),
                    },
                    None,
                ))
            } else {
                Err(crate::errno::negated(crate::errno::EPROTO))
            },
        },
    }
}

/// The data that a VCPU is to be resumed with after waiting for it came to `result`, given the data
/// that it was to be resumed with before. Only an access brings new data.
pub open spec fn data_after_wait(
    result: Result<(crosvm_vcpu_event, Option<Seq<u8>>), i32>,
    before: Seq<u8>,
) -> Seq<u8> {
    match result {
        Ok((_, Some(data))) => data,
        _ => before,
    }
}

/// A VCPU that waits for an access is resumed with the bytes of this access, unless the plugin
/// changes them in between, and the plugin is told how many they are, as long as this fits in 32
/// bits.
pub proof fn law_resume_answers_the_access(
    response: VcpuResponse,
    wait: Wait,
    io: WaitIo,
    before: crosvm_vcpu_event,
    held: Seq<u8>,
)
    requires
        response.wait == Some(wait),
        !wait.init,
        wait.io == Some(io),
    ensures
        data_after_wait(waited(Ok(response), before), held) == io.data@,
        waited(Ok(response), before) matches Ok((event, _)) && {
            &&& event.kind == CROSVM_VCPU_EVENT_KIND_IO_ACCESS
            &&& event.event matches anon_vcpu_event::IoAccess(access)
            &&& io.data@.len() <= u32::MAX ==> access.length == io.data@.len()
        },
{
}

/// Waiting that fails, or that ends for another reason than an access, changes nothing of the data
/// that the VCPU is to be resumed with.
pub proof fn law_only_an_access_brings_data(
    reply: VcpuReply,
    before: crosvm_vcpu_event,
    held: Seq<u8>,
)
    requires
        waited(reply, before) matches Ok((event, _)) ==> event.kind
            != CROSVM_VCPU_EVENT_KIND_IO_ACCESS,
    ensures
        data_after_wait(waited(reply, before), held) == held,
{
}

/// A VCPU, over a socket of its own.
pub struct crosvm_vcpu<H> {
    pub socket: H,
    pub request_buffer: Vec<u8>,
    pub response_buffer: Vec<u8>,
    pub resume_data: Vec<u8>,
}

impl<H> crosvm_vcpu<H> {
    /// Whether the response buffer can take a datagram of any size that is allowed.
    pub open spec fn wf(self) -> bool {
        self.response_buffer@.len() == MAX_DATAGRAM_SIZE
    }

    /// Whether this is a VCPU over `socket` that nothing was done with yet.
    pub open spec fn is_new(self, socket: H) -> bool {
        &&& self.wf()
        &&& self.socket == socket
        &&& self.request_buffer@ == Seq::<u8>::empty()
        &&& self.response_buffer@ == Seq::new(MAX_DATAGRAM_SIZE as nat, |i: int| 0u8)
        &&& self.resume_data@ == Seq::<u8>::empty()
    }

    /// A VCPU over `socket`.
    pub fn new(socket: H) -> (r: crosvm_vcpu<H>)
        ensures
            r.is_new(socket),
            r.wf(),
            r.socket == socket,
            r.request_buffer@ == Seq::<u8>::empty(),
            r.response_buffer@ == Seq::new(MAX_DATAGRAM_SIZE as nat, |i: int| 0u8),
            r.resume_data@ == Seq::<u8>::empty(),
    {
        let response_buffer: Vec<u8> = vec![0; MAX_DATAGRAM_SIZE];
        assert(response_buffer@ == Seq::new(MAX_DATAGRAM_SIZE as nat, |i: int| 0u8));
        crosvm_vcpu {
            socket,
            request_buffer: Vec::new(),
            response_buffer,
            resume_data: Vec::new(),
        }
    }

    /// Waits for the VCPU to stop.
    pub fn wait_request() -> (r: VcpuRequest)
        ensures
            r == VcpuRequest::Wait,
    {
        VcpuRequest::Wait
    }

    /// Tells why the VCPU stopped, and keeps the data of an access for the plugin to read or
    /// change before the VCPU is resumed.
    pub fn wait(&mut self, reply: VcpuReply, event: &mut crosvm_vcpu_event) -> (r: Result<(), i32>)
        ensures
            *final(self) == (crosvm_vcpu { resume_data: final(self).resume_data, ..*old(self) }),
            final(self).resume_data@ == data_after_wait(
                waited(reply, *old(event)),
                old(self).resume_data@,
            ),
            match waited(reply, *old(event)) {
                Ok((new_event, _)) => {
                    &&& r == Ok::<(), i32>(())
                    &&& *final(event) == new_event
                },
                Err(e) => {
                    &&& r == Err::<(), i32>(e)
                    &&& *final(event) == *old(event)
                },
            },
            reply matches Err(e) ==> r == Err::<(), i32>(e),
            reply matches Ok(response) ==> match response.wait {
                None => r matches Err(e) && e == -crate::errno::EPROTO,
                Some(wait) => match (wait.init, wait.io, wait.user) {
                    (true, _, _) => {
                        &&& r is Ok
                        &&& final(event).kind == 0
                        &&& final(event).event == old(event).event
                        &&& final(self).resume_data@ == old(self).resume_data@
                    },
                    (false, Some(io), _) => {
                        &&& r is Ok
                        &&& final(event).kind == 1
                        &&& final(self).resume_data@ == io.data@
                        &&& final(event).event matches anon_vcpu_event::IoAccess(access)
                        &&& access.address == io.address
                        &&& access.is_write == (if io.is_write {
                            1int
                        } else {
                            0int
                        })
                        &&& (access.address_space - io.space.value) % 0x1_0000_0000 == 0
                        &&& (access.length - io.data@.len()) % 0x1_0000_0000 == 0
                    },
                    (false, None, Some(user)) => {
                        &&& r is Ok
                        &&& final(event).kind == 2
                        &&& final(event).event == anon_vcpu_event::User(user)
                        &&& final(self).resume_data@ == old(self).resume_data@
                    },
                    (false, None, None) => r matches Err(e) && e == -crate::errno::EPROTO,
                },
            },
            r is Err ==> *final(event) == *old(event) && final(self).resume_data@ == old(
                self,
            ).resume_data@,
    {
        let response = match reply {
            Ok(response) => response,
            Err(e) => return Err(e),
        };
        let wait = match response.wait {
            Some(wait) => wait,
            None => return Err(-libc_eproto()),
        };
        if wait.init {
            event.kind = CROSVM_VCPU_EVENT_KIND_INIT;
            Ok(())
        } else if let Some(io) = wait.io {
            let space: i32 = io.space.value;
            let length: u64 = io.data.len() as u64;
            assert(space >= 0 ==> space as u32 == space) by (bit_vector);
            assert(space < 0 ==> space as u32 == space + 0x1_0000_0000) by (bit_vector);
            assert(length as u32 == length % 0x1_0000_0000) by (bit_vector);
            event.kind = CROSVM_VCPU_EVENT_KIND_IO_ACCESS;
            event.event = anon_vcpu_event::IoAccess(
                anon_io_access {
                    address_space: space as u32,
                    address: io.address,
                    length: length as u32,
                    is_write: if io.is_write { 1 } else { 0 },
                },
            );
            self.resume_data = io.data;
            Ok(())
        } else if let Some(user) = wait.user {
            event.kind = CROSVM_VCPU_EVENT_KIND_PAUSED;
            event.event = anon_vcpu_event::User(user);
            Ok(())
        } else {
            Err(-libc_eproto())
        }
    }

    /// Lets the VCPU run on, with the data of the access that it waited for. The data is used up,
    /// whatever comes of the request.
    pub fn resume_request(&mut self) -> (r: VcpuRequest)
        ensures
            r matches VcpuRequest::Resume { data } && data@ == old(self).resume_data@,
            final(self).resume_data@ == Seq::<u8>::empty(),
            *final(self) == (crosvm_vcpu { resume_data: final(self).resume_data, ..*old(self) }),
    {
        let mut data: Vec<u8> = Vec::new();
        std::mem::swap(&mut data, &mut self.resume_data);
        VcpuRequest::Resume { data }
    }

    /// Asks for a part of the VCPU's state.
    pub fn get_state_request(state_set: StateSet) -> (r: VcpuRequest)
        ensures
            r == (VcpuRequest::GetState { set: state_set }),
    {
        VcpuRequest::GetState { set: state_set }
    }

    /// Copies the state that came to `out`, if it is of the size expected.
    pub fn get_state(reply: VcpuReply, out: &mut [u8]) -> (r: Result<(), i32>)
        ensures
            final(out)@.len() == old(out)@.len(),
            match reply {
                Ok(response) => match response.get_state {
                    Some(state) if state@.len() == old(out)@.len() => {
                        &&& r == Ok::<(), i32>(())
                        &&& final(out)@ == state@
                    },
                    _ => {
                        &&& r == Err::<(), i32>(crate::errno::negated(crate::errno::EPROTO))
                        &&& final(out)@ == old(out)@
                    },
                },
                Err(e) => {
                    &&& r == Err::<(), i32>(e)
                    &&& final(out)@ == old(out)@
                },
            },
    {
        let response = match reply {
            Ok(response) => response,
            Err(e) => return Err(e),
        };
        let state = match response.get_state {
            Some(state) => state,
            None => return Err(-libc_eproto()),
        };
        if state.len() != out.len() {
            return Err(-libc_eproto());
        }
        copy_from_slice(out, &state);
        Ok(())
    }

    /// Sets a part of the VCPU's state.
    pub fn set_state_request(state_set: StateSet, new_state: &[u8]) -> (r: VcpuRequest)
        ensures
            r matches VcpuRequest::SetState { set, state } && set == state_set && state@
                == new_state@,
    {
        VcpuRequest::SetState { set: state_set, state: slice_to_vec(new_state) }
    }

    /// Asks for what the model specific registers of `msr_entries` hold.
    pub fn get_msrs_request(msr_entries: &[MsrEntry]) -> (r: VcpuRequest)
        ensures
            r matches VcpuRequest::GetMsrs { entry_indices } && entry_indices@
                == msr_entries@.map_values(|entry: MsrEntry| entry.index),
    {
        let mut entry_indices: Vec<u32> = Vec::new();
        let mut i: usize = 0;
        while i < msr_entries.len()
            invariant
                i <= msr_entries@.len(),
                entry_indices@.len() == i,
                forall|j: int| 0 <= j < i ==> entry_indices@[j] == (#[trigger] msr_entries@[j]).index,
            decreases msr_entries@.len() - i,
        {
            entry_indices.push(msr_entries[i].index);
            i = i + 1;
        }
        VcpuRequest::GetMsrs { entry_indices }
    }

    /// Stores what the model specific registers hold in `msr_entries`, if the reply has as many.
    pub fn get_msrs(reply: VcpuReply, msr_entries: &mut [MsrEntry]) -> (r: Result<(), i32>)
        ensures
            final(msr_entries)@.len() == old(msr_entries)@.len(),
            match reply {
                Ok(response) => match response.get_msrs {
                    Some(entry_data) if entry_data@.len() == old(msr_entries)@.len() => {
                        &&& r == Ok::<(), i32>(())
                        &&& forall|i: int|
                            0 <= i < old(msr_entries)@.len() ==> #[trigger] final(msr_entries)@[i]
                                == (MsrEntry {
                                index: old(msr_entries)@[i].index,
                                data: entry_data@[i],
                            })
                    },
                    _ => {
                        &&& r == Err::<(), i32>(crate::errno::negated(crate::errno::EPROTO))
                        &&& final(msr_entries)@ == old(msr_entries)@
                    },
                },
                Err(e) => {
                    &&& r == Err::<(), i32>(e)
                    &&& final(msr_entries)@ == old(msr_entries)@
                },
            },
    {
        let response = match reply {
            Ok(response) => response,
            Err(e) => return Err(e),
        };
        let entry_data = match response.get_msrs {
            Some(entry_data) => entry_data,
            None => return Err(-libc_eproto()),
        };
        if entry_data.len() != msr_entries.len() {
            return Err(-libc_eproto());
        }
        let mut i: usize = 0;
        while i < entry_data.len()
            invariant
                i <= entry_data@.len(),
                msr_entries@.len() == entry_data@.len(),
                old(msr_entries)@.len() == entry_data@.len(),
                forall|j: int|
                    0 <= j < i ==> #[trigger] msr_entries@[j] == (MsrEntry {
                        index: old(msr_entries)@[j].index,
                        data: entry_data@[j],
                    }),
                forall|j: int|
                    i <= j < entry_data@.len() ==> #[trigger] msr_entries@[j] == old(
                        msr_entries,
                    )@[j],
            decreases entry_data@.len() - i,
        {
            let index: u32 = msr_entries[i].index;
            msr_entries[i] = MsrEntry { index, data: entry_data[i] };
            i = i + 1;
        }
        Ok(())
    }

    /// Sets model specific registers.
    pub fn set_msrs_request(msr_entries: &[MsrEntry]) -> (r: VcpuRequest)
        ensures
            r matches VcpuRequest::SetMsrs { entries } && entries@ == msr_entries@,
    {
        VcpuRequest::SetMsrs { entries: slice_to_vec(msr_entries) }
    }

    /// Sets what the VCPU answers to `cpuid` instructions.
    pub fn set_cpuid_request(cpuid_entries: &[CpuidEntry]) -> (r: VcpuRequest)
        ensures
            r matches VcpuRequest::SetCpuid { entries } && entries@ == cpuid_entries@,
    {
        VcpuRequest::SetCpuid { entries: slice_to_vec(cpuid_entries) }
    }
}

/// What is to be returned when the response holds nothing of interest.
pub fn acknowledge_vcpu(reply: VcpuReply) -> (r: Result<(), i32>)
    ensures
        r == (match reply {
            Ok(_) => Ok(()),
            Err(e) => Err(e),
        }),
{
    match reply {
        Ok(_) => Ok(()),
        Err(e) => Err(e),
    }
}

/// Copies `src` over `dst`.
pub(crate) fn copy_from_slice(dst: &mut [u8], src: &[u8])
    requires
        old(dst)@.len() == src@.len(),
    ensures
        final(dst)@ == src@,
{
    let mut i: usize = 0;
    while i < dst.len()
        invariant
            i <= dst@.len(),
            dst@.len() == src@.len(),
            forall|j: int| 0 <= j < i ==> dst@[j] == src@[j],
        decreases dst@.len() - i,
    {
        dst[i] = src[i];
        i = i + 1;
    }
}

/// The access that the plugin is told is the access of the reply: its address, its direction, the
/// 32 bits of its space's number and the lower 32 bits of its length. Its bytes are kept. That the
/// reply tells of a pause too changes nothing.
pub proof fn law_access_is_told_as_it_is(
    response: VcpuResponse,
    wait: Wait,
    io: WaitIo,
    before: crosvm_vcpu_event,
)
    requires
        response.wait == Some(wait),
        !wait.init,
        wait.io == Some(io),
    ensures
        waited(Ok(response), before) matches Ok((event, data)) && {
            &&& event.kind == 1
            &&& data == Some(io.data@)
            &&& event.event matches anon_vcpu_event::IoAccess(access)
            &&& access.address == io.address
            &&& io.is_write ==> access.is_write == 1
            &&& !io.is_write ==> access.is_write == 0
            &&& io.space.value >= 0 ==> access.address_space == io.space.value
            &&& io.space.value < 0 ==> access.address_space == io.space.value + 0x1_0000_0000
            &&& io.data@.len() < 0x1_0000_0000 ==> access.length == io.data@.len()
            &&& (access.length - io.data@.len()) % 0x1_0000_0000 == 0
        },
{
}

/// A VCPU that has not run yet is told as such, whatever else the reply tells of, and nothing but
/// the kind of the event changes.
pub proof fn law_init_comes_first(response: VcpuResponse, wait: Wait, before: crosvm_vcpu_event)
    requires
        response.wait == Some(wait),
        wait.init,
    ensures
        waited(Ok(response), before) matches Ok((event, data)) && {
            &&& event.kind == 0
            &&& event.event == before.event
            &&& data is None
        },
{
}

/// A VCPU that was paused is told as such if the reply tells of nothing else, with what was given
/// to the request that paused it.
pub proof fn law_pause_is_told_with_its_user(
    response: VcpuResponse,
    wait: Wait,
    user: u64,
    before: crosvm_vcpu_event,
)
    requires
        response.wait == Some(wait),
        !wait.init,
        wait.io is None,
        wait.user == Some(user),
    ensures
        waited(Ok(response), before) matches Ok((event, data)) && {
            &&& event.kind == 2
            &&& event.event == anon_vcpu_event::User(user)
            &&& data is None
        },
{
}

/// Waiting fails with the error of the transaction, and with a protocol error if and only if the
/// response tells of nothing.
pub proof fn law_waiting_fails_on_nothing_told(
    response: VcpuResponse,
    before: crosvm_vcpu_event,
    e: i32,
)
    ensures
        waited(Err(e), before) == Err::<(crosvm_vcpu_event, Option<Seq<u8>>), i32>(e),
        waited(Ok(response), before) is Err <==> (response.wait matches Some(wait) ==> !wait.init
            && wait.io is None && wait.user is None),
        waited(Ok(response), before) matches Err(code) ==> code == -71,
{
}

/// The data that a VCPU is resumed with is that of the access just told, or else what it was.
pub proof fn law_data_is_replaced_or_kept(
    event: crosvm_vcpu_event,
    data: Seq<u8>,
    before: Seq<u8>,
    e: i32,
)
    ensures
        data_after_wait(Ok((event, Some(data))), before) == data,
        data_after_wait(Ok((event, None)), before) == before,
        data_after_wait(Err(e), before) == before,
{
}

/// The lower 32 bits of a number differ from it by a multiple of 2^32.
pub proof fn law_low_32_bits(n: int)
    ensures
        (n - low_32_bits(n)) % 0x1_0000_0000 == 0,
        0 <= n <= u32::MAX ==> low_32_bits(n) == n,
{
}

/// A new VCPU is over the socket given, with nothing sent, received or kept yet and room for the
/// largest datagram.
pub proof fn law_new_vcpu_is_empty<H>(vcpu: crosvm_vcpu<H>, socket: H)
    requires
        vcpu.is_new(socket),
    ensures
        vcpu.socket == socket,
        vcpu.request_buffer@.len() == 0,
        vcpu.resume_data@.len() == 0,
        vcpu.response_buffer@.len() == 0x40000,
        vcpu.wf(),
{
}

/// The address space of an access comes back to the plugin under the number by which the plugin
/// names it.
pub proof fn law_address_space_comes_back(space: u32, number: i32)
    requires
        call_ensures(address_space_number, (space,), number),
    ensures
        low_32_bits(number as int) == space,
{
}

/// The state that was asked for comes whole, to where it was wanted, or not at all.
pub proof fn law_state_comes_whole<H>(reply: VcpuReply, out: &mut [u8], r: Result<(), i32>)
    requires
        call_ensures(crosvm_vcpu::<H>::get_state, (reply, out), r),
    ensures
        r is Ok ==> (reply matches Ok(response) && response.get_state matches Some(state)
            && final(out)@ == state@),
        r is Err ==> final(out)@ == old(out)@,
        reply matches Ok(response) ==> (response.get_state matches Some(state) ==> (state@.len()
            == old(out)@.len() ==> r is Ok)),
        reply is Ok ==> (r matches Err(e) ==> e == -71),
        reply matches Err(e) ==> r == Err::<(), i32>(e),
{
}

/// What the registers hold comes register by register, in the order in which they were asked for,
/// or not at all.
pub proof fn law_registers_come_in_order<H>(
    response: VcpuResponse,
    entry_data: Vec<u64>,
    msr_entries: &mut [MsrEntry],
    r: Result<(), i32>,
    asked: VcpuRequest,
    i: int,
)
    requires
        response.get_msrs == Some(entry_data),
        call_ensures(crosvm_vcpu::<H>::get_msrs_request, (&*old(msr_entries),), asked),
        call_ensures(crosvm_vcpu::<H>::get_msrs, (Ok(response), msr_entries), r),
        0 <= i < old(msr_entries)@.len(),
    ensures
        asked matches VcpuRequest::GetMsrs { entry_indices } && entry_indices@.len() == old(
            msr_entries,
        )@.len() && entry_indices@[i] == final(msr_entries)@[i].index,
        r is Ok <==> entry_data@.len() == old(msr_entries)@.len(),
        r is Ok ==> final(msr_entries)@[i].data == entry_data@[i],
        r is Err ==> final(msr_entries)@ == old(msr_entries)@,
        r matches Err(e) ==> e == -71,
{
}

/// Of an access the plugin is told the address, the direction, the space and the length, and if it
/// changes nothing the VCPU is resumed with the bytes of this access. They are used up then.
pub proof fn law_access_is_told_and_answered<H>(
    vcpu: &mut crosvm_vcpu<H>,
    response: VcpuResponse,
    wait: Wait,
    io: WaitIo,
    event: &mut crosvm_vcpu_event,
    waited: Result<(), i32>,
    resumed: &mut crosvm_vcpu<H>,
    request: VcpuRequest,
)
    requires
        response.wait == Some(wait),
        !wait.init,
        wait.io == Some(io),
        call_ensures(crosvm_vcpu::<H>::wait, (vcpu, Ok(response), event), waited),
        *old(resumed) == *final(vcpu),
        call_ensures(crosvm_vcpu::<H>::resume_request, (resumed,), request),
    ensures
        waited is Ok,
        final(event).kind == 1,
        final(event).event matches anon_vcpu_event::IoAccess(access) && {
            &&& access.address == io.address
            &&& access.is_write == 1 <==> io.is_write
            &&& access.is_write == 0 <==> !io.is_write
            &&& (access.address_space - io.space.value) % 0x1_0000_0000 == 0
            &&& (access.length - io.data@.len()) % 0x1_0000_0000 == 0
        },
        request matches VcpuRequest::Resume { data } && data@ == io.data@,
        final(resumed).resume_data@.len() == 0,
        final(resumed).socket == old(vcpu).socket,
{
}

/// State and registers are set to what the plugin gives, and the state is of the set that it names.
pub proof fn law_state_is_sent_as_given<H>(
    state_set: StateSet,
    new_state: &[u8],
    state_request: VcpuRequest,
    msr_entries: &[MsrEntry],
    msrs_request: VcpuRequest,
    cpuid_entries: &[CpuidEntry],
    cpuid_request: VcpuRequest,
)
    requires
        call_ensures(crosvm_vcpu::<H>::set_state_request, (state_set, new_state), state_request),
        call_ensures(crosvm_vcpu::<H>::set_msrs_request, (msr_entries,), msrs_request),
        call_ensures(crosvm_vcpu::<H>::set_cpuid_request, (cpuid_entries,), cpuid_request),
    ensures
        state_request matches VcpuRequest::SetState { set, state } && set == state_set && state@
            == new_state@,
        msrs_request matches VcpuRequest::SetMsrs { entries } && entries@ == msr_entries@,
        cpuid_request matches VcpuRequest::SetCpuid { entries } && entries@ == cpuid_entries@,
{
}

} // verus!
