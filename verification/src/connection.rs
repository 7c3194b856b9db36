//! The main connection of a plugin.
//!
//! Most operations come in two parts. A function whose name ends in `_request` says what is to be
//! sent. What came of the transaction, a [`MainReply`], then goes to the function of the same name
//! without that ending, or to [`acknowledge`] where the response holds nothing of interest.
//! `H` is the type of an open file or socket.
use vstd::prelude::*;

use std::sync::Arc;

use crate::errno::{libc_einval, libc_eproto};
use crate::ids::IdAllocator;
use crate::protocol::{AddressSpace, MainRequest, MainResponse, Route, RouteTarget};
use crate::vcpu::crosvm_vcpu;

verus! {

/// How many files a datagram may carry. Needs to be large enough to receive all the VCPU sockets.
pub const MAX_DATAGRAM_FD: usize = 32;

/// How many bytes a datagram may hold. Needs to be large enough for a sizable dirty log.
pub const MAX_DATAGRAM_SIZE: usize = 0x40000;

/// The kind of a route to a pin of an interrupt controller.
pub const CROSVM_IRQ_ROUTE_IRQCHIP: u32 = 0;

/// The kind of a route to a message.
pub const CROSVM_IRQ_ROUTE_MSI: u32 = 1;

/// A pin of an interrupt controller.
#[derive(Copy, Clone, Debug, PartialEq, Eq)]
pub struct anon_irqchip {
    pub irqchip: u32,
    pub pin: u32,
}

/// A message that is written to an address.
#[derive(Copy, Clone, Debug, PartialEq, Eq)]
pub struct anon_msi {
    pub address: u64,
    pub data: u32,
}

/// What a route's target reads as, for each kind of route that it may be of.
#[derive(Copy, Clone, Debug, PartialEq, Eq)]
pub struct anon_route {
    pub irqchip: anon_irqchip,
    pub msi: anon_msi,
}

/// A route for an interrupt, as a plugin gives it. The kind says how the target is to be read.
#[derive(Copy, Clone, Debug, PartialEq, Eq)]
pub struct crosvm_irq_route {
    pub irq_id: u32,
    pub kind: u32,
    pub route: anon_route,
}

impl crosvm_irq_route {
    /// The route in the protocol's terms, if it is of a known kind.
    pub open spec fn to_proto(self) -> Option<Route> {
        if self.kind == CROSVM_IRQ_ROUTE_IRQCHIP {
            Some(
                Route {
                    irq_id: self.irq_id,
                    target: RouteTarget::Irqchip {
                        irqchip: self.route.irqchip.irqchip,
                        pin: self.route.irqchip.pin,
                    },
                },
            )
        } else if self.kind == CROSVM_IRQ_ROUTE_MSI {
            Some(
                Route {
                    irq_id: self.irq_id,
                    target: RouteTarget::Msi {
                        address: self.route.msi.address,
                        data: self.route.msi.data,
                    },
                },
            )
        } else {
            None
        }
    }
}

/// A request over the main connection, with the descriptors that go along.
pub struct MainCall {
    pub request: MainRequest,
    pub fds: Vec<i32>,
}

impl MainCall {
    /// Whether this sends `request` and no descriptors.
    pub open spec fn sends(self, request: MainRequest) -> bool {
        self.request == request && self.fds@.len() == 0
    }
}

/// What came of a transaction over the main connection: the response and the files that came with
/// it, or the code of an error.
pub type MainReply<H> = Result<(MainResponse, Vec<H>), i32>;

/// A call that sends `request` and no descriptors.
fn call(request: MainRequest) -> (r: MainCall)
    ensures
        r.sends(request),
        r.request == request,
        r.fds@ == Seq::<i32>::empty(),
{
    MainCall { request, fds: Vec::new() }
}

/// What is to be returned when the response holds nothing of interest.
pub fn acknowledge<H>(reply: MainReply<H>) -> (r: Result<(), i32>)
    ensures
        r == (match reply {
            Ok(_) => Ok(()),
            Err(e) => Err(e),
        }),
{
    match reply {
        Ok(_) => Ok(()),
        Err(e) => Err(e),
    }
}

/// What is to be returned when a file was asked for: the last that came, or a protocol error if
/// none did.
pub open spec fn last_file<H>(reply: MainReply<H>) -> Result<H, i32> {
    match reply {
        Ok((_, files)) => if files@.len() > 0 {
            Ok(files@.last())
        } else {
            Err(crate::errno::negated(crate::errno::EPROTO))
        },
        Err(e) => Err(e),
    }
}

/// What is to be returned when a file was asked for.
pub(crate) fn take_file<H>(reply: MainReply<H>) -> (r: Result<H, i32>)
    ensures
        r == last_file(reply),
        reply matches Ok((_, files)) ==> (files@.len() >= 1 ==> r == Ok::<H, i32>(
            files@[files@.len() - 1],
        )),
        reply matches Ok((_, files)) ==> (files@.len() == 0 ==> r == Err::<H, i32>(
            (-crate::errno::EPROTO) as i32,
        )),
        reply matches Err(e) ==> r == Err::<H, i32>(e),
{
    match reply {
        Ok((_, files)) => {
            let mut files = files;
            match files.pop() {
                Some(f) => Ok(f),
                None => Err(-libc_eproto()),
            }
        },
        Err(e) => Err(e),
    }
}

/// The number under which an address space is looked up in the protocol: the same 32 bits, read
/// as a signed number.
pub fn address_space_number(space: u32) -> (r: i32)
    ensures
        r == (if space <= i32::MAX {
            space as int
        } else {
            space - 0x1_0000_0000
        }),
{
    assert(space <= 0x7fff_ffff ==> space as i32 == space) by (bit_vector);
    assert(space > 0x7fff_ffff ==> space as i32 == space - 0x1_0000_0000) by (bit_vector);
    space as i32
}

/// A connection to the virtual machine monitor. `A` is the type by which the connections of a
/// plugin share their [`IdAllocator`].
pub struct crosvm<H, A> {
    pub id_allocator: Arc<A>,
    pub socket: H,
    pub request_buffer: Vec<u8>,
    pub response_buffer: Vec<u8>,
    pub vcpus: Arc<Vec<crosvm_vcpu<H>>>,
}

impl<H, A> crosvm<H, A> {
    /// Whether the response buffer can take a datagram of any size that is allowed.
    pub open spec fn wf(self) -> bool {
        self.response_buffer@.len() == MAX_DATAGRAM_SIZE
    }

    /// A connection over `socket`.
    pub fn new(id_allocator: Arc<A>, socket: H, vcpus: Arc<Vec<crosvm_vcpu<H>>>) -> (r: crosvm<
        H,
        A,
    >)
        ensures
            r.wf(),
            r.id_allocator == id_allocator,
            r.socket == socket,
            r.request_buffer@ == Seq::<u8>::empty(),
            r.response_buffer@ == Seq::new(MAX_DATAGRAM_SIZE as nat, |i: int| 0u8),
            r.vcpus == vcpus,
    {
        crosvm {
            id_allocator,
            socket,
            request_buffer: Vec::new(),
            response_buffer: vec![0; MAX_DATAGRAM_SIZE],
            vcpus,
        }
    }

    /// The first connection of a plugin, over `socket`. It has no VCPUs yet: they are to be asked
    /// for, and [`crosvm::from_connection`] completes it with what came of that.
    pub fn from_connection_request(id_allocator: Arc<A>, socket: H) -> (r: (crosvm<H, A>, MainCall))
        ensures
            r.0.wf(),
            r.0.id_allocator == id_allocator,
            r.0.socket == socket,
            r.0.request_buffer@ == Seq::<u8>::empty(),
            r.0.response_buffer@ == Seq::new(MAX_DATAGRAM_SIZE as nat, |i: int| 0u8),
            r.0.vcpus@.len() == 0,
            r.1.sends(MainRequest::GetVcpus),
            r.1.request == (MainRequest::GetVcpus),
            r.1.fds@ == Seq::<i32>::empty(),
    {
        (crosvm::new(id_allocator, socket, Arc::new(Vec::new())), Self::load_all_vcpus_request())
    }

    /// Completes the first connection of a plugin with its VCPUs.
    pub fn from_connection(self, reply: MainReply<H>) -> (r: Result<crosvm<H, A>, i32>)
        requires
            self.wf(),
        ensures
            match reply {
                Ok((_, files)) if files@.len() > 0 => {
                    &&& r matches Ok(c)
                    &&& c.wf()
                    &&& c == (crosvm { vcpus: c.vcpus, ..self })
                    &&& are_vcpus_of(c.vcpus@, files@)
                    &&& c.vcpus@.len() == files@.len()
                    &&& forall|i: int|
                        0 <= i < files@.len() ==> (#[trigger] c.vcpus@[i]).socket == files@[i]
                            && c.vcpus@[i].request_buffer@.len() == 0
                            && c.vcpus@[i].response_buffer@.len() == MAX_DATAGRAM_SIZE
                            && c.vcpus@[i].resume_data@.len() == 0
                },
                Ok(_) => r == Err::<crosvm<H, A>, i32>(
                    crate::errno::negated(crate::errno::EPROTO),
                ),
                Err(e) => r == Err::<crosvm<H, A>, i32>(e),
            },
    {
        let mut c = self;
        match c.load_all_vcpus(reply) {
            Ok(_) => Ok(c),
            Err(e) => Err(e),
        }
    }

    /// Asks for the sockets of all VCPUs.
    pub fn load_all_vcpus_request() -> (r: MainCall)
        ensures
            r.sends(MainRequest::GetVcpus),
            r.request == (MainRequest::GetVcpus),
            r.fds@ == Seq::<i32>::empty(),
    {
        call(MainRequest::GetVcpus)
    }

    /// Makes a VCPU of each socket that came, in order. There has to be at least one.
    pub fn load_all_vcpus(&mut self, reply: MainReply<H>) -> (r: Result<(), i32>)
        ensures
            *final(self) == (crosvm { vcpus: final(self).vcpus, ..*old(self) }),
            match reply {
                Ok((_, files)) if files@.len() > 0 => {
                    &&& r == Ok::<(), i32>(())
                    &&& are_vcpus_of(final(self).vcpus@, files@)
                    &&& final(self).vcpus@.len() == files@.len()
                    &&& forall|i: int|
                        0 <= i < files@.len() ==> (#[trigger] final(self).vcpus@[i]).socket
                            == files@[i] && final(self).vcpus@[i].request_buffer@.len() == 0
                            && final(self).vcpus@[i].response_buffer@.len() == MAX_DATAGRAM_SIZE
                            && final(self).vcpus@[i].resume_data@.len() == 0
                },
                Ok(_) => {
                    &&& r == Err::<(), i32>(crate::errno::negated(crate::errno::EPROTO))
                    &&& final(self).vcpus == old(self).vcpus
                },
                Err(e) => {
                    &&& r == Err::<(), i32>(e)
                    &&& final(self).vcpus == old(self).vcpus
                },
            },
    {
        let files = match reply {
            Ok((_, files)) => files,
            Err(e) => return Err(e),
        };
        if files.is_empty() {
            return Err(-libc_eproto());
        }
        let ghost sockets = files@;
        let mut vcpus: Vec<crosvm_vcpu<H>> = Vec::new();
        for f in it: files
            invariant
                it.seq() == sockets,
                vcpus@.len() == it.index(),
                forall|i: int| 0 <= i < vcpus@.len() ==> (#[trigger] vcpus@[i]).is_new(sockets[i]),
        {
            vcpus.push(crosvm_vcpu::new(f));
        }
        self.vcpus = Arc::new(vcpus);
        Ok(())
    }

    /// Asks for another connection.
    pub fn try_clone_request() -> (r: MainCall)
        ensures
            r.sends(MainRequest::NewConnection),
            r.request == (MainRequest::NewConnection),
            r.fds@ == Seq::<i32>::empty(),
    {
        call(MainRequest::NewConnection)
    }

    /// Makes another connection of the socket that came. It shares the identifiers and the VCPUs
    /// of this one.
    pub fn try_clone(&self, reply: MainReply<H>) -> (r: Result<crosvm<H, A>, i32>)
        ensures
            match last_file(reply) {
                Ok(socket) => {
                    &&& r matches Ok(c)
                    &&& c.wf()
                    &&& c.id_allocator == self.id_allocator
                    &&& c.socket == socket
                    &&& c.request_buffer@ == Seq::<u8>::empty()
                    &&& c.response_buffer@ == Seq::new(MAX_DATAGRAM_SIZE as nat, |i: int| 0u8)
                    &&& c.vcpus == self.vcpus
                },
                Err(e) => r == Err::<crosvm<H, A>, i32>(e),
            },
            reply matches Ok((_, files)) ==> (files@.len() >= 1 ==> (r matches Ok(c) && c.socket
                == files@[files@.len() - 1])),
            reply matches Ok((_, files)) ==> (files@.len() == 0 ==> (r matches Err(e) && e
                == -crate::errno::EPROTO)),
            reply matches Err(e) ==> (r matches Err(f) && f == e),
    {
        match take_file(reply) {
            Ok(new_socket) => Ok(
                crosvm::new(self.id_allocator.clone(), new_socket, self.vcpus.clone()),
            ),
            Err(e) => Err(e),
        }
    }

    /// Asks for the destruction of the object `id`.
    pub fn destroy_request(id: u32) -> (r: MainCall)
        ensures
            r.sends(MainRequest::Destroy { id }),
            r.request == (MainRequest::Destroy { id }),
            r.fds@ == Seq::<i32>::empty(),
    {
        call(MainRequest::Destroy { id })
    }

    /// Gives the identifier of a destroyed object back. If the object was not destroyed, its
    /// identifier stays in use.
    pub fn destroy(ids: &mut IdAllocator, id: u32, reply: MainReply<H>) -> (r: Result<(), i32>)
        ensures
            match reply {
                Ok(_) => {
                    &&& r == Ok::<(), i32>(())
                    &&& final(ids)@ == crate::ids::after_free(old(ids)@, id)
                },
                Err(e) => {
                    &&& r == Err::<(), i32>(e)
                    &&& final(ids)@ == old(ids)@
                },
            },
            reply is Ok && old(ids)@ == id + 1 ==> final(ids)@ == id,
            reply is Ok && old(ids)@ != id + 1 ==> final(ids)@ == old(ids)@,
    {
        match reply {
            Ok(_) => {
                ids.free(id);
                Ok(())
            },
            Err(e) => Err(e),
        }
    }

    /// Asks for the event that tells that the virtual machine is to shut down.
    pub fn get_shutdown_eventfd_request() -> (r: MainCall)
        ensures
            r.sends(MainRequest::GetShutdownEventfd),
            r.request == (MainRequest::GetShutdownEventfd),
            r.fds@ == Seq::<i32>::empty(),
    {
        call(MainRequest::GetShutdownEventfd)
    }

    /// The event that tells that the virtual machine is to shut down.
    pub fn get_shutdown_eventfd(reply: MainReply<H>) -> (r: Result<H, i32>)
        ensures
            r == last_file(reply),
            reply matches Ok((_, files)) ==> (files@.len() >= 1 ==> r == Ok::<H, i32>(
                files@[files@.len() - 1],
            )),
            reply matches Ok((_, files)) ==> (files@.len() == 0 ==> r == Err::<H, i32>(
                (-crate::errno::EPROTO) as i32,
            )),
            reply matches Err(e) ==> r == Err::<H, i32>(e),
    {
        take_file(reply)
    }

    /// Asks whether an extension is there.
    pub fn check_extension_request(extension: u32) -> (r: MainCall)
        ensures
            r.sends(MainRequest::CheckExtension { extension }),
            r.request == (MainRequest::CheckExtension { extension }),
            r.fds@ == Seq::<i32>::empty(),
    {
        call(MainRequest::CheckExtension { extension })
    }

    /// Whether the extension is there.
    pub fn check_extension(reply: MainReply<H>) -> (r: Result<bool, i32>)
        ensures
            r == (match reply {
                Ok((response, _)) => match response.check_extension {
                    Some(has_extension) => Ok(has_extension),
                    None => Err(crate::errno::negated(crate::errno::EPROTO)),
                },
                Err(e) => Err(e),
            }),
    {
        match reply {
            Ok((response, _)) => match response.check_extension {
                Some(has_extension) => Ok(has_extension),
                None => Err(-libc_eproto()),
            },
            Err(e) => Err(e),
        }
    }

    /// Reserves a range of guest addresses. `space` is the address space that the plugin named, if
    /// the protocol has it.
    pub fn reserve_range_request(space: Option<AddressSpace>, start: u64, length: u64) -> (r: Result<
        MainCall,
        i32,
    >)
        ensures
            match space {
                Some(space) => {
                    &&& r matches Ok(c)
                    &&& c.sends(MainRequest::ReserveRange { space, start, length })
                    &&& c.request == (MainRequest::ReserveRange { space, start, length })
                    &&& c.fds@ == Seq::<i32>::empty()
                },
                None => r == Err::<MainCall, i32>(crate::errno::negated(crate::errno::EINVAL)),
            },
    {
        match space {
            Some(space) => Ok(call(MainRequest::ReserveRange { space, start, length })),
            None => Err(-libc_einval()),
        }
    }

    /// Activates or deactivates an interrupt.
    pub fn set_irq_request(irq_id: u32, active: bool) -> (r: MainCall)
        ensures
            r.sends(MainRequest::SetIrq { irq_id, active }),
            r.request == (MainRequest::SetIrq { irq_id, active }),
            r.fds@ == Seq::<i32>::empty(),
    {
        call(MainRequest::SetIrq { irq_id, active })
    }

    /// Replaces all routes of interrupts. All have to be of a known kind.
    pub fn set_irq_routing_request(routing: &[crosvm_irq_route]) -> (r: Result<MainCall, i32>)
        ensures
            r is Ok <==> forall|i: int|
                0 <= i < routing@.len() ==> (#[trigger] routing@[i]).to_proto() is Some,
            match r {
                Ok(c) => {
                    &&& c.fds@.len() == 0
                    &&& c.request matches MainRequest::SetIrqRouting { routes }
                    &&& routes@ == routing@.map_values(
                        |route: crosvm_irq_route| route.to_proto()->0,
                    )
                },
                Err(e) => e == crate::errno::negated(crate::errno::EINVAL),
            },
            r is Ok <==> forall|i: int|
                0 <= i < routing@.len() ==> (#[trigger] routing@[i]).kind == 0 || routing@[i].kind
                    == 1,
            r matches Err(e) ==> e == -crate::errno::EINVAL,
            r matches Ok(c) ==> (c.request matches MainRequest::SetIrqRouting { routes } && {
                &&& routes@.len() == routing@.len()
                &&& forall|i: int|
                    0 <= i < routing@.len() ==> (#[trigger] routes@[i]).irq_id == routing@[i].irq_id
                &&& forall|i: int|
                    0 <= i < routing@.len() && routing@[i].kind == 0 ==> (
                    #[trigger] routes@[i]).target == (RouteTarget::Irqchip {
                        irqchip: routing@[i].route.irqchip.irqchip,
                        pin: routing@[i].route.irqchip.pin,
                    })
                &&& forall|i: int|
                    0 <= i < routing@.len() && routing@[i].kind == 1 ==> (
                    #[trigger] routes@[i]).target == (RouteTarget::Msi {
                        address: routing@[i].route.msi.address,
                        data: routing@[i].route.msi.data,
                    })
            }),
    {
        let mut routes: Vec<Route> = Vec::new();
        let mut i: usize = 0;
        while i < routing.len()
            invariant
                i <= routing@.len(),
                routes@.len() == i,
                forall|j: int|
                    0 <= j < i ==> (#[trigger] routing@[j]).to_proto() == Some(routes@[j]),
            decreases routing@.len() - i,
        {
            let route: crosvm_irq_route = routing[i];
            let target: RouteTarget = match route.kind {
                CROSVM_IRQ_ROUTE_IRQCHIP => RouteTarget::Irqchip {
                    irqchip: route.route.irqchip.irqchip,
                    pin: route.route.irqchip.pin,
                },
                CROSVM_IRQ_ROUTE_MSI => RouteTarget::Msi {
                    address: route.route.msi.address,
                    data: route.route.msi.data,
                },
                _ => {
                    assert(routing@[i as int].to_proto() is None);
                    return Err(-libc_einval());
                },
            };
            routes.push(Route { irq_id: route.irq_id, target });
            i = i + 1;
        }
        Ok(call(MainRequest::SetIrqRouting { routes }))
    }

    /// Sets the address of the identity map.
    pub fn set_identity_map_addr_request(addr: u32) -> (r: MainCall)
        ensures
            r.sends(MainRequest::SetIdentityMapAddr { address: addr }),
            r.request == (MainRequest::SetIdentityMapAddr { address: addr }),
            r.fds@ == Seq::<i32>::empty(),
    {
        call(MainRequest::SetIdentityMapAddr { address: addr })
    }

    /// Pauses the VCPUs whose bits are set in `cpu_mask`. They report `user` when they stop.
    pub fn pause_vcpus_request(cpu_mask: u64, user: u64) -> (r: MainCall)
        ensures
            r.sends(MainRequest::PauseVcpus { cpu_mask, user }),
            r.request == (MainRequest::PauseVcpus { cpu_mask, user }),
            r.fds@ == Seq::<i32>::empty(),
    {
        call(MainRequest::PauseVcpus { cpu_mask, user })
    }

    /// Starts the virtual machine.
    pub fn start_request() -> (r: MainCall)
        ensures
            r.sends(MainRequest::Start),
            r.request == (MainRequest::Start),
            r.fds@ == Seq::<i32>::empty(),
    {
        call(MainRequest::Start)
    }

    /// The VCPU number `cpu_id`, if there is one.
    pub fn get_vcpu(&self, cpu_id: u32) -> (r: Option<&crosvm_vcpu<H>>)
        ensures
            r == (if cpu_id < self.vcpus@.len() {
                Some(&self.vcpus@[cpu_id as int])
            } else {
                None
            }),
    {
        if (cpu_id as usize) < self.vcpus.len() {
            Some(&self.vcpus[cpu_id as usize])
        } else {
            None
        }
    }
}

/// Whether `vcpus` are new VCPUs over `sockets`, in this order.
pub open spec fn are_vcpus_of<H>(vcpus: Seq<crosvm_vcpu<H>>, sockets: Seq<H>) -> bool {
    &&& vcpus.len() == sockets.len()
    &&& forall|i: int| 0 <= i < vcpus.len() ==> (#[trigger] vcpus[i]).is_new(sockets[i])
}

/// A call sends a request when it holds just that request and no descriptors.
pub proof fn law_call_sends_one_request(call: MainCall, request: MainRequest)
    ensures
        call.sends(request) ==> call.request == request,
        call.sends(request) ==> call.fds@.len() == 0,
        call.fds@.len() == 0 ==> call.sends(call.request),
{
}

/// When a file is asked for and a reply came without an error, one file is enough: the last that
/// came is had, however many there are. It is a protocol error only if none came. The response
/// itself plays no part.
pub proof fn law_last_file_is_had<H>(response: MainResponse, files: Vec<H>, e: i32)
    ensures
        files@.len() >= 1 ==> last_file(Ok((response, files))) == Ok::<H, i32>(
            files@[files@.len() - 1],
        ),
        files@.len() == 0 ==> last_file(Ok((response, files))) == Err::<H, i32>(-71i32 as i32),
        last_file::<H>(Err(e)) == Err::<H, i32>(e),
{
}

/// A route keeps its interrupt. Of the target it keeps what its kind says, to the last bit: the
/// controller and the pin, or the address and the data of the message. What the target reads as for
/// the other kind plays no part. There are only these two kinds.
pub proof fn law_route_keeps_its_target(route: crosvm_irq_route)
    ensures
        route.to_proto() is Some <==> route.kind == 0 || route.kind == 1,
        route.to_proto() matches Some(r) ==> r.irq_id == route.irq_id,
        route.kind == 0 ==> (route.to_proto() matches Some(r) && (r.target matches
            RouteTarget::Irqchip { irqchip, pin } && irqchip == route.route.irqchip.irqchip && pin
            == route.route.irqchip.pin)),
        route.kind == 1 ==> (route.to_proto() matches Some(r) && (r.target matches
            RouteTarget::Msi { address, data } && address == route.route.msi.address && data
            == route.route.msi.data)),
{
}

/// Two routes of one kind that are the same in the protocol's terms have the same interrupt and the
/// same target.
pub proof fn law_routes_are_told_apart(a: crosvm_irq_route, b: crosvm_irq_route)
    requires
        a.to_proto() is Some,
        a.to_proto() == b.to_proto(),
    ensures
        a.irq_id == b.irq_id,
        a.kind == b.kind,
        a.kind == 0 ==> a.route.irqchip == b.route.irqchip,
        a.kind == 1 ==> a.route.msi == b.route.msi,
{
}

/// The VCPUs of a plugin are as many as the sockets that came, and each is over the socket at its
/// place, with nothing sent, received or kept yet and room for the largest datagram.
pub proof fn law_vcpus_are_over_their_sockets<H>(
    vcpus: Seq<crosvm_vcpu<H>>,
    sockets: Seq<H>,
    i: int,
)
    requires
        are_vcpus_of(vcpus, sockets),
        0 <= i < sockets.len(),
    ensures
        vcpus.len() == sockets.len(),
        vcpus[i].socket == sockets[i],
        vcpus[i].request_buffer@.len() == 0,
        vcpus[i].resume_data@.len() == 0,
        vcpus[i].response_buffer@.len() == 0x40000,
        forall|j: int| 0 <= j < 0x40000 ==> vcpus[i].response_buffer@[j] == 0,
{
    assert(vcpus[i].is_new(sockets[i]));
}

/// A connection has room for the largest datagram.
pub proof fn law_connection_has_room<H, A>(c: crosvm<H, A>)
    ensures
        c.wf() <==> c.response_buffer@.len() == 0x40000,
{
}

/// How large a datagram may be, and how many files it may carry.
pub proof fn law_limits_of_a_datagram()
    ensures
        MAX_DATAGRAM_SIZE == 262144,
        MAX_DATAGRAM_FD == 32,
{
}

/// An extension is there exactly if the response says so. A response that does not say is a
/// protocol error.
pub proof fn law_extension_is_as_told<H, A>(
    response: MainResponse,
    files: Vec<H>,
    r: Result<bool, i32>,
)
    requires
        call_ensures(crosvm::<H, A>::check_extension, (Ok((response, files)),), r),
    ensures
        r matches Ok(there) ==> response.check_extension == Some(there),
        r matches Err(e) ==> response.check_extension is None && e == -71,
{
}

/// Route by route, what is sent is what the plugin gave: the interrupt, and the target that the
/// kind names, to the last bit.
pub proof fn law_routing_is_sent_as_given<H, A>(
    routing: &[crosvm_irq_route],
    r: Result<MainCall, i32>,
    i: int,
)
    requires
        call_ensures(crosvm::<H, A>::set_irq_routing_request, (routing,), r),
        0 <= i < routing@.len(),
    ensures
        routing@[i].kind > 1 ==> (r matches Err(e) && e == -22),
        r matches Ok(c) ==> c.fds@.len() == 0 && (c.request matches MainRequest::SetIrqRouting {
            routes,
        } && {
            &&& routes@.len() == routing@.len()
            &&& routes@[i].irq_id == routing@[i].irq_id
            &&& match routes@[i].target {
                RouteTarget::Irqchip { irqchip, pin } => routing@[i].kind == 0 && irqchip
                    == routing@[i].route.irqchip.irqchip && pin == routing@[i].route.irqchip.pin,
                RouteTarget::Msi { address, data } => routing@[i].kind == 1 && address
                    == routing@[i].route.msi.address && data == routing@[i].route.msi.data,
            }
        }),
{
    if routing@[i].kind > 1 {
        law_route_keeps_its_target(routing@[i]);
    }
}

/// The event that tells of a shutdown is had whenever a file came for it.
pub proof fn law_shutdown_event_is_had<H, A>(
    response: MainResponse,
    files: Vec<H>,
    r: Result<H, i32>,
)
    requires
        call_ensures(crosvm::<H, A>::get_shutdown_eventfd, (Ok((response, files)),), r),
    ensures
        r is Ok <==> files@.len() >= 1,
        r matches Ok(file) ==> file == files@.last(),
        r matches Err(e) ==> e == -71,
{
}

/// Another connection is had whenever a socket came for it, and is over that socket. It shares what
/// connections share and has buffers of its own.
pub proof fn law_clone_shares_but_for_the_socket<H, A>(
    c: crosvm<H, A>,
    response: MainResponse,
    files: Vec<H>,
    r: Result<crosvm<H, A>, i32>,
)
    requires
        call_ensures(crosvm::<H, A>::try_clone, (&c, Ok((response, files))), r),
    ensures
        r is Ok <==> files@.len() >= 1,
        r matches Ok(d) ==> d.socket == files@.last() && d.id_allocator == c.id_allocator && d.vcpus
            == c.vcpus && d.request_buffer@.len() == 0 && d.response_buffer@.len() == 262144,
        r matches Err(e) ==> e == -71,
{
}

/// A VCPU is found by the place that its socket had among those that came, and no others are.
pub proof fn law_vcpu_is_found_by_its_place<H, A>(
    c: &mut crosvm<H, A>,
    response: MainResponse,
    files: Vec<H>,
    loaded: Result<(), i32>,
    cpu_id: u32,
    found: Option<&crosvm_vcpu<H>>,
)
    requires
        call_ensures(crosvm::<H, A>::load_all_vcpus, (c, Ok((response, files))), loaded),
        call_ensures(crosvm::<H, A>::get_vcpu, (&*final(c), cpu_id), found),
        files@.len() >= 1,
    ensures
        loaded is Ok,
        cpu_id < files@.len() ==> (found matches Some(vcpu) && vcpu.socket
            == files@[cpu_id as int]),
        cpu_id >= files@.len() ==> found is None,
{
}

/// A range of addresses is reserved as it was given, in a space that the protocol has. There is no
/// such range in another.
pub proof fn law_range_is_reserved_as_given<H, A>(
    space: Option<AddressSpace>,
    start: u64,
    length: u64,
    r: Result<MainCall, i32>,
)
    requires
        call_ensures(crosvm::<H, A>::reserve_range_request, (space, start, length), r),
    ensures
        r is Ok <==> space is Some,
        r matches Ok(c) ==> c.fds@.len() == 0 && (c.request matches MainRequest::ReserveRange {
            space: asked,
            start: from,
            length: bytes,
        } && space == Some(asked) && from == start && bytes == length),
        r matches Err(e) ==> e == -22,
{
}

/// An interrupt is set, and VCPUs are paused, as the plugin says.
pub proof fn law_interrupts_and_pauses_are_sent_as_given<H, A>(
    irq_id: u32,
    active: bool,
    set: MainCall,
    cpu_mask: u64,
    user: u64,
    pause: MainCall,
)
    requires
        call_ensures(crosvm::<H, A>::set_irq_request, (irq_id, active), set),
        call_ensures(crosvm::<H, A>::pause_vcpus_request, (cpu_mask, user), pause),
    ensures
        set.fds@.len() == 0,
        set.request matches MainRequest::SetIrq { irq_id: irq, active: on } && irq == irq_id && on
            == active,
        pause.fds@.len() == 0,
        pause.request matches MainRequest::PauseVcpus { cpu_mask: mask, user: told } && mask
            == cpu_mask && told == user,
{
}

/// The identifier of the object created last is the next again once that object is destroyed, and
/// not before.
pub proof fn law_destroyed_identifier_is_next<H, A>(
    ids: &mut IdAllocator,
    id: u32,
    reply: MainReply<H>,
    r: Result<(), i32>,
)
    requires
        old(ids)@ == id + 1,
        call_ensures(crosvm::<H, A>::destroy, (ids, id, reply), r),
    ensures
        reply is Ok ==> r is Ok && final(ids)@ == id,
        reply matches Err(e) ==> r == Err::<(), i32>(e) && final(ids)@ == old(ids)@,
{
}

/// The first connection of a plugin is over the socket given, and has the VCPUs whose sockets came.
/// It takes one to have a connection at all.
pub proof fn law_first_connection_has_its_vcpus<H, A>(
    id_allocator: Arc<A>,
    socket: H,
    asked: (crosvm<H, A>, MainCall),
    response: MainResponse,
    files: Vec<H>,
    r: Result<crosvm<H, A>, i32>,
)
    requires
        call_ensures(crosvm::<H, A>::from_connection_request, (id_allocator, socket), asked),
        call_ensures(crosvm::<H, A>::from_connection, (asked.0, Ok((response, files))), r),
    ensures
        asked.1.request == MainRequest::GetVcpus,
        r is Ok <==> files@.len() >= 1,
        r matches Ok(c) ==> c.socket == socket && c.id_allocator == id_allocator && c.vcpus@.len()
            == files@.len(),
        r matches Ok(c) ==> forall|i: int|
            0 <= i < files@.len() ==> (#[trigger] c.vcpus@[i]).socket == files@[i],
        r matches Err(e) ==> e == -71,
{
}

} // verus!
