//! The messages of the plugin protocol, as far as the client reads and writes them.
//!
//! A plugin sends a [`MainRequest`] over its main connection and gets a [`MainResponse`] back. On
//! the connection of each VCPU it sends a [`VcpuRequest`] and gets a [`VcpuResponse`].
use vstd::prelude::*;

verus! {

/// An address space of the guest, by its number in the protocol.
#[derive(Copy, Clone, Debug, PartialEq, Eq)]
pub struct AddressSpace {
    pub value: i32,
}

/// An object that the client asks for.
#[allow(inconsistent_fields)]
#[derive(Copy, Clone, Debug, PartialEq, Eq)]
pub enum CreateObject {
    /// An event that fires when the guest writes to an address.
    IoEvent { space: AddressSpace, address: u64, length: u32, datamatch: u64 },
    /// A range of guest memory.
    Memory { offset: u64, start: u64, length: u64, read_only: bool, dirty_log: bool },
    /// A pair of events that trigger an interrupt and tell that it is to be sampled again.
    IrqEvent { irq_id: u32, resample: bool },
}

/// Where an interrupt is routed to.
#[derive(Copy, Clone, Debug, PartialEq, Eq)]
pub enum RouteTarget {
    /// To a pin of an interrupt controller.
    Irqchip { irqchip: u32, pin: u32 },
    /// To a message that is written to an address.
    Msi { address: u64, data: u32 },
}

/// The route of one interrupt.
#[derive(Copy, Clone, Debug, PartialEq, Eq)]
pub struct Route {
    pub irq_id: u32,
    pub target: RouteTarget,
}

/// A request over the main connection.
#[derive(Debug, PartialEq, Eq)]
pub enum MainRequest {
    Create { id: u32, object: CreateObject },
    Destroy { id: u32 },
    NewConnection,
    GetShutdownEventfd,
    CheckExtension { extension: u32 },
    ReserveRange { space: AddressSpace, start: u64, length: u64 },
    SetIrq { irq_id: u32, active: bool },
    SetIrqRouting { routes: Vec<Route> },
    SetIdentityMapAddr { address: u32 },
    PauseVcpus { cpu_mask: u64, user: u64 },
    GetVcpus,
    Start,
    DirtyLog { id: u32 },
}

/// A response over the main connection. What a request was answered with is there only if the
/// response holds it.
#[derive(Debug, PartialEq, Eq)]
pub struct MainResponse {
    /// Zero, or the reason why the request failed.
    pub errno: i32,
    /// Whether the extension asked for is there.
    pub check_extension: Option<bool>,
    /// The dirty log's bitmap.
    pub dirty_log: Option<Vec<u8>>,
}

/// A part of the state of a VCPU.
#[derive(Copy, Clone, Debug, PartialEq, Eq)]
pub enum StateSet {
    REGS,
    SREGS,
    FPU,
    DEBUGREGS,
}

/// A model specific register and what it holds.
#[derive(Copy, Clone, Debug, PartialEq, Eq)]
pub struct MsrEntry {
    pub index: u32,
    pub data: u64,
}

/// What a VCPU answers to a `cpuid` instruction.
#[derive(Copy, Clone, Debug, PartialEq, Eq)]
pub struct CpuidEntry {
    pub function: u32,
    pub index: u32,
    pub flags: u32,
    pub eax: u32,
    pub ebx: u32,
    pub ecx: u32,
    pub edx: u32,
}

/// A request over the connection of a VCPU.
#[allow(inconsistent_fields)]
#[derive(Debug, PartialEq, Eq)]
pub enum VcpuRequest {
    Wait,
    Resume { data: Vec<u8> },
    GetState { set: StateSet },
    SetState { set: StateSet, state: Vec<u8> },
    GetMsrs { entry_indices: Vec<u32> },
    SetMsrs { entries: Vec<MsrEntry> },
    SetCpuid { entries: Vec<CpuidEntry> },
}

/// An access of the guest to an address that the plugin has reserved.
#[derive(Debug, PartialEq, Eq)]
pub struct WaitIo {
    pub space: AddressSpace,
    pub address: u64,
    pub is_write: bool,
    pub data: Vec<u8>,
}

/// Why a VCPU stopped.
#[derive(Debug, PartialEq, Eq)]
pub struct Wait {
    /// Whether it has not run yet.
    pub init: bool,
    /// The access that it waits for.
    pub io: Option<WaitIo>,
    /// What was given to the request that paused it.
    pub user: Option<u64>,
}

/// A response over the connection of a VCPU. What a request was answered with is there only if
/// the response holds it.
#[derive(Debug, PartialEq, Eq)]
pub struct VcpuResponse {
    /// Zero, or the reason why the request failed.
    pub errno: i32,
    /// Why the VCPU stopped.
    pub wait: Option<Wait>,
    /// The state asked for.
    pub get_state: Option<Vec<u8>>,
    /// What the registers asked for hold.
    pub get_msrs: Option<Vec<u64>>,
}

/// What all responses have in common.
pub trait Response {
    /// Zero, or the reason why the request failed.
    spec fn spec_errno(&self) -> i32;

    /// Zero, or the reason why the request failed.
    fn errno(&self) -> (r: i32)
        ensures
            r == self.spec_errno(),
    ;
}

impl Response for MainResponse {
    open spec fn spec_errno(&self) -> i32 {
        self.errno
    }

    fn errno(&self) -> (r: i32) {
        self.errno
    }
}

impl Response for VcpuResponse {
    open spec fn spec_errno(&self) -> i32 {
        self.errno
    }

    fn errno(&self) -> (r: i32) {
        self.errno
    }
}

/// A response over the main connection tells its error number, and nothing else, as the reason why
/// the request failed.
pub proof fn law_main_response_tells_its_errno(response: MainResponse)
    ensures
        response.spec_errno() == response.errno,
{
}

/// A response over the connection of a VCPU tells its error number, and nothing else, as the reason
/// why the request failed.
pub proof fn law_vcpu_response_tells_its_errno(response: VcpuResponse)
    ensures
        response.spec_errno() == response.errno,
{
}

} // verus!
