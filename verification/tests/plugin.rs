use std::sync::Arc;

use crosvm_plugin::api::{connection_socket, crosvm_memory_get_dirty_log, deliver, found, status};
use crosvm_plugin::connection::{
    acknowledge, address_space_number, anon_irqchip, anon_msi, anon_route, crosvm,
    crosvm_irq_route, MainReply, MAX_DATAGRAM_SIZE,
};
use crosvm_plugin::errno::{
    errno_to_int, io_error_to_int, os_error_to_int, proto_error_to_int, EINVAL, ENOENT, ENOTCONN,
    EPROTO,
};
use crosvm_plugin::ids::IdAllocator;
use crosvm_plugin::objects::{crosvm_io_event, crosvm_irq_event, crosvm_memory, datamatch_size};
use crosvm_plugin::protocol::{
    AddressSpace, CpuidEntry, CreateObject, MainRequest, MainResponse, MsrEntry, Route,
    RouteTarget, StateSet, VcpuRequest, VcpuResponse, Wait, WaitIo,
};
use crosvm_plugin::transaction::{received_bytes, Event, SocketError, Stage, Step};
use crosvm_plugin::vcpu::{
    acknowledge_vcpu, anon_io_access, anon_vcpu_event, crosvm_vcpu, crosvm_vcpu_event,
};
use protobuf::error::WireError;
use protobuf::ProtobufError;

type Connection = crosvm<i32, ()>;

fn response() -> MainResponse {
    MainResponse { errno: 0, check_extension: None, dirty_log: None }
}

fn files(files: &[i32]) -> MainReply<i32> {
    Ok((response(), files.to_vec()))
}

fn vcpu_response() -> VcpuResponse {
    VcpuResponse { errno: 0, wait: None, get_state: None, get_msrs: None }
}

fn waits(init: bool, io: Option<WaitIo>, user: Option<u64>) -> VcpuResponse {
    VcpuResponse { wait: Some(Wait { init, io, user }), ..vcpu_response() }
}

fn unset() -> crosvm_vcpu_event {
    crosvm_vcpu_event { kind: 99, event: anon_vcpu_event::Unset }
}

fn io_error(errno: i32) -> std::io::Error {
    std::io::Error::from_raw_os_error(errno)
}

fn plain_io_error() -> std::io::Error {
    std::io::Error::new(std::io::ErrorKind::Other, "no number")
}

// Error numbers.

#[test]
fn error_numbers_are_those_of_the_system() {
    assert_eq!(EINVAL, libc::EINVAL);
    assert_eq!(ENOENT, libc::ENOENT);
    assert_eq!(ENOTCONN, libc::ENOTCONN);
    assert_eq!(EPROTO, libc::EPROTO);
}

#[test]
fn codes_are_negative_error_numbers() {
    assert_eq!(errno_to_int(5), -5);
    assert_eq!(os_error_to_int(Some(32)), -32);
    assert_eq!(os_error_to_int(None), -22);
    assert_eq!(io_error_to_int(io_error(11)), -11);
    assert_eq!(io_error_to_int(plain_io_error()), -22);
}

#[test]
fn protobuf_errors_have_codes() {
    assert_eq!(proto_error_to_int(ProtobufError::IoError(io_error(4))), -4);
    assert_eq!(proto_error_to_int(ProtobufError::IoError(plain_io_error())), -22);
    assert_eq!(proto_error_to_int(ProtobufError::WireError(WireError::UnexpectedEof)), -22);
    assert_eq!(proto_error_to_int(ProtobufError::message_not_initialized("m")), -22);
}

// Identifiers.

#[test]
fn identifiers_count_up() {
    let mut ids = IdAllocator::default();
    assert_eq!(ids.allocate(), 0);
    assert_eq!(ids.allocate(), 1);
    assert_eq!(ids.allocate(), 2);
}

#[test]
fn only_the_latest_identifier_is_taken_back() {
    let mut ids = IdAllocator::default();
    ids.allocate();
    ids.allocate();
    ids.free(0);
    assert_eq!(ids.allocate(), 2);
    ids.free(2);
    assert_eq!(ids.allocate(), 2);
    ids.free(u32::MAX);
    assert_eq!(ids.allocate(), 3);
}

// Transactions.

#[test]
fn a_transaction_runs_to_its_response() {
    let mut buffer = vec![1, 2, 3];
    let stage: Stage<i32> = Stage::start(&mut buffer);
    assert!(buffer.is_empty());
    assert!(matches!(stage, Stage::Encode));
    let stage = match stage.advance::<MainResponse>(Event::Encoded(Ok(()))) {
        Step::Go(stage) => stage,
        Step::End(_) => panic!("ended"),
    };
    assert!(matches!(stage, Stage::Send));
    let stage = match stage.advance::<MainResponse>(Event::Sent(Ok(()))) {
        Step::Go(stage) => stage,
        Step::End(_) => panic!("ended"),
    };
    assert!(matches!(stage, Stage::Receive));
    let stage = match stage.advance::<MainResponse>(Event::Received(Ok((2, vec![7, 8])))) {
        Step::Go(stage) => stage,
        Step::End(_) => panic!("ended"),
    };
    assert!(matches!(stage, Stage::Parse { size: 2, .. }));
    match stage.advance(Event::Parsed(Ok(response()))) {
        Step::End(r) => assert_eq!(r, Ok((response(), vec![7, 8]))),
        Step::Go(_) => panic!("went on"),
    }
}

fn ends_with(stage: Stage<i32>, event: Event<VcpuResponse, i32>) -> i32 {
    match stage.advance(event) {
        Step::End(Err(e)) => e,
        _ => panic!("no error"),
    }
}

#[test]
fn a_transaction_ends_at_the_first_failure() {
    let bad = || ProtobufError::WireError(WireError::Other);
    assert_eq!(ends_with(Stage::Encode, Event::Encoded(Err(bad()))), -22);
    assert_eq!(ends_with(Stage::Send, Event::Sent(Err(SocketError::Errno(32)))), -32);
    assert_eq!(ends_with(Stage::Send, Event::Sent(Err(SocketError::Io(io_error(9))))), -9);
    assert_eq!(ends_with(Stage::Receive, Event::Received(Err(SocketError::Errno(104)))), -104);
    assert_eq!(
        ends_with(Stage::Receive, Event::Received(Err(SocketError::Io(plain_io_error())))),
        -22
    );
    assert_eq!(
        ends_with(
            Stage::Parse { size: 0, files: vec![] },
            Event::Parsed(Err(ProtobufError::IoError(io_error(5))))
        ),
        -5
    );
    assert_eq!(
        ends_with(
            Stage::Parse { size: 0, files: vec![] },
            Event::Parsed(Ok(VcpuResponse { errno: 13, ..vcpu_response() }))
        ),
        13
    );
}

#[test]
fn only_what_was_received_is_parsed() {
    assert_eq!(received_bytes(&[1, 2, 3, 4], 3), &[1, 2, 3]);
    assert_eq!(received_bytes(&[1, 2], 0), &[0u8; 0]);
}

// The main connection.

#[test]
fn connecting_loads_the_vcpus() {
    let (c, call) = Connection::from_connection_request(Arc::new(()), 3);
    assert_eq!(call.request, MainRequest::GetVcpus);
    assert!(call.fds.is_empty());
    assert_eq!(c.vcpus.len(), 0);
    assert_eq!(c.response_buffer.len(), MAX_DATAGRAM_SIZE);
    let c = c.from_connection(files(&[10, 11])).ok().unwrap();
    assert_eq!(c.socket, 3);
    assert_eq!(c.get_vcpu(0).unwrap().socket, 10);
    assert_eq!(c.get_vcpu(1).unwrap().socket, 11);
    assert_eq!(c.get_vcpu(1).unwrap().response_buffer.len(), MAX_DATAGRAM_SIZE);
    assert!(c.get_vcpu(2).is_none());
}

#[test]
fn connecting_needs_a_vcpu() {
    let (c, _) = Connection::from_connection_request(Arc::new(()), 3);
    assert_eq!(c.from_connection(files(&[])).err(), Some(-71));
    let (c, _) = Connection::from_connection_request(Arc::new(()), 3);
    assert_eq!(c.from_connection(Err(-5)).err(), Some(-5));
}

#[test]
fn another_connection_shares_identifiers_and_vcpus() {
    assert_eq!(Connection::try_clone_request().request, MainRequest::NewConnection);
    let (c, _) = Connection::from_connection_request(Arc::new(()), 3);
    let c = c.from_connection(files(&[10])).ok().unwrap();
    let d = c.try_clone(files(&[20, 21])).ok().unwrap();
    assert_eq!(d.socket, 21);
    assert!(Arc::ptr_eq(&c.id_allocator, &d.id_allocator));
    assert!(Arc::ptr_eq(&c.vcpus, &d.vcpus));
    assert_eq!(c.try_clone(files(&[])).err(), Some(-71));
    assert_eq!(c.try_clone(Err(-9)).err(), Some(-9));
}

#[test]
fn destroying_gives_the_identifier_back() {
    assert_eq!(Connection::destroy_request(4).request, MainRequest::Destroy { id: 4 });
    let mut ids = IdAllocator::default();
    let id = ids.allocate();
    assert_eq!(Connection::destroy(&mut ids, id, Err(-2)), Err(-2));
    assert_eq!(ids.allocate(), 1);
    assert_eq!(Connection::destroy(&mut ids, 1, files(&[])), Ok(()));
    assert_eq!(ids.allocate(), 1);
}

#[test]
fn the_shutdown_event_is_the_last_file() {
    assert_eq!(
        Connection::get_shutdown_eventfd_request().request,
        MainRequest::GetShutdownEventfd
    );
    assert_eq!(Connection::get_shutdown_eventfd(files(&[4, 5])), Ok(5));
    assert_eq!(Connection::get_shutdown_eventfd(files(&[])), Err(-71));
    assert_eq!(Connection::get_shutdown_eventfd(Err(-1)), Err(-1));
}

#[test]
fn extensions_are_checked() {
    assert_eq!(
        Connection::check_extension_request(6).request,
        MainRequest::CheckExtension { extension: 6 }
    );
    let has = |b| Ok((MainResponse { check_extension: Some(b), ..response() }, vec![]));
    assert_eq!(Connection::check_extension(has(true)), Ok(true));
    assert_eq!(Connection::check_extension(has(false)), Ok(false));
    assert_eq!(Connection::check_extension(files(&[])), Err(-71));
    assert_eq!(Connection::check_extension(Err(-3)), Err(-3));
}

#[test]
fn ranges_are_reserved_in_known_spaces() {
    let space = AddressSpace { value: 1 };
    assert_eq!(
        Connection::reserve_range_request(Some(space), 2, 3).ok().unwrap().request,
        MainRequest::ReserveRange { space, start: 2, length: 3 }
    );
    assert_eq!(Connection::reserve_range_request(None, 2, 3).err(), Some(-22));
    assert_eq!(address_space_number(1), 1);
    assert_eq!(address_space_number(0x8000_0000), i32::MIN);
    assert_eq!(address_space_number(u32::MAX), -1);
}

fn route(irq_id: u32, kind: u32) -> crosvm_irq_route {
    crosvm_irq_route {
        irq_id,
        kind,
        route: anon_route {
            irqchip: anon_irqchip { irqchip: 5, pin: 6 },
            msi: anon_msi { address: 7, data: 8 },
        },
    }
}

#[test]
fn routes_are_read_by_their_kind() {
    let call = Connection::set_irq_routing_request(&[route(1, 0), route(2, 1)]).ok().unwrap();
    assert!(call.fds.is_empty());
    assert_eq!(
        call.request,
        MainRequest::SetIrqRouting {
            routes: vec![
                Route { irq_id: 1, target: RouteTarget::Irqchip { irqchip: 5, pin: 6 } },
                Route { irq_id: 2, target: RouteTarget::Msi { address: 7, data: 8 } },
            ]
        }
    );
    assert_eq!(
        Connection::set_irq_routing_request(&[]).ok().unwrap().request,
        MainRequest::SetIrqRouting { routes: vec![] }
    );
    let bad = Connection::set_irq_routing_request(&[route(1, 0), route(2, 2), route(3, 1)]);
    assert_eq!(bad.err(), Some(-22));
}

#[test]
fn plain_requests_carry_their_arguments() {
    assert_eq!(
        Connection::set_irq_request(3, true).request,
        MainRequest::SetIrq { irq_id: 3, active: true }
    );
    assert_eq!(
        Connection::set_identity_map_addr_request(0x1000).request,
        MainRequest::SetIdentityMapAddr { address: 0x1000 }
    );
    assert_eq!(
        Connection::pause_vcpus_request(5, 77).request,
        MainRequest::PauseVcpus { cpu_mask: 5, user: 77 }
    );
    assert_eq!(Connection::start_request().request, MainRequest::Start);
    assert_eq!(acknowledge(files(&[1])), Ok(()));
    assert_eq!(acknowledge::<i32>(Err(-8)), Err(-8));
}

// Objects.

#[test]
fn an_io_event_is_created() {
    let mut ids = IdAllocator::default();
    ids.allocate();
    let space = AddressSpace { value: 0 };
    let creation =
        crosvm_io_event::<i32>::create_request(&mut ids, Some(space), 0x3f8, 2, &[0x34, 0x12])
            .ok()
            .unwrap();
    assert_eq!(creation.id, 1);
    assert!(creation.call.fds.is_empty());
    assert_eq!(
        creation.call.request,
        MainRequest::Create {
            id: 1,
            object: CreateObject::IoEvent { space, address: 0x3f8, length: 2, datamatch: 0x1234 },
        }
    );
    let event = crosvm_io_event::safe_create(&mut ids, 1, files(&[40, 41])).ok().unwrap();
    assert_eq!((event.id, event.evt), (1, 41));
    assert_eq!(ids.allocate(), 2);
}

fn datamatch_of(length: u32, bytes: &[u8]) -> u64 {
    let mut ids = IdAllocator::default();
    let space = Some(AddressSpace { value: 0 });
    let creation =
        crosvm_io_event::<i32>::create_request(&mut ids, space, 0, length, bytes).ok().unwrap();
    match creation.call.request {
        MainRequest::Create { object: CreateObject::IoEvent { datamatch, .. }, .. } => datamatch,
        _ => panic!("other request"),
    }
}

#[test]
fn the_value_to_match_has_the_length_of_the_write() {
    let bytes = [1, 2, 3, 4, 5, 6, 7, 0xff];
    assert_eq!(datamatch_of(0, &[]), 0);
    assert_eq!(datamatch_of(1, &bytes), 1);
    assert_eq!(datamatch_of(2, &bytes), 0x0201);
    assert_eq!(datamatch_of(4, &bytes), 0x04030201);
    assert_eq!(datamatch_of(8, &bytes), 0xff07060504030201);
    assert_eq!(datamatch_size(3), Err(-22));
    assert_eq!(datamatch_size(16), Err(-22));
    assert_eq!(datamatch_size(8), Ok(8));
}

#[test]
fn an_io_event_of_an_odd_length_takes_no_identifier() {
    let mut ids = IdAllocator::default();
    let space = Some(AddressSpace { value: 0 });
    let r = crosvm_io_event::<i32>::create_request(&mut ids, space, 0, 3, &[0; 3]);
    assert_eq!(r.err(), Some(-22));
    assert_eq!(ids.allocate(), 0);
}

#[test]
fn an_io_event_in_an_unknown_space_keeps_its_identifier_taken() {
    let mut ids = IdAllocator::default();
    let r = crosvm_io_event::<i32>::safe_create_request(&mut ids, None, 0, 1, 0);
    assert_eq!(r.err(), Some(-22));
    assert_eq!(ids.allocate(), 1);
}

#[test]
fn an_io_event_that_fails_gives_its_identifier_back() {
    let mut ids = IdAllocator::default();
    let id = ids.allocate();
    assert_eq!(crosvm_io_event::safe_create(&mut ids, id, files(&[])).err(), Some(-71));
    assert_eq!(ids.allocate(), 0);
    assert_eq!(crosvm_io_event::<i32>::safe_create(&mut ids, 0, Err(-17)).err(), Some(-17));
    assert_eq!(ids.allocate(), 0);
}

#[test]
fn memory_is_made_of_whole_pages() {
    let mut ids = IdAllocator::default();
    let mut ask = |offset, length| {
        crosvm_memory::create_request(&mut ids, 9, offset, length, 0x10, true, false)
    };
    assert_eq!(ask(1, 0x1000).err(), Some(-22));
    assert_eq!(ask(0x1000, 0xfff).err(), Some(-22));
    let creation = ask(0x2000, 0x3000).ok().unwrap();
    assert_eq!(creation.id, 0);
    assert_eq!(creation.call.fds, vec![9]);
    assert_eq!(
        creation.call.request,
        MainRequest::Create {
            id: 0,
            object: CreateObject::Memory {
                offset: 0x2000,
                start: 0x10,
                length: 0x3000,
                read_only: true,
                dirty_log: false,
            },
        }
    );
    let memory = crosvm_memory::create(&mut ids, 0, 0x3000, files(&[]));
    assert_eq!(memory, Ok(crosvm_memory { id: 0, length: 0x3000 }));
    assert_eq!(ids.allocate(), 1);
    assert_eq!(crosvm_memory::create::<i32>(&mut ids, 1, 0x3000, Err(-12)), Err(-12));
    assert_eq!(ids.allocate(), 1);
}

#[test]
fn the_dirty_log_has_to_fit() {
    let memory = crosvm_memory { id: 6, length: 0x1000 };
    assert_eq!(memory.get_dirty_log_request().request, MainRequest::DirtyLog { id: 6 });
    let log = MainResponse { dirty_log: Some(vec![1, 2]), ..response() };
    let bitmap = crosvm_memory::get_dirty_log::<i32>(Ok((log, vec![])));
    assert_eq!(bitmap, Ok(vec![1, 2]));
    assert_eq!(crosvm_memory::get_dirty_log(files(&[])), Err(-71));
    assert_eq!(crosvm_memory::get_dirty_log::<i32>(Err(-6)), Err(-6));
    let mut out = [9, 9];
    assert_eq!(crosvm_memory_get_dirty_log(Ok(vec![1]), &mut out), -71);
    assert_eq!(crosvm_memory_get_dirty_log(Err(-6), &mut out), -6);
    assert_eq!(out, [9, 9]);
    assert_eq!(crosvm_memory_get_dirty_log(bitmap, &mut out), 0);
    assert_eq!(out, [1, 2]);
}

#[test]
fn an_irq_event_takes_the_last_two_files() {
    let mut ids = IdAllocator::default();
    let creation = crosvm_irq_event::<i32>::create_request(&mut ids, 12);
    assert_eq!(
        creation.call.request,
        MainRequest::Create {
            id: 0,
            object: CreateObject::IrqEvent { irq_id: 12, resample: true },
        }
    );
    let event = crosvm_irq_event::create(&mut ids, 0, files(&[1, 2, 3])).ok().unwrap();
    assert_eq!((event.id, event.trigger_evt, event.resample_evt), (0, 2, 3));
    assert_eq!(ids.allocate(), 1);
    assert_eq!(crosvm_irq_event::create(&mut ids, 1, files(&[1])).err(), Some(-71));
    assert_eq!(ids.allocate(), 1);
    assert_eq!(crosvm_irq_event::<i32>::create(&mut ids, 1, Err(-4)).err(), Some(-4));
    assert_eq!(ids.allocate(), 1);
}

// VCPUs.

fn access(data: Vec<u8>) -> WaitIo {
    WaitIo { space: AddressSpace { value: -2 }, address: 0x60, is_write: true, data }
}

#[test]
fn a_vcpu_is_resumed_with_the_data_of_the_access() {
    let mut vcpu = crosvm_vcpu::new(4);
    assert_eq!(crosvm_vcpu::<i32>::wait_request(), VcpuRequest::Wait);
    let mut event = unset();
    assert_eq!(vcpu.wait(Ok(waits(false, Some(access(vec![1, 2, 3])), Some(5))), &mut event), Ok(()));
    assert_eq!(event.kind, 1);
    assert_eq!(
        event.event,
        anon_vcpu_event::IoAccess(anon_io_access {
            address_space: 0xffff_fffe,
            address: 0x60,
            length: 3,
            is_write: 1,
        })
    );
    vcpu.resume_data[0] = 7;
    assert_eq!(vcpu.resume_request(), VcpuRequest::Resume { data: vec![7, 2, 3] });
    assert_eq!(vcpu.resume_request(), VcpuRequest::Resume { data: vec![] });
}

#[test]
fn other_events_keep_the_data() {
    let mut vcpu = crosvm_vcpu::new(4);
    vcpu.resume_data = vec![9];
    let mut event = unset();
    assert_eq!(vcpu.wait(Ok(waits(true, Some(access(vec![1])), Some(5))), &mut event), Ok(()));
    assert_eq!(event, crosvm_vcpu_event { kind: 0, event: anon_vcpu_event::Unset });
    assert_eq!(vcpu.wait(Ok(waits(false, None, Some(5))), &mut event), Ok(()));
    assert_eq!(event, crosvm_vcpu_event { kind: 2, event: anon_vcpu_event::User(5) });
    assert_eq!(vcpu.resume_data, vec![9]);
}

#[test]
fn waiting_that_fails_changes_nothing() {
    let mut vcpu = crosvm_vcpu::new(4);
    vcpu.resume_data = vec![9];
    let mut event = unset();
    assert_eq!(vcpu.wait(Ok(waits(false, None, None)), &mut event), Err(-71));
    assert_eq!(vcpu.wait(Ok(vcpu_response()), &mut event), Err(-71));
    assert_eq!(vcpu.wait(Err(-4), &mut event), Err(-4));
    assert_eq!(event, unset());
    assert_eq!(vcpu.resume_data, vec![9]);
}

#[test]
fn state_has_to_be_of_the_size_expected() {
    assert_eq!(
        crosvm_vcpu::<i32>::get_state_request(StateSet::FPU),
        VcpuRequest::GetState { set: StateSet::FPU }
    );
    assert_eq!(
        crosvm_vcpu::<i32>::set_state_request(StateSet::REGS, &[1, 2]),
        VcpuRequest::SetState { set: StateSet::REGS, state: vec![1, 2] }
    );
    let state = |s: &[u8]| Ok(VcpuResponse { get_state: Some(s.to_vec()), ..vcpu_response() });
    let mut out = [0, 0];
    assert_eq!(crosvm_vcpu::<i32>::get_state(state(&[1]), &mut out), Err(-71));
    assert_eq!(crosvm_vcpu::<i32>::get_state(Ok(vcpu_response()), &mut out), Err(-71));
    assert_eq!(crosvm_vcpu::<i32>::get_state(Err(-5), &mut out), Err(-5));
    assert_eq!(out, [0, 0]);
    assert_eq!(crosvm_vcpu::<i32>::get_state(state(&[3, 4]), &mut out), Ok(()));
    assert_eq!(out, [3, 4]);
}

#[test]
fn msrs_are_read_in_order() {
    let mut entries = [MsrEntry { index: 16, data: 0 }, MsrEntry { index: 27, data: 1 }];
    assert_eq!(
        crosvm_vcpu::<i32>::get_msrs_request(&entries),
        VcpuRequest::GetMsrs { entry_indices: vec![16, 27] }
    );
    assert_eq!(
        crosvm_vcpu::<i32>::set_msrs_request(&entries),
        VcpuRequest::SetMsrs { entries: entries.to_vec() }
    );
    let msrs = |d: &[u64]| Ok(VcpuResponse { get_msrs: Some(d.to_vec()), ..vcpu_response() });
    let before = entries;
    assert_eq!(crosvm_vcpu::<i32>::get_msrs(msrs(&[5]), &mut entries), Err(-71));
    assert_eq!(crosvm_vcpu::<i32>::get_msrs(Ok(vcpu_response()), &mut entries), Err(-71));
    assert_eq!(crosvm_vcpu::<i32>::get_msrs(Err(-5), &mut entries), Err(-5));
    assert_eq!(entries, before);
    assert_eq!(crosvm_vcpu::<i32>::get_msrs(msrs(&[5, 6]), &mut entries), Ok(()));
    assert_eq!(entries, [MsrEntry { index: 16, data: 5 }, MsrEntry { index: 27, data: 6 }]);
}

#[test]
fn cpuid_entries_are_sent_as_they_are() {
    let entry =
        CpuidEntry { function: 1, index: 2, flags: 3, eax: 4, ebx: 5, ecx: 6, edx: 7 };
    assert_eq!(
        crosvm_vcpu::<i32>::set_cpuid_request(&[entry]),
        VcpuRequest::SetCpuid { entries: vec![entry] }
    );
    assert_eq!(acknowledge_vcpu(Ok(vcpu_response())), Ok(()));
    assert_eq!(acknowledge_vcpu(Err(-1)), Err(-1));
}

// The C API.

#[test]
fn results_become_numbers() {
    assert_eq!(status(Ok(())), 0);
    assert_eq!(status(Err(-5)), -5);
    let mut out = false;
    assert_eq!(deliver(Err(-5), &mut out), -5);
    assert!(!out);
    assert_eq!(deliver(Ok(true), &mut out), 0);
    assert!(out);
    assert_eq!(found(Some(3)), Ok(3));
    assert_eq!(found::<i32>(None), Err(-2));
}

#[test]
fn the_socket_is_named_by_its_descriptor() {
    assert_eq!(connection_socket(None), Err(-107));
    assert_eq!(connection_socket(Some("12")), Ok(12));
    assert_eq!(connection_socket(Some("+12")), Ok(12));
    assert_eq!(connection_socket(Some("-0")), Ok(0));
    assert_eq!(connection_socket(Some("2147483647")), Ok(2147483647));
    for name in ["", "-", "+", "-1", "2147483648", " 3", "3 ", "x", "1_0", "--1", "0x1"] {
        assert_eq!(connection_socket(Some(name)), Err(-22));
    }
}
