//! One exchange of a request for a response, step by step.
//!
//! The bytes are written, sent, received and parsed by the caller. After each of these steps the
//! caller tells how it went and learns what is next.
use vstd::prelude::*;

use protobuf::ProtobufError;
use vstd::slice::slice_subrange;

use crate::errno::{errno_to_int, io_error_to_int, proto_error_to_int};
use crate::protocol::{MainResponse, Response, VcpuResponse};

verus! {

/// Why a socket could not send or receive.
pub enum SocketError {
    /// With the given error number.
    Errno(i32),
    /// With an I/O error.
    Io(std::io::Error),
}

/// What a transaction is waiting for.
pub enum Stage<F> {
    /// For the request to be written into the request buffer.
    Encode,
    /// For the request buffer to be sent.
    Send,
    /// For the response to be received into the response buffer.
    Receive,
    /// For the first `size` bytes of the response buffer to be parsed. The files came with them.
    Parse { size: usize, files: Vec<F> },
}

/// How one step of a transaction went.
pub enum Event<M, F> {
    /// The request was written, or failed to be.
    Encoded(Result<(), ProtobufError>),
    /// The request was sent, or failed to be.
    Sent(Result<(), SocketError>),
    /// The response was received: how many bytes, and which files; or failed to be.
    Received(Result<(usize, Vec<F>), SocketError>),
    /// The response was parsed, or failed to be.
    Parsed(Result<M, ProtobufError>),
}

/// What is next in a transaction.
pub enum Step<M, F> {
    /// The transaction goes on.
    Go(Stage<F>),
    /// The transaction has ended, with a response and the files that came with it or with the
    /// code of an error.
    End(Result<(M, Vec<F>), i32>),
}

/// The code that stands for an error in sending or receiving.
pub open spec fn socket_error_code(e: SocketError) -> i32 {
    match e {
        SocketError::Errno(n) => crate::errno::negated(n),
        SocketError::Io(io) => crate::errno::os_error_code(crate::errno::os_error_number(io)),
    }
}

/// The code that stands for an error in sending or receiving.
pub fn socket_error_to_int(e: SocketError) -> (r: i32)
    ensures
        r == socket_error_code(e),
        e matches SocketError::Errno(n) ==> (n > i32::MIN ==> r == -n),
        e matches SocketError::Io(io) ==> (crate::errno::os_error_number(io) matches Some(n) ==> (n
            > i32::MIN ==> r == -n)),
        e matches SocketError::Io(io) ==> (crate::errno::os_error_number(io) is None ==> r
            == -crate::errno::EINVAL),
{
    match e {
        SocketError::Errno(n) => errno_to_int(n),
        SocketError::Io(io) => io_error_to_int(io),
    }
}

/// Whether `event` is the one that `stage` waits for.
pub open spec fn is_awaited<M, F>(stage: Stage<F>, event: Event<M, F>) -> bool {
    match stage {
        Stage::Encode => event is Encoded,
        Stage::Send => event is Sent,
        Stage::Receive => event is Received,
        Stage::Parse { .. } => event is Parsed,
    }
}

/// How a transaction ends whose response was parsed: a response that carries an error number is
/// turned into that error.
pub open spec fn checked<M: Response, F>(response: M, files: Vec<F>) -> Result<(M, Vec<F>), i32> {
    if response.spec_errno() != 0 {
        Err(response.spec_errno())
    } else {
        Ok((response, files))
    }
}

/// What follows when `event` is how the step that `stage` waits for went.
pub open spec fn next_step<M: Response, F>(stage: Stage<F>, event: Event<M, F>) -> Step<M, F>
    recommends
        is_awaited(stage, event),
{
    match event {
        Event::Encoded(Ok(_)) => Step::Go(Stage::Send),
        Event::Encoded(Err(e)) => Step::End(Err(crate::errno::proto_error_code(e))),
        Event::Sent(Ok(_)) => Step::Go(Stage::Receive),
        Event::Sent(Err(e)) => Step::End(Err(socket_error_code(e))),
        Event::Received(Ok((size, files))) => Step::Go(Stage::Parse { size, files }),
        Event::Received(Err(e)) => Step::End(Err(socket_error_code(e))),
        Event::Parsed(Ok(response)) => Step::End(checked(response, stage->files)),
        Event::Parsed(Err(e)) => Step::End(Err(crate::errno::proto_error_code(e))),
    }
}

impl<F> Stage<F> {
    /// Starts a transaction with an empty request buffer.
    pub fn start(request_buffer: &mut Vec<u8>) -> (r: Stage<F>)
        ensures
            r is Encode,
            final(request_buffer)@ == Seq::<u8>::empty(),
    {
        request_buffer.clear();
        Stage::Encode
    }

    /// Tells how the step went that the transaction was waiting for.
    pub fn advance<M: Response>(self, event: Event<M, F>) -> (r: Step<M, F>)
        requires
            is_awaited(self, event),
        ensures
            r == next_step(self, event),
            event matches Event::Encoded(Ok(_)) ==> r == Step::<M, F>::Go(Stage::Send),
            event matches Event::Sent(Ok(_)) ==> r == Step::<M, F>::Go(Stage::Receive),
            event matches Event::Received(Ok((size, files))) ==> r == Step::<M, F>::Go(
                Stage::Parse { size, files },
            ),
            event matches Event::Parsed(Ok(response)) ==> (response.spec_errno() == 0 ==> (
            self matches Stage::Parse { files, .. } && r == Step::<M, F>::End(
                Ok((response, files)),
            ))),
            event matches Event::Parsed(Ok(response)) ==> (response.spec_errno() != 0 ==> r
                == Step::<M, F>::End(Err(response.spec_errno()))),
            event matches Event::Encoded(Err(e)) ==> r == Step::<M, F>::End(
                Err(crate::errno::proto_error_code(e)),
            ),
            event matches Event::Parsed(Err(e)) ==> r == Step::<M, F>::End(
                Err(crate::errno::proto_error_code(e)),
            ),
            event matches Event::Sent(Err(SocketError::Errno(n))) ==> (r matches Step::End(Err(c))
                && (n > i32::MIN ==> c == -n)),
            event matches Event::Received(Err(SocketError::Errno(n))) ==> (r matches Step::End(
                Err(c),
            ) && (n > i32::MIN ==> c == -n)),
            event matches Event::Sent(Err(SocketError::Io(io))) ==> r == Step::<M, F>::End(
                Err(crate::errno::os_error_code(crate::errno::os_error_number(io))),
            ),
            event matches Event::Received(Err(SocketError::Io(io))) ==> r == Step::<M, F>::End(
                Err(crate::errno::os_error_code(crate::errno::os_error_number(io))),
            ),
    {
        match event {
            Event::Encoded(Ok(_)) => Step::Go(Stage::Send),
            Event::Encoded(Err(e)) => Step::End(Err(proto_error_to_int(e))),
            Event::Sent(Ok(_)) => Step::Go(Stage::Receive),
            Event::Sent(Err(e)) => Step::End(Err(socket_error_to_int(e))),
            Event::Received(Ok((size, files))) => Step::Go(Stage::Parse { size, files }),
            Event::Received(Err(e)) => Step::End(Err(socket_error_to_int(e))),
            Event::Parsed(Ok(response)) => {
                let errno: i32 = response.errno();
                if errno != 0 {
                    return Step::End(Err(errno));
                }
                match self {
                    Stage::Parse { files, .. } => Step::End(Ok((response, files))),
                    _ => Step::End(Ok((response, Vec::new()))),
                }
            },
            Event::Parsed(Err(e)) => Step::End(Err(proto_error_to_int(e))),
        }
    }
}

/// The bytes of the response buffer that were received.
pub fn received_bytes(response_buffer: &[u8], size: usize) -> (r: &[u8])
    requires
        size <= response_buffer@.len(),
    ensures
        r@ == response_buffer@.take(size as int),
{
    slice_subrange(response_buffer, 0, size)
}

/// What follows `step` when the next thing to happen is `event`. Nothing follows the end.
pub open spec fn and_next<M: Response, F>(step: Step<M, F>, event: Event<M, F>) -> Step<M, F> {
    match step {
        Step::Go(stage) => next_step(stage, event),
        Step::End(r) => Step::End(r),
    }
}

/// How a transaction ends, given how each of its steps goes, if it comes to that step: with the
/// code of the first that fails, or with the error number of the response, or with the response
/// and the files that came with it.
pub open spec fn outcome<M: Response, F>(
    encoded: Result<(), ProtobufError>,
    sent: Result<(), SocketError>,
    received: Result<(usize, Vec<F>), SocketError>,
    parsed: Result<M, ProtobufError>,
) -> Result<(M, Vec<F>), i32> {
    match (encoded, sent, received, parsed) {
        (Err(e), _, _, _) => Err(crate::errno::proto_error_code(e)),
        (_, Err(e), _, _) => Err(socket_error_code(e)),
        (_, _, Err(e), _) => Err(socket_error_code(e)),
        (_, _, _, Err(e)) => Err(crate::errno::proto_error_code(e)),
        (_, _, Ok((_, files)), Ok(response)) => checked(response, files),
    }
}

/// A transaction is over after at most four steps, each of which is the one that it waits for,
/// and ends as [`outcome`] says.
pub proof fn law_transaction_ends<M: Response, F>(
    encoded: Result<(), ProtobufError>,
    sent: Result<(), SocketError>,
    received: Result<(usize, Vec<F>), SocketError>,
    parsed: Result<M, ProtobufError>,
)
    ensures
        ({
            let first = next_step::<M, F>(Stage::Encode, Event::Encoded(encoded));
            let second = and_next(first, Event::Sent(sent));
            let third = and_next(second, Event::Received(received));
            &&& is_awaited::<M, F>(Stage::Encode, Event::Encoded(encoded))
            &&& first matches Step::Go(stage) ==> is_awaited::<M, F>(stage, Event::Sent(sent))
            &&& second matches Step::Go(stage) ==> is_awaited::<M, F>(
                stage,
                Event::Received(received),
            )
            &&& third matches Step::Go(stage) ==> is_awaited::<M, F>(stage, Event::Parsed(parsed))
            &&& and_next(third, Event::Parsed(parsed)) == Step::<M, F>::End(
                outcome(encoded, sent, received, parsed),
            )
        }),
{
}

/// A request that the other side refuses is answered with the error number of the response, as it
/// is, and the files that came along are dropped.
pub proof fn law_refusal_is_reported<M: Response, F>(size: usize, files: Vec<F>, response: M)
    requires
        response.spec_errno() != 0,
    ensures
        outcome::<M, F>(Ok(()), Ok(()), Ok((size, files)), Ok(response)) == Err::<(M, Vec<F>), i32>(
            response.spec_errno(),
        ),
{
}

/// A transaction succeeds only with a response whose error number is zero.
pub proof fn law_success_means_no_errno<M: Response, F>(stage: Stage<F>, event: Event<M, F>)
    requires
        is_awaited(stage, event),
    ensures
        next_step(stage, event) matches Step::End(Ok((response, files))) ==> {
            &&& response.spec_errno() == 0
            &&& event == Event::<M, F>::Parsed(Ok(response))
            &&& stage matches Stage::Parse { files: received, .. } && files == received
        },
{
}

/// A transaction whose four steps succeed, and whose response has the error number zero, succeeds:
/// with exactly this response and exactly the files that were received, be they many, one or none,
/// and however many bytes the response had.
pub proof fn law_success_is_reported<M: Response, F>(size: usize, files: Vec<F>, response: M)
    requires
        response.spec_errno() == 0,
    ensures
        next_step(Stage::Parse { size, files }, Event::Parsed(Ok(response))) == Step::<M, F>::End(
            Ok((response, files)),
        ),
        checked(response, files) == Ok::<(M, Vec<F>), i32>((response, files)),
        outcome::<M, F>(Ok(()), Ok(()), Ok((size, files)), Ok(response)) == Ok::<(M, Vec<F>), i32>(
            (response, files),
        ),
{
}

/// Over the main connection only the error number of the response decides: zero is success with
/// what came, and any other number is the error, as it is.
pub proof fn law_errno_decides_main<F>(size: usize, files: Vec<F>, response: MainResponse)
    ensures
        response.errno == 0 ==> next_step(
            Stage::Parse { size, files },
            Event::Parsed(Ok(response)),
        ) == Step::<MainResponse, F>::End(Ok((response, files))),
        response.errno != 0 ==> next_step(
            Stage::Parse { size, files },
            Event::Parsed(Ok(response)),
        ) == Step::<MainResponse, F>::End(Err(response.errno)),
{
}

/// Over the connection of a VCPU only the error number of the response decides: zero is success
/// with what came, and any other number is the error, as it is.
pub proof fn law_errno_decides_vcpu<F>(size: usize, files: Vec<F>, response: VcpuResponse)
    ensures
        response.errno == 0 ==> next_step(
            Stage::Parse { size, files },
            Event::Parsed(Ok(response)),
        ) == Step::<VcpuResponse, F>::End(Ok((response, files))),
        response.errno != 0 ==> next_step(
            Stage::Parse { size, files },
            Event::Parsed(Ok(response)),
        ) == Step::<VcpuResponse, F>::End(Err(response.errno)),
{
}

/// A step that succeeds leads to the next: what is written is sent, what was sent is waited for,
/// and of what came all bytes are parsed and all files kept.
pub proof fn law_steps_lead_on<M: Response, F>(size: usize, files: Vec<F>)
    ensures
        next_step::<M, F>(Stage::Encode, Event::Encoded(Ok(()))) == Step::<M, F>::Go(Stage::Send),
        next_step::<M, F>(Stage::Send, Event::Sent(Ok(()))) == Step::<M, F>::Go(Stage::Receive),
        next_step::<M, F>(Stage::Receive, Event::Received(Ok((size, files)))) == Step::<M, F>::Go(
            Stage::Parse { size, files },
        ),
{
}

/// A step that fails ends the transaction, with the number of the error turned round, or with
/// `-EINVAL` where the error has no number.
pub proof fn law_failures_end_it<M: Response, F>(
    n: i32,
    io: std::io::Error,
    e: ProtobufError,
    size: usize,
    files: Vec<F>,
)
    requires
        n > i32::MIN,
    ensures
        ({
            let sent = next_step::<M, F>(Stage::Send, Event::Sent(Err(SocketError::Errno(n))));
            let received = next_step::<M, F>(
                Stage::Receive,
                Event::Received(Err(SocketError::Errno(n))),
            );
            &&& sent matches Step::End(Err(c)) && c + n == 0
            &&& received matches Step::End(Err(c)) && c + n == 0
        }),
        ({
            let sent = next_step::<M, F>(Stage::Send, Event::Sent(Err(SocketError::Io(io))));
            let received = next_step::<M, F>(
                Stage::Receive,
                Event::Received(Err(SocketError::Io(io))),
            );
            &&& sent == received
            &&& crate::errno::os_error_number(io) == Some(n) ==> (sent matches Step::End(Err(c))
                && c + n == 0)
            &&& crate::errno::os_error_number(io) is None ==> (sent matches Step::End(Err(c)) && c
                == -22)
        }),
        ({
            let encoded = next_step::<M, F>(Stage::Encode, Event::Encoded(Err(e)));
            let parsed = next_step::<M, F>(Stage::Parse { size, files }, Event::Parsed(Err(e)));
            &&& encoded == parsed
            &&& crate::errno::protobuf_io_error(e) is None ==> (encoded matches Step::End(Err(c))
                && c == -22)
            &&& crate::errno::protobuf_io_error(e) == Some(io) && crate::errno::os_error_number(io)
                == Some(n) ==> (encoded matches Step::End(Err(c)) && c + n == 0)
            &&& crate::errno::protobuf_io_error(e) == Some(io) && crate::errno::os_error_number(io)
                is None ==> (encoded matches Step::End(Err(c)) && c == -22)
        }),
{
}

/// Each stage awaits to be told how just its own step went, be it well or not.
pub proof fn law_stages_await_their_own_step<M, F>(
    size: usize,
    files: Vec<F>,
    encoded: Result<(), ProtobufError>,
    sent: Result<(), SocketError>,
    received: Result<(usize, Vec<F>), SocketError>,
    parsed: Result<M, ProtobufError>,
    stage: Stage<F>,
)
    ensures
        is_awaited::<M, F>(stage, Event::Encoded(encoded)) <==> stage == Stage::<F>::Encode,
        is_awaited::<M, F>(stage, Event::Sent(sent)) <==> stage == Stage::<F>::Send,
        is_awaited::<M, F>(stage, Event::Received(received)) <==> stage == Stage::<F>::Receive,
        is_awaited::<M, F>(stage, Event::Parsed(parsed)) <==> stage is Parse,
{
}

/// A transaction over the main connection that got so far as to be told of a response without an
/// error number ends well, with all that came: many files, one or none.
pub proof fn law_response_and_files_are_handed_on<F>(
    size: usize,
    files: Vec<F>,
    response: MainResponse,
    step: Step<MainResponse, F>,
)
    requires
        call_ensures(
            Stage::<F>::advance::<MainResponse>,
            (Stage::Parse { size, files }, Event::Parsed(Ok(response))),
            step,
        ),
    ensures
        response.errno == 0 ==> (step matches Step::End(Ok((m, f))) && m == response && f == files),
        response.errno != 0 ==> (step matches Step::End(Err(e)) && e == response.errno),
{
}

/// The same holds of a transaction over the connection of a VCPU.
pub proof fn law_vcpu_response_and_files_are_handed_on<F>(
    size: usize,
    files: Vec<F>,
    response: VcpuResponse,
    step: Step<VcpuResponse, F>,
)
    requires
        call_ensures(
            Stage::<F>::advance::<VcpuResponse>,
            (Stage::Parse { size, files }, Event::Parsed(Ok(response))),
            step,
        ),
    ensures
        response.errno == 0 ==> (step matches Step::End(Ok((m, f))) && m == response && f == files),
        response.errno != 0 ==> (step matches Step::End(Err(e)) && e == response.errno),
{
}

/// What is parsed is the front of the response buffer, as long as what was received.
pub proof fn law_received_bytes_are_the_front(buffer: &[u8], size: usize, r: &[u8])
    requires
        size <= buffer@.len(),
        call_ensures(received_bytes, (buffer, size), r),
    ensures
        r@.len() == size,
        forall|i: int| 0 <= i < size ==> #[trigger] r@[i] == buffer@[i],
{
}

} // verus!
