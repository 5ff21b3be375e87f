//! The session with one DAC: a batch of commands is queued, then submitted as a unit.
use vstd::prelude::*;

use crate::device::{expected_status, next_status, Addressed, Dac, DeviceStatus, Point};
use crate::protocol;
use crate::protocol::{
    decode_response, le16, le32, parse_response, points_bytes, push_le16, push_le32, push_point,
    BEGIN, CLEAR_EMERGENCY_STOP, DATA, EMERGENCY_STOP, PING, POINT_RATE, PREPARE_STREAM, STOP,
};

verus! {

/// Relies on `Clone` for `std::ops::Range`, which the derived `Clone` of `QueuedCommand`
/// calls; nothing is claimed of the copy.
pub assume_specification<Idx: std::clone::Clone>[ <std::ops::Range<Idx> as std::clone::Clone>::clone ](
    r: &std::ops::Range<Idx>,
) -> std::ops::Range<Idx>;

/// A runtime representation of any of the possible commands.
#[derive(Clone, Debug, PartialEq, Eq, Hash)]
pub enum QueuedCommand {
    PrepareStream,
    Begin(protocol::Begin),
    PointRate(protocol::PointRate),
    /// The points of the batch's point buffer that this command sends.
    Data(std::ops::Range<usize>),
    Stop,
    EmergencyStop,
    ClearEmergencyStop,
    Ping,
}

impl QueuedCommand {
    /// The code that the command is sent with and that its response carries.
    pub open spec fn spec_code(&self) -> u8 {
        match self {
            QueuedCommand::PrepareStream => PREPARE_STREAM,
            QueuedCommand::Begin(_) => BEGIN,
            QueuedCommand::PointRate(_) => POINT_RATE,
            QueuedCommand::Data(_) => DATA,
            QueuedCommand::Stop => STOP,
            QueuedCommand::EmergencyStop => EMERGENCY_STOP,
            QueuedCommand::ClearEmergencyStop => CLEAR_EMERGENCY_STOP,
            QueuedCommand::Ping => PING,
        }
    }

    pub fn code(&self) -> (r: u8)
        ensures
            r == self.spec_code(),
    {
        match self {
            QueuedCommand::PrepareStream => PREPARE_STREAM,
            QueuedCommand::Begin(_) => BEGIN,
            QueuedCommand::PointRate(_) => POINT_RATE,
            QueuedCommand::Data(_) => DATA,
            QueuedCommand::Stop => STOP,
            QueuedCommand::EmergencyStop => EMERGENCY_STOP,
            QueuedCommand::ClearEmergencyStop => CLEAR_EMERGENCY_STOP,
            QueuedCommand::Ping => PING,
        }
    }
}

/// A `Data` command refers only to points that are in a buffer of `n` points.
pub open spec fn refers_within(c: QueuedCommand, n: nat) -> bool {
    match c {
        QueuedCommand::Data(r) => r.start <= r.end && r.end <= n,
        _ => true,
    }
}

/// Every command refers to points in `points`, whose count fits the wire's count field.
pub open spec fn buffers_wf(commands: Seq<QueuedCommand>, points: Seq<Point>) -> bool {
    &&& points.len() <= u32::MAX
    &&& forall|i: int| 0 <= i < commands.len() ==> #[trigger] refers_within(commands[i], points.len())
}

/// The bytes that send command `c`, whose points (for `Data`) are taken from `points`.
pub open spec fn command_bytes(c: QueuedCommand, points: Seq<Point>) -> Seq<u8> {
    match c {
        QueuedCommand::Begin(b) => seq![BEGIN] + le16(b.low_water_mark) + le32(b.point_rate),
        QueuedCommand::PointRate(p) => seq![POINT_RATE] + le32(p.0),
        QueuedCommand::Data(r) => seq![DATA] + le32((r.end - r.start) as u32) + points_bytes(
            points.subrange(r.start as int, r.end as int),
        ),
        _ => seq![c.spec_code()],
    }
}

/// Why a response was not accepted as the answer to the command sent.
#[derive(Clone, Copy, Debug, PartialEq, Eq, Structural)]
pub enum CommunicationError {
    /// The response's length or status code is wrong.
    Malformed,
    /// The response answers another command: the session is out of step.
    UnexpectedCommand { expected: u8, found: u8 },
    /// The device refused the command.
    Rejected { command: u8 },
    /// The device accepted the command but reports a status that the command cannot lead to.
    UnexpectedStatus { command: u8, status: DeviceStatus },
}

/// The snapshot that response `b` to the command with code `expected` brings,
/// where the device was last in status `prior`, or why it is not accepted.
pub open spec fn check_response(b: Seq<u8>, expected: u8, prior: DeviceStatus) -> Result<
    Dac,
    CommunicationError,
> {
    match parse_response(b) {
        None => Err(CommunicationError::Malformed),
        Some(resp) => if resp.command != expected {
            Err(CommunicationError::UnexpectedCommand { expected, found: resp.command })
        } else if !resp.accepted {
            Err(CommunicationError::Rejected { command: expected })
        } else if next_status(expected, prior) != Some(resp.dac.status) {
            Err(CommunicationError::UnexpectedStatus { command: expected, status: resp.dac.status })
        } else {
            Ok(resp.dac)
        },
    }
}

/// A `Data` push that would hold more points than the device can buffer.
#[derive(Clone, Copy, Debug, PartialEq, Eq, Structural)]
pub struct CapacityError {
    /// Points in the refused push.
    pub requested: usize,
    /// Points that the batch could still take.
    pub available: usize,
}

/// A bi-directional communication stream between the user and a `Dac`.
pub struct Stream {
    /// An up-to-date representation of the `DAC` with which the stream is connected.
    dac: Addressed,
    /// A buffer to re-use for queueing commands via the `queue_commands` method.
    command_buffer: Vec<QueuedCommand>,
    /// A buffer to re-use for queueing points for `Data` commands.
    point_buffer: Vec<Point>,
    /// A buffer that holds the bytes of the command to be written.
    bytes: Vec<u8>,
}

impl Stream {
    pub closed spec fn device(&self) -> Addressed {
        self.dac
    }

    pub closed spec fn commands(&self) -> Seq<QueuedCommand> {
        self.command_buffer@
    }

    pub closed spec fn points(&self) -> Seq<Point> {
        self.point_buffer@
    }

    pub closed spec fn outgoing(&self) -> Seq<u8> {
        self.bytes@
    }

    pub open spec fn wf(&self) -> bool {
        buffers_wf(self.commands(), self.points())
    }

    /// A session with the device `dac` and empty buffers.
    pub fn new(dac: Addressed) -> (s: Stream)
        ensures
            s.device() == dac,
            s.commands().len() == 0,
            s.points().len() == 0,
            s.outgoing().len() == 0,
            s.wf(),
    {
        Stream { dac, command_buffer: Vec::new(), point_buffer: Vec::new(), bytes: Vec::new() }
    }

    /// Borrow the inner DAC to examine its state.
    pub fn dac(&self) -> (r: &Addressed)
        ensures
            *r == self.device(),
    {
        &self.dac
    }

    /// Queue one or more commands to be submitted to the DAC at once.
    ///
    /// The batch starts with empty command and point buffers whatever an earlier batch left.
    pub fn queue_commands(self) -> (q: CommandQueue)
        ensures
            q.device() == self.device(),
            q.commands() == Seq::<QueuedCommand>::empty(),
            q.points() == Seq::<Point>::empty(),
            q.wf(),
    {
        let mut stream = self;
        stream.command_buffer.clear();
        stream.point_buffer.clear();
        CommandQueue { stream }
    }

    /// Puts the bytes of command `i` in the outgoing buffer.
    fn send_command(&mut self, i: usize)
        requires
            old(self).wf(),
            i < old(self).commands().len(),
        ensures
            final(self).outgoing() == command_bytes(old(self).commands()[i as int], old(self).points()),
            final(self).device() == old(self).device(),
            final(self).commands() == old(self).commands(),
            final(self).points() == old(self).points(),
    {
        self.bytes.clear();
        let code = self.command_buffer[i].code();
        self.bytes.push(code);
        assert(refers_within(self.commands()[i as int], self.points().len()));
        match &self.command_buffer[i] {
            QueuedCommand::Begin(b) => {
                push_le16(&mut self.bytes, b.low_water_mark);
                push_le32(&mut self.bytes, b.point_rate);
            },
            QueuedCommand::PointRate(p) => {
                push_le32(&mut self.bytes, p.0);
            },
            QueuedCommand::Data(r) => {
                let start = r.start;
                let end = r.end;
                push_le32(&mut self.bytes, (end - start) as u32);
                let ghost head = self.bytes@;
                let mut j: usize = start;
                while j < end
                    invariant
                        start <= j <= end,
                        end <= self.point_buffer@.len(),
                        self.point_buffer@ == old(self).points(),
                        self.command_buffer@ == old(self).commands(),
                        self.dac == old(self).device(),
                        self.bytes@ == head + points_bytes(
                            self.point_buffer@.subrange(start as int, j as int),
                        ),
                    decreases end - j,
                {
                    push_point(&mut self.bytes, &self.point_buffer[j]);
                    assert(self.point_buffer@.subrange(start as int, j + 1).drop_last()
                        =~= self.point_buffer@.subrange(start as int, j as int));
                    assert(self.bytes@ =~= head + points_bytes(
                        self.point_buffer@.subrange(start as int, j + 1),
                    ));
                    j = j + 1;
                }
            },
            _ => {},
        }
        assert(self.bytes@ =~= command_bytes(old(self).commands()[i as int], old(self).points()));
    }

    /// Checks `response` as the answer to the command with code `expected`; where it is
    /// accepted, the device's snapshot becomes the one that it brings.
    fn recv_response(&mut self, response: &[u8], expected: u8) -> (r: Result<(), CommunicationError>)
        ensures
            final(self).commands() == old(self).commands(),
            final(self).points() == old(self).points(),
            final(self).outgoing() == old(self).outgoing(),
            match check_response(response@, expected, old(self).device().dac.status) {
                Ok(d) => r is Ok && final(self).device() == (Addressed {
                    id: old(self).device().id,
                    dac: d,
                }),
                Err(e) => r == Err::<(), CommunicationError>(e) && final(self).device() == old(
                    self,
                ).device(),
            },
    {
        match decode_response(response) {
            None => Err(CommunicationError::Malformed),
            Some(resp) => {
                if resp.command != expected {
                    Err(CommunicationError::UnexpectedCommand { expected, found: resp.command })
                } else if !resp.accepted {
                    Err(CommunicationError::Rejected { command: expected })
                } else {
                    let follows = match expected_status(expected, self.dac.dac.status) {
                        Some(status) => status == resp.dac.status,
                        None => false,
                    };
                    if follows {
                        self.dac.dac = resp.dac;
                        Ok(())
                    } else {
                        Err(
                            CommunicationError::UnexpectedStatus {
                                command: expected,
                                status: resp.dac.status,
                            },
                        )
                    }
                }
            },
        }
    }
}

/// A queue of commands that are to be submitted at once before listening for their responses.
///
/// It holds the session for as long as the batch is open, so a session has at most one batch.
pub struct CommandQueue {
    stream: Stream,
}

impl CommandQueue {
    pub closed spec fn device(&self) -> Addressed {
        self.stream.dac
    }

    pub closed spec fn commands(&self) -> Seq<QueuedCommand> {
        self.stream.command_buffer@
    }

    pub closed spec fn points(&self) -> Seq<Point> {
        self.stream.point_buffer@
    }

    /// The queued points fit the device's buffer, and every command refers to queued points.
    pub open spec fn wf(&self) -> bool {
        &&& buffers_wf(self.commands(), self.points())
        &&& self.points().len() <= self.device().dac.buffer_capacity
    }

    /// `self` is `before` with `c` queued after its commands.
    pub open spec fn queued(&self, before: &CommandQueue, c: QueuedCommand) -> bool {
        &&& self.commands() == before.commands().push(c)
        &&& self.points() == before.points()
        &&& self.device() == before.device()
        &&& self.wf()
    }

    fn push(&mut self, c: QueuedCommand)
        requires
            old(self).wf(),
            refers_within(c, old(self).points().len()),
        ensures
            final(self).queued(old(self), c),
    {
        self.stream.command_buffer.push(c);
        assert forall|i: int| 0 <= i < self.commands().len() implies #[trigger] refers_within(
            self.commands()[i],
            self.points().len(),
        ) by {
            if i < old(self).commands().len() {
                assert(refers_within(old(self).commands()[i], old(self).points().len()));
            }
        }
    }

    pub fn prepare_stream(&mut self)
        requires
            old(self).wf(),
        ensures
            final(self).queued(old(self), QueuedCommand::PrepareStream),
    {
        self.push(QueuedCommand::PrepareStream);
    }

    pub fn begin(&mut self, params: protocol::Begin)
        requires
            old(self).wf(),
        ensures
            final(self).queued(old(self), QueuedCommand::Begin(params)),
    {
        self.push(QueuedCommand::Begin(params));
    }

    pub fn point_rate(&mut self, params: protocol::PointRate)
        requires
            old(self).wf(),
        ensures
            final(self).queued(old(self), QueuedCommand::PointRate(params)),
    {
        self.push(QueuedCommand::PointRate(params));
    }

    pub fn stop(&mut self)
        requires
            old(self).wf(),
        ensures
            final(self).queued(old(self), QueuedCommand::Stop),
    {
        self.push(QueuedCommand::Stop);
    }

    pub fn emergency_stop(&mut self)
        requires
            old(self).wf(),
        ensures
            final(self).queued(old(self), QueuedCommand::EmergencyStop),
    {
        self.push(QueuedCommand::EmergencyStop);
    }

    pub fn clear_emergency_stop(&mut self)
        requires
            old(self).wf(),
        ensures
            final(self).queued(old(self), QueuedCommand::ClearEmergencyStop),
    {
        self.push(QueuedCommand::ClearEmergencyStop);
    }

    pub fn ping(&mut self)
        requires
            old(self).wf(),
        ensures
            final(self).queued(old(self), QueuedCommand::Ping),
    {
        self.push(QueuedCommand::Ping);
    }

    /// Queues a `Data` command that sends `points`, which are appended to the point buffer.
    ///
    /// Fails, changing nothing, where the batch would then hold more points than the
    /// device can buffer.
    pub fn data(&mut self, points: &[Point]) -> (r: Result<(), CapacityError>)
        requires
            old(self).wf(),
        ensures
            old(self).points().len() + points@.len() > old(self).device().dac.buffer_capacity
                ==> r == Err::<(), CapacityError>(
                CapacityError {
                    requested: points@.len() as usize,
                    available: (old(self).device().dac.buffer_capacity - old(
                        self,
                    ).points().len()) as usize,
                },
            ) && *final(self) == *old(self),
            old(self).points().len() + points@.len() <= old(self).device().dac.buffer_capacity
                ==> r is Ok && final(self).points() == old(self).points() + points@
                && final(self).commands() == old(self).commands().push(
                QueuedCommand::Data(
                    std::ops::Range {
                        start: old(self).points().len() as usize,
                        end: (old(self).points().len() + points@.len()) as usize,
                    },
                ),
            ) && final(self).device() == old(self).device() && final(self).wf(),
    {
        let queued = self.stream.point_buffer.len();
        let capacity = self.stream.dac.dac.buffer_capacity as usize;
        if points.len() > capacity - queued {
            return Err(CapacityError { requested: points.len(), available: capacity - queued });
        }
        let mut k: usize = 0;
        while k < points.len()
            invariant
                k <= points@.len(),
                queued == old(self).points().len(),
                queued + points@.len() <= capacity,
                capacity == old(self).device().dac.buffer_capacity,
                self.stream.point_buffer@ == old(self).points() + points@.subrange(0, k as int),
                self.stream.command_buffer@ == old(self).commands(),
                self.stream.dac == old(self).device(),
            decreases points@.len() - k,
        {
            self.stream.point_buffer.push(points[k]);
            assert(points@.subrange(0, k + 1) =~= points@.subrange(0, k as int).push(points@[k as int]));
            k = k + 1;
        }
        assert(points@.subrange(0, k as int) =~= points@);
        let end = queued + points.len();
        self.stream.command_buffer.push(QueuedCommand::Data(std::ops::Range { start: queued, end }));
        assert forall|i: int| 0 <= i < self.commands().len() implies #[trigger] refers_within(
            self.commands()[i],
            self.points().len(),
        ) by {
            if i < old(self).commands().len() {
                assert(refers_within(old(self).commands()[i], old(self).points().len()));
            }
        }
        Ok(())
    }
}

impl CommandQueue {
    /// Starts submitting the queued commands: all are written in order, then one
    /// response is read for each, in the same order.
    pub fn submit(self) -> (s: Submission)
        requires
            self.wf(),
        ensures
            s.device() == self.device(),
            s.commands() == self.commands(),
            s.points() == self.points(),
            s.sent() == 0,
            s.received() == 0,
            s.failure() is None,
            s.validated() == Seq::<u8>::empty(),
            s.wf(),
    {
        Submission {
            stream: self.stream,
            sent: 0,
            received: 0,
            failure: None,
            validated: Ghost(Seq::empty()),
        }
    }

    /// Drops the batch unsent and gives the session back.
    pub fn into_stream(self) -> (s: Stream)
        requires
            self.wf(),
        ensures
            s.device() == self.device(),
            s.wf(),
    {
        self.stream
    }
}

/// What failed a batch: the transport, or a response.
#[derive(Clone, Copy, Debug, PartialEq, Eq, Structural)]
pub enum SubmitErrorKind {
    /// A write or a read on the transport did not complete.
    Transport,
    /// A response did not validate.
    Communication(CommunicationError),
}

/// The first failure of a batch, and the position of the command at which it came.
#[derive(Clone, Copy, Debug, PartialEq, Eq, Structural)]
pub struct SubmitError {
    pub index: usize,
    pub kind: SubmitErrorKind,
}

/// What the transport did with the last `Action`.
pub enum Event {
    /// The outgoing bytes were written whole.
    Written,
    /// The write did not complete.
    WriteFailed,
    /// One response was read.
    Response(Vec<u8>),
    /// The transport closed or failed before a whole response came.
    ReadFailed,
}

/// What the transport is to do next.
#[derive(Clone, Copy, Debug, PartialEq, Eq, Structural)]
pub enum Action {
    /// Write the submission's outgoing bytes.
    Write,
    /// Read one response of `RESPONSE_LEN` bytes.
    Read,
    /// Every command was written and every response validated.
    Done,
    /// The batch stopped at its first failure.
    Failed(SubmitError),
}

/// A batch being submitted: it says what to write and read, and takes what came back.
pub struct Submission {
    stream: Stream,
    sent: usize,
    received: usize,
    failure: Option<SubmitError>,
    /// The command codes of the responses validated so far.
    validated: Ghost<Seq<u8>>,
}

impl Submission {
    pub closed spec fn device(&self) -> Addressed {
        self.stream.dac
    }

    pub closed spec fn commands(&self) -> Seq<QueuedCommand> {
        self.stream.command_buffer@
    }

    pub closed spec fn points(&self) -> Seq<Point> {
        self.stream.point_buffer@
    }

    pub closed spec fn outgoing(&self) -> Seq<u8> {
        self.stream.bytes@
    }

    /// Commands written so far.
    pub closed spec fn sent(&self) -> nat {
        self.sent as nat
    }

    /// Responses read and validated so far.
    pub closed spec fn received(&self) -> nat {
        self.received as nat
    }

    pub closed spec fn failure(&self) -> Option<SubmitError> {
        self.failure
    }

    /// The command code that each validated response carried, in the order read.
    pub closed spec fn validated(&self) -> Seq<u8> {
        self.validated@
    }

    /// Writes come before reads, and the responses validated so far answer the first
    /// commands, one each, in order.
    pub open spec fn wf(&self) -> bool {
        &&& buffers_wf(self.commands(), self.points())
        &&& self.received() <= self.sent() <= self.commands().len()
        &&& self.received() > 0 ==> self.sent() == self.commands().len()
        &&& self.validated().len() == self.received()
        &&& forall|i: int|
            0 <= i < self.received() ==> #[trigger] self.validated()[i]
                == self.commands()[i].spec_code()
    }

    pub open spec fn failed(&self) -> bool {
        self.failure() is Some
    }

    pub open spec fn sending(&self) -> bool {
        !self.failed() && self.sent() < self.commands().len()
    }

    pub open spec fn receiving(&self) -> bool {
        !self.failed() && self.sent() == self.commands().len() && self.received()
            < self.commands().len()
    }

    pub open spec fn completed(&self) -> bool {
        !self.failed() && self.sent() == self.commands().len() && self.received()
            == self.commands().len()
    }

    /// The action that a submission in this state asks for.
    pub open spec fn action(&self) -> Action {
        if self.failed() {
            Action::Failed(self.failure().unwrap())
        } else if self.sending() {
            Action::Write
        } else if self.receiving() {
            Action::Read
        } else {
            Action::Done
        }
    }

    /// `self` and `other` are at the same point of the same batch.
    pub open spec fn same_progress(&self, other: &Submission) -> bool {
        &&& self.device() == other.device()
        &&& self.commands() == other.commands()
        &&& self.points() == other.points()
        &&& self.sent() == other.sent()
        &&& self.received() == other.received()
        &&& self.failure() == other.failure()
        &&& self.validated() == other.validated()
    }

    /// `next` is what `self` becomes when the transport reports `event`; an event that
    /// does not fit the current action changes nothing.
    pub open spec fn handled(&self, next: &Submission, event: Event) -> bool {
        &&& next.commands() == self.commands()
        &&& next.points() == self.points()
        &&& next.outgoing() == self.outgoing()
        &&& match event {
            Event::Written => if self.sending() {
                &&& next.sent() == self.sent() + 1
                &&& next.received() == self.received()
                &&& next.failure() == self.failure()
                &&& next.device() == self.device()
                &&& next.validated() == self.validated()
            } else {
                next.same_progress(self)
            },
            Event::WriteFailed => if self.sending() {
                &&& next.failure() == Some(
                    SubmitError { index: self.sent() as usize, kind: SubmitErrorKind::Transport },
                )
                &&& next.sent() == self.sent()
                &&& next.received() == self.received()
                &&& next.device() == self.device()
                &&& next.validated() == self.validated()
            } else {
                next.same_progress(self)
            },
            Event::Response(b) => if self.receiving() {
                let expected = self.commands()[self.received() as int].spec_code();
                &&& next.sent() == self.sent()
                &&& match check_response(b@, expected, self.device().dac.status) {
                    Ok(d) => {
                        &&& next.received() == self.received() + 1
                        &&& next.failure() == self.failure()
                        &&& next.device() == (Addressed { id: self.device().id, dac: d })
                        &&& next.validated() == self.validated().push(expected)
                    },
                    Err(e) => {
                        &&& next.failure() == Some(
                            SubmitError {
                                index: self.received() as usize,
                                kind: SubmitErrorKind::Communication(e),
                            },
                        )
                        &&& next.received() == self.received()
                        &&& next.device() == self.device()
                        &&& next.validated() == self.validated()
                    },
                }
            } else {
                next.same_progress(self)
            },
            Event::ReadFailed => if self.receiving() {
                &&& next.failure() == Some(
                    SubmitError {
                        index: self.received() as usize,
                        kind: SubmitErrorKind::Transport,
                    },
                )
                &&& next.sent() == self.sent()
                &&& next.received() == self.received()
                &&& next.device() == self.device()
                &&& next.validated() == self.validated()
            } else {
                next.same_progress(self)
            },
        }
    }

    /// Says what the transport is to do next; before a write, the outgoing bytes
    /// become those of the next command.
    pub fn next_action(&mut self) -> (a: Action)
        requires
            old(self).wf(),
        ensures
            a == old(self).action(),
            final(self).same_progress(old(self)),
            final(self).wf(),
            old(self).sending() ==> final(self).outgoing() == command_bytes(
                old(self).commands()[old(self).sent() as int],
                old(self).points(),
            ),
            !old(self).sending() ==> final(self).outgoing() == old(self).outgoing(),
    {
        match self.failure {
            Some(e) => Action::Failed(e),
            None => {
                let n = self.stream.command_buffer.len();
                if self.sent < n {
                    self.stream.send_command(self.sent);
                    Action::Write
                } else if self.received < n {
                    Action::Read
                } else {
                    Action::Done
                }
            },
        }
    }

    /// Takes in what the transport did with the last action.
    pub fn handle(&mut self, event: Event)
        requires
            old(self).wf(),
        ensures
            old(self).handled(final(self), event),
            final(self).wf(),
    {
        if self.failure.is_some() {
            return;
        }
        let n = self.stream.command_buffer.len();
        match event {
            Event::Written => {
                if self.sent < n {
                    self.sent = self.sent + 1;
                }
            },
            Event::WriteFailed => {
                if self.sent < n {
                    self.failure = Some(
                        SubmitError { index: self.sent, kind: SubmitErrorKind::Transport },
                    );
                }
            },
            Event::Response(b) => {
                if self.sent == n && self.received < n {
                    let expected = self.stream.command_buffer[self.received].code();
                    match self.stream.recv_response(b.as_slice(), expected) {
                        Ok(()) => {
                            proof {
                                self.validated@ = self.validated@.push(expected);
                            }
                            self.received = self.received + 1;
                        },
                        Err(e) => {
                            self.failure = Some(
                                SubmitError {
                                    index: self.received,
                                    kind: SubmitErrorKind::Communication(e),
                                },
                            );
                        },
                    }
                }
            },
            Event::ReadFailed => {
                if self.sent == n && self.received < n {
                    self.failure = Some(
                        SubmitError { index: self.received, kind: SubmitErrorKind::Transport },
                    );
                }
            },
        }
    }

    /// The bytes to write for the current `Write` action.
    pub fn bytes(&self) -> (r: &[u8])
        ensures
            r@ == self.outgoing(),
    {
        self.stream.bytes.as_slice()
    }

    /// The device as the responses validated so far leave it.
    pub fn dac(&self) -> (r: &Addressed)
        ensures
            *r == self.device(),
    {
        &self.stream.dac
    }

    /// Ends the submission and gives the session back.
    pub fn into_stream(self) -> (s: Stream)
        requires
            self.wf(),
        ensures
            s.device() == self.device(),
            s.wf(),
    {
        self.stream
    }
}

/// A batch that completes has written every command and read exactly one response per
/// command, and the i-th response carried the code of the i-th command.
pub proof fn lemma_completed_batch_answered_in_order(s: Submission)
    requires
        s.wf(),
        s.completed(),
    ensures
        s.sent() == s.commands().len(),
        s.received() == s.commands().len(),
        s.validated().len() == s.commands().len(),
        forall|i: int|
            0 <= i < s.commands().len() ==> #[trigger] s.validated()[i]
                == s.commands()[i].spec_code(),
{
}

/// Once a batch has failed, no event makes it write or read again, nor changes the
/// device it records, and it only reports that failure.
pub proof fn lemma_failed_batch_is_final(s: Submission, t: Submission, e: Event)
    requires
        s.wf(),
        s.failed(),
        s.handled(&t, e),
    ensures
        t.same_progress(&s),
        s.action() == Action::Failed(s.failure().unwrap()),
{
}

/// The event that fails a batch names the command at which it came: the one being
/// written or the one whose response was being read; the counts of commands written
/// and responses read stop there.
pub proof fn lemma_failure_names_its_command(s: Submission, t: Submission, e: Event)
    requires
        s.wf(),
        !s.failed(),
        s.handled(&t, e),
        t.failed(),
    ensures
        s.sending() ==> t.failure().unwrap().index == s.sent(),
        !s.sending() ==> t.failure().unwrap().index == s.received(),
        t.failure().unwrap().index < s.commands().len(),
        t.sent() == s.sent(),
        t.received() == s.received(),
        t.device() == s.device(),
{
}

/// A validated response to `EmergencyStop` records the status `EmergencyStopped`,
/// whatever the status before.
pub proof fn lemma_emergency_stop_recorded(s: Submission, t: Submission, b: Vec<u8>)
    requires
        s.wf(),
        s.receiving(),
        s.commands()[s.received() as int] == QueuedCommand::EmergencyStop,
        s.handled(&t, Event::Response(b)),
        !t.failed(),
    ensures
        t.device().dac.status == DeviceStatus::EmergencyStopped,
{
}

/// A response to `ClearEmergencyStop` validates only where the device was
/// `EmergencyStopped`, and then records `Idle`; from any other status the batch fails
/// and the recorded device stays as it was.
pub proof fn lemma_clear_emergency_stop_recorded(s: Submission, t: Submission, b: Vec<u8>)
    requires
        s.wf(),
        s.receiving(),
        s.commands()[s.received() as int] == QueuedCommand::ClearEmergencyStop,
        s.handled(&t, Event::Response(b)),
    ensures
        !t.failed() ==> s.device().dac.status == DeviceStatus::EmergencyStopped
            && t.device().dac.status == DeviceStatus::Idle,
        s.device().dac.status != DeviceStatus::EmergencyStopped ==> t.failed() && t.device()
            == s.device(),
{
}

} // verus!
