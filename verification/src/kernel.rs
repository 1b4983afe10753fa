//! The conversation between a procedure and the kernel.
//!
//! A procedure that needs system calls takes a [`Kernel`]: the answers the kernel has given so
//! far. It runs from its start and asks for one call after another. As long as a call has been
//! answered it goes on with the answer. At the first call without an answer it stops, and that
//! call is the next one to perform. Whoever drives the procedure performs the call, appends the
//! answer and runs the procedure again on the same inputs. A procedure is therefore a function
//! from its inputs and the answers so far to the next call or the result.

use crate::bytes::to_vec;
use vstd::prelude::*;

verus! {

/// What a system call asks for. Byte buffers handed to the kernel stand beside it, see [`Call`].
#[derive(Debug, Clone, Copy, PartialEq, Eq, Structural)]
pub enum Op {
    Duplicate { handle: u64, rights: u64 },
    Replace { handle: u64, rights: u64 },
    GrantChild { process_id: u64, handle: u64, rights: u64, target: u64 },
    Close { handle: u64 },
    Info { handle: u64 },
    SignalState { handle: u64 },
    WaitOne { handle: u64, signals: u64, deadline: u64 },
    EndpointCreate,
    EndpointCreatePair,
    Send { endpoint: u64, handle: u64, rights: u64 },
    SendMove { endpoint: u64, handle: u64, rights: u64 },
    SendMoveMany { endpoint: u64, count: u64 },
    TryReceive { endpoint: u64, capacity: u64 },
    TryReceiveMany { endpoint: u64, capacity: u64, handles: u64 },
    NotificationCreate,
    NotificationSignal { handle: u64, amount: u64 },
    NotificationTryWait { handle: u64 },
    SharedMemoryCreate { length: u64 },
    SharedMemoryRead { handle: u64, offset: u64, capacity: u64 },
    SharedMemoryWrite { handle: u64, offset: u64 },
    JobCreate,
    JobCreateChild { parent: u64 },
    JobSetProcessLimit { job: u64, limit: u64 },
    JobGetProcessLimit { job: u64 },
    JobRetire { job: u64 },
    JobAssign { job: u64, process_id: u64 },
    JobTryWait { job: u64 },
    JobTerminate { job: u64 },
    WaitSetCreate,
    WaitSetAdd { set: u64, handle: u64, signals: u64, key: u64 },
    WaitSetRemove { set: u64, key: u64 },
    WaitSetWait { set: u64, deadline: u64 },
    EventPortCreate,
    EventPortAdd { port: u64, handle: u64, signals: u64, key: u64 },
    EventPortRemove { port: u64, key: u64 },
    EventPortWait { port: u64, deadline: u64 },
    TimerCreate,
    TimerArm { timer: u64, deadline: u64 },
    TimerCancel { timer: u64 },
    EventCreate,
    EventSet { event: u64 },
    EventReset { event: u64 },
    Yield,
    GetProcessId,
    GetParentProcessId,
    MonotonicTime,
    TryWaitChild { process_id: u64 },
    WaitChild { process_id: u64 },
    SignalProcessGroup { group: u64, signal: u64 },
    ForegroundProcessGroup { group: u64 },
    Kill { process_id: u64, signal: u64 },
    BarrierCreate,
    BarrierRelease { barrier: u64 },
    Spawn { foreground: bool, barrier: u64 },
    Write { stream: u64 },
    Open,
    Read { descriptor: u64, capacity: u64 },
    CloseFile { descriptor: u64 },
    FileStatus { descriptor: u64 },
    PathStatus,
    ReadDirectory { start: u64, capacity: u64 },
    ChangeDirectory,
    WorkingDirectory { capacity: u64 },
    DuplicateDescriptor { descriptor: u64 },
    DuplicateDescriptorTo { descriptor: u64, target: u64 },
    SystemInfo,
    OpenEarlyLogReader,
    OpenBlockDevice { device: u64 },
    OpenWritableBlockDevice,
    OfflineWritableBlockDevice { generation: u64 },
    RegisterFilesystem { provider: u64, endpoint: u64, generation: u64 },
    OfflineFilesystem { provider: u64, generation: u64 },
    ConnectMount { endpoint: u64 },
    DisconnectMount { mount: u64 },
}

/// A handle that travels with a message, by its number, and its rights.
pub type Attachment = (u64, u64);

/// One system call: what it asks for, the bytes it hands to the kernel, and the handles it moves.
#[derive(Debug)]
pub struct Call {
    pub op: Op,
    pub bytes: Vec<u8>,
    pub attached: Vec<Attachment>,
}

/// The kernel's answer to one call: the result register, the record it filled in, the bytes it
/// wrote into the caller's buffer, and the handles it installed.
#[derive(Debug)]
pub struct Answer {
    pub result: u64,
    pub words: [u64; 4],
    pub bytes: Vec<u8>,
    pub attached: Vec<Attachment>,
}

/// A call as the contracts see it.
#[verifier::ext_equal]
pub ghost struct Asked {
    pub op: Op,
    pub bytes: Seq<u8>,
    pub attached: Seq<Attachment>,
}

/// An answer as the contracts see it.
#[verifier::ext_equal]
pub ghost struct Reply {
    pub result: u64,
    pub words: Seq<u64>,
    pub bytes: Seq<u8>,
    pub attached: Seq<Attachment>,
}

impl View for Call {
    type V = Asked;

    open spec fn view(&self) -> Asked {
        Asked { op: self.op, bytes: self.bytes@, attached: self.attached@ }
    }
}

impl View for Answer {
    type V = Reply;

    open spec fn view(&self) -> Reply {
        Reply {
            result: self.result,
            words: self.words@,
            bytes: self.bytes@,
            attached: self.attached@,
        }
    }
}

/// The answers that are known, and the calls that have been asked for.
#[verifier::ext_equal]
pub ghost struct Transcript {
    pub replies: Seq<Reply>,
    pub asked: Seq<Asked>,
}

impl Transcript {
    /// The answer to the next call, if it is known.
    pub open spec fn reply(self) -> Option<Reply> {
        if self.asked.len() < self.replies.len() {
            Some(self.replies[self.asked.len() as int])
        } else {
            None
        }
    }

    /// The transcript after one more call that moves handles.
    pub open spec fn ask_with(
        self,
        op: Op,
        bytes: Seq<u8>,
        attached: Seq<Attachment>,
    ) -> Transcript {
        Transcript { asked: self.asked.push(Asked { op, bytes, attached }), ..self }
    }

    /// The transcript after one more call that moves no handle.
    pub open spec fn ask(self, op: Op, bytes: Seq<u8>) -> Transcript {
        self.ask_with(op, bytes, seq![])
    }

    /// The transcript after one more call that hands over no bytes.
    pub open spec fn call(self, op: Op) -> Transcript {
        self.ask(op, seq![])
    }

    /// Whether this conversation goes on from an earlier point of it.
    pub open spec fn follows(self, before: Transcript) -> bool {
        &&& self.replies == before.replies
        &&& before.asked.len() <= self.asked.len()
        &&& forall|i: int|
            0 <= i < before.asked.len() ==> self.asked[i] == #[trigger] before.asked[i]
    }

    /// Whether this was asked for after an earlier point.
    pub open spec fn asked_since(self, before: Transcript, op: Op) -> bool {
        exists|i: int| before.asked.len() <= i < self.asked.len() && (#[trigger] self.asked[i]).op
            == op
    }

    /// Answers that have not been used yet.
    pub open spec fn unread(self) -> int {
        self.replies.len() - self.asked.len()
    }
}

/// The call that closes a handle.
pub open spec fn closing(handle: u64) -> Op {
    Op::Close { handle }
}

fn copy_attachments(attached: &[Attachment]) -> (copy: Vec<Attachment>)
    ensures
        copy@ == attached@,
{
    let mut copy: Vec<Attachment> = Vec::new();
    let mut index: usize = 0;
    while index < attached.len()
        invariant
            index <= attached@.len(),
            copy@ =~= attached@.take(index as int),
        decreases attached@.len() - index,
    {
        copy.push(attached[index]);
        index += 1;
    }
    assert(copy@ =~= attached@);
    copy
}

/// A conversation with the kernel, see the module documentation.
#[derive(Debug)]
pub struct Kernel {
    answers: Vec<Answer>,
    asked: Vec<Call>,
}

impl View for Kernel {
    type V = Transcript;

    closed spec fn view(&self) -> Transcript {
        Transcript {
            replies: Seq::new(self.answers@.len(), |i: int| self.answers@[i]@),
            asked: Seq::new(self.asked@.len(), |i: int| self.asked@[i]@),
        }
    }
}

impl Kernel {
    /// A conversation that starts with the answers known so far.
    pub fn new(answers: Vec<Answer>) -> (kernel: Self)
        ensures
            kernel@.replies == Seq::new(answers@.len(), |i: int| answers@[i]@),
            kernel@.asked == Seq::<Asked>::empty(),
    {
        let kernel = Kernel { answers, asked: Vec::new() };
        assert(kernel@.asked =~= Seq::<Asked>::empty());
        kernel
    }

    /// Asks for a call and gives its answer, if it is known.
    pub fn ask_with(&mut self, op: Op, bytes: Vec<u8>, attached: Vec<Attachment>) -> (answer:
        Option<Answer>)
        ensures
            final(self)@ == old(self)@.ask_with(op, bytes@, attached@),
            match answer {
                Some(answer) => old(self)@.reply() == Some(answer@),
                None => old(self)@.reply() is None,
            },
    {
        let index: usize = self.asked.len();
        self.asked.push(Call { op, bytes, attached });
        assert(self@.asked =~= old(self)@.ask_with(op, bytes@, attached@).asked);
        if index < self.answers.len() {
            let known = &self.answers[index];
            Some(
                Answer {
                    result: known.result,
                    words: known.words,
                    bytes: to_vec(known.bytes.as_slice()),
                    attached: copy_attachments(known.attached.as_slice()),
                },
            )
        } else {
            None
        }
    }

    /// Asks for a call that moves no handle.
    pub fn ask(&mut self, op: Op, bytes: Vec<u8>) -> (answer: Option<Answer>)
        ensures
            final(self)@ == old(self)@.ask(op, bytes@),
            match answer {
                Some(answer) => old(self)@.reply() == Some(answer@),
                None => old(self)@.reply() is None,
            },
    {
        self.ask_with(op, bytes, Vec::new())
    }

    /// Asks for a call that hands over no bytes.
    pub fn call(&mut self, op: Op) -> (answer: Option<Answer>)
        ensures
            final(self)@ == old(self)@.call(op),
            match answer {
                Some(answer) => old(self)@.reply() == Some(answer@),
                None => old(self)@.reply() is None,
            },
    {
        self.ask(op, Vec::new())
    }

    /// The call that a driver performs next: the last one, if it has no answer yet.
    pub fn pending(&self) -> (call: Option<&Call>)
        ensures
            match call {
                Some(call) => {
                    &&& self@.asked.len() > self@.replies.len()
                    &&& call@ == self@.asked.last()
                },
                None => self@.asked.len() <= self@.replies.len(),
            },
    {
        if self.asked.len() > self.answers.len() {
            Some(&self.asked[self.asked.len() - 1])
        } else {
            None
        }
    }

    /// The calls asked for so far.
    pub fn calls(&self) -> (calls: &Vec<Call>)
        ensures
            Seq::new(calls@.len(), |i: int| calls@[i]@) == self@.asked,
    {
        &self.asked
    }

    /// The answers, so that a driver can append one and run the procedure again.
    pub fn into_answers(self) -> (answers: Vec<Answer>)
        ensures
            Seq::new(answers@.len(), |i: int| answers@[i]@) == self@.replies,
    {
        self.answers
    }
}

} // verus!
