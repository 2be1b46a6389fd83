use vstd::prelude::*;
use vstd::slice::slice_subrange;

use crate::config::Config;
use crate::frame::{encode_request, Frame, FrameParseError};
use crate::structs::request::{ReadRegisters, WriteRegister};
use crate::structs::{
    be_u16, exception_code_of, function_code_of, ExceptionRequestResult, ReadRequestResult,
    RequestPayload, RequestResult, RequestResultData, WriteRequestResult,
};

verus! {

/// Declares `std::io::Error` so that transport errors can be carried through
/// unchanged; nothing is read from inside one.
#[verifier::external_type_specification]
#[verifier::external_body]
pub struct ExIoError(std::io::Error);

/// Static description of one request slot: its priority (higher is more
/// urgent) and the extra delay its requests need.
#[derive(Debug, Clone, Copy, Default, PartialEq, Eq, Structural)]
pub struct RequestRegistryEntry {
    pub priority: u32,
    pub extra_delay: u32,
}

/// A payload to queue on a slot.
#[derive(Debug, Clone, Copy, PartialEq, Eq, Structural)]
pub struct Request {
    pub type_id: usize,
    pub payload: RequestPayload,
}

/// Scheduling state of one slot: whether it waits to be sent, and how many
/// other requests were sent while it waited.
#[derive(Debug, Clone, Copy, PartialEq, Eq, Structural)]
pub struct Metadata {
    pub enabled: bool,
    pub ignored_times: u32,
}

/// Outcome of a transaction that did not produce a frame.
#[derive(Debug)]
pub enum InterfaceIOError {
    ChannelClosed,
    Parse(FrameParseError),
    Write(std::io::Error),
    Read(std::io::Error),
}

/// Why no request was handed out for sending.
#[derive(Debug, Clone, Copy, PartialEq, Eq, Structural)]
pub enum SendError {
    /// A request is still awaiting its response.
    RequestInFlight,
    /// No slot has a pending request.
    NothingQueued,
}

/// Whether a slot with `lhs` priority and waiting count is served before one
/// with `rhs`: larger priority plus waiting count first, then larger priority.
pub open spec fn outranks(
    lhs_priority: u32,
    lhs_ignored_times: u32,
    rhs_priority: u32,
    rhs_ignored_times: u32,
) -> bool {
    let l = lhs_priority as int + lhs_ignored_times as int;
    let r = rhs_priority as int + rhs_ignored_times as int;
    l > r || (l == r && lhs_priority > rhs_priority)
}

/// A waiting count after one more request was sent past it (it stops at the top).
pub open spec fn aged(ignored_times: u32) -> u32 {
    if ignored_times < u32::MAX {
        (ignored_times + 1) as u32
    } else {
        ignored_times
    }
}

/// The abstract state of an interface.
pub struct InterfaceView {
    pub slave_id: u8,
    pub registry: Seq<RequestRegistryEntry>,
    pub payloads: Seq<Option<RequestPayload>>,
    pub metadata: Seq<Metadata>,
    pub queued_id: Option<usize>,
}

impl InterfaceView {
    pub open spec fn slot_count(self) -> int {
        self.registry.len() as int
    }

    pub open spec fn wf(self) -> bool {
        &&& self.payloads.len() == self.registry.len()
        &&& self.metadata.len() == self.registry.len()
        &&& forall|i: int|
            0 <= i < self.slot_count() && #[trigger] self.metadata[i].enabled
                ==> self.payloads[i] is Some
        &&& self.queued_id matches Some(q) ==> q < self.slot_count() && self.payloads[q as int] is Some
    }

    pub open spec fn enabled(self, i: int) -> bool {
        0 <= i < self.slot_count() && self.metadata[i].enabled
    }

    pub open spec fn has_pending(self) -> bool {
        exists|i: int| self.enabled(i)
    }

    /// Slot `i` is served before slot `j`.
    pub open spec fn beats(self, i: int, j: int) -> bool {
        outranks(
            self.registry[i].priority,
            self.metadata[i].ignored_times,
            self.registry[j].priority,
            self.metadata[j].ignored_times,
        )
    }

    /// Slot `w` is the one sent next: it is enabled, no enabled slot beats it,
    /// and it beats every enabled slot of lower index.
    pub open spec fn is_next(self, w: int) -> bool {
        &&& self.enabled(w)
        &&& forall|j: int|
            #![trigger self.enabled(j)]
            self.enabled(j) && j != w ==> (j < w ==> self.beats(w, j)) && (j > w ==> !self.beats(
                j,
                w,
            ))
    }

    /// The state after `payload` was queued on slot `id`.
    pub open spec fn queued(self, id: int, payload: RequestPayload) -> InterfaceView {
        if 0 <= id < self.slot_count() {
            InterfaceView {
                payloads: self.payloads.update(id, Some(payload)),
                metadata: if self.metadata[id].enabled {
                    self.metadata
                } else {
                    self.metadata.update(id, Metadata { enabled: true, ignored_times: 0 })
                },
                ..self
            }
        } else {
            self
        }
    }

    /// The state after slot `w` was sent: it is disabled and in flight, and
    /// every other enabled slot has waited once more.
    pub open spec fn sent(self, w: int) -> InterfaceView {
        InterfaceView {
            metadata: Seq::new(
                self.metadata.len(),
                |j: int|
                    if j == w {
                        Metadata { enabled: false, ignored_times: self.metadata[j].ignored_times }
                    } else if self.metadata[j].enabled {
                        Metadata { enabled: true, ignored_times: aged(self.metadata[j].ignored_times) }
                    } else {
                        self.metadata[j]
                    },
            ),
            queued_id: Some(w as usize),
            ..self
        }
    }

    /// The slot that is sent next, where one is.
    pub open spec fn next_slot(self) -> int {
        choose|w: int| self.is_next(w)
    }

    /// What a send does: fail while a request is in flight or nothing waits,
    /// else serve the next slot.
    pub open spec fn send_outcome(self) -> Result<int, SendError> {
        if self.queued_id is Some {
            Err(SendError::RequestInFlight)
        } else if !self.has_pending() {
            Err(SendError::NothingQueued)
        } else {
            Ok(self.next_slot())
        }
    }

    /// The state after a send.
    pub open spec fn after_send(self) -> InterfaceView {
        match self.send_outcome() {
            Ok(w) => self.sent(w),
            Err(_) => self,
        }
    }

    /// The state after the in-flight request was settled.
    pub open spec fn settled(self) -> InterfaceView {
        InterfaceView { queued_id: None, ..self }
    }

    /// The state after every pending request was dropped.
    pub open spec fn discarded(self) -> InterfaceView {
        InterfaceView {
            metadata: Seq::new(
                self.metadata.len(),
                |j: int| Metadata { enabled: false, ignored_times: self.metadata[j].ignored_times },
            ),
            ..self
        }
    }
}

/// At most one slot is the next one.
pub proof fn lemma_next_unique(v: InterfaceView, w1: int, w2: int)
    requires
        v.is_next(w1),
        v.is_next(w2),
    ensures
        w1 == w2,
{
    if w1 < w2 {
        assert(v.enabled(w1));
    } else if w2 < w1 {
        assert(v.enabled(w2));
    }
}

/// Whenever some slot waits, one of them is the next one.
pub proof fn lemma_next_exists(v: InterfaceView)
    requires
        v.has_pending(),
    ensures
        v.is_next(v.next_slot()),
{
    let w = lemma_best_below(v, v.slot_count());
    assert(v.is_next(w));
}

/// An enabled slot below `n` that beats every enabled slot of lower index and
/// is not beaten by any enabled slot below `n`.
proof fn lemma_best_below(v: InterfaceView, n: int) -> (w: int)
    requires
        exists|i: int| 0 <= i < n && v.enabled(i),
    ensures
        0 <= w < n,
        v.enabled(w),
        forall|j: int|
            #![trigger v.enabled(j)]
            0 <= j < n && v.enabled(j) && j != w ==> (j < w ==> v.beats(w, j)) && (j > w
                ==> !v.beats(j, w)),
    decreases n,
{
    if exists|i: int| 0 <= i < n - 1 && v.enabled(i) {
        let w0 = lemma_best_below(v, n - 1);
        if v.enabled(n - 1) && v.beats(n - 1, w0) {
            n - 1
        } else {
            w0
        }
    } else {
        n - 1
    }
}

/// The register bytes of a read reply: the byte count that opens the data,
/// and that many bytes after it; none where the count does not fit or is odd.
pub open spec fn register_bytes(f: Seq<u8>) -> Option<Seq<u8>> {
    let data = f.subrange(2, f.len() - 2);
    let count = data[0] as int;
    if count < data.len() && count % 2 == 0 {
        Some(data.subrange(1, count + 1))
    } else {
        None
    }
}

/// Big-endian 16-bit words of a byte sequence of even length.
pub open spec fn be_words(s: Seq<u8>) -> Seq<u16> {
    Seq::new((s.len() / 2) as nat, |k: int| be_u16(s[2 * k], s[2 * k + 1]))
}

/// The reply's function code is the request's.
pub open spec fn correlates(f: Seq<u8>, p: RequestPayload) -> bool {
    function_code_of((f[1] % 128) as u8) == Some(p.code())
}

/// What a reply frame `f` to request `p` yields.
pub open spec fn result_matches(r: Option<RequestResult>, f: Seq<u8>, p: RequestPayload) -> bool {
    if !correlates(f, p) {
        r is None
    } else if f[1] >= 128 {
        r == Some(
            RequestResult::Exception(
                RequestResultData { request: p, result: exception_code_of(f[2]) },
            ),
        )
    } else {
        match p {
            RequestPayload::ReadHoldingRegisters(q) => match register_bytes(f) {
                None => r is None,
                Some(b) => match r {
                    Some(RequestResult::ReadHoldingRegisters(d)) => d.request == q && d.result@
                        == be_words(b),
                    _ => false,
                },
            },
            RequestPayload::ReadInputRegisters(q) => match register_bytes(f) {
                None => r is None,
                Some(b) => match r {
                    Some(RequestResult::ReadInputRegisters(d)) => d.request == q && d.result@
                        == be_words(b),
                    _ => false,
                },
            },
            RequestPayload::PresetHoldingRegister(w) => r == Some(
                RequestResult::PresetHoldingRegister(RequestResultData { request: w, result: () }),
            ),
        }
    }
}

pub fn higher_priority_than(
    lhs_priority: u32,
    lhs_ignored_times: u32,
    rhs_priority: u32,
    rhs_ignored_times: u32,
) -> (r: bool)
    ensures
        r == outranks(lhs_priority, lhs_ignored_times, rhs_priority, rhs_ignored_times),
{
    let lhs: u64 = lhs_priority as u64 + lhs_ignored_times as u64;
    let rhs: u64 = rhs_priority as u64 + rhs_ignored_times as u64;
    if lhs == rhs {
        return lhs_priority > rhs_priority;
    }
    lhs > rhs
}

/// Big-endian 16-bit words of `buf`; none if its length is odd.
pub fn bytes_to_u16_vec(buf: &[u8]) -> (r: Option<Vec<u16>>)
    ensures
        r is Some <==> buf@.len() % 2 == 0,
        r matches Some(v) ==> v@ == be_words(buf@),
{
    if buf.len() % 2 != 0 {
        return None;
    }
    let mut result: Vec<u16> = Vec::new();
    let mut k: usize = 0;
    while k < buf.len() / 2
        invariant
            buf@.len() % 2 == 0,
            k <= buf@.len() / 2,
            result@.len() == k,
            forall|m: int| 0 <= m < k ==> result@[m] == be_u16(buf@[2 * m], buf@[2 * m + 1]),
        decreases buf@.len() / 2 - k,
    {
        let word: u16 = buf[2 * k] as u16 * 256 + buf[2 * k + 1] as u16;
        result.push(word);
        k = k + 1;
    }
    assert(result@ =~= be_words(buf@));
    Some(result)
}

fn read_result(frame: &Frame) -> (r: Option<Vec<u16>>)
    ensures
        match register_bytes(frame@) {
            None => r is None,
            Some(b) => r matches Some(v) && v@ == be_words(b),
        },
{
    let data = frame.data();
    let count = data[0] as usize;
    if count >= data.len() {
        return None;
    }
    bytes_to_u16_vec(slice_subrange(data, 1, count + 1))
}

/// Builds the result of request `request_payload` from its reply `frame`.
pub fn create_response(frame: &Frame, request_payload: &RequestPayload) -> (r: Option<RequestResult>)
    ensures
        result_matches(r, frame@, *request_payload),
{
    if frame.function_code() != request_payload.function_code() {
        return None;
    }
    if let Some(exception_code) = frame.exception_code() {
        return Some(
            RequestResult::Exception(
                ExceptionRequestResult { request: *request_payload, result: exception_code },
            ),
        );
    }
    match request_payload {
        RequestPayload::ReadHoldingRegisters(read_registers) => {
            match read_result(frame) {
                Some(result) => Some(
                    RequestResult::ReadHoldingRegisters(
                        ReadRequestResult { request: *read_registers, result },
                    ),
                ),
                None => None,
            }
        },
        RequestPayload::ReadInputRegisters(read_registers) => {
            match read_result(frame) {
                Some(result) => Some(
                    RequestResult::ReadInputRegisters(
                        ReadRequestResult { request: *read_registers, result },
                    ),
                ),
                None => None,
            }
        },
        RequestPayload::PresetHoldingRegister(write_register) => {
            Some(
                RequestResult::PresetHoldingRegister(
                    WriteRequestResult { request: *write_register, result: () },
                ),
            )
        },
    }
}

/// The request scheduler of one serial line: a fixed set of slots, each with
/// a static priority, of which at most one request is in flight at a time.
#[derive(Debug)]
pub struct Interface {
    config: Config,
    request_registry: Vec<RequestRegistryEntry>,
    payloads_buf: Vec<Option<RequestPayload>>,
    metadata_buf: Vec<Metadata>,
    queued_id: Option<usize>,
}

impl View for Interface {
    type V = InterfaceView;

    closed spec fn view(&self) -> InterfaceView {
        InterfaceView {
            slave_id: self.config.slave_id,
            registry: self.request_registry@,
            payloads: self.payloads_buf@,
            metadata: self.metadata_buf@,
            queued_id: self.queued_id,
        }
    }
}

impl Metadata {
    /// The state of a slot that was just queued.
    pub fn new() -> (r: Metadata)
        ensures
            r == (Metadata { enabled: true, ignored_times: 0 }),
    {
        Metadata { enabled: true, ignored_times: 0 }
    }
}

impl Interface {
    /// A scheduler with one slot per registry entry, nothing queued and nothing in flight.
    pub fn new(config: Config, request_registry: &[RequestRegistryEntry]) -> (r: Interface)
        ensures
            r@.wf(),
            r@.slave_id == config.slave_id,
            r@.registry == request_registry@,
            r@.queued_id is None,
            forall|i: int|
                0 <= i < request_registry@.len() ==> #[trigger] r@.payloads[i] is None
                    && r@.metadata[i] == (Metadata { enabled: false, ignored_times: 0 }),
    {
        let mut registry: Vec<RequestRegistryEntry> = Vec::new();
        let mut payloads_buf: Vec<Option<RequestPayload>> = Vec::new();
        let mut metadata_buf: Vec<Metadata> = Vec::new();
        let mut i: usize = 0;
        while i < request_registry.len()
            invariant
                i <= request_registry@.len(),
                registry@ == request_registry@.subrange(0, i as int),
                payloads_buf@.len() == i,
                metadata_buf@.len() == i,
                forall|k: int|
                    0 <= k < i ==> #[trigger] payloads_buf@[k] is None && metadata_buf@[k] == (
                    Metadata { enabled: false, ignored_times: 0 }),
            decreases request_registry@.len() - i,
        {
            registry.push(request_registry[i]);
            payloads_buf.push(None);
            metadata_buf.push(Metadata { enabled: false, ignored_times: 0 });
            i = i + 1;
            assert(registry@ =~= request_registry@.subrange(0, i as int));
        }
        assert(registry@ =~= request_registry@);
        Interface { config, request_registry: registry, payloads_buf, metadata_buf, queued_id: None }
    }

    pub fn config(&self) -> (r: &Config)
        ensures
            r.slave_id == self@.slave_id,
    {
        &self.config
    }

    /// Number of request slots.
    pub fn slot_count(&self) -> (r: usize)
        requires
            self@.wf(),
        ensures
            r == self@.slot_count(),
    {
        self.request_registry.len()
    }

    /// Puts a payload on its slot. A slot that already waits keeps its place
    /// and takes the new payload; a slot id out of range is ignored.
    pub fn queue_request(&mut self, request: Request)
        requires
            old(self)@.wf(),
        ensures
            final(self)@ == old(self)@.queued(request.type_id as int, request.payload),
            final(self)@.wf(),
    {
        let id = request.type_id;
        if id >= self.payloads_buf.len() {
            return;
        }
        self.payloads_buf.set(id, Some(request.payload));
        if !self.metadata_buf[id].enabled {
            self.metadata_buf.set(id, Metadata::new());
        }
    }

    /// The slot that is to be sent next, if any slot waits.
    fn find_next_request_id(&self) -> (r: Option<usize>)
        requires
            self@.wf(),
        ensures
            r is None <==> !self@.has_pending(),
            r matches Some(w) ==> self@.is_next(w as int),
    {
        let n = self.metadata_buf.len();
        let ghost v = self@;
        let mut result: Option<usize> = None;
        let mut i: usize = 0;
        while i < n
            invariant
                v == self@,
                v.wf(),
                n == v.slot_count(),
                i <= n,
                result is None ==> forall|j: int| 0 <= j < i ==> !v.enabled(j),
                result matches Some(w) ==> {
                    &&& w < i
                    &&& v.enabled(w as int)
                    &&& forall|j: int|
                        #![trigger v.enabled(j)]
                        0 <= j < i && v.enabled(j) && j != w ==> (j < w ==> v.beats(w as int, j))
                            && (j > w ==> !v.beats(j, w as int))
                },
            decreases n - i,
        {
            if self.metadata_buf[i].enabled {
                match result {
                    Some(idx) => {
                        if higher_priority_than(
                            self.request_registry[i].priority,
                            self.metadata_buf[i].ignored_times,
                            self.request_registry[idx].priority,
                            self.metadata_buf[idx].ignored_times,
                        ) {
                            result = Some(i);
                        }
                    },
                    None => {
                        result = Some(i);
                    },
                }
            }
            i = i + 1;
        }
        result
    }

    /// Picks the waiting slot to serve and hands out its frame; the slot stops
    /// waiting, every other waiting slot ages by one, and the slot is in flight.
    pub fn send_next_request(&mut self) -> (r: Result<Frame, SendError>)
        requires
            old(self)@.wf(),
        ensures
            final(self)@.wf(),
            final(self)@ == old(self)@.after_send(),
            match old(self)@.send_outcome() {
                Ok(w) => r matches Ok(f) && f@ == encode_request(
                    old(self)@.slave_id,
                    old(self)@.payloads[w]->Some_0,
                ),
                Err(e) => r == Err::<Frame, SendError>(e),
            },
    {
        if self.queued_id.is_some() {
            return Err(SendError::RequestInFlight);
        }
        let request_index = match self.find_next_request_id() {
            Some(idx) => idx,
            None => {
                return Err(SendError::NothingQueued);
            },
        };
        let ghost pre = self@;
        proof {
            lemma_next_unique(pre, request_index as int, pre.next_slot());
        }
        let payload = self.payloads_buf[request_index].unwrap();
        let frame = Frame::from_request(self.config.slave_id, &payload);
        let n = self.metadata_buf.len();
        let mut j: usize = 0;
        while j < n
            invariant
                pre.wf(),
                pre.is_next(request_index as int),
                self.queued_id is None,
                n == pre.slot_count(),
                j <= n,
                self@.slave_id == pre.slave_id,
                self@.registry == pre.registry,
                self@.payloads == pre.payloads,
                self@.metadata.len() == n,
                forall|k: int| 0 <= k < j ==> self@.metadata[k] == pre.sent(request_index as int).metadata[k],
                forall|k: int| j <= k < n ==> self@.metadata[k] == pre.metadata[k],
            decreases n - j,
        {
            let m = self.metadata_buf[j];
            if j == request_index {
                self.metadata_buf.set(j, Metadata { enabled: false, ignored_times: m.ignored_times });
            } else if m.enabled {
                let t = if m.ignored_times < u32::MAX {
                    m.ignored_times + 1
                } else {
                    m.ignored_times
                };
                self.metadata_buf.set(j, Metadata { enabled: true, ignored_times: t });
            }
            j = j + 1;
        }
        self.queued_id = Some(request_index);
        assert(self@.metadata =~= pre.sent(request_index as int).metadata);
        assert(self@ == pre.sent(request_index as int));
        Ok(frame)
    }

    /// Drops every pending request; a request in flight is not affected.
    pub fn discard_all_requests(&mut self)
        requires
            old(self)@.wf(),
        ensures
            final(self)@ == old(self)@.discarded(),
            final(self)@.wf(),
    {
        let ghost pre = self@;
        let n = self.metadata_buf.len();
        let mut j: usize = 0;
        while j < n
            invariant
                pre.wf(),
                n == pre.slot_count(),
                j <= n,
                self@.slave_id == pre.slave_id,
                self@.registry == pre.registry,
                self@.payloads == pre.payloads,
                self@.queued_id == pre.queued_id,
                self@.metadata.len() == n,
                forall|k: int| 0 <= k < j ==> self@.metadata[k] == pre.discarded().metadata[k],
                forall|k: int| j <= k < n ==> self@.metadata[k] == pre.metadata[k],
            decreases n - j,
        {
            let m = self.metadata_buf[j];
            self.metadata_buf.set(j, Metadata { enabled: false, ignored_times: m.ignored_times });
            j = j + 1;
        }
        assert(self@.metadata =~= pre.discarded().metadata);
        assert(self@ == pre.discarded());
    }

    /// Whether no request is in flight.
    pub fn is_ready_to_send(&self) -> (r: bool)
        ensures
            r == (self@.queued_id is None),
    {
        self.queued_id.is_none()
    }

    /// Settles the request in flight with what the line reported, if anything.
    /// `reply` is `None` while no outcome has arrived. Once one has, nothing is in
    /// flight any more: an error is passed on, a missing reply yields nothing,
    /// and a reply frame yields the result it carries for the request sent.
    pub fn check_result(
        &mut self,
        reply: Option<Result<Option<Frame>, InterfaceIOError>>,
    ) -> (r: Result<Option<RequestResult>, InterfaceIOError>)
        requires
            old(self)@.wf(),
        ensures
            final(self)@.wf(),
            old(self)@.queued_id is None || reply is None ==> (r matches Ok(None)) && final(self)@
                == old(self)@,
            old(self)@.queued_id is Some && reply is Some ==> {
                let q = old(self)@.queued_id->Some_0;
                &&& final(self)@ == old(self)@.settled()
                &&& match reply->Some_0 {
                    Err(e) => r matches Err(e2) && e2 == e,
                    Ok(None) => r matches Ok(None),
                    Ok(Some(f)) => r matches Ok(res) && result_matches(
                        res,
                        f@,
                        old(self)@.payloads[q as int]->Some_0,
                    ),
                }
            },
    {
        match self.queued_id {
            None => Ok(None),
            Some(index) => {
                match reply {
                    None => Ok(None),
                    Some(outcome) => {
                        self.queued_id = None;
                        match outcome {
                            Err(e) => Err(e),
                            Ok(None) => Ok(None),
                            Ok(Some(frame)) => {
                                let payload = self.payloads_buf[index].unwrap();
                                Ok(create_response(&frame, &payload))
                            },
                        }
                    },
                }
            },
        }
    }
}

} // verus!
