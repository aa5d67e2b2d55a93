//! The stream bridge: the state machine that turns a server-sent-events
//! connection into an ordered sequence of consumer items.
//!
//! The connection, its decoding and the hand-off channel live outside this
//! crate. What stands here is every decision the bridge makes: which frames
//! are swallowed, which decode outcomes surface, when the connection
//! reconnects and after what pause, and when the stream is over. The
//! consumer never sees an item after an error: every delivered error is
//! terminal.
//!
//! `bridge_step` answers for one transport event at a time; `pump` replays a
//! whole transcript of events and decode outcomes and returns exactly the
//! items a consumer would receive, which is what the delivery laws below are
//! stated over.

use vstd::prelude::*;
use vstd::string::*;
use crate::backoff::BackoffConfig;
use crate::classify::spec_parse_u64;
use crate::classify::parse_retry_after;
use crate::errors::AnthropicError;
use crate::errors::StreamError;
use crate::retry::spec_retry_pause;
use crate::backoff::next_delay;

verus! {

/// What the bridge does with a frame of a given name.
#[derive(Clone, Copy, Debug, PartialEq, Eq, Structural)]
pub enum FrameClass {
    /// A keepalive; swallowed, never surfaced.
    Ignored,
    /// The server-declared `error` event.
    ErrorEvent,
    /// A recognized data event: the name stands in the allow list.
    Data,
    /// A name outside both `error` and the allow list.
    UnknownEvent,
}

pub open spec fn spec_allow_views(allow: Seq<String>) -> Seq<Seq<char>> {
    allow.map_values(|s: String| s@)
}

/// How a frame named `name` is classified against an allow list: `ping` is
/// swallowed, `error` is the server's error event, an allow-listed name is
/// data, anything else is unknown.
pub open spec fn spec_classify_frame(name: Seq<char>, allow: Seq<Seq<char>>) -> FrameClass {
    if name == "ping"@ {
        FrameClass::Ignored
    } else if name == "error"@ {
        FrameClass::ErrorEvent
    } else if exists|i: int| 0 <= i < allow.len() && allow[i] == name {
        FrameClass::Data
    } else {
        FrameClass::UnknownEvent
    }
}

/// Classifies one frame name against the caller's allow list.
pub fn classify_frame(name: &String, allow: &Vec<String>) -> (r: FrameClass)
    ensures
        r == spec_classify_frame(name@, spec_allow_views(allow@)),
{
    let ping = String::from_str("ping");
    let error = String::from_str("error");
    if *name == ping {
        FrameClass::Ignored
    } else if *name == error {
        FrameClass::ErrorEvent
    } else {
        let ghost views = spec_allow_views(allow@);
        let mut k: usize = 0;
        while k < allow.len()
            invariant
                k <= allow.len(),
                views == spec_allow_views(allow@),
                views.len() == allow.len(),
                name@ != "ping"@,
                name@ != "error"@,
                forall|j: int| 0 <= j < k ==> views[j] != name@,
            decreases allow.len() - k,
        {
            proof {
                assert(views[k as int] == allow@[k as int]@);
            }
            if *name == allow[k] {
                proof {
                    assert(0 <= k < views.len() && views[k as int] == name@);
                }
                return FrameClass::Data;
            }
            k = k + 1;
        }
        FrameClass::UnknownEvent
    }
}

/// One resolved transport event: what the connection produced, together with
/// the outcome of whatever decoding the frame's name called for. This is the
/// bridge's whole input alphabet.
#[derive(Debug)]
pub enum BridgeStep {
    /// The connection came up. Resets the reconnect counter.
    Opened,
    /// A frame the bridge swallows (the keepalive `ping`).
    FrameIgnored,
    /// An allow-listed data frame; `Ok` means its payload decoded (the typed
    /// value stays with the caller), `Err` carries the decoder's message.
    FrameData(Result<(), String>),
    /// The server's `error` event; `Ok` carries the decoded envelope, `Err`
    /// the decoder's message for a malformed one.
    FrameError(Result<StreamError, String>),
    /// A frame whose name is outside both `error` and the allow list.
    FrameUnknown(String),
    /// The transport closed cleanly with no further data.
    Ended,
    /// A connection attempt was answered with a full HTTP response instead
    /// of an event stream.
    Rejected { status: u16, retry_after_header: Option<Vec<u8>>, body: String },
    /// Any other transport fault, rendered to text.
    Faulted(String),
}

/// One item as the consumer sees it. `Event` stands for a decoded data
/// event (whose typed value travels beside this marker); the three error
/// forms are terminal.
#[derive(Debug, PartialEq)]
pub enum Delivered {
    /// One decoded data event.
    Event,
    /// A classified error, delivered as-is.
    Error(AnthropicError),
    /// The terminal error for a frame with this unrecognized name.
    UnknownEvent(String),
    /// The terminal error for a transport fault with this description.
    TransportFault(String),
}

impl Delivered {
    /// Everything but a data event ends the stream.
    pub open spec fn spec_is_terminal(self) -> bool {
        !(self is Event)
    }
}

/// What the bridge asks of its surroundings after one transport event.
#[derive(Debug)]
pub enum BridgeEffect {
    /// Nothing surfaces; keep pumping.
    Silent,
    /// Hand the decoded event to the consumer; keep pumping.
    DeliverEvent,
    /// Hand this error to the consumer and tear the connection down.
    DeliverErrorAndStop(AnthropicError),
    /// Sleep this long, then let the transport reconnect.
    Reconnect { pause_ms: u64 },
    /// Tear the connection down without surfacing anything.
    Stop,
}

/// The per-connection state: how many reconnects this stream has spent, and
/// whether the stream is over.
pub struct BridgeState {
    pub reconnects: usize,
    pub done: bool,
}

impl BridgeState {
    /// The state of a freshly opened stream.
    pub fn new() -> (r: Self)
        ensures
            r.reconnects == 0,
            !r.done,
    {
        BridgeState { reconnects: 0, done: false }
    }
}

/// The statuses on which a rejected reconnect is retried rather than
/// surfaced: the standard rate limit and the vendor's overload status.
pub open spec fn spec_retryable_status(status: u16) -> bool {
    status == 429 || status == 529
}

/// The parse of the raw `Retry-After` header a rejection carried.
pub open spec fn spec_header_seconds(header: Option<Vec<u8>>) -> Option<u64> {
    match header {
        Some(h) => spec_parse_u64(h@),
        None => None,
    }
}

/// The error delivered for a rejection that is not (or can no longer be)
/// retried. The body is never decoded on a rejected connection, so even a
/// nominally successful status classifies as unknown here.
pub open spec fn spec_rejection_error(
    status: u16,
    retry_after: Option<u64>,
    body: String,
) -> AnthropicError {
    if status == 400 {
        AnthropicError::BadRequest(body)
    } else if status == 401 {
        AnthropicError::Unauthorized
    } else if spec_retryable_status(status) {
        AnthropicError::RateLimit { retry_after }
    } else {
        AnthropicError::Unknown(body)
    }
}

/// The items a consumer receives from the transcript `steps[i..]`, with
/// `rc` reconnects already spent. This is the bridge's reference semantics:
/// `samples[j]` is the jitter sample drawn if step `j` leads to a reconnect.
pub open spec fn spec_pump(
    cfg: BackoffConfig,
    steps: Seq<BridgeStep>,
    samples: Seq<u64>,
    i: nat,
    rc: nat,
) -> Seq<Delivered>
    decreases steps.len() - i,
{
    if i >= steps.len() {
        Seq::empty()
    } else {
        match steps[i as int] {
            BridgeStep::Opened => spec_pump(cfg, steps, samples, i + 1, 0),
            BridgeStep::FrameIgnored => spec_pump(cfg, steps, samples, i + 1, rc),
            BridgeStep::FrameData(res) => match res {
                Ok(()) => seq![Delivered::Event] + spec_pump(cfg, steps, samples, i + 1, rc),
                Err(m) => seq![Delivered::Error(AnthropicError::DeserializationError(m))],
            },
            BridgeStep::FrameError(res) => match res {
                Ok(e) => seq![Delivered::Error(AnthropicError::StreamError(e))],
                Err(m) => seq![Delivered::Error(AnthropicError::DeserializationError(m))],
            },
            BridgeStep::FrameUnknown(name) => seq![Delivered::UnknownEvent(name)],
            BridgeStep::Ended => Seq::empty(),
            BridgeStep::Rejected { status, retry_after_header, body } => {
                if spec_retryable_status(status) && cfg.spec_attempts_remain(rc) {
                    spec_pump(cfg, steps, samples, i + 1, rc + 1)
                } else {
                    seq![
                        Delivered::Error(
                            spec_rejection_error(status, spec_header_seconds(retry_after_header), body),
                        ),
                    ]
                }
            },
            BridgeStep::Faulted(desc) => seq![Delivered::TransportFault(desc)],
        }
    }
}

/// Decides what follows one transport event. The reconnect pause honors a
/// server-supplied `Retry-After` and otherwise follows the backoff policy at
/// the current reconnect index; the reconnect budget is `cfg.max_attempts`,
/// counted per connection and reset by a successful open.
pub fn bridge_step(
    cfg: &BackoffConfig,
    st: &mut BridgeState,
    step: BridgeStep,
    jitter_sample: u64,
) -> (r: BridgeEffect)
    requires
        cfg.wf(),
        !old(st).done,
    ensures
        (match step {
            BridgeStep::Opened => r is Silent && final(st).reconnects == 0 && !final(st).done,
            BridgeStep::FrameIgnored => r is Silent && *final(st) == *old(st),
            BridgeStep::FrameData(res) => match res {
                Ok(()) => r is DeliverEvent && *final(st) == *old(st),
                Err(m) => r == BridgeEffect::DeliverErrorAndStop(
                    AnthropicError::DeserializationError(m),
                ) && final(st).done,
            },
            BridgeStep::FrameError(res) => match res {
                Ok(e) => r == BridgeEffect::DeliverErrorAndStop(AnthropicError::StreamError(e))
                    && final(st).done,
                Err(m) => r == BridgeEffect::DeliverErrorAndStop(
                    AnthropicError::DeserializationError(m),
                ) && final(st).done,
            },
            BridgeStep::FrameUnknown(name) => final(st).done && (r matches
                BridgeEffect::DeliverErrorAndStop(e) && e matches AnthropicError::StreamError(se)
                && se.error_type@ == "unknown_event_type"@ && (se.message matches Some(m) && m@
                == "Unknown event type: "@ + name@) && se.error is None),
            BridgeStep::Ended => r is Stop && final(st).done,
            BridgeStep::Rejected { status, retry_after_header, body } => {
                let seconds = spec_header_seconds(retry_after_header);
                if spec_retryable_status(status) && cfg.spec_attempts_remain(
                    old(st).reconnects as nat,
                ) {
                    &&& r == (BridgeEffect::Reconnect {
                        pause_ms: spec_retry_pause(
                            *cfg,
                            seconds,
                            old(st).reconnects as nat,
                            jitter_sample,
                        ),
                    })
                    &&& !final(st).done
                    &&& old(st).reconnects < usize::MAX ==> final(st).reconnects == old(
                        st,
                    ).reconnects + 1
                    &&& old(st).reconnects == usize::MAX ==> final(st).reconnects == old(
                        st,
                    ).reconnects
                } else {
                    r == BridgeEffect::DeliverErrorAndStop(
                        spec_rejection_error(status, seconds, body),
                    ) && final(st).done
                }
            },
            BridgeStep::Faulted(desc) => final(st).done && (r matches BridgeEffect::DeliverErrorAndStop(
                e,
            ) && e matches AnthropicError::StreamError(se) && se.error_type@ == "sse_error"@ && (
            se.message matches Some(m) && m@ == desc@) && se.error is None),
        }),
{
    match step {
        BridgeStep::Opened => {
            st.reconnects = 0;
            BridgeEffect::Silent
        },
        BridgeStep::FrameIgnored => BridgeEffect::Silent,
        BridgeStep::FrameData(res) => match res {
            Ok(()) => BridgeEffect::DeliverEvent,
            Err(m) => {
                st.done = true;
                BridgeEffect::DeliverErrorAndStop(AnthropicError::DeserializationError(m))
            },
        },
        BridgeStep::FrameError(res) => {
            st.done = true;
            match res {
                Ok(e) => BridgeEffect::DeliverErrorAndStop(AnthropicError::StreamError(e)),
                Err(m) => BridgeEffect::DeliverErrorAndStop(
                    AnthropicError::DeserializationError(m),
                ),
            }
        },
        BridgeStep::FrameUnknown(name) => {
            st.done = true;
            BridgeEffect::DeliverErrorAndStop(AnthropicError::StreamError(unknown_event_error(name)))
        },
        BridgeStep::Ended => {
            st.done = true;
            BridgeEffect::Stop
        },
        BridgeStep::Rejected { status, retry_after_header, body } => {
            let seconds = match &retry_after_header {
                Some(h) => parse_retry_after(h.as_slice()),
                None => None,
            };
            let retryable = status == 429 || status == 529;
            if retryable && cfg.attempts_remain(st.reconnects) {
                let pause_ms = match seconds {
                    Some(secs) => match secs.checked_mul(1000) {
                        Some(ms) => ms,
                        None => u64::MAX,
                    },
                    None => next_delay(cfg, st.reconnects, jitter_sample),
                };
                if st.reconnects < usize::MAX {
                    st.reconnects = st.reconnects + 1;
                }
                BridgeEffect::Reconnect { pause_ms }
            } else {
                st.done = true;
                BridgeEffect::DeliverErrorAndStop(rejection_error(status, seconds, body))
            }
        },
        BridgeStep::Faulted(desc) => {
            st.done = true;
            BridgeEffect::DeliverErrorAndStop(AnthropicError::StreamError(transport_fault_error(desc)))
        },
    }
}

/// The classified error a non-retried rejection surfaces.
pub fn rejection_error(status: u16, retry_after: Option<u64>, body: String) -> (r: AnthropicError)
    ensures
        r == spec_rejection_error(status, retry_after, body),
{
    if status == 400 {
        AnthropicError::BadRequest(body)
    } else if status == 401 {
        AnthropicError::Unauthorized
    } else if status == 429 || status == 529 {
        AnthropicError::RateLimit { retry_after }
    } else {
        AnthropicError::Unknown(body)
    }
}

/// The terminal envelope for a frame whose name nothing recognizes.
pub fn unknown_event_error(name: String) -> (r: StreamError)
    ensures
        r.error_type@ == "unknown_event_type"@,
        r.message matches Some(m) && m@ == "Unknown event type: "@ + name@,
        r.error is None,
{
    let mut message = String::from_str("Unknown event type: ");
    message.append(name.as_str());
    StreamError::new(String::from_str("unknown_event_type"), message)
}

/// The terminal envelope for a transport fault rendered to text.
pub fn transport_fault_error(description: String) -> (r: StreamError)
    ensures
        r.error_type@ == "sse_error"@,
        r.message matches Some(m) && m@ == description@,
        r.error is None,
{
    StreamError::new(String::from_str("sse_error"), description)
}

/// Replays a transcript of resolved transport events through the bridge and
/// returns exactly the items a consumer would receive, in order. `samples[j]`
/// is the jitter sample drawn if step `j` leads to a reconnect.
pub fn pump(cfg: &BackoffConfig, steps: &Vec<BridgeStep>, samples: &Vec<u64>) -> (out: Vec<
    Delivered,
>)
    requires
        cfg.wf(),
        samples.len() == steps.len(),
    ensures
        out@ == spec_pump(*cfg, steps@, samples@, 0, 0),
{
    let ghost full = spec_pump(*cfg, steps@, samples@, 0, 0);
    let mut out: Vec<Delivered> = Vec::new();
    let mut rc: usize = 0;
    let mut i: usize = 0;
    while i < steps.len()
        invariant
            cfg.wf(),
            samples.len() == steps.len(),
            i <= steps.len(),
            rc <= i,
            full == spec_pump(*cfg, steps@, samples@, 0, 0),
            full == out@ + spec_pump(*cfg, steps@, samples@, i as nat, rc as nat),
        decreases steps.len() - i,
    {
        match &steps[i] {
            BridgeStep::Opened => {
                rc = 0;
            },
            BridgeStep::FrameIgnored => {},
            BridgeStep::FrameData(res) => match res {
                Ok(()) => {
                    out.push(Delivered::Event);
                    proof {
                        let next = spec_pump(*cfg, steps@, samples@, i as nat + 1, rc as nat);
                        assert(full =~= out@ + next);
                    }
                },
                Err(m) => {
                    out.push(
                        Delivered::Error(AnthropicError::DeserializationError(m.clone())),
                    );
                    proof {
                        assert(full =~= out@);
                    }
                    return out;
                },
            },
            BridgeStep::FrameError(res) => match res {
                Ok(e) => {
                    out.push(Delivered::Error(AnthropicError::StreamError(e.clone())));
                    proof {
                        assert(full =~= out@);
                    }
                    return out;
                },
                Err(m) => {
                    out.push(
                        Delivered::Error(AnthropicError::DeserializationError(m.clone())),
                    );
                    proof {
                        assert(full =~= out@);
                    }
                    return out;
                },
            },
            BridgeStep::FrameUnknown(name) => {
                out.push(Delivered::UnknownEvent(name.clone()));
                proof {
                    assert(full =~= out@);
                }
                return out;
            },
            BridgeStep::Ended => {
                proof {
                    assert(full =~= out@);
                }
                return out;
            },
            BridgeStep::Rejected { status, retry_after_header, body } => {
                let seconds = match retry_after_header {
                    Some(h) => parse_retry_after(h.as_slice()),
                    None => None,
                };
                if (*status == 429 || *status == 529) && cfg.attempts_remain(rc) {
                    rc = rc + 1;
                } else {
                    out.push(Delivered::Error(rejection_error(*status, seconds, body.clone())));
                    proof {
                        assert(full =~= out@);
                    }
                    return out;
                }
            },
            BridgeStep::Faulted(desc) => {
                out.push(Delivered::TransportFault(desc.clone()));
                proof {
                    assert(full =~= out@);
                }
                return out;
            },
        }
        i = i + 1;
    }
    proof {
        assert(full =~= out@);
    }
    out
}

/// Law: delivery is fail-closed. Whatever the transcript, every delivered
/// item that is not a data event is the last item the consumer receives: the
/// sequence never interleaves a terminal error with further items.
pub proof fn lemma_error_is_terminal(
    cfg: BackoffConfig,
    steps: Seq<BridgeStep>,
    samples: Seq<u64>,
    i: nat,
    rc: nat,
    k: int,
)
    requires
        i <= steps.len(),
        0 <= k < spec_pump(cfg, steps, samples, i, rc).len(),
        spec_pump(cfg, steps, samples, i, rc)[k].spec_is_terminal(),
    ensures
        k == spec_pump(cfg, steps, samples, i, rc).len() - 1,
    decreases steps.len() - i,
{
    if i < steps.len() {
        match steps[i as int] {
            BridgeStep::Opened => {
                lemma_error_is_terminal(cfg, steps, samples, i + 1, 0, k);
            },
            BridgeStep::FrameIgnored => {
                lemma_error_is_terminal(cfg, steps, samples, i + 1, rc, k);
            },
            BridgeStep::FrameData(res) => {
                if res is Ok {
                    let rest = spec_pump(cfg, steps, samples, i + 1, rc);
                    if k > 0 {
                        lemma_error_is_terminal(cfg, steps, samples, i + 1, rc, k - 1);
                    }
                }
            },
            BridgeStep::Rejected { status, retry_after_header, body } => {
                if spec_retryable_status(status) && cfg.spec_attempts_remain(rc) {
                    lemma_error_is_terminal(cfg, steps, samples, i + 1, rc + 1, k);
                }
            },
            _ => {},
        }
    }
}

/// Law: a stream of housekeeping alone — opens, swallowed keepalives, and a
/// clean close — delivers nothing at all to the consumer.
pub proof fn lemma_quiet_stream_is_empty(
    cfg: BackoffConfig,
    steps: Seq<BridgeStep>,
    samples: Seq<u64>,
    i: nat,
    rc: nat,
)
    requires
        i <= steps.len(),
        forall|j: int|
            i <= j < steps.len() ==> (steps[j] is Opened || steps[j] is FrameIgnored || steps[j]
                is Ended),
    ensures
        spec_pump(cfg, steps, samples, i, rc).len() == 0,
    decreases steps.len() - i,
{
    if i < steps.len() {
        match steps[i as int] {
            BridgeStep::Opened => {
                lemma_quiet_stream_is_empty(cfg, steps, samples, i + 1, 0);
            },
            BridgeStep::FrameIgnored => {
                lemma_quiet_stream_is_empty(cfg, steps, samples, i + 1, rc);
            },
            _ => {},
        }
    }
}

/// Law: a server-declared error event that decodes is delivered as the
/// stream's one and only item, and the stream ends with it.
pub proof fn lemma_error_event_is_sole_item(
    cfg: BackoffConfig,
    steps: Seq<BridgeStep>,
    samples: Seq<u64>,
    e: StreamError,
)
    requires
        steps.len() >= 1,
        steps[0] == BridgeStep::FrameError(Ok::<StreamError, String>(e)),
    ensures
        spec_pump(cfg, steps, samples, 0, 0) =~= seq![
            Delivered::Error(AnthropicError::StreamError(e)),
        ],
{
}

/// Law: after a delivered data event, a decode failure on the next
/// allow-listed frame ends the stream at once: the consumer receives exactly
/// the event, then the decoder's error, and nothing further.
pub proof fn lemma_decode_failure_is_terminal(
    cfg: BackoffConfig,
    steps: Seq<BridgeStep>,
    samples: Seq<u64>,
    m: String,
)
    requires
        steps.len() >= 2,
        steps[0] == BridgeStep::FrameData(Ok::<(), String>(())),
        steps[1] == BridgeStep::FrameData(Err::<(), String>(m)),
    ensures
        spec_pump(cfg, steps, samples, 0, 0) =~= seq![
            Delivered::Event,
            Delivered::Error(AnthropicError::DeserializationError(m)),
        ],
{
    let rest = spec_pump(cfg, steps, samples, 1, 0);
    assert(rest =~= seq![Delivered::Error(AnthropicError::DeserializationError(m))]);
    assert(spec_pump(cfg, steps, samples, 0, 0) == seq![Delivered::Event] + rest);
}

} // verus!
