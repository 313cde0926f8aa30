//! The serve step and the tick: what the board does with one decoded frame,
//! and what its background tasks do at one tick of the scheduler.
//!
//! Requests are served one at a time, in the order in which their frames
//! were decoded. A reply carries the sequence number of its request. The
//! tasks that outlive a serve step (the pulse train, the log stream)
//! advance by one step per tick, between requests.

use vstd::prelude::*;
use crate::device::{Effect, Inputs, Reply, State};
use crate::dispatch::{strictly_ordered, DispatchTable, DuplicateKey, Endpoint, Route};
use crate::frame::{Frame, FrameView, MAX_PAYLOAD};
use crate::log::{LogStep, LogStream};
use crate::message::{Request, Response, WireError};
use crate::stepper::{stepper_tick, StepperAction};

verus! {

/// Key under which errors are reported. No endpoint may have it.
pub const ERROR_KEY: u64 = 0xffff_ffff_ffff_ffff;

/// Key under which log chunks are published. No endpoint may have it.
pub const LOG_KEY: u64 = 0xffff_ffff_ffff_fffe;

/// Number of endpoints.
pub const ENDPOINT_COUNT: usize = 20;

/// The request whose response waits for its task to finish.
#[derive(Clone, Copy, Debug, PartialEq, Eq, Structural)]
pub struct Pending {
    pub path_key: u64,
    pub seq_no: u32,
}

/// The board's server: the dispatch table, the shared state, and the
/// request that waits for the pulse train.
#[derive(Debug, PartialEq, Eq)]
pub struct Server {
    pub table: DispatchTable,
    pub state: State,
    pub pending: Option<Pending>,
}

/// What a serve step hands back: the frame to send, if any, and what the
/// caller is to do to the peripherals.
#[derive(Clone, Debug, PartialEq, Eq)]
pub struct Served {
    pub reply: Option<Frame>,
    pub effect: Effect,
}

/// What a tick hands back.
#[derive(Clone, Debug, PartialEq, Eq)]
pub struct Ticked {
    /// What the caller is to do to the step channel.
    pub stepper: StepperAction,
    /// The response to the request that started the pulse train, once the
    /// train has finished.
    pub reply: Option<Frame>,
    /// What the log task did.
    pub log: LogStep,
    /// The log chunk to publish, if the log task published one.
    pub published: Option<Frame>,
}

/// The endpoint registered under `key` in `routes`, if there is one.
pub open spec fn routed(routes: Seq<Route>, key: u64) -> Option<Endpoint> {
    if exists|i: int| 0 <= i < routes.len() && routes[i].key == key {
        let i = choose|i: int| 0 <= i < routes.len() && routes[i].key == key;
        Some(routes[i].endpoint)
    } else {
        None
    }
}

/// The frame that reports `error` to the sender of request number `seq_no`.
pub open spec fn error_frame(error: WireError, seq_no: u32) -> FrameView {
    FrameView { path_key: ERROR_KEY, seq_no, payload: error.wire() }
}

/// The frame that answers the request `request` with `reply`, if one is
/// sent now: a response under the request's key, an error under the error
/// key, both under the request's sequence number.
pub open spec fn reply_frame(request: FrameView, reply: Reply) -> Option<FrameView> {
    match reply {
        Reply::Response(response) => Some(
            FrameView {
                path_key: request.path_key,
                seq_no: request.seq_no,
                payload: response.wire(),
            },
        ),
        Reply::Error(error) => Some(error_frame(error, request.seq_no)),
        Reply::Deferred => None,
    }
}

/// The request that waits after `request` was answered with `reply`.
pub open spec fn pending_after(before: Option<Pending>, request: FrameView, reply: Reply) -> Option<
    Pending,
> {
    if reply is Deferred {
        Some(Pending { path_key: request.path_key, seq_no: request.seq_no })
    } else {
        before
    }
}

/// The view of the frame to send, if there is one.
pub open spec fn sent(reply: Option<Frame>) -> Option<FrameView> {
    match reply {
        Some(f) => Some(f@),
        None => None,
    }
}

/// All endpoints, each once.
pub fn all_endpoints() -> (all: Vec<Endpoint>)
    ensures
        all@.len() == ENDPOINT_COUNT,
        forall|e: Endpoint| all@.contains(e),
        forall|i: int, j: int| 0 <= i < j < all@.len() ==> all@[i] != all@[j],
{
    let all = vec![
        Endpoint::UniqueId,
        Endpoint::AdcGet,
        Endpoint::HeaterSetPwm,
        Endpoint::PidGet,
        Endpoint::HeaterEnable,
        Endpoint::HeaterDisable,
        Endpoint::PidSetConsts,
        Endpoint::PidReset,
        Endpoint::PidRecalc,
        Endpoint::PidSetpoint,
        Endpoint::ServoSetAngle,
        Endpoint::ServoGetAngle,
        Endpoint::ServoChannel,
        Endpoint::ServoConfig,
        Endpoint::ServoFrequency,
        Endpoint::StepperSet,
        Endpoint::StepperDirection,
        Endpoint::DefmtStart,
        Endpoint::DefmtStop,
        Endpoint::PingX2,
    ];
    proof {
        assert forall|e: Endpoint| all@.contains(e) by {
            let i: int = match e {
                Endpoint::UniqueId => 0,
                Endpoint::AdcGet => 1,
                Endpoint::HeaterSetPwm => 2,
                Endpoint::PidGet => 3,
                Endpoint::HeaterEnable => 4,
                Endpoint::HeaterDisable => 5,
                Endpoint::PidSetConsts => 6,
                Endpoint::PidReset => 7,
                Endpoint::PidRecalc => 8,
                Endpoint::PidSetpoint => 9,
                Endpoint::ServoSetAngle => 10,
                Endpoint::ServoGetAngle => 11,
                Endpoint::ServoChannel => 12,
                Endpoint::ServoConfig => 13,
                Endpoint::ServoFrequency => 14,
                Endpoint::StepperSet => 15,
                Endpoint::StepperDirection => 16,
                Endpoint::DefmtStart => 17,
                Endpoint::DefmtStop => 18,
                Endpoint::PingX2 => 19,
            };
            assert(all@[i] == e);
        }
    }
    all
}

/// The routes of all endpoints.
pub fn all_routes() -> (routes: Vec<Route>)
    ensures
        routes@.len() == ENDPOINT_COUNT,
        forall|route: Route|
            routes@.contains(route) <==> exists|e: Endpoint| route == e.spec_route(),
        forall|i: int, j: int|
            0 <= i < j < routes@.len() ==> routes@[i].endpoint != routes@[j].endpoint,
{
    let all = all_endpoints();
    let mut routes: Vec<Route> = Vec::new();
    let mut i: usize = 0;
    while i < all.len()
        invariant
            i <= all.len(),
            routes@.len() == i,
            forall|j: int| 0 <= j < i ==> routes@[j] == (#[trigger] all@[j]).spec_route(),
        decreases all.len() - i,
    {
        routes.push(all[i].route());
        i += 1;
    }
    proof {
        assert forall|i: int, j: int| 0 <= i < j < routes@.len() implies routes@[i].endpoint
            != routes@[j].endpoint by {
            assert(routes@[i] == all@[i].spec_route());
            assert(routes@[j] == all@[j].spec_route());
        }
        assert forall|route: Route| routes@.contains(route) implies exists|e: Endpoint|
            route == e.spec_route() by {
            let j = choose|j: int| 0 <= j < routes@.len() && routes@[j] == route;
            assert(route == all@[j].spec_route());
        }
        assert forall|route: Route| (exists|e: Endpoint| route == e.spec_route())
            implies routes@.contains(route) by {
            let e = choose|e: Endpoint| route == e.spec_route();
            assert(all@.contains(e));
            let j = choose|j: int| 0 <= j < all@.len() && all@[j] == e;
            assert(routes@[j] == route);
        }
    }
    routes
}

impl Server {
    /// Whether the table holds the routes of all endpoints and none under
    /// a reserved key.
    pub open spec fn complete(self) -> bool {
        &&& strictly_ordered(self.table@)
        &&& forall|route: Route|
            self.table@.contains(route) <==> exists|e: Endpoint| route == e.spec_route()
        &&& forall|i: int|
            0 <= i < self.table@.len() ==> (#[trigger] self.table@[i]).key != ERROR_KEY
                && self.table@[i].key != LOG_KEY
    }

    /// The server at boot: the table of all endpoints and the state at
    /// boot. It fails where two endpoints' paths have the same key, or one
    /// has a reserved key, and names that key.
    pub fn new(now: u64, max_duty_cycle: u16) -> (r: Result<Server, DuplicateKey>)
        ensures
            match r {
                Ok(server) => {
                    &&& server.complete()
                    &&& server.pending is None
                    &&& server.state.is_boot(now, max_duty_cycle)
                },
                Err(e) => {
                    ||| exists|a: Endpoint, b: Endpoint|
                        a != b && a.spec_route().key == e.key && b.spec_route().key == e.key
                    ||| exists|a: Endpoint|
                        a.spec_route().key == e.key && (e.key == ERROR_KEY || e.key == LOG_KEY)
                },
            },
    {
        let routes = all_routes();
        let table = match DispatchTable::build(&routes) {
            Ok(table) => table,
            Err(e) => {
                proof {
                    let (i, j) = choose|i: int, j: int|
                        0 <= i < j < routes@.len() && routes@[i].key == e.key && routes@[j].key
                            == e.key;
                    assert(routes@.contains(routes@[i]));
                    assert(routes@.contains(routes@[j]));
                    let a = choose|a: Endpoint| routes@[i] == a.spec_route();
                    let b = choose|b: Endpoint| routes@[j] == b.spec_route();
                    assert(a == routes@[i].endpoint && b == routes@[j].endpoint);
                    assert(a != b);
                }
                return Err(e);
            },
        };
        match table.resolve(ERROR_KEY) {
            Some(route) => {
                proof {
                    assert(routes@.contains(route));
                }
                return Err(DuplicateKey { key: ERROR_KEY });
            },
            None => {},
        }
        match table.resolve(LOG_KEY) {
            Some(route) => {
                proof {
                    assert(routes@.contains(route));
                }
                return Err(DuplicateKey { key: LOG_KEY });
            },
            None => {},
        }
        Ok(Server { table, state: State::new(now, max_duty_cycle), pending: None })
    }

    /// The host is back after it was away. Sequence numbers count per
    /// connection, so the log stream numbers its chunks from the start
    /// again. Nothing else changes: what the board was doing, it goes on doing.
    pub fn on_reconnect(&mut self)
        ensures
            final(self).table == old(self).table,
            final(self).pending == old(self).pending,
            final(self).state.heater == old(self).state.heater,
            final(self).state.servo == old(self).state.servo,
            final(self).state.stepper == old(self).state.stepper,
            final(self).state.log == (LogStream { next_seq: 0, ..old(self).state.log }),
    {
        self.state.log.next_seq = 0;
    }

    /// Whether serving `frame` takes a conversion of the ADC: the endpoints
    /// that report or use a reading do, nothing else does.
    pub fn wants_adc(&self, frame: &Frame) -> (wanted: bool)
        ensures
            wanted == (routed(self.table@, frame.path_key) == Some(Endpoint::AdcGet) || routed(
                self.table@,
                frame.path_key,
            ) == Some(Endpoint::PidRecalc)),
    {
        match self.table.resolve(frame.path_key) {
            Some(route) => {
                proof {
                    lemma_routed(self.table@, route);
                }
                match route.endpoint {
                    Endpoint::AdcGet | Endpoint::PidRecalc => true,
                    _ => false,
                }
            },
            None => false,
        }
    }

    /// Whether serving `frame` with the readings `inputs` takes the server
    /// from `self` to `post` and hands back `reply` and `effect`.
    ///
    /// A frame under a key that no endpoint has, or with a payload that is
    /// no request to its endpoint, changes nothing and is answered with an
    /// error. Any other frame is served as the request that it carries.
    pub open spec fn serves(
        self,
        frame: FrameView,
        inputs: Inputs,
        post: Server,
        reply: Option<FrameView>,
        effect: Effect,
    ) -> bool {
        &&& post.table == self.table
        &&& match routed(self.table@, frame.path_key) {
            None => {
                &&& post.state == self.state
                &&& post.pending == self.pending
                &&& reply == Some(error_frame(WireError::UnknownKey, frame.seq_no))
                &&& effect == Effect::Nothing
            },
            Some(endpoint) => if exists|q: Request|
                q.spec_endpoint() == endpoint && q.wire() == frame.payload {
                exists|q: Request, answer: Reply|
                    {
                        &&& q.spec_endpoint() == endpoint
                        &&& q.wire() == frame.payload
                        &&& #[trigger] self.state.steps_to(q, inputs, post.state, answer, effect)
                        &&& reply == reply_frame(frame, answer)
                        &&& post.pending == pending_after(self.pending, frame, answer)
                    }
            } else {
                &&& post.state == self.state
                &&& post.pending == self.pending
                &&& reply == Some(error_frame(WireError::UnknownType, frame.seq_no))
                &&& effect == Effect::Nothing
            },
        }
    }

    /// Serves one frame: finds the endpoint of its key, reads its payload
    /// as a request to that endpoint, runs the handler, and frames the
    /// reply under the request's sequence number.
    pub fn serve(&mut self, frame: &Frame, inputs: &Inputs) -> (out: Served)
        ensures
            old(self).serves(frame@, *inputs, *final(self), sent(out.reply), out.effect),
            out.reply matches Some(f) ==> f.payload@.len() <= MAX_PAYLOAD,
    {
        let route = match self.table.resolve(frame.path_key) {
            None => {
                return Served {
                    reply: Some(
                        Frame::new(ERROR_KEY, frame.seq_no, WireError::UnknownKey.encode()),
                    ),
                    effect: Effect::Nothing,
                };
            },
            Some(route) => route,
        };
        proof {
            lemma_routed(self.table@, route);
        }
        let request = match Request::decode(route.endpoint, frame.payload.as_slice()) {
            Err(_) => {
                return Served {
                    reply: Some(
                        Frame::new(ERROR_KEY, frame.seq_no, WireError::UnknownType.encode()),
                    ),
                    effect: Effect::Nothing,
                };
            },
            Ok(request) => request,
        };
        let (answer, effect) = self.state.handle(request, inputs);
        let reply = match answer {
            Reply::Response(response) => {
                proof {
                    response.lemma_wire_shape();
                }
                Some(Frame::new(frame.path_key, frame.seq_no, response.encode()))
            },
            Reply::Error(error) => {
                proof {
                    error.lemma_wire_shape();
                }
                Some(Frame::new(ERROR_KEY, frame.seq_no, error.encode()))
            },
            Reply::Deferred => {
                self.pending = Some(Pending { path_key: frame.path_key, seq_no: frame.seq_no });
                None
            },
        };
        Served { reply, effect }
    }

    /// One tick of the background tasks, with the device's pending log
    /// bytes. The pulse train advances by one step; when it finishes, the
    /// request that started it is answered. The log task advances by one
    /// step; a chunk that it publishes goes out under the log key.
    pub fn tick(&mut self, pending_log: &[u8]) -> (out: Ticked)
        ensures
            final(self).table == old(self).table,
            final(self).state.heater == old(self).state.heater,
            final(self).state.servo == old(self).state.servo,
            final(self).state.log == old(self).state.log.spec_tick(pending_log@.len() as int),
            !old(self).state.stepper.running ==> out.stepper == StepperAction::Idle && final(self).state.stepper == old(self).state.stepper && final(self).pending == old(self).pending
                && out.reply is None,
            old(self).state.stepper.running && old(self).state.stepper.remaining > 0 ==> {
                &&& out.stepper == (StepperAction::Pulse {
                    duty_cycle: old(self).state.stepper.pulse_duty,
                })
                &&& final(self).state.stepper == old(self).state.stepper.after_pulses(1)
                &&& final(self).pending == old(self).pending
                &&& out.reply is None
            },
            old(self).state.stepper.running && old(self).state.stepper.remaining == 0 ==> {
                &&& out.stepper == StepperAction::Finish
                &&& final(self).state.stepper == old(self).state.stepper.finished()
                &&& final(self).pending is None
                &&& match old(self).pending {
                    Some(p) => sent(out.reply) == Some(
                        FrameView {
                            path_key: p.path_key,
                            seq_no: p.seq_no,
                            payload: Response::Unit.wire(),
                        },
                    ),
                    None => out.reply is None,
                }
            },
            match out.log {
                LogStep::Publish { seq_no, chunk } => {
                    &&& old(self).state.log.active
                    &&& !old(self).state.log.stop_requested
                    &&& pending_log@.len() > 0
                    &&& seq_no == old(self).state.log.next_seq
                    &&& chunk.len == crate::log::chunk_size(pending_log@.len() as int)
                    &&& chunk.spec_data() == pending_log@.subrange(0, chunk.len as int)
                    &&& sent(out.published) == Some(
                        FrameView { path_key: LOG_KEY, seq_no, payload: chunk.wire() },
                    )
                },
                LogStep::Stopped => old(self).state.log.active && old(self).state.log.stop_requested && out.published is None,
                LogStep::Waiting => old(self).state.log.active && !old(self).state.log.stop_requested && pending_log@.len() == 0 && out.published is None,
                LogStep::Idle => !old(self).state.log.active && out.published is None,
            },
    {
        let stepper = stepper_tick(&mut self.state.stepper);
        let mut reply: Option<Frame> = None;
        match stepper {
            StepperAction::Finish => {
                match self.pending {
                    Some(p) => {
                        reply = Some(Frame::new(p.path_key, p.seq_no, Response::Unit.encode()));
                    },
                    None => {},
                }
                self.pending = None;
            },
            _ => {},
        }
        let log = self.state.log.tick(pending_log);
        let published = match log {
            LogStep::Publish { seq_no, chunk } => Some(Frame::new(LOG_KEY, seq_no, chunk.encode())),
            _ => None,
        };
        Ticked { stepper, reply, log, published }
    }
}

/// In routes ordered by key, the endpoint found under a route's key is
/// that route's endpoint.
pub proof fn lemma_routed(routes: Seq<Route>, route: Route)
    requires
        strictly_ordered(routes),
        routes.contains(route),
    ensures
        routed(routes, route.key) == Some(route.endpoint),
{
    let j = choose|j: int| 0 <= j < routes.len() && routes[j] == route;
    let i = choose|i: int| 0 <= i < routes.len() && routes[i].key == route.key;
    if i < j {
        assert(routes[i].key < routes[j].key);
    } else if j < i {
        assert(routes[j].key < routes[i].key);
    }
}

} // verus!
