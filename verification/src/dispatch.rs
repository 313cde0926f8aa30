//! The dispatch table: a fixed map from path keys to handlers, built once
//! and searched by key.
//!
//! A path key is the 64-bit FNV-1a hash of the path's bytes. The table
//! keeps its routes ordered by key, so it can hold no key twice and finds a
//! key by halving.

use vstd::prelude::*;
use vstd::string::StringSliceAdditionalSpecFns;

verus! {

/// Start value of the FNV-1a hash.
pub const FNV_OFFSET: u64 = 0xcbf2_9ce4_8422_2325;

/// Multiplier of the FNV-1a hash.
pub const FNV_PRIME: u64 = 0x0000_0100_0000_01b3;

/// How a handler runs.
#[derive(Clone, Copy, Debug, PartialEq, Eq, Structural)]
pub enum HandlerKind {
    /// Runs to completion inside one serve step.
    Blocking,
    /// Runs as a task of its own, one step per tick.
    Spawned,
}

/// The operations that the board offers.
#[derive(Clone, Copy, Debug, PartialEq, Eq, Structural)]
pub enum Endpoint {
    UniqueId,
    AdcGet,
    HeaterSetPwm,
    PidGet,
    HeaterEnable,
    HeaterDisable,
    PidSetConsts,
    PidReset,
    PidRecalc,
    PidSetpoint,
    ServoSetAngle,
    ServoGetAngle,
    ServoChannel,
    ServoConfig,
    ServoFrequency,
    StepperSet,
    StepperDirection,
    DefmtStart,
    DefmtStop,
    PingX2,
}

/// One entry of the table.
#[derive(Clone, Copy, Debug, PartialEq, Eq, Structural)]
pub struct Route {
    pub key: u64,
    pub endpoint: Endpoint,
    pub kind: HandlerKind,
}

/// Two routes were registered under one key.
#[derive(Clone, Copy, Debug, PartialEq, Eq, Structural)]
pub struct DuplicateKey {
    pub key: u64,
}

/// The table.
#[derive(Debug, PartialEq, Eq)]
pub struct DispatchTable {
    routes: Vec<Route>,
}

/// The FNV-1a hash of `bytes`.
pub open spec fn fnv1a(bytes: Seq<u8>) -> u64
    decreases bytes.len(),
{
    if bytes.len() == 0 {
        FNV_OFFSET
    } else {
        (((fnv1a(bytes.drop_last()) ^ (bytes.last() as u64)) as nat * (FNV_PRIME as nat))
            % 0x1_0000_0000_0000_0000) as u64
    }
}

/// Whether the keys of `routes` grow strictly from each route to the next.
pub open spec fn strictly_ordered(routes: Seq<Route>) -> bool {
    forall|i: int, j: int| 0 <= i < j < routes.len() ==> routes[i].key < routes[j].key
}

/// Whether two of `routes` have the same key.
pub open spec fn has_duplicate(routes: Seq<Route>) -> bool {
    exists|i: int, j: int| 0 <= i < j < routes.len() && routes[i].key == routes[j].key
}

/// The key of a path.
pub fn path_key(path: &str) -> (key: u64)
    ensures
        key == fnv1a(path.spec_bytes()),
{
    let bytes = path.as_bytes();
    let mut hash: u64 = FNV_OFFSET;
    let mut i: usize = 0;
    while i < bytes.len()
        invariant
            i <= bytes.len(),
            hash == fnv1a(bytes@.subrange(0, i as int)),
        decreases bytes.len() - i,
    {
        proof {
            assert(bytes@.subrange(0, i + 1).drop_last() =~= bytes@.subrange(0, i as int));
        }
        hash = (hash ^ (bytes[i] as u64)).wrapping_mul(FNV_PRIME);
        i += 1;
    }
    proof {
        assert(bytes@.subrange(0, i as int) =~= bytes@);
    }
    hash
}

impl Endpoint {
    /// The path that names the endpoint.
    pub fn path(self) -> (p: &'static str)
        ensures
            p@ == self.spec_path()@,
    {
        match self {
            Endpoint::UniqueId => "unique_id/get",
            Endpoint::AdcGet => "adc_val/get",
            Endpoint::HeaterSetPwm => "heater/set_pwm",
            Endpoint::PidGet => "pid/get_pidvals",
            Endpoint::HeaterEnable => "heater/enable",
            Endpoint::HeaterDisable => "heater/disable",
            Endpoint::PidSetConsts => "pid/set_consts",
            Endpoint::PidReset => "pid/reset",
            Endpoint::PidRecalc => "pid/recalc",
            Endpoint::PidSetpoint => "pid/set_setpoint",
            Endpoint::ServoSetAngle => "servo/set_angle",
            Endpoint::ServoGetAngle => "servo/get_angle",
            Endpoint::ServoChannel => "servo/channel",
            Endpoint::ServoConfig => "servo/config",
            Endpoint::ServoFrequency => "servo/frequency",
            Endpoint::StepperSet => "stepper/set",
            Endpoint::StepperDirection => "stepper/direction",
            Endpoint::DefmtStart => "defmt/start",
            Endpoint::DefmtStop => "defmt/stop",
            Endpoint::PingX2 => "pingx2",
        }
    }

    /// The path that names the endpoint.
    pub open spec fn spec_path(self) -> &'static str {
        match self {
            Endpoint::UniqueId => "unique_id/get",
            Endpoint::AdcGet => "adc_val/get",
            Endpoint::HeaterSetPwm => "heater/set_pwm",
            Endpoint::PidGet => "pid/get_pidvals",
            Endpoint::HeaterEnable => "heater/enable",
            Endpoint::HeaterDisable => "heater/disable",
            Endpoint::PidSetConsts => "pid/set_consts",
            Endpoint::PidReset => "pid/reset",
            Endpoint::PidRecalc => "pid/recalc",
            Endpoint::PidSetpoint => "pid/set_setpoint",
            Endpoint::ServoSetAngle => "servo/set_angle",
            Endpoint::ServoGetAngle => "servo/get_angle",
            Endpoint::ServoChannel => "servo/channel",
            Endpoint::ServoConfig => "servo/config",
            Endpoint::ServoFrequency => "servo/frequency",
            Endpoint::StepperSet => "stepper/set",
            Endpoint::StepperDirection => "stepper/direction",
            Endpoint::DefmtStart => "defmt/start",
            Endpoint::DefmtStop => "defmt/stop",
            Endpoint::PingX2 => "pingx2",
        }
    }

    /// Name of the type of the endpoint's requests, for the catalogue.
    pub open spec fn spec_request_type(self) -> &'static str {
        match self {
            Endpoint::HeaterSetPwm | Endpoint::PidSetpoint => "u16",
            Endpoint::PidSetConsts => "[i32; 2]",
            Endpoint::ServoSetAngle => "(u8, u8)",
            Endpoint::ServoGetAngle | Endpoint::StepperDirection => "u8",
            Endpoint::ServoChannel => "(PwmChannel, ServoChannelConfig)",
            Endpoint::ServoFrequency | Endpoint::StepperSet | Endpoint::PingX2 => "u32",
            _ => "()",
        }
    }

    /// Name of the type of the endpoint's requests, for the catalogue.
    pub fn request_type(self) -> (name: &'static str)
        ensures
            name@ == self.spec_request_type()@,
    {
        match self {
            Endpoint::HeaterSetPwm | Endpoint::PidSetpoint => "u16",
            Endpoint::PidSetConsts => "[i32; 2]",
            Endpoint::ServoSetAngle => "(u8, u8)",
            Endpoint::ServoGetAngle | Endpoint::StepperDirection => "u8",
            Endpoint::ServoChannel => "(PwmChannel, ServoChannelConfig)",
            Endpoint::ServoFrequency | Endpoint::StepperSet | Endpoint::PingX2 => "u32",
            _ => "()",
        }
    }

    /// Name of the type of the endpoint's responses, for the catalogue.
    pub open spec fn spec_response_type(self) -> &'static str {
        match self {
            Endpoint::UniqueId => "[u8; 12]",
            Endpoint::AdcGet => "u16",
            Endpoint::PidGet => "Pidvals",
            Endpoint::ServoGetAngle => "u8",
            Endpoint::ServoConfig => "ServoConfig",
            Endpoint::DefmtStop => "bool",
            Endpoint::PingX2 => "u32",
            _ => "()",
        }
    }

    /// Name of the type of the endpoint's responses, for the catalogue.
    pub fn response_type(self) -> (name: &'static str)
        ensures
            name@ == self.spec_response_type()@,
    {
        match self {
            Endpoint::UniqueId => "[u8; 12]",
            Endpoint::AdcGet => "u16",
            Endpoint::PidGet => "Pidvals",
            Endpoint::ServoGetAngle => "u8",
            Endpoint::ServoConfig => "ServoConfig",
            Endpoint::DefmtStop => "bool",
            Endpoint::PingX2 => "u32",
            _ => "()",
        }
    }

    /// How the endpoint's handler runs: the pulse train and the log stream
    /// are tasks of their own, everything else runs to completion.
    pub open spec fn spec_kind(self) -> HandlerKind {
        match self {
            Endpoint::StepperSet | Endpoint::DefmtStart => HandlerKind::Spawned,
            _ => HandlerKind::Blocking,
        }
    }

    /// How the endpoint's handler runs.
    pub fn kind(self) -> (k: HandlerKind)
        ensures
            k == self.spec_kind(),
    {
        match self {
            Endpoint::StepperSet | Endpoint::DefmtStart => HandlerKind::Spawned,
            _ => HandlerKind::Blocking,
        }
    }

    /// The endpoint's route: its path's key and its kind.
    pub open spec fn spec_route(self) -> Route {
        Route { key: fnv1a(self.spec_path().spec_bytes()), endpoint: self, kind: self.spec_kind() }
    }

    /// The endpoint's route.
    pub fn route(self) -> (r: Route)
        ensures
            r == self.spec_route(),
    {
        Route { key: path_key(self.path()), endpoint: self, kind: self.kind() }
    }
}

impl View for DispatchTable {
    type V = Seq<Route>;

    /// The routes, ordered by key.
    closed spec fn view(&self) -> Seq<Route> {
        self.routes@
    }
}

impl DispatchTable {
    /// The routes are kept ordered by key.
    #[verifier::type_invariant]
    spec fn ordered(&self) -> bool {
        strictly_ordered(self.routes@)
    }

    /// Builds the table from `entries`. It fails if two of them have the
    /// same key, and names such a key. Otherwise the table holds exactly
    /// the entries.
    pub fn build(entries: &Vec<Route>) -> (r: Result<DispatchTable, DuplicateKey>)
        ensures
            match r {
                Ok(table) => {
                    &&& !has_duplicate(entries@)
                    &&& strictly_ordered(table@)
                    &&& table@.len() == entries@.len()
                    &&& forall|route: Route| table@.contains(route) <==> entries@.contains(route)
                },
                Err(e) => exists|i: int, j: int|
                    0 <= i < j < entries@.len() && entries@[i].key == e.key && entries@[j].key
                        == e.key,
            },
    {
        let mut routes: Vec<Route> = Vec::new();
        let mut k: usize = 0;
        while k < entries.len()
            invariant
                k <= entries.len(),
                strictly_ordered(routes@),
                routes@.len() == k,
                !has_duplicate(entries@.subrange(0, k as int)),
                forall|route: Route|
                    routes@.contains(route) <==> entries@.subrange(0, k as int).contains(route),
            decreases entries.len() - k,
        {
            let entry: Route = entries[k];
            let at: usize = lower_bound(&routes, entry.key);
            let ghost before = routes@;
            let ghost prefix = entries@.subrange(0, k as int);
            let ghost grown = entries@.subrange(0, k + 1);
            if at < routes.len() && routes[at].key == entry.key {
                proof {
                    let twin = routes@[at as int];
                    assert(routes@.contains(twin));
                    assert(prefix.contains(twin));
                    let i = choose|i: int| 0 <= i < prefix.len() && prefix[i] == twin;
                    assert(entries@[i].key == entry.key && entries@[k as int].key == entry.key);
                }
                return Err(DuplicateKey { key: entry.key });
            }
            routes.insert(at, entry);
            proof {
                assert(grown =~= prefix.push(entry));
                assert(strictly_ordered(routes@)) by {
                    assert forall|i: int, j: int| 0 <= i < j < routes@.len() implies routes@[i].key
                        < routes@[j].key by {
                        let bi = if i < at { i } else { i - 1 };
                        let bj = if j < at { j } else { j - 1 };
                        if i != at && j != at {
                            assert(before[bi].key < before[bj].key);
                        } else if i == at {
                            assert(before[bj].key >= entry.key);
                        } else {
                            assert(before[bi].key < entry.key);
                        }
                    }
                }
                assert forall|route: Route| routes@.contains(route) <==> grown.contains(
                    route,
                ) by {
                    if routes@.contains(route) {
                        let i = choose|i: int| 0 <= i < routes@.len() && routes@[i] == route;
                        if i == at {
                            assert(grown[k as int] == route);
                        } else {
                            let bi = if i < at { i } else { i - 1 };
                            assert(before[bi] == route);
                            assert(before.contains(route));
                            let p = choose|p: int| 0 <= p < prefix.len() && prefix[p] == route;
                            assert(grown[p] == route);
                        }
                    }
                    if grown.contains(route) {
                        let p = choose|p: int| 0 <= p < grown.len() && grown[p] == route;
                        if p == k {
                            assert(routes@[at as int] == route);
                        } else {
                            assert(prefix[p] == route);
                            assert(prefix.contains(route));
                            assert(before.contains(route));
                            let i = choose|i: int| 0 <= i < before.len() && before[i] == route;
                            let ni = if i < at { i } else { i + 1 };
                            assert(routes@[ni] == route);
                        }
                    }
                }
                assert(!has_duplicate(grown)) by {
                    if has_duplicate(grown) {
                        let (i, j) = choose|i: int, j: int|
                            0 <= i < j < grown.len() && grown[i].key == grown[j].key;
                        if j < k {
                            assert(prefix[i].key == prefix[j].key);
                        } else {
                            assert(prefix[i] == grown[i]);
                            assert(prefix.contains(grown[i]));
                            assert(before.contains(grown[i]));
                            let b = choose|b: int| 0 <= b < before.len() && before[b] == grown[i];
                            assert(before[b].key == entry.key);
                        }
                    }
                }
            }
            k += 1;
        }
        proof {
            assert(entries@.subrange(0, k as int) =~= entries@);
        }
        Ok(DispatchTable { routes })
    }

    /// The route registered under `path_key`, if there is one. The routes
    /// are ordered by key, so there is at most one.
    pub fn resolve(&self, path_key: u64) -> (r: Option<Route>)
        ensures
            strictly_ordered(self@),
            match r {
                Some(route) => route.key == path_key && self@.contains(route),
                None => forall|i: int| 0 <= i < self@.len() ==> self@[i].key != path_key,
            },
    {
        proof {
            use_type_invariant(self);
        }
        let at: usize = lower_bound(&self.routes, path_key);
        if at < self.routes.len() && self.routes[at].key == path_key {
            Some(self.routes[at])
        } else {
            None
        }
    }

    /// Number of routes in the table.
    pub fn len(&self) -> (n: usize)
        ensures
            n == self@.len(),
    {
        self.routes.len()
    }
}

/// The first position in `routes` whose key is not below `key`, found by halving.
fn lower_bound(routes: &Vec<Route>, key: u64) -> (at: usize)
    requires
        strictly_ordered(routes@),
    ensures
        at <= routes@.len(),
        forall|i: int| 0 <= i < at ==> routes@[i].key < key,
        forall|i: int| at <= i < routes@.len() ==> routes@[i].key >= key,
{
    let mut lo: usize = 0;
    let mut hi: usize = routes.len();
    while lo < hi
        invariant
            lo <= hi <= routes@.len(),
            strictly_ordered(routes@),
            forall|i: int| 0 <= i < lo ==> routes@[i].key < key,
            forall|i: int| hi <= i < routes@.len() ==> routes@[i].key >= key,
        decreases hi - lo,
    {
        let mid: usize = lo + (hi - lo) / 2;
        if routes[mid].key < key {
            lo = mid + 1;
        } else {
            hi = mid;
        }
    }
    lo
}

} // verus!
