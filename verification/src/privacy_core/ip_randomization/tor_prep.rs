//! The Tor service: bootstrap state, circuits and connection routing.
use vstd::prelude::*;
use crate::privacy_core::{Ipv4Addr, Result, IronVeilError};

verus! {

/// State of the Tor service.
#[derive(Debug, Clone, Copy, PartialEq, Eq, Structural)]
pub enum TorStatus {
    Stopped,
    Starting,
    Bootstrapping,
    Running,
    Error,
    CircuitBuilding,
    Ready,
}

impl TorStatus {
    /// Ready for connections: `Ready` or `Running`.
    pub fn is_ready(&self) -> (r: bool)
        ensures
            r == (*self == TorStatus::Ready || *self == TorStatus::Running),
    {
        *self == TorStatus::Ready || *self == TorStatus::Running
    }

    /// Able to build circuits: `Running`, `Ready` or `CircuitBuilding`.
    pub fn is_operational(&self) -> (r: bool)
        ensures
            r == (*self == TorStatus::Running || *self == TorStatus::Ready || *self == TorStatus::CircuitBuilding),
    {
        *self == TorStatus::Running || *self == TorStatus::Ready || *self == TorStatus::CircuitBuilding
    }
}

/// Flags of a relay.
#[derive(Debug, Clone, Copy, PartialEq, Eq, Structural)]
pub struct TorNodeFlags {
    pub is_exit: bool,
    pub is_guard: bool,
    pub is_stable: bool,
    pub is_fast: bool,
    pub is_valid: bool,
}

/// A Tor relay.
#[derive(Debug, Clone, Copy, PartialEq, Eq)]
pub struct TorNode {
    pub fingerprint: [u8; 20],
    pub ip: Ipv4Addr,
    pub port: u16,
    pub nickname: &'static str,
    pub flags: TorNodeFlags,
}

/// Pluggable transports of a bridge.
#[derive(Debug, Clone, Copy, PartialEq, Eq, Structural)]
pub enum BridgeTransport {
    Vanilla,
    Obfs4,
    Meek,
    Snowflake,
}

/// A bridge relay.
#[derive(Debug, Clone, Copy, PartialEq, Eq)]
pub struct TorBridge {
    pub ip: Ipv4Addr,
    pub port: u16,
    pub fingerprint: [u8; 20],
    pub transport: BridgeTransport,
}

/// Tor settings.
#[derive(Debug)]
pub struct TorConfig {
    pub socks_port: u16,
    pub control_port: u16,
    pub data_directory: &'static str,
    pub entry_guards: Vec<TorNode>,
    pub exit_nodes: Vec<TorNode>,
    pub bridge_relays: Vec<TorBridge>,
    pub use_bridges: bool,
    pub strict_nodes: bool,
}

impl Default for TorConfig {
    fn default() -> (r: Self)
        ensures
            r.socks_port == 9050 && r.control_port == 9051,
            r.entry_guards@.len() == 0 && r.exit_nodes@.len() == 0 && r.bridge_relays@.len() == 0,
            !r.use_bridges && !r.strict_nodes,
    {
        TorConfig {
            socks_port: 9050,
            control_port: 9051,
            data_directory: "/tmp/tor",
            entry_guards: Vec::new(),
            exit_nodes: Vec::new(),
            bridge_relays: Vec::new(),
            use_bridges: false,
            strict_nodes: false,
        }
    }
}

/// State of a circuit.
#[derive(Debug, Clone, Copy, PartialEq, Eq, Structural)]
pub enum CircuitState {
    Building,
    Open,
    Failed,
    Closed,
}

/// What a circuit is for.
#[derive(Debug, Clone, Copy, PartialEq, Eq, Structural)]
pub enum CircuitPurpose {
    General,
    HsClientIntro,
    HsClientRend,
    HsServiceIntro,
    HsServiceRend,
    Testing,
}

/// A circuit through three relays.
#[derive(Debug)]
pub struct TorCircuit {
    pub circuit_id: u32,
    pub hops: Vec<TorNode>,
    pub state: CircuitState,
    pub purpose: CircuitPurpose,
    pub created_time: u64,
    pub bytes_sent: u64,
    pub bytes_received: u64,
}

/// Service counters.
#[derive(Debug, Clone, Copy, PartialEq, Eq, Structural)]
pub struct TorStats {
    pub circuits_created: u32,
    pub circuits_failed: u32,
    pub bytes_sent: u64,
    pub bytes_received: u64,
    pub connections_made: u32,
    pub uptime_seconds: u64,
}

impl Default for TorStats {
    fn default() -> (r: Self)
        ensures
            r == (TorStats { circuits_created: 0, circuits_failed: 0, bytes_sent: 0, bytes_received: 0,
                connections_made: 0, uptime_seconds: 0 }),
    {
        TorStats { circuits_created: 0, circuits_failed: 0, bytes_sent: 0, bytes_received: 0, connections_made: 0, uptime_seconds: 0 }
    }
}

/// Index of the first circuit with id `id`.
pub open spec fn circuit_index(s: Seq<TorCircuit>, id: u32) -> Option<int>
    decreases s.len(),
{
    if s.len() == 0 {
        None
    } else {
        match circuit_index(s.drop_last(), id) {
            Some(i) => Some(i),
            None => if s.last().circuit_id == id { Some(s.len() - 1) } else { None },
        }
    }
}

proof fn lemma_circuit_index_prefix(s: Seq<TorCircuit>, id: u32, j: int)
    requires
        0 <= j <= s.len(),
        circuit_index(s.subrange(0, j), id) is Some,
    ensures
        circuit_index(s, id) == circuit_index(s.subrange(0, j), id),
    decreases s.len(),
{
    if j == s.len() {
        assert(s.subrange(0, j) =~= s);
    } else {
        assert(s.drop_last().subrange(0, j) =~= s.subrange(0, j));
        lemma_circuit_index_prefix(s.drop_last(), id, j);
    }
}

proof fn lemma_circuit_index_range(s: Seq<TorCircuit>, id: u32)
    ensures
        circuit_index(s, id) matches Some(i) ==> 0 <= i < s.len() && s[i].circuit_id == id,
    decreases s.len(),
{
    if s.len() > 0 {
        lemma_circuit_index_range(s.drop_last(), id);
    }
}

/// The default guard relay.
pub open spec fn default_guard() -> TorNode {
    TorNode { fingerprint: [1u8, 1, 1, 1, 1, 1, 1, 1, 1, 1, 1, 1, 1, 1, 1, 1, 1, 1, 1, 1], ip: Ipv4Addr([198u8, 96u8, 155u8, 3u8]), port: 9001, nickname: "guard1",
        flags: TorNodeFlags { is_exit: false, is_guard: true, is_stable: true, is_fast: true, is_valid: true } }
}

/// The default middle relay.
pub open spec fn default_middle() -> TorNode {
    TorNode { fingerprint: [2u8, 2, 2, 2, 2, 2, 2, 2, 2, 2, 2, 2, 2, 2, 2, 2, 2, 2, 2, 2], ip: Ipv4Addr([185u8, 220u8, 101u8, 7u8]), port: 9001, nickname: "middle1",
        flags: TorNodeFlags { is_exit: false, is_guard: false, is_stable: true, is_fast: true, is_valid: true } }
}

/// The default exit relay.
pub open spec fn default_exit() -> TorNode {
    TorNode { fingerprint: [3u8, 3, 3, 3, 3, 3, 3, 3, 3, 3, 3, 3, 3, 3, 3, 3, 3, 3, 3, 3], ip: Ipv4Addr([95u8, 216u8, 173u8, 108u8]), port: 9001, nickname: "exit1",
        flags: TorNodeFlags { is_exit: true, is_guard: false, is_stable: true, is_fast: true, is_valid: true } }
}

/// The three hops of a new circuit: the first configured guard (or the
/// default one), the default middle relay, the first configured exit (or
/// the default one).
pub open spec fn circuit_path(c: TorConfig) -> Seq<TorNode> {
    seq![
        if c.entry_guards@.len() > 0 { c.entry_guards@[0] } else { default_guard() },
        default_middle(),
        if c.exit_nodes@.len() > 0 { c.exit_nodes@[0] } else { default_exit() },
    ]
}

/// The counters have room for one more circuit and one more routed
/// connection of 1024 bytes.
pub open spec fn route_room(t: TorService) -> bool {
    &&& t.circuits@.len() < u32::MAX
    &&& t.stats.circuits_created < u32::MAX
    &&& t.stats.connections_made < u32::MAX
    &&& t.stats.bytes_sent + 1024 <= u64::MAX
    &&& forall|k: int| 0 <= k < t.circuits@.len() ==> #[trigger] t.circuits@[k].bytes_sent + 1024 <= u64::MAX
}

/// Index of the first open general-purpose circuit.
pub open spec fn first_open_general(s: Seq<TorCircuit>) -> Option<int>
    decreases s.len(),
{
    if s.len() == 0 {
        None
    } else {
        match first_open_general(s.drop_last()) {
            Some(i) => Some(i),
            None => if s.last().state == CircuitState::Open && s.last().purpose == CircuitPurpose::General {
                Some(s.len() - 1)
            } else {
                None
            },
        }
    }
}

proof fn lemma_first_open_general_prefix(s: Seq<TorCircuit>, j: int)
    requires
        0 <= j <= s.len(),
        first_open_general(s.subrange(0, j)) is Some,
    ensures
        first_open_general(s) == first_open_general(s.subrange(0, j)),
    decreases s.len(),
{
    if j == s.len() {
        assert(s.subrange(0, j) =~= s);
    } else {
        assert(s.drop_last().subrange(0, j) =~= s.subrange(0, j));
        lemma_first_open_general_prefix(s.drop_last(), j);
    }
}

proof fn lemma_first_open_general_range(s: Seq<TorCircuit>)
    ensures
        first_open_general(s) matches Some(i) ==> 0 <= i < s.len() && s[i].state == CircuitState::Open
            && s[i].purpose == CircuitPurpose::General,
    decreases s.len(),
{
    if s.len() > 0 {
        lemma_first_open_general_range(s.drop_last());
    }
}

/// Element `i` of a vector, for changes.
fn slot<T>(v: &mut Vec<T>, i: usize) -> (r: &mut T)
    requires
        i < old(v)@.len(),
    ensures
        *r == old(v)@[i as int],
        final(v)@ == old(v)@.update(i as int, *final(r)),
{
    &mut v[i]
}

/// The Tor service.
pub struct TorService {
    pub config: TorConfig,
    pub status: TorStatus,
    pub circuits: Vec<TorCircuit>,
    pub bootstrap_progress: u8,
    pub error_message: Option<&'static str>,
    pub stats: TorStats,
}

impl TorService {
    /// A stopped service with the given settings.
    pub fn new(config: TorConfig) -> (r: Self)
        ensures
            r.status == TorStatus::Stopped,
            r.circuits@.len() == 0,
            r.bootstrap_progress == 0,
            r.error_message is None,
            r.stats == TorStats::default_value(),
    {
        TorService { config, status: TorStatus::Stopped, circuits: Vec::new(), bootstrap_progress: 0, error_message: None, stats: TorStats::default() }
    }

    /// Starts a stopped service; the bootstrap brings it to `Ready` at 25 %.
    pub fn start(&mut self) -> (r: Result<()>)
        ensures
            old(self).status != TorStatus::Stopped ==> r == Err::<(), IronVeilError>(IronVeilError::OperationFailed)
                && *final(self) == *old(self),
            old(self).status == TorStatus::Stopped ==> r is Ok && final(self).status == TorStatus::Bootstrapping
                && final(self).bootstrap_progress == 25 && final(self).error_message is None,
            final(self).circuits@ == old(self).circuits@,
            final(self).circuits@.len() == old(self).circuits@.len(),
            final(self).config == old(self).config,
            final(self).stats == old(self).stats,
    {
        if self.status != TorStatus::Stopped {
            return Err(IronVeilError::OperationFailed);
        }
        self.status = TorStatus::Starting;
        self.bootstrap_progress = 0;
        self.error_message = None;
        self.status = TorStatus::Bootstrapping;
        self.bootstrap_progress = 10;
        self.simulate_bootstrap_progress();
        Ok(())
    }

    fn simulate_bootstrap_progress(&mut self)
        ensures
            old(self).bootstrap_progress <= 20 ==> final(self).bootstrap_progress == 25 && final(self).status == old(self).status,
            21 <= old(self).bootstrap_progress <= 40 ==> final(self).bootstrap_progress == 50 && final(self).status == old(self).status,
            41 <= old(self).bootstrap_progress <= 70 ==> final(self).bootstrap_progress == 80 && final(self).status == old(self).status,
            71 <= old(self).bootstrap_progress <= 99 ==> final(self).bootstrap_progress == 100 && final(self).status == TorStatus::Ready,
            old(self).bootstrap_progress >= 100 ==> final(self).bootstrap_progress == old(self).bootstrap_progress && final(self).status == old(self).status,
            final(self).circuits@ == old(self).circuits@,
            final(self).config == old(self).config,
            final(self).stats == old(self).stats,
            final(self).error_message == old(self).error_message,
    {
        if self.bootstrap_progress <= 20 {
            self.bootstrap_progress = 25;
        } else if self.bootstrap_progress <= 40 {
            self.bootstrap_progress = 50;
        } else if self.bootstrap_progress <= 70 {
            self.bootstrap_progress = 80;
        } else if self.bootstrap_progress <= 99 {
            self.bootstrap_progress = 100;
            self.status = TorStatus::Ready;
        }
    }

    /// Stops the service: every circuit is closed and dropped.
    pub fn stop(&mut self) -> (r: Result<()>)
        ensures
            r is Ok,
            final(self).status == TorStatus::Stopped,
            old(self).status == TorStatus::Stopped ==> final(self).bootstrap_progress == old(self).bootstrap_progress
                && final(self).circuits@.len() == old(self).circuits@.len(),
            old(self).status != TorStatus::Stopped ==> final(self).bootstrap_progress == 0 && final(self).circuits@.len() == 0,
            final(self).stats == old(self).stats,
    {
        if self.status == TorStatus::Stopped {
            return Ok(());
        }
        self.circuits.clear();
        self.status = TorStatus::Stopped;
        self.bootstrap_progress = 0;
        Ok(())
    }

    /// Current state.
    pub fn get_status(&self) -> (r: TorStatus)
        ensures
            r == self.status,
    {
        self.status
    }

    /// Bootstrap progress in percent.
    pub fn get_bootstrap_progress(&self) -> (r: u8)
        ensures
            r == self.bootstrap_progress,
    {
        self.bootstrap_progress
    }

    /// Position of the circuit with id `circuit_id`.
    pub fn find_circuit(&self, circuit_id: u32) -> (r: Option<usize>)
        ensures
            r == (match circuit_index(self.circuits@, circuit_id) {
                Some(i) => Some(i as usize),
                None => None,
            }),
            r matches Some(i) ==> i < self.circuits@.len() && self.circuits@[i as int].circuit_id == circuit_id,
    {
        proof {
            lemma_circuit_index_range(self.circuits@, circuit_id);
        }
        let mut i: usize = 0;
        while i < self.circuits.len()
            invariant
                i <= self.circuits@.len(),
                circuit_index(self.circuits@.subrange(0, i as int), circuit_id) is None,
            decreases self.circuits@.len() - i,
        {
            proof {
                assert(self.circuits@.subrange(0, i as int + 1).drop_last() =~= self.circuits@.subrange(0, i as int));
            }
            if self.circuits[i].circuit_id == circuit_id {
                proof {
                    lemma_circuit_index_prefix(self.circuits@, circuit_id, i as int + 1);
                }
                return Some(i);
            }
            i = i + 1;
        }
        proof {
            assert(self.circuits@.subrange(0, i as int) =~= self.circuits@);
        }
        None
    }

    /// The circuit with id `circuit_id`.
    pub fn get_circuit(&self, circuit_id: u32) -> (r: Option<&TorCircuit>)
        ensures
            r is Some <==> circuit_index(self.circuits@, circuit_id) is Some,
            r matches Some(c) ==> c.circuit_id == circuit_id,
    {
        match self.find_circuit(circuit_id) {
            Some(i) => Some(&self.circuits[i]),
            None => None,
        }
    }

    /// The circuit with id `circuit_id`, for changes, if there is one.
    pub fn get_circuit_mut(&mut self, circuit_id: u32) -> (r: Option<&mut TorCircuit>)
        ensures
            (r is Some) == (circuit_index(old(self).circuits@, circuit_id) is Some),
            r matches Some(c) ==> {
                let i = circuit_index(old(self).circuits@, circuit_id)->0;
                &&& 0 <= i < old(self).circuits@.len()
                &&& *c == old(self).circuits@[i]
                &&& c.circuit_id == circuit_id
                &&& final(self).circuits@ == old(self).circuits@.update(i, *final(c))
            },
            r is None ==> final(self).circuits@ == old(self).circuits@,
            final(self).config == old(self).config,
            final(self).status == old(self).status,
            final(self).bootstrap_progress == old(self).bootstrap_progress,
            final(self).error_message == old(self).error_message,
            final(self).stats == old(self).stats,
    {
        proof {
            lemma_circuit_index_range(self.circuits@, circuit_id);
        }
        assert(self.circuits@.len() == self.circuits.len());
        match self.find_circuit(circuit_id) {
            Some(i) => {
                let c = slot(&mut self.circuits, i);
                Some(c)
            },
            None => None,
        }
    }

    /// The circuits.
    pub fn list_circuits(&self) -> (r: &Vec<TorCircuit>)
        ensures
            r@ == self.circuits@,
    {
        &self.circuits
    }

    /// The counters.
    pub fn get_stats(&self) -> (r: &TorStats)
        ensures
            *r == self.stats,
    {
        &self.stats
    }

    /// The last error, if any.
    pub fn get_error_message(&self) -> (r: Option<&'static str>)
        ensures
            r == self.error_message,
    {
        self.error_message
    }

    fn set_circuit_state(&mut self, i: usize, state: CircuitState)
        requires
            i < old(self).circuits@.len(),
        ensures
            final(self).circuits@ == old(self).circuits@.update(i as int, TorCircuit {
                state,
                ..old(self).circuits@[i as int]
            }),
            final(self).config == old(self).config,
            final(self).status == old(self).status,
            final(self).stats == old(self).stats,
            final(self).bootstrap_progress == old(self).bootstrap_progress,
            final(self).error_message == old(self).error_message,
    {
        let mut c = self.circuits.remove(i);
        c.state = state;
        self.circuits.insert(i, c);
        assert(self.circuits@ =~= old(self).circuits@.update(i as int, TorCircuit {
            state,
            ..old(self).circuits@[i as int]
        }));
    }

    /// A three-hop path: the first configured guard (or the default one), the
    /// default middle relay, the first configured exit (or the default one).
    fn build_circuit_path(&self, purpose: CircuitPurpose) -> (r: Vec<TorNode>)
        ensures
            r@ == circuit_path(self.config),
    {
        let guard = if self.config.entry_guards.len() > 0 {
            self.config.entry_guards[0]
        } else {
            TorNode { fingerprint: [1u8, 1, 1, 1, 1, 1, 1, 1, 1, 1, 1, 1, 1, 1, 1, 1, 1, 1, 1, 1], ip: Ipv4Addr([198, 96, 155, 3]), port: 9001, nickname: "guard1",
                flags: TorNodeFlags { is_exit: false, is_guard: true, is_stable: true, is_fast: true, is_valid: true } }
        };
        let middle = TorNode { fingerprint: [2u8, 2, 2, 2, 2, 2, 2, 2, 2, 2, 2, 2, 2, 2, 2, 2, 2, 2, 2, 2], ip: Ipv4Addr([185, 220, 101, 7]), port: 9001, nickname: "middle1",
            flags: TorNodeFlags { is_exit: false, is_guard: false, is_stable: true, is_fast: true, is_valid: true } };
        let exit = if self.config.exit_nodes.len() > 0 {
            self.config.exit_nodes[0]
        } else {
            TorNode { fingerprint: [3u8, 3, 3, 3, 3, 3, 3, 3, 3, 3, 3, 3, 3, 3, 3, 3, 3, 3, 3, 3], ip: Ipv4Addr([95, 216, 173, 108]), port: 9001, nickname: "exit1",
                flags: TorNodeFlags { is_exit: true, is_guard: false, is_stable: true, is_fast: true, is_valid: true } }
        };
        let mut v: Vec<TorNode> = Vec::new();
        v.push(guard);
        v.push(middle);
        v.push(exit);
        assert(v@ =~= circuit_path(self.config));
        v
    }

    /// Builds a circuit when the service is operational: its id is one more
    /// than the number of circuits, its hops the configured path, and the
    /// first circuit with that id is opened.
    pub fn create_circuit(&mut self, purpose: CircuitPurpose) -> (r: Result<u32>)
        requires
            old(self).circuits@.len() < u32::MAX,
            old(self).stats.circuits_created < u32::MAX,
        ensures
            !old(self).status.is_operational_spec() ==> r == Err::<u32, IronVeilError>(IronVeilError::TorNotAvailable)
                && *final(self) == *old(self),
            old(self).status.is_operational_spec() ==> r == Ok::<u32, IronVeilError>((old(self).circuits@.len() + 1) as u32)
                && final(self).circuits@.len() == old(self).circuits@.len() + 1
                && final(self).stats.circuits_created == old(self).stats.circuits_created + 1,
            r matches Ok(id) ==> {
                let n = old(self).circuits@.len() as int;
                let j = circuit_index(final(self).circuits@, id)->0;
                let c = final(self).circuits@[n];
                &&& circuit_index(final(self).circuits@, id) is Some
                &&& final(self).circuits@[j].state == CircuitState::Open
                &&& forall|k: int| 0 <= k < n && k != j ==> #[trigger] final(self).circuits@[k] == old(self).circuits@[k]
                &&& (j < n ==> final(self).circuits@[j].circuit_id == old(self).circuits@[j].circuit_id
                    && final(self).circuits@[j].purpose == old(self).circuits@[j].purpose
                    && final(self).circuits@[j].bytes_sent == old(self).circuits@[j].bytes_sent)
                &&& c.circuit_id == id && c.purpose == purpose && c.hops@ == circuit_path(old(self).config)
                &&& c.created_time == 0 && c.bytes_sent == 0 && c.bytes_received == 0
                &&& c.state == (if j == n { CircuitState::Open } else { CircuitState::Building })
            },
            final(self).status == old(self).status,
            final(self).config == old(self).config,
            final(self).stats.bytes_sent == old(self).stats.bytes_sent,
            final(self).stats.connections_made == old(self).stats.connections_made,
    {
        if !self.status.is_operational() {
            return Err(IronVeilError::TorNotAvailable);
        }
        let circuit_id = (self.circuits.len() + 1) as u32;
        let hops = self.build_circuit_path(purpose);
        let circuit = TorCircuit {
            circuit_id,
            hops,
            state: CircuitState::Building,
            purpose,
            created_time: 0,
            bytes_sent: 0,
            bytes_received: 0,
        };
        self.circuits.push(circuit);
        self.stats.circuits_created = self.stats.circuits_created + 1;
        let ghost pushed = self.circuits@;
        proof {
            let last = pushed.len() - 1;
            assert(pushed[last].circuit_id == circuit_id);
            lemma_circuit_index_ids(pushed, circuit_id);
            lemma_circuit_index_range(pushed, circuit_id);
        }
        match self.find_circuit(circuit_id) {
            Some(i) => {
                self.set_circuit_state(i, CircuitState::Open);
                proof {
                    lemma_circuit_index_same_ids(pushed, self.circuits@, circuit_id);
                }
            },
            None => {},
        }
        Ok(circuit_id)
    }
}

impl TorService {
    /// Index of the first open general-purpose circuit.
    fn find_open_general(&self) -> (r: Option<usize>)
        ensures
            r == (match first_open_general(self.circuits@) {
                Some(i) => Some(i as usize),
                None => None,
            }),
    {
        proof {
            lemma_first_open_general_range(self.circuits@);
        }
        let mut i: usize = 0;
        while i < self.circuits.len()
            invariant
                i <= self.circuits@.len(),
                first_open_general(self.circuits@.subrange(0, i as int)) is None,
            decreases self.circuits@.len() - i,
        {
            proof {
                assert(self.circuits@.subrange(0, i as int + 1).drop_last() =~= self.circuits@.subrange(0, i as int));
            }
            if self.circuits[i].purpose == CircuitPurpose::General && self.circuits[i].state == CircuitState::Open {
                proof {
                    lemma_first_open_general_prefix(self.circuits@, i as int + 1);
                }
                return Some(i);
            }
            i = i + 1;
        }
        proof {
            assert(self.circuits@.subrange(0, i as int) =~= self.circuits@);
        }
        None
    }

    /// Routes a connection through the first open general circuit (building
    /// one if there is none); each routed connection is counted with 1024
    /// bytes sent on that circuit.
    pub fn route_connection(&mut self, destination: Ipv4Addr, port: u16) -> (r: Result<()>)
        requires
            route_room(*old(self)),
        ensures
            !old(self).status.is_ready_spec() ==> r == Err::<(), IronVeilError>(IronVeilError::TorNotAvailable)
                && final(self).stats == old(self).stats && final(self).circuits@ == old(self).circuits@,
            old(self).status.is_ready_spec() ==> r is Ok
                && final(self).stats.connections_made == old(self).stats.connections_made + 1
                && final(self).stats.bytes_sent == old(self).stats.bytes_sent + 1024,
            old(self).status.is_ready_spec() ==> (match first_open_general(old(self).circuits@) {
                Some(i) => final(self).circuits@ == old(self).circuits@.update(i, TorCircuit {
                    bytes_sent: (old(self).circuits@[i].bytes_sent + 1024) as u64,
                    ..old(self).circuits@[i]
                }),
                None => final(self).circuits@.len() == old(self).circuits@.len() + 1
                    && final(self).stats.circuits_created == old(self).stats.circuits_created + 1,
            }),
            final(self).status == old(self).status,
    {
        if !self.status.is_ready() {
            return Err(IronVeilError::TorNotAvailable);
        }
        let ghost before = self.circuits@;
        let idx = match self.find_open_general() {
            Some(i) => {
                proof {
                    lemma_first_open_general_range(before);
                }
                i
            },
            None => {
                let id = self.create_circuit(CircuitPurpose::General)?;
                proof {
                    lemma_circuit_index_range(self.circuits@, id);
                }
                match self.find_circuit(id) {
                    Some(i) => i,
                    None => {
                        return Err(IronVeilError::OperationFailed);
                    },
                }
            },
        };
        let ghost mid = self.circuits@;
        if self.circuits[idx].state != CircuitState::Open {
            return Err(IronVeilError::OperationFailed);
        }
        if self.circuits[idx].bytes_sent > u64::MAX - 1024 || self.stats.bytes_sent > u64::MAX - 1024
            || self.stats.connections_made == u32::MAX {
            return Err(IronVeilError::OperationFailed);
        }
        let mut c = self.circuits.remove(idx);
        c.bytes_sent = c.bytes_sent + 1024;
        self.circuits.insert(idx, c);
        proof {
            assert(self.circuits@ =~= mid.update(idx as int, TorCircuit {
                bytes_sent: (mid[idx as int].bytes_sent + 1024) as u64,
                ..mid[idx as int]
            }));
        }
        self.stats.bytes_sent = self.stats.bytes_sent + 1024;
        self.stats.connections_made = self.stats.connections_made + 1;
        Ok(())
    }
}

/// Creating, inspecting and closing circuits by id.
pub struct TorCircuitManager {
    pub circuits: Vec<TorCircuit>,
    pub next_circuit_id: u32,
}

impl TorCircuitManager {
    /// No circuits; ids from 1.
    pub fn new() -> (r: Self)
        ensures
            r.circuits@.len() == 0,
            r.next_circuit_id == 1,
    {
        TorCircuitManager { circuits: Vec::new(), next_circuit_id: 1 }
    }

    /// Adds a building circuit over `hops` and returns its id.
    pub fn create_circuit(&mut self, hops: Vec<TorNode>, purpose: CircuitPurpose) -> (r: u32)
        requires
            old(self).next_circuit_id < u32::MAX,
        ensures
            r == old(self).next_circuit_id,
            final(self).next_circuit_id == old(self).next_circuit_id + 1,
            final(self).circuits@.len() == old(self).circuits@.len() + 1,
            final(self).circuits@.last().circuit_id == r,
            final(self).circuits@.last().state == CircuitState::Building,
            final(self).circuits@.last().purpose == purpose,
            final(self).circuits@.last().hops@ == hops@,
            forall|k: int| 0 <= k < old(self).circuits@.len() ==> final(self).circuits@[k] == old(self).circuits@[k],
    {
        let circuit_id = self.next_circuit_id;
        self.next_circuit_id = self.next_circuit_id + 1;
        let circuit = TorCircuit { circuit_id, hops, state: CircuitState::Building, purpose, created_time: 0, bytes_sent: 0, bytes_received: 0 };
        self.circuits.push(circuit);
        circuit_id
    }

    /// The circuit with id `circuit_id`.
    pub fn get_circuit(&self, circuit_id: u32) -> (r: Option<&TorCircuit>)
        ensures
            r is Some <==> circuit_index(self.circuits@, circuit_id) is Some,
            r matches Some(c) ==> c.circuit_id == circuit_id,
    {
        proof {
            lemma_circuit_index_range(self.circuits@, circuit_id);
        }
        let mut i: usize = 0;
        while i < self.circuits.len()
            invariant
                i <= self.circuits@.len(),
                circuit_index(self.circuits@.subrange(0, i as int), circuit_id) is None,
            decreases self.circuits@.len() - i,
        {
            proof {
                assert(self.circuits@.subrange(0, i as int + 1).drop_last() =~= self.circuits@.subrange(0, i as int));
            }
            if self.circuits[i].circuit_id == circuit_id {
                proof {
                    lemma_circuit_index_prefix(self.circuits@, circuit_id, i as int + 1);
                }
                return Some(&self.circuits[i]);
            }
            i = i + 1;
        }
        proof {
            assert(self.circuits@.subrange(0, i as int) =~= self.circuits@);
        }
        None
    }

    /// Marks the first circuit with id `circuit_id` closed.
    pub fn close_circuit(&mut self, circuit_id: u32)
        ensures
            final(self).circuits@.len() == old(self).circuits@.len(),
            final(self).next_circuit_id == old(self).next_circuit_id,
            circuit_index(old(self).circuits@, circuit_id) matches Some(i) ==> final(self).circuits@[i].state == CircuitState::Closed,
            circuit_index(old(self).circuits@, circuit_id) is None ==> final(self).circuits@ == old(self).circuits@,
    {
        proof {
            lemma_circuit_index_range(self.circuits@, circuit_id);
        }
        let mut i: usize = 0;
        while i < self.circuits.len()
            invariant
                i <= self.circuits@.len(),
                self.circuits@ == old(self).circuits@,
                self.next_circuit_id == old(self).next_circuit_id,
                circuit_index(self.circuits@.subrange(0, i as int), circuit_id) is None,
            decreases self.circuits@.len() - i,
        {
            proof {
                assert(self.circuits@.subrange(0, i as int + 1).drop_last() =~= self.circuits@.subrange(0, i as int));
            }
            if self.circuits[i].circuit_id == circuit_id {
                proof {
                    lemma_circuit_index_prefix(self.circuits@, circuit_id, i as int + 1);
                }
                let mut c = self.circuits.remove(i);
                c.state = CircuitState::Closed;
                self.circuits.insert(i, c);
                return;
            }
            i = i + 1;
        }
        proof {
            assert(self.circuits@.subrange(0, i as int) =~= self.circuits@);
        }
    }

    /// Drops the closed circuits, keeping the order of the others.
    pub fn cleanup_closed_circuits(&mut self)
        ensures
            final(self).next_circuit_id == old(self).next_circuit_id,
            final(self).circuits@ == not_closed(old(self).circuits@),
            forall|k: int| 0 <= k < final(self).circuits@.len() ==> (#[trigger] final(self).circuits@[k]).state != CircuitState::Closed,
            final(self).circuits@.len() <= old(self).circuits@.len(),
    {
        let ghost orig = self.circuits@;
        let mut kept: Vec<TorCircuit> = Vec::new();
        let n = self.circuits.len();
        let mut i: usize = 0;
        proof {
            assert(orig.skip(0) =~= orig);
            assert(orig.take(0) =~= Seq::<TorCircuit>::empty());
        }
        while i < n
            invariant
                i <= n,
                n == orig.len(),
                orig == old(self).circuits@,
                self.circuits@ == orig.skip(i as int),
                kept@ == not_closed(orig.take(i as int)),
                kept@.len() <= i,
                self.next_circuit_id == old(self).next_circuit_id,
                forall|k: int| 0 <= k < kept@.len() ==> (#[trigger] kept@[k]).state != CircuitState::Closed,
            decreases n - i,
        {
            proof {
                assert(orig.take(i as int + 1).drop_last() =~= orig.take(i as int));
                assert(orig.skip(i as int)[0] == orig[i as int]);
                assert(orig.skip(i as int).drop_first() =~= orig.skip(i as int + 1));
            }
            let c = self.circuits.remove(0);
            if c.state != CircuitState::Closed {
                kept.push(c);
            }
            proof {
                let t = orig.take(i as int + 1);
                assert(t.last() == orig[i as int]);
                assert(c == orig[i as int]);
                assert(t.len() == i + 1);
                reveal_with_fuel(Seq::filter, 1);
                assert(not_closed(t) == (if t.last().state != CircuitState::Closed {
                    not_closed(t.drop_last()).push(t.last())
                } else {
                    not_closed(t.drop_last())
                }));
            }
            i = i + 1;
        }
        proof {
            assert(orig.take(n as int) =~= orig);
        }
        self.circuits = kept;
    }
}

/// The circuits that are not closed, in their order.
pub open spec fn not_closed(s: Seq<TorCircuit>) -> Seq<TorCircuit> {
    s.filter(|c: TorCircuit| c.state != CircuitState::Closed)
}

/// Sets up the circuit manager.
pub fn init_tor_circuit_manager(m: &mut Option<TorCircuitManager>) -> (r: Result<()>)
    ensures
        r is Ok,
        *final(m) matches Some(x) && x.circuits@.len() == 0 && x.next_circuit_id == 1,
{
    *m = Some(TorCircuitManager::new());
    Ok(())
}

/// Controlling a Tor service.
pub trait TorIntegration {
    /// There is room to route a connection and build a circuit.
    spec fn tor_room(&self) -> bool;

    fn start_tor_daemon(&mut self) -> Result<()>;

    fn stop_tor_daemon(&mut self) -> Result<()>;

    fn get_tor_status(&self) -> TorStatus;

    fn route_through_tor(&mut self, destination: Ipv4Addr, port: u16) -> Result<()>
        requires
            old(self).tor_room(),
    ;

    fn create_tor_circuit(&mut self, purpose: CircuitPurpose) -> Result<u32>
        requires
            old(self).tor_room(),
    ;

    fn get_bootstrap_progress(&self) -> u8;
}

impl TorIntegration for TorService {
    open spec fn tor_room(&self) -> bool {
        route_room(*self)
    }

    /// Starts a stopped service (see `start`).
    fn start_tor_daemon(&mut self) -> (r: Result<()>)
        ensures
            old(self).status != TorStatus::Stopped ==> r == Err::<(), IronVeilError>(IronVeilError::OperationFailed)
                && *final(self) == *old(self),
            old(self).status == TorStatus::Stopped ==> r is Ok && final(self).status == TorStatus::Bootstrapping
                && final(self).bootstrap_progress == 25 && final(self).error_message is None,
            final(self).circuits@ == old(self).circuits@,
            final(self).circuits@.len() == old(self).circuits@.len(),
            final(self).config == old(self).config,
            final(self).stats == old(self).stats,
    {
        self.start()
    }

    /// Stops the service (see `stop`).
    fn stop_tor_daemon(&mut self) -> (r: Result<()>)
        ensures
            r is Ok,
            final(self).status == TorStatus::Stopped,
            old(self).status == TorStatus::Stopped ==> final(self).bootstrap_progress == old(self).bootstrap_progress
                && final(self).circuits@.len() == old(self).circuits@.len(),
            old(self).status != TorStatus::Stopped ==> final(self).bootstrap_progress == 0 && final(self).circuits@.len() == 0,
            final(self).stats == old(self).stats,
    {
        self.stop()
    }

    /// The service's status.
    fn get_tor_status(&self) -> (r: TorStatus)
        ensures
            r == self.status,
    {
        self.get_status()
    }

    /// Routes through the service: it succeeds exactly when the service is
    /// ready.
    fn route_through_tor(&mut self, destination: Ipv4Addr, port: u16) -> (r: Result<()>)
        ensures
            (r is Ok) == old(self).status.is_ready_spec(),
    {
        self.route_connection(destination, port)
    }

    /// Builds a circuit: it succeeds exactly when the service is
    /// operational, with the next circuit id.
    fn create_tor_circuit(&mut self, purpose: CircuitPurpose) -> (r: Result<u32>)
        ensures
            (r is Ok) == old(self).status.is_operational_spec(),
            r matches Ok(id) ==> id == old(self).circuits@.len() + 1,
    {
        self.create_circuit(purpose)
    }

    /// Bootstrap progress in percent.
    fn get_bootstrap_progress(&self) -> (r: u8)
        ensures
            r == self.bootstrap_progress,
    {
        self.bootstrap_progress
    }
}

proof fn lemma_circuit_index_last(s: Seq<TorCircuit>, id: u32)
    requires
        s.len() > 0,
        s.last().circuit_id == id,
    ensures
        circuit_index(s, id) is Some,
{
}

proof fn lemma_circuit_index_ids(s: Seq<TorCircuit>, id: u32)
    requires
        exists|k: int| 0 <= k < s.len() && s[k].circuit_id == id,
    ensures
        circuit_index(s, id) is Some,
    decreases s.len(),
{
    let k = choose|k: int| 0 <= k < s.len() && s[k].circuit_id == id;
    if k < s.len() - 1 {
        assert(s.drop_last()[k].circuit_id == id);
        lemma_circuit_index_ids(s.drop_last(), id);
    }
}

proof fn lemma_circuit_index_same_ids(s: Seq<TorCircuit>, t: Seq<TorCircuit>, id: u32)
    requires
        s.len() == t.len(),
        forall|k: int| 0 <= k < s.len() ==> #[trigger] s[k].circuit_id == t[k].circuit_id,
    ensures
        circuit_index(s, id) == circuit_index(t, id),
    decreases s.len(),
{
    if s.len() > 0 {
        lemma_circuit_index_same_ids(s.drop_last(), t.drop_last(), id);
    }
}

impl TorStatus {
    /// Able to carry connections.
    pub open spec fn is_ready_spec(&self) -> bool {
        *self == TorStatus::Ready || *self == TorStatus::Running
    }

    /// Able to build circuits.
    pub open spec fn is_operational_spec(&self) -> bool {
        *self == TorStatus::Running || *self == TorStatus::Ready || *self == TorStatus::CircuitBuilding
    }
}

impl TorStats {
    /// All counters zero.
    pub open spec fn default_value() -> TorStats {
        TorStats { circuits_created: 0, circuits_failed: 0, bytes_sent: 0, bytes_received: 0, connections_made: 0, uptime_seconds: 0 }
    }
}

} // verus!
