use vstd::prelude::*;

use crate::messages::{DescribeHostResponse, FlowCellPositionInfo, FlowCellPositionsResponse};

verus! {

/// The state a flow cell position reports, mirroring the manager
/// protocol's state codes.
#[derive(Clone, Copy, Debug, PartialEq, Eq, Structural, Default)]
pub enum PositionState {
    #[default]
    Initialising,
    Running,
    Resetting,
    HardwareRemoved,
    HardwareError,
    SoftwareError,
}

/// The wire code of a position state.
pub open spec fn state_code(s: PositionState) -> i32 {
    match s {
        PositionState::Initialising => 0,
        PositionState::Running => 1,
        PositionState::Resetting => 2,
        PositionState::HardwareRemoved => 3,
        PositionState::HardwareError => 4,
        PositionState::SoftwareError => 5,
    }
}

impl PositionState {
    /// This state's wire code.
    pub fn code(&self) -> (r: i32)
        ensures
            r == state_code(*self),
    {
        match self {
            PositionState::Initialising => 0,
            PositionState::Running => 1,
            PositionState::Resetting => 2,
            PositionState::HardwareRemoved => 3,
            PositionState::HardwareError => 4,
            PositionState::SoftwareError => 5,
        }
    }
}

/// The mathematical value of a [`MockFlowCellPosition`].
pub ghost struct MockFlowCellPositionView {
    pub name: Seq<char>,
    pub state: PositionState,
    pub protocol_server_port: u32,
    pub total_pore_count: u32,
}

/// One simulated flow cell position a mock manager serves.
#[derive(Debug, Default)]
pub struct MockFlowCellPosition {
    pub name: String,
    pub state: PositionState,
    pub protocol_server_port: u32,
    pub total_pore_count: u32,
}

impl View for MockFlowCellPosition {
    type V = MockFlowCellPositionView;

    open spec fn view(&self) -> MockFlowCellPositionView {
        MockFlowCellPositionView {
            name: self.name@,
            state: self.state,
            protocol_server_port: self.protocol_server_port,
            total_pore_count: self.total_pore_count,
        }
    }
}

impl Clone for MockFlowCellPosition {
    fn clone(&self) -> (res: Self)
        ensures
            res == *self,
    {
        MockFlowCellPosition {
            name: self.name.clone(),
            state: self.state,
            protocol_server_port: self.protocol_server_port,
            total_pore_count: self.total_pore_count,
        }
    }
}

/// An in-memory stand-in for the manager service: it answers the requests
/// this client makes from a fixed list of simulated positions.
#[derive(Debug, Default)]
pub struct MockMinKNOWManager {
    pub mock_flow_cell_positions: Vec<MockFlowCellPosition>,
}

impl MockMinKNOWManager {
    /// Describe the mock host: every field of the answer is defaulted.
    pub fn describe_host(&self) -> (r: DescribeHostResponse)
        ensures
            r@.can_sequence_offline == false,
            r@.description == Seq::<char>::empty(),
            r@.network_name == Seq::<char>::empty(),
            r@.serial == Seq::<char>::empty(),
            r@.product_code == Seq::<char>::empty(),
            r@.needs_association == false,
    {
        DescribeHostResponse {
            can_sequence_offline: false,
            description: String::new(),
            network_name: String::new(),
            serial: String::new(),
            product_code: String::new(),
            needs_association: false,
        }
    }

    /// List the mock positions as one response chunk: every position in
    /// order, each reduced to its name and state code with no RPC ports of
    /// its own, and the total count alongside.
    pub fn flow_cell_positions(&self) -> (r: FlowCellPositionsResponse)
        requires
            self.mock_flow_cell_positions@.len() <= 0x7fff_ffff,
        ensures
            r@.total_count == self.mock_flow_cell_positions@.len() as i32,
            r@.positions.len() == self.mock_flow_cell_positions@.len(),
            forall|k: int|
                0 <= k < r@.positions.len() ==> {
                    &&& (#[trigger] r@.positions[k]).name == self.mock_flow_cell_positions@[k]@.name
                    &&& r@.positions[k].state == state_code(self.mock_flow_cell_positions@[k]@.state)
                    &&& r@.positions[k].rpc_ports is None
                },
    {
        let mut positions: Vec<FlowCellPositionInfo> = Vec::new();
        let mut i: usize = 0;
        while i < self.mock_flow_cell_positions.len()
            invariant
                i <= self.mock_flow_cell_positions@.len(),
                positions@.len() == i,
                forall|k: int|
                    0 <= k < i ==> {
                        &&& (#[trigger] positions@[k])@.name
                            == self.mock_flow_cell_positions@[k]@.name
                        &&& positions@[k]@.state == state_code(
                            self.mock_flow_cell_positions@[k]@.state,
                        )
                        &&& positions@[k]@.rpc_ports is None
                    },
            decreases self.mock_flow_cell_positions@.len() - i,
        {
            let position = &self.mock_flow_cell_positions[i];
            positions.push(
                FlowCellPositionInfo {
                    name: position.name.clone(),
                    state: position.state.code(),
                    rpc_ports: None,
                },
            );
            i = i + 1;
        }
        let total_count: i32 = positions.len() as i32;
        FlowCellPositionsResponse { total_count, positions }
    }

    /// The filesystem path where the mock deployment keeps its local auth
    /// token.
    pub fn local_authentication_token_path(&self) -> (r: String)
        ensures
            r@ == "mock_fixtures/auth.json"@,
    {
        "mock_fixtures/auth.json".to_owned()
    }
}

/// Explicit test-fixture state for handing out listen ports, one at a
/// time, so concurrently running mock servers never share a port.
#[derive(Debug)]
pub struct PortCounter {
    pub next_port: u32,
}

impl PortCounter {
    /// Start the counter at the first port of the mock servers' range.
    pub fn new() -> (r: PortCounter)
        ensures
            r.next_port == 9600,
    {
        PortCounter { next_port: 9600 }
    }
}

/// Hand out the next free port and advance the counter.
pub fn get_available_port(counter: &mut PortCounter) -> (r: u32)
    requires
        old(counter).next_port < u32::MAX,
    ensures
        r == old(counter).next_port,
        final(counter).next_port == old(counter).next_port + 1,
{
    let port = counter.next_port;
    counter.next_port = counter.next_port + 1;
    port
}

/// A mock manager server: the port it will listen on and the positions it
/// will serve. Actually listening is TLS and network work that lives with
/// the code that runs servers; this holds the data they serve.
#[derive(Debug)]
pub struct MockManagerServer {
    pub port: u32,
    pub mock_flow_cell_positions: Vec<MockFlowCellPosition>,
}

impl MockManagerServer {
    /// Set up a mock server on the next free port, serving the given
    /// positions.
    pub fn new(mock_flow_cell_positions: Vec<MockFlowCellPosition>, ports: &mut PortCounter) -> (r:
        MockManagerServer)
        requires
            old(ports).next_port < u32::MAX,
        ensures
            r.port == old(ports).next_port,
            final(ports).next_port == old(ports).next_port + 1,
            r.mock_flow_cell_positions == mock_flow_cell_positions,
    {
        let port = get_available_port(ports);
        MockManagerServer { port, mock_flow_cell_positions }
    }
}

} // verus!
