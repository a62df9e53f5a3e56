use vstd::prelude::*;

verus! {

/// The RPC ports a flow cell position listens on; the channel derivation
/// only ever reads the secure one.
#[derive(Clone, Copy, Debug, PartialEq, Eq, Structural)]
pub struct RpcPorts {
    pub secure: u32,
}

/// The mathematical value of a [`FlowCellPositionInfo`].
pub ghost struct FlowCellPositionInfoView {
    pub name: Seq<char>,
    pub state: i32,
    pub rpc_ports: Option<RpcPorts>,
}

/// What the manager reports about one flow cell position, reduced to the
/// fields this client reads: its name, its state code, and the ports its
/// own RPC server listens on (absent when the position has none running).
#[derive(Debug)]
pub struct FlowCellPositionInfo {
    pub name: String,
    pub state: i32,
    pub rpc_ports: Option<RpcPorts>,
}

impl View for FlowCellPositionInfo {
    type V = FlowCellPositionInfoView;

    open spec fn view(&self) -> FlowCellPositionInfoView {
        FlowCellPositionInfoView {
            name: self.name@,
            state: self.state,
            rpc_ports: self.rpc_ports,
        }
    }
}

impl Clone for FlowCellPositionInfo {
    fn clone(&self) -> (res: Self)
        ensures
            res == *self,
    {
        FlowCellPositionInfo {
            name: self.name.clone(),
            state: self.state,
            rpc_ports: self.rpc_ports,
        }
    }
}

/// The mathematical value of a [`DescribeHostResponse`].
pub ghost struct DescribeHostResponseView {
    pub can_sequence_offline: bool,
    pub description: Seq<char>,
    pub network_name: Seq<char>,
    pub serial: Seq<char>,
    pub product_code: Seq<char>,
    pub needs_association: bool,
}

/// What the manager reports about the machine running it.
#[derive(Debug)]
pub struct DescribeHostResponse {
    pub can_sequence_offline: bool,
    pub description: String,
    pub network_name: String,
    pub serial: String,
    pub product_code: String,
    pub needs_association: bool,
}

impl View for DescribeHostResponse {
    type V = DescribeHostResponseView;

    open spec fn view(&self) -> DescribeHostResponseView {
        DescribeHostResponseView {
            can_sequence_offline: self.can_sequence_offline,
            description: self.description@,
            network_name: self.network_name@,
            serial: self.serial@,
            product_code: self.product_code@,
            needs_association: self.needs_association,
        }
    }
}

/// The mathematical value of a [`FlowCellPositionsResponse`].
pub ghost struct FlowCellPositionsResponseView {
    pub total_count: i32,
    pub positions: Seq<FlowCellPositionInfoView>,
}

/// One streamed chunk of the manager's flow-cell-position listing.
#[derive(Debug)]
pub struct FlowCellPositionsResponse {
    pub total_count: i32,
    pub positions: Vec<FlowCellPositionInfo>,
}

/// The views of a sequence of position records.
pub open spec fn position_views(ps: Seq<FlowCellPositionInfo>) -> Seq<FlowCellPositionInfoView> {
    ps.map_values(|p: FlowCellPositionInfo| p@)
}

impl View for FlowCellPositionsResponse {
    type V = FlowCellPositionsResponseView;

    open spec fn view(&self) -> FlowCellPositionsResponseView {
        FlowCellPositionsResponseView {
            total_count: self.total_count,
            positions: position_views(self.positions@),
        }
    }
}

/// How waiting for a protocol run to finish should treat termination,
/// mirroring the protocol service's notification-state codes.
#[derive(Clone, Copy, Debug, PartialEq, Eq, Structural)]
pub enum NotificationState {
    NotifyOnTermination,
    NotifyBeforeTermination,
    NotifyOnFinish,
}

/// The wire code of a notification state.
pub open spec fn notification_state_code(s: NotificationState) -> i32 {
    match s {
        NotificationState::NotifyOnTermination => 0,
        NotificationState::NotifyBeforeTermination => 1,
        NotificationState::NotifyOnFinish => 2,
    }
}

impl NotificationState {
    /// This state's wire code.
    pub fn code(&self) -> (r: i32)
        ensures
            r == notification_state_code(*self),
    {
        match self {
            NotificationState::NotifyOnTermination => 0,
            NotificationState::NotifyBeforeTermination => 1,
            NotificationState::NotifyOnFinish => 2,
        }
    }
}

/// The wire code a wait-for-finished request carries for an optional
/// requested state: the requested state's own code, or — when none is
/// requested — notify-on-termination.
pub fn wait_for_finished_state_code(state: Option<NotificationState>) -> (r: i32)
    ensures
        r == (match state {
            Option::Some(s) => notification_state_code(s),
            Option::None => notification_state_code(NotificationState::NotifyOnTermination),
        }),
{
    match state {
        Option::Some(s) => s.code(),
        Option::None => NotificationState::NotifyOnTermination.code(),
    }
}

} // verus!
