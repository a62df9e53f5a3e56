use minknow_client::{
    FlowCellPositionInfo, FlowCellPositionsResponse, MockFlowCellPosition, MockManagerServer,
    MockMinKNOWManager, NotificationState, PortCounter, PositionState,
    collect_flow_cell_positions, get_available_port, wait_for_finished_state_code,
};

#[test]
fn flow_cell_positions() {
    let flow_cell_position_name_1 = "MN12345".to_string();
    let flow_cell_position_name_2 = "MN54678".to_string();
    let mut ports = PortCounter::new();

    let flow_cell_position_1 = MockFlowCellPosition {
        name: flow_cell_position_name_1.clone(),
        state: PositionState::Running,
        protocol_server_port: get_available_port(&mut ports),
        total_pore_count: 300,
    };

    let flow_cell_position_2 = MockFlowCellPosition {
        name: flow_cell_position_name_2.clone(),
        state: PositionState::Initialising,
        protocol_server_port: get_available_port(&mut ports),
        total_pore_count: 300,
    };

    let manager = MockMinKNOWManager {
        mock_flow_cell_positions: vec![flow_cell_position_1, flow_cell_position_2],
    };

    let response = manager.flow_cell_positions();

    assert_eq!(response.total_count, 2);

    let received_flow_cell_position_1 = &response.positions[0];
    assert_eq!(received_flow_cell_position_1.name, flow_cell_position_name_1);

    let received_flow_cell_position_2 = &response.positions[1];
    assert_eq!(received_flow_cell_position_2.name, flow_cell_position_name_2);
}

#[test]
fn mock_positions_carry_state_codes_and_no_ports() {
    let manager = MockMinKNOWManager {
        mock_flow_cell_positions: vec![
            MockFlowCellPosition {
                name: "MN00001".to_string(),
                state: PositionState::Running,
                protocol_server_port: 0,
                total_pore_count: 0,
            },
            MockFlowCellPosition {
                name: "MN00002".to_string(),
                state: PositionState::HardwareError,
                protocol_server_port: 0,
                total_pore_count: 0,
            },
        ],
    };
    let response = manager.flow_cell_positions();
    assert_eq!(response.positions[0].state, 1);
    assert_eq!(response.positions[1].state, 4);
    assert!(response.positions.iter().all(|p| p.rpc_ports.is_none()));
}

#[test]
fn mock_manager_with_no_positions_reports_zero() {
    let manager = MockMinKNOWManager { mock_flow_cell_positions: Vec::new() };
    let response = manager.flow_cell_positions();
    assert_eq!(response.total_count, 0);
    assert!(response.positions.is_empty());
}

#[test]
fn describe_host_answers_with_defaults() {
    let manager = MockMinKNOWManager { mock_flow_cell_positions: Vec::new() };
    let response = manager.describe_host();
    assert_eq!(response.can_sequence_offline, false);
    assert_eq!(response.description, "");
    assert_eq!(response.network_name, "");
    assert_eq!(response.serial, "");
    assert_eq!(response.product_code, "");
    assert_eq!(response.needs_association, false);
}

#[test]
fn local_auth_token_path_is_fixed() {
    let manager = MockMinKNOWManager { mock_flow_cell_positions: Vec::new() };
    assert_eq!(
        manager.local_authentication_token_path(),
        "mock_fixtures/auth.json"
    );
}

#[test]
fn wait_state_defaults_to_notify_on_termination() {
    assert_eq!(wait_for_finished_state_code(None), 0);
    assert_eq!(
        wait_for_finished_state_code(Some(NotificationState::NotifyOnTermination)),
        0
    );
    assert_eq!(
        wait_for_finished_state_code(Some(NotificationState::NotifyBeforeTermination)),
        1
    );
    assert_eq!(
        wait_for_finished_state_code(Some(NotificationState::NotifyOnFinish)),
        2
    );
}

#[test]
fn ports_are_handed_out_in_sequence() {
    let mut ports = PortCounter::new();
    assert_eq!(get_available_port(&mut ports), 9600);
    assert_eq!(get_available_port(&mut ports), 9601);
    assert_eq!(get_available_port(&mut ports), 9602);
}

#[test]
fn mock_server_takes_the_next_port() {
    let mut ports = PortCounter::new();
    let first = MockManagerServer::new(Vec::new(), &mut ports);
    let second = MockManagerServer::new(Vec::new(), &mut ports);
    assert_eq!(first.port, 9600);
    assert_eq!(second.port, 9601);
    assert_ne!(first.port, second.port);
}

#[test]
fn collect_flattens_chunks_and_tags_host_and_token() {
    let chunk_1 = FlowCellPositionsResponse {
        total_count: 3,
        positions: vec![
            FlowCellPositionInfo { name: "a".to_string(), state: 1, rpc_ports: None },
            FlowCellPositionInfo { name: "b".to_string(), state: 0, rpc_ports: None },
        ],
    };
    let chunk_2 = FlowCellPositionsResponse {
        total_count: 3,
        positions: vec![FlowCellPositionInfo {
            name: "c".to_string(),
            state: 1,
            rpc_ports: None,
        }],
    };
    let host = "localhost".to_string();
    let token = Some("session".to_string());
    let positions = collect_flow_cell_positions(&vec![chunk_1, chunk_2], &host, &token);
    assert_eq!(positions.len(), 3);
    let names: Vec<&str> = positions.iter().map(|p| p.description.name.as_str()).collect();
    assert_eq!(names, vec!["a", "b", "c"]);
    for position in &positions {
        assert_eq!(position.host().as_str(), "localhost");
        assert_eq!(position.inherited_token(), &Some("session".to_string()));
    }
}

#[test]
fn collect_of_no_chunks_is_empty() {
    let positions = collect_flow_cell_positions(&Vec::new(), &"localhost".to_string(), &None);
    assert!(positions.is_empty());
}
