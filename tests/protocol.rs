use goalstate_ready::error::{AppError, Operation};
use goalstate_ready::protocol::{
    check_status, goal_state_request, goal_state_response, health_request, health_response, Method,
    WIRESERVER,
};

#[test]
fn goal_state_request_shape() {
    let r = goal_state_request(WIRESERVER);
    assert_eq!(r.method, Method::Get);
    assert_eq!(r.url, "http://168.63.129.16/machine?comp=goalstate");
    assert_eq!(r.headers, vec!["x-ms-version: 2012-11-30".to_string()]);
    assert!(r.body.is_empty());
}

#[test]
fn health_request_shape() {
    let r = health_request("http://localhost:8080", vec![1, 2, 3]);
    assert_eq!(r.method, Method::Post);
    assert_eq!(r.url, "http://localhost:8080/machine?comp=health");
    assert_eq!(
        r.headers,
        vec![
            "x-ms-version: 2012-11-30".to_string(),
            "x-ms-agent-name: custom-provisioning".to_string(),
            "content-type: text/xml; charset=utf-8".to_string(),
        ]
    );
    assert_eq!(r.body, vec![1, 2, 3]);
}

#[test]
fn status_200_returns_the_body() {
    assert_eq!(goal_state_response(200, b"<x/>".to_vec()).unwrap(), b"<x/>".to_vec());
    assert!(health_response(200).is_ok());
}

#[test]
fn other_statuses_are_protocol_errors() {
    match goal_state_response(500, b"oops".to_vec()) {
        Err(AppError::Protocol { operation, status }) => {
            assert_eq!(operation, Operation::FetchGoalState);
            assert_eq!(status, 500);
        }
        other => panic!("unexpected {:?}", other),
    }
    match health_response(404) {
        Err(AppError::Protocol { operation, status }) => {
            assert_eq!(operation, Operation::ReportReady);
            assert_eq!(status, 404);
        }
        other => panic!("unexpected {:?}", other),
    }
    assert!(matches!(check_status(Operation::ReportReady, 201), Err(AppError::Protocol { status: 201, .. })));
}
