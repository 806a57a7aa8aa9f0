//! The two exchanges with the metadata service: what is sent, and how the
//! service's answer is judged. Performing the requests is left to the caller.

use vstd::prelude::*;
use vstd::string::StringExecFns;
use crate::error::{AppError, Operation};

verus! {

/// The metadata service's address.
pub const WIRESERVER: &'static str = "http://168.63.129.16";

pub const GOAL_STATE_PATH: &'static str = "/machine?comp=goalstate";

pub const HEALTH_PATH: &'static str = "/machine?comp=health";

pub const VERSION_HEADER: &'static str = "x-ms-version: 2012-11-30";

pub const AGENT_HEADER: &'static str = "x-ms-agent-name: custom-provisioning";

pub const CONTENT_TYPE_HEADER: &'static str = "content-type: text/xml; charset=utf-8";

/// The only status the service answers a successful request with.
pub const HTTP_OK: u32 = 200;

#[derive(Debug, Clone, Copy, PartialEq, Eq, Structural)]
pub enum Method {
    Get,
    Post,
}

/// A request to the metadata service, each header written `name: value`.
#[derive(Debug)]
pub struct Request {
    pub method: Method,
    pub url: String,
    pub headers: Vec<String>,
    pub body: Vec<u8>,
}

pub open spec fn header_views(headers: Seq<String>) -> Seq<Seq<char>> {
    headers.map_values(|h: String| h@)
}

/// The request for the goal state: a GET of `{endpoint}/machine?comp=goalstate`
/// carrying the protocol version.
pub fn goal_state_request(endpoint: &str) -> (r: Request)
    ensures
        r.method == Method::Get,
        r.url@ == endpoint@ + GOAL_STATE_PATH@,
        header_views(r.headers@) == seq![VERSION_HEADER@],
        r.body@ == Seq::<u8>::empty(),
{
    let mut url = String::from_str(endpoint);
    url.append(GOAL_STATE_PATH);
    let mut headers: Vec<String> = Vec::new();
    headers.push(String::from_str(VERSION_HEADER));
    assert(header_views(headers@) =~= seq![VERSION_HEADER@]);
    Request { method: Method::Get, url, headers, body: Vec::new() }
}

/// The readiness report: a POST of `document` to
/// `{endpoint}/machine?comp=health` with the protocol version, the agent name
/// and the XML content type.
pub fn health_request(endpoint: &str, document: Vec<u8>) -> (r: Request)
    ensures
        r.method == Method::Post,
        r.url@ == endpoint@ + HEALTH_PATH@,
        header_views(r.headers@) == seq![VERSION_HEADER@, AGENT_HEADER@, CONTENT_TYPE_HEADER@],
        r.body@ == document@,
{
    let mut url = String::from_str(endpoint);
    url.append(HEALTH_PATH);
    let mut headers: Vec<String> = Vec::new();
    headers.push(String::from_str(VERSION_HEADER));
    headers.push(String::from_str(AGENT_HEADER));
    headers.push(String::from_str(CONTENT_TYPE_HEADER));
    assert(header_views(headers@) =~= seq![VERSION_HEADER@, AGENT_HEADER@, CONTENT_TYPE_HEADER@]);
    Request { method: Method::Post, url, headers, body: document }
}

/// Judges a response status of `operation`: success on 200, otherwise a
/// protocol error carrying the status.
pub fn check_status(operation: Operation, status: u32) -> (r: Result<(), AppError>)
    ensures
        status == HTTP_OK ==> r is Ok,
        status != HTTP_OK ==> (r matches Err(AppError::Protocol { operation: op, status: s })
            && op == operation && s == status),
{
    if status == HTTP_OK {
        Ok(())
    } else {
        Err(AppError::Protocol { operation, status })
    }
}

/// The goal-state body of a response, when its status is 200.
pub fn goal_state_response(status: u32, body: Vec<u8>) -> (r: Result<Vec<u8>, AppError>)
    ensures
        status == HTTP_OK ==> (r matches Ok(b) && b@ == body@),
        status != HTTP_OK ==> (r matches Err(AppError::Protocol { operation: op, status: s })
            && op == Operation::FetchGoalState && s == status),
{
    check_status(Operation::FetchGoalState, status)?;
    Ok(body)
}

/// The outcome of the readiness report, given its response status.
pub fn health_response(status: u32) -> (r: Result<(), AppError>)
    ensures
        status == HTTP_OK ==> r is Ok,
        status != HTTP_OK ==> (r matches Err(AppError::Protocol { operation: op, status: s })
            && op == Operation::ReportReady && s == status),
{
    check_status(Operation::ReportReady, status)
}

} // verus!
