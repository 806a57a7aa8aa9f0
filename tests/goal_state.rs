use goalstate_ready::error::AppError;
use goalstate_ready::goal_state::{decode_goal_state, goal_state_from_root, parse_goal_state};

const DOC: &str = "<GoalState><Incarnation>7</Incarnation><Container><ContainerId>abc</ContainerId><RoleInstanceList><RoleInstance><InstanceId>inst-1</InstanceId></RoleInstance></RoleInstanceList></Container></GoalState>";

fn missing(xml: &str) -> String {
    match parse_goal_state(xml) {
        Err(AppError::MissingElement(tag)) => tag,
        other => panic!("expected a missing element, got {:?}", other),
    }
}

#[test]
fn parses_the_goal_state_fields() {
    let g = parse_goal_state(DOC).unwrap();
    assert_eq!(g.incarnation, "7");
    assert_eq!(g.container_id, "abc");
    assert_eq!(g.instance_id, "inst-1");
}

#[test]
fn decodes_a_response_body() {
    let g = decode_goal_state(DOC.as_bytes().to_vec()).unwrap();
    assert_eq!(g.incarnation, "7");
    assert_eq!(g.container_id, "abc");
    assert_eq!(g.instance_id, "inst-1");
}

#[test]
fn invalid_utf8_is_a_decode_error() {
    let body = [b'<', b'a', 0xff, 0xfe, b'>'];
    assert!(matches!(decode_goal_state(body.to_vec()), Err(AppError::Decode)));
}

#[test]
fn malformed_xml_is_rejected() {
    assert!(matches!(parse_goal_state("<GoalState><Incarnation>"), Err(AppError::MalformedDocument(_))));
    assert!(matches!(parse_goal_state(""), Err(AppError::MalformedDocument(_))));
}

#[test]
fn missing_incarnation() {
    assert_eq!(missing("<GoalState><Container><ContainerId>c</ContainerId></Container></GoalState>"), "Incarnation");
}

#[test]
fn missing_incarnation_is_named_before_container() {
    assert_eq!(missing("<GoalState></GoalState>"), "Incarnation");
}

#[test]
fn missing_container() {
    assert_eq!(missing("<GoalState><Incarnation>1</Incarnation></GoalState>"), "Container");
}

#[test]
fn missing_container_id() {
    let xml = "<GoalState><Incarnation>1</Incarnation><Container><RoleInstanceList/></Container></GoalState>";
    assert_eq!(missing(xml), "ContainerId");
}

#[test]
fn missing_role_instance_list() {
    let xml = "<GoalState><Incarnation>1</Incarnation><Container><ContainerId>c</ContainerId></Container></GoalState>";
    assert_eq!(missing(xml), "RoleInstanceList");
}

#[test]
fn missing_role_instance() {
    let xml = "<GoalState><Incarnation>1</Incarnation><Container><ContainerId>c</ContainerId><RoleInstanceList></RoleInstanceList></Container></GoalState>";
    assert_eq!(missing(xml), "RoleInstance");
}

#[test]
fn missing_instance_id() {
    let xml = "<GoalState><Incarnation>1</Incarnation><Container><ContainerId>c</ContainerId><RoleInstanceList><RoleInstance><State>x</State></RoleInstance></RoleInstanceList></Container></GoalState>";
    assert_eq!(missing(xml), "InstanceId");
}

#[test]
fn empty_elements_give_empty_fields() {
    let xml = "<GoalState><Incarnation></Incarnation><Container><ContainerId/><RoleInstanceList><RoleInstance><InstanceId></InstanceId></RoleInstance></RoleInstanceList></Container></GoalState>";
    let g = parse_goal_state(xml).unwrap();
    assert_eq!(g.incarnation, "");
    assert_eq!(g.container_id, "");
    assert_eq!(g.instance_id, "");
}

#[test]
fn only_the_first_role_instance_is_read() {
    let xml = "<GoalState><Incarnation>3</Incarnation><Container><ContainerId>c</ContainerId><RoleInstanceList><RoleInstance><InstanceId>first</InstanceId></RoleInstance><RoleInstance><InstanceId>second</InstanceId></RoleInstance></RoleInstanceList></Container></GoalState>";
    assert_eq!(parse_goal_state(xml).unwrap().instance_id, "first");
}

#[test]
fn first_role_instance_without_id_is_missing_even_if_a_later_one_has_it() {
    let xml = "<GoalState><Incarnation>3</Incarnation><Container><ContainerId>c</ContainerId><RoleInstanceList><RoleInstance/><RoleInstance><InstanceId>second</InstanceId></RoleInstance></RoleInstanceList></Container></GoalState>";
    assert_eq!(missing(xml), "InstanceId");
}

#[test]
fn other_elements_are_ignored() {
    let xml = "<GoalState><Version>1</Version><Incarnation>9</Incarnation><Machine/><Container><ContainerId>c-9</ContainerId><RoleInstanceList><RoleInstance><InstanceId>i-9</InstanceId><State>x</State></RoleInstance></RoleInstanceList></Container></GoalState>";
    let g = parse_goal_state(xml).unwrap();
    assert_eq!((g.incarnation.as_str(), g.container_id.as_str(), g.instance_id.as_str()), ("9", "c-9", "i-9"));
}

#[test]
fn text_entities_and_cdata_are_decoded() {
    let xml = "<GoalState><Incarnation>a&amp;b</Incarnation><Container><ContainerId><![CDATA[<c>]]></ContainerId><RoleInstanceList><RoleInstance><InstanceId>i</InstanceId></RoleInstance></RoleInstanceList></Container></GoalState>";
    let g = parse_goal_state(xml).unwrap();
    assert_eq!(g.incarnation, "a&b");
    assert_eq!(g.container_id, "<c>");
}

#[test]
fn reads_from_a_constructed_root() {
    let mut root = xmltree::Element::new("GoalState");
    let mut inc = xmltree::Element::new("Incarnation");
    inc.children.push(xmltree::XMLNode::Text("5".to_string()));
    root.children.push(xmltree::XMLNode::Element(inc));
    let mut container = xmltree::Element::new("Container");
    let mut cid = xmltree::Element::new("ContainerId");
    cid.children.push(xmltree::XMLNode::Text("cc".to_string()));
    container.children.push(xmltree::XMLNode::Element(cid));
    let mut list = xmltree::Element::new("RoleInstanceList");
    let mut role = xmltree::Element::new("RoleInstance");
    let mut id = xmltree::Element::new("InstanceId");
    id.children.push(xmltree::XMLNode::Text("ii".to_string()));
    role.children.push(xmltree::XMLNode::Element(id));
    list.children.push(xmltree::XMLNode::Element(role));
    container.children.push(xmltree::XMLNode::Element(list));
    root.children.push(xmltree::XMLNode::Element(container));
    let g = goal_state_from_root(&root).unwrap();
    assert_eq!((g.incarnation.as_str(), g.container_id.as_str(), g.instance_id.as_str()), ("5", "cc", "ii"));
}
