//! Reading the instance identity out of a goal-state document.

use vstd::prelude::*;
use vstd::string::StringExecFns;
use vstd::utf8::{decode_utf8, valid_utf8};
use crate::error::AppError;

verus! {

#[verifier::external_type_specification]
#[verifier::external_body]
pub struct ExElement(xmltree::Element);

#[verifier::external_type_specification]
#[verifier::external_body]
pub struct ExParseError(xmltree::ParseError);

/// An XML element as the lookups of this module see it: its local name, its
/// text content (the text and CDATA children concatenated, `None` when it has
/// none), and its child elements in document order.
pub struct NodeView {
    pub name: Seq<char>,
    pub text: Option<Seq<char>>,
    pub children: Seq<NodeView>,
}

/// The tree held by a parsed element.
pub uninterp spec fn element_view(e: xmltree::Element) -> NodeView;

/// The root element of `text` read as an XML document; `None` when it is not
/// a well-formed document.
pub uninterp spec fn xml_tree_of(text: Seq<char>) -> Option<NodeView>;

/// Relies on `xmltree::Element::parse`: parses the whole text as one XML
/// document and returns its root element, or an error when it is malformed.
#[verifier::external_body]
fn parse_xml(text: &str) -> (r: Result<xmltree::Element, xmltree::ParseError>)
    ensures
        r is Ok <==> xml_tree_of(text@) is Some,
        r matches Ok(e) ==> xml_tree_of(text@) == Some(element_view(e)),
{
    xmltree::Element::parse(text.as_bytes())
}

/// Relies on `xmltree::Element::get_child` with a `&str`: the first child
/// element whose local name equals `tag`.
#[verifier::external_body]
fn child_named<'a>(e: &'a xmltree::Element, tag: &str) -> (r: Option<&'a xmltree::Element>)
    ensures
        r is Some <==> first_named(element_view(*e).children, tag@) is Some,
        r matches Some(c) ==> first_named(element_view(*e).children, tag@) == Some(
            element_view(*c),
        ),
{
    e.get_child(tag)
}

/// Relies on `xmltree::Element::get_text`: the element's text and CDATA
/// children concatenated, or `None` when it has none.
#[verifier::external_body]
fn element_text(e: &xmltree::Element) -> (r: Option<String>)
    ensures
        r is Some <==> element_view(*e).text is Some,
        r matches Some(s) ==> element_view(*e).text == Some(s@),
{
    e.get_text().map(std::borrow::Cow::into_owned)
}

/// Relies on `String::from_utf8`: succeeds exactly on valid UTF-8, with the
/// characters it encodes.
#[verifier::external_body]
fn utf8_text(bytes: Vec<u8>) -> (r: Option<String>)
    ensures
        r is Some <==> valid_utf8(bytes@),
        r matches Some(s) ==> s@ == decode_utf8(bytes@),
{
    match String::from_utf8(bytes) {
        Ok(s) => Some(s),
        Err(_) => None,
    }
}

/// The identity a goal state assigns to this instance.
#[derive(Debug)]
pub struct GoalState {
    pub container_id: String,
    pub instance_id: String,
    pub incarnation: String,
}

/// The goal state's fields as (incarnation, container id, instance id).
pub struct GoalStateView {
    pub incarnation: Seq<char>,
    pub container_id: Seq<char>,
    pub instance_id: Seq<char>,
}

impl View for GoalState {
    type V = GoalStateView;

    open spec fn view(&self) -> GoalStateView {
        GoalStateView {
            incarnation: self.incarnation@,
            container_id: self.container_id@,
            instance_id: self.instance_id@,
        }
    }
}

/// The first element of `children` named `tag`.
pub open spec fn first_named(children: Seq<NodeView>, tag: Seq<char>) -> Option<NodeView>
    decreases children.len(),
{
    if children.len() == 0 {
        None
    } else if children[0].name == tag {
        Some(children[0])
    } else {
        first_named(children.drop_first(), tag)
    }
}

/// An element's text, or the empty string when it has none.
pub open spec fn text_or_empty(n: NodeView) -> Seq<char> {
    match n.text {
        Some(t) => t,
        None => Seq::empty(),
    }
}

/// The first child named `tag` of an element that may be absent.
pub open spec fn child(parent: Option<NodeView>, tag: Seq<char>) -> Option<NodeView> {
    match parent {
        Some(p) => first_named(p.children, tag),
        None => None,
    }
}

/// `Incarnation` under the root.
pub open spec fn incarnation_el(root: NodeView) -> Option<NodeView> {
    child(Some(root), "Incarnation"@)
}

/// `Container` under the root.
pub open spec fn container_el(root: NodeView) -> Option<NodeView> {
    child(Some(root), "Container"@)
}

/// `ContainerId` under `Container`.
pub open spec fn container_id_el(root: NodeView) -> Option<NodeView> {
    child(container_el(root), "ContainerId"@)
}

/// `RoleInstanceList` under `Container`.
pub open spec fn role_list_el(root: NodeView) -> Option<NodeView> {
    child(container_el(root), "RoleInstanceList"@)
}

/// The first `RoleInstance` under `RoleInstanceList`.
pub open spec fn role_instance_el(root: NodeView) -> Option<NodeView> {
    child(role_list_el(root), "RoleInstance"@)
}

/// `InstanceId` under the first `RoleInstance`.
pub open spec fn instance_id_el(root: NodeView) -> Option<NodeView> {
    child(role_instance_el(root), "InstanceId"@)
}

/// Walks the fixed paths from the root in the order `Incarnation`,
/// `Container`, `ContainerId`, `RoleInstanceList`, `RoleInstance`,
/// `InstanceId`. The result is the three texts (empty for an element without
/// text), or the tag of the first element found missing.
pub open spec fn goal_state_fields(root: NodeView) -> Result<GoalStateView, Seq<char>> {
    if incarnation_el(root) is None {
        Err("Incarnation"@)
    } else if container_el(root) is None {
        Err("Container"@)
    } else if container_id_el(root) is None {
        Err("ContainerId"@)
    } else if role_list_el(root) is None {
        Err("RoleInstanceList"@)
    } else if role_instance_el(root) is None {
        Err("RoleInstance"@)
    } else if instance_id_el(root) is None {
        Err("InstanceId"@)
    } else {
        Ok(
            GoalStateView {
                incarnation: text_or_empty(incarnation_el(root)->Some_0),
                container_id: text_or_empty(container_id_el(root)->Some_0),
                instance_id: text_or_empty(instance_id_el(root)->Some_0),
            },
        )
    }
}

/// A tree lacking a required element is rejected with `MissingElement`
/// naming the first element found missing in traversal order.
pub proof fn lemma_missing_element_rejected(root: NodeView)
    ensures
        incarnation_el(root) is None ==> goal_state_fields(root) == Err::<GoalStateView, Seq<char>>(
            "Incarnation"@,
        ),
        incarnation_el(root) is Some && container_el(root) is None ==> goal_state_fields(root)
            == Err::<GoalStateView, Seq<char>>("Container"@),
        incarnation_el(root) is Some && container_id_el(root) is None ==> goal_state_fields(root)
            == Err::<GoalStateView, Seq<char>>(
            if container_el(root) is None {
                "Container"@
            } else {
                "ContainerId"@
            },
        ),
        incarnation_el(root) is Some && container_id_el(root) is Some && role_list_el(root) is None
            ==> goal_state_fields(root) == Err::<GoalStateView, Seq<char>>("RoleInstanceList"@),
        incarnation_el(root) is Some && container_id_el(root) is Some && role_list_el(root) is Some
            && role_instance_el(root) is None ==> goal_state_fields(root) == Err::<
            GoalStateView,
            Seq<char>,
        >("RoleInstance"@),
        incarnation_el(root) is Some && container_id_el(root) is Some && role_instance_el(root) is Some
            && instance_id_el(root) is None ==> goal_state_fields(root) == Err::<
            GoalStateView,
            Seq<char>,
        >("InstanceId"@),
        goal_state_fields(root) is Err <==> (incarnation_el(root) is None || container_id_el(root) is None
            || instance_id_el(root) is None),
{
}

/// A tree holding every required element is accepted, and a required
/// element with no text yields an empty field rather than an error.
pub proof fn lemma_empty_element_accepted(root: NodeView)
    requires
        incarnation_el(root) is Some,
        container_id_el(root) is Some,
        instance_id_el(root) is Some,
    ensures
        goal_state_fields(root) is Ok,
        incarnation_el(root)->Some_0.text is None ==> goal_state_fields(root)->Ok_0.incarnation
            == Seq::<char>::empty(),
        container_id_el(root)->Some_0.text is None ==> goal_state_fields(root)->Ok_0.container_id
            == Seq::<char>::empty(),
        instance_id_el(root)->Some_0.text is None ==> goal_state_fields(root)->Ok_0.instance_id
            == Seq::<char>::empty(),
{
}

/// `r` is what the traversal of a tree with the given outcome returns.
pub open spec fn reports_fields(
    r: Result<GoalState, AppError>,
    fields: Result<GoalStateView, Seq<char>>,
) -> bool {
    match fields {
        Ok(v) => r matches Ok(g) && g@ == v,
        Err(tag) => r matches Err(AppError::MissingElement(t)) && t@ == tag,
    }
}

/// The first child of `el` named `tag`, or `MissingElement(tag)`.
pub fn get_element<'a>(el: &'a xmltree::Element, tag: &str) -> (r: Result<
    &'a xmltree::Element,
    AppError,
>)
    ensures
        match first_named(element_view(*el).children, tag@) {
            Some(c) => r matches Ok(e) && element_view(*e) == c,
            None => r matches Err(AppError::MissingElement(t)) && t@ == tag@,
        },
{
    match child_named(el, tag) {
        Some(c) => Ok(c),
        None => Err(AppError::MissingElement(String::from_str(tag))),
    }
}

/// The text of the first child of `el` named `tag` (empty when it has no
/// text), or `MissingElement(tag)`.
pub fn get_element_text(el: &xmltree::Element, tag: &str) -> (r: Result<String, AppError>)
    ensures
        match first_named(element_view(*el).children, tag@) {
            Some(c) => r matches Ok(s) && s@ == text_or_empty(c),
            None => r matches Err(AppError::MissingElement(t)) && t@ == tag@,
        },
{
    let child = get_element(el, tag)?;
    match element_text(child) {
        Some(s) => Ok(s),
        None => Ok(String::new()),
    }
}

/// Reads the goal state out of a parsed document's root element.
pub fn goal_state_from_root(root: &xmltree::Element) -> (r: Result<GoalState, AppError>)
    ensures
        reports_fields(r, goal_state_fields(element_view(*root))),
{
    let incarnation = get_element_text(root, "Incarnation")?;
    let container = get_element(root, "Container")?;
    let container_id = get_element_text(container, "ContainerId")?;
    let role_instance_list = get_element(container, "RoleInstanceList")?;
    let role_instance = get_element(role_instance_list, "RoleInstance")?;
    let instance_id = get_element_text(role_instance, "InstanceId")?;
    Ok(GoalState { container_id, instance_id, incarnation })
}

/// Parses goal-state XML text: `MalformedDocument` when it is not
/// well-formed, otherwise the outcome of the fixed traversal.
pub fn parse_goal_state(xml: &str) -> (r: Result<GoalState, AppError>)
    ensures
        match xml_tree_of(xml@) {
            None => r matches Err(AppError::MalformedDocument(_)),
            Some(root) => reports_fields(r, goal_state_fields(root)),
        },
{
    match parse_xml(xml) {
        Ok(root) => goal_state_from_root(&root),
        Err(e) => Err(AppError::MalformedDocument(e)),
    }
}

/// Decodes a goal-state response body: `Decode` when it is not UTF-8, then
/// as [`parse_goal_state`] on its text.
pub fn decode_goal_state(body: Vec<u8>) -> (r: Result<GoalState, AppError>)
    ensures
        !valid_utf8(body@) ==> r matches Err(AppError::Decode),
        valid_utf8(body@) ==> match xml_tree_of(decode_utf8(body@)) {
            None => r matches Err(AppError::MalformedDocument(_)),
            Some(root) => reports_fields(r, goal_state_fields(root)),
        },
{
    match utf8_text(body) {
        Some(text) => parse_goal_state(text.as_str()),
        None => Err(AppError::Decode),
    }
}

} // verus!
