//! Building the readiness report that answers a goal state.

use vstd::prelude::*;
use vstd::string::StringExecFns;
use crate::error::AppError;
use crate::goal_state::{child, first_named, GoalState, GoalStateView, NodeView};

verus! {

#[verifier::external_type_specification]
#[verifier::external_body]
#[verifier::reject_recursive_types(W)]
pub struct ExEventWriter<W>(xml::writer::EventWriter<W>);

#[verifier::external_type_specification]
#[verifier::external_body]
pub struct ExEmitterError(xml::writer::Error);

/// One step of writing a document: open an element, add text, or close the
/// innermost open element.
#[derive(Debug)]
pub enum WriteEvent {
    Start(String),
    Text(String),
    End,
}

pub enum EventView {
    Start(Seq<char>),
    Text(Seq<char>),
    End,
}

impl View for WriteEvent {
    type V = EventView;

    open spec fn view(&self) -> EventView {
        match self {
            WriteEvent::Start(name) => EventView::Start(name@),
            WriteEvent::Text(text) => EventView::Text(text@),
            WriteEvent::End => EventView::End,
        }
    }
}

/// The events a writer has accepted so far, in order.
pub uninterp spec fn events_written(w: xml::writer::EventWriter<Vec<u8>>) -> Seq<EventView>;

/// Whether a writer that has accepted `before` refuses `next`.
pub uninterp spec fn write_refused(before: Seq<EventView>, next: EventView) -> bool;

/// The bytes a default-configured writer has emitted after accepting `events`.
pub uninterp spec fn xml_bytes_of(events: Seq<EventView>) -> Seq<u8>;

/// Relies on `xml::writer::EventWriter::new`: a writer with the default
/// configuration over an empty buffer, before any event.
#[verifier::external_body]
fn new_writer() -> (w: xml::writer::EventWriter<Vec<u8>>)
    ensures
        events_written(w) == Seq::<EventView>::empty(),
{
    xml::writer::EventWriter::new(Vec::new())
}

/// Relies on `xml::writer::EventWriter::write`: whether it refuses an event
/// depends on the events before it; an accepted event follows them. A writer
/// that refused is not handed back.
#[verifier::external_body]
fn write_event(w: xml::writer::EventWriter<Vec<u8>>, e: &WriteEvent) -> (r: Result<
    xml::writer::EventWriter<Vec<u8>>,
    xml::writer::Error,
>)
    ensures
        r is Err <==> write_refused(events_written(w), e@),
        r matches Ok(next) ==> events_written(next) == events_written(w).push(e@),
{
    let mut w = w;
    match e {
        WriteEvent::Start(name) => w.write(xml::writer::XmlEvent::start_element(name.as_str()))?,
        WriteEvent::Text(text) => w.write(xml::writer::XmlEvent::characters(text.as_str()))?,
        WriteEvent::End => w.write(xml::writer::XmlEvent::end_element())?,
    }
    Ok(w)
}

/// Relies on `xml::writer::EventWriter::into_inner`: the buffer, holding what
/// the writer emitted for the events it accepted.
#[verifier::external_body]
fn into_bytes(w: xml::writer::EventWriter<Vec<u8>>) -> (r: Vec<u8>)
    ensures
        r@ == xml_bytes_of(events_written(w)),
{
    w.into_inner()
}

/// An element holding only text.
pub open spec fn leaf(tag: Seq<char>, text: Seq<char>) -> Seq<EventView> {
    seq![EventView::Start(tag), EventView::Text(text), EventView::End]
}

/// The readiness report for a goal state:
/// `Health`( `GoalStateIncarnation`, `Container`( `ContainerId`,
/// `RoleInstanceList`( `Role`( `InstanceId`, `Health`( `State` = Ready ))))).
pub open spec fn readiness_events(g: GoalStateView) -> Seq<EventView> {
    seq![EventView::Start("Health"@)] + leaf("GoalStateIncarnation"@, g.incarnation) + seq![
        EventView::Start("Container"@),
    ] + leaf("ContainerId"@, g.container_id) + seq![
        EventView::Start("RoleInstanceList"@),
        EventView::Start("Role"@),
    ] + leaf("InstanceId"@, g.instance_id) + seq![EventView::Start("Health"@)] + leaf(
        "State"@,
        "Ready"@,
    ) + seq![EventView::End, EventView::End, EventView::End, EventView::End, EventView::End]
}

/// The writer accepts each of `events` in turn.
pub open spec fn writer_accepts(events: Seq<EventView>) -> bool {
    forall|i: int| 0 <= i < events.len() ==> !#[trigger] write_refused(events.take(i), events[i])
}

/// The bytes of the readiness report for a goal state.
pub open spec fn readiness_bytes(g: GoalStateView) -> Seq<u8> {
    xml_bytes_of(readiness_events(g))
}

pub open spec fn views_of(events: Seq<WriteEvent>) -> Seq<EventView> {
    events.map_values(|e: WriteEvent| e@)
}

/// Appends an element named `tag` holding `value`.
fn write_tag(events: &mut Vec<WriteEvent>, tag: &str, value: &str)
    ensures
        views_of(final(events)@) == views_of(old(events)@) + leaf(tag@, value@),
{
    events.push(WriteEvent::Start(String::from_str(tag)));
    events.push(WriteEvent::Text(String::from_str(value)));
    events.push(WriteEvent::End);
    assert(views_of(final(events)@) =~= views_of(old(events)@) + leaf(tag@, value@));
}

/// Appends the opening of an element named `tag`.
fn open_tag(events: &mut Vec<WriteEvent>, tag: &str)
    ensures
        views_of(final(events)@) == views_of(old(events)@).push(EventView::Start(tag@)),
{
    events.push(WriteEvent::Start(String::from_str(tag)));
    assert(views_of(final(events)@) =~= views_of(old(events)@).push(EventView::Start(tag@)));
}

/// Appends the closing of the innermost open element.
fn close_tag(events: &mut Vec<WriteEvent>)
    ensures
        views_of(final(events)@) == views_of(old(events)@).push(EventView::End),
{
    events.push(WriteEvent::End);
    assert(views_of(final(events)@) =~= views_of(old(events)@).push(EventView::End));
}

/// The events that write the readiness report for `goal_state`.
pub fn ready_events(goal_state: &GoalState) -> (r: Vec<WriteEvent>)
    ensures
        views_of(r@) == readiness_events(goal_state@),
{
    let mut events: Vec<WriteEvent> = Vec::new();
    assert(views_of(events@) =~= Seq::<EventView>::empty());
    open_tag(&mut events, "Health");
    write_tag(&mut events, "GoalStateIncarnation", goal_state.incarnation.as_str());
    open_tag(&mut events, "Container");
    write_tag(&mut events, "ContainerId", goal_state.container_id.as_str());
    open_tag(&mut events, "RoleInstanceList");
    open_tag(&mut events, "Role");
    write_tag(&mut events, "InstanceId", goal_state.instance_id.as_str());
    open_tag(&mut events, "Health");
    write_tag(&mut events, "State", "Ready");
    close_tag(&mut events);
    close_tag(&mut events);
    close_tag(&mut events);
    close_tag(&mut events);
    close_tag(&mut events);
    assert(views_of(events@) =~= readiness_events(goal_state@));
    events
}

/// Writes `events` with a fresh writer: the emitted bytes when the writer
/// accepts them all, else `Encode` with the writer's error.
pub fn write_document(events: &Vec<WriteEvent>) -> (r: Result<Vec<u8>, AppError>)
    ensures
        r is Ok <==> writer_accepts(views_of(events@)),
        r matches Ok(b) ==> b@ == xml_bytes_of(views_of(events@)),
        r matches Err(e) ==> e is Encode,
{
    let ghost all = views_of(events@);
    let mut w = new_writer();
    let mut i: usize = 0;
    while i < events.len()
        invariant
            i <= events.len(),
            all == views_of(events@),
            events_written(w) == all.take(i as int),
            forall|k: int| 0 <= k < i ==> !#[trigger] write_refused(all.take(k), all[k]),
        decreases events.len() - i,
    {
        assert(all[i as int] == events@[i as int]@);
        match write_event(w, &events[i]) {
            Ok(next) => {
                assert(all.take(i as int).push(all[i as int]) =~= all.take(i as int + 1));
                w = next;
            },
            Err(e) => {
                assert(write_refused(all.take(i as int), all[i as int]));
                return Err(AppError::Encode(e));
            },
        }
        i = i + 1;
    }
    assert(all.take(i as int) =~= all);
    Ok(into_bytes(w))
}

/// What building the readiness report for a goal state with fields `g` may
/// return: `Encode` exactly when the writer refuses one of its events, and
/// otherwise the report's bytes.
pub open spec fn ready_data_result(g: GoalStateView, r: Result<Vec<u8>, AppError>) -> bool {
    &&& r is Ok <==> writer_accepts(readiness_events(g))
    &&& r matches Ok(b) ==> b@ == readiness_bytes(g)
    &&& r matches Err(e) ==> e is Encode
}

/// Serialises the readiness report for `goal_state`.
pub fn get_ready_data(goal_state: &GoalState) -> (r: Result<Vec<u8>, AppError>)
    ensures
        ready_data_result(goal_state@, r),
{
    let events = ready_events(goal_state);
    write_document(&events)
}

/// Building the report twice from goal states with the same fields gives the
/// same outcome: refused both times, or byte-identical documents.
pub proof fn lemma_ready_data_deterministic(
    a: GoalState,
    b: GoalState,
    ra: Result<Vec<u8>, AppError>,
    rb: Result<Vec<u8>, AppError>,
)
    requires
        a@ == b@,
        ready_data_result(a@, ra),
        ready_data_result(b@, rb),
    ensures
        ra is Ok <==> rb is Ok,
        ra is Ok ==> ra->Ok_0@ == rb->Ok_0@,
{
}

/// The events that write `n` and, `depth` levels down, its descendants: the
/// opening, the text if any, each child element in order, the closing.
pub open spec fn node_events(n: NodeView, depth: nat) -> Seq<EventView>
    decreases depth, 0nat,
{
    if depth == 0 {
        Seq::empty()
    } else {
        seq![EventView::Start(n.name)] + match n.text {
            Some(t) => seq![EventView::Text(t)],
            None => Seq::empty(),
        } + children_events(n.children, (depth - 1) as nat) + seq![EventView::End]
    }
}

pub open spec fn children_events(children: Seq<NodeView>, depth: nat) -> Seq<EventView>
    decreases depth, children.len(),
{
    if children.len() == 0 {
        Seq::empty()
    } else {
        node_events(children[0], depth) + children_events(children.drop_first(), depth)
    }
}

pub open spec fn text_node(tag: Seq<char>, text: Seq<char>) -> NodeView {
    NodeView { name: tag, text: Some(text), children: Seq::empty() }
}

pub open spec fn parent_node(tag: Seq<char>, children: Seq<NodeView>) -> NodeView {
    NodeView { name: tag, text: None, children }
}

/// The tree of the readiness report for a goal state with fields `g`.
pub open spec fn readiness_tree(g: GoalStateView) -> NodeView {
    parent_node(
        "Health"@,
        seq![
            text_node("GoalStateIncarnation"@, g.incarnation),
            parent_node(
                "Container"@,
                seq![
                    text_node("ContainerId"@, g.container_id),
                    parent_node(
                        "RoleInstanceList"@,
                        seq![
                            parent_node(
                                "Role"@,
                                seq![
                                    text_node("InstanceId"@, g.instance_id),
                                    parent_node("Health"@, seq![text_node("State"@, "Ready"@)]),
                                ],
                            ),
                        ],
                    ),
                ],
            ),
        ],
    )
}

/// The element reached from `n` by following `path`, child by child.
pub open spec fn at_path(n: Option<NodeView>, path: Seq<Seq<char>>) -> Option<NodeView>
    decreases path.len(),
{
    if path.len() == 0 {
        n
    } else {
        at_path(child(n, path[0]), path.drop_first())
    }
}

proof fn lemma_text_node_events(tag: Seq<char>, text: Seq<char>, depth: nat)
    requires
        depth >= 1,
    ensures
        node_events(text_node(tag, text), depth) == leaf(tag, text),
{
    assert(children_events(Seq::empty(), (depth - 1) as nat) == Seq::<EventView>::empty());
    assert(node_events(text_node(tag, text), depth) =~= leaf(tag, text));
}

proof fn lemma_one_child(c: NodeView, depth: nat)
    ensures
        children_events(seq![c], depth) == node_events(c, depth),
{
    assert(seq![c][0] == c);
    assert(seq![c].drop_first() =~= Seq::<NodeView>::empty());
    assert(children_events(Seq::<NodeView>::empty(), depth) == Seq::<EventView>::empty());
    assert(node_events(c, depth) + Seq::<EventView>::empty() =~= node_events(c, depth));
}

proof fn lemma_two_children(a: NodeView, b: NodeView, depth: nat)
    ensures
        children_events(seq![a, b], depth) == node_events(a, depth) + node_events(b, depth),
{
    assert(seq![a, b][0] == a);
    assert(seq![a, b].drop_first() =~= seq![b]);
    lemma_one_child(b, depth);
}

proof fn lemma_parent_events(tag: Seq<char>, children: Seq<NodeView>, depth: nat)
    requires
        depth >= 1,
    ensures
        node_events(parent_node(tag, children), depth) == seq![EventView::Start(tag)]
            + children_events(children, (depth - 1) as nat) + seq![EventView::End],
{
    assert(seq![EventView::Start(tag)] + Seq::<EventView>::empty() =~= seq![EventView::Start(tag)]);
}

/// The readiness report written for a goal state is the serialisation of a
/// tree rooted at `Health` in which `GoalStateIncarnation` holds the
/// incarnation, `Container/ContainerId` the container id,
/// `Container/RoleInstanceList/Role/InstanceId` the instance id and
/// `Container/RoleInstanceList/Role/Health/State` the text `Ready`.
pub proof fn lemma_report_structure(g: GoalStateView)
    ensures
        readiness_events(g) == node_events(readiness_tree(g), 6),
        readiness_tree(g).name == "Health"@,
        at_path(Some(readiness_tree(g)), seq!["GoalStateIncarnation"@]) == Some(
            text_node("GoalStateIncarnation"@, g.incarnation),
        ),
        at_path(Some(readiness_tree(g)), seq!["Container"@, "ContainerId"@]) == Some(
            text_node("ContainerId"@, g.container_id),
        ),
        at_path(
            Some(readiness_tree(g)),
            seq!["Container"@, "RoleInstanceList"@, "Role"@, "InstanceId"@],
        ) == Some(text_node("InstanceId"@, g.instance_id)),
        at_path(
            Some(readiness_tree(g)),
            seq!["Container"@, "RoleInstanceList"@, "Role"@, "Health"@, "State"@],
        ) == Some(text_node("State"@, "Ready"@)),
{
    let t = readiness_tree(g);
    let inc = text_node("GoalStateIncarnation"@, g.incarnation);
    let cid = text_node("ContainerId"@, g.container_id);
    let iid = text_node("InstanceId"@, g.instance_id);
    let state = text_node("State"@, "Ready"@);
    let inner = parent_node("Health"@, seq![state]);
    let role = parent_node("Role"@, seq![iid, inner]);
    let list = parent_node("RoleInstanceList"@, seq![role]);
    let container = parent_node("Container"@, seq![cid, list]);
    assert(t == parent_node("Health"@, seq![inc, container]));

    lemma_text_node_events("State"@, "Ready"@, 1);
    lemma_one_child(state, 1);
    lemma_parent_events("Health"@, seq![state], 2);
    lemma_text_node_events("InstanceId"@, g.instance_id, 2);
    lemma_two_children(iid, inner, 2);
    lemma_parent_events("Role"@, seq![iid, inner], 3);
    lemma_one_child(role, 3);
    lemma_parent_events("RoleInstanceList"@, seq![role], 4);
    lemma_text_node_events("ContainerId"@, g.container_id, 4);
    lemma_two_children(cid, list, 4);
    lemma_parent_events("Container"@, seq![cid, list], 5);
    lemma_text_node_events("GoalStateIncarnation"@, g.incarnation, 5);
    lemma_two_children(inc, container, 5);
    lemma_parent_events("Health"@, seq![inc, container], 6);
    assert(readiness_events(g) =~= node_events(t, 6));

    lemma_lookups(g);
}

proof fn lemma_first_of_one(a: NodeView, tag: Seq<char>)
    requires
        a.name == tag,
    ensures
        first_named(seq![a], tag) == Some(a),
{
    assert(seq![a][0] == a);
}

proof fn lemma_first_of_two(a: NodeView, b: NodeView, tag: Seq<char>)
    requires
        a.name == tag || b.name == tag,
    ensures
        first_named(seq![a, b], tag) == Some(if a.name == tag { a } else { b }),
{
    assert(seq![a, b][0] == a);
    assert(seq![a, b].drop_first() =~= seq![b]);
    if a.name != tag {
        lemma_first_of_one(b, tag);
    }
}

proof fn lemma_path_step(n: Option<NodeView>, path: Seq<Seq<char>>)
    requires
        path.len() > 0,
    ensures
        at_path(n, path) == at_path(child(n, path[0]), path.drop_first()),
{
}

proof fn lemma_lookups(g: GoalStateView)
    ensures
        at_path(Some(readiness_tree(g)), seq!["GoalStateIncarnation"@]) == Some(
            text_node("GoalStateIncarnation"@, g.incarnation),
        ),
        at_path(Some(readiness_tree(g)), seq!["Container"@, "ContainerId"@]) == Some(
            text_node("ContainerId"@, g.container_id),
        ),
        at_path(
            Some(readiness_tree(g)),
            seq!["Container"@, "RoleInstanceList"@, "Role"@, "InstanceId"@],
        ) == Some(text_node("InstanceId"@, g.instance_id)),
        at_path(
            Some(readiness_tree(g)),
            seq!["Container"@, "RoleInstanceList"@, "Role"@, "Health"@, "State"@],
        ) == Some(text_node("State"@, "Ready"@)),
{
    reveal_strlit("GoalStateIncarnation");
    reveal_strlit("Container");
    reveal_strlit("ContainerId");
    reveal_strlit("RoleInstanceList");
    reveal_strlit("InstanceId");
    reveal_strlit("Health");
    let t = readiness_tree(g);
    let inc = text_node("GoalStateIncarnation"@, g.incarnation);
    let cid = text_node("ContainerId"@, g.container_id);
    let iid = text_node("InstanceId"@, g.instance_id);
    let state = text_node("State"@, "Ready"@);
    let inner = parent_node("Health"@, seq![state]);
    let role = parent_node("Role"@, seq![iid, inner]);
    let list = parent_node("RoleInstanceList"@, seq![role]);
    let container = parent_node("Container"@, seq![cid, list]);
    let empty = Seq::<Seq<char>>::empty();
    assert(t.children == seq![inc, container]);

    assert("GoalStateIncarnation"@[0] != "Container"@[0]);
    assert("ContainerId"@[0] != "RoleInstanceList"@[0]);
    assert("InstanceId"@[0] != "Health"@[0]);
    lemma_first_of_two(inc, container, "GoalStateIncarnation"@);
    lemma_first_of_two(inc, container, "Container"@);
    lemma_first_of_two(cid, list, "ContainerId"@);
    lemma_first_of_two(cid, list, "RoleInstanceList"@);
    lemma_first_of_one(role, "Role"@);
    lemma_first_of_two(iid, inner, "InstanceId"@);
    lemma_first_of_two(iid, inner, "Health"@);
    lemma_first_of_one(state, "State"@);

    let p1 = seq!["GoalStateIncarnation"@];
    lemma_path_step(Some(t), p1);
    assert(p1.drop_first() =~= empty);

    let p2 = seq!["Container"@, "ContainerId"@];
    lemma_path_step(Some(t), p2);
    assert(p2.drop_first() =~= seq!["ContainerId"@]);
    lemma_path_step(Some(container), seq!["ContainerId"@]);
    assert(seq!["ContainerId"@].drop_first() =~= empty);

    let q = seq!["RoleInstanceList"@, "Role"@];
    let p4 = seq!["Container"@, "RoleInstanceList"@, "Role"@, "InstanceId"@];
    lemma_path_step(Some(t), p4);
    assert(p4.drop_first() =~= q.push("InstanceId"@));
    lemma_path_step(Some(container), q.push("InstanceId"@));
    assert(q.push("InstanceId"@).drop_first() =~= seq!["Role"@, "InstanceId"@]);
    lemma_path_step(Some(list), seq!["Role"@, "InstanceId"@]);
    assert(seq!["Role"@, "InstanceId"@].drop_first() =~= seq!["InstanceId"@]);
    lemma_path_step(Some(role), seq!["InstanceId"@]);
    assert(seq!["InstanceId"@].drop_first() =~= empty);

    let p5 = seq!["Container"@, "RoleInstanceList"@, "Role"@, "Health"@, "State"@];
    lemma_path_step(Some(t), p5);
    assert(p5.drop_first() =~= seq!["RoleInstanceList"@, "Role"@, "Health"@, "State"@]);
    lemma_path_step(Some(container), seq!["RoleInstanceList"@, "Role"@, "Health"@, "State"@]);
    assert(seq!["RoleInstanceList"@, "Role"@, "Health"@, "State"@].drop_first() =~= seq![
        "Role"@,
        "Health"@,
        "State"@,
    ]);
    lemma_path_step(Some(list), seq!["Role"@, "Health"@, "State"@]);
    assert(seq!["Role"@, "Health"@, "State"@].drop_first() =~= seq!["Health"@, "State"@]);
    lemma_path_step(Some(role), seq!["Health"@, "State"@]);
    assert(seq!["Health"@, "State"@].drop_first() =~= seq!["State"@]);
    lemma_path_step(Some(inner), seq!["State"@]);
    assert(seq!["State"@].drop_first() =~= empty);
}

} // verus!
