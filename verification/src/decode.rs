//! Structural decoding of a service definition from a JSON document.
//!
//! A definition is an object with the members `service_name`, `grpc_method_a`,
//! `grpc_method_b` and `grpc_method_c`. A function is an object with
//! `tracing_name` and `operations`. Operations and actions are written as an
//! object with exactly one member, whose name is the tag of the variant. A
//! member that the shape does not name is passed over. Nothing is checked
//! beyond the shape: a duration or a failure chance is taken as it stands.

use crate::json::{item_views, member_views, Json, JsonView};
use crate::thespian_instance::{ThespianInstance, ThespianInstanceView};
use crate::workflow::{
    action_views, operation_views, Action, ActionView, Function, FunctionView, GrpcMethod,
    Operation, OperationView, OptionalFunction,
};
use vstd::prelude::*;
use vstd::string::StringExecFns;

verus! {

/// The position of the first member at or behind `from` that is called `name`.
pub open spec fn position(members: Seq<(Seq<char>, JsonView)>, name: Seq<char>, from: int) -> Option<
    int,
>
    decreases members.len() - from,
{
    if from < 0 || from >= members.len() {
        None
    } else if members[from].0 == name {
        Some(from)
    } else {
        position(members, name, from + 1)
    }
}

/// The value of the first member that is called `name`.
pub open spec fn lookup(members: Seq<(Seq<char>, JsonView)>, name: Seq<char>) -> Option<JsonView> {
    match position(members, name, 0) {
        Some(at) if 0 <= at < members.len() => Some(members[at].1),
        _ => None,
    }
}

/// A text member.
pub open spec fn decoded_text(member: Option<JsonView>) -> Option<Seq<char>> {
    match member {
        Some(JsonView::Text(text)) => Some(text),
        _ => None,
    }
}

/// An entry point selector: one of the texts `A`, `B` and `C`.
pub open spec fn decoded_method(member: Option<JsonView>) -> Option<GrpcMethod> {
    match member {
        Some(JsonView::Text(text)) => if text == "A"@ {
            Some(GrpcMethod::A)
        } else if text == "B"@ {
            Some(GrpcMethod::B)
        } else if text == "C"@ {
            Some(GrpcMethod::C)
        } else {
            None
        },
        _ => None,
    }
}

/// A duration: a number that is an unsigned integer of sixty-four bits.
pub open spec fn decoded_duration(member: Option<JsonView>) -> Option<u64> {
    match member {
        Some(JsonView::Number { unsigned: Some(millis), .. }) => Some(millis),
        _ => None,
    }
}

/// A failure chance: none where the member is missing or null, the bits of
/// the number where it is one.
pub open spec fn decoded_chance(member: Option<JsonView>) -> Option<Option<u64>> {
    match member {
        None => Some(None),
        Some(JsonView::Null) => Some(None),
        Some(JsonView::Number { binary64: Some(bits), .. }) => Some(Some(bits)),
        _ => None,
    }
}

/// The body of a `CallService` action.
pub open spec fn decoded_call(body: JsonView) -> Option<ActionView> {
    match body {
        JsonView::Object(members) => match (
            decoded_text(lookup(members, "service_address"@)),
            decoded_text(lookup(members, "service_port"@)),
            decoded_method(lookup(members, "grpc_method"@)),
        ) {
            (Some(service_address), Some(service_port), Some(grpc_method)) => Some(
                ActionView::CallService { service_address, service_port, grpc_method },
            ),
            _ => None,
        },
        _ => None,
    }
}

/// The body of a `Sleep` action.
pub open spec fn decoded_sleep(body: JsonView) -> Option<ActionView> {
    match body {
        JsonView::Object(members) => match (
            decoded_text(lookup(members, "tracing_name"@)),
            decoded_duration(lookup(members, "duration_ms"@)),
            decoded_chance(lookup(members, "failure_chance"@)),
        ) {
            (Some(tracing_name), Some(duration_ms), Some(failure_chance)) => Some(
                ActionView::Sleep { tracing_name, duration_ms, failure_chance },
            ),
            _ => None,
        },
        _ => None,
    }
}

/// An action: an object with the one member `Function`, `CallService` or
/// `Sleep`.
pub open spec fn decoded_action(json: JsonView) -> Option<ActionView>
    decreases json, 0nat,
{
    match json {
        JsonView::Object(members) => if members.len() == 1 {
            if members[0].0 == "Function"@ {
                match decoded_function(members[0].1) {
                    Some(function) => Some(ActionView::Function(function)),
                    None => None,
                }
            } else if members[0].0 == "CallService"@ {
                decoded_call(members[0].1)
            } else if members[0].0 == "Sleep"@ {
                decoded_sleep(members[0].1)
            } else {
                None
            }
        } else {
            None
        },
        _ => None,
    }
}

/// The first `count` of `items` as actions, if each of them is one.
pub open spec fn decoded_actions(items: Seq<JsonView>, count: nat) -> Option<Seq<ActionView>>
    decreases items, count,
{
    if count == 0 || count > items.len() {
        Some(Seq::empty())
    } else {
        match (decoded_actions(items, (count - 1) as nat), decoded_action(items[count - 1])) {
            (Some(before), Some(last)) => Some(before.push(last)),
            _ => None,
        }
    }
}

/// An operation: an object with the one member `Action` or
/// `ConcurrentActions`.
pub open spec fn decoded_operation(json: JsonView) -> Option<OperationView>
    decreases json, 0nat,
{
    match json {
        JsonView::Object(members) => if members.len() == 1 {
            if members[0].0 == "Action"@ {
                match decoded_action(members[0].1) {
                    Some(action) => Some(OperationView::Action(action)),
                    None => None,
                }
            } else if members[0].0 == "ConcurrentActions"@ {
                match members[0].1 {
                    JsonView::Array(items) => match decoded_actions(items, items.len()) {
                        Some(actions) => Some(OperationView::ConcurrentActions(actions)),
                        None => None,
                    },
                    _ => None,
                }
            } else {
                None
            }
        } else {
            None
        },
        _ => None,
    }
}

/// The first `count` of `items` as operations, if each of them is one.
pub open spec fn decoded_operations(items: Seq<JsonView>, count: nat) -> Option<
    Seq<OperationView>,
>
    decreases items, count,
{
    if count == 0 || count > items.len() {
        Some(Seq::empty())
    } else {
        match (
            decoded_operations(items, (count - 1) as nat),
            decoded_operation(items[count - 1]),
        ) {
            (Some(before), Some(last)) => Some(before.push(last)),
            _ => None,
        }
    }
}

/// A function: an object with a text `tracing_name` and an array
/// `operations` of operations.
pub open spec fn decoded_function(json: JsonView) -> Option<FunctionView>
    decreases json, 0nat,
{
    match json {
        JsonView::Object(members) => match (
            decoded_text(lookup(members, "tracing_name"@)),
            lookup(members, "operations"@),
        ) {
            (Some(tracing_name), Some(JsonView::Array(items))) => match decoded_operations(
                items,
                items.len(),
            ) {
                Some(operations) => Some(FunctionView { tracing_name, operations }),
                None => None,
            },
            _ => None,
        },
        _ => None,
    }
}

/// The binding of an entry point: a member that must be there, and is null
/// or a function.
pub open spec fn decoded_binding(member: Option<JsonView>) -> Option<Option<FunctionView>> {
    match member {
        None => None,
        Some(JsonView::Null) => Some(None),
        Some(json) => match decoded_function(json) {
            Some(function) => Some(Some(function)),
            None => None,
        },
    }
}

/// A service definition: an object with a text `service_name` and the three
/// bindings.
pub open spec fn decoded_service(json: JsonView) -> Option<ThespianInstanceView> {
    match json {
        JsonView::Object(members) => match (
            decoded_text(lookup(members, "service_name"@)),
            decoded_binding(lookup(members, "grpc_method_a"@)),
            decoded_binding(lookup(members, "grpc_method_b"@)),
            decoded_binding(lookup(members, "grpc_method_c"@)),
        ) {
            (Some(service_name), Some(grpc_method_a), Some(grpc_method_b), Some(grpc_method_c)) => {
                Some(
                    ThespianInstanceView {
                        service_name,
                        grpc_method_a,
                        grpc_method_b,
                        grpc_method_c,
                    },
                )
            },
            _ => None,
        },
        _ => None,
    }
}

/// The mathematical value of an optional document.
pub open spec fn found_view(found: Option<&Json>) -> Option<JsonView> {
    match found {
        Some(json) => Some(json@),
        None => None,
    }
}

/// Whether `text` reads as `literal`.
fn reads(text: &String, literal: &str) -> (same: bool)
    ensures
        same == (text@ == literal@),
{
    let other = String::from_str(literal);
    *text == other
}

/// The value of the first member that is called `name`.
fn find<'a>(members: &'a Vec<(String, Json)>, name: &str) -> (found: Option<&'a Json>)
    ensures
        found_view(found) == lookup(member_views(members@), name@),
{
    let mut at: usize = 0;
    while at < members.len()
        invariant
            at <= members.len(),
            position(member_views(members@), name@, 0) == position(
                member_views(members@),
                name@,
                at as int,
            ),
        decreases members.len() - at,
    {
        if reads(&members[at].0, name) {
            return Some(&members[at].1);
        }
        at = at + 1;
    }
    None
}

/// The mathematical value of something that may be missing.
pub open spec fn optional_view<T: View>(optional: Option<T>) -> Option<T::V> {
    match optional {
        Some(value) => Some(value@),
        None => None,
    }
}

/// The views of an optional list of actions.
pub open spec fn optional_actions(optional: Option<Vec<Action>>) -> Option<Seq<ActionView>> {
    match optional {
        Some(actions) => Some(action_views(actions@)),
        None => None,
    }
}

/// The views of an optional list of operations.
pub open spec fn optional_operations(optional: Option<Vec<Operation>>) -> Option<
    Seq<OperationView>,
> {
    match optional {
        Some(operations) => Some(operation_views(operations@)),
        None => None,
    }
}

/// The mathematical value of an optional binding.
pub open spec fn optional_binding(optional: Option<OptionalFunction>) -> Option<
    Option<FunctionView>,
> {
    match optional {
        Some(binding) => Some(binding@),
        None => None,
    }
}

/// A text member.
fn decode_text(member: Option<&Json>) -> (text: Option<String>)
    ensures
        optional_view(text) == decoded_text(found_view(member)),
{
    match member {
        Some(Json::Text(text)) => Some(text.clone()),
        _ => None,
    }
}

/// An entry point selector.
fn decode_method(member: Option<&Json>) -> (method: Option<GrpcMethod>)
    ensures
        method == decoded_method(found_view(member)),
{
    match member {
        Some(Json::Text(text)) => {
            if reads(text, "A") {
                Some(GrpcMethod::A)
            } else if reads(text, "B") {
                Some(GrpcMethod::B)
            } else if reads(text, "C") {
                Some(GrpcMethod::C)
            } else {
                None
            }
        },
        _ => None,
    }
}

/// A duration in milliseconds.
fn decode_duration(member: Option<&Json>) -> (millis: Option<u64>)
    ensures
        millis == decoded_duration(found_view(member)),
{
    match member {
        Some(Json::Number { unsigned: Some(millis), binary64: _ }) => Some(*millis),
        _ => None,
    }
}

/// A failure chance.
fn decode_chance(member: Option<&Json>) -> (chance: Option<Option<u64>>)
    ensures
        chance == decoded_chance(found_view(member)),
{
    match member {
        None => Some(None),
        Some(Json::Null) => Some(None),
        Some(Json::Number { unsigned: _, binary64: Some(bits) }) => Some(Some(*bits)),
        _ => None,
    }
}

/// The body of a `CallService` action.
fn decode_call(body: &Json) -> (action: Option<Action>)
    ensures
        optional_view(action) == decoded_call(body@),
{
    match body {
        Json::Object(members) => {
            let service_address = decode_text(find(members, "service_address"));
            let service_port = decode_text(find(members, "service_port"));
            let grpc_method = decode_method(find(members, "grpc_method"));
            match (service_address, service_port, grpc_method) {
                (Some(service_address), Some(service_port), Some(grpc_method)) => Some(
                    Action::CallService { service_address, service_port, grpc_method },
                ),
                _ => None,
            }
        },
        _ => None,
    }
}

/// The body of a `Sleep` action.
fn decode_sleep(body: &Json) -> (action: Option<Action>)
    ensures
        optional_view(action) == decoded_sleep(body@),
{
    match body {
        Json::Object(members) => {
            let tracing_name = decode_text(find(members, "tracing_name"));
            let duration_ms = decode_duration(find(members, "duration_ms"));
            let failure_chance = decode_chance(find(members, "failure_chance"));
            match (tracing_name, duration_ms, failure_chance) {
                (Some(tracing_name), Some(duration_ms), Some(failure_chance)) => Some(
                    Action::Sleep { tracing_name, duration_ms, failure_chance },
                ),
                _ => None,
            }
        },
        _ => None,
    }
}

/// Decodes an action.
pub fn decode_action(json: &Json) -> (action: Option<Action>)
    ensures
        optional_view(action) == decoded_action(json@),
    decreases json@,
{
    match json {
        Json::Object(members) => {
            if members.len() == 1 {
                let tag = &members[0].0;
                let body = &members[0].1;
                assert(member_views(members@)[0] == (tag@, body@));
                if reads(tag, "Function") {
                    match decode_function(body) {
                        Some(function) => Some(Action::Function(function)),
                        None => None,
                    }
                } else if reads(tag, "CallService") {
                    decode_call(body)
                } else if reads(tag, "Sleep") {
                    decode_sleep(body)
                } else {
                    None
                }
            } else {
                None
            }
        },
        _ => None,
    }
}

/// Decodes a list of actions: all of them, or none.
fn decode_actions(items: &Vec<Json>) -> (actions: Option<Vec<Action>>)
    ensures
        optional_actions(actions) == decoded_actions(item_views(items@), items@.len()),
    decreases item_views(items@),
{
    let mut actions: Vec<Action> = Vec::new();
    let mut index: usize = 0;
    while index < items.len()
        invariant
            index <= items.len(),
            decoded_actions(item_views(items@), index as nat) == Some(action_views(actions@)),
        decreases items.len() - index,
    {
        assert(item_views(items@)[index as int] == items@[index as int]@);
        match decode_action(&items[index]) {
            Some(action) => {
                let ghost before = action_views(actions@);
                let ghost last = action@;
                actions.push(action);
                assert(action_views(actions@) =~= before.push(last));
            },
            None => {
                proof {
                    missing_action_spoils(item_views(items@), (index + 1) as nat, items@.len());
                }
                return None;
            },
        }
        index = index + 1;
    }
    Some(actions)
}

/// Decodes an operation.
pub fn decode_operation(json: &Json) -> (operation: Option<Operation>)
    ensures
        optional_view(operation) == decoded_operation(json@),
    decreases json@,
{
    match json {
        Json::Object(members) => {
            if members.len() == 1 {
                let tag = &members[0].0;
                let body = &members[0].1;
                assert(member_views(members@)[0] == (tag@, body@));
                if reads(tag, "Action") {
                    match decode_action(body) {
                        Some(action) => Some(Operation::Action(action)),
                        None => None,
                    }
                } else if reads(tag, "ConcurrentActions") {
                    match body {
                        Json::Array(items) => match decode_actions(items) {
                            Some(actions) => Some(Operation::ConcurrentActions(actions)),
                            None => None,
                        },
                        _ => None,
                    }
                } else {
                    None
                }
            } else {
                None
            }
        },
        _ => None,
    }
}

/// Decodes a list of operations: all of them, or none.
fn decode_operations(items: &Vec<Json>) -> (operations: Option<Vec<Operation>>)
    ensures
        optional_operations(operations) == decoded_operations(item_views(items@), items@.len()),
    decreases item_views(items@),
{
    let mut operations: Vec<Operation> = Vec::new();
    let mut index: usize = 0;
    while index < items.len()
        invariant
            index <= items.len(),
            decoded_operations(item_views(items@), index as nat) == Some(
                operation_views(operations@),
            ),
        decreases items.len() - index,
    {
        assert(item_views(items@)[index as int] == items@[index as int]@);
        match decode_operation(&items[index]) {
            Some(operation) => {
                let ghost before = operation_views(operations@);
                let ghost last = operation@;
                operations.push(operation);
                assert(operation_views(operations@) =~= before.push(last));
            },
            None => {
                proof {
                    missing_operation_spoils(
                        item_views(items@),
                        (index + 1) as nat,
                        items@.len(),
                    );
                }
                return None;
            },
        }
        index = index + 1;
    }
    Some(operations)
}

/// Decodes a function.
pub fn decode_function(json: &Json) -> (function: Option<Function>)
    ensures
        optional_view(function) == decoded_function(json@),
    decreases json@,
{
    match json {
        Json::Object(members) => {
            match find(members, "operations") {
                Some(Json::Array(items)) => {
                    let tracing_name = decode_text(find(members, "tracing_name"));
                    let operations = decode_operations(items);
                    match (tracing_name, operations) {
                        (Some(tracing_name), Some(operations)) => Some(
                            Function { tracing_name, operations },
                        ),
                        _ => None,
                    }
                },
                _ => None,
            }
        },
        _ => None,
    }
}

/// Decodes the binding of an entry point.
fn decode_binding(member: Option<&Json>) -> (binding: Option<OptionalFunction>)
    ensures
        optional_binding(binding) == decoded_binding(found_view(member)),
{
    match member {
        None => None,
        Some(Json::Null) => Some(OptionalFunction(None)),
        Some(json) => match decode_function(json) {
            Some(function) => Some(OptionalFunction(Some(function))),
            None => None,
        },
    }
}

/// Decodes a service definition.
pub fn decode_service(json: &Json) -> (service: Option<ThespianInstance>)
    ensures
        optional_view(service) == decoded_service(json@),
{
    match json {
        Json::Object(members) => {
            let service_name = decode_text(find(members, "service_name"));
            let grpc_method_a = decode_binding(find(members, "grpc_method_a"));
            let grpc_method_b = decode_binding(find(members, "grpc_method_b"));
            let grpc_method_c = decode_binding(find(members, "grpc_method_c"));
            match (service_name, grpc_method_a, grpc_method_b, grpc_method_c) {
                (
                    Some(service_name),
                    Some(grpc_method_a),
                    Some(grpc_method_b),
                    Some(grpc_method_c),
                ) => Some(
                    ThespianInstance { service_name, grpc_method_a, grpc_method_b, grpc_method_c },
                ),
                _ => None,
            }
        },
        _ => None,
    }
}

/// A list in which one item is no action is no list of actions.
proof fn missing_action_spoils(items: Seq<JsonView>, bad: nat, count: nat)
    requires
        0 < bad <= count <= items.len(),
        decoded_actions(items, bad) is None,
    ensures
        decoded_actions(items, count) is None,
    decreases count,
{
    if count > bad {
        missing_action_spoils(items, bad, (count - 1) as nat);
    }
}

/// A list in which one item is no operation is no list of operations.
proof fn missing_operation_spoils(items: Seq<JsonView>, bad: nat, count: nat)
    requires
        0 < bad <= count <= items.len(),
        decoded_operations(items, bad) is None,
    ensures
        decoded_operations(items, count) is None,
    decreases count,
{
    if count > bad {
        missing_operation_spoils(items, bad, (count - 1) as nat);
    }
}

} // verus!
