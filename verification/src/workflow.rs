//! The workflow model: functions, operations and actions, and their views.

use vstd::prelude::*;

verus! {

/// The entry point that a downstream call targets.
#[derive(Clone, Copy, Debug, PartialEq, Eq, Structural)]
pub enum GrpcMethod {
    A,
    B,
    C,
}

/// An atomic unit of work.
#[derive(Debug, PartialEq, Eq)]
pub enum Action {
    /// Evaluate another function inline.
    Function(Function),
    /// Call one entry point of a downstream instance.
    CallService { service_address: String, service_port: String, grpc_method: GrpcMethod },
    /// Suspend for `duration_ms`, then fail with the probability whose IEEE 754
    /// binary64 bit pattern is `failure_chance`, if there is one.
    Sleep { tracing_name: String, duration_ms: u64, failure_chance: Option<u64> },
}

/// One step of a function: a single action, or actions that run side by side.
#[derive(Debug, PartialEq, Eq)]
pub enum Operation {
    ConcurrentActions(Vec<Action>),
    Action(Action),
}

/// A labelled, ordered sequence of operations.
#[derive(Debug, PartialEq, Eq)]
pub struct Function {
    pub tracing_name: String,
    pub operations: Vec<Operation>,
}

/// The binding of an entry point: a function, or nothing.
#[derive(Debug, PartialEq, Eq)]
pub struct OptionalFunction(pub Option<Function>);

/// The mathematical value of an [`Action`].
pub enum ActionView {
    Function(FunctionView),
    CallService { service_address: Seq<char>, service_port: Seq<char>, grpc_method: GrpcMethod },
    Sleep { tracing_name: Seq<char>, duration_ms: u64, failure_chance: Option<u64> },
}

/// The mathematical value of an [`Operation`].
pub enum OperationView {
    ConcurrentActions(Seq<ActionView>),
    Action(ActionView),
}

/// The mathematical value of a [`Function`].
pub struct FunctionView {
    pub tracing_name: Seq<char>,
    pub operations: Seq<OperationView>,
}

/// The views of a list of actions, in order.
pub open spec fn action_views(actions: Seq<Action>) -> Seq<ActionView>
    decreases actions,
{
    Seq::new(
        actions.len(),
        |i: int|
            if 0 <= i < actions.len() {
                actions[i]@
            } else {
                arbitrary()
            },
    )
}

/// The views of a list of operations, in order.
pub open spec fn operation_views(operations: Seq<Operation>) -> Seq<OperationView>
    decreases operations,
{
    Seq::new(
        operations.len(),
        |i: int|
            if 0 <= i < operations.len() {
                operations[i]@
            } else {
                arbitrary()
            },
    )
}

impl View for Action {
    type V = ActionView;

    open spec fn view(&self) -> ActionView
        decreases self,
    {
        match self {
            Action::Function(function) => ActionView::Function(function@),
            Action::CallService { service_address, service_port, grpc_method } => {
                ActionView::CallService {
                    service_address: service_address@,
                    service_port: service_port@,
                    grpc_method: *grpc_method,
                }
            },
            Action::Sleep { tracing_name, duration_ms, failure_chance } => ActionView::Sleep {
                tracing_name: tracing_name@,
                duration_ms: *duration_ms,
                failure_chance: *failure_chance,
            },
        }
    }
}

impl View for Operation {
    type V = OperationView;

    open spec fn view(&self) -> OperationView
        decreases self,
    {
        match self {
            Operation::ConcurrentActions(actions) => OperationView::ConcurrentActions(
                action_views(actions@),
            ),
            Operation::Action(action) => OperationView::Action(action@),
        }
    }
}

impl View for Function {
    type V = FunctionView;

    open spec fn view(&self) -> FunctionView
        decreases self,
    {
        FunctionView {
            tracing_name: self.tracing_name@,
            operations: operation_views(self.operations@),
        }
    }
}

impl View for OptionalFunction {
    type V = Option<FunctionView>;

    open spec fn view(&self) -> Option<FunctionView> {
        match self.0 {
            Some(function) => Some(function@),
            None => None,
        }
    }
}

} // verus!
