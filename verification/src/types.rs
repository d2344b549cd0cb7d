//! The data model: task lifecycle states, tasks, the typed `Action` that
//! parsing produces, and the error taxonomy for parsing and for the store
//! gateway.

use vstd::prelude::*;

verus! {

/// Lifecycle stage of a task. `All` never appears as a stored state: it is a
/// filter-only value that matches every stored state when listing.
#[derive(Debug, Clone, Copy, PartialEq, Eq, Structural)]
pub enum State {
    Pending,
    Done,
    Dropped,
    All,
}

/// The stable small-integer encoding of each storable state, as it is kept in
/// the store: pending is 1, done is 2, dropped is 3. The filter-only `All` is
/// never stored; it is given the (unused) code 0 here so the function is total.
pub open spec fn state_code(s: State) -> u32 {
    match s {
        State::Pending => 1,
        State::Done => 2,
        State::Dropped => 3,
        State::All => 0,
    }
}

/// The state a stored code denotes. Codes outside the stable encoding decode
/// to `Pending`, matching how rows written before any transition are read.
pub open spec fn state_of_code(code: u32) -> State {
    if code == 2 {
        State::Done
    } else if code == 3 {
        State::Dropped
    } else {
        State::Pending
    }
}

/// Decoding inverts encoding on every storable state: the stored
/// representation of a task's state is stable across runs.
pub proof fn lemma_state_code_round_trip(s: State)
    requires
        s != State::All,
    ensures
        state_of_code(state_code(s)) == s,
{
}

/// Executable decoder for the state column of a stored row.
pub fn state_from_code(code: u32) -> (s: State)
    ensures
        s == state_of_code(code),
{
    if code == 2 {
        State::Done
    } else if code == 3 {
        State::Dropped
    } else {
        State::Pending
    }
}

/// One tracked item: a store-assigned positive identifier, the user's text,
/// and the lifecycle state.
#[derive(Debug, Clone, PartialEq, Eq)]
pub struct Task {
    pub id: u32,
    pub description: String,
    pub state: State,
}

/// The typed result of interpreting the command-line arguments: exactly one
/// variant per invocation, or parsing fails with a `ParseError`.
#[derive(Debug, Clone, PartialEq, Eq)]
pub enum Action {
    Help,
    List(State),
    Add(String),
    Done(u32),
    Drop(u32),
}

/// Why the argument list could not be turned into an `Action`.
#[derive(Debug, Clone, PartialEq, Eq)]
pub enum ParseError {
    /// No verb was supplied after the program name.
    MissingVerb,
    /// A verb that requires a second argument received none.
    MissingArgument,
    /// A numeric argument failed to parse as a non-negative 32-bit integer;
    /// carries the offending text.
    NotANumber(String),
    /// The verb is not recognized; carries the verb.
    UnknownAction(String),
    /// The list filter token is not recognized; carries the token.
    UnknownFilter(String),
}

/// Why the store gateway could not carry an `Action` out.
#[derive(Debug, Clone, Copy, PartialEq, Eq, Structural)]
pub enum StoreError {
    /// The store could not be queried.
    StoreUnavailable,
    /// The insert of a new task failed.
    UnableToAddTask,
    /// A state update matched no row, or the write failed; the gateway does
    /// not distinguish the two.
    InvalidTaskNumber,
}

/// The mathematical shadow of `Action`: the same variants over `Seq<char>`
/// instead of `String`, so contracts can speak of parse results by value.
pub enum ActionModel {
    Help,
    List(State),
    Add(Seq<char>),
    Done(u32),
    Drop(u32),
}

/// The mathematical shadow of `ParseError`.
pub enum ParseErrorModel {
    MissingVerb,
    MissingArgument,
    NotANumber(Seq<char>),
    UnknownAction(Seq<char>),
    UnknownFilter(Seq<char>),
}

/// The model an `Action` value denotes.
pub open spec fn action_model(a: Action) -> ActionModel {
    match a {
        Action::Help => ActionModel::Help,
        Action::List(f) => ActionModel::List(f),
        Action::Add(s) => ActionModel::Add(s@),
        Action::Done(n) => ActionModel::Done(n),
        Action::Drop(n) => ActionModel::Drop(n),
    }
}

/// The model a `ParseError` value denotes.
pub open spec fn parse_error_model(e: ParseError) -> ParseErrorModel {
    match e {
        ParseError::MissingVerb => ParseErrorModel::MissingVerb,
        ParseError::MissingArgument => ParseErrorModel::MissingArgument,
        ParseError::NotANumber(s) => ParseErrorModel::NotANumber(s@),
        ParseError::UnknownAction(s) => ParseErrorModel::UnknownAction(s@),
        ParseError::UnknownFilter(s) => ParseErrorModel::UnknownFilter(s@),
    }
}

impl ParseError {
    /// The single line shown to the user for this parse failure.
    pub fn message(&self) -> (r: String)
        ensures
            *self is MissingVerb ==> r@ == "Need at least 1 parameter, please use the 'help' action."@,
            *self is MissingArgument ==> r@ == "This action needs two parameters."@,
            (self matches ParseError::NotANumber(s) ==> r@ == s@ + " is not a number."@),
            *self is UnknownAction ==> r@ == "Unknown action, please refer to the 'help' action."@,
            (self matches ParseError::UnknownFilter(s) ==> r@ == "Unknown filter: "@ + s@),
    {
        match self {
            ParseError::MissingVerb => String::from_str(
                "Need at least 1 parameter, please use the 'help' action.",
            ),
            ParseError::MissingArgument => String::from_str("This action needs two parameters."),
            ParseError::NotANumber(s) => s.clone().concat(" is not a number."),
            ParseError::UnknownAction(_) => String::from_str(
                "Unknown action, please refer to the 'help' action.",
            ),
            ParseError::UnknownFilter(s) => {
                let mut m = String::from_str("Unknown filter: ");
                m.append(s.as_str());
                m
            },
        }
    }
}

impl StoreError {
    /// The single line shown to the user for this gateway failure.
    pub fn message(&self) -> (r: String)
        ensures
            *self is StoreUnavailable ==> r@ == "Unable to query the task store."@,
            *self is UnableToAddTask ==> r@ == "Unable to add task."@,
            *self is InvalidTaskNumber ==> r@ == "Invalid task number"@,
    {
        match self {
            StoreError::StoreUnavailable => String::from_str("Unable to query the task store."),
            StoreError::UnableToAddTask => String::from_str("Unable to add task."),
            StoreError::InvalidTaskNumber => String::from_str("Invalid task number"),
        }
    }
}

} // verus!
