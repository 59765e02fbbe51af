//! Exception details of the exception in a chain.
use vstd::prelude::*;

use super::stackframe::{clone_opt_string, StackFrame};

verus! {

/// Exception details of the exception in a chain.
#[derive(Debug)]
pub struct ExceptionDetails {
    /// In case exception is nested (outer exception contains inner one), the id and outerId properties are used to represent the nesting.
    pub id: Option<i32>,
    /// The value of outerId is a reference to an element in ExceptionDetails that represents the outer exception.
    pub outer_id: Option<i32>,
    /// Exception type name.
    pub typename: String,
    /// Exception message.
    pub message: String,
    /// Indicates if full exception stack is provided in the exception.
    pub has_full_stack: Option<bool>,
    /// Text describing the stack. Either stack or parsedStack should have a value.
    pub stack: Option<String>,
    /// List of stack frames. Either stack or parsedStack should have a value.
    pub parsed_stack: Option<StackFrame>,
}

impl Clone for ExceptionDetails {
    /// A copy of the details.
    fn clone(&self) -> (r: Self)
        ensures
            r == *self,
    {
        ExceptionDetails {
            id: self.id,
            outer_id: self.outer_id,
            typename: self.typename.clone(),
            message: self.message.clone(),
            has_full_stack: self.has_full_stack,
            stack: clone_opt_string(&self.stack),
            parsed_stack: match &self.parsed_stack {
                Some(frame) => Some(frame.clone()),
                None => None,
            },
        }
    }
}

impl Default for ExceptionDetails {
    fn default() -> (r: Self)
        ensures
            r.id is None,
            r.outer_id is None,
            r.typename@ == Seq::<char>::empty(),
            r.message@ == Seq::<char>::empty(),
            r.has_full_stack == Some(true),
            r.stack is None,
            r.parsed_stack is None,
    {
        Self {
            id: None,
            outer_id: None,
            typename: String::new(),
            message: String::new(),
            has_full_stack: Some(true),
            stack: None,
            parsed_stack: None,
        }
    }
}

} // verus!
