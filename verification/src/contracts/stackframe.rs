//! Stack frame information.
use vstd::prelude::*;

verus! {

/// Stack frame information.
#[derive(Debug)]
pub struct StackFrame {
    /// Level in the call stack. For the long stacks SDK may not report every function in a stack.
    pub level: i32,
    /// Method name.
    pub method: String,
    /// Name of the assembly (dll, jar, etc.) containing this function.
    pub assembly: Option<String>,
    /// File name or URL of the method implementation.
    pub file_name: Option<String>,
    /// Line number of the code implementation.
    pub line: Option<i32>,
}

/// Creates: Stack frame information.
#[derive(Debug)]
pub struct StackFrameBuilder {
    /// Level in the call stack.
    pub level: i32,
    /// Method name.
    pub method: String,
    /// Name of the assembly (dll, jar, etc.) containing this function.
    pub assembly: Option<String>,
    /// File name or URL of the method implementation.
    pub file_name: Option<String>,
    /// Line number of the code implementation.
    pub line: Option<i32>,
}

/// A copy of an optional text.
pub(crate) fn clone_opt_string(o: &Option<String>) -> (r: Option<String>)
    ensures
        r == *o,
{
    match o {
        Some(s) => Some(s.clone()),
        None => None,
    }
}

impl Clone for StackFrame {
    /// A copy of the frame.
    fn clone(&self) -> (r: Self)
        ensures
            r == *self,
    {
        StackFrame {
            level: self.level,
            method: self.method.clone(),
            assembly: clone_opt_string(&self.assembly),
            file_name: clone_opt_string(&self.file_name),
            line: self.line,
        }
    }
}

impl Clone for StackFrameBuilder {
    /// A copy of the builder.
    fn clone(&self) -> (r: Self)
        ensures
            r == *self,
    {
        StackFrameBuilder {
            level: self.level,
            method: self.method.clone(),
            assembly: clone_opt_string(&self.assembly),
            file_name: clone_opt_string(&self.file_name),
            line: self.line,
        }
    }
}

impl Default for StackFrame {
    fn default() -> (r: Self)
        ensures
            r.level == 0,
            r.method@ == Seq::<char>::empty(),
            r.assembly is None,
            r.file_name is None,
            r.line is None,
    {
        Self { level: 0, method: String::new(), assembly: None, file_name: None, line: None }
    }
}

impl StackFrameBuilder {
    /// Creates a new [StackFrameBuilder] instance with default values set by the schema.
    pub fn new(level: i32, method: String) -> (r: Self)
        ensures
            r == (StackFrameBuilder { level, method, assembly: None, file_name: None, line: None }),
    {
        Self { level, method, assembly: None, file_name: None, line: None }
    }

    /// Sets: Name of the assembly (dll, jar, etc.) containing this function.
    pub fn assembly(&mut self, assembly: String) -> (r: &mut Self)
        ensures
            *r == (StackFrameBuilder { assembly: Some(assembly), ..*old(self) }),
            *final(self) == *final(r),
    {
        self.assembly = Some(assembly);
        self
    }

    /// Sets: File name or URL of the method implementation.
    pub fn file_name(&mut self, file_name: String) -> (r: &mut Self)
        ensures
            *r == (StackFrameBuilder { file_name: Some(file_name), ..*old(self) }),
            *final(self) == *final(r),
    {
        self.file_name = Some(file_name);
        self
    }

    /// Sets: Line number of the code implementation.
    pub fn line(&mut self, line: i32) -> (r: &mut Self)
        ensures
            *r == (StackFrameBuilder { line: Some(line), ..*old(self) }),
            *final(self) == *final(r),
    {
        self.line = Some(line);
        self
    }

    /// Creates a new [StackFrame] instance with values from [StackFrameBuilder].
    pub fn build(&self) -> (r: StackFrame)
        ensures
            r == (StackFrame {
                level: self.level,
                method: self.method,
                assembly: self.assembly,
                file_name: self.file_name,
                line: self.line,
            }),
    {
        StackFrame {
            level: self.level,
            method: self.method.clone(),
            assembly: clone_opt_string(&self.assembly),
            file_name: clone_opt_string(&self.file_name),
            line: self.line,
        }
    }
}

} // verus!
