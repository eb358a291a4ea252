use vstd::prelude::*;

verus! {

/// What the application asks of the framework after a callback.
#[derive(Debug, Copy, Clone, PartialEq, Eq, Structural)]
pub enum Flow {
    Exit(i32),
    Continue,
}

impl Flow {
    pub open spec fn spec_exit_code(self) -> i32 {
        match self {
            Flow::Exit(code) => code,
            Flow::Continue => 0,
        }
    }

    /// The flow that ends the program successfully: `Exit(0)`.
    pub fn success() -> (r: Flow)
        ensures
            r == Flow::Exit(0),
    {
        Flow::Exit(0)
    }

    /// The flow that ends the program with a failure: `Exit(1)`.
    pub fn failure() -> (r: Flow)
        ensures
            r == Flow::Exit(1),
    {
        Flow::Exit(1)
    }

    /// The code the process ends with: the one carried by `Exit`, zero otherwise.
    pub fn exit_code(&self) -> (r: i32)
        ensures
            r == self.spec_exit_code(),
    {
        match self {
            Flow::Exit(code) => *code,
            Flow::Continue => 0,
        }
    }
}

impl Default for Flow {
    fn default() -> (r: Flow)
        ensures
            r == Flow::Exit(0),
    {
        Flow::Exit(0)
    }
}

} // verus!
