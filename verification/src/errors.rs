//! Configuration errors. Each is detected at generation time, pinpoints the
//! offending item, and aborts generation entirely: no partial output.

use vstd::prelude::*;

verus! {

/// Why generation was refused.
#[derive(Debug)]
pub enum ConfigError {
    /// No eligible `new`/`try_new` was found. `trait_target` distinguishes a
    /// polymorphic (trait-based) target, which cannot carry a default
    /// constructor and gets its own diagnostic.
    MissingConstructor { trait_target: bool },
    /// An asynchronous method was declared while the configured backend is
    /// synchronous-only; `method` names the offending method.
    AsyncWithoutRuntime { method: String },
    /// A withdrawal was requested for an identifier that matches no generated
    /// fragment; `name` is the unmatched identifier.
    UnknownOverrideTarget { name: String },
}

/// A runtime fault. None of these is recovered or retried anywhere: a
/// non-functioning run-loop invalidates the instance, so failures surface
/// loudly to the host unit instead of being swallowed.
#[derive(Clone, Copy, PartialEq, Eq, Structural, Debug)]
pub enum RuntimeFault {
    /// The dispatcher's reply sender found its peer already dropped: a caller
    /// abandoned its reply slot, which is a programming error, fatal to the
    /// run-loop's host unit.
    DispatchReplyClosed,
    /// The proxy sent into a channel whose run-loop exited, or the awaited
    /// reply can never arrive: the instance's state is gone, fatal to the
    /// calling operation.
    ProxySendClosed,
    /// A dispatched method failed on its own terms (its arithmetic would
    /// wrap); exceptions inside dispatched methods are not caught, so this
    /// terminates the run-loop's host unit.
    MethodPanicked,
}

impl ConfigError {
    /// A short, stable diagnostic label for each error kind.
    pub fn label(&self) -> (r: &'static str)
        ensures
            self is MissingConstructor ==> r@ == "missing constructor"@,
            self is AsyncWithoutRuntime ==> r@ == "async without runtime"@,
            self is UnknownOverrideTarget ==> r@ == "unknown override target"@,
    {
        proof {
            reveal_strlit("missing constructor");
            reveal_strlit("async without runtime");
            reveal_strlit("unknown override target");
        }
        match self {
            ConfigError::MissingConstructor { .. } => "missing constructor",
            ConfigError::AsyncWithoutRuntime { .. } => "async without runtime",
            ConfigError::UnknownOverrideTarget { .. } => "unknown override target",
        }
    }
}

} // verus!
