//! The seam between a step that waits for the device and the step that follows.

use vstd::prelude::*;

verus! {

/// A command that is resumed with the outcome of the step before it.
pub trait ChainedCommand: Sized {
    /// What the command is resumed with.
    type Arg;

    /// What the command turns into.
    type Into;

    /// Whether the command, resumed with `arg`, can turn into `into`. A
    /// command that does not say is taken to turn into anything.
    open spec fn chains_into(self, arg: Self::Arg, into: Self::Into) -> bool {
        true
    }

    /// Resumes the command.
    fn chain(self, arg: Self::Arg) -> (into: Self::Into)
        ensures
            self.chains_into(arg, into),
    ;
}

} // verus!
