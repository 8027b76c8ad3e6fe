//! The application value: the parsed options, held for the lifetime of the
//! process. The event loop that drives it lives outside the verified core.

use vstd::prelude::*;

use crate::args::Args;

verus! {

pub struct Application {
    args: Args,
}

impl Application {
    /// The options this application was started with.
    pub closed spec fn args_view(&self) -> Args {
        self.args
    }

    pub fn new(args: Args) -> (a: Self)
        ensures
            a.args_view() == args,
    {
        Application { args }
    }

    pub fn args(&self) -> (r: &Args)
        ensures
            *r == self.args_view(),
    {
        &self.args
    }
}

} // verus!
