//! The policy that keeps the backend server running.
//!
//! The server is started once and started again every time it returns, with
//! the same configuration, without delay and without limit. Why it returned
//! is not asked. The supervisor decides; the program that drives it makes
//! the calls:
//!
//! ```text
//! let mut launch = supervisor.start();
//! loop {
//!     run_server(launch);
//!     launch = supervisor.on_return();
//! }
//! ```

use vstd::prelude::*;

use crate::config::SoundConfig;
use crate::config::SoundConfigView;

verus! {

/// Holds the configuration and hands out a copy of it for every launch.
#[derive(Debug)]
pub struct Supervisor {
    config: SoundConfig,
}

impl View for Supervisor {
    type V = SoundConfigView;

    /// The configuration that every launch is made with.
    closed spec fn view(&self) -> SoundConfigView {
        self.config@
    }
}

impl Supervisor {
    /// A supervisor for a server that runs with `config`.
    pub fn new(config: SoundConfig) -> (r: Supervisor)
        ensures
            r@ == config@,
    {
        Supervisor { config }
    }

    /// The first launch: what the server is started with.
    pub fn start(&self) -> (launch: SoundConfig)
        ensures
            launch@ == self@,
    {
        self.config.clone()
    }

    /// The server has returned: what it is started with again.
    pub fn on_return(&self) -> (launch: SoundConfig)
        ensures
            launch@ == self@,
    {
        self.config.clone()
    }

    /// The launches made by the time the server has returned `returned`
    /// times: the one of `start`, then one of `on_return` for every return.
    pub open spec fn launches(self, returned: nat) -> Seq<SoundConfigView>
        decreases returned,
    {
        if returned == 0 {
            seq![self@]
        } else {
            self.launches((returned - 1) as nat).push(self@)
        }
    }

    /// Every return is answered by a launch: once the server has returned
    /// `returned` times it has been launched `returned + 1` times, each time
    /// with the supervisor's configuration.
    pub proof fn lemma_launched_after_every_return(self, returned: nat)
        ensures
            self.launches(returned).len() == returned + 1,
            forall|i: int| 0 <= i <= returned ==> self.launches(returned)[i] == self@,
        decreases returned,
    {
        if returned > 0 {
            self.lemma_launched_after_every_return((returned - 1) as nat);
        }
    }
}

} // verus!
