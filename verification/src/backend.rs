//! The audio backends of this build and the names that select them.

use vstd::prelude::*;

use crate::error::Error;
use crate::text;

verus! {

/// The host audio stack that a sound device is backed by.
#[derive(Clone, Copy, Debug, PartialEq, Eq, Structural)]
pub enum BackendType {
    /// Plays nothing and records silence.
    Null,
    /// The PipeWire media server.
    Pipewire,
    /// The ALSA sound system.
    Alsa,
}

impl BackendType {
    /// The name that selects this backend on the command line.
    pub open spec fn name(self) -> Seq<char> {
        match self {
            BackendType::Null => "null"@,
            BackendType::Pipewire => "pipewire"@,
            BackendType::Alsa => "alsa"@,
        }
    }

    /// The backend that `name` selects, if it selects one. Names are matched
    /// letter for letter: nothing is trimmed and case counts.
    pub open spec fn resolve(name: Seq<char>) -> Option<BackendType> {
        if name == BackendType::Null.name() {
            Some(BackendType::Null)
        } else if name == BackendType::Pipewire.name() {
            Some(BackendType::Pipewire)
        } else if name == BackendType::Alsa.name() {
            Some(BackendType::Alsa)
        } else {
            None
        }
    }

    /// The name that selects this backend.
    pub fn as_str(self) -> (r: &'static str)
        ensures
            r@ == self.name(),
    {
        match self {
            BackendType::Null => "null",
            BackendType::Pipewire => "pipewire",
            BackendType::Alsa => "alsa",
        }
    }

    /// Resolves a backend name. A name that selects no backend is an error;
    /// no backend stands in for it.
    pub fn from_name(name: &str) -> (r: Result<BackendType, Error>)
        ensures
            r == match BackendType::resolve(name@) {
                Some(backend) => Ok::<BackendType, Error>(backend),
                None => Err(Error::UnknownBackend),
            },
    {
        if text::equal(name, "null") {
            Ok(BackendType::Null)
        } else if text::equal(name, "pipewire") {
            Ok(BackendType::Pipewire)
        } else if text::equal(name, "alsa") {
            Ok(BackendType::Alsa)
        } else {
            Err(Error::UnknownBackend)
        }
    }

    /// No two backends share a name: every backend is the one that its own
    /// name resolves to, and a name resolves only to the backend that bears it.
    pub proof fn lemma_names_resolve(backend: BackendType, name: Seq<char>)
        ensures
            BackendType::resolve(backend.name()) == Some(backend),
            BackendType::resolve(name) == Some(backend) <==> name == backend.name(),
    {
        reveal_strlit("null");
        reveal_strlit("pipewire");
        reveal_strlit("alsa");
        assert("null"@.len() == 4 && "pipewire"@.len() == 8 && "alsa"@.len() == 4);
        assert("null"@[0] == 'n' && "alsa"@[0] == 'a');
    }
}

impl Default for BackendType {
    /// The backend that needs nothing from the host.
    fn default() -> (r: BackendType)
        ensures
            r == BackendType::Null,
    {
        BackendType::Null
    }
}

} // verus!
