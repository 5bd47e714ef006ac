//! From command-line input to the configuration of the backend server.

use vstd::prelude::*;

use crate::backend::BackendType;
use crate::error::Error;
use crate::text;
use crate::text::trimmed;

verus! {

/// The launcher's command-line input, as the argument parser hands it over:
/// the socket path as it was typed, and the backend that the name resolved to.
#[derive(Debug)]
pub struct SoundArgs {
    /// vhost-user Unix domain socket path.
    pub socket: String,
    /// Audio backend to be used.
    pub backend: BackendType,
}

/// What the backend server is started with.
#[derive(Debug)]
pub struct SoundConfig {
    socket: String,
    multi_thread: bool,
    audio_backend: BackendType,
}

/// A [`SoundConfig`] as plain values.
pub struct SoundConfigView {
    /// Path of the vhost-user Unix domain socket.
    pub socket: Seq<char>,
    /// Whether the virtqueues are handled by several threads.
    pub multi_thread: bool,
    /// The audio backend of the device.
    pub audio_backend: BackendType,
}

impl View for SoundConfig {
    type V = SoundConfigView;

    closed spec fn view(&self) -> SoundConfigView {
        SoundConfigView {
            socket: self.socket@,
            multi_thread: self.multi_thread,
            audio_backend: self.audio_backend,
        }
    }
}

/// The configuration that the launcher derives from its input: the socket
/// path without the whitespace around it, one thread, and the backend as given.
pub open spec fn configured(socket: Seq<char>, backend: BackendType) -> SoundConfigView {
    SoundConfigView { socket: trimmed(socket), multi_thread: false, audio_backend: backend }
}

impl SoundConfig {
    /// A configuration of exactly these values.
    pub fn new(socket: String, multi_thread: bool, audio_backend: BackendType) -> (r: SoundConfig)
        ensures
            r@ == (SoundConfigView { socket: socket@, multi_thread, audio_backend }),
    {
        SoundConfig { socket, multi_thread, audio_backend }
    }

    /// Path of the Unix domain socket on which the server listens.
    pub fn get_socket_path(&self) -> (r: String)
        ensures
            r@ == self@.socket,
    {
        self.socket.clone()
    }

    /// Whether the virtqueues are handled by several threads.
    pub fn is_multi_thread(&self) -> (r: bool)
        ensures
            r == self@.multi_thread,
    {
        self.multi_thread
    }

    /// The audio backend of the device.
    pub fn get_audio_backend(&self) -> (r: BackendType)
        ensures
            r == self@.audio_backend,
    {
        self.audio_backend
    }
}

impl Clone for SoundConfig {
    /// A second configuration of the same values.
    fn clone(&self) -> (r: SoundConfig)
        ensures
            r@ == self@,
    {
        SoundConfig {
            socket: self.socket.clone(),
            multi_thread: self.multi_thread,
            audio_backend: self.audio_backend,
        }
    }
}

impl TryFrom<SoundArgs> for SoundConfig {
    type Error = Error;

    /// Builds the configuration from parsed input. The backend was resolved
    /// by the parser, and nothing is asked of the socket path, so this
    /// succeeds on every input.
    fn try_from(cmd_args: SoundArgs) -> (r: Result<SoundConfig, Error>)
        ensures
            r is Ok,
            r->Ok_0@ == configured(cmd_args.socket@, cmd_args.backend),
            trimmed(r->Ok_0@.socket) == r->Ok_0@.socket,
    {
        proof {
            text::lemma_trimmed_idempotent(cmd_args.socket@);
        }
        let socket = text::trim(cmd_args.socket.as_str()).to_owned();
        Ok(SoundConfig::new(socket, false, cmd_args.backend))
    }
}

/// `try_from` is specified by its own `ensures`, over views: two strings
/// with the same characters are not known to be the same value, so no
/// specification-level result is given for it.
impl vstd::std_specs::convert::TryFromSpecImpl<SoundArgs> for SoundConfig {
    open spec fn obeys_try_from_spec() -> bool {
        false
    }

    open spec fn try_from_spec(cmd_args: SoundArgs) -> Result<SoundConfig, Error> {
        arbitrary()
    }
}

/// The whole way from the two command-line values to a configuration: the
/// backend name is resolved first, and only a name that selects a backend
/// leads to a configuration.
pub fn configure(socket: &str, backend: &str) -> (r: Result<SoundConfig, Error>)
    ensures
        match BackendType::resolve(backend@) {
            Some(b) => r is Ok && r->Ok_0@ == configured(socket@, b),
            None => r == Err::<SoundConfig, Error>(Error::UnknownBackend),
        },
{
    match BackendType::from_name(backend) {
        Ok(backend) => SoundConfig::try_from(SoundArgs { socket: socket.to_owned(), backend }),
        Err(err) => Err(err),
    }
}

} // verus!
