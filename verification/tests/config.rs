use vhost_device_sound::backend::BackendType;
use vhost_device_sound::config::{configure, SoundArgs, SoundConfig};
use vhost_device_sound::error::Error;

fn from_args(socket: &str) -> SoundArgs {
    SoundArgs {
        socket: socket.to_string(),
        backend: BackendType::default(),
    }
}

#[test]
fn test_sound_config_setup() {
    let args = from_args("/tmp/vhost-sound.socket");

    let config = SoundConfig::try_from(args);
    assert!(config.is_ok());

    let config = config.unwrap();
    assert_eq!(config.get_socket_path(), "/tmp/vhost-sound.socket");
}

#[test]
fn plain_socket_and_null_backend() {
    let config = configure("/tmp/vhost-sound.socket", "null").unwrap();
    assert_eq!(config.get_socket_path(), "/tmp/vhost-sound.socket");
    assert!(!config.is_multi_thread());
    assert_eq!(config.get_audio_backend(), BackendType::Null);
}

#[test]
fn socket_is_trimmed() {
    let config = configure("  /tmp/a.sock ", "null").unwrap();
    assert_eq!(config.get_socket_path(), "/tmp/a.sock");
    assert!(!config.is_multi_thread());
    assert_eq!(config.get_audio_backend(), BackendType::Null);
}

#[test]
fn unknown_backend_gives_no_config() {
    let config = configure("/tmp/vhost-sound.socket", "unknown-name");
    assert!(matches!(config, Err(Error::UnknownBackend)));
}

#[test]
fn unknown_backend_is_refused_whatever_the_socket() {
    for socket in ["", " ", "/tmp/a.sock", "  /tmp/a.sock  "] {
        for name in ["", "Null", "NULL", " null", "null ", "pulse", "alsa\n"] {
            assert!(matches!(configure(socket, name), Err(Error::UnknownBackend)));
        }
    }
}

#[test]
fn try_from_trims_every_kind_of_whitespace() {
    let cases = [
        ("", ""),
        (" ", ""),
        ("\t\n\r ", ""),
        ("/run/sound.sock", "/run/sound.sock"),
        (" /run/sound.sock", "/run/sound.sock"),
        ("/run/sound.sock\n", "/run/sound.sock"),
        ("\t /run/sound.sock \r\n", "/run/sound.sock"),
        ("\u{a0}/run/sound.sock\u{3000}", "/run/sound.sock"),
        ("\u{2003}\u{2028}x\u{85}", "x"),
        ("  /run/my sound.sock  ", "/run/my sound.sock"),
        ("  a \t b  ", "a \t b"),
        ("\u{200b}/run/s\u{200b}", "\u{200b}/run/s\u{200b}"),
        (" é/ü ", "é/ü"),
    ];
    for (input, expected) in cases {
        let config = SoundConfig::try_from(from_args(input)).unwrap();
        assert_eq!(config.get_socket_path(), expected);
        assert_eq!(config.get_socket_path(), input.trim());
    }
}

#[test]
fn try_from_result_needs_no_second_trim() {
    for input in ["  /tmp/a.sock ", "\t\t", "a  b ", "\u{a0}x y\u{a0}"] {
        let once = SoundConfig::try_from(from_args(input)).unwrap();
        let twice = SoundConfig::try_from(from_args(&once.get_socket_path())).unwrap();
        assert_eq!(twice.get_socket_path(), once.get_socket_path());
    }
}

#[test]
fn try_from_passes_the_backend_through() {
    for backend in [BackendType::Null, BackendType::Pipewire, BackendType::Alsa] {
        let args = SoundArgs {
            socket: String::from(" /tmp/b.sock"),
            backend,
        };
        let config = SoundConfig::try_from(args).unwrap();
        assert_eq!(config.get_audio_backend(), backend);
        assert_eq!(config.get_socket_path(), "/tmp/b.sock");
    }
}

#[test]
fn try_from_never_enables_multi_thread() {
    for backend in [BackendType::Null, BackendType::Pipewire, BackendType::Alsa] {
        for socket in ["", " x ", "/tmp/vhost-sound.socket"] {
            let args = SoundArgs {
                socket: socket.to_string(),
                backend,
            };
            assert!(!SoundConfig::try_from(args).unwrap().is_multi_thread());
        }
    }
}

#[test]
fn new_keeps_its_arguments() {
    let config = SoundConfig::new(String::from(" raw "), true, BackendType::Alsa);
    assert_eq!(config.get_socket_path(), " raw ");
    assert!(config.is_multi_thread());
    assert_eq!(config.get_audio_backend(), BackendType::Alsa);
}

#[test]
fn clone_keeps_every_field() {
    let config = SoundConfig::new(String::from("/tmp/c.sock"), true, BackendType::Pipewire);
    let copy = config.clone();
    assert_eq!(copy.get_socket_path(), "/tmp/c.sock");
    assert!(copy.is_multi_thread());
    assert_eq!(copy.get_audio_backend(), BackendType::Pipewire);
    assert_eq!(config.get_socket_path(), "/tmp/c.sock");
}
