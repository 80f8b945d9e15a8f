use cosmic_radio_applet::audio::{
    control_socket, player_args, player_program_name, volume_command, AudioManager, PlayStep,
    VolumeStep,
};
use cosmic_radio_applet::stream_url::{UrlError, UrlParts};
use cosmic_radio_applet::volume::{clamp_level, MAX_VOLUME};

#[test]
fn player_args_are_exact() {
    assert_eq!(
        player_args("https://ice1.somafm.com/groovesalad-128-mp3", 75),
        vec![
            "--no-video",
            "--volume=75",
            "--volume-max=200",
            "--af=lavfi=[dynaudnorm]",
            "--input-ipc-server=/tmp/cosmic-radio-mpv.sock",
            "https://ice1.somafm.com/groovesalad-128-mp3",
        ]
    );
}

#[test]
fn player_args_write_the_volume_in_decimal() {
    for (volume, text) in [
        (0u8, "--volume=0"),
        (7, "--volume=7"),
        (10, "--volume=10"),
        (99, "--volume=99"),
        (100, "--volume=100"),
        (109, "--volume=109"),
        (200, "--volume=200"),
        (255, "--volume=255"),
    ] {
        let args = player_args("http://example.com/", volume);
        assert_eq!(args.len(), 6);
        assert_eq!(args[1], text);
        assert_eq!(args[5], "http://example.com/");
    }
}

#[test]
fn player_args_agree_with_std_formatting_for_every_volume() {
    for volume in 0..=255u8 {
        assert_eq!(player_args("u", volume)[1], format!("--volume={}", volume));
    }
}

#[test]
fn player_and_socket_names() {
    assert_eq!(player_program_name(), "mpv");
    assert_eq!(control_socket(), "/tmp/cosmic-radio-mpv.sock");
}

#[test]
fn volume_command_is_one_json_line() {
    assert_eq!(
        volume_command(50),
        "{\"command\": [\"set_property\", \"volume\", 50]}\n"
    );
    assert_eq!(
        volume_command(0),
        "{\"command\": [\"set_property\", \"volume\", 0]}\n"
    );
    assert_eq!(
        volume_command(100),
        "{\"command\": [\"set_property\", \"volume\", 100]}\n"
    );
}

#[test]
fn volume_command_clamps_to_100() {
    let loudest = "{\"command\": [\"set_property\", \"volume\", 100]}\n";
    assert_eq!(volume_command(101), loudest);
    assert_eq!(volume_command(255), loudest);
}

#[test]
fn volume_command_parses_as_the_expected_json() {
    for level in [0u8, 9, 42, 100, 180] {
        let line = volume_command(level);
        assert!(line.ends_with('\n'));
        assert_eq!(line.matches('\n').count(), 1);
        let value: serde_json::Value = serde_json::from_str(line.trim_end()).unwrap();
        let command = value["command"].as_array().unwrap();
        assert_eq!(command.len(), 3);
        assert_eq!(command[0], "set_property");
        assert_eq!(command[1], "volume");
        assert_eq!(command[2], u64::from(level.min(100)));
    }
}

#[test]
fn clamp_level_caps_at_the_maximum() {
    assert_eq!(MAX_VOLUME, 100);
    for level in 0..=100u8 {
        assert_eq!(clamp_level(level), level);
    }
    for level in 101..=255u8 {
        assert_eq!(clamp_level(level), 100);
    }
}

#[test]
fn new_manager_owns_nothing() {
    let manager: AudioManager<u32> = AudioManager::new();
    assert!(!manager.is_playing());
}

#[test]
fn stop_always_names_the_socket_for_removal() {
    let mut manager: AudioManager<u32> = AudioManager::new();
    assert_eq!(manager.stop().socket, "/tmp/cosmic-radio-mpv.sock");
    manager.install(4);
    let step = manager.stop();
    assert_eq!(step.previous, Some(4));
    assert_eq!(step.socket, "/tmp/cosmic-radio-mpv.sock");
}

#[test]
fn stop_without_a_player_is_harmless_and_repeatable() {
    let mut manager: AudioManager<u32> = AudioManager::new();
    assert_eq!(manager.stop().previous, None);
    assert_eq!(manager.stop().previous, None);
    assert_eq!(manager.stop().previous, None);
    assert!(!manager.is_playing());
}

#[test]
fn stop_releases_the_owned_player_once() {
    let mut manager: AudioManager<u32> = AudioManager::new();
    assert_eq!(manager.install(11), None);
    assert!(manager.is_playing());
    assert_eq!(manager.stop().previous, Some(11));
    assert!(!manager.is_playing());
    assert_eq!(manager.stop().previous, None);
}

#[test]
fn play_rejects_bad_urls_and_changes_nothing() {
    let mut manager: AudioManager<u32> = AudioManager::new();
    manager.install(5);
    for (url, error) in [
        ("file:///etc/passwd", UrlError::SchemeNotAllowed),
        ("ftp://example.com/file", UrlError::SchemeNotAllowed),
        ("not a url at all", UrlError::InvalidFormat),
        ("", UrlError::InvalidFormat),
        ("http://localhost:8080/stream", UrlError::LocalHost),
        ("https://127.0.0.1/stream", UrlError::LocalHost),
        ("http://192.168.1.1/stream", UrlError::LocalHost),
        ("http://10.0.0.1/stream", UrlError::LocalHost),
        ("http://172.16.0.1/stream", UrlError::LocalHost),
    ] {
        match manager.play(url, 50) {
            PlayStep::Rejected(e) => assert_eq!(e, error, "{url}"),
            other => panic!("{url}: {other:?}"),
        }
        assert!(manager.is_playing());
    }
    assert_eq!(manager.stop().previous, Some(5));
}

#[test]
fn play_hands_out_the_previous_player_and_the_command_line() {
    let mut manager: AudioManager<u32> = AudioManager::new();
    match manager.play("http://example.com/a", 40) {
        PlayStep::Launch {
            previous,
            socket,
            program,
            args,
        } => {
            assert_eq!(previous, None);
            assert_eq!(socket, "/tmp/cosmic-radio-mpv.sock");
            assert_eq!(program, "mpv");
            assert_eq!(args, player_args("http://example.com/a", 40));
        }
        other => panic!("{other:?}"),
    }
    assert!(!manager.is_playing());
    assert_eq!(manager.install(1), None);
    assert!(manager.is_playing());
}

#[test]
fn second_play_replaces_the_first() {
    let mut manager: AudioManager<u32> = AudioManager::new();
    let mut alive: Vec<u32> = Vec::new();

    match manager.play("http://example.com/a", 40) {
        PlayStep::Launch { previous, .. } => assert_eq!(previous, None),
        other => panic!("{other:?}"),
    }
    assert_eq!(manager.install(1), None);
    alive.push(1);

    match manager.play("https://example.org/b?x=1", 60) {
        PlayStep::Launch { previous, args, .. } => {
            assert_eq!(previous, Some(1));
            alive.retain(|h| Some(*h) != previous);
            assert_eq!(args.last().unwrap(), "https://example.org/b?x=1");
        }
        other => panic!("{other:?}"),
    }
    assert!(!manager.is_playing());
    assert_eq!(manager.install(2), None);
    alive.push(2);

    assert_eq!(alive, vec![2]);
    assert_eq!(manager.stop().previous, Some(2));
}

#[test]
fn play_that_cannot_start_leaves_no_player() {
    let mut manager: AudioManager<u32> = AudioManager::new();
    manager.install(1);
    match manager.play("http://example.com/a", 40) {
        PlayStep::Launch { previous, .. } => assert_eq!(previous, Some(1)),
        other => panic!("{other:?}"),
    }
    // The player could not be started: nothing is installed.
    assert!(!manager.is_playing());
    assert_eq!(manager.stop().previous, None);
}

#[test]
fn install_over_a_player_hands_the_old_one_back() {
    let mut manager: AudioManager<u32> = AudioManager::new();
    assert_eq!(manager.install(1), None);
    assert_eq!(manager.install(2), Some(1));
    assert_eq!(manager.stop().previous, Some(2));
}

#[test]
fn play_parsed_goes_by_the_parts_it_is_given() {
    let mut manager: AudioManager<u32> = AudioManager::new();
    let public = UrlParts {
        scheme: "https".to_string(),
        host: Some("example.com".to_string()),
    };
    let private = UrlParts {
        scheme: "https".to_string(),
        host: Some("10.0.0.7".to_string()),
    };
    match manager.play_parsed(Some(&public), "https://example.com/s", 30) {
        PlayStep::Launch { previous, args, .. } => {
            assert_eq!(previous, None);
            assert_eq!(args[1], "--volume=30");
            assert_eq!(args[5], "https://example.com/s");
        }
        other => panic!("{other:?}"),
    }
    match manager.play_parsed(Some(&private), "https://10.0.0.7/s", 30) {
        PlayStep::Rejected(e) => assert_eq!(e, UrlError::LocalHost),
        other => panic!("{other:?}"),
    }
    match manager.play_parsed(None, "nonsense", 30) {
        PlayStep::Rejected(e) => assert_eq!(e, UrlError::InvalidFormat),
        other => panic!("{other:?}"),
    }
}

#[test]
fn set_volume_without_a_player_sends_nothing() {
    let manager: AudioManager<u32> = AudioManager::new();
    for level in [0u8, 50, 100, 255] {
        assert!(matches!(manager.set_volume(level, true), VolumeStep::NoPlayer));
        assert!(matches!(manager.set_volume(level, false), VolumeStep::NoPlayer));
    }
}

#[test]
fn set_volume_without_a_socket_sends_nothing() {
    let mut manager: AudioManager<u32> = AudioManager::new();
    manager.install(3);
    assert!(matches!(manager.set_volume(50, false), VolumeStep::NoSocket));
}

#[test]
fn set_volume_sends_the_clamped_level() {
    let mut manager: AudioManager<u32> = AudioManager::new();
    manager.install(3);
    match manager.set_volume(35, true) {
        VolumeStep::Send { socket, message } => {
            assert_eq!(socket, "/tmp/cosmic-radio-mpv.sock");
            assert_eq!(message, "{\"command\": [\"set_property\", \"volume\", 35]}\n")
        }
        other => panic!("{other:?}"),
    }
    match manager.set_volume(250, true) {
        VolumeStep::Send { socket, message } => {
            assert_eq!(socket, "/tmp/cosmic-radio-mpv.sock");
            assert_eq!(message, "{\"command\": [\"set_property\", \"volume\", 100]}\n")
        }
        other => panic!("{other:?}"),
    }
    manager.stop();
    assert!(matches!(manager.set_volume(35, true), VolumeStep::NoPlayer));
}
