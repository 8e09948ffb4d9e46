use bevy_test::config::{
    Config, ConfigOverlay, KeybindConfig, KeybindOverlay, NetworkConfig, NetworkOverlay,
};

fn s(x: &str) -> String {
    x.to_owned()
}

#[test]
fn parses_empty_file() {
    let cfg = Config::from_overlay(ConfigOverlay::default());
    assert_eq!(cfg, Config::default());
}

#[test]
fn parses_partial_file() {
    let doc = ConfigOverlay {
        keybinds: KeybindOverlay { forward: Some(s("k")), ..KeybindOverlay::default() },
        network: NetworkOverlay {
            host: Some(false),
            host_address: Some(s("http://game.mushie.io")),
            ..NetworkOverlay::default()
        },
    };
    let cfg = Config::from_overlay(doc);
    assert_eq!(
        cfg,
        Config {
            keybinds: KeybindConfig { forward: "k".to_owned(), ..KeybindConfig::default() },
            network: NetworkConfig {
                host: false,
                host_address: Some("http://game.mushie.io".to_owned()),
                ..NetworkConfig::default()
            },
        }
    );
}

#[test]
fn parses_full_file() {
    let doc = ConfigOverlay {
        keybinds: KeybindOverlay {
            forward: Some(s("k")),
            backward: Some(s("j")),
            left: Some(s("h")),
            right: Some(s("l")),
            jump: Some(s("o")),
        },
        network: NetworkOverlay {
            port: Some(1234),
            host: Some(false),
            host_address: Some(s("http://game.mushie.io")),
        },
    };
    let cfg = Config::from_overlay(doc);
    assert_eq!(
        cfg,
        Config {
            keybinds: KeybindConfig {
                forward: "k".to_owned(),
                backward: "j".to_owned(),
                left: "h".to_owned(),
                right: "l".to_owned(),
                jump: "o".to_owned(),
            },
            network: NetworkConfig {
                host: false,
                host_address: Some("http://game.mushie.io".to_owned()),
                port: 1234
            }
        }
    );
}

#[test]
fn defaults_hold_documented_values() {
    let cfg = Config::default();
    assert_eq!(cfg.keybinds.forward, "w");
    assert_eq!(cfg.keybinds.backward, "s");
    assert_eq!(cfg.keybinds.left, "a");
    assert_eq!(cfg.keybinds.right, "d");
    assert_eq!(cfg.keybinds.jump, " ");
    assert!(cfg.network.host);
    assert_eq!(cfg.network.host_address, None);
    assert_eq!(cfg.network.port, 8080);
}

#[test]
fn port_only_document_keeps_other_defaults() {
    let doc = ConfigOverlay {
        network: NetworkOverlay { port: Some(0), ..NetworkOverlay::default() },
        ..ConfigOverlay::default()
    };
    let cfg = Config::from_overlay(doc);
    assert_eq!(cfg.network.port, 0);
    assert!(cfg.network.host);
    assert_eq!(cfg.keybinds, KeybindConfig::default());
}

#[test]
fn largest_port_is_kept() {
    let doc = NetworkOverlay { port: Some(u32::MAX), ..NetworkOverlay::default() };
    assert_eq!(NetworkConfig::from_overlay(doc).port, u32::MAX);
}
