use waybar_tapo::action::{Action, Command, UNKNOWN_ACTION, USAGE};
use waybar_tapo::address::{set_ip, SetIpStep};
use waybar_tapo::config::{Config, ConfigSource, PRIVATE_MODE};
use waybar_tapo::disk::{Next, Outcome, Task};
use waybar_tapo::import::{import_config, ImportStep};
use waybar_tapo::lock::{acquire, left_undone, patience_ms, Attempt, LockStep};
use waybar_tapo::output::{busy, escape, failure, follow_up, offline, output, NOTIFICATION_TITLE};
use waybar_tapo::paths::{
    config_dir, config_path, join, lock_dir, lock_path, staging_path, xdg, Environment,
};
use waybar_tapo::session::{
    api_error, query, Call, Error, Event, Phase, Session, TapoResponseError, Turn,
};
use waybar_tapo::state::State;
use waybar_tapo::text::{is_white_space, paragraph, push_decimal, push_hex_pair, starts_with, trim};

#[test]
fn white_space_is_the_unicode_property() {
    for c in '\0'..=char::MAX {
        assert_eq!(is_white_space(c), c.is_whitespace(), "{c:?}");
    }
}

#[test]
fn trimming() {
    for text in ["", " ", "a", " a b ", "\u{2028}\tä\u{3000}\u{3000}", "\u{200b} x"] {
        assert_eq!(trim(text), text.trim());
    }
}

#[test]
fn prefixes() {
    assert!(starts_with("L900-5", "L900"));
    assert!(starts_with("L900", "L900"));
    assert!(!starts_with("L90", "L900"));
    assert!(!starts_with("l900", "L900"));
    assert!(starts_with("x", ""));
}

#[test]
fn numbers() {
    for n in 0..=u16::MAX {
        let mut s = String::new();
        push_decimal(&mut s, n);
        assert_eq!(s, n.to_string());
    }
    for n in 0..=u8::MAX {
        let mut s = String::from("#");
        push_hex_pair(&mut s, n);
        assert_eq!(s, format!("#{n:02x}"));
    }
}

#[test]
fn escaping_replaces_in_turn() {
    for text in ["", "a", "&<>\"'", "&lt;", "<a href='x'>&amp;\"</a>", "ä&·"] {
        let replaced = text
            .replace('&', "&amp;")
            .replace('<', "&lt;")
            .replace('>', "&gt;")
            .replace('"', "&quot;")
            .replace('\'', "&apos;");
        assert_eq!(escape(text), replaced);
    }
}

#[test]
fn status_lines() {
    let out = output("t", "c", "<d>");
    assert_eq!((out.text.as_str(), out.class), ("t", "c"));
    assert!(out.tooltip.starts_with("&lt;d&gt;\n\nLeft: white / 1800K"));
    assert!(out.tooltip.ends_with("Color and brightness controls turn the LED on."));
    let out = failure("x");
    assert_eq!((out.text.as_str(), out.class), ("⚠", "error"));
    let out = offline();
    assert_eq!((out.text.as_str(), out.class), ("\u{f127}", "offline"));
    assert!(out.tooltip.starts_with("Tapo unreachable or timed out on the local network.\n\n"));
    let out = busy();
    assert_eq!((out.text.as_str(), out.class), ("…", "busy"));
    assert!(out.tooltip.starts_with("Tapo is processing another request.\n\n"));
}

#[test]
fn paragraphs() {
    for text in ["", "a", "\n", "a\nb", "a\n\nb\n\nc", "\n\na", "a\n\n\nb", "a\n\n"] {
        assert_eq!(paragraph(text), text.split("\n\n").next().unwrap());
    }
}

#[test]
fn follow_ups() {
    let f = follow_up(Action::Status, &failure("x"));
    assert!(f.print && !f.refresh && f.notify.is_none());
    let f = follow_up(Action::Warm, &failure("It's off."));
    assert!(!f.print && f.refresh);
    assert_eq!(f.notify.as_deref(), Some("It&apos;s off."));
    let f = follow_up(Action::Toggle, &offline());
    assert_eq!(
        f.notify.as_deref(),
        Some("Tapo unreachable or timed out on the local network.")
    );
    let f = follow_up(Action::Toggle, &output("●", "on", "x"));
    assert!(!f.print && f.refresh && f.notify.is_none());
    let f = follow_up(Action::Dimmer, &failure("x\n"));
    assert_eq!(f.notify.as_deref(), Some("x"));
    assert_eq!(NOTIFICATION_TITLE, "Tapo control failed");
}

fn command(args: &[&str]) -> Command {
    Command::parse(&args.iter().map(|a| a.to_string()).collect())
}

#[test]
fn actions_are_parsed() {
    assert_eq!(Action::parse("status"), Some(Action::Status));
    assert_eq!(Action::parse("color"), Some(Action::Color));
    assert_eq!(Action::parse("warm"), Some(Action::Warm));
    assert_eq!(Action::parse("toggle"), Some(Action::Toggle));
    assert_eq!(Action::parse("brighter"), Some(Action::Brighter));
    assert_eq!(Action::parse("dimmer"), Some(Action::Dimmer));
    assert_eq!(Action::parse("Status"), None);
    assert_eq!(Action::parse(""), None);
}

#[test]
fn command_lines() {
    assert!(matches!(command(&[]), Command::Run(Action::Status)));
    assert!(matches!(command(&["warm"]), Command::Run(Action::Warm)));
    assert!(matches!(command(&["warm", "x"]), Command::Unknown));
    assert!(matches!(command(&["x"]), Command::Unknown));
    assert!(matches!(command(&["--help"]), Command::Help));
    assert!(matches!(command(&["--help", "x", "y"]), Command::Help));
    assert!(matches!(command(&["--set-ip"]), Command::Unknown));
    assert!(matches!(command(&["--set-ip", "a", "b"]), Command::Unknown));
    match command(&["--set-ip", "192.0.2.10"]) {
        Command::SetIp(value) => assert_eq!(value, "192.0.2.10"),
        other => panic!("{other:?}"),
    }
    match command(&["--import-config", "/tmp/x"]) {
        Command::ImportConfig(path) => assert_eq!(path, "/tmp/x"),
        other => panic!("{other:?}"),
    }
    assert_eq!(
        USAGE,
        "waybar-tapo [status|color|warm|toggle|brighter|dimmer]\nwaybar-tapo --import-config PATH\nwaybar-tapo --set-ip ADDRESS"
    );
    assert_eq!(UNKNOWN_ACTION, "Unknown action. Use --help.");
}

fn cfg(device_ip: &str, username: &str, password: &str) -> ConfigSource {
    ConfigSource::Parsed(Config {
        device_ip: device_ip.to_string(),
        username: username.to_string(),
        password: password.to_string(),
    })
}

#[test]
fn configurations_are_checked() {
    let c = Config::read(cfg("192.0.2.10", " you", "secret")).ok().unwrap();
    assert_eq!((c.device_ip.as_str(), c.username.as_str()), ("192.0.2.10", " you"));
    let c = c.readdressed("192.0.2.11");
    assert_eq!(c.device_ip, "192.0.2.11");
    assert_eq!((c.username.as_str(), c.password.as_str()), (" you", "secret"));
    for source in [cfg("", "a", "b"), cfg("a", " \u{3000}", "b"), cfg("a", "b", "\t")] {
        assert_eq!(Config::read(source).err(), Some("Tapo connection settings cannot be empty."));
    }
    assert_eq!(
        Config::read(ConfigSource::Malformed).err(),
        Some("Invalid Tapo config; required: device_ip, username, password.")
    );
    assert_eq!(
        Config::read(ConfigSource::Unreadable).err(),
        Some("Cannot read waybar/tapo.json. Run tapo-setup.sh first.")
    );
    assert_eq!(PRIVATE_MODE, 0o600);
}

fn finish<S>(next: Next<S>) -> Result<&'static str, &'static str> {
    match next {
        Next::Finish(r) => r,
        Next::Continue(_) => panic!("a step follows"),
    }
}

fn follow<S>(next: Next<S>) -> S {
    match next {
        Next::Continue(step) => step,
        Next::Finish(r) => panic!("{r:?}"),
    }
}

fn some_settings() -> Config {
    settings("secret").ok().unwrap()
}

fn fields(cfg: &Config) -> (&str, &str, &str) {
    (&cfg.device_ip, &cfg.username, &cfg.password)
}

fn home() -> Environment {
    Environment { config_home: None, cache_home: None, home: bytes("/home/u") }
}

#[test]
fn imports() {
    let env = home();
    let source = b"/tmp/x.json".to_vec();
    let step = ImportStep::Read;
    assert!(matches!(step.task(&env, &source), Task::ReadConfig(p) if p == source));
    let step = follow(import_config(step, Outcome::Source(cfg("192.0.2.10", "you", " secret"))));
    assert!(matches!(
        step.task(&env, &source),
        Task::CreateDir(p) if p == b"/home/u/.config/waybar"
    ));
    let step = follow(import_config(step, Outcome::Done));
    assert!(matches!(
        step.task(&env, &source),
        Task::CreateNew { path, mode: 0o600 } if path == b"/home/u/.config/waybar/tapo.json"
    ));
    let step = follow(import_config(step, Outcome::Done));
    match step.task(&env, &source) {
        Task::Encode(cfg) => assert_eq!(fields(&cfg), ("192.0.2.10", "you", " secret")),
        _ => panic!("not the settings"),
    }
    let step = follow(import_config(step, Outcome::Encoded(b"{}".to_vec())));
    assert!(matches!(
        step.task(&env, &source),
        Task::Write { data, sync: false } if data == b"{}"
    ));
    assert_eq!(
        finish(import_config(step, Outcome::Done)),
        Ok("Private Tapo configuration installed.")
    );
}

#[test]
fn imports_that_end_early() {
    let end = |step, outcome| finish(import_config(step, outcome));
    assert_eq!(
        end(ImportStep::CreateFile(some_settings()), Outcome::Exists),
        Ok("Existing Tapo configuration retained.")
    );
    assert_eq!(
        end(ImportStep::Read, Outcome::Source(ConfigSource::Unreadable)),
        Err("Cannot read waybar/tapo.json. Run tapo-setup.sh first.")
    );
    assert_eq!(
        end(ImportStep::Read, Outcome::Source(cfg("a", "b", " "))),
        Err("Tapo connection settings cannot be empty.")
    );
    assert_eq!(
        end(ImportStep::CreateDir(some_settings()), Outcome::Failed),
        Err("Cannot create configuration directory.")
    );
    assert_eq!(
        end(ImportStep::CreateDir(some_settings()), Outcome::Exists),
        Err("Cannot create configuration directory.")
    );
    assert_eq!(
        end(ImportStep::CreateFile(some_settings()), Outcome::Failed),
        Err("Cannot create private Tapo configuration.")
    );
    assert_eq!(
        end(ImportStep::Encode(some_settings()), Outcome::Failed),
        Err("Cannot encode Tapo configuration.")
    );
    assert_eq!(
        end(ImportStep::Write(Vec::new()), Outcome::Failed),
        Err("Cannot write Tapo configuration.")
    );
}

#[test]
fn address_changes() {
    let env = home();
    let step = SetIpStep::first("192.0.2.11");
    assert!(matches!(step.task(&env), Task::CheckAddress(v) if v == "192.0.2.11"));
    let step = follow(set_ip(step, Outcome::Done));
    assert!(matches!(
        step.task(&env),
        Task::ReadConfig(p) if p == b"/home/u/.config/waybar/tapo.json"
    ));
    let step = follow(set_ip(step, Outcome::Source(cfg("192.0.2.10", " you", "secret"))));
    match step.task(&env) {
        Task::Encode(cfg) => assert_eq!(fields(&cfg), ("192.0.2.11", " you", "secret")),
        _ => panic!("not the settings"),
    }
    let step = follow(set_ip(step, Outcome::Encoded(b"{}".to_vec())));
    assert!(matches!(
        step.task(&env),
        Task::CreateOrEmpty { path, mode: 0o600 } if path == b"/home/u/.config/waybar/tapo.json.new"
    ));
    let step = follow(set_ip(step, Outcome::Done));
    assert!(matches!(step.task(&env), Task::Write { data, sync: true } if data == b"{}"));
    let step = follow(set_ip(step, Outcome::Done));
    match step.task(&env) {
        Task::Rename { from, to } => {
            assert_eq!(from, b"/home/u/.config/waybar/tapo.json.new");
            assert_eq!(to, b"/home/u/.config/waybar/tapo.json");
        }
        _ => panic!("not replaced"),
    }
    assert_eq!(finish(set_ip(step, Outcome::Done)), Ok("Tapo device address updated."));
}

#[test]
fn address_changes_that_end_early() {
    for (step, reason) in [
        (SetIpStep::first("x"), "Invalid IP address."),
        (SetIpStep::Encode(some_settings()), "Cannot encode Tapo configuration."),
        (SetIpStep::Create(Vec::new()), "Cannot create temporary Tapo configuration."),
        (SetIpStep::Write(Vec::new()), "Cannot write Tapo configuration."),
        (SetIpStep::Replace, "Cannot replace Tapo configuration."),
    ] {
        assert_eq!(finish(set_ip(step, Outcome::Failed)), Err(reason));
    }
    assert_eq!(
        finish(set_ip(SetIpStep::first(" "), Outcome::Done)),
        Err("Invalid IP address.")
    );
    let read = |source| {
        finish(set_ip(SetIpStep::Read("192.0.2.11".to_string()), Outcome::Source(source)))
    };
    assert_eq!(
        read(ConfigSource::Malformed),
        Err("Invalid Tapo config; required: device_ip, username, password.")
    );
    assert_eq!(read(cfg("a", "", "c")), Err("Tapo connection settings cannot be empty."));
}

#[test]
fn accepted_settings_are_accepted_again() {
    let c = some_settings();
    let again = Config::read(ConfigSource::Parsed(c.copy())).ok().unwrap();
    assert_eq!(fields(&again), fields(&c));
    let moved = Config::read(ConfigSource::Parsed(c.readdressed("192.0.2.11"))).ok().unwrap();
    assert_eq!(fields(&moved), ("192.0.2.11", "you", "secret"));
}

fn bytes(path: &str) -> Option<Vec<u8>> {
    Some(path.as_bytes().to_vec())
}

#[test]
fn paths_join_like_the_standard_library() {
    for base in ["", "/", "/a", "/a/", "a//", "."] {
        for rest in ["", "b", "/b", "b/c", ".config"] {
            let joined = std::path::Path::new(base).join(rest);
            assert_eq!(join(base.as_bytes().to_vec(), rest), joined.to_str().unwrap().as_bytes());
        }
    }
}

#[test]
fn file_locations() {
    let unset = Environment { config_home: None, cache_home: None, home: bytes("/home/u") };
    assert_eq!(config_path(&unset), b"/home/u/.config/waybar/tapo.json");
    assert_eq!(config_dir(&unset), b"/home/u/.config/waybar");
    assert_eq!(staging_path(&unset), b"/home/u/.config/waybar/tapo.json.new");
    assert_eq!(lock_dir(&unset), b"/home/u/.cache/waybar-tapo");
    assert_eq!(lock_path(&unset), b"/home/u/.cache/waybar-tapo/device.lock");
    let set = Environment { config_home: bytes("/c/"), cache_home: bytes(""), home: None };
    assert_eq!(config_path(&set), b"/c/waybar/tapo.json");
    assert_eq!(lock_path(&set), b"waybar-tapo/device.lock");
    assert_eq!(xdg(&None, &None, ".config"), b".config");
    for env in [&unset, &set] {
        let path = String::from_utf8(config_path(env)).unwrap();
        let path = std::path::Path::new(&path);
        let parent = path.parent().unwrap().to_str().unwrap().as_bytes().to_vec();
        assert_eq!(config_dir(env), parent);
        let staging = path.with_extension("json.new");
        assert_eq!(staging_path(env), staging.to_str().unwrap().as_bytes());
    }
}

#[test]
fn lock_attempts() {
    assert_eq!(patience_ms(Action::Status), 12000);
    assert_eq!(patience_ms(Action::Dimmer), 300);
    assert_eq!(acquire(Action::Dimmer, Attempt::Taken, 1000), LockStep::Proceed);
    assert_eq!(acquire(Action::Dimmer, Attempt::Failed, 0), LockStep::Fail);
    assert_eq!(acquire(Action::Dimmer, Attempt::WouldBlock, 299), LockStep::Retry);
    assert_eq!(acquire(Action::Dimmer, Attempt::WouldBlock, 300), LockStep::GiveUp);
    assert_eq!(acquire(Action::Status, Attempt::WouldBlock, 11_999), LockStep::Retry);
    assert_eq!(acquire(Action::Status, Attempt::WouldBlock, 12_000), LockStep::GiveUp);
    assert_eq!(left_undone(Action::Status, LockStep::GiveUp).unwrap().class, "busy");
    assert!(left_undone(Action::Warm, LockStep::GiveUp).is_none());
    let out = left_undone(Action::Warm, LockStep::Fail).unwrap();
    assert_eq!(out.class, "error");
    assert!(out.tooltip.starts_with("Cannot open Tapo request lock.\n\n"));
}

#[test]
fn lock_waits_end() {
    let mut waited = 0;
    let mut attempts = 1;
    while acquire(Action::Color, Attempt::WouldBlock, waited) == LockStep::Retry {
        waited += 50;
        attempts += 1;
    }
    assert_eq!(attempts, 7);
}

fn report(model: &str, device_on: bool) -> State {
    State {
        device_on,
        brightness: 40,
        model: model.to_string(),
        nickname: String::new(),
        hue: Some(24),
        saturation: Some(100),
        color_temp: 0,
        dynamic_light_effect_enable: false,
        dynamic_light_effect_id: None,
        lighting_effect: None,
    }
}

fn settings(password: &str) -> Result<Config, &'static str> {
    Config::read(cfg("192.0.2.10", "you", password))
}

fn call(turn: Turn) -> (Session, Call) {
    match turn {
        Turn::Call(session, call) => (session, call),
        Turn::Done(out) => panic!("{}", out.tooltip),
    }
}

fn tooltip(turn: Turn) -> String {
    match turn {
        Turn::Done(out) => out.tooltip,
        Turn::Call(session, _) => panic!("{session:?}"),
    }
}

#[test]
fn status_requests() {
    let (s, c) = call(query(settings("secret"), Action::Status));
    match c {
        Call::Connect(cfg) => assert_eq!(fields(&cfg), ("192.0.2.10", "you", "secret")),
        _ => panic!("no settings"),
    }
    assert!(s.awaits(&Event::Connected) && !s.awaits(&Event::Sent));
    let (s, c) = call(s.request(Event::Connected));
    assert_eq!(s.phase, Phase::Inspecting);
    assert!(matches!(c, Call::GetInfo));
    let shown = tooltip(s.request(Event::Info(report("L900", true))));
    assert!(shown.starts_with("Tapo LED · L900\nConnected · On · 40%"));
}

#[test]
fn control_requests_confirm_the_change() {
    let (s, _) = call(query(settings("secret"), Action::Toggle));
    let (s, _) = call(s.request(Event::Connected));
    let (s, c) = call(s.request(Event::Info(report("L900-5", true))));
    match c {
        Call::SetInfo(p) => assert!(!p.device_on && p.brightness.is_none()),
        _ => panic!("no change"),
    }
    assert!(s.awaits(&Event::Sent) && !s.awaits(&Event::Connected));
    let (s, c) = call(s.request(Event::Sent));
    assert_eq!(s.phase, Phase::Confirming);
    assert!(matches!(c, Call::GetInfo));
    let shown = tooltip(s.request(Event::Info(report("L900-5", false))));
    assert!(shown.contains("Connected · Off"));
}

#[test]
fn refused_requests() {
    let shown = tooltip(query(Err("no settings"), Action::Warm));
    assert!(shown.starts_with("no settings\n\n"));
    let s = Session { action: Action::Status, phase: Phase::Inspecting };
    let shown = tooltip(s.request(Event::Info(report("L530", true))));
    assert!(shown.starts_with("This module is configured for an L900 LED strip.\n\n"));
    let s = Session { action: Action::Warm, phase: Phase::Inspecting };
    let mut state = report("L900", true);
    state.dynamic_light_effect_enable = true;
    let shown = tooltip(s.request(Event::Info(state)));
    assert!(shown.starts_with("Pause the active effect in the Tapo app"));
    let s = Session { action: Action::Warm, phase: Phase::Sending };
    let shown = tooltip(s.request(Event::TimedOut));
    assert!(shown.starts_with("Tapo unreachable or timed out"));
}

#[test]
fn settings_are_not_shown() {
    let lines: Vec<String> = ["secret", "other"]
        .iter()
        .map(|password| {
            let (s, _) = call(query(settings(password), Action::Status));
            let (s, _) = call(s.request(Event::Connected));
            tooltip(s.request(Event::Info(report("L900", true))))
        })
        .collect();
    assert_eq!(lines[0], lines[1]);
    assert!(!lines[0].contains("secret"));
}

#[test]
fn failed_calls() {
    let class = |err| api_error(err).class;
    assert_eq!(class(Error::Http { is_connect: true, is_timeout: false }), "offline");
    assert_eq!(class(Error::Http { is_connect: false, is_timeout: true }), "offline");
    assert_eq!(class(Error::Http { is_connect: false, is_timeout: false }), "error");
    assert_eq!(class(Error::DeviceNotFound), "offline");
    assert_eq!(class(Error::Tapo(TapoResponseError::Other)), "error");
    let out = api_error(Error::Other);
    assert!(out
        .tooltip
        .starts_with("Tapo request failed. Check the device, credentials and local connection."));
    let out = api_error(Error::Tapo(TapoResponseError::Unauthorized {
        kind: "k".to_string(),
        description: "d".to_string(),
    }));
    assert!(out
        .tooltip
        .starts_with("Tapo authentication failed. Check the credentials in waybar/tapo.json."));
}
