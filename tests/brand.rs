use yazi_brand::brand::{prefer_override, Adapter, Brand, EnvSnapshot};

fn env(vars: &[&str], term: &str, program: &str) -> EnvSnapshot {
    EnvSnapshot {
        present: vars.iter().map(|v| v.to_string()).collect(),
        term: term.to_string(),
        program: program.to_string(),
    }
}

#[test]
fn signature_variable_alone_selects_its_brand() {
    let table = [
        ("KITTY_WINDOW_ID", Brand::Kitty),
        ("KONSOLE_VERSION", Brand::Konsole),
        ("ITERM_SESSION_ID", Brand::Iterm2),
        ("WEZTERM_EXECUTABLE", Brand::WezTerm),
        ("GHOSTTY_RESOURCES_DIR", Brand::Ghostty),
        ("WT_Session", Brand::Microsoft),
        ("VSCODE_INJECTION", Brand::VSCode),
        ("TABBY_CONFIG_DIRECTORY", Brand::Tabby),
    ];
    for (name, brand) in table {
        assert_eq!(Brand::from_snapshot(&env(&[name], "", "")), Some(brand), "{name}");
    }
}

#[test]
fn earlier_signature_variable_wins() {
    let e = env(&["TABBY_CONFIG_DIRECTORY", "KONSOLE_VERSION"], "", "");
    assert_eq!(Brand::from_snapshot(&e), Some(Brand::Konsole));
}

#[test]
fn signature_variable_beats_program_and_term() {
    let e = env(&["WT_Session"], "xterm-kitty", "iTerm.app");
    assert_eq!(Brand::from_snapshot(&e), Some(Brand::Microsoft));
}

#[test]
fn neovim_markers_override_everything() {
    let e = env(&["KITTY_WINDOW_ID", "NVIM_LOG_FILE", "NVIM"], "xterm-kitty", "WezTerm");
    assert_eq!(Brand::from_snapshot(&e), Some(Brand::Neovim));
}

#[test]
fn one_neovim_marker_is_not_enough() {
    assert_eq!(Brand::from_snapshot(&env(&["NVIM"], "", "")), None);
    let e = env(&["NVIM_LOG_FILE", "KITTY_WINDOW_ID"], "", "");
    assert_eq!(Brand::from_snapshot(&e), Some(Brand::Kitty));
}

#[test]
fn iterm_program_name_and_its_adapters() {
    let b = Brand::from_snapshot(&env(&[], "", "iTerm.app"));
    assert_eq!(b, Some(Brand::Iterm2));
    assert_eq!(b.unwrap().adapters(), vec![Adapter::Iip, Adapter::Sixel]);
}

#[test]
fn kitty_term_and_its_adapters() {
    let b = Brand::from_snapshot(&env(&[], "xterm-kitty", ""));
    assert_eq!(b, Some(Brand::Kitty));
    assert_eq!(b.unwrap().adapters(), vec![Adapter::Kgp]);
}

#[test]
fn every_program_name_is_recognised() {
    let table = [
        ("iTerm.app", Brand::Iterm2),
        ("WezTerm", Brand::WezTerm),
        ("ghostty", Brand::Ghostty),
        ("rio", Brand::Rio),
        ("BlackBox", Brand::BlackBox),
        ("vscode", Brand::VSCode),
        ("Tabby", Brand::Tabby),
        ("Hyper", Brand::Hyper),
        ("mintty", Brand::Mintty),
        ("Apple_Terminal", Brand::Apple),
    ];
    for (name, brand) in table {
        assert_eq!(Brand::from_snapshot(&env(&[], "", name)), Some(brand), "{name}");
    }
}

#[test]
fn every_term_name_is_recognised() {
    let table = [
        ("xterm-kitty", Brand::Kitty),
        ("foot", Brand::Foot),
        ("foot-extra", Brand::Foot),
        ("xterm-ghostty", Brand::Ghostty),
        ("rio", Brand::Rio),
        ("rxvt-unicode-256color", Brand::Urxvt),
    ];
    for (name, brand) in table {
        assert_eq!(Brand::from_snapshot(&env(&[], name, "")), Some(brand), "{name}");
    }
}

#[test]
fn program_name_beats_term() {
    let e = env(&[], "xterm-kitty", "vscode");
    assert_eq!(Brand::from_snapshot(&e), Some(Brand::VSCode));
}

#[test]
fn unknown_program_falls_through_to_term() {
    let e = env(&[], "foot", "tmux");
    assert_eq!(Brand::from_snapshot(&e), Some(Brand::Foot));
}

#[test]
fn names_match_exactly_and_by_case() {
    assert_eq!(Brand::from_snapshot(&env(&[], "", "iterm.app")), None);
    assert_eq!(Brand::from_snapshot(&env(&[], "xterm-kitty ", "")), None);
    assert_eq!(Brand::from_snapshot(&env(&["kitty_window_id"], "", "")), None);
}

#[test]
fn unknown_environment_gives_none() {
    assert_eq!(Brand::from_snapshot(&env(&[], "", "")), None);
    assert_eq!(Brand::from_snapshot(&env(&["HOME", "PATH"], "xterm-256color", "tmux")), None);
}

#[test]
fn reply_with_wezterm_among_other_text() {
    assert_eq!(Brand::from_csi("\x1bP>|WezTerm 20240203-110809-5046fc22\x1b\\"), Some(Brand::WezTerm));
}

#[test]
fn reply_with_kitty_and_foot_is_kitty() {
    assert_eq!(Brand::from_csi("foot kitty"), Some(Brand::Kitty));
    assert_eq!(Brand::from_csi("kitty(0.35) foot"), Some(Brand::Kitty));
}

#[test]
fn every_reply_token_is_recognised() {
    let table = [
        ("kitty", Brand::Kitty),
        ("Konsole", Brand::Konsole),
        ("iTerm2", Brand::Iterm2),
        ("WezTerm", Brand::WezTerm),
        ("foot", Brand::Foot),
        ("ghostty", Brand::Ghostty),
    ];
    for (token, brand) in table {
        let reply = format!("\x1bP>|{token} 1.2\x1b\\");
        assert_eq!(Brand::from_csi(&reply), Some(brand), "{token}");
    }
}

#[test]
fn reply_tokens_are_case_sensitive() {
    assert_eq!(Brand::from_csi("KITTY"), None);
    assert_eq!(Brand::from_csi("wezterm"), None);
}

#[test]
fn unknown_reply_gives_none() {
    assert_eq!(Brand::from_csi(""), None);
    assert_eq!(Brand::from_csi("\x1bP>|XTerm(390)\x1b\\"), None);
    assert_eq!(Brand::from_csi("kitt"), None);
}

#[test]
fn adapters_are_repeatable_and_some_are_empty() {
    assert_eq!(Brand::Foot.adapters(), Brand::Foot.adapters());
    assert_eq!(Brand::WezTerm.adapters(), Brand::WezTerm.adapters());
    assert!(Brand::Neovim.adapters().is_empty());
    assert!(Brand::Apple.adapters().is_empty());
    assert!(Brand::Urxvt.adapters().is_empty());
}

#[test]
fn adapter_table_entries() {
    assert_eq!(Brand::Konsole.adapters(), vec![Adapter::KgpOld]);
    assert_eq!(Brand::Ghostty.adapters(), vec![Adapter::Kgp]);
    assert_eq!(Brand::Microsoft.adapters(), vec![Adapter::Sixel]);
    assert_eq!(Brand::Mintty.adapters(), vec![Adapter::Iip]);
    assert_eq!(Brand::Hyper.adapters(), vec![Adapter::Iip, Adapter::Sixel]);
}

#[test]
fn static_resolution_is_repeatable() {
    let e = env(&["GHOSTTY_RESOURCES_DIR"], "xterm-256color", "");
    let first = Brand::from_snapshot(&e);
    let second = Brand::from_snapshot(&e);
    assert_eq!(first, second);
    assert_eq!(first, Some(Brand::Ghostty));
}

#[test]
fn override_is_preferred_to_raw_value() {
    assert_eq!(prefer_override(Some("xterm-kitty".into()), Some("screen".into())), "xterm-kitty");
    assert_eq!(prefer_override(None, Some("screen".into())), "screen");
    assert_eq!(prefer_override(None, None), "");
}
