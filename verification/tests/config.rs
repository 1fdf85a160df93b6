use easytodo::config::{parse_color, Config, KeybindingsConfig, Palette, ThemeConfig};
use easytodo::errors::AppError;

fn config_error(r: Result<(), AppError>) -> String {
    match r {
        Err(AppError::Config(m)) => m,
        other => panic!("unexpected {:?}", other),
    }
}

#[test]
fn defaults_read_back() {
    let c = Config::default();
    assert_eq!(c.get("data_dir", None), Some("~/easytodo".to_string()));
    assert_eq!(c.get("theme.selected_bg", None), Some("rgb(60,60,80)".to_string()));
    assert_eq!(c.get("theme.status_bar_fg", None), Some("rgb(130,130,160)".to_string()));
    assert_eq!(c.get("keybindings.move_down", None), Some("j".to_string()));
    assert_eq!(c.get("keybindings.toggle_done", None), Some("Enter".to_string()));
    assert_eq!(c.get("keybindings.quit", None), Some("Ctrl+Q".to_string()));
}

#[test]
fn unknown_keys_read_as_nothing() {
    let c = Config::default();
    assert_eq!(c.get("theme", None), None);
    assert_eq!(c.get("theme.nope", None), None);
    assert_eq!(c.get("keybindings", None), None);
    assert_eq!(c.get("colour", None), None);
}

#[test]
fn editor_falls_back_to_the_variable_then_vim() {
    let mut c = Config::default();
    assert_eq!(c.editor(None), "vim");
    assert_eq!(c.editor(Some("nano".to_string())), "nano");
    assert_eq!(c.get("editor", Some("nano".to_string())), Some("nano".to_string()));
    c.set("editor", "nvim").unwrap();
    assert_eq!(c.editor(Some("nano".to_string())), "nvim");
}

#[test]
fn set_then_get_each_section() {
    let mut c = Config::default();
    c.set("data_dir", "/srv/tasks").unwrap();
    c.set("theme.border", "#ffffff").unwrap();
    c.set("keybindings.quit", "q").unwrap();
    assert_eq!(c.get("data_dir", None), Some("/srv/tasks".to_string()));
    assert_eq!(c.get("theme.border", None), Some("#ffffff".to_string()));
    assert_eq!(c.get("keybindings.quit", None), Some("q".to_string()));
    assert_eq!(c.get("theme.done_fg", None), Some("rgb(100,140,100)".to_string()));
    assert_eq!(c.get("keybindings.move_up", None), Some("k".to_string()));
}

#[test]
fn refused_keys_leave_the_settings_alone() {
    let mut c = Config::default();
    assert_eq!(config_error(c.set("theme", "x")), "Missing theme key");
    assert_eq!(config_error(c.set("keybindings", "x")), "Missing keybindings key");
    assert_eq!(config_error(c.set("theme.nope", "x")), "Unknown theme key: 'nope'");
    assert_eq!(config_error(c.set("keybindings.nope", "x")), "Unknown keybindings key: 'nope'");
    assert_eq!(
        config_error(c.set("colour", "x")),
        "Unknown config key: 'colour'. Valid: data_dir, editor, theme.<field>, keybindings.<field>"
    );
    assert_eq!(c.get("theme.border", None), Some("rgb(80,80,120)".to_string()));
    assert_eq!(c.get("data_dir", None), Some("~/easytodo".to_string()));
}

#[test]
fn key_splits_at_the_first_dot_only() {
    let mut c = Config::default();
    assert_eq!(config_error(c.set("theme.border.x", "y")), "Unknown theme key: 'border.x'");
}

#[test]
fn section_defaults_match() {
    let t = ThemeConfig::default();
    assert_eq!(t.modal_bg, "rgb(25,25,45)");
    let k = KeybindingsConfig::default();
    assert_eq!(k.new_task, "Ctrl+N");
    let d = k.duplicate();
    assert_eq!(d.help, k.help);
    assert_eq!(d.filter_done, "3");
}

#[test]
fn hex_colours() {
    assert_eq!(parse_color("#ff0080"), Some((255, 0, 128)));
    assert_eq!(parse_color("#FFfFff"), Some((255, 255, 255)));
    assert_eq!(parse_color("#+1ff00"), Some((1, 255, 0)));
    assert_eq!(parse_color("#fff"), None);
    assert_eq!(parse_color("#gg0000"), None);
    assert_eq!(parse_color("#ff00800"), None);
}

#[test]
fn rgb_colours() {
    assert_eq!(parse_color("rgb(60,60,80)"), Some((60, 60, 80)));
    assert_eq!(parse_color("rgb( 1 , 2 ,3 )"), Some((1, 2, 3)));
    assert_eq!(parse_color("rgb(+5,0,0)"), Some((5, 0, 0)));
    assert_eq!(parse_color("rgb(256,0,0)"), None);
    assert_eq!(parse_color("rgb(1,2)"), None);
    assert_eq!(parse_color("rgb(1,2,3,4)"), None);
    assert_eq!(parse_color("rgb(1,,3)"), None);
    assert_eq!(parse_color("rgb(1,2,3"), None);
    assert_eq!(parse_color("red"), None);
    assert_eq!(parse_color(""), None);
}

#[test]
fn hex_colour_round_trip() {
    for (r, g, b) in [(0u8, 0u8, 0u8), (255, 128, 7), (18, 52, 86)] {
        let text = format!("#{:02x}{:02X}{:02x}", r, g, b);
        assert_eq!(parse_color(&text), Some((r, g, b)));
    }
}

#[test]
fn data_dir_expands_home() {
    let c = Config::default();
    assert_eq!(
        c.resolved_data_dir(Some("/home/ann".to_string())).unwrap(),
        "/home/ann/easytodo"
    );
    assert!(matches!(c.resolved_data_dir(None), Err(AppError::HomeDir)));
    let mut c = Config::default();
    c.set("data_dir", "/srv/tasks").unwrap();
    assert_eq!(c.resolved_data_dir(None).unwrap(), "/srv/tasks");
}

#[test]
fn palette_reads_the_theme_with_fallbacks() {
    let p = Palette::from_theme(&ThemeConfig::default());
    assert_eq!(p.selected_bg, (60, 60, 80));
    assert_eq!(p.done_fg, (100, 140, 100));
    assert_eq!(p.border, (80, 80, 120));
    assert_eq!(p.command_bar_bg, (30, 30, 50));
    assert_eq!(p.modal_bg, (25, 25, 45));
    assert_eq!(p.title_fg, (180, 180, 220));
    assert_eq!(p.normal_bg, (20, 20, 35));
    assert_eq!(p.status_bar_fg, (130, 130, 160));
    let mut t = ThemeConfig::default();
    t.border = "#102030".to_string();
    t.modal_bg = "blue".to_string();
    let p = Palette::from_theme(&t);
    assert_eq!(p.border, (16, 32, 48));
    assert_eq!(p.modal_bg, (25, 25, 45));
}
