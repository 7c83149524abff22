use termfinder::color::{color_from_lowercase, parse_color, try_parse_color, Color};
use termfinder::config::{
    Config, RawColors, RawConfig, RawFilePanesColors, RawPathTrailColors, RawPromptBarColors,
};

#[test]
fn named_colors_are_read() {
    assert_eq!(parse_color("black"), Color::Black);
    assert_eq!(parse_color("red"), Color::Red);
    assert_eq!(parse_color("green"), Color::Green);
    assert_eq!(parse_color("yellow"), Color::Yellow);
    assert_eq!(parse_color("blue"), Color::Blue);
    assert_eq!(parse_color("magenta"), Color::Magenta);
    assert_eq!(parse_color("cyan"), Color::Cyan);
    assert_eq!(parse_color("gray"), Color::Gray);
    assert_eq!(parse_color("darkgray"), Color::DarkGray);
    assert_eq!(parse_color("lightred"), Color::LightRed);
    assert_eq!(parse_color("lightyellow"), Color::LightYellow);
    assert_eq!(parse_color("lightblue"), Color::LightBlue);
    assert_eq!(parse_color("lightmagenta"), Color::LightMagenta);
    assert_eq!(parse_color("lightcyan"), Color::LightCyan);
    assert_eq!(parse_color("white"), Color::White);
}

#[test]
fn color_names_ignore_case() {
    assert_eq!(parse_color("LightBlue"), Color::LightBlue);
    assert_eq!(parse_color("WHITE"), Color::White);
    assert_eq!(parse_color("#FFFFFF"), Color::Rgb(255, 255, 255));
}

#[test]
fn unknown_texts_are_red() {
    assert_eq!(parse_color("lightgreen"), Color::Red);
    assert_eq!(parse_color(""), Color::Red);
    assert_eq!(parse_color("purple"), Color::Red);
    assert_eq!(parse_color(" black"), Color::Red);
}

#[test]
fn rgb_codes_are_read() {
    assert_eq!(parse_color("#ffffff"), Color::Rgb(255, 255, 255));
    assert_eq!(parse_color("#aaaaaa"), Color::Rgb(170, 170, 170));
    assert_eq!(parse_color("#102030"), Color::Rgb(16, 32, 48));
    assert_eq!(parse_color("#000000"), Color::Rgb(0, 0, 0));
}

#[test]
fn rgb_codes_of_every_shade_read_back() {
    for v in [0u8, 1, 9, 10, 15, 16, 127, 128, 200, 254, 255] {
        let code = format!("#{:02x}{:02x}{:02x}", v, 255 - v, v / 3);
        assert_eq!(color_from_lowercase(&code), Color::Rgb(v, 255 - v, v / 3));
    }
}

#[test]
fn rgb_codes_of_the_wrong_length_are_red() {
    assert_eq!(parse_color("#fff"), Color::Red);
    assert_eq!(parse_color("#ffffff0"), Color::Red);
    assert_eq!(parse_color("#"), Color::Red);
}

#[test]
fn rgb_codes_with_bad_digits_are_red() {
    assert_eq!(parse_color("#gg0000"), Color::Red);
    assert_eq!(parse_color("#00zz00"), Color::Red);
    assert_eq!(parse_color("#0000-1"), Color::Red);
}

#[test]
fn rgb_pairs_take_a_plus_sign() {
    assert_eq!(parse_color("#+f+a+1"), Color::Rgb(15, 10, 1));
    assert_eq!(parse_color("#++0000"), Color::Red);
}

#[test]
fn non_ascii_codes_are_red_or_refused() {
    // The first pair holds a two-byte character: no number, so red.
    assert_eq!(try_parse_color("#é00000"), Some(Color::Red));
    // The first pair ends inside a two-byte character.
    assert_eq!(try_parse_color("#aé0000"), None);
    assert_eq!(try_parse_color("#00aé00"), None);
    assert_eq!(try_parse_color("#0000aé"), None);
    assert_eq!(try_parse_color("blue"), Some(Color::Blue));
}

fn raw(background: &str) -> RawConfig {
    RawConfig {
        colors: RawColors {
            file_panes: RawFilePanesColors {
                background: background.to_string(),
                border: "red".to_string(),
                hover: "#ffffff".to_string(),
                selected_focus: "magenta".to_string(),
                selected_no_focus: "gray".to_string(),
                text_default: "white".to_string(),
                text_selected: "#aaaaaa".to_string(),
            },
            path_trail: RawPathTrailColors {
                background: "black".to_string(),
                text_default: "white".to_string(),
                text_hovered: "yellow".to_string(),
            },
            prompt_bar: RawPromptBarColors {
                background: "blue".to_string(),
                text_default: "white".to_string(),
                text_hovered: "cyan".to_string(),
                text_prompt: "green".to_string(),
            },
        },
    }
}

#[test]
fn configuration_colors_are_read() {
    let config = Config::from_raw(&raw("lightblue"));
    let fp = &config.colors.file_panes;
    assert_eq!(fp.background, Color::LightBlue);
    assert_eq!(fp.border, Color::Red);
    assert_eq!(fp.hover, Color::Rgb(255, 255, 255));
    assert_eq!(fp.selected_focus, Color::Magenta);
    assert_eq!(fp.selected_no_focus, Color::Gray);
    assert_eq!(fp.text_default, Color::White);
    assert_eq!(fp.text_selected, Color::Rgb(170, 170, 170));
    assert_eq!(config.colors.path_trail.text_hovered, Color::Yellow);
    assert_eq!(config.colors.prompt_bar.text_prompt, Color::Green);
    assert_eq!(config.colors.prompt_bar.background, Color::Blue);
}

#[test]
fn configuration_with_an_unreadable_color_is_refused() {
    assert!(Config::try_from_raw(&raw("#aé0000")).is_none());
    let c = Config::try_from_raw(&raw("nonsense")).unwrap();
    assert_eq!(c.colors.file_panes.background, Color::Red);
}

#[test]
fn ascii_texts_need_no_check() {
    // Any ASCII text is accepted; its case does not matter.
    for (a, b) in [("BlAcK", "black"), ("#AbCdEf", "#abcdef"), ("#+F0000", "#+f0000"), ("NoNsEnSe", "nonsense")] {
        assert_eq!(parse_color(a), parse_color(b));
        assert_eq!(try_parse_color(a), Some(parse_color(b)));
    }
}
