use open4x::api::coord::{HexCoord, HexDir};
use open4x::cli::args::ActionKind;
use open4x::cli::output::capitalize;
use open4x::cli::play::{parse_cmd, parse_coord, Cmd};
use open4x::cli::prompt::{render_prompt_text, replace_chars, unit_label, PromptConfig, PromptFields, DEFAULT_PROMPT};
use open4x::cli::repl::{parse_command, parse_direction, QueryKind, ReplCommand};

fn fields(city: &str, unit: &str) -> PromptFields {
    PromptFields {
        turn: "12".into(),
        civ: "Rome".into(),
        gold: "340".into(),
        score: "77".into(),
        city: city.into(),
        unit: unit.into(),
        district: String::new(),
    }
}

#[test]
fn default_prompt_expands_and_collapses_spaces() {
    let cfg = PromptConfig::default();
    assert_eq!(cfg.format, DEFAULT_PROMPT);
    assert_eq!(render_prompt_text(&cfg, &fields("", "")), "T12 > ");
    assert_eq!(render_prompt_text(&cfg, &fields("Roma", "[9QX Warrior]")), "T12 Roma [9QX Warrior]> ");
}

#[test]
fn every_placeholder_expands() {
    let cfg = PromptConfig { format: "{civ}|{gold}|{score}|{district}|{turn}{turn}".into() };
    assert_eq!(render_prompt_text(&cfg, &fields("c", "u")), "Rome|340|77||1212");
}

#[test]
fn replace_scans_left_to_right() {
    let s: Vec<char> = "aaaa".chars().collect();
    let r: String = replace_chars(&s, "aa", "b").into_iter().collect();
    assert_eq!(r, "bb");
    let s: Vec<char> = "xay".chars().collect();
    let r: String = replace_chars(&s, "aa", "b").into_iter().collect();
    assert_eq!(r, "xay");
}

#[test]
fn unit_label_brackets() {
    assert_eq!(unit_label("9QX", "Warrior"), "[9QX Warrior]");
}

#[test]
fn capitalize_first_letter() {
    assert_eq!(capitalize("rome"), "Rome");
    assert_eq!(capitalize(""), "");
    assert_eq!(capitalize("ßx"), "SSx");
}

#[test]
fn repl_directions_and_moves() {
    assert_eq!(parse_direction("NE"), Some(HexDir::NE));
    assert_eq!(parse_direction("southwest"), Some(HexDir::SW));
    assert_eq!(parse_direction("up"), None);
    assert_eq!(parse_command("e", None, None), ReplCommand::MoveDirection(HexDir::E));
    assert_eq!(parse_command("move w", None, None), ReplCommand::MoveDirection(HexDir::W));
    assert_eq!(
        parse_command("move 3 -4", Some("U1"), None),
        ReplCommand::Action(ActionKind::Move { unit: "U1".into(), to_q: 3, to_r: -4 })
    );
    assert_eq!(
        parse_command("move 3 -4", None, None),
        ReplCommand::Action(ActionKind::Move { unit: "no-unit-selected".into(), to_q: 3, to_r: -4 })
    );
    assert_eq!(parse_command("   ", None, None), ReplCommand::Unknown(String::new()));
    assert_eq!(parse_command("build list", None, None), ReplCommand::Query(QueryKind::BuildList));
}

#[test]
fn play_commands() {
    assert_eq!(parse_cmd("move 1 2"), Cmd::Move(1, 2));
    assert_eq!(parse_cmd("  board "), Cmd::Board);
    assert_eq!(parse_cmd("n"), Cmd::EndTurn);
    assert_eq!(parse_cmd("build Monument of Doom"), Cmd::Build("Monument of Doom".into()));
    assert_eq!(parse_cmd("switch 2"), Cmd::Switch(2));
    assert_eq!(parse_cmd("tile x 2"), Cmd::Unknown("tile x 2".into()));
    assert_eq!(parse_coord("-3", "+4"), Some((-3, 4)));
    assert_eq!(parse_coord("3", "99999999999"), None);
}

#[test]
fn hex_coord_constructors() {
    let c = HexCoord::from_qr(2, -5);
    assert_eq!((c.q, c.r, c.s), (2, -5, 3));
    assert_eq!(HexCoord::zero(), HexCoord { q: 0, r: 0, s: 0 });
}

#[test]
fn hex_coord_text() {
    assert_eq!(HexCoord::from_qr(-3, 7).to_text(), "(-3, 7)");
}
