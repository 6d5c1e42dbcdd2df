use headless_xi::{
    column_width, format_job_pair, format_optional_pair, format_zone, is_timeout_error,
    packet_dump_lines, parse_zone_id, players_in_zone, render_player_table, IoErrorKind,
    OnlinePlayer, SearchSession,
};
use headless_xi::names::zone_name;
use headless_xi::player_row;

fn player(name: &str, zone: Option<u16>) -> OnlinePlayer {
    let mut p = OnlinePlayer::new();
    p.name = name.to_string();
    p.zone = zone;
    p
}

#[test]
fn new_player_is_blank() {
    let p = OnlinePlayer::new();
    assert_eq!(p.name, "");
    assert_eq!(p.id, None);
    assert_eq!(p.zone, None);
    assert_eq!(p.languages, None);
}

#[test]
fn zone_ids_parse_up_to_1023() {
    assert_eq!(parse_zone_id("230"), Ok(230));
    assert_eq!(parse_zone_id("+12"), Ok(12));
    assert_eq!(parse_zone_id("0001023"), Ok(1023));
    assert_eq!(
        parse_zone_id("1024"),
        Err("zone ID `1024` is too large; expected 0..=1023".to_string())
    );
    assert_eq!(parse_zone_id("abc"), Err("invalid zone ID `abc`".to_string()));
    assert_eq!(parse_zone_id(""), Err("invalid zone ID ``".to_string()));
    assert_eq!(parse_zone_id("+"), Err("invalid zone ID `+`".to_string()));
    assert_eq!(parse_zone_id("-1"), Err("invalid zone ID `-1`".to_string()));
    assert_eq!(parse_zone_id("65536"), Err("invalid zone ID `65536`".to_string()));
    assert_eq!(
        parse_zone_id("65535"),
        Err("zone ID `65535` is too large; expected 0..=1023".to_string())
    );
}

#[test]
fn job_pairs() {
    assert_eq!(format_job_pair(Some(1), Some(13)), "WAR/NIN");
    assert_eq!(format_job_pair(Some(15), None), "SMN/-");
    assert_eq!(format_job_pair(None, Some(99)), "-/#99");
    assert_eq!(format_job_pair(None, None), "-");
}

#[test]
fn optional_pairs() {
    assert_eq!(format_optional_pair(Some(75), Some(37)), "75/37");
    assert_eq!(format_optional_pair(Some(1), None), "1/-");
    assert_eq!(format_optional_pair(None, Some(0)), "-/0");
    assert_eq!(format_optional_pair(None, None), "-");
}

#[test]
fn zones() {
    assert_eq!(format_zone(230, None), "#230");
    assert_eq!(format_zone(243, Some("Ru'Lude Gardens")), "Ru'Lude Gardens (243)");
}

#[test]
fn rows_name_the_zones_they_know() {
    assert_eq!(zone_name(230), Some("Southern San d'Oria"));
    assert_eq!(zone_name(243), Some("Ru'Lude Gardens"));
    assert_eq!(zone_name(0), None);
    assert_eq!(zone_name(1023), None);
    assert_eq!(player_row(&player("Aadam", Some(230))).zone, "Southern San d'Oria (230)");
    assert_eq!(player_row(&player("Aadam", Some(1000))).zone, "#1000");
    assert_eq!(player_row(&player("Aadam", None)).zone, "-");
}

#[test]
fn column_width_is_widest_entry_or_header() {
    assert_eq!(column_width("NAME", &vec![]), 4);
    assert_eq!(column_width("ID", &vec!["12345".to_string(), "7".to_string()]), 5);
    assert_eq!(column_width("ZONE", &vec!["é".to_string()]), 4);
    assert_eq!(column_width("Z", &vec!["éé".to_string()]), 4);
}

#[test]
fn player_table_layout() {
    let mut a = player("Aadam", Some(246));
    a.main_job = Some(15);
    a.sub_job = Some(3);
    a.main_level = Some(75);
    a.sub_level = Some(37);
    a.id = Some(165905);
    let b = player("Bo", None);
    let lines = render_player_table(&vec![a, b]);
    assert_eq!(
        lines,
        vec![
            "NAME   ZONE              JOB         LV      ID",
            "-----  ----------------  -------  -----  ------",
            "Aadam  Port Jeuno (246)  SMN/WHM  75/37  165905",
            "Bo     -                 -            -       -",
        ]
    );
}

#[test]
fn empty_player_table() {
    let lines = render_player_table(&vec![]);
    assert_eq!(lines, vec!["NAME  ZONE  JOB  LV  ID", "----  ----  ---  --  --"]);
}

#[test]
fn zone_filter_keeps_matching_players_in_order() {
    let players = vec![
        player("A", Some(1)),
        player("B", Some(2)),
        player("C", Some(1)),
        player("D", None),
    ];
    let kept = players_in_zone(players, 1);
    let names: Vec<_> = kept.iter().map(|p| p.name.as_str()).collect();
    assert_eq!(names, ["A", "C"]);
}

#[test]
fn timeouts() {
    assert!(is_timeout_error(IoErrorKind::WouldBlock));
    assert!(is_timeout_error(IoErrorKind::TimedOut));
    assert!(!is_timeout_error(IoErrorKind::Other));
}

#[test]
fn read_failure_ends_search_only_after_players() {
    let session = SearchSession::new();
    assert!(!session.read_failure_ends_search(Some(IoErrorKind::TimedOut)));
    assert!(!session.read_failure_ends_search(None));
}

#[test]
fn packet_dump() {
    let packet: Vec<u8> = (0..18).collect();
    let lines = packet_dump_lines(&packet);
    assert_eq!(
        lines,
        vec![
            "decrypted packet (18 bytes):".to_string(),
            "00 01 02 03 04 05 06 07 08 09 0a 0b 0c 0d 0e 0f ".to_string(),
            "10 11 ".to_string(),
        ]
    );
}
