use csgo_logs::{
    numbers_fit, parse_line, parse_line_with, Error, KillAttributes, LineKind, LogEntry, LogProcessor,
    ParsedLine, TeamAll,
};

fn entry(line: &str) -> LogEntry {
    let mut processor = LogProcessor::new();
    match processor.process_line::<String>(line) {
        Some(Ok(entry)) => entry,
        other => panic!("no entry for line {:?}: {:?}", line, other),
    }
}

fn kill_attributes(suffix: &str) -> KillAttributes {
    let line = format!(
        "L 01/02/2020 - 03:04:05: \"foobar<20><STEAM_1:1:12345678><CT>\" [-2563 1378 434] killed \"bazgaz<10><BOT><TERRORIST>\" [-2307 1025 457] with \"glock\"{}",
        suffix
    );
    match entry(&line) {
        LogEntry::PlayerKilledPlayer { kill_attributes, .. } => kill_attributes,
        other => panic!("wrong entry {:?}", other),
    }
}

#[test]
fn unrecognized_line_is_handed_back() {
    let line = "L 01/02/2020 - 03:04:05: something nobody logs";
    let r: Result<ParsedLine, Error<String>> = parse_line(line);
    assert_eq!(r, Err(Error::Unknown(line.to_string())));
}

#[test]
fn text_without_prefix_is_unrecognized() {
    let r: Result<ParsedLine, Error<String>> = parse_line("Log file closed");
    assert_eq!(r, Err(Error::Unknown("Log file closed".to_string())));
}

#[test]
fn trailing_text_is_unrecognized() {
    let line = "L 01/02/2020 - 03:04:05: Log file closed now";
    let r: Result<ParsedLine, Error<String>> = parse_line(line);
    assert_eq!(r, Err(Error::Unknown(line.to_string())));
}

#[test]
fn nickname_with_less_than_is_unrecognized() {
    let line = "L 01/02/2020 - 03:04:05: \"foo<bar<20><STEAM_1:1:12345678><CT>\" entered the game";
    let r: Result<ParsedLine, Error<String>> = parse_line(line);
    assert_eq!(r, Err(Error::Unknown(line.to_string())));
}

#[test]
fn overlapping_patterns_are_ambiguous() {
    let table = vec![LineKind::LoadingMap, LineKind::GlobalChat, LineKind::GlobalChat];
    let line = "L 01/02/2020 - 03:04:05: \"foobar<20><STEAM_1:1:12345678><CT>\" say \"hi\"";
    let r: Result<ParsedLine, Error<String>> = parse_line_with(&table, line);
    assert_eq!(r, Err(Error::Ambiguous));
}

#[test]
fn single_kind_table_matches() {
    let table = vec![LineKind::LoadingMap];
    let r: Result<ParsedLine, Error<String>> =
        parse_line_with(&table, "L 01/02/2020 - 03:04:05: Loading map \"de_dust2\"");
    match r {
        Ok(ParsedLine::Entry(LogEntry::LoadingMap { map, .. })) => assert_eq!(map, "de_dust2"),
        other => panic!("wrong result {:?}", other),
    }
}

#[test]
fn empty_and_unassigned_team_fold_together() {
    let teams: Vec<TeamAll> = ["", "Unassigned"]
        .iter()
        .map(|t| {
            let line = format!(
                "L 01/02/2020 - 03:04:05: \"foobar<20><STEAM_1:1:12345678><{}>\" entered the game",
                t
            );
            match entry(&line) {
                LogEntry::PlayerEnteredGame { player, .. } => player.team,
                other => panic!("wrong entry {:?}", other),
            }
        })
        .collect();
    assert_eq!(teams, vec![TeamAll::UNASSIGNED, TeamAll::UNASSIGNED]);
}

#[test]
fn spectator_and_console_teams() {
    match entry("L 01/02/2020 - 03:04:05: \"Console<0><Console><Console>\" say \"hi\"") {
        LogEntry::GlobalChat { player, msg, .. } => {
            assert_eq!(player.team, TeamAll::CONSOLE);
            assert_eq!(player.id, csgo_logs::PlayerID::CONSOLE);
            assert_eq!(msg, "hi");
        }
        other => panic!("wrong entry {:?}", other),
    }
    match entry("L 01/02/2020 - 03:04:05: \"watcher<3><BOT><Spectator>\" entered the game") {
        LogEntry::PlayerEnteredGame { player, .. } => assert_eq!(player.team, TeamAll::SPECTATOR),
        other => panic!("wrong entry {:?}", other),
    }
}

#[test]
fn blinded_duration_scales_hundredths() {
    let line = "L 01/02/2020 - 03:04:05: \"foobar<20><STEAM_1:1:12345678><CT>\" blinded for 2.05 by \"bazgaz<10><BOT><TERRORIST>\" from flashbang entindex 333 ";
    match entry(line) {
        LogEntry::BlindedPlayer { duration, .. } => assert_eq!(duration.as_millis(), 2050),
        other => panic!("wrong entry {:?}", other),
    }
}

#[test]
fn equipment_list_keeps_counted_items_whole() {
    let line = "L 01/02/2020 - 03:04:05: \"foobar<20><STEAM_1:1:12345678><CT>\" left buyzone with [ weapon_knife weapon_hkp2000 kevlar(100) helmet ]";
    match entry(line) {
        LogEntry::PlayerLeftBuyzone { instruments, .. } => assert_eq!(
            instruments,
            vec!["weapon_knife", "weapon_hkp2000", "kevlar(100)", "helmet"]
        ),
        other => panic!("wrong entry {:?}", other),
    }
}

#[test]
fn empty_equipment_list() {
    let line = "L 01/02/2020 - 03:04:05: \"foobar<20><STEAM_1:1:12345678><CT>\" left buyzone with [ ]";
    match entry(line) {
        LogEntry::PlayerLeftBuyzone { instruments, .. } => assert!(instruments.is_empty()),
        other => panic!("wrong entry {:?}", other),
    }
}

#[test]
fn kill_attributes_absent() {
    assert_eq!(kill_attributes(""), KillAttributes { headshot: false, penetrated: false });
}

#[test]
fn kill_attributes_headshot() {
    assert_eq!(kill_attributes(" (headshot)"), KillAttributes { headshot: true, penetrated: false });
}

#[test]
fn kill_attributes_penetrated() {
    assert_eq!(kill_attributes(" (penetrated)"), KillAttributes { headshot: false, penetrated: true });
}

#[test]
fn kill_attributes_headshot_penetrated() {
    assert_eq!(
        kill_attributes(" (headshot penetrated)"),
        KillAttributes { headshot: true, penetrated: true }
    );
}

#[test]
fn kill_attributes_unknown_is_unrecognized() {
    let line = "L 01/02/2020 - 03:04:05: \"foobar<20><STEAM_1:1:12345678><CT>\" [1 2 3] killed \"bazgaz<10><BOT><TERRORIST>\" [4 5 6] with \"glock\" (noscope)";
    let r: Result<ParsedLine, Error<String>> = parse_line(line);
    assert_eq!(r, Err(Error::Unknown(line.to_string())));
}

#[test]
fn meta_plugins_with_preloaded_count() {
    match entry("L 01/02/2020 - 03:04:05: [META] Loaded 0 plugins (1 already loaded)") {
        LogEntry::MetaModPluginsLoaded { loaded, preloaded, .. } => {
            assert_eq!((loaded, preloaded), (0, 1))
        }
        other => panic!("wrong entry {:?}", other),
    }
}

#[test]
fn meta_plugins_without_preloaded_count() {
    match entry("L 01/02/2020 - 03:04:05: [META] Loaded 1 plugin.") {
        LogEntry::MetaModPluginsLoaded { loaded, preloaded, .. } => {
            assert_eq!((loaded, preloaded), (1, 0))
        }
        other => panic!("wrong entry {:?}", other),
    }
}

#[test]
fn game_over_minutes_become_seconds() {
    match entry("L 01/02/2020 - 03:04:05: Game Over: competitive mg_active de_inferno score 11:16 after 50 min") {
        LogEntry::GameOver { time, .. } => assert_eq!(time.as_secs(), 3000),
        other => panic!("wrong entry {:?}", other),
    }
}

#[test]
fn money_change_untracked() {
    match entry("L 01/02/2020 - 03:04:05: \"foobar<20><BOT><CT>\" money change 800+300 = $1100") {
        LogEntry::MoneyChanged { previously, operation, change, new_amount, instrument, is_tracked, .. } => {
            assert_eq!((previously, change, new_amount), (800, 300, 1100));
            assert_eq!(operation, "+");
            assert_eq!(instrument, None);
            assert!(!is_tracked);
        }
        other => panic!("wrong entry {:?}", other),
    }
}

#[test]
fn money_change_tracked_without_purchase() {
    match entry("L 01/02/2020 - 03:04:05: \"foobar<20><BOT><CT>\" money change 800+300 = $1100 (tracked)") {
        LogEntry::MoneyChanged { instrument, is_tracked, .. } => {
            assert_eq!(instrument, None);
            assert!(is_tracked);
        }
        other => panic!("wrong entry {:?}", other),
    }
}

#[test]
fn oversized_numeral_does_not_fit() {
    let line = "L 01/02/2020 - 03:04:05: Log file started (file \"a\") (game \"b\") (version \"99999999999\")";
    assert!(!numbers_fit(line));
}

#[test]
fn ordinary_numerals_fit() {
    assert!(numbers_fit("L 01/02/2020 - 03:04:05: Log file started (file \"a\") (game \"b\") (version \"2147483647\")"));
    assert!(numbers_fit("L 01/02/2020 - 03:04:05: \"foobar<20><BOT><CT>\" threw decoy [-2147483648 0 1]"));
    assert!(!numbers_fit("L 01/02/2020 - 03:04:05: \"foobar<20><BOT><CT>\" threw decoy [-2147483649 0 1]"));
    assert!(numbers_fit("not a log line 99999999999"));
}

#[test]
fn digit_runs_in_text_fields_are_not_bounded() {
    let line = "L 01/02/2020 - 03:04:05: \"bob<2><BOT><CT>\" say \"76561198000000000\"";
    assert!(numbers_fit(line));
    match entry(line) {
        LogEntry::GlobalChat { msg, .. } => assert_eq!(msg, "76561198000000000"),
        other => panic!("wrong entry {:?}", other),
    }
    let line = "L 01/02/2020 - 03:04:05: Started map \"de_inferno\" (CRC \"-99999999999999\")";
    assert!(numbers_fit(line));
    match entry(line) {
        LogEntry::StartedMap { crc, .. } => assert_eq!(crc, "-99999999999999"),
        other => panic!("wrong entry {:?}", other),
    }
}

#[test]
fn game_over_minutes_beyond_u32() {
    let line = "L 01/02/2020 - 03:04:05: Game Over: competitive mg_active de_inferno score 11:16 after 5000000000 min";
    assert!(numbers_fit(line));
    match entry(line) {
        LogEntry::GameOver { time, .. } => assert_eq!(time.as_secs(), 300000000000),
        other => panic!("wrong entry {:?}", other),
    }
    let line = "L 01/02/2020 - 03:04:05: Game Over: competitive mg_active de_inferno score 11:16 after 400000000000000 min";
    assert!(!numbers_fit(line));
}

#[test]
fn accolade_accepts_unicode_whitespace() {
    let line = "L 01/02/2020 - 03:04:05: ACCOLADE, FINAL: {assists},\u{3000}foobar<2>,\u{A0}VALUE: 3.000000,\tPOS: 1, SCORE: 0.357143";
    match entry(line) {
        LogEntry::Accolade { categorie, player, pos, .. } => {
            assert_eq!((categorie.as_str(), player.as_str(), pos), ("assists", "foobar", 1))
        }
        other => panic!("wrong entry {:?}", other),
    }
}

#[test]
fn negative_coordinates() {
    match entry("L 01/02/2020 - 03:04:05: \"foobar<20><STEAM_1:1:12345678><CT>\" threw decoy [-427 -1737 -126]") {
        LogEntry::ThrewDecoy { location, .. } => {
            assert_eq!((location.x, location.y, location.z), (-427, -1737, -126))
        }
        other => panic!("wrong entry {:?}", other),
    }
}

#[test]
fn chat_message_keeps_inner_quotes() {
    match entry("L 01/02/2020 - 03:04:05: \"foobar<20><STEAM_1:1:12345678><CT>\" say_team \"a \"quoted\" word\"") {
        LogEntry::TeamChat { msg, .. } => assert_eq!(msg, "a \"quoted\" word"),
        other => panic!("wrong entry {:?}", other),
    }
}

#[test]
fn match_event_json_passes_through() {
    let json = "{\"event\": \"series_start\", \"params\": {\"team1_nämn\": \"a\"}}";
    let line = format!("L 01/02/2020 - 03:04:05: get5_event: {}", json);
    match entry(&line) {
        LogEntry::Get5Event { json: j, .. } => assert_eq!(j, json),
        other => panic!("wrong entry {:?}", other),
    }
}

#[test]
fn steam_auth_failure_nickname_with_spaces() {
    match entry("L 01/02/2020 - 03:04:05: STEAMAUTH: Client a received b received failure code 6") {
        LogEntry::SteamAuthFailure { nickname, failure_code, .. } => {
            assert_eq!(nickname, "a received b");
            assert_eq!(failure_code, 6);
        }
        other => panic!("wrong entry {:?}", other),
    }
}

#[test]
fn lines_in_order_give_one_result_each() {
    let lines = [
        "L 01/02/2020 - 03:04:05: Log file started (file \"f\") (game \"g\") (version \"1\")",
        "L 01/02/2020 - 03:04:06: Loading map \"de_dust2\"",
        "L 01/02/2020 - 03:04:07: World triggered \"Round_Start\"",
        "L 01/02/2020 - 03:04:08: \"foobar<20><STEAM_1:1:12345678><CT>\" say \"!ready\"",
        "L 01/02/2020 - 03:04:09: Log file closed",
    ];
    let mut processor = LogProcessor::new();
    let mut seconds = Vec::new();
    for line in lines.iter() {
        match processor.process_line::<String>(line) {
            Some(Ok(e)) => seconds.push(match e {
                LogEntry::LogFileStart { prefix, .. }
                | LogEntry::LoadingMap { prefix, .. }
                | LogEntry::WorldTriggeredEvent { prefix, .. }
                | LogEntry::GlobalChat { prefix, .. }
                | LogEntry::LogFileClosed { prefix } => prefix.second,
                other => panic!("wrong entry {:?}", other),
            }),
            other => panic!("no entry for {:?}: {:?}", line, other),
        }
    }
    assert_eq!(seconds, vec![5, 6, 7, 8, 9]);
    assert!(!processor.reading_cvar_dump());
}

#[test]
fn cvar_dump_is_gathered() {
    let mut processor = LogProcessor::new();
    let none = |r: Option<Result<LogEntry, Error<String>>>| assert!(r.is_none());
    none(processor.process_line("L 01/02/2020 - 03:04:05: server cvars start"));
    assert!(processor.reading_cvar_dump());
    none(processor.process_line("L 01/02/2020 - 03:04:05: \"mp_friendlyfire\" = \"0\""));
    none(processor.process_line("L 01/02/2020 - 03:04:05: \"sv_cheats\" = \"1\""));
    match processor.process_line::<String>("L 01/02/2020 - 03:04:06: server cvars end") {
        Some(Ok(LogEntry::CvarDump { start, end, cvars })) => {
            assert_eq!(start.second, 5);
            assert_eq!(end.second, 6);
            assert_eq!(
                cvars,
                vec![
                    ("mp_friendlyfire".to_string(), "0".to_string()),
                    ("sv_cheats".to_string(), "1".to_string())
                ]
            );
        }
        other => panic!("wrong result {:?}", other),
    }
    assert!(!processor.reading_cvar_dump());
}

#[test]
fn cvar_lines_without_start_are_dropped() {
    let mut processor = LogProcessor::new();
    let r: Option<Result<LogEntry, Error<String>>> =
        processor.process_line("L 01/02/2020 - 03:04:05: \"mp_friendlyfire\" = \"0\"");
    assert!(r.is_none());
    let r: Option<Result<LogEntry, Error<String>>> =
        processor.process_line("L 01/02/2020 - 03:04:06: server cvars end");
    assert!(r.is_none());
    assert!(!processor.reading_cvar_dump());
}

#[test]
fn lines_inside_a_dump_still_yield_entries() {
    let mut processor = LogProcessor::new();
    let r: Option<Result<LogEntry, Error<String>>> =
        processor.process_line("L 01/02/2020 - 03:04:05: server cvars start");
    assert!(r.is_none());
    match processor.process_line::<String>("L 01/02/2020 - 03:04:05: Loading map \"de_nuke\"") {
        Some(Ok(LogEntry::LoadingMap { map, .. })) => assert_eq!(map, "de_nuke"),
        other => panic!("wrong result {:?}", other),
    }
    assert!(processor.reading_cvar_dump());
}

#[test]
fn duration_conversions() {
    let d = csgo_logs::Duration::from_secs(3);
    assert_eq!(d.as_millis(), 3000);
    assert_eq!(csgo_logs::Duration::from_millis(680).as_secs(), 0);
}
