use csgo_logs::{
    Duration, HitGroup, KillAttributes, LogEntry, LogProcessor, Player, PlayerID, Team, TeamAll,
};

fn parse_line(line: &str) -> LogEntry {
    let mut processor = LogProcessor::new();
    match processor.process_line::<String>(line) {
        Some(Ok(entry)) => entry,
        other => panic!("no entry for line {:?}: {:?}", line, other),
    }
}

#[test]
fn log_start() {
    let logentry = parse_line(r#"L 01/02/2020 - 03:04:05: Log file started (file "logs/L000_000_000_000_0_202001020304_000.log") (game "/home/steam/csgo/csgo") (version "7713")"#);
    if let LogEntry::LogFileStart {
        prefix,
        file,
        game,
        version,
    } = logentry
    {
        assert_eq!(prefix.month, 1);
        assert_eq!(prefix.day, 2);
        assert_eq!(prefix.year, 2020);
        assert_eq!(prefix.hour, 3);
        assert_eq!(prefix.minute, 4);
        assert_eq!(prefix.second, 5);
        assert_eq!(file, "logs/L000_000_000_000_0_202001020304_000.log");
        assert_eq!(game, "/home/steam/csgo/csgo");
        assert_eq!(version, 7713);
    } else {
        panic!("wrong LogEntry type received, {:#?}", logentry)
    }
}

#[test]
fn log_closed() {
    let logentry = parse_line(r#"L 01/02/2020 - 03:04:05: Log file closed"#);
    if let LogEntry::LogFileClosed { prefix } = logentry {
        assert_eq!(prefix.month, 1);
        assert_eq!(prefix.day, 2);
        assert_eq!(prefix.year, 2020);
        assert_eq!(prefix.hour, 3);
        assert_eq!(prefix.minute, 4);
        assert_eq!(prefix.second, 5);
    } else {
        panic!("wrong LogEntry type received, {:#?}", logentry)
    }
}

#[test]
fn log_world_triggered_event() {
    let logentry =
        parse_line(r#"L 01/02/2020 - 03:04:05: World triggered "Round_Start""#);
    if let LogEntry::WorldTriggeredEvent { prefix, event } = logentry {
        assert_eq!(prefix.month, 1);
        assert_eq!(prefix.day, 2);
        assert_eq!(prefix.year, 2020);
        assert_eq!(prefix.hour, 3);
        assert_eq!(prefix.minute, 4);
        assert_eq!(prefix.second, 5);
        assert_eq!(event, "Round_Start")
    } else {
        panic!("wrong LogEntry type received, {:#?}", logentry)
    }
}

#[test]
fn log_world_triggered_event_map() {
    let logentry =
        parse_line(r#"L 01/02/2020 - 03:04:05: World triggered "Match_Start" on "de_inferno""#);
    if let LogEntry::WorldTriggeredEventMap { prefix, event, map } = logentry {
        assert_eq!(prefix.month, 1);
        assert_eq!(prefix.day, 2);
        assert_eq!(prefix.year, 2020);
        assert_eq!(prefix.hour, 3);
        assert_eq!(prefix.minute, 4);
        assert_eq!(prefix.second, 5);
        assert_eq!(event, "Match_Start");
        assert_eq!(map, "de_inferno");
    } else {
        panic!("wrong LogEntry type received, {:#?}", logentry)
    }
}

#[test]
fn log_world_triggered_event_score() {
    let logentry = parse_line(
        r#"L 01/02/2020 - 03:04:05: World triggered "SFUI_Notice_Round_Draw" (CT "4") (T "0")"#,
    );
    if let LogEntry::WorldTriggeredEventScore {
        prefix,
        event,
        ct_score,
        t_score,
    } = logentry
    {
        assert_eq!(prefix.month, 1);
        assert_eq!(prefix.day, 2);
        assert_eq!(prefix.year, 2020);
        assert_eq!(prefix.hour, 3);
        assert_eq!(prefix.minute, 4);
        assert_eq!(prefix.second, 5);
        assert_eq!(event, "SFUI_Notice_Round_Draw");
        assert_eq!(ct_score, 4);
        assert_eq!(t_score, 0);
    } else {
        panic!("wrong LogEntry type received, {:#?}", logentry)
    }
}

#[test]
fn log_player_triggered_event() {
    let logentry = parse_line(r#"L 01/02/2020 - 03:04:05: "foobar<20><STEAM_1:1:12345678><CT>" triggered "Begin_Bomb_Defuse_Without_Kit""#);
    if let LogEntry::PlayerTriggeredEvent {
        prefix,
        player,
        event,
    } = logentry
    {
        assert_eq!(prefix.month, 1);
        assert_eq!(prefix.day, 2);
        assert_eq!(prefix.year, 2020);
        assert_eq!(prefix.hour, 3);
        assert_eq!(prefix.minute, 4);
        assert_eq!(prefix.second, 5);
        assert_eq!(player.nick, "foobar");
        assert_eq!(player.entity_index, 20);
        assert_eq!(
            player.id,
            PlayerID::STAMID("STEAM_1:1:12345678".to_string())
        );
        assert_eq!(player.team, TeamAll::CT);
        assert_eq!(event, "Begin_Bomb_Defuse_Without_Kit");
    } else {
        panic!("wrong LogEntry type received, {:#?}", logentry)
    }
}

#[test]
fn log_team_triggered_event_score() {
    let logentry = parse_line(r#"L 01/02/2020 - 03:04:05: Team "TERRORIST" triggered "SFUI_Notice_Target_Bombed" (CT "0") (T "4")"#);
    if let LogEntry::TeamTriggeredEventScore {
        prefix,
        team,
        event,
        ct_score,
        t_score,
    } = logentry
    {
        assert_eq!(prefix.month, 1);
        assert_eq!(prefix.day, 2);
        assert_eq!(prefix.year, 2020);
        assert_eq!(prefix.hour, 3);
        assert_eq!(prefix.minute, 4);
        assert_eq!(prefix.second, 5);
        assert_eq!(team, Team::TERRORIST);
        assert_eq!(event, "SFUI_Notice_Target_Bombed");
        assert_eq!(ct_score, 0);
        assert_eq!(t_score, 4)
    } else {
        panic!("wrong LogEntry type received, {:#?}", logentry)
    }
}

#[test]
fn log_loading_map() {
    let logentry = parse_line(r#"L 01/02/2020 - 03:04:05: Loading map "de_dust2""#);
    if let LogEntry::LoadingMap { prefix, map } = logentry {
        assert_eq!(prefix.month, 1);
        assert_eq!(prefix.day, 2);
        assert_eq!(prefix.year, 2020);
        assert_eq!(prefix.hour, 3);
        assert_eq!(prefix.minute, 4);
        assert_eq!(prefix.second, 5);
        assert_eq!(map, "de_dust2");
    } else {
        panic!("wrong LogEntry type received, {:#?}", logentry)
    }
}

// TODO LogEntry::CvarDump, this needs a custom test for multiline

#[test]
fn log_started_map() {
    let logentry =
        parse_line(r#"L 01/02/2020 - 03:04:05: Started map "de_inferno" (CRC "-1384208105")"#);
    if let LogEntry::StartedMap { prefix, map, crc } = logentry {
        assert_eq!(prefix.month, 1);
        assert_eq!(prefix.day, 2);
        assert_eq!(prefix.year, 2020);
        assert_eq!(prefix.hour, 3);
        assert_eq!(prefix.minute, 4);
        assert_eq!(prefix.second, 5);
        assert_eq!(map, "de_inferno");
        assert_eq!(crc, "-1384208105");
    } else {
        panic!("wrong LogEntry type received, {:#?}", logentry)
    }
}

#[test]
fn log_cvar() {
    let logentry =
        parse_line(r#"L 01/02/2020 - 03:04:05: server_cvar: "mp_friendlyfire" "0""#);
    if let LogEntry::Cvar { prefix, key, value } = logentry {
        assert_eq!(prefix.month, 1);
        assert_eq!(prefix.day, 2);
        assert_eq!(prefix.year, 2020);
        assert_eq!(prefix.hour, 3);
        assert_eq!(prefix.minute, 4);
        assert_eq!(prefix.second, 5);
        assert_eq!(key, "mp_friendlyfire");
        assert_eq!(value, "0");
    } else {
        panic!("wrong LogEntry type received, {:#?}", logentry)
    }
}

#[test]
fn log_player_entered_game_player() {
    let logentry = parse_line(
        r#"L 01/02/2020 - 03:04:05: "foobar<20><STEAM_1:1:12345678><>" entered the game"#,
    );
    if let LogEntry::PlayerEnteredGame { prefix, player } = logentry {
        assert_eq!(prefix.month, 1);
        assert_eq!(prefix.day, 2);
        assert_eq!(prefix.year, 2020);
        assert_eq!(prefix.hour, 3);
        assert_eq!(prefix.minute, 4);
        assert_eq!(prefix.second, 5);
        assert_eq!(player.nick, "foobar");
        assert_eq!(player.entity_index, 20);
        assert_eq!(
            player.id,
            PlayerID::STAMID("STEAM_1:1:12345678".to_string())
        );
        assert_eq!(player.team, TeamAll::UNASSIGNED);
    } else {
        panic!("wrong LogEntry type received, {:#?}", logentry)
    }
}

#[test]
fn log_player_entered_game_bot() {
    let logentry =
        parse_line(r#"L 01/02/2020 - 03:04:05: "foobar<2><BOT><>" entered the game"#);
    if let LogEntry::PlayerEnteredGame { prefix, player } = logentry {
        assert_eq!(prefix.month, 1);
        assert_eq!(prefix.day, 2);
        assert_eq!(prefix.year, 2020);
        assert_eq!(prefix.hour, 3);
        assert_eq!(prefix.minute, 4);
        assert_eq!(prefix.second, 5);
        assert_eq!(player.nick, "foobar");
        assert_eq!(player.entity_index, 2);
        assert_eq!(player.id, PlayerID::BOT);
        assert_eq!(player.team, TeamAll::UNASSIGNED);
    } else {
        panic!("wrong LogEntry type received, {:#?}", logentry)
    }
}

#[test]
fn log_get5_event() {
    // the "matchid" field name is supposed to have a GRAVE ACCENT character in it, this is a bug in get5
    let logentry = parse_line(r#"L 01/02/2020 - 03:04:05: get5_event: {"matchid`":"","params":{"client":"none","map_number":0,"map_name":"de_dust2"},"event":"player_disconnect"}"#);
    if let LogEntry::Get5Event { prefix, json } = logentry {
        assert_eq!(prefix.month, 1);
        assert_eq!(prefix.day, 2);
        assert_eq!(prefix.year, 2020);
        assert_eq!(prefix.hour, 3);
        assert_eq!(prefix.minute, 4);
        assert_eq!(prefix.second, 5);
        assert_eq!(
            json,
            r#"{"matchid`":"","params":{"client":"none","map_number":0,"map_name":"de_dust2"},"event":"player_disconnect"}"#
        );
    } else {
        panic!("wrong LogEntry type received, {:#?}", logentry)
    }
}

#[test]
fn log_rcon_command() {
    let logentry = parse_line(
        r#"L 01/02/2020 - 03:04:05: rcon from "10.0.0.100:36686": command "status""#,
    );
    if let LogEntry::RconCommand {
        prefix,
        client_address,
        command,
    } = logentry
    {
        assert_eq!(prefix.month, 1);
        assert_eq!(prefix.day, 2);
        assert_eq!(prefix.year, 2020);
        assert_eq!(prefix.hour, 3);
        assert_eq!(prefix.minute, 4);
        assert_eq!(prefix.second, 5);
        assert_eq!(client_address, "10.0.0.100:36686");
        assert_eq!(command, "status");
    } else {
        panic!("wrong LogEntry type received, {:#?}", logentry)
    }
}

#[test]
fn log_rcon_bad_password() {
    let logentry =
        parse_line(r#"L 01/02/2020 - 03:04:05: rcon from "10.0.0.100:49904": Bad Password"#);
    if let LogEntry::RconBadPassword {
        prefix,
        client_address,
    } = logentry
    {
        assert_eq!(prefix.month, 1);
        assert_eq!(prefix.day, 2);
        assert_eq!(prefix.year, 2020);
        assert_eq!(prefix.hour, 3);
        assert_eq!(prefix.minute, 4);
        assert_eq!(prefix.second, 5);
        assert_eq!(client_address, "10.0.0.100:49904");
    } else {
        panic!("wrong LogEntry type received, {:#?}", logentry)
    }
}

#[test]
fn log_switched_team() {
    let logentry = parse_line(r#"L 01/02/2020 - 03:04:05: "foobar<20><STEAM_1:1:12345678>" switched from team <Unassigned> to <TERRORIST>"#);
    if let LogEntry::SwitchedTeam {
        prefix,
        player,
        from,
        to,
    } = logentry
    {
        assert_eq!(prefix.month, 1);
        assert_eq!(prefix.day, 2);
        assert_eq!(prefix.year, 2020);
        assert_eq!(prefix.hour, 3);
        assert_eq!(prefix.minute, 4);
        assert_eq!(prefix.second, 5);
        assert_eq!(player.nick, "foobar");
        assert_eq!(player.entity_index, 20);
        assert_eq!(
            player.id,
            PlayerID::STAMID("STEAM_1:1:12345678".to_string())
        );
        //assert_eq!(player.team, ???); // Omitted in the log because it's specified in `from` and `to`
        assert_eq!(from, TeamAll::UNASSIGNED);
        assert_eq!(to, TeamAll::TERRORIST);
    } else {
        panic!("wrong LogEntry type received, {:#?}", logentry)
    }
}

#[test]
fn log_player_picked_up() {
    let logentry = parse_line(
        r#"L 01/02/2020 - 03:04:05: "foobar<20><STEAM_1:1:12345678><CT>" picked up "deagle""#,
    );
    if let LogEntry::PlayerPickedUp {
        prefix,
        player,
        instrument,
    } = logentry
    {
        assert_eq!(prefix.month, 1);
        assert_eq!(prefix.day, 2);
        assert_eq!(prefix.year, 2020);
        assert_eq!(prefix.hour, 3);
        assert_eq!(prefix.minute, 4);
        assert_eq!(prefix.second, 5);
        assert_eq!(player.nick, "foobar");
        assert_eq!(player.entity_index, 20);
        assert_eq!(
            player.id,
            PlayerID::STAMID("STEAM_1:1:12345678".to_string())
        );
        assert_eq!(player.team, TeamAll::CT);
        assert_eq!(instrument, "deagle");
    } else {
        panic!("wrong LogEntry type received, {:#?}", logentry)
    }
}

#[test]
fn log_player_dropped() {
    let logentry = parse_line(
        r#"L 01/02/2020 - 03:04:05: "foobar<20><STEAM_1:1:12345678><CT>" dropped "awp""#,
    );
    if let LogEntry::PlayerDropped {
        prefix,
        player,
        instrument,
    } = logentry
    {
        assert_eq!(prefix.month, 1);
        assert_eq!(prefix.day, 2);
        assert_eq!(prefix.year, 2020);
        assert_eq!(prefix.hour, 3);
        assert_eq!(prefix.minute, 4);
        assert_eq!(prefix.second, 5);
        assert_eq!(player.nick, "foobar");
        assert_eq!(player.entity_index, 20);
        assert_eq!(
            player.id,
            PlayerID::STAMID("STEAM_1:1:12345678".to_string())
        );
        assert_eq!(player.team, TeamAll::CT);
        assert_eq!(instrument, "awp");
    } else {
        panic!("wrong LogEntry type received, {:#?}", logentry)
    }
}

#[test]
fn log_team_playing_not_ready() {
    let logentry =
        parse_line(r#"L 01/02/2020 - 03:04:05: Team playing "CT": [NOT READY] heyo"#);
    if let LogEntry::TeamPlaying {
        prefix,
        team,
        readiness,
        name,
    } = logentry
    {
        assert_eq!(prefix.month, 1);
        assert_eq!(prefix.day, 2);
        assert_eq!(prefix.year, 2020);
        assert_eq!(prefix.hour, 3);
        assert_eq!(prefix.minute, 4);
        assert_eq!(prefix.second, 5);
        assert_eq!(team, Team::CT);
        assert_eq!(readiness, Some("NOT READY".to_string()));
        assert_eq!(name, "heyo");
    } else {
        panic!("wrong LogEntry type received, {:#?}", logentry)
    }
}

#[test]
fn log_team_playing_ready() {
    let logentry =
        parse_line(r#"L 01/02/2020 - 03:04:05: Team playing "TERRORIST": [READY] heyo"#);
    if let LogEntry::TeamPlaying {
        prefix,
        team,
        readiness,
        name,
    } = logentry
    {
        assert_eq!(prefix.month, 1);
        assert_eq!(prefix.day, 2);
        assert_eq!(prefix.year, 2020);
        assert_eq!(prefix.hour, 3);
        assert_eq!(prefix.minute, 4);
        assert_eq!(prefix.second, 5);
        assert_eq!(team, Team::TERRORIST);
        assert_eq!(readiness, Some("READY".to_string()));
        assert_eq!(name, "heyo");
    } else {
        panic!("wrong LogEntry type received, {:#?}", logentry)
    }
}

#[test]
fn log_team_playing_unspecified() {
    let logentry = parse_line(r#"L 01/02/2020 - 03:04:05: Team playing "CT": heyo"#);
    if let LogEntry::TeamPlaying {
        prefix,
        team,
        readiness,
        name,
    } = logentry
    {
        assert_eq!(prefix.month, 1);
        assert_eq!(prefix.day, 2);
        assert_eq!(prefix.year, 2020);
        assert_eq!(prefix.hour, 3);
        assert_eq!(prefix.minute, 4);
        assert_eq!(prefix.second, 5);
        assert_eq!(team, Team::CT);
        assert_eq!(readiness, None);
        assert_eq!(name, "heyo");
    } else {
        panic!("wrong LogEntry type received, {:#?}", logentry)
    }
}

#[test]
fn log_starting_freeze_period() {
    let logentry = parse_line(r#"L 01/02/2020 - 03:04:05: Starting Freeze period"#);
    if let LogEntry::StartingFreezePeriod { prefix } = logentry {
        assert_eq!(prefix.month, 1);
        assert_eq!(prefix.day, 2);
        assert_eq!(prefix.year, 2020);
        assert_eq!(prefix.hour, 3);
        assert_eq!(prefix.minute, 4);
        assert_eq!(prefix.second, 5);
    } else {
        panic!("wrong LogEntry type received, {:#?}", logentry)
    }
}

#[test]
fn log_player_left_buyzone() {
    let logentry = parse_line(r#"L 01/02/2020 - 03:04:05: "foobar<20><STEAM_1:1:12345678><CT>" left buyzone with [ weapon_knife weapon_hkp2000 weapon_famas weapon_hegrenade kevlar(100) helmet ]"#);
    if let LogEntry::PlayerLeftBuyzone {
        prefix,
        player,
        instruments,
    } = logentry
    {
        assert_eq!(prefix.month, 1);
        assert_eq!(prefix.day, 2);
        assert_eq!(prefix.year, 2020);
        assert_eq!(prefix.hour, 3);
        assert_eq!(prefix.minute, 4);
        assert_eq!(prefix.second, 5);
        assert_eq!(player.nick, "foobar");
        assert_eq!(player.entity_index, 20);
        assert_eq!(
            player.id,
            PlayerID::STAMID("STEAM_1:1:12345678".to_string())
        );
        assert_eq!(player.team, TeamAll::CT);
        assert_eq!(instruments.len(), 6);
        assert_eq!(true, instruments.contains(&"weapon_knife".to_string()));
        assert_eq!(true, instruments.contains(&"weapon_hkp2000".to_string()));
        assert_eq!(true, instruments.contains(&"weapon_famas".to_string()));
        assert_eq!(true, instruments.contains(&"weapon_hegrenade".to_string()));
        assert_eq!(true, instruments.contains(&"kevlar(100)".to_string()));
        assert_eq!(true, instruments.contains(&"helmet".to_string()));
    } else {
        panic!("wrong LogEntry type received, {:#?}", logentry)
    }
}

#[test]
fn log_team_chat() {
    let logentry = parse_line(r#"L 01/02/2020 - 03:04:05: "foobar<20><STEAM_1:1:12345678><CT>" say_team "hello world!""#);
    if let LogEntry::TeamChat {
        prefix,
        player,
        msg,
    } = logentry
    {
        assert_eq!(prefix.month, 1);
        assert_eq!(prefix.day, 2);
        assert_eq!(prefix.year, 2020);
        assert_eq!(prefix.hour, 3);
        assert_eq!(prefix.minute, 4);
        assert_eq!(prefix.second, 5);
        assert_eq!(msg, "hello world!");
    } else {
        panic!("wrong LogEntry type received, {:#?}", logentry)
    }
}

#[test]
fn log_money_changed() {
    let logentry = parse_line(r#"L 01/02/2020 - 03:04:05: "foobar<20><STEAM_1:1:12345678><CT>" money change 12600-1050 = $11550 (tracked) (purchase: weapon_mac10)"#);
    if let LogEntry::MoneyChanged {
        prefix,
        player,
        previously,
        operation,
        change,
        new_amount,
        is_tracked,
        instrument,
    } = logentry
    {
        assert_eq!(prefix.month, 1);
        assert_eq!(prefix.day, 2);
        assert_eq!(prefix.year, 2020);
        assert_eq!(prefix.hour, 3);
        assert_eq!(prefix.minute, 4);
        assert_eq!(prefix.second, 5);
        assert_eq!(player.nick, "foobar");
        assert_eq!(player.entity_index, 20);
        assert_eq!(
            player.id,
            PlayerID::STAMID("STEAM_1:1:12345678".to_string())
        );
        assert_eq!(player.team, TeamAll::CT);
        assert_eq!(previously, 12600);
        assert_eq!(operation, "-");
        assert_eq!(change, 1050);
        assert_eq!(new_amount, 11550);
        assert_eq!(is_tracked, true);
        assert_eq!(instrument, Some("weapon_mac10".to_string()));
    } else {
        panic!("wrong LogEntry type received, {:#?}", logentry)
    }
}

#[test]
fn log_player_purchased() {
    let logentry = parse_line(r#"L 01/02/2020 - 03:04:05: "foobar<20><STEAM_1:1:12345678><CT>" purchased "item_assaultsuit""#);
    if let LogEntry::PlayerPurchased {
        prefix,
        player,
        instrument,
    } = logentry
    {
        assert_eq!(prefix.month, 1);
        assert_eq!(prefix.day, 2);
        assert_eq!(prefix.year, 2020);
        assert_eq!(prefix.hour, 3);
        assert_eq!(prefix.minute, 4);
        assert_eq!(prefix.second, 5);
        assert_eq!(player.nick, "foobar");
        assert_eq!(player.entity_index, 20);
        assert_eq!(
            player.id,
            PlayerID::STAMID("STEAM_1:1:12345678".to_string())
        );
        assert_eq!(player.team, TeamAll::CT);
        assert_eq!(instrument, "item_assaultsuit");
    } else {
        panic!("wrong LogEntry type received, {:#?}", logentry)
    }
}

#[test]
fn log_threw_flashbang() {
    let logentry = parse_line(r#"L 01/02/2020 - 03:04:05: "foobar<20><STEAM_1:1:12345678><CT>" threw flashbang [-510 2234 -103] flashbang entindex 333)"#);
    if let LogEntry::ThrewFlashbang {
        prefix,
        player,
        location,
        entindex,
    } = logentry
    {
        assert_eq!(prefix.month, 1);
        assert_eq!(prefix.day, 2);
        assert_eq!(prefix.year, 2020);
        assert_eq!(prefix.hour, 3);
        assert_eq!(prefix.minute, 4);
        assert_eq!(prefix.second, 5);
        assert_eq!(player.nick, "foobar");
        assert_eq!(player.entity_index, 20);
        assert_eq!(
            player.id,
            PlayerID::STAMID("STEAM_1:1:12345678".to_string())
        );
        assert_eq!(player.team, TeamAll::CT);
        assert_eq!(location.x, -510);
        assert_eq!(location.y, 2234);
        assert_eq!(location.z, -103);
        assert_eq!(entindex, 333);
    } else {
        panic!("wrong LogEntry type received, {:#?}", logentry)
    }
}

#[test]
fn log_blinded_player() {
    let logentry = parse_line(r#"L 01/02/2020 - 03:04:05: "foobar<20><STEAM_1:1:12345678><CT>" blinded for 0.68 by "bazgaz<10><STEAM_1:1:87654321><TERRORIST>" from flashbang entindex 333 "#);
    if let LogEntry::BlindedPlayer {
        prefix,
        offender,
        duration,
        victim,
        entindex,
    } = logentry
    {
        assert_eq!(prefix.month, 1);
        assert_eq!(prefix.day, 2);
        assert_eq!(prefix.year, 2020);
        assert_eq!(prefix.hour, 3);
        assert_eq!(prefix.minute, 4);
        assert_eq!(prefix.second, 5);
        assert_eq!(offender.nick, "foobar");
        assert_eq!(offender.entity_index, 20);
        assert_eq!(
            offender.id,
            PlayerID::STAMID("STEAM_1:1:12345678".to_string())
        );
        assert_eq!(offender.team, TeamAll::CT);
        assert_eq!(duration, Duration::from_millis(680));
        assert_eq!(victim.nick, "bazgaz");
        assert_eq!(victim.entity_index, 10);
        assert_eq!(
            victim.id,
            PlayerID::STAMID("STEAM_1:1:87654321".to_string())
        );
        assert_eq!(victim.team, TeamAll::TERRORIST);
    } else {
        panic!("wrong LogEntry type received, {:#?}", logentry)
    }
}

#[test]
fn log_global_chat() {
    let logentry = parse_line(
        r#"L 01/02/2020 - 03:04:05: "foobar<20><STEAM_1:1:12345678><CT>" say "!ready""#,
    );
    if let LogEntry::GlobalChat {
        prefix,
        player,
        msg,
    } = logentry
    {
        assert_eq!(prefix.month, 1);
        assert_eq!(prefix.day, 2);
        assert_eq!(prefix.year, 2020);
        assert_eq!(prefix.hour, 3);
        assert_eq!(prefix.minute, 4);
        assert_eq!(prefix.second, 5);
        assert_eq!(player.nick, "foobar");
        assert_eq!(player.entity_index, 20);
        assert_eq!(
            player.id,
            PlayerID::STAMID("STEAM_1:1:12345678".to_string())
        );
        assert_eq!(player.team, TeamAll::CT);
        assert_eq!(msg, "!ready");
    } else {
        panic!("wrong LogEntry type received, {:#?}", logentry)
    }
}

#[test]
fn log_player_killed_entity() {
    let logentry = parse_line(r#"L 01/02/2020 - 03:04:05: "foobar<20><STEAM_1:1:12345678><CT>" [-2578 322 461] killed other "func_breakable<440>" [-1706 1406 666] with "ak47" (penetrated)"#);
    if let LogEntry::PlayerKilledEntity {
        prefix,
        player,
        location,
        entity_name,
        entindex,
        entity_location,
        instrument,
        kill_attributes,
    } = logentry
    {
        assert_eq!(prefix.month, 1);
        assert_eq!(prefix.day, 2);
        assert_eq!(prefix.year, 2020);
        assert_eq!(prefix.hour, 3);
        assert_eq!(prefix.minute, 4);
        assert_eq!(prefix.second, 5);
        assert_eq!(player.nick, "foobar");
        assert_eq!(player.entity_index, 20);
        assert_eq!(
            player.id,
            PlayerID::STAMID("STEAM_1:1:12345678".to_string())
        );
        assert_eq!(player.team, TeamAll::CT);
        assert_eq!(location.x, -2578);
        assert_eq!(location.y, 322);
        assert_eq!(location.z, 461);
        assert_eq!(entity_name, "func_breakable");
        assert_eq!(entindex, 440);
        assert_eq!(entity_location.x, -1706);
        assert_eq!(entity_location.y, 1406);
        assert_eq!(entity_location.z, 666);
        assert_eq!(instrument, "ak47");
        assert_eq!(
            kill_attributes,
            KillAttributes {
                headshot: false,
                penetrated: true
            }
        );
    } else {
        panic!("wrong LogEntry type received, {:#?}", logentry)
    }
}

#[test]
fn log_player_killed_player() {
    let logentry = parse_line(r#"L 01/02/2020 - 03:04:05: "foobar<20><STEAM_1:1:12345678><CT>" [-2563 -1378 434] killed "bazgaz<10><STEAM_1:1:87654321><TERRORIST>" [-2307 -1025 457] with "glock" (headshot)"#);
    if let LogEntry::PlayerKilledPlayer {
        prefix,
        offender,
        offender_location,
        victim,
        victim_location,
        instrument,
        kill_attributes,
    } = logentry
    {
        assert_eq!(prefix.month, 1);
        assert_eq!(prefix.day, 2);
        assert_eq!(prefix.year, 2020);
        assert_eq!(prefix.hour, 3);
        assert_eq!(prefix.minute, 4);
        assert_eq!(prefix.second, 5);
        assert_eq!(offender.nick, "foobar");
        assert_eq!(offender.entity_index, 20);
        assert_eq!(
            offender.id,
            PlayerID::STAMID("STEAM_1:1:12345678".to_string())
        );
        assert_eq!(offender.team, TeamAll::CT);
        assert_eq!(offender_location.x, -2563);
        assert_eq!(offender_location.y, -1378);
        assert_eq!(offender_location.z, 434);
        assert_eq!(victim.nick, "bazgaz");
        assert_eq!(victim.entity_index, 10);
        assert_eq!(
            victim.id,
            PlayerID::STAMID("STEAM_1:1:87654321".to_string())
        );
        assert_eq!(victim.team, TeamAll::TERRORIST);
        assert_eq!(victim_location.x, -2307);
        assert_eq!(victim_location.y, -1025);
        assert_eq!(victim_location.z, 457);
        assert_eq!(instrument, "glock");
        assert_eq!(
            kill_attributes,
            KillAttributes {
                headshot: true,
                penetrated: false
            }
        );
    } else {
        panic!("wrong LogEntry type received, {:#?}", logentry)
    }
}

#[test]
fn log_player_threw_smokegrenade() {
    let logentry = parse_line(r#"L 01/02/2020 - 03:04:05: "foobar<20><STEAM_1:1:12345678><CT>" threw smokegrenade [-300 1480 -123]"#);
    if let LogEntry::PlayerThrewSmokegrenade {
        prefix,
        player,
        location,
    } = logentry
    {
        assert_eq!(prefix.month, 1);
        assert_eq!(prefix.day, 2);
        assert_eq!(prefix.year, 2020);
        assert_eq!(prefix.hour, 3);
        assert_eq!(prefix.minute, 4);
        assert_eq!(prefix.second, 5);
        assert_eq!(player.nick, "foobar");
        assert_eq!(player.entity_index, 20);
        assert_eq!(
            player.id,
            PlayerID::STAMID("STEAM_1:1:12345678".to_string())
        );
        assert_eq!(player.team, TeamAll::CT);
        assert_eq!(location.x, -300);
        assert_eq!(location.y, 1480);
        assert_eq!(location.z, -123);
    } else {
        panic!("wrong LogEntry type received, {:#?}", logentry)
    }
}

#[test]
fn log_player_threw_hegrenade() {
    let logentry = parse_line(r#"L 01/02/2020 - 03:04:05: "foobar<20><STEAM_1:1:12345678><CT>" threw hegrenade [671 510 38]"#);
    if let LogEntry::PlayerThrewHEGrenade {
        prefix,
        player,
        location,
    } = logentry
    {
        assert_eq!(prefix.month, 1);
        assert_eq!(prefix.day, 2);
        assert_eq!(prefix.year, 2020);
        assert_eq!(prefix.hour, 3);
        assert_eq!(prefix.minute, 4);
        assert_eq!(prefix.second, 5);
        assert_eq!(player.nick, "foobar");
        assert_eq!(player.entity_index, 20);
        assert_eq!(
            player.id,
            PlayerID::STAMID("STEAM_1:1:12345678".to_string())
        );
        assert_eq!(player.team, TeamAll::CT);
        assert_eq!(location.x, 671);
        assert_eq!(location.y, 510);
        assert_eq!(location.z, 38);
    } else {
        panic!("wrong LogEntry type received, {:#?}", logentry)
    }
}

#[test]
fn log_player_attacked_player() {
    let logentry = parse_line(r#"L 01/02/2020 - 03:04:05: "foobar<20><STEAM_1:1:12345678><CT>" [606 2152 -98] attacked "bazgaz<10><STEAM_1:1:87654321><TERRORIST>" [334 2434 -120] with "ak47" (damage "141") (damage_armor "0") (health "0") (armor "0") (hitgroup "head")"#);
    if let LogEntry::PlayerAttackedPlayer {
        prefix,
        offender,
        offender_location,
        victim,
        victim_location,
        instrument,
        damage,
        damage_armor,
        health,
        armor,
        hitgroup,
    } = logentry
    {
        assert_eq!(prefix.month, 1);
        assert_eq!(prefix.day, 2);
        assert_eq!(prefix.year, 2020);
        assert_eq!(prefix.hour, 3);
        assert_eq!(prefix.minute, 4);
        assert_eq!(prefix.second, 5);
        assert_eq!(offender.nick, "foobar");
        assert_eq!(offender.entity_index, 20);
        assert_eq!(
            offender.id,
            PlayerID::STAMID("STEAM_1:1:12345678".to_string())
        );
        assert_eq!(offender.team, TeamAll::CT);
        assert_eq!(offender_location.x, 606);
        assert_eq!(offender_location.y, 2152);
        assert_eq!(offender_location.z, -98);
        assert_eq!(victim.nick, "bazgaz");
        assert_eq!(victim.entity_index, 10);
        assert_eq!(
            victim.id,
            PlayerID::STAMID("STEAM_1:1:87654321".to_string())
        );
        assert_eq!(victim.team, TeamAll::TERRORIST);
        assert_eq!(victim_location.x, 334);
        assert_eq!(victim_location.y, 2434);
        assert_eq!(victim_location.z, -120);
        assert_eq!(instrument, "ak47");
        assert_eq!(damage, 141);
        assert_eq!(damage_armor, 0);
        assert_eq!(health, 0);
        assert_eq!(armor, 0);
        assert_eq!(hitgroup, HitGroup::Head);
    } else {
        panic!("wrong LogEntry type received, {:#?}", logentry)
    }
}

#[test]
fn log_player_disconnected() {
    let logentry = parse_line(r#"L 01/02/2020 - 03:04:05: "foobar<20><STEAM_1:1:12345678><CT>" disconnected (reason "Disconnect")"#);
    if let LogEntry::PlayerDisconnected {
        prefix,
        player,
        reason,
    } = logentry
    {
        assert_eq!(prefix.month, 1);
        assert_eq!(prefix.day, 2);
        assert_eq!(prefix.year, 2020);
        assert_eq!(prefix.hour, 3);
        assert_eq!(prefix.minute, 4);
        assert_eq!(prefix.second, 5);
        assert_eq!(player.nick, "foobar");
        assert_eq!(player.entity_index, 20);
        assert_eq!(
            player.id,
            PlayerID::STAMID("STEAM_1:1:12345678".to_string())
        );
        assert_eq!(player.team, TeamAll::CT);
        assert_eq!(reason, "Disconnect");
    } else {
        panic!("wrong LogEntry type received, {:#?}", logentry)
    }
}

#[test]
fn log_player_assisted_killing_player() {
    let logentry = parse_line(r#"L 01/02/2020 - 03:04:05: "foobar<20><STEAM_1:1:12345678><CT>" assisted killing "bazgaz<10><STEAM_1:1:87654321><TERRORIST>""#);
    if let LogEntry::PlayerAssistedKillingPlayer {
        prefix,
        offender,
        victim,
    } = logentry
    {
        assert_eq!(prefix.month, 1);
        assert_eq!(prefix.day, 2);
        assert_eq!(prefix.year, 2020);
        assert_eq!(prefix.hour, 3);
        assert_eq!(prefix.minute, 4);
        assert_eq!(prefix.second, 5);
        assert_eq!(offender.nick, "foobar");
        assert_eq!(offender.entity_index, 20);
        assert_eq!(
            offender.id,
            PlayerID::STAMID("STEAM_1:1:12345678".to_string())
        );
        assert_eq!(offender.team, TeamAll::CT);
        assert_eq!(victim.nick, "bazgaz");
        assert_eq!(victim.entity_index, 10);
        assert_eq!(
            victim.id,
            PlayerID::STAMID("STEAM_1:1:87654321".to_string())
        );
        assert_eq!(victim.team, TeamAll::TERRORIST);
    } else {
        panic!("wrong LogEntry type received, {:#?}", logentry)
    }
}

#[test]
fn log_player_assisted_blinding_player() {
    let logentry = parse_line(r#"L 01/02/2020 - 03:04:05: "foobar<20><STEAM_1:1:12345678><CT>" flash-assisted killing "bazgaz<10><STEAM_1:1:87654321><TERRORIST>""#);
    if let LogEntry::PlayerAssistedBlindingPlayer {
        prefix,
        offender,
        victim,
    } = logentry
    {
        assert_eq!(prefix.month, 1);
        assert_eq!(prefix.day, 2);
        assert_eq!(prefix.year, 2020);
        assert_eq!(prefix.hour, 3);
        assert_eq!(prefix.minute, 4);
        assert_eq!(prefix.second, 5);
        assert_eq!(offender.nick, "foobar");
        assert_eq!(offender.entity_index, 20);
        assert_eq!(
            offender.id,
            PlayerID::STAMID("STEAM_1:1:12345678".to_string())
        );
        assert_eq!(offender.team, TeamAll::CT);
        assert_eq!(victim.nick, "bazgaz");
        assert_eq!(victim.entity_index, 10);
        assert_eq!(
            victim.id,
            PlayerID::STAMID("STEAM_1:1:87654321".to_string())
        );
        assert_eq!(victim.team, TeamAll::TERRORIST);
    } else {
        panic!("wrong LogEntry type received, {:#?}", logentry)
    }
}

#[test]
fn log_spawned_molotov() {
    let logentry = parse_line(r#"L 01/02/2020 - 03:04:05: Molotov projectile spawned at 1607.403809 -1526.890625 -341.364044, velocity -812.841064 -28.768530 418.548157"#);
    if let LogEntry::SpawnedMolotov {
        prefix,
        location_x,
        location_y,
        location_z,
        velocity_x,
        velocity_y,
        velocity_z,
    } = logentry
    {
        assert_eq!(prefix.month, 1);
        assert_eq!(prefix.day, 2);
        assert_eq!(prefix.year, 2020);
        assert_eq!(prefix.hour, 3);
        assert_eq!(prefix.minute, 4);
        assert_eq!(prefix.second, 5);
        assert_eq!(location_x.as_str().parse::<f32>().unwrap(), 1607.403809);
        assert_eq!(location_y.as_str().parse::<f32>().unwrap(), -1526.890625);
        assert_eq!(location_z.as_str().parse::<f32>().unwrap(), -341.364044);
        assert_eq!(velocity_x.as_str().parse::<f32>().unwrap(), -812.841064);
        assert_eq!(velocity_y.as_str().parse::<f32>().unwrap(), -28.768530);
        assert_eq!(velocity_z.as_str().parse::<f32>().unwrap(), 418.548157);
    } else {
        panic!("wrong LogEntry type received, {:#?}", logentry)
    }
}

#[test]
fn log_threw_molotov() {
    let logentry = parse_line(r#"L 01/02/2020 - 03:04:05: "foobar<20><STEAM_1:1:12345678><CT>" threw molotov [-84 1372 106]"#);
    if let LogEntry::ThrewMolotov {
        prefix,
        player,
        location,
    } = logentry
    {
        assert_eq!(prefix.month, 1);
        assert_eq!(prefix.day, 2);
        assert_eq!(prefix.year, 2020);
        assert_eq!(prefix.hour, 3);
        assert_eq!(prefix.minute, 4);
        assert_eq!(prefix.second, 5);
        assert_eq!(player.nick, "foobar");
        assert_eq!(player.entity_index, 20);
        assert_eq!(
            player.id,
            PlayerID::STAMID("STEAM_1:1:12345678".to_string())
        );
        assert_eq!(player.team, TeamAll::CT);
        assert_eq!(location.x, -84);
        assert_eq!(location.y, 1372);
        assert_eq!(location.z, 106);
    } else {
        panic!("wrong LogEntry type received, {:#?}", logentry)
    }
}

#[test]
fn log_player_connected() {
    let logentry = parse_line(
        r#"L 01/02/2020 - 03:04:05: "foobar<20><STEAM_1:1:12345678><>" connected, address """#,
    );
    if let LogEntry::PlayerConnected {
        prefix,
        player,
        address,
    } = logentry
    {
        assert_eq!(prefix.month, 1);
        assert_eq!(prefix.day, 2);
        assert_eq!(prefix.year, 2020);
        assert_eq!(prefix.hour, 3);
        assert_eq!(prefix.minute, 4);
        assert_eq!(prefix.second, 5);
        assert_eq!(player.nick, "foobar");
        assert_eq!(player.entity_index, 20);
        assert_eq!(
            player.id,
            PlayerID::STAMID("STEAM_1:1:12345678".to_string())
        );
        assert_eq!(player.team, TeamAll::UNASSIGNED);
        assert_eq!(address, "");
    } else {
        panic!("wrong LogEntry type received, {:#?}", logentry)
    }
}

#[test]
fn log_validated_steamid() {
    let logentry = parse_line(
        r#"L 01/02/2020 - 03:04:05: "foobar<20><STEAM_1:1:12345678><>" STEAM USERID validated"#,
    );
    if let LogEntry::ValidatedSteamID { prefix, player } = logentry {
        assert_eq!(prefix.month, 1);
        assert_eq!(prefix.day, 2);
        assert_eq!(prefix.year, 2020);
        assert_eq!(prefix.hour, 3);
        assert_eq!(prefix.minute, 4);
        assert_eq!(prefix.second, 5);
        assert_eq!(player.nick, "foobar");
        assert_eq!(player.entity_index, 20);
        assert_eq!(
            player.id,
            PlayerID::STAMID("STEAM_1:1:12345678".to_string())
        );
        assert_eq!(player.team, TeamAll::UNASSIGNED);
    } else {
        panic!("wrong LogEntry type received, {:#?}", logentry)
    }
}

#[test]
fn log_team_scored() {
    let logentry =
        parse_line(r#"L 01/02/2020 - 03:04:05: Team "CT" scored "0" with "5" players"#);
    if let LogEntry::TeamScored {
        prefix,
        team,
        score,
        player_count,
    } = logentry
    {
        assert_eq!(prefix.month, 1);
        assert_eq!(prefix.day, 2);
        assert_eq!(prefix.year, 2020);
        assert_eq!(prefix.hour, 3);
        assert_eq!(prefix.minute, 4);
        assert_eq!(prefix.second, 5);
        assert_eq!(team, Team::CT);
        assert_eq!(score, 0);
        assert_eq!(player_count, 5);
    } else {
        panic!("wrong LogEntry type received, {:#?}", logentry)
    }
}

#[test]
fn log_threw_decoy() {
    let logentry = parse_line(r#"L 01/02/2020 - 03:04:05: "foobar<20><STEAM_1:1:12345678><CT>" threw decoy [-427 1737 -126]"#);
    if let LogEntry::ThrewDecoy {
        prefix,
        player,
        location,
    } = logentry
    {
        assert_eq!(prefix.month, 1);
        assert_eq!(prefix.day, 2);
        assert_eq!(prefix.year, 2020);
        assert_eq!(prefix.hour, 3);
        assert_eq!(prefix.minute, 4);
        assert_eq!(prefix.second, 5);
        assert_eq!(player.nick, "foobar");
        assert_eq!(player.entity_index, 20);
        assert_eq!(
            player.id,
            PlayerID::STAMID("STEAM_1:1:12345678".to_string())
        );
        assert_eq!(player.team, TeamAll::CT);
        assert_eq!(location.x, -427);
        assert_eq!(location.y, 1737);
        assert_eq!(location.z, -126);
    } else {
        panic!("wrong LogEntry type received, {:#?}", logentry)
    }
}

#[test]
fn log_match_resumed() {
    let logentry =
        parse_line(r#"L 01/02/2020 - 03:04:05: Match pause is disabled - mp_unpause_match"#);
    if let LogEntry::MatchResumed { prefix } = logentry {
        assert_eq!(prefix.month, 1);
        assert_eq!(prefix.day, 2);
        assert_eq!(prefix.year, 2020);
        assert_eq!(prefix.hour, 3);
        assert_eq!(prefix.minute, 4);
        assert_eq!(prefix.second, 5);
    } else {
        panic!("wrong LogEntry type received, {:#?}", logentry)
    }
}

#[test]
fn log_match_paused() {
    let logentry =
        parse_line(r#"L 01/02/2020 - 03:04:05: Match pause is enabled - mp_pause_match"#);
    if let LogEntry::MatchPaused { prefix } = logentry {
        assert_eq!(prefix.month, 1);
        assert_eq!(prefix.day, 2);
        assert_eq!(prefix.year, 2020);
        assert_eq!(prefix.hour, 3);
        assert_eq!(prefix.minute, 4);
        assert_eq!(prefix.second, 5);
    } else {
        panic!("wrong LogEntry type received, {:#?}", logentry)
    }
}

#[test]
fn log_killed_by_bomb() {
    let logentry = parse_line(r#"L 01/02/2020 - 03:04:05: "foobar<20><STEAM_1:1:12345678><CT>" [2410 -382 147] was killed by the bomb."#);
    if let LogEntry::KilledByBomb {
        prefix,
        player,
        location,
    } = logentry
    {
        assert_eq!(prefix.month, 1);
        assert_eq!(prefix.day, 2);
        assert_eq!(prefix.year, 2020);
        assert_eq!(prefix.hour, 3);
        assert_eq!(prefix.minute, 4);
        assert_eq!(prefix.second, 5);
        assert_eq!(player.nick, "foobar");
        assert_eq!(player.entity_index, 20);
        assert_eq!(
            player.id,
            PlayerID::STAMID("STEAM_1:1:12345678".to_string())
        );
        assert_eq!(player.team, TeamAll::CT);
        assert_eq!(location.x, 2410);
        assert_eq!(location.y, -382);
        assert_eq!(location.z, 147);
    } else {
        panic!("wrong LogEntry type received, {:#?}", logentry)
    }
}

#[test]
fn log_accolade() {
    let logentry = parse_line(r#"L 01/02/2020 - 03:04:05: ACCOLADE, FINAL: {assists},    foobar<2>,      VALUE: 3.000000,        POS: 1, SCORE: 0.357143"#);
    if let LogEntry::Accolade {
        prefix,
        categorie,
        player,
        player_entindex,
        value,
        pos,
        score,
    } = logentry
    {
        assert_eq!(prefix.month, 1);
        assert_eq!(prefix.day, 2);
        assert_eq!(prefix.year, 2020);
        assert_eq!(prefix.hour, 3);
        assert_eq!(prefix.minute, 4);
        assert_eq!(prefix.second, 5);
        assert_eq!(categorie, "assists");
        assert_eq!(player, "foobar");
        assert_eq!(player_entindex, 2);
        assert_eq!(value.as_str().parse::<f32>().unwrap(), 3.0);
        assert_eq!(pos, 1);
        assert_eq!(score.as_str().parse::<f32>().unwrap(), 0.357143);
    } else {
        panic!("wrong LogEntry type received, {:#?}", logentry)
    }
}

#[test]
fn log_game_over() {
    let logentry = parse_line(r#"L 01/02/2020 - 03:04:05: Game Over: competitive mg_active de_inferno score 11:16 after 50 min"#);
    if let LogEntry::GameOver {
        prefix,
        mode,
        map_group,
        map,
        ct_score,
        t_score,
        time,
    } = logentry
    {
        assert_eq!(prefix.month, 1);
        assert_eq!(prefix.day, 2);
        assert_eq!(prefix.year, 2020);
        assert_eq!(prefix.hour, 3);
        assert_eq!(prefix.minute, 4);
        assert_eq!(prefix.second, 5);
        assert_eq!(mode, "competitive");
        assert_eq!(map_group, "mg_active");
        assert_eq!(map, "de_inferno");
        assert_eq!(ct_score, 11);
        assert_eq!(t_score, 16);
        assert_eq!(time, Duration::from_secs(50 * 60));
    } else {
        panic!("wrong LogEntry type received, {:#?}", logentry)
    }
}

#[test]
fn log_changed_nickname() {
    let logentry = parse_line(r#"L 01/02/2020 - 03:04:05: "foobar<20><STEAM_1:1:12345678><CT>" changed name to "bazgaz""#);
    if let LogEntry::ChangedNickname {
        prefix,
        player,
        new_nickname,
    } = logentry
    {
        assert_eq!(prefix.month, 1);
        assert_eq!(prefix.day, 2);
        assert_eq!(prefix.year, 2020);
        assert_eq!(prefix.hour, 3);
        assert_eq!(prefix.minute, 4);
        assert_eq!(prefix.second, 5);
        assert_eq!(player.nick, "foobar");
        assert_eq!(player.entity_index, 20);
        assert_eq!(
            player.id,
            PlayerID::STAMID("STEAM_1:1:12345678".to_string())
        );
        assert_eq!(player.team, TeamAll::CT);
        assert_eq!(new_nickname, "bazgaz");
    } else {
        panic!("wrong LogEntry type received, {:#?}", logentry)
    }
}

#[test]
fn log_committed_suicide() {
    let logentry = parse_line(r#"L 01/02/2020 - 03:04:05: "foobar<20><STEAM_1:1:12345678><CT>" [258 2481 -57] committed suicide with "world""#);
    if let LogEntry::CommittedSuicide {
        prefix,
        player,
        location,
        instrument,
    } = logentry
    {
        assert_eq!(prefix.month, 1);
        assert_eq!(prefix.day, 2);
        assert_eq!(prefix.year, 2020);
        assert_eq!(prefix.hour, 3);
        assert_eq!(prefix.minute, 4);
        assert_eq!(prefix.second, 5);
        assert_eq!(player.nick, "foobar");
        assert_eq!(player.entity_index, 20);
        assert_eq!(
            player.id,
            PlayerID::STAMID("STEAM_1:1:12345678".to_string())
        );
        assert_eq!(player.team, TeamAll::CT);
        assert_eq!(location.x, 258);
        assert_eq!(location.y, 2481);
        assert_eq!(location.z, -57);
        assert_eq!(instrument, "world");
    } else {
        panic!("wrong LogEntry type received, {:#?}", logentry)
    }
}

#[test]
fn log_server_message() {
    let logentry = parse_line(r#"L 01/02/2020 - 03:04:05: server_message: "quit""#);
    if let LogEntry::ServerMessage { prefix, message } = logentry {
        assert_eq!(prefix.month, 1);
        assert_eq!(prefix.day, 2);
        assert_eq!(prefix.year, 2020);
        assert_eq!(prefix.hour, 3);
        assert_eq!(prefix.minute, 4);
        assert_eq!(prefix.second, 5);
        assert_eq!(message, "quit");
    } else {
        panic!("wrong LogEntry type received, {:#?}", logentry)
    }
}

#[test]
fn log_steam_auth_failure() {
    let logentry = parse_line(
        r#"L 01/02/2020 - 03:04:05: STEAMAUTH: Client foo bar received failure code 6"#,
    );
    if let LogEntry::SteamAuthFailure {
        prefix,
        nickname,
        failure_code,
    } = logentry
    {
        assert_eq!(prefix.month, 1);
        assert_eq!(prefix.day, 2);
        assert_eq!(prefix.year, 2020);
        assert_eq!(prefix.hour, 3);
        assert_eq!(prefix.minute, 4);
        assert_eq!(prefix.second, 5);
        assert_eq!(nickname, "foo bar"); // Intentional space in the nickname, which must be kept whole
        assert_eq!(failure_code, 6);
    } else {
        panic!("wrong LogEntry type received, {:#?}", logentry)
    }
}

#[test]
fn log_meta_mod_plugins_loaded_1() {
    let logentry =
        parse_line(r#"L 01/02/2020 - 03:04:05: [META] Loaded 0 plugins (1 already loaded)"#);
    if let LogEntry::MetaModPluginsLoaded {
        prefix,
        loaded,
        preloaded,
    } = logentry
    {
        assert_eq!(prefix.month, 1);
        assert_eq!(prefix.day, 2);
        assert_eq!(prefix.year, 2020);
        assert_eq!(prefix.hour, 3);
        assert_eq!(prefix.minute, 4);
        assert_eq!(prefix.second, 5);
        assert_eq!(loaded, 0);
        assert_eq!(preloaded, 1);
    } else {
        panic!("wrong LogEntry type received, {:#?}", logentry)
    }
}

#[test]
fn log_meta_mod_plugins_loaded_2() {
    let logentry = parse_line(r#"L 01/02/2020 - 03:04:05: [META] Loaded 1 plugin."#);
    if let LogEntry::MetaModPluginsLoaded {
        prefix,
        loaded,
        preloaded,
    } = logentry
    {
        assert_eq!(prefix.month, 1);
        assert_eq!(prefix.day, 2);
        assert_eq!(prefix.year, 2020);
        assert_eq!(prefix.hour, 3);
        assert_eq!(prefix.minute, 4);
        assert_eq!(prefix.second, 5);
        assert_eq!(loaded, 1);
        assert_eq!(preloaded, 0);
    } else {
        panic!("wrong LogEntry type received, {:#?}", logentry)
    }
}
