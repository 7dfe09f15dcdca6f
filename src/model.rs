//! The values that the parser produces.
use vstd::prelude::*;

verus! {

/// Timestamp that starts every log line.
#[derive(Debug, PartialEq, Eq, Structural, Clone, Copy)]
pub struct LogPrefix {
    pub month: i32,
    pub day: i32,
    pub year: i32,
    pub hour: i32,
    pub minute: i32,
    pub second: i32,
}

/// Team tag of a player.
#[derive(Debug, PartialEq, Eq, Structural, Clone, Copy)]
#[allow(non_camel_case_types)]
pub enum TeamAll {
    TERRORIST,
    CT,
    UNASSIGNED,
    SPECTATOR,
    CONSOLE,
}

/// One of the two competing sides.
#[derive(Debug, PartialEq, Eq, Structural, Clone, Copy)]
#[allow(non_camel_case_types)]
pub enum Team {
    TERRORIST,
    CT,
}

/// Identity of a player: a persistent platform id, a bot or the console.
#[derive(Debug, PartialEq, Eq, Clone)]
#[allow(non_camel_case_types)]
pub enum PlayerID {
    STAMID(String),
    BOT,
    CONSOLE,
}

/// Player as described in a log line: `"nick<entindex><id><team>"`.
#[derive(Debug, PartialEq, Eq, Clone)]
pub struct Player {
    pub nick: String,
    pub entity_index: i32,
    pub id: PlayerID,
    pub team: TeamAll,
}

/// Integer position in the game world.
#[derive(Debug, PartialEq, Eq, Structural, Clone, Copy)]
pub struct Vector3 {
    pub x: i32,
    pub y: i32,
    pub z: i32,
}

/// Modifiers of a kill.
#[derive(Debug, PartialEq, Eq, Structural, Clone, Copy)]
pub struct KillAttributes {
    pub headshot: bool,
    pub penetrated: bool,
}

/// Body part that an attack hit.
#[derive(Debug, PartialEq, Eq, Structural, Clone, Copy)]
pub enum HitGroup {
    Chest,
    Generic,
    Head,
    LeftArm,
    LeftLeg,
    Neck,
    RightArm,
    RightLeg,
    Stomach,
}

/// A span of time, to the millisecond.
#[derive(Debug, PartialEq, Eq, Structural, Clone, Copy)]
pub struct Duration {
    pub millis: u64,
}

impl Duration {
    pub fn from_millis(millis: u64) -> (r: Duration)
        ensures
            r.millis == millis,
    {
        Duration { millis }
    }

    pub fn from_secs(secs: u64) -> (r: Duration)
        requires
            secs * 1000 <= u64::MAX,
        ensures
            r.millis == secs * 1000,
    {
        Duration { millis: secs * 1000 }
    }

    pub fn as_millis(&self) -> (r: u64)
        ensures
            r == self.millis,
    {
        self.millis
    }

    pub fn as_secs(&self) -> (r: u64)
        ensures
            r == self.millis / 1000,
    {
        self.millis / 1000
    }
}

/// A decimal literal (`-?digits.digits`), kept as written in the log.
#[derive(Debug, PartialEq, Eq, Clone)]
pub struct Decimal {
    pub literal: String,
}

impl Decimal {
    pub fn as_str(&self) -> (r: &str)
        ensures
            r@ == self.literal@,
    {
        self.literal.as_str()
    }
}

/// One recognized log line.
#[derive(Debug, PartialEq, Eq, Clone)]
pub enum LogEntry {
    /// Start of log file.
    LogFileStart { prefix: LogPrefix, file: String, game: String, version: i32 },
    /// End of log file.
    LogFileClosed { prefix: LogPrefix },
    /// World triggered game event.
    WorldTriggeredEvent { prefix: LogPrefix, event: String },
    /// World triggered game event in relation to a map.
    WorldTriggeredEventMap { prefix: LogPrefix, event: String, map: String },
    /// World triggered event with the team scores.
    WorldTriggeredEventScore { prefix: LogPrefix, event: String, ct_score: i32, t_score: i32 },
    /// Player triggered game event.
    PlayerTriggeredEvent { prefix: LogPrefix, player: Player, event: String },
    /// Team triggered game event, with the team scores.
    TeamTriggeredEventScore {
        prefix: LogPrefix,
        team: Team,
        event: String,
        ct_score: i32,
        t_score: i32,
    },
    /// Loading map.
    LoadingMap { prefix: LogPrefix, map: String },
    /// Server dumped its cvars: the lines between the start and the end marker.
    CvarDump { start: LogPrefix, end: LogPrefix, cvars: Vec<(String, String)> },
    /// Started map.
    StartedMap { prefix: LogPrefix, map: String, crc: String },
    /// Server emitted a single cvar.
    Cvar { prefix: LogPrefix, key: String, value: String },
    /// Player entered the game.
    PlayerEnteredGame { prefix: LogPrefix, player: Player },
    /// Match event encoded as JSON, passed through as written.
    Get5Event { prefix: LogPrefix, json: String },
    /// Command executed over the remote console.
    RconCommand { prefix: LogPrefix, client_address: String, command: String },
    /// Bad password during remote console authentication.
    RconBadPassword { prefix: LogPrefix, client_address: String },
    /// Player switched from one side to another; `player.team` is left unassigned.
    SwitchedTeam { prefix: LogPrefix, player: Player, from: TeamAll, to: TeamAll },
    /// Player picked up equipment.
    PlayerPickedUp { prefix: LogPrefix, player: Player, instrument: String },
    /// Player dropped equipment.
    PlayerDropped { prefix: LogPrefix, player: Player, instrument: String },
    /// Team name and readiness announced for a side.
    TeamPlaying { prefix: LogPrefix, team: Team, readiness: Option<String>, name: String },
    /// Freeze period started.
    StartingFreezePeriod { prefix: LogPrefix },
    /// Player left the buy zone carrying the listed equipment.
    PlayerLeftBuyzone { prefix: LogPrefix, player: Player, instruments: Vec<String> },
    /// Player sent a message in team chat.
    TeamChat { prefix: LogPrefix, player: Player, msg: String },
    /// Player's money changed.
    MoneyChanged {
        prefix: LogPrefix,
        player: Player,
        previously: i32,
        operation: String,
        change: i32,
        new_amount: i32,
        instrument: Option<String>,
        is_tracked: bool,
    },
    /// Player purchased equipment.
    PlayerPurchased { prefix: LogPrefix, player: Player, instrument: String },
    /// Player threw a flashbang.
    ThrewFlashbang { prefix: LogPrefix, player: Player, location: Vector3, entindex: i32 },
    /// Player was blinded by a flashbang thrown by another player.
    BlindedPlayer {
        prefix: LogPrefix,
        offender: Player,
        duration: Duration,
        victim: Player,
        entindex: i32,
    },
    /// Player sent a message in global chat.
    GlobalChat { prefix: LogPrefix, player: Player, msg: String },
    /// Player killed an entity.
    PlayerKilledEntity {
        prefix: LogPrefix,
        player: Player,
        location: Vector3,
        entity_name: String,
        entindex: i32,
        entity_location: Vector3,
        instrument: String,
        kill_attributes: KillAttributes,
    },
    /// Player killed another player.
    PlayerKilledPlayer {
        prefix: LogPrefix,
        offender: Player,
        offender_location: Vector3,
        victim: Player,
        victim_location: Vector3,
        instrument: String,
        kill_attributes: KillAttributes,
    },
    /// Player threw a smoke grenade.
    PlayerThrewSmokegrenade { prefix: LogPrefix, player: Player, location: Vector3 },
    /// Player threw a high explosive grenade.
    PlayerThrewHEGrenade { prefix: LogPrefix, player: Player, location: Vector3 },
    /// Player attacked another player.
    PlayerAttackedPlayer {
        prefix: LogPrefix,
        offender: Player,
        offender_location: Vector3,
        victim: Player,
        victim_location: Vector3,
        instrument: String,
        damage: i32,
        damage_armor: i32,
        health: i32,
        armor: i32,
        hitgroup: HitGroup,
    },
    /// Player disconnected.
    PlayerDisconnected { prefix: LogPrefix, player: Player, reason: String },
    /// Player assisted in killing another player.
    PlayerAssistedKillingPlayer { prefix: LogPrefix, offender: Player, victim: Player },
    /// Player assisted in killing another player by blinding them.
    PlayerAssistedBlindingPlayer { prefix: LogPrefix, offender: Player, victim: Player },
    /// Molotov projectile spawned.
    SpawnedMolotov {
        prefix: LogPrefix,
        location_x: Decimal,
        location_y: Decimal,
        location_z: Decimal,
        velocity_x: Decimal,
        velocity_y: Decimal,
        velocity_z: Decimal,
    },
    /// Player threw a molotov.
    ThrewMolotov { prefix: LogPrefix, player: Player, location: Vector3 },
    /// Player connected.
    PlayerConnected { prefix: LogPrefix, player: Player, address: String },
    /// Persistent id of a player was validated.
    ValidatedSteamID { prefix: LogPrefix, player: Player },
    /// Team ended the match with a score and a number of players.
    TeamScored { prefix: LogPrefix, team: Team, score: i32, player_count: i32 },
    /// Player threw a decoy.
    ThrewDecoy { prefix: LogPrefix, player: Player, location: Vector3 },
    /// Match resumed.
    MatchResumed { prefix: LogPrefix },
    /// Match paused.
    MatchPaused { prefix: LogPrefix },
    /// Player was killed by the bomb.
    KilledByBomb { prefix: LogPrefix, player: Player, location: Vector3 },
    /// End-of-match accolade.
    Accolade {
        prefix: LogPrefix,
        categorie: String,
        player: String,
        player_entindex: i32,
        value: Decimal,
        pos: i32,
        score: Decimal,
    },
    /// Game ended.
    GameOver {
        prefix: LogPrefix,
        mode: String,
        map_group: String,
        map: String,
        ct_score: i32,
        t_score: i32,
        time: Duration,
    },
    /// Player changed their nickname.
    ChangedNickname { prefix: LogPrefix, player: Player, new_nickname: String },
    /// Player committed suicide.
    CommittedSuicide { prefix: LogPrefix, player: Player, location: Vector3, instrument: String },
    /// Message of the server.
    ServerMessage { prefix: LogPrefix, message: String },
    /// Validation of a user's authentication ticket failed.
    SteamAuthFailure { prefix: LogPrefix, nickname: String, failure_code: i32 },
    /// Meta plugin loader loaded plugins.
    MetaModPluginsLoaded { prefix: LogPrefix, loaded: i32, preloaded: i32 },
}

/// Why a line gave no entry.
#[derive(Debug, PartialEq, Eq, Clone)]
pub enum Error<E> {
    /// The line source failed.
    ReaderError(E),
    /// More than one line kind matched the line.
    Ambiguous,
    /// Reserved for structural failures of a line; no path of this library yields it.
    ParseError,
    /// No line kind matched the line, which is handed back.
    Unknown(String),
}

} // verus!
