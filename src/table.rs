//! The grammar table: the pattern of every line kind.
use vstd::prelude::*;
use crate::checks::{Check, Vocab};
use crate::grammar::Prim;

verus! {

/// The kinds of line that the grammar recognizes, in table order.
#[derive(Clone, Copy, PartialEq, Eq, Structural, Debug)]
pub enum LineKind {
    LogFileStart,
    LogFileClosed,
    WorldTriggeredEvent,
    WorldTriggeredEventMap,
    WorldTriggeredEventScore,
    PlayerTriggeredEvent,
    TeamTriggeredEventScore,
    LoadingMap,
    CvarsStart,
    CvarsEntry,
    CvarsEnd,
    StartedMap,
    Cvar,
    PlayerEnteredGame,
    Get5Event,
    RconCommand,
    RconBadPassword,
    SwitchedTeam,
    PlayerPickedUp,
    PlayerDropped,
    TeamPlaying,
    StartingFreezePeriod,
    PlayerLeftBuyzone,
    TeamChat,
    MoneyChanged,
    PlayerPurchased,
    ThrewFlashbang,
    BlindedPlayer,
    GlobalChat,
    PlayerKilledEntity,
    PlayerKilledPlayer,
    PlayerThrewSmokegrenade,
    PlayerThrewHEGrenade,
    PlayerAttackedPlayer,
    PlayerDisconnected,
    PlayerAssistedKillingPlayer,
    PlayerAssistedBlindingPlayer,
    SpawnedMolotov,
    ThrewMolotov,
    PlayerConnected,
    ValidatedSteamID,
    TeamScored,
    ThrewDecoy,
    MatchResumed,
    MatchPaused,
    KilledByBomb,
    Accolade,
    GameOver,
    ChangedNickname,
    CommittedSuicide,
    ServerMessage,
    SteamAuthFailure,
    MetaModPluginsLoaded,}

/// Every line kind, in table order.
pub open spec fn all_kinds() -> Seq<LineKind> {
    seq![LineKind::LogFileStart, LineKind::LogFileClosed, LineKind::WorldTriggeredEvent, LineKind::WorldTriggeredEventMap, LineKind::WorldTriggeredEventScore, LineKind::PlayerTriggeredEvent, LineKind::TeamTriggeredEventScore, LineKind::LoadingMap, LineKind::CvarsStart, LineKind::CvarsEntry, LineKind::CvarsEnd, LineKind::StartedMap, LineKind::Cvar, LineKind::PlayerEnteredGame, LineKind::Get5Event, LineKind::RconCommand, LineKind::RconBadPassword, LineKind::SwitchedTeam, LineKind::PlayerPickedUp, LineKind::PlayerDropped, LineKind::TeamPlaying, LineKind::StartingFreezePeriod, LineKind::PlayerLeftBuyzone, LineKind::TeamChat, LineKind::MoneyChanged, LineKind::PlayerPurchased, LineKind::ThrewFlashbang, LineKind::BlindedPlayer, LineKind::GlobalChat, LineKind::PlayerKilledEntity, LineKind::PlayerKilledPlayer, LineKind::PlayerThrewSmokegrenade, LineKind::PlayerThrewHEGrenade, LineKind::PlayerAttackedPlayer, LineKind::PlayerDisconnected, LineKind::PlayerAssistedKillingPlayer, LineKind::PlayerAssistedBlindingPlayer, LineKind::SpawnedMolotov, LineKind::ThrewMolotov, LineKind::PlayerConnected, LineKind::ValidatedSteamID, LineKind::TeamScored, LineKind::ThrewDecoy, LineKind::MatchResumed, LineKind::MatchPaused, LineKind::KilledByBomb, LineKind::Accolade, LineKind::GameOver, LineKind::ChangedNickname, LineKind::CommittedSuicide, LineKind::ServerMessage, LineKind::SteamAuthFailure, LineKind::MetaModPluginsLoaded]
}

/// The table of every line kind, in order.
pub fn kinds_table() -> (r: Vec<LineKind>)
    ensures
        r@ == all_kinds(),
{
    vec![LineKind::LogFileStart, LineKind::LogFileClosed, LineKind::WorldTriggeredEvent, LineKind::WorldTriggeredEventMap, LineKind::WorldTriggeredEventScore, LineKind::PlayerTriggeredEvent, LineKind::TeamTriggeredEventScore, LineKind::LoadingMap, LineKind::CvarsStart, LineKind::CvarsEntry, LineKind::CvarsEnd, LineKind::StartedMap, LineKind::Cvar, LineKind::PlayerEnteredGame, LineKind::Get5Event, LineKind::RconCommand, LineKind::RconBadPassword, LineKind::SwitchedTeam, LineKind::PlayerPickedUp, LineKind::PlayerDropped, LineKind::TeamPlaying, LineKind::StartingFreezePeriod, LineKind::PlayerLeftBuyzone, LineKind::TeamChat, LineKind::MoneyChanged, LineKind::PlayerPurchased, LineKind::ThrewFlashbang, LineKind::BlindedPlayer, LineKind::GlobalChat, LineKind::PlayerKilledEntity, LineKind::PlayerKilledPlayer, LineKind::PlayerThrewSmokegrenade, LineKind::PlayerThrewHEGrenade, LineKind::PlayerAttackedPlayer, LineKind::PlayerDisconnected, LineKind::PlayerAssistedKillingPlayer, LineKind::PlayerAssistedBlindingPlayer, LineKind::SpawnedMolotov, LineKind::ThrewMolotov, LineKind::PlayerConnected, LineKind::ValidatedSteamID, LineKind::TeamScored, LineKind::ThrewDecoy, LineKind::MatchResumed, LineKind::MatchPaused, LineKind::KilledByBomb, LineKind::Accolade, LineKind::GameOver, LineKind::ChangedNickname, LineKind::CommittedSuicide, LineKind::ServerMessage, LineKind::SteamAuthFailure, LineKind::MetaModPluginsLoaded]
}

/// `L MM/DD/YYYY - HH:MM:SS: `, capturing the six numbers.
pub open spec fn prefix() -> Seq<Prim> {
    seq![
        Prim::Lit("L "),
        Prim::Fixed(2),
        Prim::Lit("/"),
        Prim::Fixed(2),
        Prim::Lit("/"),
        Prim::Fixed(4),
        Prim::Lit(" - "),
        Prim::Fixed(2),
        Prim::Lit(":"),
        Prim::Fixed(2),
        Prim::Lit(":"),
        Prim::Fixed(2),
        Prim::Lit(": "),
    ]
}

/// `"nick<entindex><id><team>"`, capturing the four parts.
pub open spec fn player() -> Seq<Prim> {
    seq![
        Prim::Lit("\""),
        Prim::Field('<', Check::Any),
        Prim::Lit("<"),
        Prim::Int,
        Prim::Lit("><"),
        Prim::Field('>', Check::PlayerId),
        Prim::Lit("><"),
        Prim::Field('>', Check::Word(Vocab::TeamAll)),
        Prim::Lit(">\""),
    ]
}

/// `"nick<entindex><id>"`, capturing the three parts.
pub open spec fn player_no_team() -> Seq<Prim> {
    seq![
        Prim::Lit("\""),
        Prim::Field('<', Check::Any),
        Prim::Lit("<"),
        Prim::Int,
        Prim::Lit("><"),
        Prim::Field('>', Check::SteamOrBot),
        Prim::Lit(">\""),
    ]
}

/// `[x y z]`, capturing the three coordinates.
pub open spec fn vector() -> Seq<Prim> {
    seq![
        Prim::Lit("["),
        Prim::SignedInt,
        Prim::Lit(" "),
        Prim::SignedInt,
        Prim::Lit(" "),
        Prim::SignedInt,
        Prim::Lit("]"),
    ]
}

fn prefix_pieces() -> (r: Vec<Prim>)
    ensures
        r@ == prefix(),
{
    vec![
        Prim::Lit("L "),
        Prim::Fixed(2),
        Prim::Lit("/"),
        Prim::Fixed(2),
        Prim::Lit("/"),
        Prim::Fixed(4),
        Prim::Lit(" - "),
        Prim::Fixed(2),
        Prim::Lit(":"),
        Prim::Fixed(2),
        Prim::Lit(":"),
        Prim::Fixed(2),
        Prim::Lit(": "),
    ]
}

fn player_pieces() -> (r: Vec<Prim>)
    ensures
        r@ == player(),
{
    vec![
        Prim::Lit("\""),
        Prim::Field('<', Check::Any),
        Prim::Lit("<"),
        Prim::Int,
        Prim::Lit("><"),
        Prim::Field('>', Check::PlayerId),
        Prim::Lit("><"),
        Prim::Field('>', Check::Word(Vocab::TeamAll)),
        Prim::Lit(">\""),
    ]
}

fn player_no_team_pieces() -> (r: Vec<Prim>)
    ensures
        r@ == player_no_team(),
{
    vec![
        Prim::Lit("\""),
        Prim::Field('<', Check::Any),
        Prim::Lit("<"),
        Prim::Int,
        Prim::Lit("><"),
        Prim::Field('>', Check::SteamOrBot),
        Prim::Lit(">\""),
    ]
}

fn vector_pieces() -> (r: Vec<Prim>)
    ensures
        r@ == vector(),
{
    vec![
        Prim::Lit("["),
        Prim::SignedInt,
        Prim::Lit(" "),
        Prim::SignedInt,
        Prim::Lit(" "),
        Prim::SignedInt,
        Prim::Lit("]"),
    ]
}

fn put(v: &mut Vec<Prim>, w: Vec<Prim>)
    ensures
        final(v)@ == old(v)@ + w@,
{
    let mut w = w;
    v.append(&mut w);
}

/// The pattern of a line kind.
pub open spec fn pattern(k: LineKind) -> Seq<Prim> {
    match k {
        LineKind::LogFileStart => prefix() + seq![Prim::Lit("Log file started (file \""), Prim::Field('"', Check::Any), Prim::Lit("\") (game \""), Prim::Field('"', Check::Any), Prim::Lit("\") (version \""), Prim::Int, Prim::Lit("\")")],
        LineKind::LogFileClosed => prefix() + seq![Prim::Lit("Log file closed")],
        LineKind::WorldTriggeredEvent => prefix() + seq![Prim::Lit("World triggered \""), Prim::Field('"', Check::Any), Prim::Lit("\"")],
        LineKind::WorldTriggeredEventMap => prefix() + seq![Prim::Lit("World triggered \""), Prim::Field('"', Check::Any), Prim::Lit("\" on \""), Prim::Field('"', Check::Any), Prim::Lit("\"")],
        LineKind::WorldTriggeredEventScore => prefix() + seq![Prim::Lit("World triggered \""), Prim::Field('"', Check::Any), Prim::Lit("\" (CT \""), Prim::Int, Prim::Lit("\") (T \""), Prim::Int, Prim::Lit("\")")],
        LineKind::PlayerTriggeredEvent => prefix() + player() + seq![Prim::Lit(" triggered \""), Prim::Field('"', Check::Any), Prim::Lit("\"")],
        LineKind::TeamTriggeredEventScore => prefix() + seq![Prim::Lit("Team \""), Prim::Field('"', Check::Word(Vocab::Side)), Prim::Lit("\" triggered \""), Prim::Field('"', Check::Any), Prim::Lit("\" (CT \""), Prim::Int, Prim::Lit("\") (T \""), Prim::Int, Prim::Lit("\")")],
        LineKind::LoadingMap => prefix() + seq![Prim::Lit("Loading map \""), Prim::Field('"', Check::Any), Prim::Lit("\"")],
        LineKind::CvarsStart => prefix() + seq![Prim::Lit("server cvars start")],
        LineKind::CvarsEntry => prefix() + seq![Prim::Lit("\""), Prim::Field('"', Check::Any), Prim::Lit("\" = \""), Prim::Field('"', Check::Any), Prim::Lit("\"")],
        LineKind::CvarsEnd => prefix() + seq![Prim::Lit("server cvars end")],
        LineKind::StartedMap => prefix() + seq![Prim::Lit("Started map \""), Prim::Field('"', Check::Any), Prim::Lit("\" (CRC \""), Prim::SignedInt, Prim::Lit("\")")],
        LineKind::Cvar => prefix() + seq![Prim::Lit("server_cvar: \""), Prim::Field('"', Check::Any), Prim::Lit("\" \""), Prim::Field('"', Check::Any), Prim::Lit("\"")],
        LineKind::PlayerEnteredGame => prefix() + player() + seq![Prim::Lit(" entered the game")],
        LineKind::Get5Event => prefix() + seq![Prim::Lit("get5_event: "), Prim::Rest(true)],
        LineKind::RconCommand => prefix() + seq![Prim::Lit("rcon from \""), Prim::Field('"', Check::Address), Prim::Lit("\": command \""), Prim::Tail("\"", Check::Line)],
        LineKind::RconBadPassword => prefix() + seq![Prim::Lit("rcon from \""), Prim::Field('"', Check::Address), Prim::Lit("\": Bad Password")],
        LineKind::SwitchedTeam => prefix() + player_no_team() + seq![Prim::Lit(" switched from team <"), Prim::Field('>', Check::Word(Vocab::TeamSide)), Prim::Lit("> to <"), Prim::Field('>', Check::Word(Vocab::TeamSide)), Prim::Lit(">")],
        LineKind::PlayerPickedUp => prefix() + player() + seq![Prim::Lit(" picked up \""), Prim::Field('"', Check::Any), Prim::Lit("\"")],
        LineKind::PlayerDropped => prefix() + player() + seq![Prim::Lit(" dropped \""), Prim::Field('"', Check::Any), Prim::Lit("\"")],
        LineKind::TeamPlaying => prefix() + seq![Prim::Lit("Team playing \""), Prim::Field('"', Check::Word(Vocab::Side)), Prim::Lit("\": "), Prim::Readiness, Prim::Rest(false)],
        LineKind::StartingFreezePeriod => prefix() + seq![Prim::Lit("Starting Freeze period")],
        LineKind::PlayerLeftBuyzone => prefix() + player() + seq![Prim::Lit(" left buyzone with [ "), Prim::Tail("]", Check::Items)],
        LineKind::TeamChat => prefix() + player() + seq![Prim::Lit(" say_team \""), Prim::Tail("\"", Check::Line)],
        LineKind::MoneyChanged => prefix() + player() + seq![Prim::Lit(" money change "), Prim::Int, Prim::Sign, Prim::Int, Prim::Lit(" = $"), Prim::Int, Prim::MoneyTail],
        LineKind::PlayerPurchased => prefix() + player() + seq![Prim::Lit(" purchased \""), Prim::Field('"', Check::Token), Prim::Lit("\"")],
        LineKind::ThrewFlashbang => prefix() + player() + seq![Prim::Lit(" threw flashbang ")] + vector() + seq![Prim::Lit(" flashbang entindex "), Prim::Int, Prim::Lit(")")],
        LineKind::BlindedPlayer => prefix() + player() + seq![Prim::Lit(" blinded for "), Prim::Int, Prim::Lit("."), Prim::Fixed(2), Prim::Lit(" by ")] + player() + seq![Prim::Lit(" from flashbang entindex "), Prim::Int, Prim::Lit(" ")],
        LineKind::GlobalChat => prefix() + player() + seq![Prim::Lit(" say \""), Prim::Tail("\"", Check::Line)],
        LineKind::PlayerKilledEntity => prefix() + player() + seq![Prim::Lit(" ")] + vector() + seq![Prim::Lit(" killed other \""), Prim::Field('<', Check::Any), Prim::Lit("<"), Prim::Int, Prim::Lit(">\" ")] + vector() + seq![Prim::Lit(" with \""), Prim::Field('"', Check::Token), Prim::Lit("\""), Prim::KillTail],
        LineKind::PlayerKilledPlayer => prefix() + player() + seq![Prim::Lit(" ")] + vector() + seq![Prim::Lit(" killed ")] + player() + seq![Prim::Lit(" ")] + vector() + seq![Prim::Lit(" with \""), Prim::Field('"', Check::Token), Prim::Lit("\""), Prim::KillTail],
        LineKind::PlayerThrewSmokegrenade => prefix() + player() + seq![Prim::Lit(" threw smokegrenade ")] + vector(),
        LineKind::PlayerThrewHEGrenade => prefix() + player() + seq![Prim::Lit(" threw hegrenade ")] + vector(),
        LineKind::PlayerAttackedPlayer => prefix() + player() + seq![Prim::Lit(" ")] + vector() + seq![Prim::Lit(" attacked ")] + player() + seq![Prim::Lit(" ")] + vector() + seq![Prim::Lit(" with \""), Prim::Field('"', Check::Token), Prim::Lit("\" (damage \""), Prim::Int, Prim::Lit("\") (damage_armor \""), Prim::Int, Prim::Lit("\") (health \""), Prim::Int, Prim::Lit("\") (armor \""), Prim::Int, Prim::Lit("\") (hitgroup \""), Prim::Field('"', Check::Word(Vocab::HitGroup)), Prim::Lit("\")")],
        LineKind::PlayerDisconnected => prefix() + player() + seq![Prim::Lit(" disconnected (reason \""), Prim::Field('"', Check::Any), Prim::Lit("\")")],
        LineKind::PlayerAssistedKillingPlayer => prefix() + player() + seq![Prim::Lit(" assisted killing ")] + player(),
        LineKind::PlayerAssistedBlindingPlayer => prefix() + player() + seq![Prim::Lit(" flash-assisted killing ")] + player(),
        LineKind::SpawnedMolotov => prefix() + seq![Prim::Lit("Molotov projectile spawned at "), Prim::Decimal(true), Prim::Lit(" "), Prim::Decimal(true), Prim::Lit(" "), Prim::Decimal(true), Prim::Lit(", velocity "), Prim::Decimal(true), Prim::Lit(" "), Prim::Decimal(true), Prim::Lit(" "), Prim::Decimal(true)],
        LineKind::ThrewMolotov => prefix() + player() + seq![Prim::Lit(" threw molotov ")] + vector(),
        LineKind::PlayerConnected => prefix() + player() + seq![Prim::Lit(" connected, address \""), Prim::Field('"', Check::Any), Prim::Lit("\"")],
        LineKind::ValidatedSteamID => prefix() + player() + seq![Prim::Lit(" STEAM USERID validated")],
        LineKind::TeamScored => prefix() + seq![Prim::Lit("Team \""), Prim::Field('"', Check::Word(Vocab::Side)), Prim::Lit("\" scored \""), Prim::Int, Prim::Lit("\" with \""), Prim::Int, Prim::Lit("\" players")],
        LineKind::ThrewDecoy => prefix() + player() + seq![Prim::Lit(" threw decoy ")] + vector(),
        LineKind::MatchResumed => prefix() + seq![Prim::Lit("Match pause is disabled - mp_unpause_match")],
        LineKind::MatchPaused => prefix() + seq![Prim::Lit("Match pause is enabled - mp_pause_match")],
        LineKind::KilledByBomb => prefix() + player() + seq![Prim::Lit(" ")] + vector() + seq![Prim::Lit(" was killed by the bomb.")],
        LineKind::Accolade => prefix() + seq![Prim::Lit("ACCOLADE, FINAL: {"), Prim::Field('}', Check::Any), Prim::Lit("},"), Prim::Spaces, Prim::Field('<', Check::Any), Prim::Lit("<"), Prim::Int, Prim::Lit(">,"), Prim::Spaces, Prim::Lit("VALUE: "), Prim::Decimal(false), Prim::Lit(","), Prim::Spaces, Prim::Lit("POS: "), Prim::Int, Prim::Lit(","), Prim::Spaces, Prim::Lit("SCORE: "), Prim::Decimal(false)],
        LineKind::GameOver => prefix() + seq![Prim::Lit("Game Over: "), Prim::Word, Prim::Lit(" "), Prim::Word, Prim::Lit(" "), Prim::Word, Prim::Lit(" score "), Prim::Int, Prim::Lit(":"), Prim::Int, Prim::Lit(" after "), Prim::Int, Prim::Lit(" min")],
        LineKind::ChangedNickname => prefix() + player() + seq![Prim::Lit(" changed name to \""), Prim::Field('"', Check::Any), Prim::Lit("\"")],
        LineKind::CommittedSuicide => prefix() + player() + seq![Prim::Lit(" ")] + vector() + seq![Prim::Lit(" committed suicide with \""), Prim::Field('"', Check::Any), Prim::Lit("\"")],
        LineKind::ServerMessage => prefix() + seq![Prim::Lit("server_message: \""), Prim::Field('"', Check::Any), Prim::Lit("\"")],
        LineKind::SteamAuthFailure => prefix() + seq![Prim::Lit("STEAMAUTH: Client "), Prim::FailureCode],
        LineKind::MetaModPluginsLoaded => prefix() + seq![Prim::Lit("[META] Loaded "), Prim::Int, Prim::Lit(" plugin"), Prim::PluginTail],
    }
}

/// The pattern of a line kind, as pieces to run.
pub fn pattern_of(k: LineKind) -> (r: Vec<Prim>)
    ensures
        r@ == pattern(k),
{
    match k {
        LineKind::LogFileStart => {
            let mut v = prefix_pieces();
            put(&mut v, vec![Prim::Lit("Log file started (file \""), Prim::Field('"', Check::Any), Prim::Lit("\") (game \""), Prim::Field('"', Check::Any), Prim::Lit("\") (version \""), Prim::Int, Prim::Lit("\")")]);
            v
        },
        LineKind::LogFileClosed => {
            let mut v = prefix_pieces();
            put(&mut v, vec![Prim::Lit("Log file closed")]);
            v
        },
        LineKind::WorldTriggeredEvent => {
            let mut v = prefix_pieces();
            put(&mut v, vec![Prim::Lit("World triggered \""), Prim::Field('"', Check::Any), Prim::Lit("\"")]);
            v
        },
        LineKind::WorldTriggeredEventMap => {
            let mut v = prefix_pieces();
            put(&mut v, vec![Prim::Lit("World triggered \""), Prim::Field('"', Check::Any), Prim::Lit("\" on \""), Prim::Field('"', Check::Any), Prim::Lit("\"")]);
            v
        },
        LineKind::WorldTriggeredEventScore => {
            let mut v = prefix_pieces();
            put(&mut v, vec![Prim::Lit("World triggered \""), Prim::Field('"', Check::Any), Prim::Lit("\" (CT \""), Prim::Int, Prim::Lit("\") (T \""), Prim::Int, Prim::Lit("\")")]);
            v
        },
        LineKind::PlayerTriggeredEvent => {
            let mut v = prefix_pieces();
            put(&mut v, player_pieces());
            put(&mut v, vec![Prim::Lit(" triggered \""), Prim::Field('"', Check::Any), Prim::Lit("\"")]);
            v
        },
        LineKind::TeamTriggeredEventScore => {
            let mut v = prefix_pieces();
            put(&mut v, vec![Prim::Lit("Team \""), Prim::Field('"', Check::Word(Vocab::Side)), Prim::Lit("\" triggered \""), Prim::Field('"', Check::Any), Prim::Lit("\" (CT \""), Prim::Int, Prim::Lit("\") (T \""), Prim::Int, Prim::Lit("\")")]);
            v
        },
        LineKind::LoadingMap => {
            let mut v = prefix_pieces();
            put(&mut v, vec![Prim::Lit("Loading map \""), Prim::Field('"', Check::Any), Prim::Lit("\"")]);
            v
        },
        LineKind::CvarsStart => {
            let mut v = prefix_pieces();
            put(&mut v, vec![Prim::Lit("server cvars start")]);
            v
        },
        LineKind::CvarsEntry => {
            let mut v = prefix_pieces();
            put(&mut v, vec![Prim::Lit("\""), Prim::Field('"', Check::Any), Prim::Lit("\" = \""), Prim::Field('"', Check::Any), Prim::Lit("\"")]);
            v
        },
        LineKind::CvarsEnd => {
            let mut v = prefix_pieces();
            put(&mut v, vec![Prim::Lit("server cvars end")]);
            v
        },
        LineKind::StartedMap => {
            let mut v = prefix_pieces();
            put(&mut v, vec![Prim::Lit("Started map \""), Prim::Field('"', Check::Any), Prim::Lit("\" (CRC \""), Prim::SignedInt, Prim::Lit("\")")]);
            v
        },
        LineKind::Cvar => {
            let mut v = prefix_pieces();
            put(&mut v, vec![Prim::Lit("server_cvar: \""), Prim::Field('"', Check::Any), Prim::Lit("\" \""), Prim::Field('"', Check::Any), Prim::Lit("\"")]);
            v
        },
        LineKind::PlayerEnteredGame => {
            let mut v = prefix_pieces();
            put(&mut v, player_pieces());
            put(&mut v, vec![Prim::Lit(" entered the game")]);
            v
        },
        LineKind::Get5Event => {
            let mut v = prefix_pieces();
            put(&mut v, vec![Prim::Lit("get5_event: "), Prim::Rest(true)]);
            v
        },
        LineKind::RconCommand => {
            let mut v = prefix_pieces();
            put(&mut v, vec![Prim::Lit("rcon from \""), Prim::Field('"', Check::Address), Prim::Lit("\": command \""), Prim::Tail("\"", Check::Line)]);
            v
        },
        LineKind::RconBadPassword => {
            let mut v = prefix_pieces();
            put(&mut v, vec![Prim::Lit("rcon from \""), Prim::Field('"', Check::Address), Prim::Lit("\": Bad Password")]);
            v
        },
        LineKind::SwitchedTeam => {
            let mut v = prefix_pieces();
            put(&mut v, player_no_team_pieces());
            put(&mut v, vec![Prim::Lit(" switched from team <"), Prim::Field('>', Check::Word(Vocab::TeamSide)), Prim::Lit("> to <"), Prim::Field('>', Check::Word(Vocab::TeamSide)), Prim::Lit(">")]);
            v
        },
        LineKind::PlayerPickedUp => {
            let mut v = prefix_pieces();
            put(&mut v, player_pieces());
            put(&mut v, vec![Prim::Lit(" picked up \""), Prim::Field('"', Check::Any), Prim::Lit("\"")]);
            v
        },
        LineKind::PlayerDropped => {
            let mut v = prefix_pieces();
            put(&mut v, player_pieces());
            put(&mut v, vec![Prim::Lit(" dropped \""), Prim::Field('"', Check::Any), Prim::Lit("\"")]);
            v
        },
        LineKind::TeamPlaying => {
            let mut v = prefix_pieces();
            put(&mut v, vec![Prim::Lit("Team playing \""), Prim::Field('"', Check::Word(Vocab::Side)), Prim::Lit("\": "), Prim::Readiness, Prim::Rest(false)]);
            v
        },
        LineKind::StartingFreezePeriod => {
            let mut v = prefix_pieces();
            put(&mut v, vec![Prim::Lit("Starting Freeze period")]);
            v
        },
        LineKind::PlayerLeftBuyzone => {
            let mut v = prefix_pieces();
            put(&mut v, player_pieces());
            put(&mut v, vec![Prim::Lit(" left buyzone with [ "), Prim::Tail("]", Check::Items)]);
            v
        },
        LineKind::TeamChat => {
            let mut v = prefix_pieces();
            put(&mut v, player_pieces());
            put(&mut v, vec![Prim::Lit(" say_team \""), Prim::Tail("\"", Check::Line)]);
            v
        },
        LineKind::MoneyChanged => {
            let mut v = prefix_pieces();
            put(&mut v, player_pieces());
            put(&mut v, vec![Prim::Lit(" money change "), Prim::Int, Prim::Sign, Prim::Int, Prim::Lit(" = $"), Prim::Int, Prim::MoneyTail]);
            v
        },
        LineKind::PlayerPurchased => {
            let mut v = prefix_pieces();
            put(&mut v, player_pieces());
            put(&mut v, vec![Prim::Lit(" purchased \""), Prim::Field('"', Check::Token), Prim::Lit("\"")]);
            v
        },
        LineKind::ThrewFlashbang => {
            let mut v = prefix_pieces();
            put(&mut v, player_pieces());
            put(&mut v, vec![Prim::Lit(" threw flashbang ")]);
            put(&mut v, vector_pieces());
            put(&mut v, vec![Prim::Lit(" flashbang entindex "), Prim::Int, Prim::Lit(")")]);
            v
        },
        LineKind::BlindedPlayer => {
            let mut v = prefix_pieces();
            put(&mut v, player_pieces());
            put(&mut v, vec![Prim::Lit(" blinded for "), Prim::Int, Prim::Lit("."), Prim::Fixed(2), Prim::Lit(" by ")]);
            put(&mut v, player_pieces());
            put(&mut v, vec![Prim::Lit(" from flashbang entindex "), Prim::Int, Prim::Lit(" ")]);
            v
        },
        LineKind::GlobalChat => {
            let mut v = prefix_pieces();
            put(&mut v, player_pieces());
            put(&mut v, vec![Prim::Lit(" say \""), Prim::Tail("\"", Check::Line)]);
            v
        },
        LineKind::PlayerKilledEntity => {
            let mut v = prefix_pieces();
            put(&mut v, player_pieces());
            put(&mut v, vec![Prim::Lit(" ")]);
            put(&mut v, vector_pieces());
            put(&mut v, vec![Prim::Lit(" killed other \""), Prim::Field('<', Check::Any), Prim::Lit("<"), Prim::Int, Prim::Lit(">\" ")]);
            put(&mut v, vector_pieces());
            put(&mut v, vec![Prim::Lit(" with \""), Prim::Field('"', Check::Token), Prim::Lit("\""), Prim::KillTail]);
            v
        },
        LineKind::PlayerKilledPlayer => {
            let mut v = prefix_pieces();
            put(&mut v, player_pieces());
            put(&mut v, vec![Prim::Lit(" ")]);
            put(&mut v, vector_pieces());
            put(&mut v, vec![Prim::Lit(" killed ")]);
            put(&mut v, player_pieces());
            put(&mut v, vec![Prim::Lit(" ")]);
            put(&mut v, vector_pieces());
            put(&mut v, vec![Prim::Lit(" with \""), Prim::Field('"', Check::Token), Prim::Lit("\""), Prim::KillTail]);
            v
        },
        LineKind::PlayerThrewSmokegrenade => {
            let mut v = prefix_pieces();
            put(&mut v, player_pieces());
            put(&mut v, vec![Prim::Lit(" threw smokegrenade ")]);
            put(&mut v, vector_pieces());
            v
        },
        LineKind::PlayerThrewHEGrenade => {
            let mut v = prefix_pieces();
            put(&mut v, player_pieces());
            put(&mut v, vec![Prim::Lit(" threw hegrenade ")]);
            put(&mut v, vector_pieces());
            v
        },
        LineKind::PlayerAttackedPlayer => {
            let mut v = prefix_pieces();
            put(&mut v, player_pieces());
            put(&mut v, vec![Prim::Lit(" ")]);
            put(&mut v, vector_pieces());
            put(&mut v, vec![Prim::Lit(" attacked ")]);
            put(&mut v, player_pieces());
            put(&mut v, vec![Prim::Lit(" ")]);
            put(&mut v, vector_pieces());
            put(&mut v, vec![Prim::Lit(" with \""), Prim::Field('"', Check::Token), Prim::Lit("\" (damage \""), Prim::Int, Prim::Lit("\") (damage_armor \""), Prim::Int, Prim::Lit("\") (health \""), Prim::Int, Prim::Lit("\") (armor \""), Prim::Int, Prim::Lit("\") (hitgroup \""), Prim::Field('"', Check::Word(Vocab::HitGroup)), Prim::Lit("\")")]);
            v
        },
        LineKind::PlayerDisconnected => {
            let mut v = prefix_pieces();
            put(&mut v, player_pieces());
            put(&mut v, vec![Prim::Lit(" disconnected (reason \""), Prim::Field('"', Check::Any), Prim::Lit("\")")]);
            v
        },
        LineKind::PlayerAssistedKillingPlayer => {
            let mut v = prefix_pieces();
            put(&mut v, player_pieces());
            put(&mut v, vec![Prim::Lit(" assisted killing ")]);
            put(&mut v, player_pieces());
            v
        },
        LineKind::PlayerAssistedBlindingPlayer => {
            let mut v = prefix_pieces();
            put(&mut v, player_pieces());
            put(&mut v, vec![Prim::Lit(" flash-assisted killing ")]);
            put(&mut v, player_pieces());
            v
        },
        LineKind::SpawnedMolotov => {
            let mut v = prefix_pieces();
            put(&mut v, vec![Prim::Lit("Molotov projectile spawned at "), Prim::Decimal(true), Prim::Lit(" "), Prim::Decimal(true), Prim::Lit(" "), Prim::Decimal(true), Prim::Lit(", velocity "), Prim::Decimal(true), Prim::Lit(" "), Prim::Decimal(true), Prim::Lit(" "), Prim::Decimal(true)]);
            v
        },
        LineKind::ThrewMolotov => {
            let mut v = prefix_pieces();
            put(&mut v, player_pieces());
            put(&mut v, vec![Prim::Lit(" threw molotov ")]);
            put(&mut v, vector_pieces());
            v
        },
        LineKind::PlayerConnected => {
            let mut v = prefix_pieces();
            put(&mut v, player_pieces());
            put(&mut v, vec![Prim::Lit(" connected, address \""), Prim::Field('"', Check::Any), Prim::Lit("\"")]);
            v
        },
        LineKind::ValidatedSteamID => {
            let mut v = prefix_pieces();
            put(&mut v, player_pieces());
            put(&mut v, vec![Prim::Lit(" STEAM USERID validated")]);
            v
        },
        LineKind::TeamScored => {
            let mut v = prefix_pieces();
            put(&mut v, vec![Prim::Lit("Team \""), Prim::Field('"', Check::Word(Vocab::Side)), Prim::Lit("\" scored \""), Prim::Int, Prim::Lit("\" with \""), Prim::Int, Prim::Lit("\" players")]);
            v
        },
        LineKind::ThrewDecoy => {
            let mut v = prefix_pieces();
            put(&mut v, player_pieces());
            put(&mut v, vec![Prim::Lit(" threw decoy ")]);
            put(&mut v, vector_pieces());
            v
        },
        LineKind::MatchResumed => {
            let mut v = prefix_pieces();
            put(&mut v, vec![Prim::Lit("Match pause is disabled - mp_unpause_match")]);
            v
        },
        LineKind::MatchPaused => {
            let mut v = prefix_pieces();
            put(&mut v, vec![Prim::Lit("Match pause is enabled - mp_pause_match")]);
            v
        },
        LineKind::KilledByBomb => {
            let mut v = prefix_pieces();
            put(&mut v, player_pieces());
            put(&mut v, vec![Prim::Lit(" ")]);
            put(&mut v, vector_pieces());
            put(&mut v, vec![Prim::Lit(" was killed by the bomb.")]);
            v
        },
        LineKind::Accolade => {
            let mut v = prefix_pieces();
            put(&mut v, vec![Prim::Lit("ACCOLADE, FINAL: {"), Prim::Field('}', Check::Any), Prim::Lit("},"), Prim::Spaces, Prim::Field('<', Check::Any), Prim::Lit("<"), Prim::Int, Prim::Lit(">,"), Prim::Spaces, Prim::Lit("VALUE: "), Prim::Decimal(false), Prim::Lit(","), Prim::Spaces, Prim::Lit("POS: "), Prim::Int, Prim::Lit(","), Prim::Spaces, Prim::Lit("SCORE: "), Prim::Decimal(false)]);
            v
        },
        LineKind::GameOver => {
            let mut v = prefix_pieces();
            put(&mut v, vec![Prim::Lit("Game Over: "), Prim::Word, Prim::Lit(" "), Prim::Word, Prim::Lit(" "), Prim::Word, Prim::Lit(" score "), Prim::Int, Prim::Lit(":"), Prim::Int, Prim::Lit(" after "), Prim::Int, Prim::Lit(" min")]);
            v
        },
        LineKind::ChangedNickname => {
            let mut v = prefix_pieces();
            put(&mut v, player_pieces());
            put(&mut v, vec![Prim::Lit(" changed name to \""), Prim::Field('"', Check::Any), Prim::Lit("\"")]);
            v
        },
        LineKind::CommittedSuicide => {
            let mut v = prefix_pieces();
            put(&mut v, player_pieces());
            put(&mut v, vec![Prim::Lit(" ")]);
            put(&mut v, vector_pieces());
            put(&mut v, vec![Prim::Lit(" committed suicide with \""), Prim::Field('"', Check::Any), Prim::Lit("\"")]);
            v
        },
        LineKind::ServerMessage => {
            let mut v = prefix_pieces();
            put(&mut v, vec![Prim::Lit("server_message: \""), Prim::Field('"', Check::Any), Prim::Lit("\"")]);
            v
        },
        LineKind::SteamAuthFailure => {
            let mut v = prefix_pieces();
            put(&mut v, vec![Prim::Lit("STEAMAUTH: Client "), Prim::FailureCode]);
            v
        },
        LineKind::MetaModPluginsLoaded => {
            let mut v = prefix_pieces();
            put(&mut v, vec![Prim::Lit("[META] Loaded "), Prim::Int, Prim::Lit(" plugin"), Prim::PluginTail]);
            v
        },
    }
}

} // verus!
