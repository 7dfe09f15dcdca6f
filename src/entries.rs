//! The entry that each line kind builds from its captured fields.
use vstd::prelude::*;
use crate::extract::{
    blind_millis,
    cap_blind_millis,
    cap_count_or_zero,
    cap_hitgroup,
    cap_int,
    cap_items,
    cap_kill_attributes,
    cap_minutes_millis,
    cap_opt_text,
    cap_player,
    cap_player_no_team,
    cap_present,
    cap_side,
    cap_team_all,
    cap_text,
    cap_vector,
    count_or_zero,
    field_fits,
    field_fits_at,
    hitgroup_of,
    int_at,
    items_of,
    kill_attributes_of,
    minutes_millis,
    opt_is,
    player_is,
    player_no_team_is,
    player_no_team_ok,
    player_ok,
    prefix_at,
    prefix_of,
    present,
    side_of,
    strings_view,
    team_all_of,
    txt_at,
    vector_at,
    Bound,
};
use crate::grammar::{caps_within, line_caps, Cap};
use crate::model::{Decimal, Duration, LogEntry};
use crate::shapes::lemma_matched_fields_convert;
use crate::table::{pattern, LineKind};

verus! {

/// The integer fields of a line of kind `k`: where each stands among the
/// captured fields, and the type it is read into.
pub open spec fn int_fields(k: LineKind) -> Seq<(usize, Bound)> {
    match k {
        LineKind::LogFileStart => seq![(0usize, Bound::Int), (1usize, Bound::Int), (2usize, Bound::Int), (3usize, Bound::Int), (4usize, Bound::Int), (5usize, Bound::Int), (8usize, Bound::Int)],
        LineKind::LogFileClosed => seq![(0usize, Bound::Int), (1usize, Bound::Int), (2usize, Bound::Int), (3usize, Bound::Int), (4usize, Bound::Int), (5usize, Bound::Int)],
        LineKind::WorldTriggeredEvent => seq![(0usize, Bound::Int), (1usize, Bound::Int), (2usize, Bound::Int), (3usize, Bound::Int), (4usize, Bound::Int), (5usize, Bound::Int)],
        LineKind::WorldTriggeredEventMap => seq![(0usize, Bound::Int), (1usize, Bound::Int), (2usize, Bound::Int), (3usize, Bound::Int), (4usize, Bound::Int), (5usize, Bound::Int)],
        LineKind::WorldTriggeredEventScore => seq![(0usize, Bound::Int), (1usize, Bound::Int), (2usize, Bound::Int), (3usize, Bound::Int), (4usize, Bound::Int), (5usize, Bound::Int), (7usize, Bound::Int), (8usize, Bound::Int)],
        LineKind::PlayerTriggeredEvent => seq![(0usize, Bound::Int), (1usize, Bound::Int), (2usize, Bound::Int), (3usize, Bound::Int), (4usize, Bound::Int), (5usize, Bound::Int), (7usize, Bound::Int)],
        LineKind::TeamTriggeredEventScore => seq![(0usize, Bound::Int), (1usize, Bound::Int), (2usize, Bound::Int), (3usize, Bound::Int), (4usize, Bound::Int), (5usize, Bound::Int), (8usize, Bound::Int), (9usize, Bound::Int)],
        LineKind::LoadingMap => seq![(0usize, Bound::Int), (1usize, Bound::Int), (2usize, Bound::Int), (3usize, Bound::Int), (4usize, Bound::Int), (5usize, Bound::Int)],
        LineKind::CvarsStart => seq![(0usize, Bound::Int), (1usize, Bound::Int), (2usize, Bound::Int), (3usize, Bound::Int), (4usize, Bound::Int), (5usize, Bound::Int)],
        LineKind::CvarsEntry => seq![(0usize, Bound::Int), (1usize, Bound::Int), (2usize, Bound::Int), (3usize, Bound::Int), (4usize, Bound::Int), (5usize, Bound::Int)],
        LineKind::CvarsEnd => seq![(0usize, Bound::Int), (1usize, Bound::Int), (2usize, Bound::Int), (3usize, Bound::Int), (4usize, Bound::Int), (5usize, Bound::Int)],
        LineKind::StartedMap => seq![(0usize, Bound::Int), (1usize, Bound::Int), (2usize, Bound::Int), (3usize, Bound::Int), (4usize, Bound::Int), (5usize, Bound::Int)],
        LineKind::Cvar => seq![(0usize, Bound::Int), (1usize, Bound::Int), (2usize, Bound::Int), (3usize, Bound::Int), (4usize, Bound::Int), (5usize, Bound::Int)],
        LineKind::PlayerEnteredGame => seq![(0usize, Bound::Int), (1usize, Bound::Int), (2usize, Bound::Int), (3usize, Bound::Int), (4usize, Bound::Int), (5usize, Bound::Int), (7usize, Bound::Int)],
        LineKind::Get5Event => seq![(0usize, Bound::Int), (1usize, Bound::Int), (2usize, Bound::Int), (3usize, Bound::Int), (4usize, Bound::Int), (5usize, Bound::Int)],
        LineKind::RconCommand => seq![(0usize, Bound::Int), (1usize, Bound::Int), (2usize, Bound::Int), (3usize, Bound::Int), (4usize, Bound::Int), (5usize, Bound::Int)],
        LineKind::RconBadPassword => seq![(0usize, Bound::Int), (1usize, Bound::Int), (2usize, Bound::Int), (3usize, Bound::Int), (4usize, Bound::Int), (5usize, Bound::Int)],
        LineKind::SwitchedTeam => seq![(0usize, Bound::Int), (1usize, Bound::Int), (2usize, Bound::Int), (3usize, Bound::Int), (4usize, Bound::Int), (5usize, Bound::Int), (7usize, Bound::Int)],
        LineKind::PlayerPickedUp => seq![(0usize, Bound::Int), (1usize, Bound::Int), (2usize, Bound::Int), (3usize, Bound::Int), (4usize, Bound::Int), (5usize, Bound::Int), (7usize, Bound::Int)],
        LineKind::PlayerDropped => seq![(0usize, Bound::Int), (1usize, Bound::Int), (2usize, Bound::Int), (3usize, Bound::Int), (4usize, Bound::Int), (5usize, Bound::Int), (7usize, Bound::Int)],
        LineKind::TeamPlaying => seq![(0usize, Bound::Int), (1usize, Bound::Int), (2usize, Bound::Int), (3usize, Bound::Int), (4usize, Bound::Int), (5usize, Bound::Int)],
        LineKind::StartingFreezePeriod => seq![(0usize, Bound::Int), (1usize, Bound::Int), (2usize, Bound::Int), (3usize, Bound::Int), (4usize, Bound::Int), (5usize, Bound::Int)],
        LineKind::PlayerLeftBuyzone => seq![(0usize, Bound::Int), (1usize, Bound::Int), (2usize, Bound::Int), (3usize, Bound::Int), (4usize, Bound::Int), (5usize, Bound::Int), (7usize, Bound::Int)],
        LineKind::TeamChat => seq![(0usize, Bound::Int), (1usize, Bound::Int), (2usize, Bound::Int), (3usize, Bound::Int), (4usize, Bound::Int), (5usize, Bound::Int), (7usize, Bound::Int)],
        LineKind::MoneyChanged => seq![(0usize, Bound::Int), (1usize, Bound::Int), (2usize, Bound::Int), (3usize, Bound::Int), (4usize, Bound::Int), (5usize, Bound::Int), (7usize, Bound::Int), (10usize, Bound::Int), (12usize, Bound::Int), (13usize, Bound::Int)],
        LineKind::PlayerPurchased => seq![(0usize, Bound::Int), (1usize, Bound::Int), (2usize, Bound::Int), (3usize, Bound::Int), (4usize, Bound::Int), (5usize, Bound::Int), (7usize, Bound::Int)],
        LineKind::ThrewFlashbang => seq![(0usize, Bound::Int), (1usize, Bound::Int), (2usize, Bound::Int), (3usize, Bound::Int), (4usize, Bound::Int), (5usize, Bound::Int), (7usize, Bound::Int), (10usize, Bound::Signed), (11usize, Bound::Signed), (12usize, Bound::Signed), (13usize, Bound::Int)],
        LineKind::BlindedPlayer => seq![(0usize, Bound::Int), (1usize, Bound::Int), (2usize, Bound::Int), (3usize, Bound::Int), (4usize, Bound::Int), (5usize, Bound::Int), (7usize, Bound::Int), (10usize, Bound::Blind), (13usize, Bound::Int), (16usize, Bound::Int)],
        LineKind::GlobalChat => seq![(0usize, Bound::Int), (1usize, Bound::Int), (2usize, Bound::Int), (3usize, Bound::Int), (4usize, Bound::Int), (5usize, Bound::Int), (7usize, Bound::Int)],
        LineKind::PlayerKilledEntity => seq![(0usize, Bound::Int), (1usize, Bound::Int), (2usize, Bound::Int), (3usize, Bound::Int), (4usize, Bound::Int), (5usize, Bound::Int), (7usize, Bound::Int), (10usize, Bound::Signed), (11usize, Bound::Signed), (12usize, Bound::Signed), (14usize, Bound::Int), (15usize, Bound::Signed), (16usize, Bound::Signed), (17usize, Bound::Signed)],
        LineKind::PlayerKilledPlayer => seq![(0usize, Bound::Int), (1usize, Bound::Int), (2usize, Bound::Int), (3usize, Bound::Int), (4usize, Bound::Int), (5usize, Bound::Int), (7usize, Bound::Int), (10usize, Bound::Signed), (11usize, Bound::Signed), (12usize, Bound::Signed), (14usize, Bound::Int), (17usize, Bound::Signed), (18usize, Bound::Signed), (19usize, Bound::Signed)],
        LineKind::PlayerThrewSmokegrenade => seq![(0usize, Bound::Int), (1usize, Bound::Int), (2usize, Bound::Int), (3usize, Bound::Int), (4usize, Bound::Int), (5usize, Bound::Int), (7usize, Bound::Int), (10usize, Bound::Signed), (11usize, Bound::Signed), (12usize, Bound::Signed)],
        LineKind::PlayerThrewHEGrenade => seq![(0usize, Bound::Int), (1usize, Bound::Int), (2usize, Bound::Int), (3usize, Bound::Int), (4usize, Bound::Int), (5usize, Bound::Int), (7usize, Bound::Int), (10usize, Bound::Signed), (11usize, Bound::Signed), (12usize, Bound::Signed)],
        LineKind::PlayerAttackedPlayer => seq![(0usize, Bound::Int), (1usize, Bound::Int), (2usize, Bound::Int), (3usize, Bound::Int), (4usize, Bound::Int), (5usize, Bound::Int), (7usize, Bound::Int), (10usize, Bound::Signed), (11usize, Bound::Signed), (12usize, Bound::Signed), (14usize, Bound::Int), (17usize, Bound::Signed), (18usize, Bound::Signed), (19usize, Bound::Signed), (21usize, Bound::Int), (22usize, Bound::Int), (23usize, Bound::Int), (24usize, Bound::Int)],
        LineKind::PlayerDisconnected => seq![(0usize, Bound::Int), (1usize, Bound::Int), (2usize, Bound::Int), (3usize, Bound::Int), (4usize, Bound::Int), (5usize, Bound::Int), (7usize, Bound::Int)],
        LineKind::PlayerAssistedKillingPlayer => seq![(0usize, Bound::Int), (1usize, Bound::Int), (2usize, Bound::Int), (3usize, Bound::Int), (4usize, Bound::Int), (5usize, Bound::Int), (7usize, Bound::Int), (11usize, Bound::Int)],
        LineKind::PlayerAssistedBlindingPlayer => seq![(0usize, Bound::Int), (1usize, Bound::Int), (2usize, Bound::Int), (3usize, Bound::Int), (4usize, Bound::Int), (5usize, Bound::Int), (7usize, Bound::Int), (11usize, Bound::Int)],
        LineKind::SpawnedMolotov => seq![(0usize, Bound::Int), (1usize, Bound::Int), (2usize, Bound::Int), (3usize, Bound::Int), (4usize, Bound::Int), (5usize, Bound::Int)],
        LineKind::ThrewMolotov => seq![(0usize, Bound::Int), (1usize, Bound::Int), (2usize, Bound::Int), (3usize, Bound::Int), (4usize, Bound::Int), (5usize, Bound::Int), (7usize, Bound::Int), (10usize, Bound::Signed), (11usize, Bound::Signed), (12usize, Bound::Signed)],
        LineKind::PlayerConnected => seq![(0usize, Bound::Int), (1usize, Bound::Int), (2usize, Bound::Int), (3usize, Bound::Int), (4usize, Bound::Int), (5usize, Bound::Int), (7usize, Bound::Int)],
        LineKind::ValidatedSteamID => seq![(0usize, Bound::Int), (1usize, Bound::Int), (2usize, Bound::Int), (3usize, Bound::Int), (4usize, Bound::Int), (5usize, Bound::Int), (7usize, Bound::Int)],
        LineKind::TeamScored => seq![(0usize, Bound::Int), (1usize, Bound::Int), (2usize, Bound::Int), (3usize, Bound::Int), (4usize, Bound::Int), (5usize, Bound::Int), (7usize, Bound::Int), (8usize, Bound::Int)],
        LineKind::ThrewDecoy => seq![(0usize, Bound::Int), (1usize, Bound::Int), (2usize, Bound::Int), (3usize, Bound::Int), (4usize, Bound::Int), (5usize, Bound::Int), (7usize, Bound::Int), (10usize, Bound::Signed), (11usize, Bound::Signed), (12usize, Bound::Signed)],
        LineKind::MatchResumed => seq![(0usize, Bound::Int), (1usize, Bound::Int), (2usize, Bound::Int), (3usize, Bound::Int), (4usize, Bound::Int), (5usize, Bound::Int)],
        LineKind::MatchPaused => seq![(0usize, Bound::Int), (1usize, Bound::Int), (2usize, Bound::Int), (3usize, Bound::Int), (4usize, Bound::Int), (5usize, Bound::Int)],
        LineKind::KilledByBomb => seq![(0usize, Bound::Int), (1usize, Bound::Int), (2usize, Bound::Int), (3usize, Bound::Int), (4usize, Bound::Int), (5usize, Bound::Int), (7usize, Bound::Int), (10usize, Bound::Signed), (11usize, Bound::Signed), (12usize, Bound::Signed)],
        LineKind::Accolade => seq![(0usize, Bound::Int), (1usize, Bound::Int), (2usize, Bound::Int), (3usize, Bound::Int), (4usize, Bound::Int), (5usize, Bound::Int), (8usize, Bound::Int), (10usize, Bound::Int)],
        LineKind::GameOver => seq![(0usize, Bound::Int), (1usize, Bound::Int), (2usize, Bound::Int), (3usize, Bound::Int), (4usize, Bound::Int), (5usize, Bound::Int), (9usize, Bound::Int), (10usize, Bound::Int), (11usize, Bound::Minutes)],
        LineKind::ChangedNickname => seq![(0usize, Bound::Int), (1usize, Bound::Int), (2usize, Bound::Int), (3usize, Bound::Int), (4usize, Bound::Int), (5usize, Bound::Int), (7usize, Bound::Int)],
        LineKind::CommittedSuicide => seq![(0usize, Bound::Int), (1usize, Bound::Int), (2usize, Bound::Int), (3usize, Bound::Int), (4usize, Bound::Int), (5usize, Bound::Int), (7usize, Bound::Int), (10usize, Bound::Signed), (11usize, Bound::Signed), (12usize, Bound::Signed)],
        LineKind::ServerMessage => seq![(0usize, Bound::Int), (1usize, Bound::Int), (2usize, Bound::Int), (3usize, Bound::Int), (4usize, Bound::Int), (5usize, Bound::Int)],
        LineKind::SteamAuthFailure => seq![(0usize, Bound::Int), (1usize, Bound::Int), (2usize, Bound::Int), (3usize, Bound::Int), (4usize, Bound::Int), (5usize, Bound::Int), (7usize, Bound::Int)],
        LineKind::MetaModPluginsLoaded => seq![(0usize, Bound::Int), (1usize, Bound::Int), (2usize, Bound::Int), (3usize, Bound::Int), (4usize, Bound::Int), (5usize, Bound::Int), (6usize, Bound::Int), (7usize, Bound::Count)],
    }
}

/// The integer fields of a line of kind `k`.
pub fn int_fields_of(k: LineKind) -> (r: Vec<(usize, Bound)>)
    ensures
        r@ == int_fields(k),
{
    match k {
        LineKind::LogFileStart => vec![(0usize, Bound::Int), (1usize, Bound::Int), (2usize, Bound::Int), (3usize, Bound::Int), (4usize, Bound::Int), (5usize, Bound::Int), (8usize, Bound::Int)],
        LineKind::LogFileClosed => vec![(0usize, Bound::Int), (1usize, Bound::Int), (2usize, Bound::Int), (3usize, Bound::Int), (4usize, Bound::Int), (5usize, Bound::Int)],
        LineKind::WorldTriggeredEvent => vec![(0usize, Bound::Int), (1usize, Bound::Int), (2usize, Bound::Int), (3usize, Bound::Int), (4usize, Bound::Int), (5usize, Bound::Int)],
        LineKind::WorldTriggeredEventMap => vec![(0usize, Bound::Int), (1usize, Bound::Int), (2usize, Bound::Int), (3usize, Bound::Int), (4usize, Bound::Int), (5usize, Bound::Int)],
        LineKind::WorldTriggeredEventScore => vec![(0usize, Bound::Int), (1usize, Bound::Int), (2usize, Bound::Int), (3usize, Bound::Int), (4usize, Bound::Int), (5usize, Bound::Int), (7usize, Bound::Int), (8usize, Bound::Int)],
        LineKind::PlayerTriggeredEvent => vec![(0usize, Bound::Int), (1usize, Bound::Int), (2usize, Bound::Int), (3usize, Bound::Int), (4usize, Bound::Int), (5usize, Bound::Int), (7usize, Bound::Int)],
        LineKind::TeamTriggeredEventScore => vec![(0usize, Bound::Int), (1usize, Bound::Int), (2usize, Bound::Int), (3usize, Bound::Int), (4usize, Bound::Int), (5usize, Bound::Int), (8usize, Bound::Int), (9usize, Bound::Int)],
        LineKind::LoadingMap => vec![(0usize, Bound::Int), (1usize, Bound::Int), (2usize, Bound::Int), (3usize, Bound::Int), (4usize, Bound::Int), (5usize, Bound::Int)],
        LineKind::CvarsStart => vec![(0usize, Bound::Int), (1usize, Bound::Int), (2usize, Bound::Int), (3usize, Bound::Int), (4usize, Bound::Int), (5usize, Bound::Int)],
        LineKind::CvarsEntry => vec![(0usize, Bound::Int), (1usize, Bound::Int), (2usize, Bound::Int), (3usize, Bound::Int), (4usize, Bound::Int), (5usize, Bound::Int)],
        LineKind::CvarsEnd => vec![(0usize, Bound::Int), (1usize, Bound::Int), (2usize, Bound::Int), (3usize, Bound::Int), (4usize, Bound::Int), (5usize, Bound::Int)],
        LineKind::StartedMap => vec![(0usize, Bound::Int), (1usize, Bound::Int), (2usize, Bound::Int), (3usize, Bound::Int), (4usize, Bound::Int), (5usize, Bound::Int)],
        LineKind::Cvar => vec![(0usize, Bound::Int), (1usize, Bound::Int), (2usize, Bound::Int), (3usize, Bound::Int), (4usize, Bound::Int), (5usize, Bound::Int)],
        LineKind::PlayerEnteredGame => vec![(0usize, Bound::Int), (1usize, Bound::Int), (2usize, Bound::Int), (3usize, Bound::Int), (4usize, Bound::Int), (5usize, Bound::Int), (7usize, Bound::Int)],
        LineKind::Get5Event => vec![(0usize, Bound::Int), (1usize, Bound::Int), (2usize, Bound::Int), (3usize, Bound::Int), (4usize, Bound::Int), (5usize, Bound::Int)],
        LineKind::RconCommand => vec![(0usize, Bound::Int), (1usize, Bound::Int), (2usize, Bound::Int), (3usize, Bound::Int), (4usize, Bound::Int), (5usize, Bound::Int)],
        LineKind::RconBadPassword => vec![(0usize, Bound::Int), (1usize, Bound::Int), (2usize, Bound::Int), (3usize, Bound::Int), (4usize, Bound::Int), (5usize, Bound::Int)],
        LineKind::SwitchedTeam => vec![(0usize, Bound::Int), (1usize, Bound::Int), (2usize, Bound::Int), (3usize, Bound::Int), (4usize, Bound::Int), (5usize, Bound::Int), (7usize, Bound::Int)],
        LineKind::PlayerPickedUp => vec![(0usize, Bound::Int), (1usize, Bound::Int), (2usize, Bound::Int), (3usize, Bound::Int), (4usize, Bound::Int), (5usize, Bound::Int), (7usize, Bound::Int)],
        LineKind::PlayerDropped => vec![(0usize, Bound::Int), (1usize, Bound::Int), (2usize, Bound::Int), (3usize, Bound::Int), (4usize, Bound::Int), (5usize, Bound::Int), (7usize, Bound::Int)],
        LineKind::TeamPlaying => vec![(0usize, Bound::Int), (1usize, Bound::Int), (2usize, Bound::Int), (3usize, Bound::Int), (4usize, Bound::Int), (5usize, Bound::Int)],
        LineKind::StartingFreezePeriod => vec![(0usize, Bound::Int), (1usize, Bound::Int), (2usize, Bound::Int), (3usize, Bound::Int), (4usize, Bound::Int), (5usize, Bound::Int)],
        LineKind::PlayerLeftBuyzone => vec![(0usize, Bound::Int), (1usize, Bound::Int), (2usize, Bound::Int), (3usize, Bound::Int), (4usize, Bound::Int), (5usize, Bound::Int), (7usize, Bound::Int)],
        LineKind::TeamChat => vec![(0usize, Bound::Int), (1usize, Bound::Int), (2usize, Bound::Int), (3usize, Bound::Int), (4usize, Bound::Int), (5usize, Bound::Int), (7usize, Bound::Int)],
        LineKind::MoneyChanged => vec![(0usize, Bound::Int), (1usize, Bound::Int), (2usize, Bound::Int), (3usize, Bound::Int), (4usize, Bound::Int), (5usize, Bound::Int), (7usize, Bound::Int), (10usize, Bound::Int), (12usize, Bound::Int), (13usize, Bound::Int)],
        LineKind::PlayerPurchased => vec![(0usize, Bound::Int), (1usize, Bound::Int), (2usize, Bound::Int), (3usize, Bound::Int), (4usize, Bound::Int), (5usize, Bound::Int), (7usize, Bound::Int)],
        LineKind::ThrewFlashbang => vec![(0usize, Bound::Int), (1usize, Bound::Int), (2usize, Bound::Int), (3usize, Bound::Int), (4usize, Bound::Int), (5usize, Bound::Int), (7usize, Bound::Int), (10usize, Bound::Signed), (11usize, Bound::Signed), (12usize, Bound::Signed), (13usize, Bound::Int)],
        LineKind::BlindedPlayer => vec![(0usize, Bound::Int), (1usize, Bound::Int), (2usize, Bound::Int), (3usize, Bound::Int), (4usize, Bound::Int), (5usize, Bound::Int), (7usize, Bound::Int), (10usize, Bound::Blind), (13usize, Bound::Int), (16usize, Bound::Int)],
        LineKind::GlobalChat => vec![(0usize, Bound::Int), (1usize, Bound::Int), (2usize, Bound::Int), (3usize, Bound::Int), (4usize, Bound::Int), (5usize, Bound::Int), (7usize, Bound::Int)],
        LineKind::PlayerKilledEntity => vec![(0usize, Bound::Int), (1usize, Bound::Int), (2usize, Bound::Int), (3usize, Bound::Int), (4usize, Bound::Int), (5usize, Bound::Int), (7usize, Bound::Int), (10usize, Bound::Signed), (11usize, Bound::Signed), (12usize, Bound::Signed), (14usize, Bound::Int), (15usize, Bound::Signed), (16usize, Bound::Signed), (17usize, Bound::Signed)],
        LineKind::PlayerKilledPlayer => vec![(0usize, Bound::Int), (1usize, Bound::Int), (2usize, Bound::Int), (3usize, Bound::Int), (4usize, Bound::Int), (5usize, Bound::Int), (7usize, Bound::Int), (10usize, Bound::Signed), (11usize, Bound::Signed), (12usize, Bound::Signed), (14usize, Bound::Int), (17usize, Bound::Signed), (18usize, Bound::Signed), (19usize, Bound::Signed)],
        LineKind::PlayerThrewSmokegrenade => vec![(0usize, Bound::Int), (1usize, Bound::Int), (2usize, Bound::Int), (3usize, Bound::Int), (4usize, Bound::Int), (5usize, Bound::Int), (7usize, Bound::Int), (10usize, Bound::Signed), (11usize, Bound::Signed), (12usize, Bound::Signed)],
        LineKind::PlayerThrewHEGrenade => vec![(0usize, Bound::Int), (1usize, Bound::Int), (2usize, Bound::Int), (3usize, Bound::Int), (4usize, Bound::Int), (5usize, Bound::Int), (7usize, Bound::Int), (10usize, Bound::Signed), (11usize, Bound::Signed), (12usize, Bound::Signed)],
        LineKind::PlayerAttackedPlayer => vec![(0usize, Bound::Int), (1usize, Bound::Int), (2usize, Bound::Int), (3usize, Bound::Int), (4usize, Bound::Int), (5usize, Bound::Int), (7usize, Bound::Int), (10usize, Bound::Signed), (11usize, Bound::Signed), (12usize, Bound::Signed), (14usize, Bound::Int), (17usize, Bound::Signed), (18usize, Bound::Signed), (19usize, Bound::Signed), (21usize, Bound::Int), (22usize, Bound::Int), (23usize, Bound::Int), (24usize, Bound::Int)],
        LineKind::PlayerDisconnected => vec![(0usize, Bound::Int), (1usize, Bound::Int), (2usize, Bound::Int), (3usize, Bound::Int), (4usize, Bound::Int), (5usize, Bound::Int), (7usize, Bound::Int)],
        LineKind::PlayerAssistedKillingPlayer => vec![(0usize, Bound::Int), (1usize, Bound::Int), (2usize, Bound::Int), (3usize, Bound::Int), (4usize, Bound::Int), (5usize, Bound::Int), (7usize, Bound::Int), (11usize, Bound::Int)],
        LineKind::PlayerAssistedBlindingPlayer => vec![(0usize, Bound::Int), (1usize, Bound::Int), (2usize, Bound::Int), (3usize, Bound::Int), (4usize, Bound::Int), (5usize, Bound::Int), (7usize, Bound::Int), (11usize, Bound::Int)],
        LineKind::SpawnedMolotov => vec![(0usize, Bound::Int), (1usize, Bound::Int), (2usize, Bound::Int), (3usize, Bound::Int), (4usize, Bound::Int), (5usize, Bound::Int)],
        LineKind::ThrewMolotov => vec![(0usize, Bound::Int), (1usize, Bound::Int), (2usize, Bound::Int), (3usize, Bound::Int), (4usize, Bound::Int), (5usize, Bound::Int), (7usize, Bound::Int), (10usize, Bound::Signed), (11usize, Bound::Signed), (12usize, Bound::Signed)],
        LineKind::PlayerConnected => vec![(0usize, Bound::Int), (1usize, Bound::Int), (2usize, Bound::Int), (3usize, Bound::Int), (4usize, Bound::Int), (5usize, Bound::Int), (7usize, Bound::Int)],
        LineKind::ValidatedSteamID => vec![(0usize, Bound::Int), (1usize, Bound::Int), (2usize, Bound::Int), (3usize, Bound::Int), (4usize, Bound::Int), (5usize, Bound::Int), (7usize, Bound::Int)],
        LineKind::TeamScored => vec![(0usize, Bound::Int), (1usize, Bound::Int), (2usize, Bound::Int), (3usize, Bound::Int), (4usize, Bound::Int), (5usize, Bound::Int), (7usize, Bound::Int), (8usize, Bound::Int)],
        LineKind::ThrewDecoy => vec![(0usize, Bound::Int), (1usize, Bound::Int), (2usize, Bound::Int), (3usize, Bound::Int), (4usize, Bound::Int), (5usize, Bound::Int), (7usize, Bound::Int), (10usize, Bound::Signed), (11usize, Bound::Signed), (12usize, Bound::Signed)],
        LineKind::MatchResumed => vec![(0usize, Bound::Int), (1usize, Bound::Int), (2usize, Bound::Int), (3usize, Bound::Int), (4usize, Bound::Int), (5usize, Bound::Int)],
        LineKind::MatchPaused => vec![(0usize, Bound::Int), (1usize, Bound::Int), (2usize, Bound::Int), (3usize, Bound::Int), (4usize, Bound::Int), (5usize, Bound::Int)],
        LineKind::KilledByBomb => vec![(0usize, Bound::Int), (1usize, Bound::Int), (2usize, Bound::Int), (3usize, Bound::Int), (4usize, Bound::Int), (5usize, Bound::Int), (7usize, Bound::Int), (10usize, Bound::Signed), (11usize, Bound::Signed), (12usize, Bound::Signed)],
        LineKind::Accolade => vec![(0usize, Bound::Int), (1usize, Bound::Int), (2usize, Bound::Int), (3usize, Bound::Int), (4usize, Bound::Int), (5usize, Bound::Int), (8usize, Bound::Int), (10usize, Bound::Int)],
        LineKind::GameOver => vec![(0usize, Bound::Int), (1usize, Bound::Int), (2usize, Bound::Int), (3usize, Bound::Int), (4usize, Bound::Int), (5usize, Bound::Int), (9usize, Bound::Int), (10usize, Bound::Int), (11usize, Bound::Minutes)],
        LineKind::ChangedNickname => vec![(0usize, Bound::Int), (1usize, Bound::Int), (2usize, Bound::Int), (3usize, Bound::Int), (4usize, Bound::Int), (5usize, Bound::Int), (7usize, Bound::Int)],
        LineKind::CommittedSuicide => vec![(0usize, Bound::Int), (1usize, Bound::Int), (2usize, Bound::Int), (3usize, Bound::Int), (4usize, Bound::Int), (5usize, Bound::Int), (7usize, Bound::Int), (10usize, Bound::Signed), (11usize, Bound::Signed), (12usize, Bound::Signed)],
        LineKind::ServerMessage => vec![(0usize, Bound::Int), (1usize, Bound::Int), (2usize, Bound::Int), (3usize, Bound::Int), (4usize, Bound::Int), (5usize, Bound::Int)],
        LineKind::SteamAuthFailure => vec![(0usize, Bound::Int), (1usize, Bound::Int), (2usize, Bound::Int), (3usize, Bound::Int), (4usize, Bound::Int), (5usize, Bound::Int), (7usize, Bound::Int)],
        LineKind::MetaModPluginsLoaded => vec![(0usize, Bound::Int), (1usize, Bound::Int), (2usize, Bound::Int), (3usize, Bound::Int), (4usize, Bound::Int), (5usize, Bound::Int), (6usize, Bound::Int), (7usize, Bound::Count)],
    }
}

/// Every integer field of a line of kind `k` with fields `c` fits in the type
/// it is read into.
pub open spec fn fields_fit(k: LineKind, s: Seq<char>, c: Seq<Cap>) -> bool {
    forall|j: int|
        0 <= j < int_fields(k).len() ==> field_fits(
            s,
            c,
            (#[trigger] int_fields(k)[j]).0 as int,
            int_fields(k)[j].1,
        )
}

/// Whether every integer field of a line of kind `k` with fields `c` fits.
pub fn fields_fit_check(k: LineKind, s: &Vec<char>, c: &Vec<Cap>) -> (r: bool)
    requires
        caps_within(c@, s@.len() as int),
    ensures
        r == fields_fit(k, s@, c@),
{
    let fs = int_fields_of(k);
    let mut j: usize = 0;
    while j < fs.len()
        invariant
            fs@ == int_fields(k),
            j <= fs.len(),
            caps_within(c@, s@.len() as int),
            forall|m: int|
                0 <= m < j ==> field_fits(
                    s@,
                    c@,
                    (#[trigger] int_fields(k)[m]).0 as int,
                    int_fields(k)[m].1,
                ),
        decreases fs.len() - j,
    {
        let (i, b) = fs[j];
        if !field_fits_at(s, c, i, b) {
            assert(int_fields(k)[j as int] == (i, b));
            return false;
        }
        j += 1;
    }
    true
}

/// The kinds that bound or fill a cvar dump: they build no entry by themselves.
pub open spec fn is_dump_kind(k: LineKind) -> bool {
    k == LineKind::CvarsStart || k == LineKind::CvarsEntry || k == LineKind::CvarsEnd
}

/// `e` is the entry that a LogFileStart line with fields `c` gives.
pub open spec fn is_log_file_start(s: Seq<char>, c: Seq<Cap>, e: LogEntry) -> bool {
    match e {
        LogEntry::LogFileStart { prefix, file, game, version } => {
            &&& prefix_at(s, c) == Some(prefix)
            &&& txt_at(s, c, 6) == Some(file@)
            &&& txt_at(s, c, 7) == Some(game@)
            &&& int_at(s, c, 8) == Some(version)
        },
        _ => false,
    }
}

/// `e` is the entry that a LogFileClosed line with fields `c` gives.
pub open spec fn is_log_file_closed(s: Seq<char>, c: Seq<Cap>, e: LogEntry) -> bool {
    match e {
        LogEntry::LogFileClosed { prefix } => {
            &&& prefix_at(s, c) == Some(prefix)
        },
        _ => false,
    }
}

/// `e` is the entry that a WorldTriggeredEvent line with fields `c` gives.
pub open spec fn is_world_triggered_event(s: Seq<char>, c: Seq<Cap>, e: LogEntry) -> bool {
    match e {
        LogEntry::WorldTriggeredEvent { prefix, event } => {
            &&& prefix_at(s, c) == Some(prefix)
            &&& txt_at(s, c, 6) == Some(event@)
        },
        _ => false,
    }
}

/// `e` is the entry that a WorldTriggeredEventMap line with fields `c` gives.
pub open spec fn is_world_triggered_event_map(s: Seq<char>, c: Seq<Cap>, e: LogEntry) -> bool {
    match e {
        LogEntry::WorldTriggeredEventMap { prefix, event, map } => {
            &&& prefix_at(s, c) == Some(prefix)
            &&& txt_at(s, c, 6) == Some(event@)
            &&& txt_at(s, c, 7) == Some(map@)
        },
        _ => false,
    }
}

/// `e` is the entry that a WorldTriggeredEventScore line with fields `c` gives.
pub open spec fn is_world_triggered_event_score(s: Seq<char>, c: Seq<Cap>, e: LogEntry) -> bool {
    match e {
        LogEntry::WorldTriggeredEventScore { prefix, event, ct_score, t_score } => {
            &&& prefix_at(s, c) == Some(prefix)
            &&& txt_at(s, c, 6) == Some(event@)
            &&& int_at(s, c, 7) == Some(ct_score)
            &&& int_at(s, c, 8) == Some(t_score)
        },
        _ => false,
    }
}

/// `e` is the entry that a PlayerTriggeredEvent line with fields `c` gives.
pub open spec fn is_player_triggered_event(s: Seq<char>, c: Seq<Cap>, e: LogEntry) -> bool {
    match e {
        LogEntry::PlayerTriggeredEvent { prefix, player, event } => {
            &&& prefix_at(s, c) == Some(prefix)
            &&& player_is(player, s, c, 6)
            &&& txt_at(s, c, 10) == Some(event@)
        },
        _ => false,
    }
}

/// `e` is the entry that a TeamTriggeredEventScore line with fields `c` gives.
pub open spec fn is_team_triggered_event_score(s: Seq<char>, c: Seq<Cap>, e: LogEntry) -> bool {
    match e {
        LogEntry::TeamTriggeredEventScore { prefix, team, event, ct_score, t_score } => {
            &&& prefix_at(s, c) == Some(prefix)
            &&& txt_at(s, c, 6) is Some && side_of(txt_at(s, c, 6)->0) == Some(team)
            &&& txt_at(s, c, 7) == Some(event@)
            &&& int_at(s, c, 8) == Some(ct_score)
            &&& int_at(s, c, 9) == Some(t_score)
        },
        _ => false,
    }
}

/// `e` is the entry that a LoadingMap line with fields `c` gives.
pub open spec fn is_loading_map(s: Seq<char>, c: Seq<Cap>, e: LogEntry) -> bool {
    match e {
        LogEntry::LoadingMap { prefix, map } => {
            &&& prefix_at(s, c) == Some(prefix)
            &&& txt_at(s, c, 6) == Some(map@)
        },
        _ => false,
    }
}

/// `e` is the entry that a StartedMap line with fields `c` gives.
pub open spec fn is_started_map(s: Seq<char>, c: Seq<Cap>, e: LogEntry) -> bool {
    match e {
        LogEntry::StartedMap { prefix, map, crc } => {
            &&& prefix_at(s, c) == Some(prefix)
            &&& txt_at(s, c, 6) == Some(map@)
            &&& txt_at(s, c, 7) == Some(crc@)
        },
        _ => false,
    }
}

/// `e` is the entry that a Cvar line with fields `c` gives.
pub open spec fn is_cvar(s: Seq<char>, c: Seq<Cap>, e: LogEntry) -> bool {
    match e {
        LogEntry::Cvar { prefix, key, value } => {
            &&& prefix_at(s, c) == Some(prefix)
            &&& txt_at(s, c, 6) == Some(key@)
            &&& txt_at(s, c, 7) == Some(value@)
        },
        _ => false,
    }
}

/// `e` is the entry that a PlayerEnteredGame line with fields `c` gives.
pub open spec fn is_player_entered_game(s: Seq<char>, c: Seq<Cap>, e: LogEntry) -> bool {
    match e {
        LogEntry::PlayerEnteredGame { prefix, player } => {
            &&& prefix_at(s, c) == Some(prefix)
            &&& player_is(player, s, c, 6)
        },
        _ => false,
    }
}

/// `e` is the entry that a Get5Event line with fields `c` gives.
pub open spec fn is_get5_event(s: Seq<char>, c: Seq<Cap>, e: LogEntry) -> bool {
    match e {
        LogEntry::Get5Event { prefix, json } => {
            &&& prefix_at(s, c) == Some(prefix)
            &&& txt_at(s, c, 6) == Some(json@)
        },
        _ => false,
    }
}

/// `e` is the entry that a RconCommand line with fields `c` gives.
pub open spec fn is_rcon_command(s: Seq<char>, c: Seq<Cap>, e: LogEntry) -> bool {
    match e {
        LogEntry::RconCommand { prefix, client_address, command } => {
            &&& prefix_at(s, c) == Some(prefix)
            &&& txt_at(s, c, 6) == Some(client_address@)
            &&& txt_at(s, c, 7) == Some(command@)
        },
        _ => false,
    }
}

/// `e` is the entry that a RconBadPassword line with fields `c` gives.
pub open spec fn is_rcon_bad_password(s: Seq<char>, c: Seq<Cap>, e: LogEntry) -> bool {
    match e {
        LogEntry::RconBadPassword { prefix, client_address } => {
            &&& prefix_at(s, c) == Some(prefix)
            &&& txt_at(s, c, 6) == Some(client_address@)
        },
        _ => false,
    }
}

/// `e` is the entry that a SwitchedTeam line with fields `c` gives.
pub open spec fn is_switched_team(s: Seq<char>, c: Seq<Cap>, e: LogEntry) -> bool {
    match e {
        LogEntry::SwitchedTeam { prefix, player, from, to } => {
            &&& prefix_at(s, c) == Some(prefix)
            &&& player_no_team_is(player, s, c, 6)
            &&& txt_at(s, c, 9) is Some && team_all_of(txt_at(s, c, 9)->0) == Some(from)
            &&& txt_at(s, c, 10) is Some && team_all_of(txt_at(s, c, 10)->0) == Some(to)
        },
        _ => false,
    }
}

/// `e` is the entry that a PlayerPickedUp line with fields `c` gives.
pub open spec fn is_player_picked_up(s: Seq<char>, c: Seq<Cap>, e: LogEntry) -> bool {
    match e {
        LogEntry::PlayerPickedUp { prefix, player, instrument } => {
            &&& prefix_at(s, c) == Some(prefix)
            &&& player_is(player, s, c, 6)
            &&& txt_at(s, c, 10) == Some(instrument@)
        },
        _ => false,
    }
}

/// `e` is the entry that a PlayerDropped line with fields `c` gives.
pub open spec fn is_player_dropped(s: Seq<char>, c: Seq<Cap>, e: LogEntry) -> bool {
    match e {
        LogEntry::PlayerDropped { prefix, player, instrument } => {
            &&& prefix_at(s, c) == Some(prefix)
            &&& player_is(player, s, c, 6)
            &&& txt_at(s, c, 10) == Some(instrument@)
        },
        _ => false,
    }
}

/// `e` is the entry that a TeamPlaying line with fields `c` gives.
pub open spec fn is_team_playing(s: Seq<char>, c: Seq<Cap>, e: LogEntry) -> bool {
    match e {
        LogEntry::TeamPlaying { prefix, team, readiness, name } => {
            &&& prefix_at(s, c) == Some(prefix)
            &&& txt_at(s, c, 6) is Some && side_of(txt_at(s, c, 6)->0) == Some(team)
            &&& opt_is(readiness, s, c, 7)
            &&& txt_at(s, c, 8) == Some(name@)
        },
        _ => false,
    }
}

/// `e` is the entry that a StartingFreezePeriod line with fields `c` gives.
pub open spec fn is_starting_freeze_period(s: Seq<char>, c: Seq<Cap>, e: LogEntry) -> bool {
    match e {
        LogEntry::StartingFreezePeriod { prefix } => {
            &&& prefix_at(s, c) == Some(prefix)
        },
        _ => false,
    }
}

/// `e` is the entry that a PlayerLeftBuyzone line with fields `c` gives.
pub open spec fn is_player_left_buyzone(s: Seq<char>, c: Seq<Cap>, e: LogEntry) -> bool {
    match e {
        LogEntry::PlayerLeftBuyzone { prefix, player, instruments } => {
            &&& prefix_at(s, c) == Some(prefix)
            &&& player_is(player, s, c, 6)
            &&& txt_at(s, c, 10) is Some && strings_view(instruments@) == items_of(txt_at(s, c, 10)->0)
        },
        _ => false,
    }
}

/// `e` is the entry that a TeamChat line with fields `c` gives.
pub open spec fn is_team_chat(s: Seq<char>, c: Seq<Cap>, e: LogEntry) -> bool {
    match e {
        LogEntry::TeamChat { prefix, player, msg } => {
            &&& prefix_at(s, c) == Some(prefix)
            &&& player_is(player, s, c, 6)
            &&& txt_at(s, c, 10) == Some(msg@)
        },
        _ => false,
    }
}

/// `e` is the entry that a MoneyChanged line with fields `c` gives.
pub open spec fn is_money_changed(s: Seq<char>, c: Seq<Cap>, e: LogEntry) -> bool {
    match e {
        LogEntry::MoneyChanged { prefix, player, previously, operation, change, new_amount, instrument, is_tracked } => {
            &&& prefix_at(s, c) == Some(prefix)
            &&& player_is(player, s, c, 6)
            &&& int_at(s, c, 10) == Some(previously)
            &&& txt_at(s, c, 11) == Some(operation@)
            &&& int_at(s, c, 12) == Some(change)
            &&& int_at(s, c, 13) == Some(new_amount)
            &&& opt_is(instrument, s, c, 15)
            &&& is_tracked == present(c, 14)
        },
        _ => false,
    }
}

/// `e` is the entry that a PlayerPurchased line with fields `c` gives.
pub open spec fn is_player_purchased(s: Seq<char>, c: Seq<Cap>, e: LogEntry) -> bool {
    match e {
        LogEntry::PlayerPurchased { prefix, player, instrument } => {
            &&& prefix_at(s, c) == Some(prefix)
            &&& player_is(player, s, c, 6)
            &&& txt_at(s, c, 10) == Some(instrument@)
        },
        _ => false,
    }
}

/// `e` is the entry that a ThrewFlashbang line with fields `c` gives.
pub open spec fn is_threw_flashbang(s: Seq<char>, c: Seq<Cap>, e: LogEntry) -> bool {
    match e {
        LogEntry::ThrewFlashbang { prefix, player, location, entindex } => {
            &&& prefix_at(s, c) == Some(prefix)
            &&& player_is(player, s, c, 6)
            &&& vector_at(s, c, 10) == Some(location)
            &&& int_at(s, c, 13) == Some(entindex)
        },
        _ => false,
    }
}

/// `e` is the entry that a BlindedPlayer line with fields `c` gives.
pub open spec fn is_blinded_player(s: Seq<char>, c: Seq<Cap>, e: LogEntry) -> bool {
    match e {
        LogEntry::BlindedPlayer { prefix, offender, duration, victim, entindex } => {
            &&& prefix_at(s, c) == Some(prefix)
            &&& player_is(offender, s, c, 6)
            &&& blind_millis(s, c, 10) == Some(duration.millis)
            &&& player_is(victim, s, c, 12)
            &&& int_at(s, c, 16) == Some(entindex)
        },
        _ => false,
    }
}

/// `e` is the entry that a GlobalChat line with fields `c` gives.
pub open spec fn is_global_chat(s: Seq<char>, c: Seq<Cap>, e: LogEntry) -> bool {
    match e {
        LogEntry::GlobalChat { prefix, player, msg } => {
            &&& prefix_at(s, c) == Some(prefix)
            &&& player_is(player, s, c, 6)
            &&& txt_at(s, c, 10) == Some(msg@)
        },
        _ => false,
    }
}

/// `e` is the entry that a PlayerKilledEntity line with fields `c` gives.
pub open spec fn is_player_killed_entity(s: Seq<char>, c: Seq<Cap>, e: LogEntry) -> bool {
    match e {
        LogEntry::PlayerKilledEntity { prefix, player, location, entity_name, entindex, entity_location, instrument, kill_attributes } => {
            &&& prefix_at(s, c) == Some(prefix)
            &&& player_is(player, s, c, 6)
            &&& vector_at(s, c, 10) == Some(location)
            &&& txt_at(s, c, 13) == Some(entity_name@)
            &&& int_at(s, c, 14) == Some(entindex)
            &&& vector_at(s, c, 15) == Some(entity_location)
            &&& txt_at(s, c, 18) == Some(instrument@)
            &&& 0 <= 19 < c.len() && kill_attributes_of(txt_at(s, c, 19)) == Some(kill_attributes)
        },
        _ => false,
    }
}

/// `e` is the entry that a PlayerKilledPlayer line with fields `c` gives.
pub open spec fn is_player_killed_player(s: Seq<char>, c: Seq<Cap>, e: LogEntry) -> bool {
    match e {
        LogEntry::PlayerKilledPlayer { prefix, offender, offender_location, victim, victim_location, instrument, kill_attributes } => {
            &&& prefix_at(s, c) == Some(prefix)
            &&& player_is(offender, s, c, 6)
            &&& vector_at(s, c, 10) == Some(offender_location)
            &&& player_is(victim, s, c, 13)
            &&& vector_at(s, c, 17) == Some(victim_location)
            &&& txt_at(s, c, 20) == Some(instrument@)
            &&& 0 <= 21 < c.len() && kill_attributes_of(txt_at(s, c, 21)) == Some(kill_attributes)
        },
        _ => false,
    }
}

/// `e` is the entry that a PlayerThrewSmokegrenade line with fields `c` gives.
pub open spec fn is_player_threw_smokegrenade(s: Seq<char>, c: Seq<Cap>, e: LogEntry) -> bool {
    match e {
        LogEntry::PlayerThrewSmokegrenade { prefix, player, location } => {
            &&& prefix_at(s, c) == Some(prefix)
            &&& player_is(player, s, c, 6)
            &&& vector_at(s, c, 10) == Some(location)
        },
        _ => false,
    }
}

/// `e` is the entry that a PlayerThrewHEGrenade line with fields `c` gives.
pub open spec fn is_player_threw_he_grenade(s: Seq<char>, c: Seq<Cap>, e: LogEntry) -> bool {
    match e {
        LogEntry::PlayerThrewHEGrenade { prefix, player, location } => {
            &&& prefix_at(s, c) == Some(prefix)
            &&& player_is(player, s, c, 6)
            &&& vector_at(s, c, 10) == Some(location)
        },
        _ => false,
    }
}

/// `e` is the entry that a PlayerAttackedPlayer line with fields `c` gives.
pub open spec fn is_player_attacked_player(s: Seq<char>, c: Seq<Cap>, e: LogEntry) -> bool {
    match e {
        LogEntry::PlayerAttackedPlayer { prefix, offender, offender_location, victim, victim_location, instrument, damage, damage_armor, health, armor, hitgroup } => {
            &&& prefix_at(s, c) == Some(prefix)
            &&& player_is(offender, s, c, 6)
            &&& vector_at(s, c, 10) == Some(offender_location)
            &&& player_is(victim, s, c, 13)
            &&& vector_at(s, c, 17) == Some(victim_location)
            &&& txt_at(s, c, 20) == Some(instrument@)
            &&& int_at(s, c, 21) == Some(damage)
            &&& int_at(s, c, 22) == Some(damage_armor)
            &&& int_at(s, c, 23) == Some(health)
            &&& int_at(s, c, 24) == Some(armor)
            &&& txt_at(s, c, 25) is Some && hitgroup_of(txt_at(s, c, 25)->0) == Some(hitgroup)
        },
        _ => false,
    }
}

/// `e` is the entry that a PlayerDisconnected line with fields `c` gives.
pub open spec fn is_player_disconnected(s: Seq<char>, c: Seq<Cap>, e: LogEntry) -> bool {
    match e {
        LogEntry::PlayerDisconnected { prefix, player, reason } => {
            &&& prefix_at(s, c) == Some(prefix)
            &&& player_is(player, s, c, 6)
            &&& txt_at(s, c, 10) == Some(reason@)
        },
        _ => false,
    }
}

/// `e` is the entry that a PlayerAssistedKillingPlayer line with fields `c` gives.
pub open spec fn is_player_assisted_killing_player(s: Seq<char>, c: Seq<Cap>, e: LogEntry) -> bool {
    match e {
        LogEntry::PlayerAssistedKillingPlayer { prefix, offender, victim } => {
            &&& prefix_at(s, c) == Some(prefix)
            &&& player_is(offender, s, c, 6)
            &&& player_is(victim, s, c, 10)
        },
        _ => false,
    }
}

/// `e` is the entry that a PlayerAssistedBlindingPlayer line with fields `c` gives.
pub open spec fn is_player_assisted_blinding_player(s: Seq<char>, c: Seq<Cap>, e: LogEntry) -> bool {
    match e {
        LogEntry::PlayerAssistedBlindingPlayer { prefix, offender, victim } => {
            &&& prefix_at(s, c) == Some(prefix)
            &&& player_is(offender, s, c, 6)
            &&& player_is(victim, s, c, 10)
        },
        _ => false,
    }
}

/// `e` is the entry that a SpawnedMolotov line with fields `c` gives.
pub open spec fn is_spawned_molotov(s: Seq<char>, c: Seq<Cap>, e: LogEntry) -> bool {
    match e {
        LogEntry::SpawnedMolotov { prefix, location_x, location_y, location_z, velocity_x, velocity_y, velocity_z } => {
            &&& prefix_at(s, c) == Some(prefix)
            &&& txt_at(s, c, 6) == Some(location_x.literal@)
            &&& txt_at(s, c, 7) == Some(location_y.literal@)
            &&& txt_at(s, c, 8) == Some(location_z.literal@)
            &&& txt_at(s, c, 9) == Some(velocity_x.literal@)
            &&& txt_at(s, c, 10) == Some(velocity_y.literal@)
            &&& txt_at(s, c, 11) == Some(velocity_z.literal@)
        },
        _ => false,
    }
}

/// `e` is the entry that a ThrewMolotov line with fields `c` gives.
pub open spec fn is_threw_molotov(s: Seq<char>, c: Seq<Cap>, e: LogEntry) -> bool {
    match e {
        LogEntry::ThrewMolotov { prefix, player, location } => {
            &&& prefix_at(s, c) == Some(prefix)
            &&& player_is(player, s, c, 6)
            &&& vector_at(s, c, 10) == Some(location)
        },
        _ => false,
    }
}

/// `e` is the entry that a PlayerConnected line with fields `c` gives.
pub open spec fn is_player_connected(s: Seq<char>, c: Seq<Cap>, e: LogEntry) -> bool {
    match e {
        LogEntry::PlayerConnected { prefix, player, address } => {
            &&& prefix_at(s, c) == Some(prefix)
            &&& player_is(player, s, c, 6)
            &&& txt_at(s, c, 10) == Some(address@)
        },
        _ => false,
    }
}

/// `e` is the entry that a ValidatedSteamID line with fields `c` gives.
pub open spec fn is_validated_steam_id(s: Seq<char>, c: Seq<Cap>, e: LogEntry) -> bool {
    match e {
        LogEntry::ValidatedSteamID { prefix, player } => {
            &&& prefix_at(s, c) == Some(prefix)
            &&& player_is(player, s, c, 6)
        },
        _ => false,
    }
}

/// `e` is the entry that a TeamScored line with fields `c` gives.
pub open spec fn is_team_scored(s: Seq<char>, c: Seq<Cap>, e: LogEntry) -> bool {
    match e {
        LogEntry::TeamScored { prefix, team, score, player_count } => {
            &&& prefix_at(s, c) == Some(prefix)
            &&& txt_at(s, c, 6) is Some && side_of(txt_at(s, c, 6)->0) == Some(team)
            &&& int_at(s, c, 7) == Some(score)
            &&& int_at(s, c, 8) == Some(player_count)
        },
        _ => false,
    }
}

/// `e` is the entry that a ThrewDecoy line with fields `c` gives.
pub open spec fn is_threw_decoy(s: Seq<char>, c: Seq<Cap>, e: LogEntry) -> bool {
    match e {
        LogEntry::ThrewDecoy { prefix, player, location } => {
            &&& prefix_at(s, c) == Some(prefix)
            &&& player_is(player, s, c, 6)
            &&& vector_at(s, c, 10) == Some(location)
        },
        _ => false,
    }
}

/// `e` is the entry that a MatchResumed line with fields `c` gives.
pub open spec fn is_match_resumed(s: Seq<char>, c: Seq<Cap>, e: LogEntry) -> bool {
    match e {
        LogEntry::MatchResumed { prefix } => {
            &&& prefix_at(s, c) == Some(prefix)
        },
        _ => false,
    }
}

/// `e` is the entry that a MatchPaused line with fields `c` gives.
pub open spec fn is_match_paused(s: Seq<char>, c: Seq<Cap>, e: LogEntry) -> bool {
    match e {
        LogEntry::MatchPaused { prefix } => {
            &&& prefix_at(s, c) == Some(prefix)
        },
        _ => false,
    }
}

/// `e` is the entry that a KilledByBomb line with fields `c` gives.
pub open spec fn is_killed_by_bomb(s: Seq<char>, c: Seq<Cap>, e: LogEntry) -> bool {
    match e {
        LogEntry::KilledByBomb { prefix, player, location } => {
            &&& prefix_at(s, c) == Some(prefix)
            &&& player_is(player, s, c, 6)
            &&& vector_at(s, c, 10) == Some(location)
        },
        _ => false,
    }
}

/// `e` is the entry that a Accolade line with fields `c` gives.
pub open spec fn is_accolade(s: Seq<char>, c: Seq<Cap>, e: LogEntry) -> bool {
    match e {
        LogEntry::Accolade { prefix, categorie, player, player_entindex, value, pos, score } => {
            &&& prefix_at(s, c) == Some(prefix)
            &&& txt_at(s, c, 6) == Some(categorie@)
            &&& txt_at(s, c, 7) == Some(player@)
            &&& int_at(s, c, 8) == Some(player_entindex)
            &&& txt_at(s, c, 9) == Some(value.literal@)
            &&& int_at(s, c, 10) == Some(pos)
            &&& txt_at(s, c, 11) == Some(score.literal@)
        },
        _ => false,
    }
}

/// `e` is the entry that a GameOver line with fields `c` gives.
pub open spec fn is_game_over(s: Seq<char>, c: Seq<Cap>, e: LogEntry) -> bool {
    match e {
        LogEntry::GameOver { prefix, mode, map_group, map, ct_score, t_score, time } => {
            &&& prefix_at(s, c) == Some(prefix)
            &&& txt_at(s, c, 6) == Some(mode@)
            &&& txt_at(s, c, 7) == Some(map_group@)
            &&& txt_at(s, c, 8) == Some(map@)
            &&& int_at(s, c, 9) == Some(ct_score)
            &&& int_at(s, c, 10) == Some(t_score)
            &&& minutes_millis(s, c, 11) == Some(time.millis)
        },
        _ => false,
    }
}

/// `e` is the entry that a ChangedNickname line with fields `c` gives.
pub open spec fn is_changed_nickname(s: Seq<char>, c: Seq<Cap>, e: LogEntry) -> bool {
    match e {
        LogEntry::ChangedNickname { prefix, player, new_nickname } => {
            &&& prefix_at(s, c) == Some(prefix)
            &&& player_is(player, s, c, 6)
            &&& txt_at(s, c, 10) == Some(new_nickname@)
        },
        _ => false,
    }
}

/// `e` is the entry that a CommittedSuicide line with fields `c` gives.
pub open spec fn is_committed_suicide(s: Seq<char>, c: Seq<Cap>, e: LogEntry) -> bool {
    match e {
        LogEntry::CommittedSuicide { prefix, player, location, instrument } => {
            &&& prefix_at(s, c) == Some(prefix)
            &&& player_is(player, s, c, 6)
            &&& vector_at(s, c, 10) == Some(location)
            &&& txt_at(s, c, 13) == Some(instrument@)
        },
        _ => false,
    }
}

/// `e` is the entry that a ServerMessage line with fields `c` gives.
pub open spec fn is_server_message(s: Seq<char>, c: Seq<Cap>, e: LogEntry) -> bool {
    match e {
        LogEntry::ServerMessage { prefix, message } => {
            &&& prefix_at(s, c) == Some(prefix)
            &&& txt_at(s, c, 6) == Some(message@)
        },
        _ => false,
    }
}

/// `e` is the entry that a SteamAuthFailure line with fields `c` gives.
pub open spec fn is_steam_auth_failure(s: Seq<char>, c: Seq<Cap>, e: LogEntry) -> bool {
    match e {
        LogEntry::SteamAuthFailure { prefix, nickname, failure_code } => {
            &&& prefix_at(s, c) == Some(prefix)
            &&& txt_at(s, c, 6) == Some(nickname@)
            &&& int_at(s, c, 7) == Some(failure_code)
        },
        _ => false,
    }
}

/// `e` is the entry that a MetaModPluginsLoaded line with fields `c` gives.
pub open spec fn is_meta_mod_plugins_loaded(s: Seq<char>, c: Seq<Cap>, e: LogEntry) -> bool {
    match e {
        LogEntry::MetaModPluginsLoaded { prefix, loaded, preloaded } => {
            &&& prefix_at(s, c) == Some(prefix)
            &&& int_at(s, c, 6) == Some(loaded)
            &&& count_or_zero(s, c, 7) == Some(preloaded)
        },
        _ => false,
    }
}

/// The fields `c` of a LogFileStart line convert.
pub open spec fn ok_log_file_start(s: Seq<char>, c: Seq<Cap>) -> bool {
    &&& prefix_at(s, c) is Some
    &&& txt_at(s, c, 6) is Some
    &&& txt_at(s, c, 7) is Some
    &&& int_at(s, c, 8) is Some
}

/// The fields `c` of a LogFileClosed line convert.
pub open spec fn ok_log_file_closed(s: Seq<char>, c: Seq<Cap>) -> bool {
    &&& prefix_at(s, c) is Some
}

/// The fields `c` of a WorldTriggeredEvent line convert.
pub open spec fn ok_world_triggered_event(s: Seq<char>, c: Seq<Cap>) -> bool {
    &&& prefix_at(s, c) is Some
    &&& txt_at(s, c, 6) is Some
}

/// The fields `c` of a WorldTriggeredEventMap line convert.
pub open spec fn ok_world_triggered_event_map(s: Seq<char>, c: Seq<Cap>) -> bool {
    &&& prefix_at(s, c) is Some
    &&& txt_at(s, c, 6) is Some
    &&& txt_at(s, c, 7) is Some
}

/// The fields `c` of a WorldTriggeredEventScore line convert.
pub open spec fn ok_world_triggered_event_score(s: Seq<char>, c: Seq<Cap>) -> bool {
    &&& prefix_at(s, c) is Some
    &&& txt_at(s, c, 6) is Some
    &&& int_at(s, c, 7) is Some
    &&& int_at(s, c, 8) is Some
}

/// The fields `c` of a PlayerTriggeredEvent line convert.
pub open spec fn ok_player_triggered_event(s: Seq<char>, c: Seq<Cap>) -> bool {
    &&& prefix_at(s, c) is Some
    &&& player_ok(s, c, 6)
    &&& txt_at(s, c, 10) is Some
}

/// The fields `c` of a TeamTriggeredEventScore line convert.
pub open spec fn ok_team_triggered_event_score(s: Seq<char>, c: Seq<Cap>) -> bool {
    &&& prefix_at(s, c) is Some
    &&& txt_at(s, c, 6) is Some && side_of(txt_at(s, c, 6)->0) is Some
    &&& txt_at(s, c, 7) is Some
    &&& int_at(s, c, 8) is Some
    &&& int_at(s, c, 9) is Some
}

/// The fields `c` of a LoadingMap line convert.
pub open spec fn ok_loading_map(s: Seq<char>, c: Seq<Cap>) -> bool {
    &&& prefix_at(s, c) is Some
    &&& txt_at(s, c, 6) is Some
}

/// The fields `c` of a StartedMap line convert.
pub open spec fn ok_started_map(s: Seq<char>, c: Seq<Cap>) -> bool {
    &&& prefix_at(s, c) is Some
    &&& txt_at(s, c, 6) is Some
    &&& txt_at(s, c, 7) is Some
}

/// The fields `c` of a Cvar line convert.
pub open spec fn ok_cvar(s: Seq<char>, c: Seq<Cap>) -> bool {
    &&& prefix_at(s, c) is Some
    &&& txt_at(s, c, 6) is Some
    &&& txt_at(s, c, 7) is Some
}

/// The fields `c` of a PlayerEnteredGame line convert.
pub open spec fn ok_player_entered_game(s: Seq<char>, c: Seq<Cap>) -> bool {
    &&& prefix_at(s, c) is Some
    &&& player_ok(s, c, 6)
}

/// The fields `c` of a Get5Event line convert.
pub open spec fn ok_get5_event(s: Seq<char>, c: Seq<Cap>) -> bool {
    &&& prefix_at(s, c) is Some
    &&& txt_at(s, c, 6) is Some
}

/// The fields `c` of a RconCommand line convert.
pub open spec fn ok_rcon_command(s: Seq<char>, c: Seq<Cap>) -> bool {
    &&& prefix_at(s, c) is Some
    &&& txt_at(s, c, 6) is Some
    &&& txt_at(s, c, 7) is Some
}

/// The fields `c` of a RconBadPassword line convert.
pub open spec fn ok_rcon_bad_password(s: Seq<char>, c: Seq<Cap>) -> bool {
    &&& prefix_at(s, c) is Some
    &&& txt_at(s, c, 6) is Some
}

/// The fields `c` of a SwitchedTeam line convert.
pub open spec fn ok_switched_team(s: Seq<char>, c: Seq<Cap>) -> bool {
    &&& prefix_at(s, c) is Some
    &&& player_no_team_ok(s, c, 6)
    &&& txt_at(s, c, 9) is Some && team_all_of(txt_at(s, c, 9)->0) is Some
    &&& txt_at(s, c, 10) is Some && team_all_of(txt_at(s, c, 10)->0) is Some
}

/// The fields `c` of a PlayerPickedUp line convert.
pub open spec fn ok_player_picked_up(s: Seq<char>, c: Seq<Cap>) -> bool {
    &&& prefix_at(s, c) is Some
    &&& player_ok(s, c, 6)
    &&& txt_at(s, c, 10) is Some
}

/// The fields `c` of a PlayerDropped line convert.
pub open spec fn ok_player_dropped(s: Seq<char>, c: Seq<Cap>) -> bool {
    &&& prefix_at(s, c) is Some
    &&& player_ok(s, c, 6)
    &&& txt_at(s, c, 10) is Some
}

/// The fields `c` of a TeamPlaying line convert.
pub open spec fn ok_team_playing(s: Seq<char>, c: Seq<Cap>) -> bool {
    &&& prefix_at(s, c) is Some
    &&& txt_at(s, c, 6) is Some && side_of(txt_at(s, c, 6)->0) is Some
    &&& 0 <= 7 < c.len()
    &&& txt_at(s, c, 8) is Some
}

/// The fields `c` of a StartingFreezePeriod line convert.
pub open spec fn ok_starting_freeze_period(s: Seq<char>, c: Seq<Cap>) -> bool {
    &&& prefix_at(s, c) is Some
}

/// The fields `c` of a PlayerLeftBuyzone line convert.
pub open spec fn ok_player_left_buyzone(s: Seq<char>, c: Seq<Cap>) -> bool {
    &&& prefix_at(s, c) is Some
    &&& player_ok(s, c, 6)
    &&& txt_at(s, c, 10) is Some
}

/// The fields `c` of a TeamChat line convert.
pub open spec fn ok_team_chat(s: Seq<char>, c: Seq<Cap>) -> bool {
    &&& prefix_at(s, c) is Some
    &&& player_ok(s, c, 6)
    &&& txt_at(s, c, 10) is Some
}

/// The fields `c` of a MoneyChanged line convert.
pub open spec fn ok_money_changed(s: Seq<char>, c: Seq<Cap>) -> bool {
    &&& prefix_at(s, c) is Some
    &&& player_ok(s, c, 6)
    &&& int_at(s, c, 10) is Some
    &&& txt_at(s, c, 11) is Some
    &&& int_at(s, c, 12) is Some
    &&& int_at(s, c, 13) is Some
    &&& 0 <= 15 < c.len()
}

/// The fields `c` of a PlayerPurchased line convert.
pub open spec fn ok_player_purchased(s: Seq<char>, c: Seq<Cap>) -> bool {
    &&& prefix_at(s, c) is Some
    &&& player_ok(s, c, 6)
    &&& txt_at(s, c, 10) is Some
}

/// The fields `c` of a ThrewFlashbang line convert.
pub open spec fn ok_threw_flashbang(s: Seq<char>, c: Seq<Cap>) -> bool {
    &&& prefix_at(s, c) is Some
    &&& player_ok(s, c, 6)
    &&& vector_at(s, c, 10) is Some
    &&& int_at(s, c, 13) is Some
}

/// The fields `c` of a BlindedPlayer line convert.
pub open spec fn ok_blinded_player(s: Seq<char>, c: Seq<Cap>) -> bool {
    &&& prefix_at(s, c) is Some
    &&& player_ok(s, c, 6)
    &&& blind_millis(s, c, 10) is Some
    &&& player_ok(s, c, 12)
    &&& int_at(s, c, 16) is Some
}

/// The fields `c` of a GlobalChat line convert.
pub open spec fn ok_global_chat(s: Seq<char>, c: Seq<Cap>) -> bool {
    &&& prefix_at(s, c) is Some
    &&& player_ok(s, c, 6)
    &&& txt_at(s, c, 10) is Some
}

/// The fields `c` of a PlayerKilledEntity line convert.
pub open spec fn ok_player_killed_entity(s: Seq<char>, c: Seq<Cap>) -> bool {
    &&& prefix_at(s, c) is Some
    &&& player_ok(s, c, 6)
    &&& vector_at(s, c, 10) is Some
    &&& txt_at(s, c, 13) is Some
    &&& int_at(s, c, 14) is Some
    &&& vector_at(s, c, 15) is Some
    &&& txt_at(s, c, 18) is Some
    &&& 0 <= 19 < c.len() && kill_attributes_of(txt_at(s, c, 19)) is Some
}

/// The fields `c` of a PlayerKilledPlayer line convert.
pub open spec fn ok_player_killed_player(s: Seq<char>, c: Seq<Cap>) -> bool {
    &&& prefix_at(s, c) is Some
    &&& player_ok(s, c, 6)
    &&& vector_at(s, c, 10) is Some
    &&& player_ok(s, c, 13)
    &&& vector_at(s, c, 17) is Some
    &&& txt_at(s, c, 20) is Some
    &&& 0 <= 21 < c.len() && kill_attributes_of(txt_at(s, c, 21)) is Some
}

/// The fields `c` of a PlayerThrewSmokegrenade line convert.
pub open spec fn ok_player_threw_smokegrenade(s: Seq<char>, c: Seq<Cap>) -> bool {
    &&& prefix_at(s, c) is Some
    &&& player_ok(s, c, 6)
    &&& vector_at(s, c, 10) is Some
}

/// The fields `c` of a PlayerThrewHEGrenade line convert.
pub open spec fn ok_player_threw_he_grenade(s: Seq<char>, c: Seq<Cap>) -> bool {
    &&& prefix_at(s, c) is Some
    &&& player_ok(s, c, 6)
    &&& vector_at(s, c, 10) is Some
}

/// The fields `c` of a PlayerAttackedPlayer line convert.
pub open spec fn ok_player_attacked_player(s: Seq<char>, c: Seq<Cap>) -> bool {
    &&& prefix_at(s, c) is Some
    &&& player_ok(s, c, 6)
    &&& vector_at(s, c, 10) is Some
    &&& player_ok(s, c, 13)
    &&& vector_at(s, c, 17) is Some
    &&& txt_at(s, c, 20) is Some
    &&& int_at(s, c, 21) is Some
    &&& int_at(s, c, 22) is Some
    &&& int_at(s, c, 23) is Some
    &&& int_at(s, c, 24) is Some
    &&& txt_at(s, c, 25) is Some && hitgroup_of(txt_at(s, c, 25)->0) is Some
}

/// The fields `c` of a PlayerDisconnected line convert.
pub open spec fn ok_player_disconnected(s: Seq<char>, c: Seq<Cap>) -> bool {
    &&& prefix_at(s, c) is Some
    &&& player_ok(s, c, 6)
    &&& txt_at(s, c, 10) is Some
}

/// The fields `c` of a PlayerAssistedKillingPlayer line convert.
pub open spec fn ok_player_assisted_killing_player(s: Seq<char>, c: Seq<Cap>) -> bool {
    &&& prefix_at(s, c) is Some
    &&& player_ok(s, c, 6)
    &&& player_ok(s, c, 10)
}

/// The fields `c` of a PlayerAssistedBlindingPlayer line convert.
pub open spec fn ok_player_assisted_blinding_player(s: Seq<char>, c: Seq<Cap>) -> bool {
    &&& prefix_at(s, c) is Some
    &&& player_ok(s, c, 6)
    &&& player_ok(s, c, 10)
}

/// The fields `c` of a SpawnedMolotov line convert.
pub open spec fn ok_spawned_molotov(s: Seq<char>, c: Seq<Cap>) -> bool {
    &&& prefix_at(s, c) is Some
    &&& txt_at(s, c, 6) is Some
    &&& txt_at(s, c, 7) is Some
    &&& txt_at(s, c, 8) is Some
    &&& txt_at(s, c, 9) is Some
    &&& txt_at(s, c, 10) is Some
    &&& txt_at(s, c, 11) is Some
}

/// The fields `c` of a ThrewMolotov line convert.
pub open spec fn ok_threw_molotov(s: Seq<char>, c: Seq<Cap>) -> bool {
    &&& prefix_at(s, c) is Some
    &&& player_ok(s, c, 6)
    &&& vector_at(s, c, 10) is Some
}

/// The fields `c` of a PlayerConnected line convert.
pub open spec fn ok_player_connected(s: Seq<char>, c: Seq<Cap>) -> bool {
    &&& prefix_at(s, c) is Some
    &&& player_ok(s, c, 6)
    &&& txt_at(s, c, 10) is Some
}

/// The fields `c` of a ValidatedSteamID line convert.
pub open spec fn ok_validated_steam_id(s: Seq<char>, c: Seq<Cap>) -> bool {
    &&& prefix_at(s, c) is Some
    &&& player_ok(s, c, 6)
}

/// The fields `c` of a TeamScored line convert.
pub open spec fn ok_team_scored(s: Seq<char>, c: Seq<Cap>) -> bool {
    &&& prefix_at(s, c) is Some
    &&& txt_at(s, c, 6) is Some && side_of(txt_at(s, c, 6)->0) is Some
    &&& int_at(s, c, 7) is Some
    &&& int_at(s, c, 8) is Some
}

/// The fields `c` of a ThrewDecoy line convert.
pub open spec fn ok_threw_decoy(s: Seq<char>, c: Seq<Cap>) -> bool {
    &&& prefix_at(s, c) is Some
    &&& player_ok(s, c, 6)
    &&& vector_at(s, c, 10) is Some
}

/// The fields `c` of a MatchResumed line convert.
pub open spec fn ok_match_resumed(s: Seq<char>, c: Seq<Cap>) -> bool {
    &&& prefix_at(s, c) is Some
}

/// The fields `c` of a MatchPaused line convert.
pub open spec fn ok_match_paused(s: Seq<char>, c: Seq<Cap>) -> bool {
    &&& prefix_at(s, c) is Some
}

/// The fields `c` of a KilledByBomb line convert.
pub open spec fn ok_killed_by_bomb(s: Seq<char>, c: Seq<Cap>) -> bool {
    &&& prefix_at(s, c) is Some
    &&& player_ok(s, c, 6)
    &&& vector_at(s, c, 10) is Some
}

/// The fields `c` of a Accolade line convert.
pub open spec fn ok_accolade(s: Seq<char>, c: Seq<Cap>) -> bool {
    &&& prefix_at(s, c) is Some
    &&& txt_at(s, c, 6) is Some
    &&& txt_at(s, c, 7) is Some
    &&& int_at(s, c, 8) is Some
    &&& txt_at(s, c, 9) is Some
    &&& int_at(s, c, 10) is Some
    &&& txt_at(s, c, 11) is Some
}

/// The fields `c` of a GameOver line convert.
pub open spec fn ok_game_over(s: Seq<char>, c: Seq<Cap>) -> bool {
    &&& prefix_at(s, c) is Some
    &&& txt_at(s, c, 6) is Some
    &&& txt_at(s, c, 7) is Some
    &&& txt_at(s, c, 8) is Some
    &&& int_at(s, c, 9) is Some
    &&& int_at(s, c, 10) is Some
    &&& minutes_millis(s, c, 11) is Some
}

/// The fields `c` of a ChangedNickname line convert.
pub open spec fn ok_changed_nickname(s: Seq<char>, c: Seq<Cap>) -> bool {
    &&& prefix_at(s, c) is Some
    &&& player_ok(s, c, 6)
    &&& txt_at(s, c, 10) is Some
}

/// The fields `c` of a CommittedSuicide line convert.
pub open spec fn ok_committed_suicide(s: Seq<char>, c: Seq<Cap>) -> bool {
    &&& prefix_at(s, c) is Some
    &&& player_ok(s, c, 6)
    &&& vector_at(s, c, 10) is Some
    &&& txt_at(s, c, 13) is Some
}

/// The fields `c` of a ServerMessage line convert.
pub open spec fn ok_server_message(s: Seq<char>, c: Seq<Cap>) -> bool {
    &&& prefix_at(s, c) is Some
    &&& txt_at(s, c, 6) is Some
}

/// The fields `c` of a SteamAuthFailure line convert.
pub open spec fn ok_steam_auth_failure(s: Seq<char>, c: Seq<Cap>) -> bool {
    &&& prefix_at(s, c) is Some
    &&& txt_at(s, c, 6) is Some
    &&& int_at(s, c, 7) is Some
}

/// The fields `c` of a MetaModPluginsLoaded line convert.
pub open spec fn ok_meta_mod_plugins_loaded(s: Seq<char>, c: Seq<Cap>) -> bool {
    &&& prefix_at(s, c) is Some
    &&& int_at(s, c, 6) is Some
    &&& count_or_zero(s, c, 7) is Some
}

/// `e` is the entry that a line of kind `k` with fields `c` gives.
pub open spec fn entry_is(k: LineKind, s: Seq<char>, c: Seq<Cap>, e: LogEntry) -> bool {
    match k {
        LineKind::LogFileStart => is_log_file_start(s, c, e),
        LineKind::LogFileClosed => is_log_file_closed(s, c, e),
        LineKind::WorldTriggeredEvent => is_world_triggered_event(s, c, e),
        LineKind::WorldTriggeredEventMap => is_world_triggered_event_map(s, c, e),
        LineKind::WorldTriggeredEventScore => is_world_triggered_event_score(s, c, e),
        LineKind::PlayerTriggeredEvent => is_player_triggered_event(s, c, e),
        LineKind::TeamTriggeredEventScore => is_team_triggered_event_score(s, c, e),
        LineKind::LoadingMap => is_loading_map(s, c, e),
        LineKind::StartedMap => is_started_map(s, c, e),
        LineKind::Cvar => is_cvar(s, c, e),
        LineKind::PlayerEnteredGame => is_player_entered_game(s, c, e),
        LineKind::Get5Event => is_get5_event(s, c, e),
        LineKind::RconCommand => is_rcon_command(s, c, e),
        LineKind::RconBadPassword => is_rcon_bad_password(s, c, e),
        LineKind::SwitchedTeam => is_switched_team(s, c, e),
        LineKind::PlayerPickedUp => is_player_picked_up(s, c, e),
        LineKind::PlayerDropped => is_player_dropped(s, c, e),
        LineKind::TeamPlaying => is_team_playing(s, c, e),
        LineKind::StartingFreezePeriod => is_starting_freeze_period(s, c, e),
        LineKind::PlayerLeftBuyzone => is_player_left_buyzone(s, c, e),
        LineKind::TeamChat => is_team_chat(s, c, e),
        LineKind::MoneyChanged => is_money_changed(s, c, e),
        LineKind::PlayerPurchased => is_player_purchased(s, c, e),
        LineKind::ThrewFlashbang => is_threw_flashbang(s, c, e),
        LineKind::BlindedPlayer => is_blinded_player(s, c, e),
        LineKind::GlobalChat => is_global_chat(s, c, e),
        LineKind::PlayerKilledEntity => is_player_killed_entity(s, c, e),
        LineKind::PlayerKilledPlayer => is_player_killed_player(s, c, e),
        LineKind::PlayerThrewSmokegrenade => is_player_threw_smokegrenade(s, c, e),
        LineKind::PlayerThrewHEGrenade => is_player_threw_he_grenade(s, c, e),
        LineKind::PlayerAttackedPlayer => is_player_attacked_player(s, c, e),
        LineKind::PlayerDisconnected => is_player_disconnected(s, c, e),
        LineKind::PlayerAssistedKillingPlayer => is_player_assisted_killing_player(s, c, e),
        LineKind::PlayerAssistedBlindingPlayer => is_player_assisted_blinding_player(s, c, e),
        LineKind::SpawnedMolotov => is_spawned_molotov(s, c, e),
        LineKind::ThrewMolotov => is_threw_molotov(s, c, e),
        LineKind::PlayerConnected => is_player_connected(s, c, e),
        LineKind::ValidatedSteamID => is_validated_steam_id(s, c, e),
        LineKind::TeamScored => is_team_scored(s, c, e),
        LineKind::ThrewDecoy => is_threw_decoy(s, c, e),
        LineKind::MatchResumed => is_match_resumed(s, c, e),
        LineKind::MatchPaused => is_match_paused(s, c, e),
        LineKind::KilledByBomb => is_killed_by_bomb(s, c, e),
        LineKind::Accolade => is_accolade(s, c, e),
        LineKind::GameOver => is_game_over(s, c, e),
        LineKind::ChangedNickname => is_changed_nickname(s, c, e),
        LineKind::CommittedSuicide => is_committed_suicide(s, c, e),
        LineKind::ServerMessage => is_server_message(s, c, e),
        LineKind::SteamAuthFailure => is_steam_auth_failure(s, c, e),
        LineKind::MetaModPluginsLoaded => is_meta_mod_plugins_loaded(s, c, e),
        _ => false,
    }
}

fn build_log_file_start(line: &str, s: &Vec<char>, c: &Vec<Cap>) -> (r: LogEntry)
    requires
        line@ == s@,
        caps_within(c@, s@.len() as int),
        ok_log_file_start(s@, c@),
    ensures
        is_log_file_start(s@, c@, r),
{
    let prefix = prefix_of(s, c);
    let file = cap_text(line, s, c, 6);
    let game = cap_text(line, s, c, 7);
    let version = cap_int(s, c, 8);
    LogEntry::LogFileStart { prefix, file, game, version }
}

fn build_log_file_closed(line: &str, s: &Vec<char>, c: &Vec<Cap>) -> (r: LogEntry)
    requires
        line@ == s@,
        caps_within(c@, s@.len() as int),
        ok_log_file_closed(s@, c@),
    ensures
        is_log_file_closed(s@, c@, r),
{
    let prefix = prefix_of(s, c);
    LogEntry::LogFileClosed { prefix }
}

fn build_world_triggered_event(line: &str, s: &Vec<char>, c: &Vec<Cap>) -> (r: LogEntry)
    requires
        line@ == s@,
        caps_within(c@, s@.len() as int),
        ok_world_triggered_event(s@, c@),
    ensures
        is_world_triggered_event(s@, c@, r),
{
    let prefix = prefix_of(s, c);
    let event = cap_text(line, s, c, 6);
    LogEntry::WorldTriggeredEvent { prefix, event }
}

fn build_world_triggered_event_map(line: &str, s: &Vec<char>, c: &Vec<Cap>) -> (r: LogEntry)
    requires
        line@ == s@,
        caps_within(c@, s@.len() as int),
        ok_world_triggered_event_map(s@, c@),
    ensures
        is_world_triggered_event_map(s@, c@, r),
{
    let prefix = prefix_of(s, c);
    let event = cap_text(line, s, c, 6);
    let map = cap_text(line, s, c, 7);
    LogEntry::WorldTriggeredEventMap { prefix, event, map }
}

fn build_world_triggered_event_score(line: &str, s: &Vec<char>, c: &Vec<Cap>) -> (r: LogEntry)
    requires
        line@ == s@,
        caps_within(c@, s@.len() as int),
        ok_world_triggered_event_score(s@, c@),
    ensures
        is_world_triggered_event_score(s@, c@, r),
{
    let prefix = prefix_of(s, c);
    let event = cap_text(line, s, c, 6);
    let ct_score = cap_int(s, c, 7);
    let t_score = cap_int(s, c, 8);
    LogEntry::WorldTriggeredEventScore { prefix, event, ct_score, t_score }
}

fn build_player_triggered_event(line: &str, s: &Vec<char>, c: &Vec<Cap>) -> (r: LogEntry)
    requires
        line@ == s@,
        caps_within(c@, s@.len() as int),
        ok_player_triggered_event(s@, c@),
    ensures
        is_player_triggered_event(s@, c@, r),
{
    let prefix = prefix_of(s, c);
    let player = cap_player(line, s, c, 6);
    let event = cap_text(line, s, c, 10);
    LogEntry::PlayerTriggeredEvent { prefix, player, event }
}

fn build_team_triggered_event_score(line: &str, s: &Vec<char>, c: &Vec<Cap>) -> (r: LogEntry)
    requires
        line@ == s@,
        caps_within(c@, s@.len() as int),
        ok_team_triggered_event_score(s@, c@),
    ensures
        is_team_triggered_event_score(s@, c@, r),
{
    let prefix = prefix_of(s, c);
    let team = cap_side(s, c, 6);
    let event = cap_text(line, s, c, 7);
    let ct_score = cap_int(s, c, 8);
    let t_score = cap_int(s, c, 9);
    LogEntry::TeamTriggeredEventScore { prefix, team, event, ct_score, t_score }
}

fn build_loading_map(line: &str, s: &Vec<char>, c: &Vec<Cap>) -> (r: LogEntry)
    requires
        line@ == s@,
        caps_within(c@, s@.len() as int),
        ok_loading_map(s@, c@),
    ensures
        is_loading_map(s@, c@, r),
{
    let prefix = prefix_of(s, c);
    let map = cap_text(line, s, c, 6);
    LogEntry::LoadingMap { prefix, map }
}

fn build_started_map(line: &str, s: &Vec<char>, c: &Vec<Cap>) -> (r: LogEntry)
    requires
        line@ == s@,
        caps_within(c@, s@.len() as int),
        ok_started_map(s@, c@),
    ensures
        is_started_map(s@, c@, r),
{
    let prefix = prefix_of(s, c);
    let map = cap_text(line, s, c, 6);
    let crc = cap_text(line, s, c, 7);
    LogEntry::StartedMap { prefix, map, crc }
}

fn build_cvar(line: &str, s: &Vec<char>, c: &Vec<Cap>) -> (r: LogEntry)
    requires
        line@ == s@,
        caps_within(c@, s@.len() as int),
        ok_cvar(s@, c@),
    ensures
        is_cvar(s@, c@, r),
{
    let prefix = prefix_of(s, c);
    let key = cap_text(line, s, c, 6);
    let value = cap_text(line, s, c, 7);
    LogEntry::Cvar { prefix, key, value }
}

fn build_player_entered_game(line: &str, s: &Vec<char>, c: &Vec<Cap>) -> (r: LogEntry)
    requires
        line@ == s@,
        caps_within(c@, s@.len() as int),
        ok_player_entered_game(s@, c@),
    ensures
        is_player_entered_game(s@, c@, r),
{
    let prefix = prefix_of(s, c);
    let player = cap_player(line, s, c, 6);
    LogEntry::PlayerEnteredGame { prefix, player }
}

fn build_get5_event(line: &str, s: &Vec<char>, c: &Vec<Cap>) -> (r: LogEntry)
    requires
        line@ == s@,
        caps_within(c@, s@.len() as int),
        ok_get5_event(s@, c@),
    ensures
        is_get5_event(s@, c@, r),
{
    let prefix = prefix_of(s, c);
    let json = cap_text(line, s, c, 6);
    LogEntry::Get5Event { prefix, json }
}

fn build_rcon_command(line: &str, s: &Vec<char>, c: &Vec<Cap>) -> (r: LogEntry)
    requires
        line@ == s@,
        caps_within(c@, s@.len() as int),
        ok_rcon_command(s@, c@),
    ensures
        is_rcon_command(s@, c@, r),
{
    let prefix = prefix_of(s, c);
    let client_address = cap_text(line, s, c, 6);
    let command = cap_text(line, s, c, 7);
    LogEntry::RconCommand { prefix, client_address, command }
}

fn build_rcon_bad_password(line: &str, s: &Vec<char>, c: &Vec<Cap>) -> (r: LogEntry)
    requires
        line@ == s@,
        caps_within(c@, s@.len() as int),
        ok_rcon_bad_password(s@, c@),
    ensures
        is_rcon_bad_password(s@, c@, r),
{
    let prefix = prefix_of(s, c);
    let client_address = cap_text(line, s, c, 6);
    LogEntry::RconBadPassword { prefix, client_address }
}

fn build_switched_team(line: &str, s: &Vec<char>, c: &Vec<Cap>) -> (r: LogEntry)
    requires
        line@ == s@,
        caps_within(c@, s@.len() as int),
        ok_switched_team(s@, c@),
    ensures
        is_switched_team(s@, c@, r),
{
    let prefix = prefix_of(s, c);
    let player = cap_player_no_team(line, s, c, 6);
    let from = cap_team_all(s, c, 9);
    let to = cap_team_all(s, c, 10);
    LogEntry::SwitchedTeam { prefix, player, from, to }
}

fn build_player_picked_up(line: &str, s: &Vec<char>, c: &Vec<Cap>) -> (r: LogEntry)
    requires
        line@ == s@,
        caps_within(c@, s@.len() as int),
        ok_player_picked_up(s@, c@),
    ensures
        is_player_picked_up(s@, c@, r),
{
    let prefix = prefix_of(s, c);
    let player = cap_player(line, s, c, 6);
    let instrument = cap_text(line, s, c, 10);
    LogEntry::PlayerPickedUp { prefix, player, instrument }
}

fn build_player_dropped(line: &str, s: &Vec<char>, c: &Vec<Cap>) -> (r: LogEntry)
    requires
        line@ == s@,
        caps_within(c@, s@.len() as int),
        ok_player_dropped(s@, c@),
    ensures
        is_player_dropped(s@, c@, r),
{
    let prefix = prefix_of(s, c);
    let player = cap_player(line, s, c, 6);
    let instrument = cap_text(line, s, c, 10);
    LogEntry::PlayerDropped { prefix, player, instrument }
}

fn build_team_playing(line: &str, s: &Vec<char>, c: &Vec<Cap>) -> (r: LogEntry)
    requires
        line@ == s@,
        caps_within(c@, s@.len() as int),
        ok_team_playing(s@, c@),
    ensures
        is_team_playing(s@, c@, r),
{
    let prefix = prefix_of(s, c);
    let team = cap_side(s, c, 6);
    let readiness = cap_opt_text(line, s, c, 7);
    let name = cap_text(line, s, c, 8);
    LogEntry::TeamPlaying { prefix, team, readiness, name }
}

fn build_starting_freeze_period(line: &str, s: &Vec<char>, c: &Vec<Cap>) -> (r: LogEntry)
    requires
        line@ == s@,
        caps_within(c@, s@.len() as int),
        ok_starting_freeze_period(s@, c@),
    ensures
        is_starting_freeze_period(s@, c@, r),
{
    let prefix = prefix_of(s, c);
    LogEntry::StartingFreezePeriod { prefix }
}

fn build_player_left_buyzone(line: &str, s: &Vec<char>, c: &Vec<Cap>) -> (r: LogEntry)
    requires
        line@ == s@,
        caps_within(c@, s@.len() as int),
        ok_player_left_buyzone(s@, c@),
    ensures
        is_player_left_buyzone(s@, c@, r),
{
    let prefix = prefix_of(s, c);
    let player = cap_player(line, s, c, 6);
    let instruments = cap_items(line, s, c, 10);
    LogEntry::PlayerLeftBuyzone { prefix, player, instruments }
}

fn build_team_chat(line: &str, s: &Vec<char>, c: &Vec<Cap>) -> (r: LogEntry)
    requires
        line@ == s@,
        caps_within(c@, s@.len() as int),
        ok_team_chat(s@, c@),
    ensures
        is_team_chat(s@, c@, r),
{
    let prefix = prefix_of(s, c);
    let player = cap_player(line, s, c, 6);
    let msg = cap_text(line, s, c, 10);
    LogEntry::TeamChat { prefix, player, msg }
}

fn build_money_changed(line: &str, s: &Vec<char>, c: &Vec<Cap>) -> (r: LogEntry)
    requires
        line@ == s@,
        caps_within(c@, s@.len() as int),
        ok_money_changed(s@, c@),
    ensures
        is_money_changed(s@, c@, r),
{
    let prefix = prefix_of(s, c);
    let player = cap_player(line, s, c, 6);
    let previously = cap_int(s, c, 10);
    let operation = cap_text(line, s, c, 11);
    let change = cap_int(s, c, 12);
    let new_amount = cap_int(s, c, 13);
    let instrument = cap_opt_text(line, s, c, 15);
    let is_tracked = cap_present(c, 14);
    LogEntry::MoneyChanged { prefix, player, previously, operation, change, new_amount, instrument, is_tracked }
}

fn build_player_purchased(line: &str, s: &Vec<char>, c: &Vec<Cap>) -> (r: LogEntry)
    requires
        line@ == s@,
        caps_within(c@, s@.len() as int),
        ok_player_purchased(s@, c@),
    ensures
        is_player_purchased(s@, c@, r),
{
    let prefix = prefix_of(s, c);
    let player = cap_player(line, s, c, 6);
    let instrument = cap_text(line, s, c, 10);
    LogEntry::PlayerPurchased { prefix, player, instrument }
}

fn build_threw_flashbang(line: &str, s: &Vec<char>, c: &Vec<Cap>) -> (r: LogEntry)
    requires
        line@ == s@,
        caps_within(c@, s@.len() as int),
        ok_threw_flashbang(s@, c@),
    ensures
        is_threw_flashbang(s@, c@, r),
{
    let prefix = prefix_of(s, c);
    let player = cap_player(line, s, c, 6);
    let location = cap_vector(s, c, 10);
    let entindex = cap_int(s, c, 13);
    LogEntry::ThrewFlashbang { prefix, player, location, entindex }
}

fn build_blinded_player(line: &str, s: &Vec<char>, c: &Vec<Cap>) -> (r: LogEntry)
    requires
        line@ == s@,
        caps_within(c@, s@.len() as int),
        ok_blinded_player(s@, c@),
    ensures
        is_blinded_player(s@, c@, r),
{
    let prefix = prefix_of(s, c);
    let offender = cap_player(line, s, c, 6);
    let duration = Duration::from_millis(cap_blind_millis(s, c, 10));
    let victim = cap_player(line, s, c, 12);
    let entindex = cap_int(s, c, 16);
    LogEntry::BlindedPlayer { prefix, offender, duration, victim, entindex }
}

fn build_global_chat(line: &str, s: &Vec<char>, c: &Vec<Cap>) -> (r: LogEntry)
    requires
        line@ == s@,
        caps_within(c@, s@.len() as int),
        ok_global_chat(s@, c@),
    ensures
        is_global_chat(s@, c@, r),
{
    let prefix = prefix_of(s, c);
    let player = cap_player(line, s, c, 6);
    let msg = cap_text(line, s, c, 10);
    LogEntry::GlobalChat { prefix, player, msg }
}

fn build_player_killed_entity(line: &str, s: &Vec<char>, c: &Vec<Cap>) -> (r: LogEntry)
    requires
        line@ == s@,
        caps_within(c@, s@.len() as int),
        ok_player_killed_entity(s@, c@),
    ensures
        is_player_killed_entity(s@, c@, r),
{
    let prefix = prefix_of(s, c);
    let player = cap_player(line, s, c, 6);
    let location = cap_vector(s, c, 10);
    let entity_name = cap_text(line, s, c, 13);
    let entindex = cap_int(s, c, 14);
    let entity_location = cap_vector(s, c, 15);
    let instrument = cap_text(line, s, c, 18);
    let kill_attributes = cap_kill_attributes(s, c, 19);
    LogEntry::PlayerKilledEntity { prefix, player, location, entity_name, entindex, entity_location, instrument, kill_attributes }
}

fn build_player_killed_player(line: &str, s: &Vec<char>, c: &Vec<Cap>) -> (r: LogEntry)
    requires
        line@ == s@,
        caps_within(c@, s@.len() as int),
        ok_player_killed_player(s@, c@),
    ensures
        is_player_killed_player(s@, c@, r),
{
    let prefix = prefix_of(s, c);
    let offender = cap_player(line, s, c, 6);
    let offender_location = cap_vector(s, c, 10);
    let victim = cap_player(line, s, c, 13);
    let victim_location = cap_vector(s, c, 17);
    let instrument = cap_text(line, s, c, 20);
    let kill_attributes = cap_kill_attributes(s, c, 21);
    LogEntry::PlayerKilledPlayer { prefix, offender, offender_location, victim, victim_location, instrument, kill_attributes }
}

fn build_player_threw_smokegrenade(line: &str, s: &Vec<char>, c: &Vec<Cap>) -> (r: LogEntry)
    requires
        line@ == s@,
        caps_within(c@, s@.len() as int),
        ok_player_threw_smokegrenade(s@, c@),
    ensures
        is_player_threw_smokegrenade(s@, c@, r),
{
    let prefix = prefix_of(s, c);
    let player = cap_player(line, s, c, 6);
    let location = cap_vector(s, c, 10);
    LogEntry::PlayerThrewSmokegrenade { prefix, player, location }
}

fn build_player_threw_he_grenade(line: &str, s: &Vec<char>, c: &Vec<Cap>) -> (r: LogEntry)
    requires
        line@ == s@,
        caps_within(c@, s@.len() as int),
        ok_player_threw_he_grenade(s@, c@),
    ensures
        is_player_threw_he_grenade(s@, c@, r),
{
    let prefix = prefix_of(s, c);
    let player = cap_player(line, s, c, 6);
    let location = cap_vector(s, c, 10);
    LogEntry::PlayerThrewHEGrenade { prefix, player, location }
}

fn build_player_attacked_player(line: &str, s: &Vec<char>, c: &Vec<Cap>) -> (r: LogEntry)
    requires
        line@ == s@,
        caps_within(c@, s@.len() as int),
        ok_player_attacked_player(s@, c@),
    ensures
        is_player_attacked_player(s@, c@, r),
{
    let prefix = prefix_of(s, c);
    let offender = cap_player(line, s, c, 6);
    let offender_location = cap_vector(s, c, 10);
    let victim = cap_player(line, s, c, 13);
    let victim_location = cap_vector(s, c, 17);
    let instrument = cap_text(line, s, c, 20);
    let damage = cap_int(s, c, 21);
    let damage_armor = cap_int(s, c, 22);
    let health = cap_int(s, c, 23);
    let armor = cap_int(s, c, 24);
    let hitgroup = cap_hitgroup(s, c, 25);
    LogEntry::PlayerAttackedPlayer { prefix, offender, offender_location, victim, victim_location, instrument, damage, damage_armor, health, armor, hitgroup }
}

fn build_player_disconnected(line: &str, s: &Vec<char>, c: &Vec<Cap>) -> (r: LogEntry)
    requires
        line@ == s@,
        caps_within(c@, s@.len() as int),
        ok_player_disconnected(s@, c@),
    ensures
        is_player_disconnected(s@, c@, r),
{
    let prefix = prefix_of(s, c);
    let player = cap_player(line, s, c, 6);
    let reason = cap_text(line, s, c, 10);
    LogEntry::PlayerDisconnected { prefix, player, reason }
}

fn build_player_assisted_killing_player(line: &str, s: &Vec<char>, c: &Vec<Cap>) -> (r: LogEntry)
    requires
        line@ == s@,
        caps_within(c@, s@.len() as int),
        ok_player_assisted_killing_player(s@, c@),
    ensures
        is_player_assisted_killing_player(s@, c@, r),
{
    let prefix = prefix_of(s, c);
    let offender = cap_player(line, s, c, 6);
    let victim = cap_player(line, s, c, 10);
    LogEntry::PlayerAssistedKillingPlayer { prefix, offender, victim }
}

fn build_player_assisted_blinding_player(line: &str, s: &Vec<char>, c: &Vec<Cap>) -> (r: LogEntry)
    requires
        line@ == s@,
        caps_within(c@, s@.len() as int),
        ok_player_assisted_blinding_player(s@, c@),
    ensures
        is_player_assisted_blinding_player(s@, c@, r),
{
    let prefix = prefix_of(s, c);
    let offender = cap_player(line, s, c, 6);
    let victim = cap_player(line, s, c, 10);
    LogEntry::PlayerAssistedBlindingPlayer { prefix, offender, victim }
}

fn build_spawned_molotov(line: &str, s: &Vec<char>, c: &Vec<Cap>) -> (r: LogEntry)
    requires
        line@ == s@,
        caps_within(c@, s@.len() as int),
        ok_spawned_molotov(s@, c@),
    ensures
        is_spawned_molotov(s@, c@, r),
{
    let prefix = prefix_of(s, c);
    let location_x = Decimal { literal: cap_text(line, s, c, 6) };
    let location_y = Decimal { literal: cap_text(line, s, c, 7) };
    let location_z = Decimal { literal: cap_text(line, s, c, 8) };
    let velocity_x = Decimal { literal: cap_text(line, s, c, 9) };
    let velocity_y = Decimal { literal: cap_text(line, s, c, 10) };
    let velocity_z = Decimal { literal: cap_text(line, s, c, 11) };
    LogEntry::SpawnedMolotov { prefix, location_x, location_y, location_z, velocity_x, velocity_y, velocity_z }
}

fn build_threw_molotov(line: &str, s: &Vec<char>, c: &Vec<Cap>) -> (r: LogEntry)
    requires
        line@ == s@,
        caps_within(c@, s@.len() as int),
        ok_threw_molotov(s@, c@),
    ensures
        is_threw_molotov(s@, c@, r),
{
    let prefix = prefix_of(s, c);
    let player = cap_player(line, s, c, 6);
    let location = cap_vector(s, c, 10);
    LogEntry::ThrewMolotov { prefix, player, location }
}

fn build_player_connected(line: &str, s: &Vec<char>, c: &Vec<Cap>) -> (r: LogEntry)
    requires
        line@ == s@,
        caps_within(c@, s@.len() as int),
        ok_player_connected(s@, c@),
    ensures
        is_player_connected(s@, c@, r),
{
    let prefix = prefix_of(s, c);
    let player = cap_player(line, s, c, 6);
    let address = cap_text(line, s, c, 10);
    LogEntry::PlayerConnected { prefix, player, address }
}

fn build_validated_steam_id(line: &str, s: &Vec<char>, c: &Vec<Cap>) -> (r: LogEntry)
    requires
        line@ == s@,
        caps_within(c@, s@.len() as int),
        ok_validated_steam_id(s@, c@),
    ensures
        is_validated_steam_id(s@, c@, r),
{
    let prefix = prefix_of(s, c);
    let player = cap_player(line, s, c, 6);
    LogEntry::ValidatedSteamID { prefix, player }
}

fn build_team_scored(line: &str, s: &Vec<char>, c: &Vec<Cap>) -> (r: LogEntry)
    requires
        line@ == s@,
        caps_within(c@, s@.len() as int),
        ok_team_scored(s@, c@),
    ensures
        is_team_scored(s@, c@, r),
{
    let prefix = prefix_of(s, c);
    let team = cap_side(s, c, 6);
    let score = cap_int(s, c, 7);
    let player_count = cap_int(s, c, 8);
    LogEntry::TeamScored { prefix, team, score, player_count }
}

fn build_threw_decoy(line: &str, s: &Vec<char>, c: &Vec<Cap>) -> (r: LogEntry)
    requires
        line@ == s@,
        caps_within(c@, s@.len() as int),
        ok_threw_decoy(s@, c@),
    ensures
        is_threw_decoy(s@, c@, r),
{
    let prefix = prefix_of(s, c);
    let player = cap_player(line, s, c, 6);
    let location = cap_vector(s, c, 10);
    LogEntry::ThrewDecoy { prefix, player, location }
}

fn build_match_resumed(line: &str, s: &Vec<char>, c: &Vec<Cap>) -> (r: LogEntry)
    requires
        line@ == s@,
        caps_within(c@, s@.len() as int),
        ok_match_resumed(s@, c@),
    ensures
        is_match_resumed(s@, c@, r),
{
    let prefix = prefix_of(s, c);
    LogEntry::MatchResumed { prefix }
}

fn build_match_paused(line: &str, s: &Vec<char>, c: &Vec<Cap>) -> (r: LogEntry)
    requires
        line@ == s@,
        caps_within(c@, s@.len() as int),
        ok_match_paused(s@, c@),
    ensures
        is_match_paused(s@, c@, r),
{
    let prefix = prefix_of(s, c);
    LogEntry::MatchPaused { prefix }
}

fn build_killed_by_bomb(line: &str, s: &Vec<char>, c: &Vec<Cap>) -> (r: LogEntry)
    requires
        line@ == s@,
        caps_within(c@, s@.len() as int),
        ok_killed_by_bomb(s@, c@),
    ensures
        is_killed_by_bomb(s@, c@, r),
{
    let prefix = prefix_of(s, c);
    let player = cap_player(line, s, c, 6);
    let location = cap_vector(s, c, 10);
    LogEntry::KilledByBomb { prefix, player, location }
}

fn build_accolade(line: &str, s: &Vec<char>, c: &Vec<Cap>) -> (r: LogEntry)
    requires
        line@ == s@,
        caps_within(c@, s@.len() as int),
        ok_accolade(s@, c@),
    ensures
        is_accolade(s@, c@, r),
{
    let prefix = prefix_of(s, c);
    let categorie = cap_text(line, s, c, 6);
    let player = cap_text(line, s, c, 7);
    let player_entindex = cap_int(s, c, 8);
    let value = Decimal { literal: cap_text(line, s, c, 9) };
    let pos = cap_int(s, c, 10);
    let score = Decimal { literal: cap_text(line, s, c, 11) };
    LogEntry::Accolade { prefix, categorie, player, player_entindex, value, pos, score }
}

fn build_game_over(line: &str, s: &Vec<char>, c: &Vec<Cap>) -> (r: LogEntry)
    requires
        line@ == s@,
        caps_within(c@, s@.len() as int),
        ok_game_over(s@, c@),
    ensures
        is_game_over(s@, c@, r),
{
    let prefix = prefix_of(s, c);
    let mode = cap_text(line, s, c, 6);
    let map_group = cap_text(line, s, c, 7);
    let map = cap_text(line, s, c, 8);
    let ct_score = cap_int(s, c, 9);
    let t_score = cap_int(s, c, 10);
    let time = Duration::from_millis(cap_minutes_millis(s, c, 11));
    LogEntry::GameOver { prefix, mode, map_group, map, ct_score, t_score, time }
}

fn build_changed_nickname(line: &str, s: &Vec<char>, c: &Vec<Cap>) -> (r: LogEntry)
    requires
        line@ == s@,
        caps_within(c@, s@.len() as int),
        ok_changed_nickname(s@, c@),
    ensures
        is_changed_nickname(s@, c@, r),
{
    let prefix = prefix_of(s, c);
    let player = cap_player(line, s, c, 6);
    let new_nickname = cap_text(line, s, c, 10);
    LogEntry::ChangedNickname { prefix, player, new_nickname }
}

fn build_committed_suicide(line: &str, s: &Vec<char>, c: &Vec<Cap>) -> (r: LogEntry)
    requires
        line@ == s@,
        caps_within(c@, s@.len() as int),
        ok_committed_suicide(s@, c@),
    ensures
        is_committed_suicide(s@, c@, r),
{
    let prefix = prefix_of(s, c);
    let player = cap_player(line, s, c, 6);
    let location = cap_vector(s, c, 10);
    let instrument = cap_text(line, s, c, 13);
    LogEntry::CommittedSuicide { prefix, player, location, instrument }
}

fn build_server_message(line: &str, s: &Vec<char>, c: &Vec<Cap>) -> (r: LogEntry)
    requires
        line@ == s@,
        caps_within(c@, s@.len() as int),
        ok_server_message(s@, c@),
    ensures
        is_server_message(s@, c@, r),
{
    let prefix = prefix_of(s, c);
    let message = cap_text(line, s, c, 6);
    LogEntry::ServerMessage { prefix, message }
}

fn build_steam_auth_failure(line: &str, s: &Vec<char>, c: &Vec<Cap>) -> (r: LogEntry)
    requires
        line@ == s@,
        caps_within(c@, s@.len() as int),
        ok_steam_auth_failure(s@, c@),
    ensures
        is_steam_auth_failure(s@, c@, r),
{
    let prefix = prefix_of(s, c);
    let nickname = cap_text(line, s, c, 6);
    let failure_code = cap_int(s, c, 7);
    LogEntry::SteamAuthFailure { prefix, nickname, failure_code }
}

fn build_meta_mod_plugins_loaded(line: &str, s: &Vec<char>, c: &Vec<Cap>) -> (r: LogEntry)
    requires
        line@ == s@,
        caps_within(c@, s@.len() as int),
        ok_meta_mod_plugins_loaded(s@, c@),
    ensures
        is_meta_mod_plugins_loaded(s@, c@, r),
{
    let prefix = prefix_of(s, c);
    let loaded = cap_int(s, c, 6);
    let preloaded = cap_count_or_zero(s, c, 7);
    LogEntry::MetaModPluginsLoaded { prefix, loaded, preloaded }
}

/// The fields `c` of a line of kind `k` convert.
pub open spec fn convertible(k: LineKind, s: Seq<char>, c: Seq<Cap>) -> bool {
    match k {
        LineKind::LogFileStart => ok_log_file_start(s, c),
        LineKind::LogFileClosed => ok_log_file_closed(s, c),
        LineKind::WorldTriggeredEvent => ok_world_triggered_event(s, c),
        LineKind::WorldTriggeredEventMap => ok_world_triggered_event_map(s, c),
        LineKind::WorldTriggeredEventScore => ok_world_triggered_event_score(s, c),
        LineKind::PlayerTriggeredEvent => ok_player_triggered_event(s, c),
        LineKind::TeamTriggeredEventScore => ok_team_triggered_event_score(s, c),
        LineKind::LoadingMap => ok_loading_map(s, c),
        LineKind::StartedMap => ok_started_map(s, c),
        LineKind::Cvar => ok_cvar(s, c),
        LineKind::PlayerEnteredGame => ok_player_entered_game(s, c),
        LineKind::Get5Event => ok_get5_event(s, c),
        LineKind::RconCommand => ok_rcon_command(s, c),
        LineKind::RconBadPassword => ok_rcon_bad_password(s, c),
        LineKind::SwitchedTeam => ok_switched_team(s, c),
        LineKind::PlayerPickedUp => ok_player_picked_up(s, c),
        LineKind::PlayerDropped => ok_player_dropped(s, c),
        LineKind::TeamPlaying => ok_team_playing(s, c),
        LineKind::StartingFreezePeriod => ok_starting_freeze_period(s, c),
        LineKind::PlayerLeftBuyzone => ok_player_left_buyzone(s, c),
        LineKind::TeamChat => ok_team_chat(s, c),
        LineKind::MoneyChanged => ok_money_changed(s, c),
        LineKind::PlayerPurchased => ok_player_purchased(s, c),
        LineKind::ThrewFlashbang => ok_threw_flashbang(s, c),
        LineKind::BlindedPlayer => ok_blinded_player(s, c),
        LineKind::GlobalChat => ok_global_chat(s, c),
        LineKind::PlayerKilledEntity => ok_player_killed_entity(s, c),
        LineKind::PlayerKilledPlayer => ok_player_killed_player(s, c),
        LineKind::PlayerThrewSmokegrenade => ok_player_threw_smokegrenade(s, c),
        LineKind::PlayerThrewHEGrenade => ok_player_threw_he_grenade(s, c),
        LineKind::PlayerAttackedPlayer => ok_player_attacked_player(s, c),
        LineKind::PlayerDisconnected => ok_player_disconnected(s, c),
        LineKind::PlayerAssistedKillingPlayer => ok_player_assisted_killing_player(s, c),
        LineKind::PlayerAssistedBlindingPlayer => ok_player_assisted_blinding_player(s, c),
        LineKind::SpawnedMolotov => ok_spawned_molotov(s, c),
        LineKind::ThrewMolotov => ok_threw_molotov(s, c),
        LineKind::PlayerConnected => ok_player_connected(s, c),
        LineKind::ValidatedSteamID => ok_validated_steam_id(s, c),
        LineKind::TeamScored => ok_team_scored(s, c),
        LineKind::ThrewDecoy => ok_threw_decoy(s, c),
        LineKind::MatchResumed => ok_match_resumed(s, c),
        LineKind::MatchPaused => ok_match_paused(s, c),
        LineKind::KilledByBomb => ok_killed_by_bomb(s, c),
        LineKind::Accolade => ok_accolade(s, c),
        LineKind::GameOver => ok_game_over(s, c),
        LineKind::ChangedNickname => ok_changed_nickname(s, c),
        LineKind::CommittedSuicide => ok_committed_suicide(s, c),
        LineKind::ServerMessage => ok_server_message(s, c),
        LineKind::SteamAuthFailure => ok_steam_auth_failure(s, c),
        LineKind::MetaModPluginsLoaded => ok_meta_mod_plugins_loaded(s, c),
        _ => false,
    }
}

/// Builds the entry of a line that the pattern of `k` matches with fields `c`.
pub fn build_entry(k: LineKind, line: &str, s: &Vec<char>, c: &Vec<Cap>) -> (r: LogEntry)
    requires
        !is_dump_kind(k),
        line@ == s@,
        caps_within(c@, s@.len() as int),
        line_caps(pattern(k), s@) == Some(c@),
        fields_fit(k, s@, c@),
    ensures
        entry_is(k, s@, c@, r),
{
    let n = s.len();
    proof {
        assert(s@.len() == n);
        lemma_matched_fields_convert(k, s@);
    }
    match k {
        LineKind::LogFileStart => build_log_file_start(line, s, c),
        LineKind::LogFileClosed => build_log_file_closed(line, s, c),
        LineKind::WorldTriggeredEvent => build_world_triggered_event(line, s, c),
        LineKind::WorldTriggeredEventMap => build_world_triggered_event_map(line, s, c),
        LineKind::WorldTriggeredEventScore => build_world_triggered_event_score(line, s, c),
        LineKind::PlayerTriggeredEvent => build_player_triggered_event(line, s, c),
        LineKind::TeamTriggeredEventScore => build_team_triggered_event_score(line, s, c),
        LineKind::LoadingMap => build_loading_map(line, s, c),
        LineKind::StartedMap => build_started_map(line, s, c),
        LineKind::Cvar => build_cvar(line, s, c),
        LineKind::PlayerEnteredGame => build_player_entered_game(line, s, c),
        LineKind::Get5Event => build_get5_event(line, s, c),
        LineKind::RconCommand => build_rcon_command(line, s, c),
        LineKind::RconBadPassword => build_rcon_bad_password(line, s, c),
        LineKind::SwitchedTeam => build_switched_team(line, s, c),
        LineKind::PlayerPickedUp => build_player_picked_up(line, s, c),
        LineKind::PlayerDropped => build_player_dropped(line, s, c),
        LineKind::TeamPlaying => build_team_playing(line, s, c),
        LineKind::StartingFreezePeriod => build_starting_freeze_period(line, s, c),
        LineKind::PlayerLeftBuyzone => build_player_left_buyzone(line, s, c),
        LineKind::TeamChat => build_team_chat(line, s, c),
        LineKind::MoneyChanged => build_money_changed(line, s, c),
        LineKind::PlayerPurchased => build_player_purchased(line, s, c),
        LineKind::ThrewFlashbang => build_threw_flashbang(line, s, c),
        LineKind::BlindedPlayer => build_blinded_player(line, s, c),
        LineKind::GlobalChat => build_global_chat(line, s, c),
        LineKind::PlayerKilledEntity => build_player_killed_entity(line, s, c),
        LineKind::PlayerKilledPlayer => build_player_killed_player(line, s, c),
        LineKind::PlayerThrewSmokegrenade => build_player_threw_smokegrenade(line, s, c),
        LineKind::PlayerThrewHEGrenade => build_player_threw_he_grenade(line, s, c),
        LineKind::PlayerAttackedPlayer => build_player_attacked_player(line, s, c),
        LineKind::PlayerDisconnected => build_player_disconnected(line, s, c),
        LineKind::PlayerAssistedKillingPlayer => build_player_assisted_killing_player(line, s, c),
        LineKind::PlayerAssistedBlindingPlayer => build_player_assisted_blinding_player(line, s, c),
        LineKind::SpawnedMolotov => build_spawned_molotov(line, s, c),
        LineKind::ThrewMolotov => build_threw_molotov(line, s, c),
        LineKind::PlayerConnected => build_player_connected(line, s, c),
        LineKind::ValidatedSteamID => build_validated_steam_id(line, s, c),
        LineKind::TeamScored => build_team_scored(line, s, c),
        LineKind::ThrewDecoy => build_threw_decoy(line, s, c),
        LineKind::MatchResumed => build_match_resumed(line, s, c),
        LineKind::MatchPaused => build_match_paused(line, s, c),
        LineKind::KilledByBomb => build_killed_by_bomb(line, s, c),
        LineKind::Accolade => build_accolade(line, s, c),
        LineKind::GameOver => build_game_over(line, s, c),
        LineKind::ChangedNickname => build_changed_nickname(line, s, c),
        LineKind::CommittedSuicide => build_committed_suicide(line, s, c),
        LineKind::ServerMessage => build_server_message(line, s, c),
        LineKind::SteamAuthFailure => build_steam_auth_failure(line, s, c),
        LineKind::MetaModPluginsLoaded => build_meta_mod_plugins_loaded(line, s, c),
        LineKind::CvarsStart | LineKind::CvarsEntry | LineKind::CvarsEnd => build_log_file_closed(
            line,
            s,
            c,
        ),
    }
}

} // verus!
