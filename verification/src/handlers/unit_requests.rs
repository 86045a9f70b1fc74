//! Moving a unit and creating a lord as sequences of steps: the checks in
//! order, their refusals, and what is scheduled or created.
use vstd::prelude::*;
use vstd::string::*;
use crate::dev::dev_config::{sped_up, DevConfig};
use crate::grid::{hex_distance, law_hex_distance, unsigned_distance, GridCell};
use crate::handlers::hamlet::lord_exists_text;
use crate::handlers::production::UnitLookup;
use crate::handlers::scheduling::{already_there_text, MOVE_MS_PER_CELL};

verus! {

/// Why a move is refused.
#[derive(Clone, Copy, PartialEq, Eq, Structural, Debug)]
pub enum MoveRefusal {
    UnitNotFound,
    NotYours,
    AlreadyThere,
    ScheduleFailed,
}

/// The message of a refused move; `detail` is the database error behind it,
/// where there is one.
pub open spec fn move_refusal_text(refusal: MoveRefusal, detail: Seq<char>) -> Seq<char> {
    match refusal {
        MoveRefusal::UnitNotFound => "Unité introuvable: "@ + detail,
        MoveRefusal::NotYours => "Cette unité ne vous appartient pas"@,
        MoveRefusal::AlreadyThere => already_there_text(),
        MoveRefusal::ScheduleFailed => "Échec de la planification: "@ + detail,
    }
}

/// The message sent to the player for a refused move.
pub fn move_refusal_message(refusal: MoveRefusal, detail: &str) -> (s: String)
    ensures
        s@ == move_refusal_text(refusal, detail@),
{
    match refusal {
        MoveRefusal::UnitNotFound => {
            let mut s = String::from_str("Unité introuvable: ");
            s.append(detail);
            s
        },
        MoveRefusal::NotYours => String::from_str("Cette unité ne vous appartient pas"),
        MoveRefusal::AlreadyThere => String::from_str("L'unité est déjà sur cette cellule"),
        MoveRefusal::ScheduleFailed => {
            let mut s = String::from_str("Échec de la planification: ");
            s.append(detail);
            s
        },
    }
}

/// Where a move stands.
#[derive(Clone, Copy, PartialEq, Eq, Structural, Debug)]
pub enum MoveState {
    LoadingUnit,
    CheckingControl { from: GridCell },
    ReadingClock { duration_ms: u64 },
    Scheduling { completion_time: u64 },
    Finished,
}

/// The outcome of the last action of a move.
#[derive(Clone, Copy, PartialEq, Eq, Structural, Debug)]
pub enum MoveEvent {
    /// The unit's cell, or `None` when the unit could not be loaded.
    Unit(Option<GridCell>),
    /// Whether the player controls the unit.
    Controls(bool),
    /// The current time, in seconds since the epoch.
    Clock(u64),
    /// The move was stored under this id, or storing it failed.
    Scheduled(Option<u64>),
}

/// What to do next in a move.
#[derive(Clone, Copy, PartialEq, Eq, Structural, Debug)]
pub enum MoveAction {
    Refuse(MoveRefusal),
    /// Check that the player controls the unit.
    CheckControl,
    ReadClock,
    /// Store the move, pending, from `start_time` for `duration_ms`.
    Schedule { start_time: u64, duration_ms: u64, completion_time: u64 },
    /// Send the player the move's pending status.
    AnnouncePending { action_id: u64, completion_time: u64 },
    Stop,
}

/// One step of a move to `target`: the unit is loaded, the player must
/// control it and it must not stand on the target already; the move lasts
/// two seconds per cell, sped up in dev mode.
pub open spec fn spec_move_step(speed_factor: u64, target: GridCell, s: MoveState, e: MoveEvent) -> (
    MoveState,
    MoveAction,
) {
    match (s, e) {
        (MoveState::LoadingUnit, MoveEvent::Unit(u)) => match u {
            Some(from) => (MoveState::CheckingControl { from }, MoveAction::CheckControl),
            None => (MoveState::Finished, MoveAction::Refuse(MoveRefusal::UnitNotFound)),
        },
        (MoveState::CheckingControl { from }, MoveEvent::Controls(ok)) => {
            if !ok {
                (MoveState::Finished, MoveAction::Refuse(MoveRefusal::NotYours))
            } else if hex_distance(from, target) == 0 {
                (MoveState::Finished, MoveAction::Refuse(MoveRefusal::AlreadyThere))
            } else {
                (
                    MoveState::ReadingClock {
                        duration_ms: sped_up(
                            speed_factor,
                            (hex_distance(from, target) * 2000) as u64,
                        ),
                    },
                    MoveAction::ReadClock,
                )
            }
        },
        (MoveState::ReadingClock { duration_ms }, MoveEvent::Clock(now)) => {
            let completion_time = (now + duration_ms / 1000) as u64;
            (
                MoveState::Scheduling { completion_time },
                MoveAction::Schedule { start_time: now, duration_ms, completion_time },
            )
        },
        (MoveState::Scheduling { completion_time }, MoveEvent::Scheduled(o)) => match o {
            Some(action_id) => (
                MoveState::Finished,
                MoveAction::AnnouncePending { action_id, completion_time },
            ),
            None => (MoveState::Finished, MoveAction::Refuse(MoveRefusal::ScheduleFailed)),
        },
        _ => (MoveState::Finished, MoveAction::Stop),
    }
}

/// One step of moving a unit to `target`; see `spec_move_step`.
pub fn move_step(dev: &DevConfig, target: GridCell, s: MoveState, e: MoveEvent) -> (r: (
    MoveState,
    MoveAction,
))
    requires
        s matches MoveState::ReadingClock { duration_ms } ==> (e matches MoveEvent::Clock(now)
            ==> now + duration_ms / 1000 <= u64::MAX),
    ensures
        r == spec_move_step(dev.speed_factor, target, s, e),
{
    match (s, e) {
        (MoveState::LoadingUnit, MoveEvent::Unit(u)) => match u {
            Some(from) => (MoveState::CheckingControl { from }, MoveAction::CheckControl),
            None => (MoveState::Finished, MoveAction::Refuse(MoveRefusal::UnitNotFound)),
        },
        (MoveState::CheckingControl { from }, MoveEvent::Controls(ok)) => {
            if !ok {
                (MoveState::Finished, MoveAction::Refuse(MoveRefusal::NotYours))
            } else {
                let d = unsigned_distance(&from, &target);
                if d == 0 {
                    (MoveState::Finished, MoveAction::Refuse(MoveRefusal::AlreadyThere))
                } else {
                    assert(d <= 0x3_0000_0000) by {
                        assert(hex_distance(from, target) <= 0x3_0000_0000);
                    }
                    (
                        MoveState::ReadingClock { duration_ms: dev.apply_speed(d * MOVE_MS_PER_CELL) },
                        MoveAction::ReadClock,
                    )
                }
            }
        },
        (MoveState::ReadingClock { duration_ms }, MoveEvent::Clock(now)) => {
            let completion_time = now + duration_ms / 1000;
            (
                MoveState::Scheduling { completion_time },
                MoveAction::Schedule { start_time: now, duration_ms, completion_time },
            )
        },
        (MoveState::Scheduling { completion_time }, MoveEvent::Scheduled(o)) => match o {
            Some(action_id) => (
                MoveState::Finished,
                MoveAction::AnnouncePending { action_id, completion_time },
            ),
            None => (MoveState::Finished, MoveAction::Refuse(MoveRefusal::ScheduleFailed)),
        },
        _ => (MoveState::Finished, MoveAction::Stop),
    }
}

/// Why creating a lord is refused.
#[derive(Clone, Copy, PartialEq, Eq, Structural, Debug)]
pub enum LordRefusal {
    AlreadyHasLord,
    LookupFailed,
    PlayerMissing,
    CreationFailed,
    LoadFailed,
}

/// The message of a refused lord creation; `detail` is the database error
/// behind it, where there is one.
pub open spec fn lord_refusal_text(refusal: LordRefusal, detail: Seq<char>) -> Seq<char> {
    match refusal {
        LordRefusal::AlreadyHasLord => lord_exists_text(),
        LordRefusal::LookupFailed => "Erreur: "@ + detail,
        LordRefusal::PlayerMissing => "Joueur introuvable"@,
        LordRefusal::CreationFailed => "Erreur lors de la création: "@ + detail,
        LordRefusal::LoadFailed => "Lord créé mais erreur au chargement: "@ + detail,
    }
}

/// The message sent to the player for a refused lord creation.
pub fn lord_refusal_message(refusal: LordRefusal, detail: &str) -> (s: String)
    ensures
        s@ == lord_refusal_text(refusal, detail@),
{
    match refusal {
        LordRefusal::AlreadyHasLord => String::from_str("Vous avez déjà un Lord/Lady"),
        LordRefusal::LookupFailed => {
            let mut s = String::from_str("Erreur: ");
            s.append(detail);
            s
        },
        LordRefusal::PlayerMissing => String::from_str("Joueur introuvable"),
        LordRefusal::CreationFailed => {
            let mut s = String::from_str("Erreur lors de la création: ");
            s.append(detail);
            s
        },
        LordRefusal::LoadFailed => {
            let mut s = String::from_str("Lord créé mais erreur au chargement: ");
            s.append(detail);
            s
        },
    }
}

/// Where a lord creation stands.
#[derive(Clone, Copy, PartialEq, Eq, Structural, Debug)]
pub enum LordState {
    CheckingLord,
    ReadingFamily,
    Creating,
    Loading { unit: u64 },
    Finished,
}

/// The outcome of the last action of a lord creation.
#[derive(Clone, Copy, PartialEq, Eq, Structural, Debug)]
pub enum LordEvent {
    Lord(UnitLookup),
    /// Whether the player's family name was found.
    FamilyName(bool),
    /// The new unit's id, or `None` when its creation failed.
    Created(Option<u64>),
    /// Whether the new unit could be loaded back.
    Loaded(bool),
}

/// What to do next in a lord creation.
#[derive(Clone, Copy, PartialEq, Eq, Structural, Debug)]
pub enum LordAction {
    Refuse(LordRefusal),
    /// Read the player's family name.
    ReadFamilyName,
    /// Create the lord unit of the player, of its family, on `cell` of
    /// `chunk`, with the avatar `lord_avatar(gender, player)`.
    CreateLord { cell: GridCell, chunk_x: i32, chunk_y: i32 },
    /// Record the character, then load the unit back.
    RecordAndLoad(u64),
    /// Send the player the new lord.
    AnnounceLord(u64),
    Stop,
}

/// One step of creating a lord: the player must have none (a failed lookup
/// refuses too), and its family name must be found; the lord starts on cell
/// (0, 0) of chunk (0, 0).
pub open spec fn spec_lord_step(s: LordState, e: LordEvent) -> (LordState, LordAction) {
    match (s, e) {
        (LordState::CheckingLord, LordEvent::Lord(l)) => match l {
            UnitLookup::Missing => (LordState::ReadingFamily, LordAction::ReadFamilyName),
            UnitLookup::Found(_) => (
                LordState::Finished,
                LordAction::Refuse(LordRefusal::AlreadyHasLord),
            ),
            UnitLookup::Failed => (
                LordState::Finished,
                LordAction::Refuse(LordRefusal::LookupFailed),
            ),
        },
        (LordState::ReadingFamily, LordEvent::FamilyName(found)) => {
            if found {
                (
                    LordState::Creating,
                    LordAction::CreateLord { cell: GridCell { q: 0, r: 0 }, chunk_x: 0, chunk_y: 0 },
                )
            } else {
                (LordState::Finished, LordAction::Refuse(LordRefusal::PlayerMissing))
            }
        },
        (LordState::Creating, LordEvent::Created(c)) => match c {
            Some(unit) => (LordState::Loading { unit }, LordAction::RecordAndLoad(unit)),
            None => (LordState::Finished, LordAction::Refuse(LordRefusal::CreationFailed)),
        },
        (LordState::Loading { unit }, LordEvent::Loaded(ok)) => {
            if ok {
                (LordState::Finished, LordAction::AnnounceLord(unit))
            } else {
                (LordState::Finished, LordAction::Refuse(LordRefusal::LoadFailed))
            }
        },
        _ => (LordState::Finished, LordAction::Stop),
    }
}

/// One step of creating a lord; see `spec_lord_step`.
pub fn lord_step(s: LordState, e: LordEvent) -> (r: (LordState, LordAction))
    ensures
        r == spec_lord_step(s, e),
{
    match (s, e) {
        (LordState::CheckingLord, LordEvent::Lord(l)) => match l {
            UnitLookup::Missing => (LordState::ReadingFamily, LordAction::ReadFamilyName),
            UnitLookup::Found(_) => (
                LordState::Finished,
                LordAction::Refuse(LordRefusal::AlreadyHasLord),
            ),
            UnitLookup::Failed => (
                LordState::Finished,
                LordAction::Refuse(LordRefusal::LookupFailed),
            ),
        },
        (LordState::ReadingFamily, LordEvent::FamilyName(found)) => {
            if found {
                (
                    LordState::Creating,
                    LordAction::CreateLord { cell: GridCell { q: 0, r: 0 }, chunk_x: 0, chunk_y: 0 },
                )
            } else {
                (LordState::Finished, LordAction::Refuse(LordRefusal::PlayerMissing))
            }
        },
        (LordState::Creating, LordEvent::Created(c)) => match c {
            Some(unit) => (LordState::Loading { unit }, LordAction::RecordAndLoad(unit)),
            None => (LordState::Finished, LordAction::Refuse(LordRefusal::CreationFailed)),
        },
        (LordState::Loading { unit }, LordEvent::Loaded(ok)) => {
            if ok {
                (LordState::Finished, LordAction::AnnounceLord(unit))
            } else {
                (LordState::Finished, LordAction::Refuse(LordRefusal::LoadFailed))
            }
        },
        _ => (LordState::Finished, LordAction::Stop),
    }
}

/// Law: a refused move or lord creation stops there, and a move is stored
/// only after the player's control of the unit was checked.
pub proof fn law_unit_request_steps(
    speed_factor: u64,
    target: GridCell,
    ms: MoveState,
    me: MoveEvent,
    ls: LordState,
    le: LordEvent,
)
    ensures
        spec_move_step(speed_factor, target, ms, me).1 is Refuse ==> spec_move_step(
            speed_factor,
            target,
            ms,
            me,
        ).0 == MoveState::Finished,
        spec_move_step(speed_factor, target, ms, me).0 is ReadingClock ==> ms is CheckingControl
            && me == MoveEvent::Controls(true),
        spec_lord_step(ls, le).1 is Refuse ==> spec_lord_step(ls, le).0 == LordState::Finished,
        spec_lord_step(ls, le).1 is CreateLord ==> ls == LordState::ReadingFamily,
{
}

/// Law: a move loads the unit (an unloadable unit is refused), then checks
/// that the player controls it (else refused), then refuses a target the
/// unit stands on; any other target is timed at two seconds per hex cell
/// between the unit and the target (at normal speed), then stored from the
/// clock reading, and announced pending, or refused when storing failed.
pub proof fn law_move_flow(
    speed_factor: u64,
    target: GridCell,
    from: GridCell,
    unit: Option<GridCell>,
    duration_ms: u64,
    now: u64,
    completion_time: u64,
    stored: Option<u64>,
)
    ensures
        spec_move_step(speed_factor, target, MoveState::LoadingUnit, MoveEvent::Unit(unit)) == match unit {
            Some(f) => (MoveState::CheckingControl { from: f }, MoveAction::CheckControl),
            None => (MoveState::Finished, MoveAction::Refuse(MoveRefusal::UnitNotFound)),
        },
        spec_move_step(speed_factor, target, MoveState::CheckingControl { from }, MoveEvent::Controls(false))
            == (MoveState::Finished, MoveAction::Refuse(MoveRefusal::NotYours)),
        spec_move_step(speed_factor, from, MoveState::CheckingControl { from }, MoveEvent::Controls(true))
            == (MoveState::Finished, MoveAction::Refuse(MoveRefusal::AlreadyThere)),
        from != target ==> spec_move_step(
            speed_factor,
            target,
            MoveState::CheckingControl { from },
            MoveEvent::Controls(true),
        ) == (
            MoveState::ReadingClock {
                duration_ms: sped_up(speed_factor, (2000 * hex_distance(from, target)) as u64),
            },
            MoveAction::ReadClock,
        ),
        from != target && speed_factor <= 1 ==> spec_move_step(
            speed_factor,
            target,
            MoveState::CheckingControl { from },
            MoveEvent::Controls(true),
        ).0 == (MoveState::ReadingClock { duration_ms: (2000 * hex_distance(from, target)) as u64 }),
        spec_move_step(speed_factor, target, MoveState::ReadingClock { duration_ms }, MoveEvent::Clock(now))
            == (
            MoveState::Scheduling { completion_time: (now + duration_ms / 1000) as u64 },
            MoveAction::Schedule {
                start_time: now,
                duration_ms,
                completion_time: (now + duration_ms / 1000) as u64,
            },
        ),
        spec_move_step(speed_factor, target, MoveState::Scheduling { completion_time }, MoveEvent::Scheduled(stored))
            == match stored {
            Some(action_id) => (MoveState::Finished, MoveAction::AnnouncePending { action_id, completion_time }),
            None => (MoveState::Finished, MoveAction::Refuse(MoveRefusal::ScheduleFailed)),
        },
{
    law_hex_distance(from, target, from);
    law_hex_distance(from, from, from);
}

/// Law: a lord is created only for a player without one (one already there,
/// or a failed lookup, is refused), whose family name is found (else
/// refused), on cell (0, 0) of chunk (0, 0); a failed creation is refused;
/// the created unit is recorded and loaded, then announced, or refused when
/// it cannot be loaded.
pub proof fn law_lord_flow(l: UnitLookup, found: bool, created: Option<u64>, unit: u64, loaded: bool)
    ensures
        spec_lord_step(LordState::CheckingLord, LordEvent::Lord(l)) == match l {
            UnitLookup::Missing => (LordState::ReadingFamily, LordAction::ReadFamilyName),
            UnitLookup::Found(_) => (LordState::Finished, LordAction::Refuse(LordRefusal::AlreadyHasLord)),
            UnitLookup::Failed => (LordState::Finished, LordAction::Refuse(LordRefusal::LookupFailed)),
        },
        spec_lord_step(LordState::ReadingFamily, LordEvent::FamilyName(found)) == if found {
            (
                LordState::Creating,
                LordAction::CreateLord { cell: GridCell { q: 0, r: 0 }, chunk_x: 0, chunk_y: 0 },
            )
        } else {
            (LordState::Finished, LordAction::Refuse(LordRefusal::PlayerMissing))
        },
        spec_lord_step(LordState::Creating, LordEvent::Created(created)) == match created {
            Some(u) => (LordState::Loading { unit: u }, LordAction::RecordAndLoad(u)),
            None => (LordState::Finished, LordAction::Refuse(LordRefusal::CreationFailed)),
        },
        spec_lord_step(LordState::Loading { unit }, LordEvent::Loaded(loaded)) == if loaded {
            (LordState::Finished, LordAction::AnnounceLord(unit))
        } else {
            (LordState::Finished, LordAction::Refuse(LordRefusal::LoadFailed))
        },
{
}

} // verus!
