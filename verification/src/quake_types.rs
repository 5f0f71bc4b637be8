//! The engine's data types that the library reads and writes, modelled as plain
//! values: the enumerations of the game code, the indices into the player state
//! arrays and the bit flags.
use vstd::prelude::*;

verus! {

/// Number of slots in the `stats` array of a player state.
pub const MAX_STATS: usize = 16;
/// Number of slots in the `persistant` array of a player state.
pub const MAX_PERSISTANT: usize = 16;
/// Number of slots in the `powerups` array of a player state.
pub const MAX_POWERUPS: usize = 16;
/// Number of slots in the `ammo` array of a player state.
pub const MAX_WEAPONS: usize = 16;
/// Number of game entities the engine keeps.
pub const MAX_GENTITIES: u32 = 1024;
/// Number of client slots of a server.
pub const MAX_CLIENTS: u32 = 64;

/// Index of the held item in `stats`.
pub const STAT_HOLDABLE_ITEM: usize = 1;
/// Index of the weapon bit set in `stats`.
pub const STAT_WEAPONS: usize = 3;
/// Index of the armor value in `stats`.
pub const STAT_ARMOR: usize = 4;
/// Index of the flight thrust in `stats`.
pub const STAT_FLIGHT_THRUST: usize = 9;
/// Index of the maximal flight fuel in `stats`.
pub const STAT_MAX_FLIGHT_FUEL: usize = 10;
/// Index of the current flight fuel in `stats`.
pub const STAT_CUR_FLIGHT_FUEL: usize = 11;
/// Index of the flight refuel rate in `stats`.
pub const STAT_FLIGHT_REFUEL: usize = 12;

/// Index of the round score in `persistant`.
pub const PERS_ROUND_SCORE: usize = 0;

/// Entity flag: the entity is dead.
pub const EF_DEAD: i32 = 0x1;
/// Entity flag: the player carries an activated kamikaze.
pub const EF_KAMIKAZE: i32 = 0x200;
/// Entity flag: the player is typing a chat message.
pub const EF_TALK: i32 = 0x1000;

/// Game entity flag: the item was dropped by a player.
pub const FL_DROPPED_ITEM: i32 = 0x1000;
/// Game entity flag: forced gesture.
pub const FL_FORCE_GESTURE: i32 = 0x8000;

/// Damage flag: the damage ignores every protection.
pub const DAMAGE_NO_PROTECTION: i32 = 0x8;

/// Item list index of the teleporter holdable.
pub const MODELINDEX_TELEPORTER: i32 = 27;
/// Item list index of the kamikaze holdable.
pub const MODELINDEX_KAMIKAZE: i32 = 37;

/// Configstring that lists which items the clients have to load.
pub const CS_ITEMS: u32 = 15;

/// The team of a client.
#[derive(Clone, Copy, Debug, PartialEq, Eq, Structural)]
pub enum team_t {
    TEAM_FREE,
    TEAM_RED,
    TEAM_BLUE,
    TEAM_SPECTATOR,
}

/// The number the engine stores for a team.
pub open spec fn team_number(team: team_t) -> i32 {
    match team {
        team_t::TEAM_FREE => 0,
        team_t::TEAM_RED => 1,
        team_t::TEAM_BLUE => 2,
        team_t::TEAM_SPECTATOR => 3,
    }
}

impl team_t {
    /// The number the engine stores for this team.
    pub fn number(self) -> (r: i32)
        ensures
            r == team_number(self),
    {
        match self {
            team_t::TEAM_FREE => 0,
            team_t::TEAM_RED => 1,
            team_t::TEAM_BLUE => 2,
            team_t::TEAM_SPECTATOR => 3,
        }
    }
}

/// The privileges of a client.
#[derive(Clone, Copy, Debug, PartialEq, Eq, Structural)]
pub enum privileges_t {
    PRIV_BANNED,
    PRIV_NONE,
    PRIV_MOD,
    PRIV_ADMIN,
    PRIV_ROOT,
}

/// The number the engine stores for a privilege level.
pub open spec fn privileges_number(privileges: privileges_t) -> i32 {
    match privileges {
        privileges_t::PRIV_BANNED => -1i32,
        privileges_t::PRIV_NONE => 0,
        privileges_t::PRIV_MOD => 1,
        privileges_t::PRIV_ADMIN => 2,
        privileges_t::PRIV_ROOT => 3,
    }
}

/// The privilege level that a stored number stands for: every number that
/// names no level counts as no privileges.
pub open spec fn privileges_of_number(value: i32) -> privileges_t {
    if value == -1 {
        privileges_t::PRIV_BANNED
    } else if value == 1 {
        privileges_t::PRIV_MOD
    } else if value == 2 {
        privileges_t::PRIV_ADMIN
    } else if value == 3 {
        privileges_t::PRIV_ROOT
    } else {
        privileges_t::PRIV_NONE
    }
}

impl privileges_t {
    /// The number the engine stores for this privilege level.
    pub fn number(self) -> (r: i32)
        ensures
            r == privileges_number(self),
    {
        match self {
            privileges_t::PRIV_BANNED => -1,
            privileges_t::PRIV_NONE => 0,
            privileges_t::PRIV_MOD => 1,
            privileges_t::PRIV_ADMIN => 2,
            privileges_t::PRIV_ROOT => 3,
        }
    }

    /// The privilege level that a stored number stands for.
    pub fn from_number(value: i32) -> (r: privileges_t)
        ensures
            r == privileges_of_number(value),
    {
        if value == -1 {
            privileges_t::PRIV_BANNED
        } else if value == 1 {
            privileges_t::PRIV_MOD
        } else if value == 2 {
            privileges_t::PRIV_ADMIN
        } else if value == 3 {
            privileges_t::PRIV_ROOT
        } else {
            privileges_t::PRIV_NONE
        }
    }
}

/// Converting a privilege level to its number and back gives the level again.
pub proof fn lemma_privileges_number_roundtrip(privileges: privileges_t)
    ensures
        privileges_of_number(privileges_number(privileges)) == privileges,
{
}

/// The connection state of a game client.
#[derive(Clone, Copy, Debug, PartialEq, Eq, Structural)]
pub enum clientConnected_t {
    CON_DISCONNECTED,
    CON_CONNECTING,
    CON_CONNECTED,
}

/// The movement type of a player.
#[derive(Clone, Copy, Debug, PartialEq, Eq, Structural)]
pub enum pmtype_t {
    PM_NORMAL,
    PM_NOCLIP,
    PM_SPECTATOR,
    PM_DEAD,
    PM_FREEZE,
    PM_INTERMISSION,
    PM_TUTORIAL,
}

/// The vote a client cast in the running vote.
#[derive(Clone, Copy, Debug, PartialEq, Eq, Structural)]
pub enum voteState_t {
    VOTE_NONE,
    VOTE_PENDING,
    VOTE_YES,
    VOTE_NO,
    VOTE_FORCE_YES,
    VOTE_FORCE_NO,
}

/// The weapons of the game, in the engine's order.
#[derive(Clone, Copy, Debug, PartialEq, Eq, Structural)]
pub enum weapon_t {
    WP_NONE,
    WP_GAUNTLET,
    WP_MACHINEGUN,
    WP_SHOTGUN,
    WP_GRENADE_LAUNCHER,
    WP_ROCKET_LAUNCHER,
    WP_LIGHTNING,
    WP_RAILGUN,
    WP_PLASMAGUN,
    WP_BFG,
    WP_GRAPPLING_HOOK,
    WP_NAILGUN,
    WP_PROX_LAUNCHER,
    WP_CHAINGUN,
    WP_HMG,
    WP_HANDS,
}

/// The number the engine stores for a weapon.
pub open spec fn weapon_number(weapon: weapon_t) -> i32 {
    match weapon {
        weapon_t::WP_NONE => 0,
        weapon_t::WP_GAUNTLET => 1,
        weapon_t::WP_MACHINEGUN => 2,
        weapon_t::WP_SHOTGUN => 3,
        weapon_t::WP_GRENADE_LAUNCHER => 4,
        weapon_t::WP_ROCKET_LAUNCHER => 5,
        weapon_t::WP_LIGHTNING => 6,
        weapon_t::WP_RAILGUN => 7,
        weapon_t::WP_PLASMAGUN => 8,
        weapon_t::WP_BFG => 9,
        weapon_t::WP_GRAPPLING_HOOK => 10,
        weapon_t::WP_NAILGUN => 11,
        weapon_t::WP_PROX_LAUNCHER => 12,
        weapon_t::WP_CHAINGUN => 13,
        weapon_t::WP_HMG => 14,
        weapon_t::WP_HANDS => 15,
    }
}

/// The weapon that a stored number stands for; a number outside `0..=15`
/// stands for no weapon.
pub open spec fn weapon_of_number(value: i32) -> weapon_t {
    if value == 1 {
        weapon_t::WP_GAUNTLET
    } else if value == 2 {
        weapon_t::WP_MACHINEGUN
    } else if value == 3 {
        weapon_t::WP_SHOTGUN
    } else if value == 4 {
        weapon_t::WP_GRENADE_LAUNCHER
    } else if value == 5 {
        weapon_t::WP_ROCKET_LAUNCHER
    } else if value == 6 {
        weapon_t::WP_LIGHTNING
    } else if value == 7 {
        weapon_t::WP_RAILGUN
    } else if value == 8 {
        weapon_t::WP_PLASMAGUN
    } else if value == 9 {
        weapon_t::WP_BFG
    } else if value == 10 {
        weapon_t::WP_GRAPPLING_HOOK
    } else if value == 11 {
        weapon_t::WP_NAILGUN
    } else if value == 12 {
        weapon_t::WP_PROX_LAUNCHER
    } else if value == 13 {
        weapon_t::WP_CHAINGUN
    } else if value == 14 {
        weapon_t::WP_HMG
    } else if value == 15 {
        weapon_t::WP_HANDS
    } else {
        weapon_t::WP_NONE
    }
}

impl weapon_t {
    /// The number the engine stores for this weapon.
    pub fn number(self) -> (r: i32)
        ensures
            r == weapon_number(self),
    {
        match self {
            weapon_t::WP_NONE => 0,
            weapon_t::WP_GAUNTLET => 1,
            weapon_t::WP_MACHINEGUN => 2,
            weapon_t::WP_SHOTGUN => 3,
            weapon_t::WP_GRENADE_LAUNCHER => 4,
            weapon_t::WP_ROCKET_LAUNCHER => 5,
            weapon_t::WP_LIGHTNING => 6,
            weapon_t::WP_RAILGUN => 7,
            weapon_t::WP_PLASMAGUN => 8,
            weapon_t::WP_BFG => 9,
            weapon_t::WP_GRAPPLING_HOOK => 10,
            weapon_t::WP_NAILGUN => 11,
            weapon_t::WP_PROX_LAUNCHER => 12,
            weapon_t::WP_CHAINGUN => 13,
            weapon_t::WP_HMG => 14,
            weapon_t::WP_HANDS => 15,
        }
    }

    /// The weapon that a stored number stands for, `WP_NONE` for a number
    /// that names no weapon.
    pub fn from_number(value: i32) -> (r: weapon_t)
        ensures
            r == weapon_of_number(value),
    {
        if value == 1 {
            weapon_t::WP_GAUNTLET
        } else if value == 2 {
            weapon_t::WP_MACHINEGUN
        } else if value == 3 {
            weapon_t::WP_SHOTGUN
        } else if value == 4 {
            weapon_t::WP_GRENADE_LAUNCHER
        } else if value == 5 {
            weapon_t::WP_ROCKET_LAUNCHER
        } else if value == 6 {
            weapon_t::WP_LIGHTNING
        } else if value == 7 {
            weapon_t::WP_RAILGUN
        } else if value == 8 {
            weapon_t::WP_PLASMAGUN
        } else if value == 9 {
            weapon_t::WP_BFG
        } else if value == 10 {
            weapon_t::WP_GRAPPLING_HOOK
        } else if value == 11 {
            weapon_t::WP_NAILGUN
        } else if value == 12 {
            weapon_t::WP_PROX_LAUNCHER
        } else if value == 13 {
            weapon_t::WP_CHAINGUN
        } else if value == 14 {
            weapon_t::WP_HMG
        } else if value == 15 {
            weapon_t::WP_HANDS
        } else {
            weapon_t::WP_NONE
        }
    }
}

/// Storing a weapon's number and reading it back gives the weapon again.
pub proof fn lemma_weapon_number_roundtrip(weapon: weapon_t)
    ensures
        weapon_of_number(weapon_number(weapon)) == weapon,
{
}

/// The powerups of the game, in the engine's order.
#[derive(Clone, Copy, Debug, PartialEq, Eq, Structural)]
pub enum powerup_t {
    PW_NONE,
    PW_REDFLAG,
    PW_BLUEFLAG,
    PW_NEUTRALFLAG,
    PW_QUAD,
    PW_BATTLESUIT,
    PW_HASTE,
    PW_INVIS,
    PW_REGEN,
    PW_FLIGHT,
    PW_INVULNERABILITY,
    NOTPW_SCOUT,
    NOTPW_GUARD,
    NOTPW_DOUBLER,
    NOTPW_ARMORREGEN,
    PW_FREEZE,
}

/// The slot in the `powerups` array of the powerup at position `position` of
/// the six powerups that the scripting interface exposes (quad damage,
/// battle suit, haste, invisibility, regeneration, invulnerability).
pub open spec fn exposed_powerup_slot(position: int) -> int {
    if position == 0 {
        4
    } else if position == 1 {
        5
    } else if position == 2 {
        6
    } else if position == 3 {
        7
    } else if position == 4 {
        8
    } else if position == 5 {
        10
    } else {
        0
    }
}

/// The slot in the `powerups` array of the exposed powerup at `position`;
/// `PW_NONE`'s slot for any other position.
pub fn powerup_index(position: usize) -> (r: usize)
    ensures
        r == exposed_powerup_slot(position as int),
        r < MAX_POWERUPS,
{
    if position == 0 {
        4
    } else if position == 1 {
        5
    } else if position == 2 {
        6
    } else if position == 3 {
        7
    } else if position == 4 {
        8
    } else if position == 5 {
        10
    } else {
        0
    }
}

/// The six exposed powerups occupy six different slots.
pub proof fn lemma_exposed_powerup_slots_distinct(i: int, j: int)
    requires
        0 <= i < 6,
        0 <= j < 6,
        i != j,
    ensures
        exposed_powerup_slot(i) != exposed_powerup_slot(j),
{
}

/// The causes of death of the game, in the engine's order.
#[derive(Clone, Copy, Debug, PartialEq, Eq, Structural)]
pub enum meansOfDeath_t {
    MOD_UNKNOWN,
    MOD_SHOTGUN,
    MOD_GAUNTLET,
    MOD_MACHINEGUN,
    MOD_GRENADE,
    MOD_GRENADE_SPLASH,
    MOD_ROCKET,
    MOD_ROCKET_SPLASH,
    MOD_PLASMA,
    MOD_PLASMA_SPLASH,
    MOD_RAILGUN,
    MOD_LIGHTNING,
    MOD_BFG,
    MOD_BFG_SPLASH,
    MOD_WATER,
    MOD_SLIME,
    MOD_LAVA,
    MOD_CRUSH,
    MOD_TELEFRAG,
    MOD_FALLING,
    MOD_SUICIDE,
    MOD_TARGET_LASER,
    MOD_TRIGGER_HURT,
    MOD_NAIL,
    MOD_CHAINGUN,
    MOD_PROXIMITY_MINE,
    MOD_KAMIKAZE,
    MOD_JUICED,
    MOD_GRAPPLE,
    MOD_SWITCH_TEAMS,
    MOD_THAW,
    MOD_LIGHTNING_DISCHARGE,
    MOD_HMG,
    MOD_RAILGUN_HEADSHOT,
}

/// The kinds of entities.
#[derive(Clone, Copy, Debug, PartialEq, Eq, Structural)]
pub enum entityType_t {
    ET_GENERAL,
    ET_PLAYER,
    ET_ITEM,
    ET_MISSILE,
    ET_MOVER,
    ET_BEAM,
    ET_PORTAL,
    ET_SPEAKER,
    ET_PUSH_TRIGGER,
    ET_TELEPORT_TRIGGER,
    ET_INVISIBLE,
    ET_GRAPPLE,
    ET_TEAM,
    ET_EVENTS,
}

/// The number the engine stores for an entity kind.
pub open spec fn entity_type_number(kind: entityType_t) -> i32 {
    match kind {
        entityType_t::ET_GENERAL => 0,
        entityType_t::ET_PLAYER => 1,
        entityType_t::ET_ITEM => 2,
        entityType_t::ET_MISSILE => 3,
        entityType_t::ET_MOVER => 4,
        entityType_t::ET_BEAM => 5,
        entityType_t::ET_PORTAL => 6,
        entityType_t::ET_SPEAKER => 7,
        entityType_t::ET_PUSH_TRIGGER => 8,
        entityType_t::ET_TELEPORT_TRIGGER => 9,
        entityType_t::ET_INVISIBLE => 10,
        entityType_t::ET_GRAPPLE => 11,
        entityType_t::ET_TEAM => 12,
        entityType_t::ET_EVENTS => 13,
    }
}

impl entityType_t {
    /// The number the engine stores for this entity kind.
    pub fn number(self) -> (r: i32)
        ensures
            r == entity_type_number(self),
    {
        match self {
            entityType_t::ET_GENERAL => 0,
            entityType_t::ET_PLAYER => 1,
            entityType_t::ET_ITEM => 2,
            entityType_t::ET_MISSILE => 3,
            entityType_t::ET_MOVER => 4,
            entityType_t::ET_BEAM => 5,
            entityType_t::ET_PORTAL => 6,
            entityType_t::ET_SPEAKER => 7,
            entityType_t::ET_PUSH_TRIGGER => 8,
            entityType_t::ET_TELEPORT_TRIGGER => 9,
            entityType_t::ET_INVISIBLE => 10,
            entityType_t::ET_GRAPPLE => 11,
            entityType_t::ET_TEAM => 12,
            entityType_t::ET_EVENTS => 13,
        }
    }
}

/// The kinds of items.
#[derive(Clone, Copy, Debug, PartialEq, Eq, Structural)]
pub enum itemType_t {
    IT_BAD,
    IT_WEAPON,
    IT_AMMO,
    IT_ARMOR,
    IT_HEALTH,
    IT_POWERUP,
    IT_HOLDABLE,
    IT_PERSISTANT_POWERUP,
    IT_TEAM,
}

/// The connection state of a server-side client slot.
#[derive(Clone, Copy, Debug, PartialEq, Eq, Structural)]
pub enum clientState_t {
    CS_FREE,
    CS_ZOMBIE,
    CS_CONNECTED,
    CS_PRIMED,
    CS_ACTIVE,
}

/// The number the engine stores for a client slot's state.
pub open spec fn client_state_number(state: clientState_t) -> i32 {
    match state {
        clientState_t::CS_FREE => 0,
        clientState_t::CS_ZOMBIE => 1,
        clientState_t::CS_CONNECTED => 2,
        clientState_t::CS_PRIMED => 3,
        clientState_t::CS_ACTIVE => 4,
    }
}

impl clientState_t {
    /// The number the engine stores for this state.
    pub fn number(self) -> (r: i32)
        ensures
            r == client_state_number(self),
    {
        match self {
            clientState_t::CS_FREE => 0,
            clientState_t::CS_ZOMBIE => 1,
            clientState_t::CS_CONNECTED => 2,
            clientState_t::CS_PRIMED => 3,
            clientState_t::CS_ACTIVE => 4,
        }
    }
}

/// The cause of death that a stored number stands for, where it names one.
pub open spec fn means_of_death_of_number(value: i32) -> Option<meansOfDeath_t> {
    if value == 0 { Some(meansOfDeath_t::MOD_UNKNOWN) }
    else if value == 1 { Some(meansOfDeath_t::MOD_SHOTGUN) }
    else if value == 2 { Some(meansOfDeath_t::MOD_GAUNTLET) }
    else if value == 3 { Some(meansOfDeath_t::MOD_MACHINEGUN) }
    else if value == 4 { Some(meansOfDeath_t::MOD_GRENADE) }
    else if value == 5 { Some(meansOfDeath_t::MOD_GRENADE_SPLASH) }
    else if value == 6 { Some(meansOfDeath_t::MOD_ROCKET) }
    else if value == 7 { Some(meansOfDeath_t::MOD_ROCKET_SPLASH) }
    else if value == 8 { Some(meansOfDeath_t::MOD_PLASMA) }
    else if value == 9 { Some(meansOfDeath_t::MOD_PLASMA_SPLASH) }
    else if value == 10 { Some(meansOfDeath_t::MOD_RAILGUN) }
    else if value == 11 { Some(meansOfDeath_t::MOD_LIGHTNING) }
    else if value == 12 { Some(meansOfDeath_t::MOD_BFG) }
    else if value == 13 { Some(meansOfDeath_t::MOD_BFG_SPLASH) }
    else if value == 14 { Some(meansOfDeath_t::MOD_WATER) }
    else if value == 15 { Some(meansOfDeath_t::MOD_SLIME) }
    else if value == 16 { Some(meansOfDeath_t::MOD_LAVA) }
    else if value == 17 { Some(meansOfDeath_t::MOD_CRUSH) }
    else if value == 18 { Some(meansOfDeath_t::MOD_TELEFRAG) }
    else if value == 19 { Some(meansOfDeath_t::MOD_FALLING) }
    else if value == 20 { Some(meansOfDeath_t::MOD_SUICIDE) }
    else if value == 21 { Some(meansOfDeath_t::MOD_TARGET_LASER) }
    else if value == 22 { Some(meansOfDeath_t::MOD_TRIGGER_HURT) }
    else if value == 23 { Some(meansOfDeath_t::MOD_NAIL) }
    else if value == 24 { Some(meansOfDeath_t::MOD_CHAINGUN) }
    else if value == 25 { Some(meansOfDeath_t::MOD_PROXIMITY_MINE) }
    else if value == 26 { Some(meansOfDeath_t::MOD_KAMIKAZE) }
    else if value == 27 { Some(meansOfDeath_t::MOD_JUICED) }
    else if value == 28 { Some(meansOfDeath_t::MOD_GRAPPLE) }
    else if value == 29 { Some(meansOfDeath_t::MOD_SWITCH_TEAMS) }
    else if value == 30 { Some(meansOfDeath_t::MOD_THAW) }
    else if value == 31 { Some(meansOfDeath_t::MOD_LIGHTNING_DISCHARGE) }
    else if value == 32 { Some(meansOfDeath_t::MOD_HMG) }
    else if value == 33 { Some(meansOfDeath_t::MOD_RAILGUN_HEADSHOT) }
    else { None }
}

impl meansOfDeath_t {
    /// The cause of death that a stored number stands for, where it names one.
    pub fn try_from_number(value: i32) -> (r: Option<meansOfDeath_t>)
        ensures
            r == means_of_death_of_number(value),
    {
        if value == 0 { Some(meansOfDeath_t::MOD_UNKNOWN) }
        else if value == 1 { Some(meansOfDeath_t::MOD_SHOTGUN) }
        else if value == 2 { Some(meansOfDeath_t::MOD_GAUNTLET) }
        else if value == 3 { Some(meansOfDeath_t::MOD_MACHINEGUN) }
        else if value == 4 { Some(meansOfDeath_t::MOD_GRENADE) }
        else if value == 5 { Some(meansOfDeath_t::MOD_GRENADE_SPLASH) }
        else if value == 6 { Some(meansOfDeath_t::MOD_ROCKET) }
        else if value == 7 { Some(meansOfDeath_t::MOD_ROCKET_SPLASH) }
        else if value == 8 { Some(meansOfDeath_t::MOD_PLASMA) }
        else if value == 9 { Some(meansOfDeath_t::MOD_PLASMA_SPLASH) }
        else if value == 10 { Some(meansOfDeath_t::MOD_RAILGUN) }
        else if value == 11 { Some(meansOfDeath_t::MOD_LIGHTNING) }
        else if value == 12 { Some(meansOfDeath_t::MOD_BFG) }
        else if value == 13 { Some(meansOfDeath_t::MOD_BFG_SPLASH) }
        else if value == 14 { Some(meansOfDeath_t::MOD_WATER) }
        else if value == 15 { Some(meansOfDeath_t::MOD_SLIME) }
        else if value == 16 { Some(meansOfDeath_t::MOD_LAVA) }
        else if value == 17 { Some(meansOfDeath_t::MOD_CRUSH) }
        else if value == 18 { Some(meansOfDeath_t::MOD_TELEFRAG) }
        else if value == 19 { Some(meansOfDeath_t::MOD_FALLING) }
        else if value == 20 { Some(meansOfDeath_t::MOD_SUICIDE) }
        else if value == 21 { Some(meansOfDeath_t::MOD_TARGET_LASER) }
        else if value == 22 { Some(meansOfDeath_t::MOD_TRIGGER_HURT) }
        else if value == 23 { Some(meansOfDeath_t::MOD_NAIL) }
        else if value == 24 { Some(meansOfDeath_t::MOD_CHAINGUN) }
        else if value == 25 { Some(meansOfDeath_t::MOD_PROXIMITY_MINE) }
        else if value == 26 { Some(meansOfDeath_t::MOD_KAMIKAZE) }
        else if value == 27 { Some(meansOfDeath_t::MOD_JUICED) }
        else if value == 28 { Some(meansOfDeath_t::MOD_GRAPPLE) }
        else if value == 29 { Some(meansOfDeath_t::MOD_SWITCH_TEAMS) }
        else if value == 30 { Some(meansOfDeath_t::MOD_THAW) }
        else if value == 31 { Some(meansOfDeath_t::MOD_LIGHTNING_DISCHARGE) }
        else if value == 32 { Some(meansOfDeath_t::MOD_HMG) }
        else if value == 33 { Some(meansOfDeath_t::MOD_RAILGUN_HEADSHOT) }
        else { None }
    }
}

/// The events that the library asks the engine to raise on an entity.
#[derive(Clone, Copy, Debug, PartialEq, Eq, Structural)]
pub enum entity_event_t {
    EV_ITEM_RESPAWN,
}

} // verus!
