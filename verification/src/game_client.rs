//! The player part of a game entity: a model of the engine's `gclient_t` and the
//! accessors that read and change it.
use vstd::prelude::*;
use vstd::array::spec_array_update;

use crate::engine_error::{null_pointer_error, QuakeLiveEngineError};
use crate::quake_types::{
    clientConnected_t, pmtype_t, privileges_t, team_t, voteState_t, weapon_t, weapon_of_number,
    exposed_powerup_slot, powerup_index, EF_KAMIKAZE, EF_TALK, MAX_POWERUPS, MODELINDEX_KAMIKAZE,
    PERS_ROUND_SCORE, STAT_ARMOR, STAT_CUR_FLIGHT_FUEL, STAT_FLIGHT_REFUEL, STAT_FLIGHT_THRUST,
    STAT_HOLDABLE_ITEM, STAT_MAX_FLIGHT_FUEL, STAT_WEAPONS, weapon_number,
};
use crate::current_level::CurrentLevel;

verus! {

/// The player state that the engine keeps for a client (the integer part of it).
#[derive(Clone, Copy, Debug, PartialEq, Eq)]
pub struct PlayerState {
    pub clientNum: i32,
    pub pm_type: pmtype_t,
    pub eFlags: i32,
    pub weapon: i32,
    pub stats: [i32; 16],
    pub persistant: [i32; 16],
    pub powerups: [i32; 16],
    pub ammo: [i32; 16],
    pub ping: i32,
}

/// The part of a client that lasts over respawns.
#[derive(Clone, Copy, Debug, PartialEq, Eq)]
pub struct ClientPersistant {
    pub connected: clientConnected_t,
    /// The bytes of the player's name as the engine stores it: a C string,
    /// ended by the first zero byte (or by the end of the buffer).
    pub netname: [u8; 40],
    pub enterTime: i32,
    pub voteState: voteState_t,
}

/// The part of a client that lasts over map changes.
#[derive(Clone, Copy, Debug, PartialEq, Eq)]
pub struct ClientSession {
    pub sessionTeam: team_t,
    pub privileges: privileges_t,
}

/// The statistics the engine keeps for a client.
#[derive(Clone, Copy, Debug, PartialEq, Eq)]
pub struct ExpandedStats {
    pub numKills: i32,
    pub numDeaths: i32,
    pub totalDamageDealt: i32,
    pub totalDamageTaken: i32,
}

/// A model of the engine's `gclient_t`.
#[derive(Clone, Copy, Debug, PartialEq, Eq)]
pub struct GClient {
    pub ps: PlayerState,
    pub pers: ClientPersistant,
    pub sess: ClientSession,
    pub noclip: bool,
    pub invulnerabilityTime: i32,
    pub expandedStats: ExpandedStats,
}

impl GClient {
    /// This client with slot `index` of `stats` set to `value`.
    pub open spec fn with_stat(self, index: int, value: i32) -> GClient {
        GClient { ps: PlayerState { stats: spec_array_update(self.ps.stats, index, value), ..self.ps }, ..self }
    }

    /// This client with its player state replaced.
    pub open spec fn with_ps(self, ps: PlayerState) -> GClient {
        GClient { ps: ps, ..self }
    }
}

/// The bit of the weapon bit set that stands for the weapon at `position` of
/// the fifteen weapons the scripting interface exposes (the gauntlet is bit 1).
pub open spec fn weapon_mask(position: int) -> i32 {
    1i32 << ((position + 1) as u32)
}

/// Whether the weapon bit set `flags` holds the weapon at `position`.
pub open spec fn has_weapon_bit(flags: i32, position: int) -> bool {
    flags & weapon_mask(position) != 0
}

/// The weapon bit set that holds, of the first `n` entries of `weapons`, the
/// weapons whose entry is positive.
pub open spec fn weapons_flags(weapons: Seq<i32>, n: int) -> i32
    decreases n,
{
    if n <= 0 {
        0
    } else {
        weapons_flags(weapons, n - 1) | (if weapons[n - 1] > 0 { weapon_mask(n - 1) } else { 0i32 })
    }
}

/// The time left of a powerup whose slot holds `value`, at level time
/// `level_time`: zero for an unset slot.
pub open spec fn powerup_time_left(value: i32, level_time: i32) -> int {
    if value == 0 {
        0
    } else {
        value - level_time
    }
}

/// The remainder of `a / b` as Rust computes it for integers: with the sign of `a`.
pub open spec fn truncated_rem(a: int, b: int) -> int {
    if a >= 0 {
        a % b
    } else {
        -((-a) % b)
    }
}

/// The value a powerup slot is set to for `value` milliseconds of the powerup
/// at level time `level_time`: the level time rounded down to a full second
/// towards zero, plus the duration; zero removes the powerup.
pub open spec fn powerup_slot_value(value: i32, level_time: i32) -> int {
    if value == 0 {
        0
    } else {
        level_time - truncated_rem(level_time as int, 1000) + value
    }
}

/// The position among the exposed powerups of the powerup that lives in
/// `slot`, or -1 for a slot that no exposed powerup uses.
pub open spec fn exposed_powerup_position(slot: int) -> int {
    if slot == 4 {
        0
    } else if slot == 5 {
        1
    } else if slot == 6 {
        2
    } else if slot == 7 {
        3
    } else if slot == 8 {
        4
    } else if slot == 10 {
        5
    } else {
        -1
    }
}

/// The powerup slots after the exposed powerups were set to `values` at level
/// time `level_time`; the other slots keep what `old` held.
pub open spec fn powerup_slots_after_set(old: Seq<i32>, values: Seq<i32>, level_time: i32) -> Seq<i32> {
    Seq::new(
        old.len(),
        |slot: int|
            if exposed_powerup_position(slot) >= 0 {
                powerup_slot_value(values[exposed_powerup_position(slot)], level_time) as i32
            } else {
                old[slot]
            },
    )
}

/// Whether every exposed powerup in `values` can be stored at level time
/// `level_time` without leaving the range of the slot's integer type.
pub open spec fn powerups_storable(values: Seq<i32>, level_time: i32) -> bool {
    forall|q: int|
        0 <= q < 6 ==> i32::MIN <= #[trigger] powerup_slot_value(values[q], level_time) <= i32::MAX
}

/// Whether the time left of every exposed powerup in `slots` at level time
/// `level_time` fits the integer type the scripting interface gets.
pub open spec fn powerups_readable(slots: Seq<i32>, level_time: i32) -> bool {
    forall|q: int|
        0 <= q < 6 ==> i32::MIN <= #[trigger] powerup_time_left(slots[exposed_powerup_slot(q)], level_time)
            <= i32::MAX
}

/// The entity flags after a holdable item `holdable` was handed to the player:
/// the kamikaze bit is set exactly where the item is the kamikaze.
pub open spec fn flags_for_holdable(flags: i32, holdable: i32) -> i32 {
    if holdable == MODELINDEX_KAMIKAZE {
        flags | EF_KAMIKAZE
    } else {
        flags & !EF_KAMIKAZE
    }
}

/// The index, at or after `from`, where the C string in `buffer` ends: the
/// first zero byte, or the end of the buffer where none follows.
pub open spec fn c_string_end_from(buffer: Seq<u8>, from: int) -> int
    decreases buffer.len() - from,
{
    if from >= buffer.len() {
        buffer.len() as int
    } else if buffer[from] == 0 {
        from
    } else {
        c_string_end_from(buffer, from + 1)
    }
}

/// The bytes of the C string stored in `buffer`: everything before the first
/// zero byte, or the whole buffer where it holds none.
pub open spec fn c_string_bytes(buffer: Seq<u8>) -> Seq<u8> {
    buffer.take(c_string_end_from(buffer, 0))
}

/// What decoding `bytes` as UTF-8 gives, where every invalid sequence becomes
/// the replacement character.
pub uninterp spec fn utf8_lossy_decoding(bytes: Seq<u8>) -> Seq<char>;

/// Decodes bytes as UTF-8, replacing invalid sequences (calls
/// `String::from_utf8_lossy`). The contract names the result, and claims,
/// as the function's documentation does, that valid UTF-8 is decoded as it
/// stands; what an invalid sequence becomes is left to the name.
#[verifier::external_body]
pub(crate) fn decode_utf8_lossy(bytes: &[u8]) -> (r: String)
    ensures
        r@ == utf8_lossy_decoding(bytes@),
        vstd::utf8::valid_utf8(bytes@) ==> r@ == vstd::utf8::decode_utf8(bytes@),
{
    String::from_utf8_lossy(bytes).into_owned()
}

/// The bytes of the C string stored in `buffer`.
pub fn c_string_prefix(buffer: &[u8]) -> (r: Vec<u8>)
    ensures
        r@ == c_string_bytes(buffer@),
{
    let mut end: usize = 0;
    while end < buffer.len() && buffer[end] != 0
        invariant
            end <= buffer.len(),
            c_string_end_from(buffer@, end as int) == c_string_end_from(buffer@, 0),
        decreases buffer.len() - end,
    {
        end = end + 1;
    }
    let mut r: Vec<u8> = Vec::new();
    let mut i: usize = 0;
    while i < end
        invariant
            i <= end <= buffer.len(),
            end == c_string_end_from(buffer@, 0),
            r@ == buffer@.take(i as int),
        decreases end - i,
    {
        r.push(buffer[i]);
        assert(buffer@.take(i as int + 1) =~= buffer@.take(i as int).push(buffer@[i as int]));
        i = i + 1;
    }
    r
}


/// A player of the game: the accessors onto the engine's `gclient_t`.
#[derive(Clone, Debug, PartialEq, Eq)]
pub struct GameClient {
    pub game_client: GClient,
}

impl GameClient {
    /// Wraps the client that the engine handed over; fails where it handed
    /// over none.
    pub fn try_from(game_client: Option<GClient>) -> (r: Result<GameClient, QuakeLiveEngineError>)
        ensures
            match game_client {
                Some(client) => r == Ok::<GameClient, QuakeLiveEngineError>(GameClient { game_client: client }),
                None => r matches Err(QuakeLiveEngineError::NullPointerPassed(msg)) && msg@ == "null pointer passed"@,
            },
    {
        match game_client {
            Some(client) => Ok(GameClient { game_client: client }),
            None => Err(null_pointer_error()),
        }
    }

    /// The client number.
    pub fn get_client_num(&self) -> (r: i32)
        ensures
            r == self.game_client.ps.clientNum,
    {
        self.game_client.ps.clientNum
    }

    /// The connection state.
    pub fn get_connection_state(&self) -> (r: clientConnected_t)
        ensures
            r == self.game_client.pers.connected,
    {
        self.game_client.pers.connected
    }

    /// The team the player plays in.
    pub fn get_team(&self) -> (r: team_t)
        ensures
            r == self.game_client.sess.sessionTeam,
    {
        self.game_client.sess.sessionTeam
    }

    /// The player's name: the C string in the name buffer, decoded as UTF-8
    /// with invalid sequences replaced.
    pub fn get_player_name(&self) -> (r: String)
        ensures
            r@ == utf8_lossy_decoding(c_string_bytes(self.game_client.pers.netname@)),
            vstd::utf8::valid_utf8(c_string_bytes(self.game_client.pers.netname@)) ==> r@
                == vstd::utf8::decode_utf8(c_string_bytes(self.game_client.pers.netname@)),
    {
        let bytes = c_string_prefix(self.game_client.pers.netname.as_slice());
        decode_utf8_lossy(bytes.as_slice())
    }

    /// The player's privileges.
    pub fn get_privileges(&self) -> (r: privileges_t)
        ensures
            r == self.game_client.sess.privileges,
    {
        self.game_client.sess.privileges
    }

    /// Clears the kamikaze bit of the entity flags.
    pub fn remove_kamikaze_flag(&mut self)
        ensures
            final(self).game_client == (GClient {
                ps: PlayerState { eFlags: old(self).game_client.ps.eFlags & !EF_KAMIKAZE, ..old(self).game_client.ps },
                ..old(self).game_client
            }),
    {
        self.game_client.ps.eFlags = self.game_client.ps.eFlags & !EF_KAMIKAZE;
    }

    /// Sets the player's privileges.
    pub fn set_privileges(&mut self, privileges: privileges_t)
        ensures
            final(self).game_client == (GClient {
                sess: ClientSession { privileges: privileges, ..old(self).game_client.sess },
                ..old(self).game_client
            }),
    {
        self.game_client.sess.privileges = privileges;
    }

    /// Whether the player moves normally, that is, is alive.
    pub fn is_alive(&self) -> (r: bool)
        ensures
            r == (self.game_client.ps.pm_type == pmtype_t::PM_NORMAL),
    {
        self.game_client.ps.pm_type == pmtype_t::PM_NORMAL
    }

    /// The armor value.
    pub fn get_armor(&self) -> (r: i32)
        ensures
            r == self.game_client.ps.stats[STAT_ARMOR as int],
    {
        self.game_client.ps.stats[STAT_ARMOR]
    }

    /// Sets the armor value.
    pub fn set_armor(&mut self, armor: i32)
        ensures
            final(self).game_client == old(self).game_client.with_stat(STAT_ARMOR as int, armor),
    {
        self.game_client.ps.stats[STAT_ARMOR] = armor;
    }

    /// Whether the player is frozen.
    pub fn is_frozen(&self) -> (r: bool)
        ensures
            r == (self.game_client.ps.pm_type == pmtype_t::PM_FREEZE),
    {
        self.game_client.ps.pm_type == pmtype_t::PM_FREEZE
    }

    /// Whether the player is typing a chat message.
    pub fn is_chatting(&self) -> (r: bool)
        ensures
            r == (self.game_client.ps.eFlags & EF_TALK != 0),
    {
        self.game_client.ps.eFlags & EF_TALK != 0
    }

    /// Whether noclip is on.
    pub fn get_noclip(&self) -> (r: bool)
        ensures
            r == self.game_client.noclip,
    {
        self.game_client.noclip
    }

    /// Turns noclip on or off.
    pub fn set_noclip(&mut self, activate: bool)
        ensures
            final(self).game_client == (GClient { noclip: activate, ..old(self).game_client }),
    {
        self.game_client.noclip = activate;
    }

    /// The weapon in hand; `WP_NONE` where the stored number names no weapon.
    pub fn get_weapon(&self) -> (r: weapon_t)
        ensures
            r == weapon_of_number(self.game_client.ps.weapon),
    {
        weapon_t::from_number(self.game_client.ps.weapon)
    }

    /// Puts a weapon in hand.
    pub fn set_weapon(&mut self, weapon: weapon_t)
        ensures
            final(self).game_client == old(self).game_client.with_ps(
                PlayerState { weapon: weapon_number(weapon), ..old(self).game_client.ps },
            ),
    {
        self.game_client.ps.weapon = weapon.number();
    }

    /// For each of the fifteen weapons, 1 where the player holds it and 0
    /// where not.
    pub fn get_weapons(&self) -> (r: [i32; 15])
        ensures
            forall|i: int|
                0 <= i < 15 ==> r[i] == (if has_weapon_bit(self.game_client.ps.stats[STAT_WEAPONS as int], i) {
                    1i32
                } else {
                    0i32
                }),
    {
        let mut returned: [i32; 15] = [0; 15];
        let weapon_stats = self.game_client.ps.stats[STAT_WEAPONS];
        let mut i: usize = 0;
        while i < 15
            invariant
                i <= 15,
                weapon_stats == self.game_client.ps.stats[STAT_WEAPONS as int],
                forall|j: int|
                    0 <= j < i ==> returned[j] == (if has_weapon_bit(weapon_stats, j) {
                        1i32
                    } else {
                        0i32
                    }),
            decreases 15 - i,
        {
            let mask: i32 = 1i32 << ((i + 1) as u32);
            assert(mask == weapon_mask(i as int));
            returned[i] = if weapon_stats & mask != 0 {
                1
            } else {
                0
            };
            i = i + 1;
        }
        returned
    }

    /// Gives the player exactly the weapons whose entry is positive.
    pub fn set_weapons(&mut self, weapons: [i32; 15])
        ensures
            final(self).game_client == old(self).game_client.with_stat(
                STAT_WEAPONS as int,
                weapons_flags(weapons@, 15),
            ),
    {
        let mut weapon_flags: i32 = 0;
        let mut i: usize = 0;
        while i < 15
            invariant
                i <= 15,
                weapon_flags == weapons_flags(weapons@, i as int),
            decreases 15 - i,
        {
            let modifier: i32 = if weapons[i] > 0 {
                1i32 << ((i + 1) as u32)
            } else {
                0
            };
            weapon_flags = weapon_flags | modifier;
            i = i + 1;
        }
        self.game_client.ps.stats[STAT_WEAPONS] = weapon_flags;
    }

    /// The ammunition of the fifteen weapons.
    pub fn get_ammos(&self) -> (r: [i32; 15])
        ensures
            r@ == self.game_client.ps.ammo@.subrange(1, 16),
    {
        let mut returned: [i32; 15] = [0; 15];
        let mut i: usize = 0;
        while i < 15
            invariant
                i <= 15,
                forall|j: int| 0 <= j < i ==> returned[j] == self.game_client.ps.ammo[j + 1],
            decreases 15 - i,
        {
            returned[i] = self.game_client.ps.ammo[i + 1];
            i = i + 1;
        }
        assert(returned@ =~= self.game_client.ps.ammo@.subrange(1, 16));
        returned
    }

    /// Sets the ammunition of the fifteen weapons.
    pub fn set_ammos(&mut self, ammos: [i32; 15])
        ensures
            final(self).game_client.ps.ammo@ == seq![old(self).game_client.ps.ammo[0]] + ammos@,
            final(self).game_client == old(self).game_client.with_ps(
                PlayerState { ammo: final(self).game_client.ps.ammo, ..old(self).game_client.ps },
            ),
    {
        let mut i: usize = 0;
        while i < 15
            invariant
                i <= 15,
                self.game_client == old(self).game_client.with_ps(
                    PlayerState { ammo: self.game_client.ps.ammo, ..old(self).game_client.ps },
                ),
                self.game_client.ps.ammo[0] == old(self).game_client.ps.ammo[0],
                forall|j: int| 0 <= j < i ==> self.game_client.ps.ammo[j + 1] == ammos[j],
                forall|j: int| i < j < 16 ==> self.game_client.ps.ammo[j] == old(self).game_client.ps.ammo[j],
            decreases 15 - i,
        {
            self.game_client.ps.ammo[i + 1] = ammos[i];
            i = i + 1;
        }
        assert(self.game_client.ps.ammo@ =~= seq![old(self).game_client.ps.ammo[0]] + ammos@);
    }

    /// The time left of each of the six exposed powerups, at the current
    /// level's time; zero for a powerup the player does not have. The level is
    /// the one the engine runs, handed in by the caller.
    pub fn get_powerups(&self, current_level: &CurrentLevel) -> (r: [i32; 6])
        requires
            powerups_readable(self.game_client.ps.powerups@, current_level.level.time),
        ensures
            forall|q: int|
                0 <= q < 6 ==> r[q] == powerup_time_left(
                    self.game_client.ps.powerups[exposed_powerup_slot(q)],
                    current_level.level.time,
                ),
    {
        self.get_powerups_internal(current_level)
    }

    /// The time left of each of the six exposed powerups at the level time of
    /// `current_level`; zero for a powerup the player does not have.
    pub fn get_powerups_internal(&self, current_level: &CurrentLevel) -> (r: [i32; 6])
        requires
            powerups_readable(self.game_client.ps.powerups@, current_level.level.time),
        ensures
            forall|q: int|
                0 <= q < 6 ==> r[q] == powerup_time_left(
                    self.game_client.ps.powerups[exposed_powerup_slot(q)],
                    current_level.level.time,
                ),
    {
        let mut returned: [i32; 6] = [0; 6];
        let mut powerup: usize = 0;
        while powerup < 6
            invariant
                powerup <= 6,
                powerups_readable(self.game_client.ps.powerups@, current_level.level.time),
                forall|q: int|
                    0 <= q < powerup ==> returned[q] == powerup_time_left(
                        self.game_client.ps.powerups[exposed_powerup_slot(q)],
                        current_level.level.time,
                    ),
            decreases 6 - powerup,
        {
            let powerup_slot = powerup_index(powerup);
            let mut item = self.game_client.ps.powerups[powerup_slot];
            if item != 0 {
                assert(i32::MIN <= powerup_time_left(
                    self.game_client.ps.powerups[exposed_powerup_slot(powerup as int)],
                    current_level.level.time,
                ) <= i32::MAX);
                item = item - current_level.get_leveltime();
            }
            returned[powerup] = item;
            powerup = powerup + 1;
        }
        returned
    }

    /// Sets the six exposed powerups, each to the given time in milliseconds
    /// counted from the current level time rounded down to a full second; a
    /// zero removes the powerup. The level is the one the engine runs, handed
    /// in by the caller.
    pub fn set_powerups(&mut self, powerups: [i32; 6], current_level: &CurrentLevel)
        requires
            powerups_storable(powerups@, current_level.level.time),
        ensures
            final(self).game_client.ps.powerups@ == powerup_slots_after_set(
                old(self).game_client.ps.powerups@,
                powerups@,
                current_level.level.time,
            ),
            final(self).game_client == old(self).game_client.with_ps(
                PlayerState { powerups: final(self).game_client.ps.powerups, ..old(self).game_client.ps },
            ),
    {
        self.set_powerups_internal(powerups, current_level);
    }

    /// Sets the six exposed powerups at the level time of `current_level`:
    /// each to the level time rounded down to a full second plus the given
    /// milliseconds; a zero removes the powerup.
    pub fn set_powerups_internal(&mut self, powerups: [i32; 6], current_level: &CurrentLevel)
        requires
            powerups_storable(powerups@, current_level.level.time),
        ensures
            final(self).game_client.ps.powerups@ == powerup_slots_after_set(
                old(self).game_client.ps.powerups@,
                powerups@,
                current_level.level.time,
            ),
            final(self).game_client == old(self).game_client.with_ps(
                PlayerState { powerups: final(self).game_client.ps.powerups, ..old(self).game_client.ps },
            ),
    {
        let ghost level_time = current_level.level.time;
        let mut powerup: usize = 0;
        while powerup < 6
            invariant
                powerup <= 6,
                level_time == current_level.level.time,
                powerups_storable(powerups@, level_time),
                self.game_client == old(self).game_client.with_ps(
                    PlayerState { powerups: self.game_client.ps.powerups, ..old(self).game_client.ps },
                ),
                forall|slot: int|
                    0 <= slot < 16 ==> #[trigger] self.game_client.ps.powerups[slot] == (if 0
                        <= exposed_powerup_position(slot) < powerup {
                        powerup_slot_value(powerups[exposed_powerup_position(slot)], level_time) as i32
                    } else {
                        old(self).game_client.ps.powerups[slot]
                    }),
            decreases 6 - powerup,
        {
            let powerup_slot = powerup_index(powerup);
            let item = powerups[powerup];
            if item == 0 {
                self.game_client.ps.powerups[powerup_slot] = 0;
            } else {
                let level_time_now = current_level.get_leveltime();
                assert(i32::MIN <= powerup_slot_value(powerups[powerup as int], level_time) <= i32::MAX);
                self.game_client.ps.powerups[powerup_slot] = level_time_now - (level_time_now % 1000) + item;
            }
            powerup = powerup + 1;
        }
        assert(self.game_client.ps.powerups@ =~= powerup_slots_after_set(
            old(self).game_client.ps.powerups@,
            powerups@,
            level_time,
        ));
    }

    /// The held item.
    pub fn get_holdable(&self) -> (r: i32)
        ensures
            r == self.game_client.ps.stats[STAT_HOLDABLE_ITEM as int],
    {
        self.game_client.ps.stats[STAT_HOLDABLE_ITEM]
    }

    /// Hands the player a holdable item; the kamikaze bit of the entity flags
    /// is set for the kamikaze and cleared for any other item.
    pub fn set_holdable(&mut self, holdable: i32)
        ensures
            final(self).game_client == old(self).game_client.with_ps(
                PlayerState {
                    eFlags: flags_for_holdable(old(self).game_client.ps.eFlags, holdable),
                    stats: spec_array_update(old(self).game_client.ps.stats, STAT_HOLDABLE_ITEM as int, holdable),
                    ..old(self).game_client.ps
                },
            ),
    {
        if holdable == MODELINDEX_KAMIKAZE {
            self.game_client.ps.eFlags = self.game_client.ps.eFlags | EF_KAMIKAZE;
        } else {
            self.remove_kamikaze_flag();
        }
        self.game_client.ps.stats[STAT_HOLDABLE_ITEM] = holdable;
    }

    /// The current flight fuel.
    pub fn get_current_flight_fuel(&self) -> (r: i32)
        ensures
            r == self.game_client.ps.stats[STAT_CUR_FLIGHT_FUEL as int],
    {
        self.game_client.ps.stats[STAT_CUR_FLIGHT_FUEL]
    }

    /// The maximal flight fuel.
    pub fn get_max_flight_fuel(&self) -> (r: i32)
        ensures
            r == self.game_client.ps.stats[STAT_MAX_FLIGHT_FUEL as int],
    {
        self.game_client.ps.stats[STAT_MAX_FLIGHT_FUEL]
    }

    /// The flight thrust.
    pub fn get_flight_thrust(&self) -> (r: i32)
        ensures
            r == self.game_client.ps.stats[STAT_FLIGHT_THRUST as int],
    {
        self.game_client.ps.stats[STAT_FLIGHT_THRUST]
    }

    /// The flight refuel rate.
    pub fn get_flight_refuel(&self) -> (r: i32)
        ensures
            r == self.game_client.ps.stats[STAT_FLIGHT_REFUEL as int],
    {
        self.game_client.ps.stats[STAT_FLIGHT_REFUEL]
    }

    /// Sets current fuel, maximal fuel, thrust and refuel rate, in this order.
    pub fn set_flight(&mut self, flight_params: [i32; 4])
        ensures
            final(self).game_client == old(self).game_client.with_stat(
                STAT_CUR_FLIGHT_FUEL as int,
                flight_params[0],
            ).with_stat(STAT_MAX_FLIGHT_FUEL as int, flight_params[1]).with_stat(
                STAT_FLIGHT_THRUST as int,
                flight_params[2],
            ).with_stat(STAT_FLIGHT_REFUEL as int, flight_params[3]),
    {
        self.game_client.ps.stats[STAT_CUR_FLIGHT_FUEL] = flight_params[0];
        self.game_client.ps.stats[STAT_MAX_FLIGHT_FUEL] = flight_params[1];
        self.game_client.ps.stats[STAT_FLIGHT_THRUST] = flight_params[2];
        self.game_client.ps.stats[STAT_FLIGHT_REFUEL] = flight_params[3];
    }

    /// Makes the player invulnerable for `time` milliseconds from the current
    /// level time. The level is the one the engine runs, handed in by the caller.
    pub fn set_invulnerability(&mut self, time: i32, current_level: &CurrentLevel)
        requires
            i32::MIN <= current_level.level.time + time <= i32::MAX,
        ensures
            final(self).game_client == (GClient {
                invulnerabilityTime: (current_level.level.time + time) as i32,
                ..old(self).game_client
            }),
    {
        self.set_invulnerability_internal(time, current_level);
    }

    /// Makes the player invulnerable until `time` milliseconds after the level
    /// time of `current_level`.
    pub fn set_invulnerability_internal(&mut self, time: i32, current_level: &CurrentLevel)
        requires
            i32::MIN <= current_level.level.time + time <= i32::MAX,
        ensures
            final(self).game_client == (GClient {
                invulnerabilityTime: (current_level.level.time + time) as i32,
                ..old(self).game_client
            }),
    {
        self.game_client.invulnerabilityTime = current_level.get_leveltime() + time;
    }

    /// The round score; zero for a spectator.
    pub fn get_score(&self) -> (r: i32)
        ensures
            r == (if self.game_client.sess.sessionTeam == team_t::TEAM_SPECTATOR {
                0
            } else {
                self.game_client.ps.persistant[PERS_ROUND_SCORE as int]
            }),
    {
        if self.game_client.sess.sessionTeam == team_t::TEAM_SPECTATOR {
            0
        } else {
            self.game_client.ps.persistant[PERS_ROUND_SCORE]
        }
    }

    /// Sets the round score.
    pub fn set_score(&mut self, score: i32)
        ensures
            final(self).game_client == old(self).game_client.with_ps(
                PlayerState {
                    persistant: spec_array_update(old(self).game_client.ps.persistant, PERS_ROUND_SCORE as int, score),
                    ..old(self).game_client.ps
                },
            ),
    {
        self.game_client.ps.persistant[PERS_ROUND_SCORE] = score;
    }

    /// The number of kills.
    pub fn get_kills(&self) -> (r: i32)
        ensures
            r == self.game_client.expandedStats.numKills,
    {
        self.game_client.expandedStats.numKills
    }

    /// The number of deaths.
    pub fn get_deaths(&self) -> (r: i32)
        ensures
            r == self.game_client.expandedStats.numDeaths,
    {
        self.game_client.expandedStats.numDeaths
    }

    /// The damage dealt.
    pub fn get_damage_dealt(&self) -> (r: i32)
        ensures
            r == self.game_client.expandedStats.totalDamageDealt,
    {
        self.game_client.expandedStats.totalDamageDealt
    }

    /// The damage taken.
    pub fn get_damage_taken(&self) -> (r: i32)
        ensures
            r == self.game_client.expandedStats.totalDamageTaken,
    {
        self.game_client.expandedStats.totalDamageTaken
    }

    /// How long the player has been in the team, at the current level time.
    /// The level is the one the engine runs, handed in by the caller.
    pub fn get_time_on_team(&self, current_level: &CurrentLevel) -> (r: i32)
        requires
            i32::MIN <= current_level.level.time - self.game_client.pers.enterTime <= i32::MAX,
        ensures
            r == current_level.level.time - self.game_client.pers.enterTime,
    {
        self.get_time_on_team_internal(current_level)
    }

    /// How long the player has been in the team at the level time of
    /// `current_level`.
    pub fn get_time_on_team_internal(&self, current_level: &CurrentLevel) -> (r: i32)
        requires
            i32::MIN <= current_level.level.time - self.game_client.pers.enterTime <= i32::MAX,
        ensures
            r == current_level.level.time - self.game_client.pers.enterTime,
    {
        current_level.get_leveltime() - self.game_client.pers.enterTime
    }

    /// The ping.
    pub fn get_ping(&self) -> (r: i32)
        ensures
            r == self.game_client.ps.ping,
    {
        self.game_client.ps.ping
    }

    /// Marks the player's vote in the running vote as pending.
    pub fn set_vote_pending(&mut self)
        ensures
            final(self).game_client == (GClient {
                pers: ClientPersistant { voteState: voteState_t::VOTE_PENDING, ..old(self).game_client.pers },
                ..old(self).game_client
            }),
    {
        self.game_client.pers.voteState = voteState_t::VOTE_PENDING;
    }

    /// Records the player's vote: yes for `true`, no for `false`.
    pub fn set_vote_state(&mut self, yes_or_no: bool)
        ensures
            final(self).game_client == (GClient {
                pers: ClientPersistant {
                    voteState: if yes_or_no { voteState_t::VOTE_YES } else { voteState_t::VOTE_NO },
                    ..old(self).game_client.pers
                },
                ..old(self).game_client
            }),
    {
        self.game_client.pers.voteState = if yes_or_no {
            voteState_t::VOTE_YES
        } else {
            voteState_t::VOTE_NO
        };
    }

    /// Brings the player back to normal movement.
    pub fn spawn(&mut self)
        ensures
            final(self).game_client == old(self).game_client.with_ps(
                PlayerState { pm_type: pmtype_t::PM_NORMAL, ..old(self).game_client.ps },
            ),
    {
        self.game_client.ps.pm_type = pmtype_t::PM_NORMAL;
    }
}

/// One step of building a weapon bit set: adding the bit of `s` to `f` adds
/// exactly that bit.
proof fn lemma_or_weapon_bit(f: i32, s: u32, t: u32)
    requires
        1 <= s <= 15,
        1 <= t <= 15,
    ensures
        ((f | (1i32 << s)) & (1i32 << t) != 0) == ((f & (1i32 << t) != 0) || s == t),
{
    assert(((f | (1i32 << s)) & (1i32 << t) != 0) == ((f & (1i32 << t) != 0) || s == t)) by (bit_vector)
        requires
            1 <= s <= 15,
            1 <= t <= 15,
    ;
}

/// The weapon bit set built from the first `n` entries holds the weapon at
/// `position` exactly where the position is among them and its entry is positive.
proof fn lemma_weapons_flags_bit(weapons: Seq<i32>, n: int, position: int)
    requires
        0 <= n <= 15,
        0 <= position < 15,
        weapons.len() == 15,
    ensures
        has_weapon_bit(weapons_flags(weapons, n), position) == (position < n && weapons[position] > 0),
    decreases n,
{
    if n == 0 {
        assert(0i32 & weapon_mask(position) == 0) by (bit_vector);
    } else {
        lemma_weapons_flags_bit(weapons, n - 1, position);
        let f = weapons_flags(weapons, n - 1);
        if weapons[n - 1] > 0 {
            lemma_or_weapon_bit(f, n as u32, (position + 1) as u32);
        } else {
            assert(f | 0i32 == f) by (bit_vector);
        }
    }
}

/// Setting the weapons and reading them back gives, for each of the fifteen
/// weapons, 1 where its entry was positive and 0 where not.
pub proof fn law_weapons_roundtrip(client: GClient, weapons: [i32; 15])
    ensures
        forall|position: int|
            0 <= position < 15 ==> #[trigger] has_weapon_bit(
                client.with_stat(STAT_WEAPONS as int, weapons_flags(weapons@, 15)).ps.stats[STAT_WEAPONS as int],
                position,
            ) == (weapons[position] > 0),
{
    assert forall|position: int| 0 <= position < 15 implies #[trigger] has_weapon_bit(
        client.with_stat(STAT_WEAPONS as int, weapons_flags(weapons@, 15)).ps.stats[STAT_WEAPONS as int],
        position,
    ) == (weapons[position] > 0) by {
        lemma_weapons_flags_bit(weapons@, 15, position);
    }
}

/// Setting the ammunition and reading it back gives the ammunition that was set.
pub proof fn law_ammos_roundtrip(client: GClient, ammo_after: [i32; 16], ammos: [i32; 15])
    requires
        ammo_after@ == seq![client.ps.ammo[0]] + ammos@,
    ensures
        ammo_after@.subrange(1, 16) == ammos@,
{
    assert(ammo_after@.subrange(1, 16) =~= ammos@);
}

/// Setting the exposed powerups at a level time that is a full second and
/// reading them back at the same level time gives the durations that were set,
/// for every duration that is zero or does not cancel out the level time.
pub proof fn law_powerups_roundtrip(client: GClient, powerups: [i32; 6], level_time: i32)
    requires
        truncated_rem(level_time as int, 1000) == 0,
        powerups_storable(powerups@, level_time),
        forall|q: int| 0 <= q < 6 ==> powerups[q] == 0 || powerups[q] + level_time != 0,
    ensures
        powerups_readable(powerup_slots_after_set(client.ps.powerups@, powerups@, level_time), level_time),
        forall|q: int|
            0 <= q < 6 ==> #[trigger] powerup_time_left(
                powerup_slots_after_set(client.ps.powerups@, powerups@, level_time)[exposed_powerup_slot(q)],
                level_time,
            ) == powerups[q],
{
    let after = powerup_slots_after_set(client.ps.powerups@, powerups@, level_time);
    assert forall|q: int| 0 <= q < 6 implies #[trigger] powerup_time_left(
        after[exposed_powerup_slot(q)],
        level_time,
    ) == powerups[q] by {
        assert(exposed_powerup_position(exposed_powerup_slot(q)) == q);
        assert(i32::MIN <= powerup_slot_value(powerups@[q], level_time) <= i32::MAX);
    }
    assert forall|q: int| 0 <= q < 6 implies i32::MIN <= #[trigger] powerup_time_left(
        after[exposed_powerup_slot(q)],
        level_time,
    ) <= i32::MAX by {
        assert(exposed_powerup_position(exposed_powerup_slot(q)) == q);
        assert(i32::MIN <= powerup_slot_value(powerups@[q], level_time) <= i32::MAX);
    }
}

/// After a holdable item was handed over, the player holds that item, and
/// the kamikaze bit is set exactly where the item is the kamikaze; the other
/// entity flags are kept.
pub proof fn law_holdable_kamikaze_flag(flags: i32, holdable: i32)
    ensures
        (flags_for_holdable(flags, holdable) & EF_KAMIKAZE != 0) == (holdable == MODELINDEX_KAMIKAZE),
        flags_for_holdable(flags, holdable) & !EF_KAMIKAZE == flags & !EF_KAMIKAZE,
{
    assert((flags | 0x200i32) & 0x200i32 != 0) by (bit_vector);
    assert((flags & !0x200i32) & 0x200i32 == 0) by (bit_vector);
    assert((flags | 0x200i32) & !0x200i32 == flags & !0x200i32) by (bit_vector);
    assert((flags & !0x200i32) & !0x200i32 == flags & !0x200i32) by (bit_vector);
}

/// Setting the round score of a player who is not a spectator and reading it
/// back gives the score that was set.
pub proof fn law_score_roundtrip(client: GClient, score: i32)
    requires
        client.sess.sessionTeam != team_t::TEAM_SPECTATOR,
    ensures
        client.with_ps(
            PlayerState {
                persistant: spec_array_update(client.ps.persistant, PERS_ROUND_SCORE as int, score),
                ..client.ps
            },
        ).ps.persistant[PERS_ROUND_SCORE as int] == score,
{
}

/// Setting the armor and reading it back gives the armor that was set.
pub proof fn law_armor_roundtrip(client: GClient, armor: i32)
    ensures
        client.with_stat(STAT_ARMOR as int, armor).ps.stats[STAT_ARMOR as int] == armor,
{
}

/// Setting the flight parameters and reading them back gives the current
/// fuel, maximal fuel, thrust and refuel rate that were set, each in its own slot.
pub proof fn law_flight_roundtrip(client: GClient, flight_params: [i32; 4])
    ensures
        ({
            let c = client.with_stat(STAT_CUR_FLIGHT_FUEL as int, flight_params[0]).with_stat(
                STAT_MAX_FLIGHT_FUEL as int,
                flight_params[1],
            ).with_stat(STAT_FLIGHT_THRUST as int, flight_params[2]).with_stat(
                STAT_FLIGHT_REFUEL as int,
                flight_params[3],
            );
            &&& c.ps.stats[STAT_CUR_FLIGHT_FUEL as int] == flight_params[0]
            &&& c.ps.stats[STAT_MAX_FLIGHT_FUEL as int] == flight_params[1]
            &&& c.ps.stats[STAT_FLIGHT_THRUST as int] == flight_params[2]
            &&& c.ps.stats[STAT_FLIGHT_REFUEL as int] == flight_params[3]
        }),
{
}

/// Setting a holdable item and reading it back gives the item that was set.
pub proof fn law_holdable_roundtrip(client: GClient, holdable: i32)
    ensures
        client.with_ps(
            PlayerState {
                eFlags: flags_for_holdable(client.ps.eFlags, holdable),
                stats: spec_array_update(client.ps.stats, STAT_HOLDABLE_ITEM as int, holdable),
                ..client.ps
            },
        ).ps.stats[STAT_HOLDABLE_ITEM as int] == holdable,
{
}

} // verus!
