//! The entities of the game: a model of the engine's `gentity_t` and the
//! accessors and actions on it.
use vstd::prelude::*;

use crate::current_level::CurrentLevel;
use crate::engine_error::{null_pointer_error, QuakeLiveEngineError};
use crate::game_client::{
    c_string_bytes, c_string_prefix, decode_utf8_lossy, flags_for_holdable, utf8_lossy_decoding, GClient,
    GameClient, PlayerState,
};
use crate::game_item::{item_offset_id, GItem};
use crate::quake_types::{
    clientConnected_t, entityType_t, entity_type_number, itemType_t, meansOfDeath_t, privileges_t, team_t,
    DAMAGE_NO_PROTECTION, FL_DROPPED_ITEM, MAX_GENTITIES, STAT_HOLDABLE_ITEM,
};
use vstd::array::spec_array_update;

verus! {

/// The part of an entity's network state that the library reads.
#[derive(Clone, Copy, Debug, PartialEq, Eq)]
pub struct EntityState {
    pub eType: i32,
    pub clientNum: i32,
    pub modelindex: i32,
}

/// The part of an entity that the server shares with the collision code.
#[derive(Clone, Copy, Debug, PartialEq, Eq)]
pub struct EntityShared {
    pub ownerNum: i32,
}

/// A model of the engine's `gentity_t`.
#[derive(Clone, Debug, PartialEq, Eq)]
pub struct GEntity {
    pub s: EntityState,
    pub r: EntityShared,
    /// The player of the entity; `None` where the engine stores a null pointer.
    pub client: Option<GClient>,
    /// The shared part of the entity that activated this one, if any.
    pub activator: Option<EntityShared>,
    pub health: i32,
    pub inuse: bool,
    /// The C string of the entity's class name.
    pub classname: Vec<u8>,
    pub item: Option<GItem>,
    pub flags: i32,
    /// The C strings of the entity's target and target name, if set.
    pub target: Option<Vec<u8>>,
    pub targetname: Option<Vec<u8>>,
}

/// The entity that activated another one.
#[derive(Clone, Copy, Debug, PartialEq, Eq)]
pub struct Activator {
    pub activator: EntityShared,
}

impl Activator {
    /// Wraps the activator that the engine handed over; fails where it handed over none.
    pub fn try_from(activator: Option<EntityShared>) -> (r: Result<Activator, QuakeLiveEngineError>)
        ensures
            match activator {
                Some(a) => r == Ok::<Activator, QuakeLiveEngineError>(Activator { activator: a }),
                None => r matches Err(QuakeLiveEngineError::NullPointerPassed(msg)) && msg@ == "null pointer passed"@,
            },
    {
        match activator {
            Some(a) => Ok(Activator { activator: a }),
            None => Err(null_pointer_error()),
        }
    }

    /// The number of the entity that owns the activator.
    pub fn get_owner_num(&self) -> (r: i32)
        ensures
            r == self.activator.ownerNum,
    {
        self.activator.ownerNum
    }
}

/// What the engine is asked to do with an entity.
#[derive(Clone, Copy, Debug, PartialEq, Eq)]
pub enum EntityCommand {
    /// Start the kamikaze explosion of the entity.
    StartKamikaze,
    /// Free the entity.
    FreeEntity,
}

/// The damage the engine is asked to deal to an entity, by the entity itself.
#[derive(Clone, Copy, Debug, PartialEq, Eq)]
pub struct SelfDamage {
    pub damage: i32,
    pub dflags: i32,
    pub means_of_death: meansOfDeath_t,
}

/// What the engine is asked to do to drop a player's holdable item: launch the
/// item `item_id` from the player, make the player (its `parent`) unable to pick
/// it up until `next_think`, and start its trajectory at `trajectory_time`.
#[derive(Clone, Copy, Debug, PartialEq, Eq)]
pub struct HoldableDrop {
    pub item_id: i32,
    pub next_think: i32,
    pub trajectory_time: i32,
}

/// The damage that kills an entity of `health` health points with
/// `means_of_death`: its health, and a hundred thousand more for a kamikaze.
pub open spec fn slay_damage(health: i32, means_of_death: meansOfDeath_t) -> int {
    health + if means_of_death == meansOfDeath_t::MOD_KAMIKAZE {
        100000int
    } else {
        0int
    }
}

/// The client of an entity after its armor was set to zero.
pub open spec fn without_armor(client: Option<GClient>) -> Option<GClient> {
    match client {
        Some(c) => Some(c.with_stat(crate::quake_types::STAT_ARMOR as int, 0)),
        None => None,
    }
}

/// The client of an entity after its holdable item was taken away.
pub open spec fn without_holdable(c: GClient) -> GClient {
    c.with_ps(
        PlayerState {
            eFlags: flags_for_holdable(c.ps.eFlags, 0),
            stats: spec_array_update(c.ps.stats, STAT_HOLDABLE_ITEM as int, 0),
            ..c.ps
        },
    )
}

/// Whether an entity id is in the range of the engine's entity table.
pub open spec fn valid_entity_id(entity_id: int) -> bool {
    0 <= entity_id < MAX_GENTITIES
}

/// Checks an entity id before the entity table is read: fails for an id
/// outside the table and where the engine has no table; gives the id as an
/// index otherwise.
pub fn check_entity_id(entity_id: i32, table_available: bool) -> (r: Result<u32, QuakeLiveEngineError>)
    ensures
        !valid_entity_id(entity_id as int) ==> r == Err::<u32, QuakeLiveEngineError>(
            QuakeLiveEngineError::InvalidId(entity_id),
        ),
        valid_entity_id(entity_id as int) && !table_available ==> (r matches Err(
            QuakeLiveEngineError::EntityNotFound(msg),
        ) && msg@ == "g_entities not initialized"@),
        valid_entity_id(entity_id as int) && table_available ==> r == Ok::<u32, QuakeLiveEngineError>(
            entity_id as u32,
        ),
{
    if entity_id >= MAX_GENTITIES as i32 {
        return Err(QuakeLiveEngineError::InvalidId(entity_id));
    }
    if entity_id < 0 {
        return Err(QuakeLiveEngineError::InvalidId(entity_id));
    }
    if !table_available {
        return Err(QuakeLiveEngineError::EntityNotFound(String::from_str("g_entities not initialized")));
    }
    Ok(entity_id as u32)
}

/// A game entity: the accessors onto the engine's `gentity_t`.
#[derive(Clone, Debug, PartialEq, Eq)]
pub struct GameEntity {
    pub gentity_t: GEntity,
    /// Where the engine keeps the entity, counted in whole entities.
    pub address: i64,
}

impl GameEntity {
    /// Wraps the entity that the engine handed over at `address`; fails where
    /// it handed over none.
    pub fn try_from(game_entity: Option<GEntity>, address: i64) -> (r: Result<GameEntity, QuakeLiveEngineError>)
        ensures
            match game_entity {
                Some(e) => r matches Ok(g) && g.gentity_t == e && g.address == address,
                None => r matches Err(QuakeLiveEngineError::NullPointerPassed(msg)) && msg@ == "null pointer passed"@,
            },
    {
        match game_entity {
            Some(e) => Ok(GameEntity { gentity_t: e, address }),
            None => Err(null_pointer_error()),
        }
    }

    /// The entity's id in the entity table that starts at `g_entities`, or -1
    /// where the engine has no table.
    pub fn get_entity_id(&self, g_entities: Option<i64>) -> (r: i32)
        ensures
            r == match g_entities {
                Some(start) => item_offset_id(self.address, start),
                None => -1i32,
            },
    {
        match g_entities {
            None => -1,
            Some(start) => self.get_entity_id_inter(start),
        }
    }

    /// The entity's id in the entity table that starts at `g_entities`: its
    /// offset from the start, or -1 where that does not fit an id.
    pub fn get_entity_id_inter(&self, g_entities: i64) -> (r: i32)
        ensures
            r == item_offset_id(self.address, g_entities),
    {
        let offset: i128 = self.address as i128 - g_entities as i128;
        if -2147483648i128 <= offset && offset <= 2147483647i128 {
            offset as i32
        } else {
            -1
        }
    }

    /// Asks the engine to start the kamikaze explosion of this entity; nothing
    /// where no engine is loaded.
    pub fn start_kamikaze(&self, engine_loaded: bool) -> (r: Option<EntityCommand>)
        ensures
            r == (if engine_loaded { Some(EntityCommand::StartKamikaze) } else { None::<EntityCommand> }),
    {
        if !engine_loaded {
            return None;
        }
        Some(self.start_kamikaze_intern())
    }

    /// Asks the engine to start the kamikaze explosion of this entity.
    pub fn start_kamikaze_intern(&self) -> (r: EntityCommand)
        ensures
            r == EntityCommand::StartKamikaze,
    {
        EntityCommand::StartKamikaze
    }

    /// The name of the entity's player; empty where the entity has no player
    /// or the player is disconnected.
    pub fn get_player_name(&self) -> (r: String)
        ensures
            r@ == match self.gentity_t.client {
                None => Seq::<char>::empty(),
                Some(c) => if c.pers.connected == clientConnected_t::CON_DISCONNECTED {
                    Seq::<char>::empty()
                } else {
                    utf8_lossy_decoding(c_string_bytes(c.pers.netname@))
                },
            },
            self.gentity_t.client matches Some(c) ==> (c.pers.connected != clientConnected_t::CON_DISCONNECTED
                && vstd::utf8::valid_utf8(c_string_bytes(c.pers.netname@)) ==> r@ == vstd::utf8::decode_utf8(
                c_string_bytes(c.pers.netname@),
            )),
    {
        match self.get_game_client() {
            Err(_) => String::new(),
            Ok(game_client) => {
                if game_client.get_connection_state() == clientConnected_t::CON_DISCONNECTED {
                    String::new()
                } else {
                    game_client.get_player_name()
                }
            },
        }
    }

    /// The team of the entity's player; spectator where the entity has no
    /// player or the player is disconnected.
    pub fn get_team(&self) -> (r: team_t)
        ensures
            r == match self.gentity_t.client {
                None => team_t::TEAM_SPECTATOR,
                Some(c) => if c.pers.connected == clientConnected_t::CON_DISCONNECTED {
                    team_t::TEAM_SPECTATOR
                } else {
                    c.sess.sessionTeam
                },
            },
    {
        match self.get_game_client() {
            Err(_) => team_t::TEAM_SPECTATOR,
            Ok(game_client) => {
                if game_client.get_connection_state() == clientConnected_t::CON_DISCONNECTED {
                    team_t::TEAM_SPECTATOR
                } else {
                    game_client.get_team()
                }
            },
        }
    }

    /// The privileges of the entity's player; banned where the entity has no player.
    pub fn get_privileges(&self) -> (r: privileges_t)
        ensures
            r == match self.gentity_t.client {
                None => privileges_t::PRIV_BANNED,
                Some(c) => c.sess.privileges,
            },
    {
        match self.get_game_client() {
            Err(_) => privileges_t::from_number(-1),
            Ok(game_client) => game_client.get_privileges(),
        }
    }

    /// The entity's player; fails where the entity has none.
    pub fn get_game_client(&self) -> (r: Result<GameClient, QuakeLiveEngineError>)
        ensures
            match self.gentity_t.client {
                Some(c) => r == Ok::<GameClient, QuakeLiveEngineError>(GameClient { game_client: c }),
                None => r matches Err(QuakeLiveEngineError::NullPointerPassed(msg)) && msg@ == "null pointer passed"@,
            },
    {
        GameClient::try_from(self.gentity_t.client)
    }

    /// The entity that activated this one; fails where there is none.
    pub fn get_activator(&self) -> (r: Result<Activator, QuakeLiveEngineError>)
        ensures
            match self.gentity_t.activator {
                Some(a) => r == Ok::<Activator, QuakeLiveEngineError>(Activator { activator: a }),
                None => r matches Err(QuakeLiveEngineError::NullPointerPassed(msg)) && msg@ == "null pointer passed"@,
            },
    {
        Activator::try_from(self.gentity_t.activator)
    }

    /// The health.
    pub fn get_health(&self) -> (r: i32)
        ensures
            r == self.gentity_t.health,
    {
        self.gentity_t.health
    }

    /// Sets the health.
    pub fn set_health(&mut self, new_health: i32)
        ensures
            final(self).gentity_t == (GEntity { health: new_health, ..old(self).gentity_t }),
            final(self).address == old(self).address,
    {
        self.gentity_t.health = new_health;
    }

    /// Kills the entity with `mean_of_death`: its player's armor is set to
    /// zero and the engine is asked to deal the entity's own damage to it;
    /// nothing happens where no engine is loaded.
    pub fn slay_with_mod(&mut self, mean_of_death: meansOfDeath_t, engine_loaded: bool) -> (r: Option<SelfDamage>)
        requires
            i32::MIN <= 2 * slay_damage(old(self).gentity_t.health, mean_of_death) <= i32::MAX,
        ensures
            !engine_loaded ==> r is None && *final(self) == *old(self),
            engine_loaded ==> r == Some(
                SelfDamage {
                    damage: (2 * slay_damage(old(self).gentity_t.health, mean_of_death)) as i32,
                    dflags: DAMAGE_NO_PROTECTION,
                    means_of_death: mean_of_death,
                },
            ),
            engine_loaded ==> final(self).gentity_t == (GEntity {
                client: without_armor(old(self).gentity_t.client),
                ..old(self).gentity_t
            }),
            final(self).address == old(self).address,
    {
        if !engine_loaded {
            return None;
        }
        Some(self.slay_with_mod_intern(mean_of_death))
    }

    /// Kills the entity with `mean_of_death`: its player's armor is set to
    /// zero, and the damage asked of the engine is twice the entity's health
    /// (the engine halves damage an entity deals to itself), plus a hundred
    /// thousand for a kamikaze, with every protection ignored.
    pub fn slay_with_mod_intern(&mut self, mean_of_death: meansOfDeath_t) -> (r: SelfDamage)
        requires
            i32::MIN <= 2 * slay_damage(old(self).gentity_t.health, mean_of_death) <= i32::MAX,
        ensures
            r == (SelfDamage {
                damage: (2 * slay_damage(old(self).gentity_t.health, mean_of_death)) as i32,
                dflags: DAMAGE_NO_PROTECTION,
                means_of_death: mean_of_death,
            }),
            final(self).gentity_t == (GEntity {
                client: without_armor(old(self).gentity_t.client),
                ..old(self).gentity_t
            }),
            final(self).address == old(self).address,
    {
        let bonus: i32 = if mean_of_death == meansOfDeath_t::MOD_KAMIKAZE {
            100000
        } else {
            0
        };
        let damage = self.get_health() + bonus;
        match self.gentity_t.client {
            Some(client) => {
                let mut game_client = GameClient { game_client: client };
                game_client.set_armor(0);
                self.gentity_t.client = Some(game_client.game_client);
            },
            None => {},
        }
        SelfDamage { damage: damage * 2, dflags: DAMAGE_NO_PROTECTION, means_of_death: mean_of_death }
    }

    /// Whether the entity is in use.
    pub fn in_use(&self) -> (r: bool)
        ensures
            r == self.gentity_t.inuse,
    {
        self.gentity_t.inuse
    }

    /// The entity's class name, decoded as UTF-8 with invalid sequences replaced.
    pub fn get_classname(&self) -> (r: String)
        ensures
            r@ == utf8_lossy_decoding(c_string_bytes(self.gentity_t.classname@)),
            vstd::utf8::valid_utf8(c_string_bytes(self.gentity_t.classname@)) ==> r@ == vstd::utf8::decode_utf8(
                c_string_bytes(self.gentity_t.classname@),
            ),
    {
        let bytes = c_string_prefix(self.gentity_t.classname.as_slice());
        decode_utf8_lossy(bytes.as_slice())
    }

    /// Whether the entity is of the kind `item_type`.
    pub fn is_game_item(&self, item_type: entityType_t) -> (r: bool)
        ensures
            r == (self.gentity_t.s.eType == entity_type_number(item_type)),
    {
        self.gentity_t.s.eType == item_type.number()
    }

    /// Whether the entity is an item lying in the map that is a weapon.
    pub fn is_respawning_weapon(&self) -> (r: bool)
        ensures
            r == (self.gentity_t.s.eType == entity_type_number(entityType_t::ET_ITEM)
                && self.gentity_t.item is Some && self.gentity_t.item->0.giType == itemType_t::IT_WEAPON),
    {
        if !self.is_game_item(entityType_t::ET_ITEM) {
            return false;
        }
        match &self.gentity_t.item {
            None => false,
            Some(item) => item.giType == itemType_t::IT_WEAPON,
        }
    }

    /// Whether any game flag is set.
    pub fn has_flags(&self) -> (r: bool)
        ensures
            r == (self.gentity_t.flags != 0),
    {
        self.gentity_t.flags != 0
    }

    /// Whether the entity is an item that a player dropped.
    pub fn is_dropped_item(&self) -> (r: bool)
        ensures
            r == (self.gentity_t.flags & FL_DROPPED_ITEM != 0),
    {
        self.gentity_t.flags & FL_DROPPED_ITEM != 0
    }

    /// The client number in the entity's network state.
    pub fn get_client_number(&self) -> (r: i32)
        ensures
            r == self.gentity_t.s.clientNum,
    {
        self.gentity_t.s.clientNum
    }

    /// Drops the holdable item of the entity's player: nothing happens where
    /// no engine is loaded; the level time is that of `current_level`, or zero
    /// where the engine runs no level.
    pub fn drop_holdable(
        &mut self,
        engine_loaded: bool,
        current_level: Option<&CurrentLevel>,
        num_items: i32,
    ) -> (r: Option<HoldableDrop>)
        requires
            -2147483148 <= (match current_level {
                Some(level) => level.level.time as int,
                None => 0int,
            }) <= 2147482647,
        ensures
            !engine_loaded ==> r is None && *final(self) == *old(self),
            engine_loaded ==> holdable_dropped(
                old(self).gentity_t,
                final(self).gentity_t,
                match current_level {
                    Some(level) => level.level.time,
                    None => 0i32,
                },
                num_items,
                r,
            ),
            final(self).address == old(self).address,
    {
        if !engine_loaded {
            return None;
        }
        let level_time = match current_level {
            Some(level) => level.get_leveltime(),
            None => 0,
        };
        self.drop_holdable_intern(level_time, num_items)
    }

    /// Drops the holdable item of the entity's player at `level_time`, where
    /// the item list has `num_items` items: nothing happens where the entity
    /// has no player or the held item is no item of the list; otherwise the
    /// player loses the item, and the engine is asked to launch it so that the
    /// player cannot pick it up again for a second.
    pub fn drop_holdable_intern(&mut self, level_time: i32, num_items: i32) -> (r: Option<HoldableDrop>)
        requires
            -2147483148 <= level_time <= 2147482647,
        ensures
            holdable_dropped(old(self).gentity_t, final(self).gentity_t, level_time, num_items, r),
            final(self).address == old(self).address,
    {
        match self.gentity_t.client {
            None => None,
            Some(client) => {
                let mut game_client = GameClient { game_client: client };
                let item_id = game_client.get_holdable();
                if item_id < 0 || item_id >= num_items {
                    return None;
                }
                game_client.set_holdable(0);
                self.gentity_t.client = Some(game_client.game_client);
                Some(HoldableDrop { item_id, next_think: level_time + 1000, trajectory_time: level_time - 500 })
            },
        }
    }

    /// Whether the entity is the timer of a kamikaze explosion.
    pub fn is_kamikaze_timer(&self) -> (r: bool)
        ensures
            r == (utf8_lossy_decoding(c_string_bytes(self.gentity_t.classname@)) == "kamikaze timer"@),
    {
        let classname = self.get_classname();
        let timer = String::from_str("kamikaze timer");
        classname == timer
    }

    /// Asks the engine to free this entity; nothing where no engine is loaded.
    pub fn free_entity(&self, engine_loaded: bool) -> (r: Option<EntityCommand>)
        ensures
            r == (if engine_loaded { Some(EntityCommand::FreeEntity) } else { None::<EntityCommand> }),
    {
        if !engine_loaded {
            return None;
        }
        Some(self.free_entity_intern())
    }

    /// Asks the engine to free this entity.
    pub fn free_entity_intern(&self) -> (r: EntityCommand)
        ensures
            r == EntityCommand::FreeEntity,
    {
        EntityCommand::FreeEntity
    }
}

/// What dropping the holdable item of `before` at `level_time`, with
/// `num_items` items in the item list, does: where the entity has a player
/// who holds an item of the list, the player loses it (and the kamikaze bit)
/// and the drop is asked of the engine; otherwise nothing changes.
pub open spec fn holdable_dropped(
    before: GEntity,
    after: GEntity,
    level_time: i32,
    num_items: i32,
    r: Option<HoldableDrop>,
) -> bool {
    match before.client {
        None => r is None && after == before,
        Some(c) => {
            let item_id = c.ps.stats[STAT_HOLDABLE_ITEM as int];
            if item_id < 0 || item_id >= num_items {
                r is None && after == before
            } else {
                &&& r == Some(
                    HoldableDrop {
                        item_id,
                        next_think: (level_time + 1000) as i32,
                        trajectory_time: (level_time - 500) as i32,
                    },
                )
                &&& after == (GEntity { client: Some(without_holdable(c)), ..before })
            }
        },
    }
}

} // verus!
