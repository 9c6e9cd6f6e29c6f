//! Rooms and the registry that hands them out.
//!
//! A room is one canvas and one broadcast hub under a 128-bit identifier.
//! The registry creates a room the first time its identifier is asked for
//! and returns that same room ever after; rooms are never removed.

use crate::tile::{Tile, TileView};
use dashmap::DashMap;
use std::sync::Arc;
use tokio::sync::broadcast::Sender;
use tokio::sync::RwLock;
use vstd::prelude::*;

verus! {

/// Messages a hub keeps for its slowest subscriber before it drops the oldest.
pub const HUB_CAPACITY: usize = 1024;

/// Side of a room's square tile, in pixels.
pub const TILE_SIDE: u32 = 800;

/// The sending half of tokio's broadcast channel.
#[verifier::external_type_specification]
#[verifier::external_body]
#[verifier::reject_recursive_types(T)]
pub struct ExSender<T>(Sender<T>);

/// Tokio's asynchronous reader-writer lock.
#[verifier::external_type_specification]
#[verifier::external_body]
#[verifier::reject_recursive_types(T)]
pub struct ExRwLock<T: ?Sized>(RwLock<T>);

/// The concurrent hash map of the `dashmap` crate.
#[verifier::external_type_specification]
#[verifier::external_body]
#[verifier::reject_recursive_types(K)]
#[verifier::reject_recursive_types(V)]
#[verifier::reject_recursive_types(S)]
pub struct ExDashMap<K, V, S>(DashMap<K, V, S>);

/// The number of messages a hub was asked to keep when it was made.
pub uninterp spec fn hub_capacity(tx: Sender<String>) -> nat;

/// The tile a lock was made around. What the lock guards later is for
/// whoever holds it to say.
pub uninterp spec fn tile_at_creation(lock: RwLock<Tile>) -> TileView;

/// `broadcast::channel` of tokio, keeping the sender.
///
/// Taken on trust: the channel is made for the capacity asked for. Nothing
/// is claimed of what passes through it. The call panics on a capacity of
/// zero or above half of `usize::MAX`; such capacities are excluded.
#[verifier::external_body]
fn open_hub(capacity: usize) -> (tx: Sender<String>)
    requires
        0 < capacity <= usize::MAX / 2,
    ensures
        hub_capacity(tx) == capacity,
{
    tokio::sync::broadcast::channel(capacity).0
}

/// `RwLock::new` of tokio.
///
/// Taken on trust: the lock is made around the value given.
#[verifier::external_body]
fn guard_tile(tile: Tile) -> (lock: RwLock<Tile>)
    ensures
        tile_at_creation(lock) == tile@,
{
    RwLock::new(tile)
}

/// An isolated canvas and broadcast scope.
#[derive(Debug)]
pub struct Room {
    /// The identifier the room is registered under.
    pub id: u128,
    /// The room's hub: every subscriber sees what is sent here.
    pub tx: Sender<String>,
    /// The room's canvas, shared by readers and owned by one writer at a time.
    pub tile: RwLock<Tile>,
}

impl Room {
    /// Whether this is the room made for `id` and nothing else can be said of
    /// it yet: its hub was made for `HUB_CAPACITY` messages, and its lock
    /// around a blank square tile of side `TILE_SIDE` at version 0.
    pub open spec fn is_new(&self, id: u128) -> bool {
        &&& self.id == id
        &&& hub_capacity(self.tx) == HUB_CAPACITY
        &&& tile_at_creation(self.tile).wf()
        &&& tile_at_creation(self.tile).width == TILE_SIDE
        &&& tile_at_creation(self.tile).height == TILE_SIDE
        &&& tile_at_creation(self.tile).version == 0
        &&& tile_at_creation(self.tile).is_blank()
    }

    /// A new room: a hub without subscribers and a blank tile at version 0.
    pub fn new(id: u128) -> (room: Room)
        ensures
            room.is_new(id),
    {
        let tx = open_hub(HUB_CAPACITY);
        assert((4 * 800 + 1) * 800 <= usize::MAX / 2);
        assert(usize::MAX >= 0xFFFF_FFFF);
        let tile = Tile::new(TILE_SIDE, TILE_SIDE);
        Room { id, tx, tile: guard_tile(tile) }
    }
}

/// The rooms a map holds, by identifier.
pub uninterp spec fn registered(map: DashMap<u128, Arc<Room>>) -> Map<u128, Arc<Room>>;

/// `DashMap::new` of the `dashmap` crate: the map returned holds nothing.
#[verifier::external_body]
fn empty_map() -> (created: DashMap<u128, Arc<Room>>)
    ensures
        registered(created) =~= Map::empty(),
{
    DashMap::new()
}

/// `DashMap::entry` followed by `Entry::or_insert_with` of the `dashmap`
/// crate, returning a clone of the handle found or inserted.
///
/// Taken on trust: if the key is present the map is left as it is and the
/// value under the key is returned; if it is absent, the value made by the
/// closure, here what `Room::new` makes for that identifier, is inserted
/// under the key and returned.
#[verifier::external_body]
fn entry_or_new_room(map: &mut DashMap<u128, Arc<Room>>, id: u128) -> (room: Arc<Room>)
    ensures
        registered(*old(map)).contains_key(id) ==> registered(*final(map)) == registered(*old(map))
            && room == registered(*old(map))[id],
        !registered(*old(map)).contains_key(id) ==> registered(*final(map)) == registered(
            *old(map),
        ).insert(id, room) && room.is_new(id),
{
    map.entry(id).or_insert_with(|| Arc::new(Room::new(id))).clone()
}

/// `DashMap::contains_key` of the `dashmap` crate: whether the map holds a
/// room under the key.
#[verifier::external_body]
fn holds_key(map: &DashMap<u128, Arc<Room>>, id: u128) -> (held: bool)
    ensures
        held == registered(*map).contains_key(id),
{
    map.contains_key(&id)
}

/// What asking for `id` does to a registry holding `rooms`, if `fresh` is
/// the room that would be created: the registry afterwards, and the room
/// handed out.
pub open spec fn lookup_or_insert(rooms: Map<u128, Arc<Room>>, id: u128, fresh: Arc<Room>) -> (
    Map<u128, Arc<Room>>,
    Arc<Room>,
) {
    if rooms.contains_key(id) {
        (rooms, rooms[id])
    } else {
        (rooms.insert(id, fresh), fresh)
    }
}

/// Every room of a registry sits under its own identifier.
pub open spec fn keyed_by_id(rooms: Map<u128, Arc<Room>>) -> bool {
    forall|id: u128| #[trigger] rooms.contains_key(id) ==> rooms[id].id == id
}

/// The registry of rooms.
#[derive(Debug)]
pub struct Rooms {
    map: DashMap<u128, Arc<Room>>,
}

impl View for Rooms {
    type V = Map<u128, Arc<Room>>;

    closed spec fn view(&self) -> Map<u128, Arc<Room>> {
        registered(self.map)
    }
}

impl Rooms {
    /// A registry is well formed when every room sits under its own
    /// identifier. Every registry made by this crate is.
    pub open spec fn wf(&self) -> bool {
        keyed_by_id(self@)
    }

    /// A registry without rooms.
    pub fn new() -> (rooms: Rooms)
        ensures
            rooms.wf(),
            rooms@ == Map::<u128, Arc<Room>>::empty(),
    {
        Rooms { map: empty_map() }
    }

    /// Whether a room is registered under `id`.
    pub fn contains(&self, id: u128) -> (held: bool)
        ensures
            held == self@.contains_key(id),
    {
        holds_key(&self.map, id)
    }

    /// Returns the room registered under `id`, creating it first if there
    /// is none. Asking again for the same identifier returns the same room.
    ///
    /// A call needs the registry to itself. Callers that share one registry
    /// must serialise their calls, for instance by keeping it behind a
    /// mutex; the rooms handed out are shared freely.
    pub fn get_or_create(&mut self, id: u128) -> (room: Arc<Room>)
        requires
            old(self).wf(),
        ensures
            final(self).wf(),
            (final(self)@, room) == lookup_or_insert(old(self)@, id, room),
            final(self)@.contains_key(id) && final(self)@[id] == room,
            room.id == id,
            !old(self)@.contains_key(id) ==> room.is_new(id),
    {
        entry_or_new_room(&mut self.map, id)
    }
}

impl Default for Rooms {
    fn default() -> (rooms: Rooms)
        ensures
            rooms.wf(),
            rooms@ == Map::<u128, Arc<Room>>::empty(),
    {
        Rooms::new()
    }
}

/// Room creation is idempotent: once `id` has been asked for, asking again
/// hands out the very same room and leaves the registry as it is, whatever
/// room the second call would have created; and asking for one identifier
/// never touches the room of another.
pub proof fn law_one_room_per_id(
    rooms: Map<u128, Arc<Room>>,
    id: u128,
    first: Arc<Room>,
    second: Arc<Room>,
    other: u128,
)
    requires
        other != id,
    ensures
        ({
            let (once, a) = lookup_or_insert(rooms, id, first);
            let (twice, b) = lookup_or_insert(once, id, second);
            &&& twice == once
            &&& b == a
            &&& once.contains_key(id) && once[id] == a
            &&& once.contains_key(other) == rooms.contains_key(other)
            &&& rooms.contains_key(other) ==> once[other] == rooms[other]
        }),
{
}

} // verus!
