use vstd::prelude::*;
use std::collections::HashMap;
use crate::level::{layer_spawns, row_spawns, Level, SpawnPoint};
use crate::nemesis::Nemesis;
use crate::network::GamePacket;
use crate::tile::{EntityType, TileType};

verus! {

broadcast use vstd::std_specs::hash::group_hash_axioms;

/// The layout of the whole world: a matrix of rooms, each given by its
/// tile grid (`grids[row][col]`) and its entity layer (`data[row][col]`).
#[derive(Debug)]
pub struct WorldMap {
    pub grids: Vec<Vec<Vec<Vec<TileType>>>>,
    pub data: Vec<Vec<Vec<Vec<EntityType>>>>,
}

/// The shared state of a game session that the rules act on: this client's
/// id once the server assigned one, the matrix of rooms, the room the player
/// is in (column, row), and the other players heard of, keyed by their id.
#[derive(Debug)]
pub struct World {
    pub id: Option<u64>,
    pub levels_matrix: Vec<Vec<Level>>,
    pub current_coords: (usize, usize),
    pub other_players: HashMap<u64, Nemesis>,
}

/// Which borders of the current room the player's box has crossed; the
/// margins are measured in pixels by the caller.
#[derive(Clone, Copy, Debug, PartialEq, Eq, Structural)]
pub struct Exits {
    /// The right edge of the box is within 5 px of the room's right border, or beyond.
    pub right: bool,
    /// The box is more than 5 px past the room's left border.
    pub left: bool,
    /// The bottom edge of the box is within 5 px of the room's bottom border, or beyond.
    pub down: bool,
    /// The bottom edge of the box is less than 5 px below the room's top border.
    pub up: bool,
}

/// A move along one axis of the room matrix.
#[derive(Clone, Copy, Debug, PartialEq, Eq, Structural)]
pub enum Step {
    Stay,
    /// To the next room (right, or down).
    Next,
    /// To the previous room (left, or up).
    Previous,
}

/// The room change decided for one frame.
#[derive(Clone, Copy, Debug, PartialEq, Eq, Structural)]
pub struct Transition {
    pub horizontal: Step,
    pub vertical: Step,
}

/// The move along one axis: crossing forward wins over crossing backward,
/// and a move is only made when a room lies on that side.
pub open spec fn spec_step(forward: bool, backward: bool, pos: int, count: int) -> Step {
    if forward {
        if pos + 1 < count { Step::Next } else { Step::Stay }
    } else if backward {
        if pos > 0 { Step::Previous } else { Step::Stay }
    } else {
        Step::Stay
    }
}

/// The coordinate reached by a step.
pub open spec fn spec_moved(pos: int, step: Step) -> int {
    match step {
        Step::Stay => pos,
        Step::Next => pos + 1,
        Step::Previous => pos - 1,
    }
}

/// The rooms of one row of the map: tile grids and entity layers are paired
/// up to the shorter of the two lists.
pub open spec fn room_row(grids: Seq<Vec<Vec<TileType>>>, data: Seq<Vec<Vec<EntityType>>>) -> Seq<Level> {
    Seq::new(
        if grids.len() < data.len() { grids.len() } else { data.len() },
        |j: int| Level::spec_new(grids[j], data[j]),
    )
}

/// The room matrix built from a map: rows are paired up to the shorter of
/// the two lists, and within each row rooms likewise.
pub open spec fn room_matrix(map: WorldMap) -> Seq<Seq<Level>> {
    Seq::new(
        if map.grids@.len() < map.data@.len() { map.grids@.len() } else { map.data@.len() },
        |i: int| room_row(map.grids@[i]@, map.data@[i]@),
    )
}

/// What the game has to do after a packet from the server was applied to
/// the world.
#[derive(Clone, Copy, Debug, PartialEq, Eq, Structural)]
pub enum PacketEffect {
    /// The server assigned this client its id.
    Joined { id: u64 },
    /// The position of another player was recorded; `new` when that player
    /// was not in the roster before.
    PlayerMoved { id: u64, new: bool },
    /// A player of the roster who is in the current room fired: a bullet
    /// owned by `owner` is to be spawned from that player's centre, flying
    /// in direction `dir` (bit pattern of an `f32`).
    Shot { owner: u64, dir: u32 },
    /// A player left the session; `known` when it was in the roster.
    PlayerLeft { id: u64, known: bool },
    /// The packet asks nothing of this client.
    Ignored,
}

/// The roster entry after a position report: a known player gets the new
/// position, facing and room and keeps the rest; an unknown one is created
/// with the standard box.
pub open spec fn spec_record_pos(
    roster: Map<u64, Nemesis>,
    id: u64,
    x: u32,
    y: u32,
    dir: u32,
    level_x: u8,
    level_y: u8,
) -> Nemesis {
    let base = if roster.contains_key(id) { roster[id] } else { Nemesis::spec_new(id, (x, y)) };
    Nemesis { pos: (x, y), last_dir: dir, coords: (level_x as usize, level_y as usize), ..base }
}

/// The roster after a packet, for a client whose own id is `own`: position
/// reports of other players are recorded, a leave removes the player, and
/// everything else leaves it alone. A position report carrying the client's
/// own id is ignored.
pub open spec fn roster_step(own: Option<u64>, roster: Map<u64, Nemesis>, packet: GamePacket) -> Map<u64, Nemesis> {
    match packet {
        GamePacket::PlayerPos { id, x, y, dir, level_x, level_y } => {
            if own == Some(id) {
                roster
            } else {
                roster.insert(id, spec_record_pos(roster, id, x, y, dir, level_x, level_y))
            }
        },
        GamePacket::Leave { id } => roster.remove(id),
        _ => roster,
    }
}

/// Every roster entry is filed under the id it records.
pub open spec fn keyed_by_id(roster: Map<u64, Nemesis>) -> bool {
    forall|k: u64| #[trigger] roster.contains_key(k) ==> roster[k].id == k
}

/// A player who reports a position and then leaves, without having been in
/// the roster before, leaves no trace in it.
pub proof fn lemma_leave_undoes_first_report(
    own: Option<u64>,
    roster: Map<u64, Nemesis>,
    id: u64,
    x: u32,
    y: u32,
    dir: u32,
    level_x: u8,
    level_y: u8,
)
    requires
        !roster.contains_key(id),
    ensures
        roster_step(
            own,
            roster_step(own, roster, GamePacket::PlayerPos { id, x, y, dir, level_x, level_y }),
            GamePacket::Leave { id },
        ) == roster,
{
    let mid = roster_step(own, roster, GamePacket::PlayerPos { id, x, y, dir, level_x, level_y });
    assert(mid.remove(id) =~= roster);
}

/// Every packet keeps each roster entry filed under the id it records.
pub proof fn lemma_packets_keep_roster_keyed(own: Option<u64>, roster: Map<u64, Nemesis>, packet: GamePacket)
    requires
        keyed_by_id(roster),
    ensures
        keyed_by_id(roster_step(own, roster, packet)),
{
    let after = roster_step(own, roster, packet);
    assert forall|k: u64| #[trigger] after.contains_key(k) implies after[k].id == k by {
        match packet {
            GamePacket::PlayerPos { id, .. } => {
                if own != Some(id) && k != id {
                    assert(roster.contains_key(k));
                }
            },
            GamePacket::Leave { id } => {
                assert(roster.contains_key(k));
            },
            _ => {},
        }
    }
}

/// With a roster filed by id, a bullet spawned for a shot is owned by the
/// player who sent it.
pub proof fn lemma_shot_owned_by_sender(w: &World, id: u64, kind: String, dir: u32)
    requires
        keyed_by_id(w.other_players@),
    ensures
        w.spec_effect(GamePacket::Action { id, kind, dir }) matches PacketEffect::Shot { owner, dir: d }
            ==> owner == id && d == dir,
{
}

/// Crossing a border and then the opposite one brings the player back to
/// the room it started from, whenever the first crossing changed room.
pub proof fn lemma_crossing_back_returns(pos: int, count: int)
    requires
        0 <= pos < count,
    ensures
        spec_step(true, false, pos, count) == Step::Next ==> {
            let there = spec_moved(pos, Step::Next);
            spec_moved(there, spec_step(false, true, there, count)) == pos
        },
        spec_step(false, true, pos, count) == Step::Previous ==> {
            let there = spec_moved(pos, Step::Previous);
            spec_moved(there, spec_step(true, false, there, count)) == pos
        },
{
}

/// A map whose tile grids and entity layers form the same non-empty
/// rectangle of rooms.
pub open spec fn rectangular_map(map: WorldMap) -> bool {
    &&& map.grids@.len() > 0
    &&& map.grids@.len() == map.data@.len()
    &&& map.grids@[0]@.len() > 0
    &&& forall|i: int| 0 <= i < map.grids@.len() ==> {
        &&& #[trigger] map.grids@[i]@.len() == map.grids@[0]@.len()
        &&& map.data@[i]@.len() == map.grids@[0]@.len()
    }
}

/// The room built from `grids[i][j]` and `data[i][j]` stands at row `i`,
/// column `j` of the room matrix, for every pair of indices below the paired
/// lengths: the matrix keeps the map's rows and columns in place.
pub proof fn lemma_room_matrix_in_place(map: WorldMap)
    ensures
        room_matrix(map).len() == (if map.grids@.len() < map.data@.len() { map.grids@.len() } else { map.data@.len() }),
        forall|i: int| 0 <= i < room_matrix(map).len() ==> #[trigger] room_matrix(map)[i].len() == (
            if map.grids@[i]@.len() < map.data@[i]@.len() { map.grids@[i]@.len() } else { map.data@[i]@.len() }),
        forall|i: int, j: int| 0 <= i < room_matrix(map).len() && 0 <= j < room_matrix(map)[i].len()
            ==> #[trigger] room_matrix(map)[i][j] == Level::spec_new(map.grids@[i]@[j], map.data@[i]@[j]),
{
}

/// A frame's transition reports a room change exactly when the room
/// coordinates it leads to differ from those it started from; in
/// particular a move along either axis, vertical ones included, is a change.
pub proof fn lemma_changed_iff_room_differs(t: Transition, x: int, y: int)
    ensures
        t.spec_changed() <==> (spec_moved(x, t.horizontal) != x || spec_moved(y, t.vertical) != y),
        t.vertical != Step::Stay ==> t.spec_changed(),
        t.horizontal != Step::Stay ==> t.spec_changed(),
{
}

/// A shot spawns a bullet only from a shooter recorded in the current room,
/// with both room coordinates equal; a shooter who is unknown or in any other
/// room is ignored. A `"shoot"` from a known player in the current room
/// spawns a bullet owned by that roster entry and flying in the shot's
/// direction.
pub proof fn lemma_shot_needs_same_room(w: &World, id: u64, kind: String, dir: u32)
    ensures
        ({
            let roster = w.other_players@;
            (!roster.contains_key(id) || roster[id].coords != w.current_coords)
                ==> w.spec_effect(GamePacket::Action { id, kind, dir }) == PacketEffect::Ignored
        }),
        ({
            let roster = w.other_players@;
            (kind@ == "shoot"@ && roster.contains_key(id) && roster[id].coords == w.current_coords)
                ==> w.spec_effect(GamePacket::Action { id, kind, dir }) == (PacketEffect::Shot { owner: roster[id].id, dir })
        }),
        w.spec_effect(GamePacket::Action { id, kind, dir }) is Shot ==> {
            &&& w.other_players@.contains_key(id)
            &&& w.other_players@[id].coords.0 == w.current_coords.0
            &&& w.other_players@[id].coords.1 == w.current_coords.1
        },
{
}

impl Transition {
    /// Whether the player changed room.
    pub open spec fn spec_changed(self) -> bool {
        self.horizontal != Step::Stay || self.vertical != Step::Stay
    }

    /// Whether the player changed room.
    pub fn changed(&self) -> (r: bool)
        ensures
            r == self.spec_changed(),
            r <==> (self.horizontal != Step::Stay || self.vertical != Step::Stay),
    {
        !(self.horizontal == Step::Stay && self.vertical == Step::Stay)
    }
}

/// The move along one axis of the room matrix.
fn step(forward: bool, backward: bool, pos: usize, count: usize) -> (s: Step)
    ensures
        s == spec_step(forward, backward, pos as int, count as int),
{
    if forward {
        if count > 0 && pos < count - 1 {
            Step::Next
        } else {
            Step::Stay
        }
    } else if backward {
        if pos > 0 {
            Step::Previous
        } else {
            Step::Stay
        }
    } else {
        Step::Stay
    }
}

impl World {
    /// The room matrix as nested sequences.
    pub open spec fn rooms(&self) -> Seq<Seq<Level>> {
        self.levels_matrix@.map_values(|row: Vec<Level>| row@)
    }

    /// Number of rows of the room matrix.
    pub open spec fn rows(&self) -> int {
        self.levels_matrix@.len() as int
    }

    /// Number of columns of the room matrix, as given by its first row.
    pub open spec fn cols(&self) -> int {
        self.levels_matrix@[0]@.len() as int
    }

    /// The room the player is in.
    pub open spec fn spec_current_level(&self) -> Level {
        self.levels_matrix@[self.current_coords.1 as int]@[self.current_coords.0 as int]
    }

    /// Well-formed: the room matrix is a non-empty rectangle and the current
    /// room lies in it.
    pub open spec fn wf(&self) -> bool {
        &&& self.rows() > 0
        &&& self.cols() > 0
        &&& forall|i: int| 0 <= i < self.rows() ==> #[trigger] self.levels_matrix@[i]@.len() == self.cols()
        &&& self.current_coords.0 < self.cols()
        &&& self.current_coords.1 < self.rows()
    }

    /// Builds the world from its map: no id yet, no other players, the
    /// player in room (0, 0).
    pub fn new(matrix_data: WorldMap) -> (r: World)
        ensures
            r.rooms() == room_matrix(matrix_data),
            r.id is None,
            r.current_coords == (0usize, 0usize),
            r.other_players@ == Map::<u64, Nemesis>::empty(),
            rectangular_map(matrix_data) ==> r.wf(),
            r.levels_matrix@.len() == (if matrix_data.grids@.len() < matrix_data.data@.len() {
                matrix_data.grids@.len()
            } else {
                matrix_data.data@.len()
            }),
            forall|i: int| 0 <= i < r.levels_matrix@.len() ==> #[trigger] r.levels_matrix@[i]@.len() == (
                if matrix_data.grids@[i]@.len() < matrix_data.data@[i]@.len() {
                    matrix_data.grids@[i]@.len()
                } else {
                    matrix_data.data@[i]@.len()
                }),
            forall|i: int, j: int| 0 <= i < r.levels_matrix@.len() && 0 <= j < r.levels_matrix@[i]@.len()
                ==> #[trigger] r.levels_matrix@[i]@[j] == Level::spec_new(
                    matrix_data.grids@[i]@[j],
                    matrix_data.data@[i]@[j],
                ),
    {
        let ghost map = matrix_data;
        let WorldMap { grids, data } = matrix_data;
        let mut grids = grids;
        let mut data = data;
        let n: usize = if grids.len() < data.len() { grids.len() } else { data.len() };
        let mut levels: Vec<Vec<Level>> = Vec::new();
        let mut i: usize = 0;
        while i < n
            invariant
                n == (if map.grids@.len() < map.data@.len() { map.grids@.len() } else { map.data@.len() }),
                i <= n,
                grids@ == map.grids@.skip(i as int),
                data@ == map.data@.skip(i as int),
                levels@.len() == i,
                forall|k: int| 0 <= k < i ==> #[trigger] levels@[k]@ == room_row(map.grids@[k]@, map.data@[k]@),
            decreases n - i,
        {
            let mut grow = grids.remove(0);
            let mut drow = data.remove(0);
            let ghost g0 = grow@;
            let ghost d0 = drow@;
            assert(g0 == map.grids@[i as int]@);
            assert(d0 == map.data@[i as int]@);
            let m: usize = if grow.len() < drow.len() { grow.len() } else { drow.len() };
            let mut row: Vec<Level> = Vec::new();
            let mut j: usize = 0;
            while j < m
                invariant
                    m == (if g0.len() < d0.len() { g0.len() } else { d0.len() }),
                    j <= m,
                    grow@ == g0.skip(j as int),
                    drow@ == d0.skip(j as int),
                    row@.len() == j,
                    forall|k: int| 0 <= k < j ==> #[trigger] row@[k] == Level::spec_new(g0[k], d0[k]),
                decreases m - j,
            {
                let g = grow.remove(0);
                let d = drow.remove(0);
                row.push(Level::new(g, d));
                assert(grow@ =~= g0.skip(j + 1));
                assert(drow@ =~= d0.skip(j + 1));
                j = j + 1;
            }
            assert(row@ =~= room_row(g0, d0));
            levels.push(row);
            assert(grids@ =~= map.grids@.skip(i + 1));
            assert(data@ =~= map.data@.skip(i + 1));
            i = i + 1;
        }
        let r = World { id: None, levels_matrix: levels, current_coords: (0, 0), other_players: HashMap::new() };
        assert(r.rooms() =~= room_matrix(map));
        proof {
            lemma_room_matrix_in_place(map);
            assert forall|i: int| 0 <= i < r.levels_matrix@.len() implies #[trigger] r.levels_matrix@[i]@
                == room_matrix(map)[i] by {
                assert(r.rooms()[i] == r.levels_matrix@[i]@);
            }
        }
        proof {
            if rectangular_map(map) {
                assert forall|i: int| 0 <= i < r.rows() implies #[trigger] r.levels_matrix@[i]@.len() == r.cols() by {
                    assert(r.rooms()[i] == r.levels_matrix@[i]@);
                    assert(r.rooms()[0] == r.levels_matrix@[0]@);
                    assert(map.grids@[i]@.len() == map.grids@[0]@.len());
                }
                assert(r.rooms()[0] == r.levels_matrix@[0]@);
            }
        }
        r
    }

    /// The room the player is in.
    pub fn current_level(&self) -> (r: &Level)
        requires
            self.wf(),
        ensures
            *r == self.spec_current_level(),
    {
        let row = &self.levels_matrix[self.current_coords.1];
        &row[self.current_coords.0]
    }

    /// Moves the player to a neighbouring room when it crossed a border of
    /// the current one. Horizontally a crossing to the right wins over one to
    /// the left, vertically a crossing downwards wins over one upwards; a
    /// crossing towards the edge of the world leaves the player where it is.
    pub fn check_level_transitions(&mut self, exits: Exits) -> (t: Transition)
        requires
            old(self).wf(),
        ensures
            t.horizontal == spec_step(exits.right, exits.left, old(self).current_coords.0 as int, old(self).cols()),
            t.vertical == spec_step(exits.down, exits.up, old(self).current_coords.1 as int, old(self).rows()),
            final(self).current_coords.0 == spec_moved(old(self).current_coords.0 as int, t.horizontal),
            final(self).current_coords.1 == spec_moved(old(self).current_coords.1 as int, t.vertical),
            final(self).id == old(self).id,
            final(self).levels_matrix@ == old(self).levels_matrix@,
            final(self).other_players@ == old(self).other_players@,
            final(self).wf(),
            t.spec_changed() <==> final(self).current_coords != old(self).current_coords,
    {
        let (cx, cy) = self.current_coords;
        let cols = self.levels_matrix[0].len();
        let rows = self.levels_matrix.len();
        let horizontal = step(exits.right, exits.left, cx, cols);
        let vertical = step(exits.down, exits.up, cy, rows);
        let nx = match horizontal {
            Step::Stay => cx,
            Step::Next => cx + 1,
            Step::Previous => cx - 1,
        };
        let ny = match vertical {
            Step::Stay => cy,
            Step::Next => cy + 1,
            Step::Previous => cy - 1,
        };
        self.current_coords = (nx, ny);
        Transition { horizontal, vertical }
    }

    /// The enemies to place in a room, one per enemy or potion marker of its
    /// entity layer, in row-major order (top row first, each row left to
    /// right); boss markers spawn nothing.
    pub fn spawn_entities(level: &Level) -> (r: Vec<SpawnPoint>)
        ensures
            r@ == layer_spawns(level.data_view(), level.data@.len() as int),
    {
        let mut out: Vec<SpawnPoint> = Vec::new();
        let mut y: usize = 0;
        while y < level.data.len()
            invariant
                y <= level.data@.len(),
                out@ == layer_spawns(level.data_view(), y as int),
            decreases level.data@.len() - y,
        {
            let row = &level.data[y];
            assert(level.data_view()[y as int] == row@);
            let mut x: usize = 0;
            while x < row.len()
                invariant
                    x <= row@.len(),
                    row@ == level.data_view()[y as int],
                    y < level.data@.len(),
                    out@ == layer_spawns(level.data_view(), y as int) + row_spawns(row@, y as int, x as int),
                decreases row@.len() - x,
            {
                let cell = row[x];
                if cell == EntityType::EnemySpawn || cell == EntityType::PotionSpawn {
                    out.push(SpawnPoint { x, y, kind: cell });
                }
                proof {
                    let pre = layer_spawns(level.data_view(), y as int);
                    let rs = row_spawns(row@, y as int, x as int);
                    assert(pre + rs.push(SpawnPoint { x, y, kind: cell }) =~= (pre + rs).push(SpawnPoint { x, y, kind: cell }));
                }
                x = x + 1;
            }
            y = y + 1;
        }
        out
    }

    /// The enemies to place when the current room is (re)entered.
    pub fn load_current_level(&self) -> (r: Vec<SpawnPoint>)
        requires
            self.wf(),
        ensures
            r@ == layer_spawns(self.spec_current_level().data_view(), self.spec_current_level().data@.len() as int),
    {
        World::spawn_entities(self.current_level())
    }

    /// The player was shot: it goes back to room (0, 0), and the server is to
    /// be told with a `Hit` packet once this client has an id.
    pub fn handle_death(&mut self) -> (p: Option<GamePacket>)
        requires
            old(self).wf(),
        ensures
            final(self).current_coords == (0usize, 0usize),
            final(self).id == old(self).id,
            final(self).levels_matrix@ == old(self).levels_matrix@,
            final(self).other_players@ == old(self).other_players@,
            final(self).wf(),
            match old(self).id {
                Some(id) => p matches Some(GamePacket::Hit { entity_id }) && entity_id == id,
                None => p is None,
            },
    {
        self.current_coords = (0, 0);
        match self.id {
            Some(my_id) => Some(GamePacket::Hit { entity_id: my_id }),
            None => None,
        }
    }

    /// The roster after a packet (see `roster_step`).
    pub open spec fn spec_roster_after(&self, packet: GamePacket) -> Map<u64, Nemesis> {
        roster_step(self.id, self.other_players@, packet)
    }

    /// What the game has to do after a packet. A shot only counts when its
    /// kind is `"shoot"`, the shooter is in the roster and in the current
    /// room; the bullet is owned by the id recorded in the roster entry.
    pub open spec fn spec_effect(&self, packet: GamePacket) -> PacketEffect {
        let roster = self.other_players@;
        match packet {
            GamePacket::JoinResponse { assigned_id } => PacketEffect::Joined { id: assigned_id },
            GamePacket::PlayerPos { id, .. } => {
                if self.id == Some(id) {
                    PacketEffect::Ignored
                } else {
                    PacketEffect::PlayerMoved { id, new: !roster.contains_key(id) }
                }
            },
            GamePacket::Action { id, kind, dir } => {
                if kind@ == "shoot"@ && roster.contains_key(id) && roster[id].coords == self.current_coords {
                    PacketEffect::Shot { owner: roster[id].id, dir }
                } else {
                    PacketEffect::Ignored
                }
            },
            GamePacket::Leave { id } => PacketEffect::PlayerLeft { id, known: roster.contains_key(id) },
            _ => PacketEffect::Ignored,
        }
    }

    /// Applies a packet from the server: a join response sets this client's
    /// id, position reports of other players update the roster, a leave
    /// removes the player, and a shot is reported back for the game to spawn.
    pub fn handle_packet(&mut self, packet: GamePacket) -> (e: PacketEffect)
        ensures
            final(self).id == (match packet {
                GamePacket::JoinResponse { assigned_id } => Some(assigned_id),
                _ => old(self).id,
            }),
            final(self).other_players@ == old(self).spec_roster_after(packet),
            e == old(self).spec_effect(packet),
            packet matches GamePacket::Action { id, kind, dir } ==> {
                let roster = old(self).other_players@;
                &&& (!roster.contains_key(id) || roster[id].coords.0 != old(self).current_coords.0
                    || roster[id].coords.1 != old(self).current_coords.1) ==> e == PacketEffect::Ignored
                &&& (kind@ == "shoot"@ && roster.contains_key(id) && roster[id].coords.0 == old(self).current_coords.0
                    && roster[id].coords.1 == old(self).current_coords.1)
                    ==> e == (PacketEffect::Shot { owner: roster[id].id, dir })
            },
            final(self).levels_matrix@ == old(self).levels_matrix@,
            final(self).current_coords == old(self).current_coords,
    {
        match packet {
            GamePacket::JoinResponse { assigned_id } => {
                self.id = Some(assigned_id);
                PacketEffect::Joined { id: assigned_id }
            },
            GamePacket::PlayerPos { id, x, y, dir, level_x, level_y } => {
                if self.id == Some(id) {
                    PacketEffect::Ignored
                } else {
                    let known = self.other_players.get(&id);
                    let new = known.is_none();
                    let mut entry = match known {
                        Some(n) => *n,
                        None => Nemesis::new(id, (x, y)),
                    };
                    entry.pos = (x, y);
                    entry.last_dir = dir;
                    entry.coords = (level_x as usize, level_y as usize);
                    self.other_players.insert(id, entry);
                    PacketEffect::PlayerMoved { id, new }
                }
            },
            GamePacket::Action { id, kind, dir } => {
                let shoot = String::from_str("shoot");
                if kind == shoot {
                    match self.other_players.get(&id) {
                        Some(owner) => {
                            if owner.coords.0 == self.current_coords.0 && owner.coords.1 == self.current_coords.1 {
                                PacketEffect::Shot { owner: owner.id, dir }
                            } else {
                                PacketEffect::Ignored
                            }
                        },
                        None => PacketEffect::Ignored,
                    }
                } else {
                    PacketEffect::Ignored
                }
            },
            GamePacket::Leave { id } => {
                let removed = self.other_players.remove(&id);
                PacketEffect::PlayerLeft { id, known: removed.is_some() }
            },
            _ => PacketEffect::Ignored,
        }
    }

    /// The packets this client sends in a frame, once it has an id: its
    /// position (`x`, `y`, facing `dir`, as bit patterns of `f32` values)
    /// and room, each room coordinate truncated to a byte, and, when the
    /// player fired, a `"shoot"` action in the facing direction. Nothing is
    /// sent before the server assigned an id.
    pub fn outgoing_packets(&self, x: u32, y: u32, dir: u32, shoot: bool) -> (r: Vec<GamePacket>)
        ensures
            match self.id {
                None => r@.len() == 0,
                Some(id) => {
                    &&& r@.len() == (if shoot { 2int } else { 1int })
                    &&& r@[0] matches GamePacket::PlayerPos { id: pid, x: px, y: py, dir: pdir, level_x, level_y }
                        && pid == id && px == x && py == y && pdir == dir
                        && level_x == self.current_coords.0 as u8 && level_y == self.current_coords.1 as u8
                    &&& shoot ==> (r@[1] matches GamePacket::Action { id: aid, kind, dir: adir }
                        && aid == id && kind@ == "shoot"@ && adir == dir)
                },
            },
    {
        let mut out: Vec<GamePacket> = Vec::new();
        if let Some(id) = self.id {
            out.push(GamePacket::PlayerPos {
                id,
                x,
                y,
                dir,
                level_x: self.current_coords.0 as u8,
                level_y: self.current_coords.1 as u8,
            });
            if shoot {
                out.push(GamePacket::Action { id, kind: String::from_str("shoot"), dir });
            }
        }
        out
    }

    /// Whether the player with this id is in the roster; bullets of players
    /// not in it are dropped.
    pub fn is_known_player(&self, id: u64) -> (r: bool)
        ensures
            r == self.other_players@.contains_key(id),
    {
        self.other_players.contains_key(&id)
    }
}

} // verus!
