//! Who carries what: the snapshot of the players' inventories.

use vstd::prelude::*;
use crate::components::MAX_PLAYERS;
use crate::entity::Entity;
use crate::item::{Inv, Inventory};
use crate::world::{World, WorldView};

verus! {

/// Who carries what, by seat: a snapshot of the players' inventories taken once and
/// shared by the systems that need it.
#[derive(Debug)]
pub struct PlayerInventories {
    pub seats: Vec<Option<Inv>>,
}

impl View for PlayerInventories {
    type V = Seq<Option<Inv>>;

    open spec fn view(&self) -> Seq<Option<Inv>> {
        self.seats@
    }
}

impl PlayerInventories {
    /// The first entry, from seat `k` onward, of a player who carries `item`.
    pub open spec fn find_from(seats: Seq<Option<Inv>>, item: Entity, k: int) -> Option<Inv>
        decreases seats.len() - k,
    {
        if k < 0 || k >= seats.len() {
            None
        } else {
            match seats[k] {
                Some(inv) if inv.inventory == item => Some(inv),
                _ => Self::find_from(seats, item, k + 1),
            }
        }
    }

    /// The entry of the player in the lowest seat who carries `item`.
    pub open spec fn find_item_spec(seats: Seq<Option<Inv>>, item: Entity) -> Option<Inv> {
        Self::find_from(seats, item, 0)
    }

    /// The seats with nobody carrying anything.
    pub open spec fn empty_seats() -> Seq<Option<Inv>> {
        Seq::new(MAX_PLAYERS as nat, |k: int| None::<Inv>)
    }

    /// What slot `i` of the store adds to the snapshot: a live player in a valid seat
    /// who carries something takes that seat's entry.
    pub open spec fn record(seats: Seq<Option<Inv>>, w: WorldView, i: int) -> Seq<Option<Inv>> {
        let e = w.entities[i];
        match (e.player_idx, e.inventory) {
            (Some(idx), Some(Inventory(Some(item)))) if e.alive && idx.0 < MAX_PLAYERS => seats.update(
                idx.0 as int,
                Some(Inv { player: Entity { index: i as usize }, inventory: item }),
            ),
            _ => seats,
        }
    }

    /// The snapshot after the first `n` slots of the store.
    pub open spec fn snapshot_upto(w: WorldView, n: int) -> Seq<Option<Inv>>
        decreases n,
    {
        if n <= 0 {
            Self::empty_seats()
        } else {
            Self::record(Self::snapshot_upto(w, n - 1), w, n - 1)
        }
    }

    /// The snapshot of a world: for each seat, the player in that seat who carries
    /// something, together with what it carries. Should several entities claim one
    /// seat, the one stored last has it.
    pub open spec fn snapshot(w: WorldView) -> Seq<Option<Inv>> {
        Self::snapshot_upto(w, w.entities.len() as int)
    }

    /// Takes the snapshot of `world`.
    pub fn get_state(world: &World) -> (inventories: PlayerInventories)
        ensures
            inventories@ == Self::snapshot(world@),
            inventories@.len() == MAX_PLAYERS,
    {
        let mut seats: Vec<Option<Inv>> = Vec::new();
        let mut k: u32 = 0;
        while k < MAX_PLAYERS
            invariant
                k <= MAX_PLAYERS,
                seats@.len() == k,
                forall|j: int| 0 <= j < k ==> seats@[j] == None::<Inv>,
            decreases MAX_PLAYERS - k,
        {
            seats.push(None);
            k = k + 1;
        }
        assert(seats@ =~= Self::empty_seats());
        let mut i: usize = 0;
        while i < world.entities.len()
            invariant
                i <= world@.entities.len(),
                seats@.len() == MAX_PLAYERS,
                seats@ == Self::snapshot_upto(world@, i as int),
            decreases world@.entities.len() - i,
        {
            let e = world.entities[i];
            if e.alive {
                if let Some(idx) = e.player_idx {
                    if idx.0 < MAX_PLAYERS {
                        if let Some(Inventory(Some(item))) = e.inventory {
                            seats.set(idx.0 as usize, Some(Inv { player: Entity { index: i }, inventory: item }));
                        }
                    }
                }
            }
            i = i + 1;
        }
        PlayerInventories { seats }
    }

    /// The player who carries `item`, if any. The search takes one step per seat.
    pub fn find_item(&self, item: Entity) -> (found: Option<Inv>)
        ensures
            found == Self::find_item_spec(self@, item),
    {
        let mut k: usize = 0;
        while k < self.seats.len()
            invariant
                k <= self.seats@.len(),
                Self::find_from(self@, item, k as int) == Self::find_from(self@, item, 0),
            decreases self.seats@.len() - k,
        {
            if let Some(inv) = self.seats[k] {
                if inv.inventory.index == item.index {
                    return Some(inv);
                }
            }
            k = k + 1;
        }
        None
    }
}

/// What a lookup finds is right: the entry found sits in a seat, names the item, and no
/// lower seat holds the item; and when nothing is found, no seat holds the item.
pub proof fn lemma_find_item_is_first(seats: Seq<Option<Inv>>, item: Entity, k: int)
    requires
        0 <= k <= seats.len(),
    ensures
        match PlayerInventories::find_from(seats, item, k) {
            Some(inv) => inv.inventory == item && exists|j: int|
                k <= j < seats.len() && #[trigger] seats[j] == Some(inv) && forall|m: int|
                    k <= m < j ==> !((#[trigger] seats[m]) matches Some(other) && other.inventory == item),
            None => forall|j: int|
                k <= j < seats.len() ==> !((#[trigger] seats[j]) matches Some(other) && other.inventory
                    == item),
        },
    decreases seats.len() - k,
{
    if k < seats.len() {
        if seats[k] matches Some(inv) && inv.inventory == item {
            assert(seats[k] == Some(seats[k].unwrap()));
        } else {
            lemma_find_item_is_first(seats, item, k + 1);
            match PlayerInventories::find_from(seats, item, k + 1) {
                Some(inv) => {
                    let j = choose|j: int|
                        k + 1 <= j < seats.len() && #[trigger] seats[j] == Some(inv) && forall|m: int|
                            k + 1 <= m < j ==> !((#[trigger] seats[m]) matches Some(other) && other.inventory
                                == item);
                    assert(k <= j < seats.len() && seats[j] == Some(inv) && forall|m: int|
                        k <= m < j ==> !((#[trigger] seats[m]) matches Some(other) && other.inventory == item));
                },
                None => {},
            }
        }
    }
}

/// The slot `i` of the store holds a player in seat `seat` who carries something.
pub open spec fn carries_in_seat(w: WorldView, i: int, seat: int) -> bool {
    let e = w.entities[i];
    match (e.player_idx, e.inventory) {
        (Some(idx), Some(Inventory(Some(_)))) => e.alive && idx.0 == seat,
        _ => false,
    }
}

/// What the snapshot holds is right. An entry in a seat names a live player in that
/// seat and the item in that player's inventory, and among the players who claim the
/// seat and carry something it is the one stored last. An empty seat means that no
/// player in it carries anything.
pub proof fn lemma_snapshot_is_right(w: WorldView, n: int, seat: int)
    requires
        0 <= n <= w.entities.len() <= usize::MAX,
        0 <= seat < MAX_PLAYERS,
    ensures
        PlayerInventories::snapshot_upto(w, n).len() == MAX_PLAYERS,
        match PlayerInventories::snapshot_upto(w, n)[seat] {
            Some(inv) => {
                &&& 0 <= inv.player.index < n
                &&& carries_in_seat(w, inv.player.index as int, seat)
                &&& w.entities[inv.player.index as int].inventory == Some(Inventory(Some(inv.inventory)))
                &&& forall|j: int| inv.player.index < j < n ==> !carries_in_seat(w, j, seat)
            },
            None => forall|j: int| 0 <= j < n ==> !carries_in_seat(w, j, seat),
        },
    decreases n,
{
    if n > 0 {
        lemma_snapshot_is_right(w, n - 1, seat);
        let e = w.entities[n - 1];
        match e.player_idx {
            Some(idx) => {
                if idx.0 < MAX_PLAYERS {
                    if idx.0 != seat {
                        lemma_snapshot_is_right(w, n - 1, idx.0 as int);
                    }
                }
            },
            None => {},
        }
    }
}

} // verus!
