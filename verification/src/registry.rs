//! The configured sensors: which address stands in which room.

use vstd::prelude::*;
use crate::address::SensorAddress;

verus! {

/// One configured sensor.
#[derive(Clone, Debug, PartialEq, Eq)]
pub struct SensorEntry {
    pub addr: SensorAddress,
    pub room: String,
}

/// The configured sensors. No address occurs twice.
pub struct SensorRegistry {
    entries: Vec<SensorEntry>,
}

/// Whether no address occurs twice in a list of sensors.
pub open spec fn distinct(sensors: Seq<(SensorAddress, Seq<char>)>) -> bool {
    forall|i: int, j: int|
        0 <= i < j < sensors.len() ==> (#[trigger] sensors[i]).0 != (#[trigger] sensors[j]).0
}

/// The mapping from address to room that a list of sensors stands for.
pub open spec fn rooms(sensors: Seq<(SensorAddress, Seq<char>)>) -> Map<SensorAddress, Seq<char>>
    decreases sensors.len(),
{
    if sensors.len() == 0 {
        Map::empty()
    } else {
        rooms(sensors.drop_last()).insert(sensors.last().0, sensors.last().1)
    }
}

/// An address has a room exactly where it occurs in the list.
pub proof fn lemma_rooms_domain(sensors: Seq<(SensorAddress, Seq<char>)>, addr: SensorAddress)
    ensures
        rooms(sensors).contains_key(addr) <==> exists|i: int|
            0 <= i < sensors.len() && (#[trigger] sensors[i]).0 == addr,
    decreases sensors.len(),
{
    if sensors.len() > 0 {
        let front = sensors.drop_last();
        lemma_rooms_domain(front, addr);
        if rooms(front).contains_key(addr) {
            let i = choose|i: int| 0 <= i < front.len() && (#[trigger] front[i]).0 == addr;
            assert(sensors[i].0 == addr);
        }
        if exists|i: int| 0 <= i < sensors.len() && (#[trigger] sensors[i]).0 == addr {
            let i = choose|i: int| 0 <= i < sensors.len() && (#[trigger] sensors[i]).0 == addr;
            if i < sensors.len() - 1 {
                assert(front[i].0 == addr);
            }
        }
    }
}

/// Where no address occurs twice in a list, none does in the list without
/// its last sensor.
proof fn lemma_distinct_front(sensors: Seq<(SensorAddress, Seq<char>)>)
    requires
        distinct(sensors),
        sensors.len() > 0,
    ensures
        distinct(sensors.drop_last()),
{
    let front = sensors.drop_last();
    assert forall|a: int, b: int| 0 <= a < b < front.len() implies (#[trigger] front[a]).0 != (
    #[trigger] front[b]).0 by {
        assert(sensors[a].0 != sensors[b].0);
    }
}

/// Where no address occurs twice, each sensor of the list has its own room.
pub proof fn lemma_rooms_value(sensors: Seq<(SensorAddress, Seq<char>)>, i: int)
    requires
        distinct(sensors),
        0 <= i < sensors.len(),
    ensures
        rooms(sensors).contains_key(sensors[i].0),
        rooms(sensors)[sensors[i].0] == sensors[i].1,
    decreases sensors.len(),
{
    if i < sensors.len() - 1 {
        lemma_distinct_front(sensors);
        lemma_rooms_value(sensors.drop_last(), i);
        assert(sensors[i].0 != sensors[sensors.len() - 1].0);
    }
}

/// Where no address occurs twice, giving one sensor of the list another room
/// changes the mapping at that address only.
pub proof fn lemma_rooms_update(
    sensors: Seq<(SensorAddress, Seq<char>)>,
    i: int,
    room: Seq<char>,
)
    requires
        distinct(sensors),
        0 <= i < sensors.len(),
    ensures
        rooms(sensors.update(i, (sensors[i].0, room))) == rooms(sensors).insert(
            sensors[i].0,
            room,
        ),
        distinct(sensors.update(i, (sensors[i].0, room))),
    decreases sensors.len(),
{
    let addr = sensors[i].0;
    let changed = sensors.update(i, (addr, room));
    let front = sensors.drop_last();
    assert forall|a: int, b: int| 0 <= a < b < changed.len() implies (#[trigger] changed[a]).0 != (
    #[trigger] changed[b]).0 by {
        assert(sensors[a].0 != sensors[b].0);
    }
    if i == sensors.len() - 1 {
        assert(changed.drop_last() =~= front);
    } else {
        lemma_distinct_front(sensors);
        lemma_rooms_update(front, i, room);
        assert(changed.drop_last() =~= front.update(i, (addr, room)));
        assert(sensors[i].0 != sensors[sensors.len() - 1].0);
    }
    assert(rooms(changed) =~= rooms(sensors).insert(addr, room));
}

impl SensorRegistry {
    #[verifier::type_invariant]
    spec fn no_address_twice(self) -> bool {
        distinct(self.sensors())
    }

    /// The sensors in the order in which their addresses were first inserted.
    pub closed spec fn sensors(self) -> Seq<(SensorAddress, Seq<char>)> {
        self.entries@.map_values(|entry: SensorEntry| (entry.addr, entry.room@))
    }

    /// A registry without sensors.
    pub fn new() -> (registry: SensorRegistry)
        ensures
            registry.sensors() == Seq::<(SensorAddress, Seq<char>)>::empty(),
            registry@ == Map::<SensorAddress, Seq<char>>::empty(),
    {
        let registry = SensorRegistry { entries: Vec::new() };
        registry
    }

    /// The place of an address among the entries.
    fn position(&self, addr: &SensorAddress) -> (found: Option<usize>)
        ensures
            found matches Some(i) ==> i < self.sensors().len() && self.sensors()[i as int].0
                == *addr,
            found is None ==> forall|i: int|
                0 <= i < self.sensors().len() ==> (#[trigger] self.sensors()[i]).0 != *addr,
    {
        let mut i: usize = 0;
        while i < self.entries.len()
            invariant
                i <= self.entries@.len(),
                self.sensors().len() == self.entries@.len(),
                forall|k: int| 0 <= k < i ==> (#[trigger] self.sensors()[k]).0 != *addr,
            decreases self.entries@.len() - i,
        {
            if self.entries[i].addr.same(addr) {
                return Some(i);
            }
            i += 1;
        }
        None
    }

    /// How many sensors are configured.
    pub fn len(&self) -> (n: usize)
        ensures
            n == self.sensors().len(),
            distinct(self.sensors()),
    {
        proof {
            use_type_invariant(self);
        }
        self.entries.len()
    }

    /// The sensor at a place of the list.
    pub fn entry(&self, i: usize) -> (entry: &SensorEntry)
        requires
            i < self.sensors().len(),
        ensures
            (entry.addr, entry.room@) == self.sensors()[i as int],
    {
        &self.entries[i]
    }

    /// The room of a sensor, if the sensor is configured.
    pub fn room_of(&self, addr: &SensorAddress) -> (room: Option<&String>)
        ensures
            room matches Some(name) ==> self@.contains_key(*addr) && self@[*addr] == name@,
            room is None ==> !self@.contains_key(*addr),
    {
        proof {
            use_type_invariant(self);
            lemma_rooms_domain(self.sensors(), *addr);
        }
        match self.position(addr) {
            Some(i) => {
                proof {
                    lemma_rooms_value(self.sensors(), i as int);
                }
                Some(&self.entries[i].room)
            },
            None => None,
        }
    }

    /// Puts a sensor into a room. A sensor that is configured already moves
    /// to the new room and keeps its place in the list.
    pub fn insert(&mut self, addr: SensorAddress, room: String)
        ensures
            final(self)@ == old(self)@.insert(addr, room@),
            old(self)@.contains_key(addr) ==> exists|i: int|
                0 <= i < old(self).sensors().len() && (#[trigger] old(self).sensors()[i]).0 == addr
                    && final(self).sensors() == old(self).sensors().update(i, (addr, room@)),
            !old(self)@.contains_key(addr) ==> final(self).sensors() == old(self).sensors().push(
                (addr, room@),
            ),
    {
        let ghost before = self.sensors();
        let ghost name = room@;
        proof {
            use_type_invariant(&*self);
            lemma_rooms_domain(before, addr);
        }
        let found = self.position(&addr);
        let mut entries: Vec<SensorEntry> = Vec::new();
        core::mem::swap(&mut self.entries, &mut entries);
        match found {
            Some(i) => {
                entries[i] = SensorEntry { addr, room };
                proof {
                    lemma_rooms_update(before, i as int, name);
                    assert(entries@.map_values(|entry: SensorEntry| (entry.addr, entry.room@))
                        =~= before.update(i as int, (addr, name)));
                }
            },
            None => {
                entries.push(SensorEntry { addr, room });
                proof {
                    let after = before.push((addr, name));
                    assert(entries@.map_values(|entry: SensorEntry| (entry.addr, entry.room@))
                        =~= after);
                    assert(after.drop_last() =~= before);
                    assert forall|a: int, b: int| 0 <= a < b < after.len() implies (
                    #[trigger] after[a]).0 != (#[trigger] after[b]).0 by {
                        if b < before.len() {
                            assert(before[a].0 != before[b].0);
                        } else {
                            assert(before[a].0 != addr);
                        }
                    }
                }
            },
        }
        self.entries = entries;
    }
}

impl View for SensorRegistry {
    type V = Map<SensorAddress, Seq<char>>;

    open spec fn view(&self) -> Map<SensorAddress, Seq<char>> {
        rooms(self.sensors())
    }
}

} // verus!
