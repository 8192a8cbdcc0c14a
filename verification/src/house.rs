//! Rooms and the smart house: a mapping from room name to the set of
//! device-type labels present in that room, with membership queries.

use vstd::prelude::*;
use crate::providers::DeviceInfoProvider;

verus! {

/// A collection of device-type labels present in one room. The labels are
/// read with set semantics: order and duplicates in the backing vector do
/// not matter to any query.
#[derive(Clone)]
pub struct Room {
    pub devices: Vec<String>,
}

impl Room {
    /// True iff this room lists the given device-type label.
    pub open spec fn has_label(&self, label: Seq<char>) -> bool {
        exists|i: int| 0 <= i < self.devices@.len() && self.devices@[i]@ == label
    }
}

/// True iff no two entries share a room name.
pub open spec fn distinct_names(entries: Seq<(String, Room)>) -> bool {
    forall|i: int, j: int|
        0 <= i < j < entries.len() ==> entries[i].0@ != entries[j].0@
}

/// A house: owns a mapping from room name to room, constructed once and
/// never mutated afterward.
pub struct SmartHouse {
    rooms: Vec<(String, Room)>,
}

impl SmartHouse {
    /// The owned room mapping, as (name, room) entries.
    pub closed spec fn entries(&self) -> Seq<(String, Room)> {
        self.rooms@
    }

    /// Room names are unique keys of the mapping.
    pub open spec fn wf(&self) -> bool {
        distinct_names(self.entries())
    }

    /// True iff at least one room of the house lists the label.
    pub open spec fn spec_has_device(&self, label: Seq<char>) -> bool {
        exists|i: int| 0 <= i < self.entries().len() && self.entries()[i].1.has_label(label)
    }

    /// True iff the house has a room of that name.
    pub open spec fn spec_has_room(&self, name: Seq<char>) -> bool {
        exists|i: int| 0 <= i < self.entries().len() && self.entries()[i].0@ == name
    }

    /// Constructs a house that takes ownership of the supplied room mapping.
    pub fn new(rooms: Vec<(String, Room)>) -> (house: Self)
        requires
            distinct_names(rooms@),
        ensures
            house.entries() == rooms@,
            house.wf(),
    {
        Self { rooms }
    }

    /// True iff at least one room's device-label collection contains
    /// `device_key`. Unknown labels simply yield false.
    pub fn exists_device(&self, device_key: &str) -> (present: bool)
        ensures
            present == self.spec_has_device(device_key@),
    {
        let mut has_device = false;
        let key: String = device_key.to_owned();
        let room_count = self.rooms.len();
        let mut r: usize = 0;
        while r < room_count
            invariant
                room_count == self.entries().len(),
                r <= room_count,
                key@ == device_key@,
                has_device == (exists|i: int|
                    0 <= i < r && self.entries()[i].1.has_label(device_key@)),
            decreases room_count - r,
        {
            let room = &self.rooms[r].1;
            let device_count = room.devices.len();
            let mut d: usize = 0;
            while d < device_count
                invariant
                    room == &self.entries()[r as int].1,
                    0 <= r < self.entries().len(),
                    device_count == room.devices@.len(),
                    d <= device_count,
                    key@ == device_key@,
                    has_device == ((exists|i: int|
                        0 <= i < r && self.entries()[i].1.has_label(device_key@))
                        || (exists|j: int| 0 <= j < d && room.devices@[j]@ == device_key@)),
                decreases device_count - d,
            {
                if room.devices[d] == key {
                    has_device = true;
                }
                d += 1;
            }
            r += 1;
        }
        has_device
    }

    /// The names of all rooms, in the order the mapping holds them.
    pub fn get_rooms(&self) -> (names: Vec<String>)
        ensures
            names@.len() == self.entries().len(),
            forall|i: int| 0 <= i < names@.len() ==> names@[i]@ == self.entries()[i].0@,
    {
        let mut names: Vec<String> = Vec::new();
        let room_count = self.rooms.len();
        let mut r: usize = 0;
        while r < room_count
            invariant
                room_count == self.entries().len(),
                r <= room_count,
                names@.len() == r,
                forall|i: int| 0 <= i < r ==> names@[i]@ == self.entries()[i].0@,
            decreases room_count - r,
        {
            names.push(self.rooms[r].0.clone());
            r += 1;
        }
        names
    }

    /// The device-type labels of the room with the given name, which must
    /// exist in the house.
    pub fn devices(&self, room: &String) -> (labels: Vec<String>)
        requires
            self.wf(),
            self.spec_has_room(room@),
        ensures
            exists|i: int|
                0 <= i < self.entries().len() && self.entries()[i].0@ == room@
                    && labels@.len() == self.entries()[i].1.devices@.len()
                    && (forall|j: int|
                        0 <= j < labels@.len() ==> labels@[j]@
                            == self.entries()[i].1.devices@[j]@),
    {
        let room_count = self.rooms.len();
        let mut r: usize = 0;
        while r < room_count
            invariant
                room_count == self.entries().len(),
                r <= room_count,
                self.spec_has_room(room@),
                forall|i: int| 0 <= i < r ==> self.entries()[i].0@ != room@,
            decreases room_count - r,
        {
            if self.rooms[r].0 == *room {
                let source = &self.rooms[r].1.devices;
                let device_count = source.len();
                let mut labels: Vec<String> = Vec::new();
                let mut d: usize = 0;
                while d < device_count
                    invariant
                        0 <= r < self.entries().len(),
                        device_count == self.entries()[r as int].1.devices@.len(),
                        source == &self.entries()[r as int].1.devices,
                        d <= device_count,
                        labels@.len() == d,
                        forall|j: int| 0 <= j < d ==> labels@[j]@ == source@[j]@,
                    decreases device_count - d,
                {
                    labels.push(source[d].clone());
                    d += 1;
                }
                return labels;
            }
            r += 1;
        }
        vstd::pervasive::unreached()
    }

    /// Delegates report creation to the chosen provider.
    pub fn create_report<P: DeviceInfoProvider>(&self, provider: &P) -> (report: String)
        ensures
            report@ == provider.report_string(self),
    {
        provider.get_device_state(self)
    }
}

} // verus!
