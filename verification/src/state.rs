//! The four kinds of record that the ledger keeps, and what each of them is
//! as a mathematical value.
//!
//! A record's view has unbounded counters. The rules of the ledger are
//! stated on views; the operations change records and say which view
//! results.

use vstd::prelude::*;
use vstd::utf8::encode_utf8;

use crate::address::Address;

verus! {

/// Most bytes that a machine identifier or a plant name may have.
pub const MAX_NAME_BYTES: usize = 32;

/// Most bytes that an image URL may have.
pub const MAX_IMAGE_URL_BYTES: usize = 100;

/// Reward units granted for every upload.
pub const UPLOAD_REWARD: u64 = 1;

/// Reward units granted on top for an upload that carries an image.
pub const IMAGE_REWARD: u64 = 10;

/// Reward units granted to a machine each time its data is used.
pub const USE_REWARD: u64 = 2;

/// Number of bytes that a text takes in a record.
pub open spec fn byte_len(text: Seq<char>) -> nat {
    encode_utf8(text).len()
}

/// A catalog as a sequence of pairs of a name and an address.
pub open spec fn catalog_view(entries: Seq<(String, Address)>) -> Seq<(Seq<char>, Seq<u8>)> {
    Seq::new(entries.len(), |i: int| (entries[i].0@, entries[i].1@))
}

/// Whether some entry of the catalog has this name.
pub open spec fn catalog_has_name(catalog: Seq<(Seq<char>, Seq<u8>)>, name: Seq<char>) -> bool {
    exists|i: int| 0 <= i < catalog.len() && (#[trigger] catalog[i]).0 == name
}

/// Whether some entry of the catalog has this address.
pub open spec fn catalog_has_address(catalog: Seq<(Seq<char>, Seq<u8>)>, address: Seq<u8>) -> bool {
    exists|i: int| 0 <= i < catalog.len() && (#[trigger] catalog[i]).1 == address
}

/// The one record of the whole system: who controls it, how much has
/// happened, and the catalogs of machines and plants.
#[derive(Clone, Debug, PartialEq, Eq)]
pub struct SystemState {
    pub authority: Address,
    pub machine_count: u64,
    pub total_data_uploads: u64,
    pub data_request_count: u64,
    pub plant_count: u64,
    /// Machine identifier and address of the machine's record, in the order
    /// of registration.
    pub machines: Vec<(String, Address)>,
    /// Plant name and address of the plant's record, in the order of
    /// creation.
    pub plants: Vec<(String, Address)>,
}

pub struct SystemStateView {
    pub authority: Seq<u8>,
    pub machine_count: nat,
    pub total_data_uploads: nat,
    pub data_request_count: nat,
    pub plant_count: nat,
    pub machines: Seq<(Seq<char>, Seq<u8>)>,
    pub plants: Seq<(Seq<char>, Seq<u8>)>,
}

impl View for SystemState {
    type V = SystemStateView;

    open spec fn view(&self) -> SystemStateView {
        SystemStateView {
            authority: self.authority@,
            machine_count: self.machine_count as nat,
            total_data_uploads: self.total_data_uploads as nat,
            data_request_count: self.data_request_count as nat,
            plant_count: self.plant_count as nat,
            machines: catalog_view(self.machines@),
            plants: catalog_view(self.plants@),
        }
    }
}

impl SystemState {
    /// Tells whether a machine with this identifier is in the catalog. The
    /// identifiers are compared character by character.
    pub fn has_machine(&self, machine_id: &String) -> (found: bool)
        ensures
            found == self@.has_machine(machine_id@),
    {
        let ghost catalog = catalog_view(self.machines@);
        let mut i: usize = 0;
        while i < self.machines.len()
            invariant
                i <= self.machines@.len(),
                catalog == catalog_view(self.machines@),
                forall|j: int| 0 <= j < i ==> (#[trigger] catalog[j]).0 != machine_id@,
            decreases self.machines@.len() - i,
        {
            if self.machines[i].0 == *machine_id {
                assert(catalog[i as int].0 == machine_id@);
                return true;
            }
            i += 1;
        }
        false
    }

    /// Tells whether a plant at this address is in the catalog.
    pub fn has_plant(&self, plant: &Address) -> (found: bool)
        ensures
            found == self@.has_plant(plant@),
    {
        let ghost catalog = catalog_view(self.plants@);
        let mut i: usize = 0;
        while i < self.plants.len()
            invariant
                i <= self.plants@.len(),
                catalog == catalog_view(self.plants@),
                forall|j: int| 0 <= j < i ==> (#[trigger] catalog[j]).1 != plant@,
            decreases self.plants@.len() - i,
        {
            if self.plants[i].1 == *plant {
                assert(catalog[i as int].1 == plant@);
                return true;
            }
            i += 1;
        }
        false
    }
}

impl SystemStateView {
    /// The system right after initialization.
    pub open spec fn fresh(authority: Seq<u8>) -> SystemStateView {
        SystemStateView {
            authority,
            machine_count: 0,
            total_data_uploads: 0,
            data_request_count: 0,
            plant_count: 0,
            machines: Seq::empty(),
            plants: Seq::empty(),
        }
    }

    /// Whether a machine with this identifier is in the catalog.
    pub open spec fn has_machine(self, machine_id: Seq<char>) -> bool {
        catalog_has_name(self.machines, machine_id)
    }

    /// Whether a plant at this address is in the catalog.
    pub open spec fn has_plant(self, plant: Seq<u8>) -> bool {
        catalog_has_address(self.plants, plant)
    }

    /// No two entries of the machine catalog have the same identifier.
    pub open spec fn machine_ids_distinct(self) -> bool {
        forall|i: int, j: int|
            0 <= i < j < self.machines.len() ==> (#[trigger] self.machines[i]).0 != (
            #[trigger] self.machines[j]).0
    }

    /// What holds of the system after every operation: the counts are the
    /// lengths of the catalogs, and no machine identifier occurs twice.
    pub open spec fn inv(self) -> bool {
        &&& self.machine_count == self.machines.len()
        &&& self.plant_count == self.plants.len()
        &&& self.machine_ids_distinct()
    }

    /// Whether this system can have come from `earlier`: the same authority,
    /// no counter lower, and each catalog the earlier one with entries added
    /// at its end.
    pub open spec fn extends(self, earlier: SystemStateView) -> bool {
        &&& self.authority == earlier.authority
        &&& self.machine_count >= earlier.machine_count
        &&& self.plant_count >= earlier.plant_count
        &&& self.total_data_uploads >= earlier.total_data_uploads
        &&& self.data_request_count >= earlier.data_request_count
        &&& earlier.machines.is_prefix_of(self.machines)
        &&& earlier.plants.is_prefix_of(self.plants)
    }

    /// The system with one more machine at the end of its catalog.
    pub open spec fn with_machine(self, machine_id: Seq<char>, machine: Seq<u8>) -> SystemStateView {
        SystemStateView {
            machine_count: self.machine_count + 1,
            machines: self.machines.push((machine_id, machine)),
            ..self
        }
    }

    /// The system with one more plant at the end of its catalog.
    pub open spec fn with_plant(self, plant_name: Seq<char>, plant: Seq<u8>) -> SystemStateView {
        SystemStateView {
            plant_count: self.plant_count + 1,
            plants: self.plants.push((plant_name, plant)),
            ..self
        }
    }

    /// The system after one more upload.
    pub open spec fn with_upload(self) -> SystemStateView {
        SystemStateView { total_data_uploads: self.total_data_uploads + 1, ..self }
    }

    /// The system after one more use of data.
    pub open spec fn with_data_request(self) -> SystemStateView {
        SystemStateView { data_request_count: self.data_request_count + 1, ..self }
    }
}

/// A registered sensing device.
#[derive(Clone, Debug, PartialEq, Eq)]
pub struct Machine {
    pub owner: Address,
    pub machine_id: String,
    pub is_active: bool,
    pub data_count: u64,
    pub image_count: u64,
    pub rewards_earned: u64,
    pub last_data_timestamp: i64,
    pub last_image_timestamp: i64,
    pub data_used_count: u64,
    /// The bump seed that derives this machine's authority address.
    pub auth_bump: u8,
}

pub struct MachineView {
    pub owner: Seq<u8>,
    pub machine_id: Seq<char>,
    pub is_active: bool,
    pub data_count: nat,
    pub image_count: nat,
    pub rewards_earned: nat,
    pub last_data_timestamp: int,
    pub last_image_timestamp: int,
    pub data_used_count: nat,
    pub auth_bump: u8,
}

impl View for Machine {
    type V = MachineView;

    open spec fn view(&self) -> MachineView {
        MachineView {
            owner: self.owner@,
            machine_id: self.machine_id@,
            is_active: self.is_active,
            data_count: self.data_count as nat,
            image_count: self.image_count as nat,
            rewards_earned: self.rewards_earned as nat,
            last_data_timestamp: self.last_data_timestamp as int,
            last_image_timestamp: self.last_image_timestamp as int,
            data_used_count: self.data_used_count as nat,
            auth_bump: self.auth_bump,
        }
    }
}

impl MachineView {
    /// A machine right after registration: stopped, with nothing counted.
    pub open spec fn registered(owner: Seq<u8>, machine_id: Seq<char>, auth_bump: u8) -> MachineView {
        MachineView {
            owner,
            machine_id,
            is_active: false,
            data_count: 0,
            image_count: 0,
            rewards_earned: 0,
            last_data_timestamp: 0,
            last_image_timestamp: 0,
            data_used_count: 0,
            auth_bump,
        }
    }

    /// The machine, started or stopped.
    pub open spec fn with_active(self, is_active: bool) -> MachineView {
        MachineView { is_active, ..self }
    }

    /// Reward units that one upload earns.
    pub open spec fn upload_reward(with_image: bool) -> nat {
        if with_image {
            (IMAGE_REWARD + UPLOAD_REWARD) as nat
        } else {
            UPLOAD_REWARD as nat
        }
    }

    /// The machine after an upload at time `now`.
    pub open spec fn with_upload(self, now: int, with_image: bool) -> MachineView {
        MachineView {
            data_count: self.data_count + 1,
            last_data_timestamp: now,
            image_count: if with_image {
                self.image_count + 1
            } else {
                self.image_count
            },
            last_image_timestamp: if with_image {
                now
            } else {
                self.last_image_timestamp
            },
            rewards_earned: self.rewards_earned + Self::upload_reward(with_image),
            ..self
        }
    }

    /// The machine after one use of its data.
    pub open spec fn with_use(self) -> MachineView {
        MachineView {
            data_used_count: self.data_used_count + 1,
            rewards_earned: self.rewards_earned + USE_REWARD as nat,
            ..self
        }
    }

    /// The machine after its rewards were claimed.
    pub open spec fn with_rewards_claimed(self) -> MachineView {
        MachineView { rewards_earned: 0, ..self }
    }
}

/// A plant that machines report about.
#[derive(Clone, Debug, PartialEq, Eq)]
pub struct PlantData {
    pub creator: Address,
    pub plant_name: String,
    pub data_count: u64,
    pub image_count: u64,
    pub creation_timestamp: i64,
    pub last_update_timestamp: i64,
}

pub struct PlantDataView {
    pub creator: Seq<u8>,
    pub plant_name: Seq<char>,
    pub data_count: nat,
    pub image_count: nat,
    pub creation_timestamp: int,
    pub last_update_timestamp: int,
}

impl View for PlantData {
    type V = PlantDataView;

    open spec fn view(&self) -> PlantDataView {
        PlantDataView {
            creator: self.creator@,
            plant_name: self.plant_name@,
            data_count: self.data_count as nat,
            image_count: self.image_count as nat,
            creation_timestamp: self.creation_timestamp as int,
            last_update_timestamp: self.last_update_timestamp as int,
        }
    }
}

impl PlantDataView {
    /// A plant right after its creation at time `now`.
    pub open spec fn created(creator: Seq<u8>, plant_name: Seq<char>, now: int) -> PlantDataView {
        PlantDataView {
            creator,
            plant_name,
            data_count: 0,
            image_count: 0,
            creation_timestamp: now,
            last_update_timestamp: 0,
        }
    }

    /// The plant after an upload about it at time `now`.
    pub open spec fn with_upload(self, now: int, with_image: bool) -> PlantDataView {
        PlantDataView {
            data_count: self.data_count + 1,
            last_update_timestamp: now,
            image_count: if with_image {
                self.image_count + 1
            } else {
                self.image_count
            },
            ..self
        }
    }
}

/// One reading that a machine uploaded about a plant.
#[derive(Clone, Debug, PartialEq, Eq)]
pub struct IoTData {
    /// Address of the machine's record.
    pub machine: Address,
    /// Address of the plant's record.
    pub plant: Address,
    pub timestamp: i64,
    /// The temperature, a 64-bit floating-point number, as its bits.
    pub temperature: u64,
    /// The humidity, a 64-bit floating-point number, as its bits.
    pub humidity: u64,
    pub image_url: Option<String>,
    pub used_count: u64,
}

pub struct IoTDataView {
    pub machine: Seq<u8>,
    pub plant: Seq<u8>,
    pub timestamp: int,
    pub temperature: u64,
    pub humidity: u64,
    pub image_url: Option<Seq<char>>,
    pub used_count: nat,
}

/// An optional text as an optional sequence of characters.
pub open spec fn text_view(text: Option<String>) -> Option<Seq<char>> {
    match text {
        Some(t) => Some(t@),
        None => None,
    }
}

impl View for IoTData {
    type V = IoTDataView;

    open spec fn view(&self) -> IoTDataView {
        IoTDataView {
            machine: self.machine@,
            plant: self.plant@,
            timestamp: self.timestamp as int,
            temperature: self.temperature,
            humidity: self.humidity,
            image_url: text_view(self.image_url),
            used_count: self.used_count as nat,
        }
    }
}

impl IoTDataView {
    /// A reading right after its upload at time `now`.
    pub open spec fn uploaded(
        machine: Seq<u8>,
        plant: Seq<u8>,
        now: int,
        temperature: u64,
        humidity: u64,
        image_url: Option<Seq<char>>,
    ) -> IoTDataView {
        IoTDataView { machine, plant, timestamp: now, temperature, humidity, image_url, used_count: 0 }
    }

    /// The reading after one more use.
    pub open spec fn with_use(self) -> IoTDataView {
        IoTDataView { used_count: self.used_count + 1, ..self }
    }
}

} // verus!
