//! What the host hands to each operation: the records that the operation
//! touches, the addresses at which they are stored, and who signed.
//!
//! An operation changes the records in place. When it fails it leaves all
//! of them as they were.

use vstd::prelude::*;

use crate::address::Address;
use crate::state::{
    IoTData, IoTDataView, Machine, MachineView, PlantData, PlantDataView, SystemState,
    SystemStateView, IMAGE_REWARD, UPLOAD_REWARD, USE_REWARD,
};

verus! {

/// For `initialize`: the place of the system record, empty until the system
/// is initialized, and the signer who will control it.
#[derive(Clone, Debug, PartialEq, Eq)]
pub struct Initialize {
    pub system_state: Option<SystemState>,
    pub authority: Address,
}

pub struct InitializeView {
    pub system_state: Option<SystemStateView>,
    pub authority: Seq<u8>,
}

impl View for Initialize {
    type V = InitializeView;

    open spec fn view(&self) -> InitializeView {
        InitializeView {
            system_state: match self.system_state {
                Some(state) => Some(state@),
                None => None,
            },
            authority: self.authority@,
        }
    }
}

/// For `register_machine`: the system, the address at which the new
/// machine's record will be stored, the signer who will own the machine,
/// and the address of the program that keeps the ledger.
#[derive(Clone, Debug, PartialEq, Eq)]
pub struct RegisterMachine {
    pub system_state: SystemState,
    pub machine: Address,
    pub user: Address,
    pub program_id: Address,
}

pub struct RegisterMachineView {
    pub system_state: SystemStateView,
    pub machine: Seq<u8>,
    pub user: Seq<u8>,
    pub program_id: Seq<u8>,
}

impl View for RegisterMachine {
    type V = RegisterMachineView;

    open spec fn view(&self) -> RegisterMachineView {
        RegisterMachineView {
            system_state: self.system_state@,
            machine: self.machine@,
            user: self.user@,
            program_id: self.program_id@,
        }
    }
}

/// For `create_plant`: the system, the address at which the new plant's
/// record will be stored, and the signer who creates the plant.
#[derive(Clone, Debug, PartialEq, Eq)]
pub struct CreatePlant {
    pub system_state: SystemState,
    pub plant: Address,
    pub user: Address,
}

pub struct CreatePlantView {
    pub system_state: SystemStateView,
    pub plant: Seq<u8>,
    pub user: Seq<u8>,
}

impl View for CreatePlant {
    type V = CreatePlantView;

    open spec fn view(&self) -> CreatePlantView {
        CreatePlantView {
            system_state: self.system_state@,
            plant: self.plant@,
            user: self.user@,
        }
    }
}

/// For `start_machine` and `stop_machine`: the machine and the signer.
#[derive(Clone, Debug, PartialEq, Eq)]
pub struct ControlMachine {
    pub machine: Machine,
    pub user: Address,
}

pub struct ControlMachineView {
    pub machine: MachineView,
    pub user: Seq<u8>,
}

impl View for ControlMachine {
    type V = ControlMachineView;

    open spec fn view(&self) -> ControlMachineView {
        ControlMachineView { machine: self.machine@, user: self.user@ }
    }
}

/// For `upload_data`: the system, the machine that uploads and the plant
/// that the reading is about, each with the address of its record, and the
/// signer who pays for the new record.
#[derive(Clone, Debug, PartialEq, Eq)]
pub struct UploadData {
    pub system_state: SystemState,
    pub machine: Machine,
    pub machine_key: Address,
    pub plant: PlantData,
    pub plant_key: Address,
    pub payer: Address,
}

pub struct UploadDataView {
    pub system_state: SystemStateView,
    pub machine: MachineView,
    pub machine_key: Seq<u8>,
    pub plant: PlantDataView,
    pub plant_key: Seq<u8>,
    pub payer: Seq<u8>,
}

impl View for UploadData {
    type V = UploadDataView;

    open spec fn view(&self) -> UploadDataView {
        UploadDataView {
            system_state: self.system_state@,
            machine: self.machine@,
            machine_key: self.machine_key@,
            plant: self.plant@,
            plant_key: self.plant_key@,
            payer: self.payer@,
        }
    }
}

impl UploadData {
    /// Whether every counter that an upload raises can still be raised.
    pub open spec fn has_room(&self, with_image: bool) -> bool {
        &&& self.system_state.total_data_uploads < u64::MAX
        &&& self.machine.data_count < u64::MAX
        &&& self.plant.data_count < u64::MAX
        &&& self.machine.rewards_earned + MachineView::upload_reward(with_image) <= u64::MAX
        &&& with_image ==> self.machine.image_count < u64::MAX && self.plant.image_count
            < u64::MAX
    }

    /// Tells whether every counter that an upload raises can still be
    /// raised.
    pub fn check_room(&self, with_image: bool) -> (ok: bool)
        ensures
            ok == self.has_room(with_image),
    {
        let reward: u64 = if with_image {
            IMAGE_REWARD + UPLOAD_REWARD
        } else {
            UPLOAD_REWARD
        };
        self.system_state.total_data_uploads < u64::MAX && self.machine.data_count < u64::MAX
            && self.plant.data_count < u64::MAX && self.machine.rewards_earned <= u64::MAX - reward
            && (!with_image || (self.machine.image_count < u64::MAX && self.plant.image_count
            < u64::MAX))
    }
}

/// For `use_data`: the system, the machine that uploaded the reading, the
/// reading, and the signer who uses it.
#[derive(Clone, Debug, PartialEq, Eq)]
pub struct UseData {
    pub system_state: SystemState,
    pub machine: Machine,
    pub data: IoTData,
    pub user: Address,
}

pub struct UseDataView {
    pub system_state: SystemStateView,
    pub machine: MachineView,
    pub data: IoTDataView,
    pub user: Seq<u8>,
}

impl View for UseData {
    type V = UseDataView;

    open spec fn view(&self) -> UseDataView {
        UseDataView {
            system_state: self.system_state@,
            machine: self.machine@,
            data: self.data@,
            user: self.user@,
        }
    }
}

impl UseData {
    /// Whether every counter that a use raises can still be raised.
    pub open spec fn has_room(&self) -> bool {
        &&& self.data.used_count < u64::MAX
        &&& self.machine.data_used_count < u64::MAX
        &&& self.system_state.data_request_count < u64::MAX
        &&& self.machine.rewards_earned + USE_REWARD <= u64::MAX
    }

    /// Tells whether every counter that a use raises can still be raised.
    pub fn check_room(&self) -> (ok: bool)
        ensures
            ok == self.has_room(),
    {
        self.data.used_count < u64::MAX && self.machine.data_used_count < u64::MAX
            && self.system_state.data_request_count < u64::MAX && self.machine.rewards_earned
            <= u64::MAX - USE_REWARD
    }
}

/// For `claim_rewards`: the machine and the signer.
#[derive(Clone, Debug, PartialEq, Eq)]
pub struct ClaimRewards {
    pub machine: Machine,
    pub user: Address,
}

pub struct ClaimRewardsView {
    pub machine: MachineView,
    pub user: Seq<u8>,
}

impl View for ClaimRewards {
    type V = ClaimRewardsView;

    open spec fn view(&self) -> ClaimRewardsView {
        ClaimRewardsView { machine: self.machine@, user: self.user@ }
    }
}

/// For `generate_machine_auth`: the machine, the signer, the authority
/// address that is presented for the machine, and the address of the
/// program that keeps the ledger.
#[derive(Clone, Debug, PartialEq, Eq)]
pub struct GenerateMachineAuth {
    pub machine: Machine,
    pub user: Address,
    pub auth_pda: Address,
    pub program_id: Address,
}

pub struct GenerateMachineAuthView {
    pub machine: MachineView,
    pub user: Seq<u8>,
    pub auth_pda: Seq<u8>,
    pub program_id: Seq<u8>,
}

impl View for GenerateMachineAuth {
    type V = GenerateMachineAuthView;

    open spec fn view(&self) -> GenerateMachineAuthView {
        GenerateMachineAuthView {
            machine: self.machine@,
            user: self.user@,
            auth_pda: self.auth_pda@,
            program_id: self.program_id@,
        }
    }
}

} // verus!
