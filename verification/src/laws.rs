//! What holds of the ledger whatever requests arrive, proved from the rules
//! of the operations.

use vstd::prelude::*;

use crate::accounts::{
    ClaimRewardsView, ControlMachineView, CreatePlantView, InitializeView, RegisterMachineView,
    UploadDataView, UseDataView,
};
use crate::authority::machine_auth_pda;
use crate::error::ErrorCode;
use crate::ledger::{
    claim_rewards_rule, control_machine_rule, create_plant_rule, initialize_rule,
    register_machine_rule, upload_data_rule, use_data_rule,
};
use crate::state::{IoTDataView, MachineView, PlantDataView, SystemStateView};

verus! {

/// One request to register a machine: who signs, where the machine's
/// record will be stored, and the identifier.
pub struct Registration {
    pub user: Seq<u8>,
    pub machine: Seq<u8>,
    pub machine_id: Seq<char>,
}

/// The system after one request to register a machine, accepted or not.
pub open spec fn after_registration(
    system: SystemStateView,
    program_id: Seq<u8>,
    call: Registration,
) -> SystemStateView {
    let before = RegisterMachineView {
        system_state: system,
        machine: call.machine,
        user: call.user,
        program_id,
    };
    match register_machine_rule(
        before,
        call.machine_id,
        machine_auth_pda(program_id, call.machine_id),
    ) {
        Ok((after, _)) => after.system_state,
        Err(_) => system,
    }
}

/// The system after a sequence of requests to register machines, in order.
pub open spec fn after_registrations(
    system: SystemStateView,
    program_id: Seq<u8>,
    calls: Seq<Registration>,
) -> SystemStateView
    decreases calls.len(),
{
    if calls.len() == 0 {
        system
    } else {
        after_registration(
            after_registrations(system, program_id, calls.drop_last()),
            program_id,
            calls.last(),
        )
    }
}

/// A registration that is accepted keeps what holds of the system, and one
/// that is rejected is rejected whatever the derivation found.
pub proof fn lemma_registration_keeps_inv(
    before: RegisterMachineView,
    machine_id: Seq<char>,
    derived: Option<(Seq<u8>, u8)>,
)
    ensures
        register_machine_rule(before, machine_id, derived) matches Ok((after, _)) ==> {
            &&& before.system_state.machine_ids_distinct()
                ==> after.system_state.machine_ids_distinct()
            &&& before.system_state.inv() ==> after.system_state.inv()
            &&& after.system_state.has_machine(machine_id)
        },
        before.system_state.has_machine(machine_id) ==> register_machine_rule(
            before,
            machine_id,
            derived,
        ) == Err::<(RegisterMachineView, MachineView), ErrorCode>(
            ErrorCode::MachineIdAlreadyExists,
        ),
{
    if let Ok((after, _)) = register_machine_rule(before, machine_id, derived) {
        let old_ids = before.system_state.machines;
        let new_ids = after.system_state.machines;
        assert(new_ids[old_ids.len() as int].0 == machine_id);
        if before.system_state.machine_ids_distinct() {
            assert forall|i: int, j: int| 0 <= i < j < new_ids.len() implies (
            #[trigger] new_ids[i]).0 != (#[trigger] new_ids[j]).0 by {
                if j < old_ids.len() {
                    assert(old_ids[i].0 != old_ids[j].0);
                } else {
                    assert(old_ids[i].0 != machine_id);
                }
            }
        }
    }
}

/// No sequence of registrations leaves two machines of the catalog with
/// the same identifier.
pub proof fn lemma_registrations_keep_ids_distinct(
    system: SystemStateView,
    program_id: Seq<u8>,
    calls: Seq<Registration>,
)
    requires
        system.machine_ids_distinct(),
    ensures
        after_registrations(system, program_id, calls).machine_ids_distinct(),
        system.inv() ==> after_registrations(system, program_id, calls).inv(),
    decreases calls.len(),
{
    if calls.len() > 0 {
        lemma_registrations_keep_ids_distinct(system, program_id, calls.drop_last());
        let earlier = after_registrations(system, program_id, calls.drop_last());
        let call = calls.last();
        lemma_registration_keeps_inv(
            RegisterMachineView {
                system_state: earlier,
                machine: call.machine,
                user: call.user,
                program_id,
            },
            call.machine_id,
            machine_auth_pda(program_id, call.machine_id),
        );
    }
}

/// Starting from a system that was just initialized, no sequence of
/// registrations leaves two machines with the same identifier.
pub proof fn lemma_registrations_from_fresh(
    authority: Seq<u8>,
    program_id: Seq<u8>,
    calls: Seq<Registration>,
)
    ensures
        after_registrations(SystemStateView::fresh(authority), program_id, calls).inv(),
{
    lemma_registrations_keep_ids_distinct(SystemStateView::fresh(authority), program_id, calls);
}

/// Every operation keeps what holds of the system: the counts stay the
/// lengths of the catalogs and no machine identifier comes to occur twice.
/// No operation changes the authority, lowers a counter or takes an entry
/// out of a catalog.
pub proof fn lemma_operations_keep_system_inv(
    initialize: InitializeView,
    register: RegisterMachineView,
    machine_id: Seq<char>,
    derived: Option<(Seq<u8>, u8)>,
    create: CreatePlantView,
    plant_name: Seq<char>,
    upload: UploadDataView,
    image_url: Option<Seq<char>>,
    temperature: u64,
    humidity: u64,
    using: UseDataView,
    now: int,
)
    ensures
        initialize_rule(initialize) matches Ok(after) ==> (after.system_state matches Some(system)
            && system.inv()),
        register.system_state.inv() ==> (register_machine_rule(register, machine_id, derived)
            matches Ok((after, _)) ==> after.system_state.inv()),
        create.system_state.inv() ==> (create_plant_rule(create, plant_name, now) matches Ok(
            (after, _),
        ) ==> after.system_state.inv()),
        upload.system_state.inv() ==> (upload_data_rule(
            upload,
            now,
            temperature,
            humidity,
            image_url,
        ) matches Ok((after, _)) ==> after.system_state.inv()),
        using.system_state.inv() ==> use_data_rule(using).system_state.inv(),
        register_machine_rule(register, machine_id, derived) matches Ok((after, _))
            ==> after.system_state.extends(register.system_state),
        create_plant_rule(create, plant_name, now) matches Ok((after, _))
            ==> after.system_state.extends(create.system_state),
        upload_data_rule(upload, now, temperature, humidity, image_url) matches Ok((after, _))
            ==> after.system_state.extends(upload.system_state),
        use_data_rule(using).system_state.extends(using.system_state),
{
    lemma_registration_keeps_inv(register, machine_id, derived);
}

/// A stopped machine uploads nothing, whatever else the request holds.
pub proof fn lemma_stopped_machine_uploads_nothing(
    before: UploadDataView,
    now: int,
    temperature: u64,
    humidity: u64,
    image_url: Option<Seq<char>>,
)
    requires
        !before.machine.is_active,
    ensures
        upload_data_rule(before, now, temperature, humidity, image_url) == Err::<
            (UploadDataView, IoTDataView),
            ErrorCode,
        >(ErrorCode::MachineNotActive),
{
}

/// A started machine cannot upload about a plant whose address is not in
/// the system's catalog, whatever the plant's record holds.
pub proof fn lemma_unregistered_plant_is_refused(
    before: UploadDataView,
    plant: PlantDataView,
    now: int,
    temperature: u64,
    humidity: u64,
    image_url: Option<Seq<char>>,
)
    requires
        before.machine.is_active,
        !before.system_state.has_plant(before.plant_key),
    ensures
        upload_data_rule(
            UploadDataView { plant, ..before },
            now,
            temperature,
            humidity,
            image_url,
        ) == Err::<(UploadDataView, IoTDataView), ErrorCode>(
            ErrorCode::UnregisteredPlant,
        ),
{
}

/// The machine after a request to claim its rewards, accepted or not.
pub open spec fn machine_after_claim(machine: MachineView, user: Seq<u8>) -> MachineView {
    match claim_rewards_rule(ClaimRewardsView { machine, user }) {
        Ok((after, _)) => after.machine,
        Err(_) => machine,
    }
}

/// A claim by anyone but the owner is refused, and the owner's claim after
/// it is answered as if the refused one had never been made.
pub proof fn lemma_refused_claim_costs_the_owner_nothing(machine: MachineView, stranger: Seq<u8>)
    requires
        stranger != machine.owner,
    ensures
        claim_rewards_rule(ClaimRewardsView { machine, user: stranger }) == Err::<
            (ClaimRewardsView, nat),
            ErrorCode,
        >(ErrorCode::Unauthorized),
        machine_after_claim(machine, stranger) == machine,
        claim_rewards_rule(
            ClaimRewardsView {
                machine: machine_after_claim(machine, stranger),
                user: machine.owner,
            },
        ) == claim_rewards_rule(ClaimRewardsView { machine, user: machine.owner }),
{
}

/// The owner's claim reports exactly what the machine had earned and
/// leaves it with nothing earned, so that a second claim right after it is
/// refused.
pub proof fn lemma_claim_takes_all_rewards(machine: MachineView)
    requires
        machine.rewards_earned > 0,
    ensures
        claim_rewards_rule(ClaimRewardsView { machine, user: machine.owner }) matches Ok(
            (after, claimed),
        ) && claimed == machine.rewards_earned && after.machine.rewards_earned == 0
            && after.machine == (MachineView { rewards_earned: 0, ..machine }),
        claim_rewards_rule(
            ClaimRewardsView {
                machine: machine_after_claim(machine, machine.owner),
                user: machine.owner,
            },
        ) == Err::<(ClaimRewardsView, nat), ErrorCode>(ErrorCode::NoRewardsAvailable),
{
}

/// What `count` uses of a reading, one after the other, leave.
pub open spec fn use_data_times(before: UseDataView, count: nat) -> UseDataView
    decreases count,
{
    if count == 0 {
        before
    } else {
        use_data_rule(use_data_times(before, (count - 1) as nat))
    }
}

/// However often a reading is used, each use counts once on the reading,
/// on the machine and on the system, and earns the machine two reward
/// units; nothing else changes.
pub proof fn lemma_every_use_counts(before: UseDataView, count: nat)
    ensures
        use_data_times(before, count).data.used_count == before.data.used_count + count,
        use_data_times(before, count).machine.data_used_count == before.machine.data_used_count
            + count,
        use_data_times(before, count).system_state.data_request_count
            == before.system_state.data_request_count + count,
        use_data_times(before, count).machine.rewards_earned == before.machine.rewards_earned + 2
            * count,
        use_data_times(before, count) == (UseDataView {
            system_state: SystemStateView {
                data_request_count: before.system_state.data_request_count + count,
                ..before.system_state
            },
            machine: MachineView {
                data_used_count: before.machine.data_used_count + count,
                rewards_earned: before.machine.rewards_earned + 2 * count,
                ..before.machine
            },
            data: IoTDataView {
                used_count: before.data.used_count + count,
                ..before.data
            },
            ..before
        }),
    decreases count,
{
    if count > 0 {
        lemma_every_use_counts(before, (count - 1) as nat);
    }
}

/// No operation changes who owns a machine, what its identifier is or
/// which bump seed derives its authority, and only an accepted claim
/// lowers what it has earned.
pub proof fn lemma_machine_identity_is_fixed(
    control: ControlMachineView,
    is_active: bool,
    upload: UploadDataView,
    image_url: Option<Seq<char>>,
    temperature: u64,
    humidity: u64,
    now: int,
    using: UseDataView,
    claim: ClaimRewardsView,
)
    ensures
        control_machine_rule(control, is_active) matches Ok(after) ==> same_identity(
            control.machine,
            after.machine,
        ) && after.machine.rewards_earned == control.machine.rewards_earned,
        upload_data_rule(upload, now, temperature, humidity, image_url) matches Ok((after, _))
            ==> same_identity(upload.machine, after.machine) && after.machine.rewards_earned
            > upload.machine.rewards_earned,
        same_identity(using.machine, use_data_rule(using).machine),
        use_data_rule(using).machine.rewards_earned > using.machine.rewards_earned,
        claim_rewards_rule(claim) matches Ok((after, _)) ==> same_identity(
            claim.machine,
            after.machine,
        ),
{
}

/// Whether two states of a machine have the same owner, identifier and
/// bump seed.
pub open spec fn same_identity(before: MachineView, after: MachineView) -> bool {
    &&& after.owner == before.owner
    &&& after.machine_id == before.machine_id
    &&& after.auth_bump == before.auth_bump
}

} // verus!
