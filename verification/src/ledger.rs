//! The operations of the ledger.
//!
//! Each operation has a rule, a spec function from what the operation is
//! given to what it returns: the records as they are afterwards, or the
//! reason for which the request is rejected. The executable function does
//! what its rule says, and leaves every record untouched when it rejects.

use vstd::prelude::*;

use crate::accounts::{
    ClaimRewards, ClaimRewardsView, ControlMachine, ControlMachineView, CreatePlant,
    CreatePlantView, GenerateMachineAuth, GenerateMachineAuthView, Initialize, InitializeView,
    RegisterMachine, RegisterMachineView, UploadData, UploadDataView, UseData, UseDataView,
};
use crate::address::Address;
use crate::authority::{
    created_view, find_machine_auth_pda, found_view, machine_auth_address, machine_auth_pda,
    machine_auth_with_bump,
};
use crate::error::ErrorCode;
use crate::laws::lemma_registration_keeps_inv;
use crate::state::{
    byte_len, text_view, IoTData, IoTDataView, Machine, MachineView, PlantData,
    PlantDataView, SystemState, SystemStateView, IMAGE_REWARD, MAX_IMAGE_URL_BYTES,
    MAX_NAME_BYTES, UPLOAD_REWARD, USE_REWARD,
};

verus! {

/// Counts the bytes that a text takes in a record.
fn count_bytes(text: &str) -> (count: usize)
    ensures
        count == byte_len(text@),
{
    text.as_bytes().len()
}

/// Whether an image URL is too long to be stored.
pub open spec fn image_url_too_long(image_url: Option<Seq<char>>) -> bool {
    image_url matches Some(url) && byte_len(url) > MAX_IMAGE_URL_BYTES
}

/// The rule of `upload_data`. A stopped machine uploads nothing; a plant
/// counts only if its address is in the system's catalog. An accepted
/// upload is counted on the system, the machine and the plant, earns the
/// machine its reward, and creates the reading.
pub open spec fn upload_data_rule(
    before: UploadDataView,
    now: int,
    temperature: u64,
    humidity: u64,
    image_url: Option<Seq<char>>,
) -> Result<(UploadDataView, IoTDataView), ErrorCode> {
    if !before.machine.is_active {
        Err(ErrorCode::MachineNotActive)
    } else if !before.system_state.has_plant(before.plant_key) {
        Err(ErrorCode::UnregisteredPlant)
    } else if image_url_too_long(image_url) {
        Err(ErrorCode::FieldTooLong)
    } else {
        Ok(
            (
                UploadDataView {
                    system_state: before.system_state.with_upload(),
                    machine: before.machine.with_upload(now, image_url is Some),
                    plant: before.plant.with_upload(now, image_url is Some),
                    ..before
                },
                IoTDataView::uploaded(
                    before.machine_key,
                    before.plant_key,
                    now,
                    temperature,
                    humidity,
                    image_url,
                ),
            ),
        )
    }
}

/// Records a reading that a machine took of a plant at time `now`, and
/// returns the new reading. `temperature` and `humidity` are the bits of
/// 64-bit floating-point numbers.
pub fn upload_data(
    ctx: &mut UploadData,
    now: i64,
    temperature: u64,
    humidity: u64,
    image_url: Option<String>,
) -> (result: Result<IoTData, ErrorCode>)
    requires
        upload_data_rule(old(ctx)@, now as int, temperature, humidity, text_view(image_url))
            is Ok ==> old(ctx).has_room(image_url is Some),
    ensures
        match upload_data_rule(old(ctx)@, now as int, temperature, humidity, text_view(image_url)) {
            Ok((after, data)) => result is Ok && result->Ok_0@ == data && final(ctx)@ == after,
            Err(error) => result == Err::<IoTData, ErrorCode>(error) && *final(ctx) == *old(ctx),
        },
        !old(ctx).machine.is_active ==> result == Err::<IoTData, ErrorCode>(
            ErrorCode::MachineNotActive,
        ) && *final(ctx) == *old(ctx),
        old(ctx).machine.is_active && !old(ctx)@.system_state.has_plant(old(ctx).plant_key@)
            ==> result == Err::<IoTData, ErrorCode>(ErrorCode::UnregisteredPlant) && *final(ctx)
            == *old(ctx),
        old(ctx)@.system_state.inv() ==> final(ctx)@.system_state.inv(),
{
    if !ctx.machine.is_active {
        return Err(ErrorCode::MachineNotActive);
    }
    if !ctx.system_state.has_plant(&ctx.plant_key) {
        return Err(ErrorCode::UnregisteredPlant);
    }
    let with_image = match &image_url {
        Some(url) => {
            if count_bytes(url.as_str()) > MAX_IMAGE_URL_BYTES {
                return Err(ErrorCode::FieldTooLong);
            }
            true
        },
        None => false,
    };
    ctx.machine.data_count = ctx.machine.data_count + 1;
    ctx.machine.last_data_timestamp = now;
    ctx.plant.data_count = ctx.plant.data_count + 1;
    ctx.plant.last_update_timestamp = now;
    ctx.system_state.total_data_uploads = ctx.system_state.total_data_uploads + 1;
    if with_image {
        ctx.machine.image_count = ctx.machine.image_count + 1;
        ctx.plant.image_count = ctx.plant.image_count + 1;
        ctx.machine.last_image_timestamp = now;
        ctx.machine.rewards_earned = ctx.machine.rewards_earned + IMAGE_REWARD;
    }
    ctx.machine.rewards_earned = ctx.machine.rewards_earned + UPLOAD_REWARD;

    Ok(
        IoTData {
            machine: ctx.machine_key,
            plant: ctx.plant_key,
            timestamp: now,
            temperature,
            humidity,
            image_url,
            used_count: 0,
        },
    )
}

/// The rule of `register_machine`, given what the derivation of the
/// machine's authority found. An identifier registers once. The new machine
/// belongs to the signer, is stopped, has nothing counted and keeps the
/// bump seed of its authority; the system lists it last.
pub open spec fn register_machine_rule(
    before: RegisterMachineView,
    machine_id: Seq<char>,
    derived: Option<(Seq<u8>, u8)>,
) -> Result<(RegisterMachineView, MachineView), ErrorCode> {
    if before.system_state.has_machine(machine_id) {
        Err(ErrorCode::MachineIdAlreadyExists)
    } else if byte_len(machine_id) > MAX_NAME_BYTES {
        Err(ErrorCode::FieldTooLong)
    } else {
        match derived {
            None => Err(ErrorCode::InvalidMachineAuth),
            Some((_, bump)) => Ok(
                (
                    RegisterMachineView {
                        system_state: before.system_state.with_machine(machine_id, before.machine),
                        ..before
                    },
                    MachineView::registered(before.user, machine_id, bump),
                ),
            ),
        }
    }
}

/// Registers a machine whose authority was derived already: `derived` is
/// the authority address and its bump seed, or `None` where the derivation
/// found none. Returns the new machine's record.
pub fn register_machine_with(
    ctx: &mut RegisterMachine,
    machine_id: String,
    derived: Option<(Address, u8)>,
) -> (result: Result<Machine, ErrorCode>)
    requires
        old(ctx).system_state.machine_count < u64::MAX,
    ensures
        match register_machine_rule(old(ctx)@, machine_id@, found_view(derived)) {
            Ok((after, machine)) => result is Ok && result->Ok_0@ == machine && final(ctx)@
                == after,
            Err(error) => result == Err::<Machine, ErrorCode>(error) && *final(ctx) == *old(ctx),
        },
        old(ctx)@.system_state.inv() ==> final(ctx)@.system_state.inv(),
{
    proof {
        lemma_registration_keeps_inv(ctx@, machine_id@, found_view(derived));
    }
    if ctx.system_state.has_machine(&machine_id) {
        return Err(ErrorCode::MachineIdAlreadyExists);
    }
    if count_bytes(machine_id.as_str()) > MAX_NAME_BYTES {
        return Err(ErrorCode::FieldTooLong);
    }
    let bump = match derived {
        Some((_, bump)) => bump,
        None => {
            return Err(ErrorCode::InvalidMachineAuth);
        },
    };
    let machine = Machine {
        owner: ctx.user,
        machine_id: machine_id.clone(),
        is_active: false,
        data_count: 0,
        image_count: 0,
        rewards_earned: 0,
        last_data_timestamp: 0,
        last_image_timestamp: 0,
        data_used_count: 0,
        auth_bump: bump,
    };
    let entry_address = ctx.machine;
    ctx.system_state.machines.push((machine_id, entry_address));
    ctx.system_state.machine_count = ctx.system_state.machine_count + 1;
    proof {
        assert(ctx@.system_state.machines =~= old(ctx)@.system_state.machines.push(
            (machine_id@, old(ctx).machine@),
        ));
    }
    Ok(machine)
}

/// Registers a machine under an identifier that no machine has yet, and
/// returns the new machine's record. The bump seed of the machine's
/// authority is derived here, from the identifier and the program's
/// address.
pub fn register_machine(ctx: &mut RegisterMachine, machine_id: String) -> (result: Result<
    Machine,
    ErrorCode,
>)
    requires
        old(ctx).system_state.machine_count < u64::MAX,
    ensures
        match register_machine_rule(
            old(ctx)@,
            machine_id@,
            machine_auth_pda(old(ctx).program_id@, machine_id@),
        ) {
            Ok((after, machine)) => result is Ok && result->Ok_0@ == machine && final(ctx)@
                == after,
            Err(error) => result == Err::<Machine, ErrorCode>(error) && *final(ctx) == *old(ctx),
        },
        old(ctx)@.system_state.inv() ==> final(ctx)@.system_state.inv(),
{
    let derived = find_machine_auth_pda(&ctx.program_id, machine_id.as_str());
    register_machine_with(ctx, machine_id, derived)
}

/// The rule of `create_plant`. Plant names may repeat. The new plant
/// belongs to the signer and has nothing counted; the system lists it last.
pub open spec fn create_plant_rule(before: CreatePlantView, plant_name: Seq<char>, now: int) -> Result<
    (CreatePlantView, PlantDataView),
    ErrorCode,
> {
    if byte_len(plant_name) > MAX_NAME_BYTES {
        Err(ErrorCode::FieldTooLong)
    } else {
        Ok(
            (
                CreatePlantView {
                    system_state: before.system_state.with_plant(plant_name, before.plant),
                    ..before
                },
                PlantDataView::created(before.user, plant_name, now),
            ),
        )
    }
}

/// Creates a plant at time `now` and returns its record.
pub fn create_plant(ctx: &mut CreatePlant, plant_name: String, now: i64) -> (result: Result<
    PlantData,
    ErrorCode,
>)
    requires
        old(ctx).system_state.plant_count < u64::MAX,
    ensures
        match create_plant_rule(old(ctx)@, plant_name@, now as int) {
            Ok((after, plant)) => result is Ok && result->Ok_0@ == plant && final(ctx)@ == after,
            Err(error) => result == Err::<PlantData, ErrorCode>(error) && *final(ctx) == *old(
                ctx,
            ),
        },
        old(ctx)@.system_state.inv() ==> final(ctx)@.system_state.inv(),
{
    if count_bytes(plant_name.as_str()) > MAX_NAME_BYTES {
        return Err(ErrorCode::FieldTooLong);
    }
    let plant = PlantData {
        creator: ctx.user,
        plant_name: plant_name.clone(),
        data_count: 0,
        image_count: 0,
        creation_timestamp: now,
        last_update_timestamp: 0,
    };
    let entry_address = ctx.plant;
    ctx.system_state.plants.push((plant_name, entry_address));
    ctx.system_state.plant_count = ctx.system_state.plant_count + 1;
    proof {
        assert(ctx@.system_state.plants =~= old(ctx)@.system_state.plants.push(
            (plant_name@, old(ctx).plant@),
        ));
    }
    Ok(plant)
}

/// The rule of `use_data`. Anyone may use a reading, any number of times.
/// Each use is counted on the reading, on the machine and on the system,
/// and earns the machine its reward.
pub open spec fn use_data_rule(before: UseDataView) -> UseDataView {
    UseDataView {
        system_state: before.system_state.with_data_request(),
        machine: before.machine.with_use(),
        data: before.data.with_use(),
        ..before
    }
}

/// Counts one use of a reading. It never fails.
pub fn use_data(ctx: &mut UseData) -> (result: Result<(), ErrorCode>)
    requires
        old(ctx).has_room(),
    ensures
        result is Ok,
        final(ctx)@ == use_data_rule(old(ctx)@),
        old(ctx)@.system_state.inv() ==> final(ctx)@.system_state.inv(),
{
    ctx.data.used_count = ctx.data.used_count + 1;
    ctx.machine.data_used_count = ctx.machine.data_used_count + 1;
    ctx.system_state.data_request_count = ctx.system_state.data_request_count + 1;
    ctx.machine.rewards_earned = ctx.machine.rewards_earned + USE_REWARD;
    Ok(())
}

/// The rule of `initialize`. The system is initialized once: its record
/// is created with the signer in control, nothing counted and empty
/// catalogs.
pub open spec fn initialize_rule(before: InitializeView) -> Result<InitializeView, ErrorCode> {
    if before.system_state is Some {
        Err(ErrorCode::AlreadyInitialized)
    } else {
        Ok(
            InitializeView {
                system_state: Some(SystemStateView::fresh(before.authority)),
                ..before
            },
        )
    }
}

/// Creates the system record where there is none yet.
pub fn initialize(ctx: &mut Initialize) -> (result: Result<(), ErrorCode>)
    ensures
        match initialize_rule(old(ctx)@) {
            Ok(after) => result is Ok && final(ctx)@ == after,
            Err(error) => result == Err::<(), ErrorCode>(error) && *final(ctx) == *old(ctx),
        },
        result is Ok ==> (final(ctx)@.system_state matches Some(system) && system.inv()),
{
    if ctx.system_state.is_some() {
        return Err(ErrorCode::AlreadyInitialized);
    }
    ctx.system_state = Some(
        SystemState {
            authority: ctx.authority,
            machine_count: 0,
            total_data_uploads: 0,
            data_request_count: 0,
            plant_count: 0,
            machines: Vec::new(),
            plants: Vec::new(),
        },
    );
    proof {
        let after = ctx.system_state->Some_0@;
        assert(after.machines =~= Seq::empty());
        assert(after.plants =~= Seq::empty());
    }
    Ok(())
}

/// The rule of `claim_rewards`. Only the owner claims, and only what has
/// been earned: the claim reports the rewards and sets them to zero.
pub open spec fn claim_rewards_rule(before: ClaimRewardsView) -> Result<
    (ClaimRewardsView, nat),
    ErrorCode,
> {
    if before.machine.owner != before.user {
        Err(ErrorCode::Unauthorized)
    } else if before.machine.rewards_earned == 0 {
        Err(ErrorCode::NoRewardsAvailable)
    } else {
        Ok(
            (
                ClaimRewardsView { machine: before.machine.with_rewards_claimed(), ..before },
                before.machine.rewards_earned,
            ),
        )
    }
}

/// Claims the rewards that a machine has earned, and returns their amount.
/// Nothing is transferred: the claim is an entry in the accounts.
pub fn claim_rewards(ctx: &mut ClaimRewards) -> (result: Result<u64, ErrorCode>)
    ensures
        match claim_rewards_rule(old(ctx)@) {
            Ok((after, claimed)) => result is Ok && result->Ok_0 == claimed && final(ctx)@
                == after,
            Err(error) => result == Err::<u64, ErrorCode>(error) && *final(ctx) == *old(ctx),
        },
        old(ctx).machine.owner@ != old(ctx).user@ ==> result == Err::<u64, ErrorCode>(
            ErrorCode::Unauthorized,
        ),
        result matches Ok(claimed) ==> claimed == old(ctx).machine.rewards_earned && claimed > 0
            && final(ctx).machine.rewards_earned == 0,
{
    if !(ctx.machine.owner == ctx.user) {
        return Err(ErrorCode::Unauthorized);
    }
    let rewards = ctx.machine.rewards_earned;
    if rewards == 0 {
        return Err(ErrorCode::NoRewardsAvailable);
    }
    ctx.machine.rewards_earned = 0;
    Ok(rewards)
}

/// The rule of `start_machine` and `stop_machine`. Only the owner starts
/// and stops a machine. To start a started machine, or to stop a stopped
/// one, is no failure.
pub open spec fn control_machine_rule(before: ControlMachineView, is_active: bool) -> Result<
    ControlMachineView,
    ErrorCode,
> {
    if before.machine.owner != before.user {
        Err(ErrorCode::Unauthorized)
    } else {
        Ok(ControlMachineView { machine: before.machine.with_active(is_active), ..before })
    }
}

/// Starts a machine, so that it accepts uploads.
pub fn start_machine(ctx: &mut ControlMachine) -> (result: Result<(), ErrorCode>)
    ensures
        match control_machine_rule(old(ctx)@, true) {
            Ok(after) => result is Ok && final(ctx)@ == after,
            Err(error) => result == Err::<(), ErrorCode>(error) && *final(ctx) == *old(ctx),
        },
{
    if !(ctx.machine.owner == ctx.user) {
        return Err(ErrorCode::Unauthorized);
    }
    ctx.machine.is_active = true;
    Ok(())
}

/// Stops a machine, so that it accepts no upload.
pub fn stop_machine(ctx: &mut ControlMachine) -> (result: Result<(), ErrorCode>)
    ensures
        match control_machine_rule(old(ctx)@, false) {
            Ok(after) => result is Ok && final(ctx)@ == after,
            Err(error) => result == Err::<(), ErrorCode>(error) && *final(ctx) == *old(ctx),
        },
{
    if !(ctx.machine.owner == ctx.user) {
        return Err(ErrorCode::Unauthorized);
    }
    ctx.machine.is_active = false;
    Ok(())
}

/// The rule of `generate_machine_auth`, given the address that the
/// machine's identifier and bump seed derive. Only the owner asks, and the
/// authority that is presented must be the derived one.
pub open spec fn generate_machine_auth_rule(
    ctx: GenerateMachineAuthView,
    derived: Option<Seq<u8>>,
) -> Result<(), ErrorCode> {
    if ctx.machine.owner != ctx.user {
        Err(ErrorCode::Unauthorized)
    } else if derived != Some(ctx.auth_pda) {
        Err(ErrorCode::InvalidMachineAuth)
    } else {
        Ok(())
    }
}

/// Checks a machine's authority against an address that was derived
/// already: `derived` is what the machine's identifier and bump seed
/// derive, or `None` where they derive nothing.
pub fn check_machine_auth(ctx: &GenerateMachineAuth, derived: Option<Address>) -> (result: Result<
    (),
    ErrorCode,
>)
    ensures
        result == generate_machine_auth_rule(ctx@, created_view(derived)),
{
    if !(ctx.machine.owner == ctx.user) {
        return Err(ErrorCode::Unauthorized);
    }
    match derived {
        Some(address) => {
            if address == ctx.auth_pda {
                Ok(())
            } else {
                Err(ErrorCode::InvalidMachineAuth)
            }
        },
        None => Err(ErrorCode::InvalidMachineAuth),
    }
}

/// Checks that the authority address presented for a machine is the one
/// that the machine's own identifier and bump seed derive. It changes
/// nothing. The identifier in the request is not consulted.
pub fn generate_machine_auth(ctx: &GenerateMachineAuth, machine_id: String) -> (result: Result<
    (),
    ErrorCode,
>)
    ensures
        result == generate_machine_auth_rule(
            ctx@,
            machine_auth_with_bump(ctx.program_id@, ctx.machine.machine_id@, ctx.machine.auth_bump),
        ),
{
    let derived = machine_auth_address(
        &ctx.program_id,
        ctx.machine.machine_id.as_str(),
        ctx.machine.auth_bump,
    );
    check_machine_auth(ctx, derived)
}

} // verus!
