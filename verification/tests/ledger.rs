use agrox::accounts::{
    ClaimRewards, ControlMachine, CreatePlant, Initialize, RegisterMachine, UploadData, UseData,
};
use agrox::address::Address;
use agrox::error::ErrorCode;
use agrox::ledger::{
    claim_rewards, create_plant, initialize, register_machine, register_machine_with,
    start_machine, stop_machine, upload_data, use_data,
};
use agrox::state::{IoTData, Machine, PlantData, SystemState};

fn addr(byte: u8) -> Address {
    Address::new([byte; 32])
}

const PROGRAM: u8 = 200;
const AUTHORITY: u8 = 1;
const OWNER: u8 = 2;
const STRANGER: u8 = 3;
const MACHINE_KEY: u8 = 10;
const PLANT_KEY: u8 = 20;

fn new_system() -> SystemState {
    let mut ctx = Initialize { system_state: None, authority: addr(AUTHORITY) };
    assert_eq!(initialize(&mut ctx), Ok(()));
    ctx.system_state.unwrap()
}

fn register(system: SystemState, key: u8, owner: u8, id: &str) -> (SystemState, Result<Machine, ErrorCode>) {
    let mut ctx = RegisterMachine {
        system_state: system,
        machine: addr(key),
        user: addr(owner),
        program_id: addr(PROGRAM),
    };
    let result = register_machine(&mut ctx, id.to_string());
    (ctx.system_state, result)
}

fn plant(system: SystemState, key: u8, creator: u8, name: &str, now: i64) -> (SystemState, Result<PlantData, ErrorCode>) {
    let mut ctx = CreatePlant { system_state: system, plant: addr(key), user: addr(creator) };
    let result = create_plant(&mut ctx, name.to_string(), now);
    (ctx.system_state, result)
}

fn started(machine: Machine, user: u8) -> Machine {
    let mut ctx = ControlMachine { machine, user: addr(user) };
    assert_eq!(start_machine(&mut ctx), Ok(()));
    ctx.machine
}

/// A system with machine "m1", started, and plant "basil".
fn running() -> UploadData {
    let system = new_system();
    let (system, machine) = register(system, MACHINE_KEY, OWNER, "m1");
    let (system, plant_record) = plant(system, PLANT_KEY, OWNER, "basil", 1_000);
    UploadData {
        system_state: system,
        machine: started(machine.unwrap(), OWNER),
        machine_key: addr(MACHINE_KEY),
        plant: plant_record.unwrap(),
        plant_key: addr(PLANT_KEY),
        payer: addr(OWNER),
    }
}

#[test]
fn initialize_creates_an_empty_system() {
    let system = new_system();
    assert_eq!(system.authority, addr(AUTHORITY));
    assert_eq!(system.machine_count, 0);
    assert_eq!(system.plant_count, 0);
    assert_eq!(system.total_data_uploads, 0);
    assert_eq!(system.data_request_count, 0);
    assert!(system.machines.is_empty());
    assert!(system.plants.is_empty());
}

#[test]
fn initialize_twice_is_refused() {
    let mut ctx = Initialize { system_state: None, authority: addr(AUTHORITY) };
    assert_eq!(initialize(&mut ctx), Ok(()));
    ctx.authority = addr(STRANGER);
    let before = ctx.clone();
    assert_eq!(initialize(&mut ctx), Err(ErrorCode::AlreadyInitialized));
    assert_eq!(ctx, before);
    assert_eq!(ctx.system_state.unwrap().authority, addr(AUTHORITY));
}

#[test]
fn register_machine_creates_a_stopped_machine() {
    let (system, machine) = register(new_system(), MACHINE_KEY, OWNER, "m1");
    let machine = machine.unwrap();
    assert_eq!(machine.owner, addr(OWNER));
    assert_eq!(machine.machine_id, "m1");
    assert!(!machine.is_active);
    assert_eq!(machine.data_count, 0);
    assert_eq!(machine.image_count, 0);
    assert_eq!(machine.rewards_earned, 0);
    assert_eq!(machine.last_data_timestamp, 0);
    assert_eq!(machine.last_image_timestamp, 0);
    assert_eq!(machine.data_used_count, 0);
    assert_eq!(system.machine_count, 1);
    assert_eq!(system.machines, vec![("m1".to_string(), addr(MACHINE_KEY))]);
    assert!(system.plants.is_empty());
}

#[test]
fn register_machine_refuses_an_identifier_twice() {
    let (system, first) = register(new_system(), MACHINE_KEY, OWNER, "m1");
    assert!(first.is_ok());
    let before = system.clone();
    let (system, second) = register(system, 11, STRANGER, "m1");
    assert_eq!(second, Err(ErrorCode::MachineIdAlreadyExists));
    assert_eq!(system, before);
}

#[test]
fn register_machine_compares_identifiers_exactly() {
    let (system, _) = register(new_system(), MACHINE_KEY, OWNER, "m1");
    let (system, upper) = register(system, 11, OWNER, "M1");
    assert!(upper.is_ok());
    let (system, longer) = register(system, 12, OWNER, "m1 ");
    assert!(longer.is_ok());
    assert_eq!(system.machine_count, 3);
    assert_eq!(
        system.machines,
        vec![
            ("m1".to_string(), addr(MACHINE_KEY)),
            ("M1".to_string(), addr(11)),
            ("m1 ".to_string(), addr(12)),
        ]
    );
}

#[test]
fn registrations_never_leave_two_machines_with_one_identifier() {
    let mut system = new_system();
    let ids = ["a", "b", "a", "c", "b", "a", "", "", "c", "d"];
    let mut accepted = 0;
    for (i, id) in ids.iter().enumerate() {
        let (next, result) = register(system, i as u8, OWNER, id);
        system = next;
        if result.is_ok() {
            accepted += 1;
        } else {
            assert_eq!(result, Err(ErrorCode::MachineIdAlreadyExists));
        }
    }
    assert_eq!(accepted, 5);
    assert_eq!(system.machine_count, 5);
    assert_eq!(system.machines.len(), 5);
    for i in 0..system.machines.len() {
        for j in (i + 1)..system.machines.len() {
            assert_ne!(system.machines[i].0, system.machines[j].0);
        }
    }
    let names: Vec<&str> = system.machines.iter().map(|entry| entry.0.as_str()).collect();
    assert_eq!(names, vec!["a", "b", "c", "", "d"]);
}

#[test]
fn register_machine_bounds_the_identifier_by_bytes() {
    let fits = "x".repeat(32);
    let (system, machine) = register(new_system(), MACHINE_KEY, OWNER, &fits);
    assert_eq!(machine.unwrap().machine_id, fits);

    let before = system.clone();
    let (system, machine) = register(system, 11, OWNER, &"x".repeat(33));
    assert_eq!(machine, Err(ErrorCode::FieldTooLong));
    assert_eq!(system, before);

    // Seventeen letters of two bytes each.
    let (system, machine) = register(system, 12, OWNER, &"é".repeat(17));
    assert_eq!(machine, Err(ErrorCode::FieldTooLong));
    let (system, machine) = register(system, 13, OWNER, &"é".repeat(16));
    assert!(machine.is_ok());
    assert_eq!(system.machine_count, 2);
}

#[test]
fn register_machine_with_takes_the_bump_that_was_derived() {
    let mut ctx = RegisterMachine {
        system_state: new_system(),
        machine: addr(MACHINE_KEY),
        user: addr(OWNER),
        program_id: addr(PROGRAM),
    };
    let machine = register_machine_with(&mut ctx, "m1".to_string(), Some((addr(77), 250)));
    assert_eq!(machine.unwrap().auth_bump, 250);
    assert_eq!(ctx.system_state.machine_count, 1);
}

#[test]
fn register_machine_with_no_authority_is_refused() {
    let mut ctx = RegisterMachine {
        system_state: new_system(),
        machine: addr(MACHINE_KEY),
        user: addr(OWNER),
        program_id: addr(PROGRAM),
    };
    let before = ctx.clone();
    let machine = register_machine_with(&mut ctx, "m1".to_string(), None);
    assert_eq!(machine, Err(ErrorCode::InvalidMachineAuth));
    assert_eq!(ctx, before);
}

#[test]
fn register_machine_with_checks_the_identifier_first() {
    let (system, _) = register(new_system(), MACHINE_KEY, OWNER, "m1");
    let mut ctx = RegisterMachine {
        system_state: system,
        machine: addr(11),
        user: addr(OWNER),
        program_id: addr(PROGRAM),
    };
    assert_eq!(
        register_machine_with(&mut ctx, "m1".to_string(), None),
        Err(ErrorCode::MachineIdAlreadyExists)
    );
    assert_eq!(
        register_machine_with(&mut ctx, "y".repeat(40), None),
        Err(ErrorCode::FieldTooLong)
    );
}

#[test]
fn create_plant_allows_a_name_twice() {
    let (system, first) = plant(new_system(), PLANT_KEY, OWNER, "basil", 500);
    let first = first.unwrap();
    assert_eq!(first.creator, addr(OWNER));
    assert_eq!(first.plant_name, "basil");
    assert_eq!(first.data_count, 0);
    assert_eq!(first.image_count, 0);
    assert_eq!(first.creation_timestamp, 500);
    assert_eq!(first.last_update_timestamp, 0);

    let (system, second) = plant(system, 21, STRANGER, "basil", 600);
    let second = second.unwrap();
    assert_eq!(second.creator, addr(STRANGER));
    assert_eq!(second.creation_timestamp, 600);
    assert_eq!(system.plant_count, 2);
    assert_eq!(
        system.plants,
        vec![("basil".to_string(), addr(PLANT_KEY)), ("basil".to_string(), addr(21))]
    );
    assert_eq!(system.machine_count, 0);
}

#[test]
fn create_plant_bounds_the_name_by_bytes() {
    let (system, fits) = plant(new_system(), PLANT_KEY, OWNER, &"p".repeat(32), 1);
    assert!(fits.is_ok());
    let before = system.clone();
    let (system, long) = plant(system, 21, OWNER, &"p".repeat(33), 2);
    assert_eq!(long, Err(ErrorCode::FieldTooLong));
    assert_eq!(system, before);
}

#[test]
fn start_and_stop_are_for_the_owner() {
    let (_, machine) = register(new_system(), MACHINE_KEY, OWNER, "m1");
    let mut ctx = ControlMachine { machine: machine.unwrap(), user: addr(STRANGER) };
    let before = ctx.clone();
    assert_eq!(start_machine(&mut ctx), Err(ErrorCode::Unauthorized));
    assert_eq!(ctx, before);
    assert_eq!(stop_machine(&mut ctx), Err(ErrorCode::Unauthorized));
    assert_eq!(ctx, before);

    ctx.user = addr(OWNER);
    assert_eq!(start_machine(&mut ctx), Ok(()));
    assert!(ctx.machine.is_active);
    ctx.user = addr(STRANGER);
    assert_eq!(stop_machine(&mut ctx), Err(ErrorCode::Unauthorized));
    assert!(ctx.machine.is_active);
}

#[test]
fn start_and_stop_may_be_repeated() {
    let (_, machine) = register(new_system(), MACHINE_KEY, OWNER, "m1");
    let mut ctx = ControlMachine { machine: machine.unwrap(), user: addr(OWNER) };
    assert_eq!(stop_machine(&mut ctx), Ok(()));
    assert!(!ctx.machine.is_active);
    assert_eq!(start_machine(&mut ctx), Ok(()));
    assert_eq!(start_machine(&mut ctx), Ok(()));
    assert!(ctx.machine.is_active);
    assert_eq!(stop_machine(&mut ctx), Ok(()));
    assert_eq!(stop_machine(&mut ctx), Ok(()));
    assert!(!ctx.machine.is_active);
    assert_eq!(ctx.machine.rewards_earned, 0);
}

#[test]
fn upload_without_image_earns_one_unit() {
    let mut ctx = running();
    let data = upload_data(&mut ctx, 5_000, 20.0f64.to_bits(), 55.0f64.to_bits(), None).unwrap();
    assert_eq!(ctx.machine.rewards_earned, 1);
    assert_eq!(ctx.machine.data_count, 1);
    assert_eq!(ctx.machine.image_count, 0);
    assert_eq!(ctx.machine.last_data_timestamp, 5_000);
    assert_eq!(ctx.machine.last_image_timestamp, 0);
    assert_eq!(ctx.plant.data_count, 1);
    assert_eq!(ctx.plant.image_count, 0);
    assert_eq!(ctx.plant.last_update_timestamp, 5_000);
    assert_eq!(ctx.plant.creation_timestamp, 1_000);
    assert_eq!(ctx.system_state.total_data_uploads, 1);
    assert_eq!(
        data,
        IoTData {
            machine: addr(MACHINE_KEY),
            plant: addr(PLANT_KEY),
            timestamp: 5_000,
            temperature: 20.0f64.to_bits(),
            humidity: 55.0f64.to_bits(),
            image_url: None,
            used_count: 0,
        }
    );
    assert_eq!(f64::from_bits(data.temperature), 20.0);
    assert_eq!(f64::from_bits(data.humidity), 55.0);
}

#[test]
fn upload_with_image_earns_eleven_units() {
    let mut ctx = running();
    let url = Some("http://x".to_string());
    let data = upload_data(&mut ctx, 6_000, 20.0f64.to_bits(), 55.0f64.to_bits(), url).unwrap();
    assert_eq!(ctx.machine.rewards_earned, 11);
    assert_eq!(ctx.machine.data_count, 1);
    assert_eq!(ctx.machine.image_count, 1);
    assert_eq!(ctx.machine.last_data_timestamp, 6_000);
    assert_eq!(ctx.machine.last_image_timestamp, 6_000);
    assert_eq!(ctx.plant.data_count, 1);
    assert_eq!(ctx.plant.image_count, 1);
    assert_eq!(ctx.plant.last_update_timestamp, 6_000);
    assert_eq!(ctx.system_state.total_data_uploads, 1);
    assert_eq!(data.image_url, Some("http://x".to_string()));
    assert_eq!(data.timestamp, 6_000);
    assert_eq!(data.used_count, 0);
}

#[test]
fn uploads_add_up() {
    let mut ctx = running();
    upload_data(&mut ctx, 1, 0, 0, None).unwrap();
    upload_data(&mut ctx, 2, 0, 0, Some("u".to_string())).unwrap();
    upload_data(&mut ctx, 3, 0, 0, None).unwrap();
    assert_eq!(ctx.machine.rewards_earned, 13);
    assert_eq!(ctx.machine.data_count, 3);
    assert_eq!(ctx.machine.image_count, 1);
    assert_eq!(ctx.machine.last_data_timestamp, 3);
    assert_eq!(ctx.machine.last_image_timestamp, 2);
    assert_eq!(ctx.plant.data_count, 3);
    assert_eq!(ctx.plant.image_count, 1);
    assert_eq!(ctx.system_state.total_data_uploads, 3);
}

#[test]
fn upload_from_a_stopped_machine_is_refused() {
    let mut ctx = running();
    ctx.machine.is_active = false;
    let before = ctx.clone();
    let refused = upload_data(&mut ctx, 9, 1, 2, Some("http://x".to_string()));
    assert_eq!(refused, Err(ErrorCode::MachineNotActive));
    assert_eq!(ctx, before);

    // The machine is looked at before the plant.
    ctx.plant_key = addr(99);
    assert_eq!(upload_data(&mut ctx, 9, 1, 2, None), Err(ErrorCode::MachineNotActive));
}

#[test]
fn upload_about_an_unregistered_plant_is_refused() {
    let mut ctx = running();
    // The record is that of a plant, but the address is not in the catalog.
    ctx.plant_key = addr(99);
    let before = ctx.clone();
    assert_eq!(upload_data(&mut ctx, 9, 1, 2, None), Err(ErrorCode::UnregisteredPlant));
    assert_eq!(ctx, before);

    // An address in the machine catalog is no plant either.
    ctx.plant_key = addr(MACHINE_KEY);
    assert_eq!(upload_data(&mut ctx, 9, 1, 2, None), Err(ErrorCode::UnregisteredPlant));
}

#[test]
fn upload_finds_a_plant_anywhere_in_the_catalog() {
    let mut ctx = running();
    let (system, _) = plant(ctx.system_state.clone(), 21, OWNER, "mint", 2_000);
    let (system, last) = plant(system, 22, OWNER, "sage", 3_000);
    ctx.system_state = system;
    ctx.plant = last.unwrap();
    ctx.plant_key = addr(22);
    assert!(upload_data(&mut ctx, 9, 1, 2, None).is_ok());
    assert_eq!(ctx.plant.data_count, 1);
    assert_eq!(ctx.system_state.plant_count, 3);
}

#[test]
fn upload_bounds_the_image_url_by_bytes() {
    let mut ctx = running();
    let before = ctx.clone();
    let long = Some("u".repeat(101));
    assert_eq!(upload_data(&mut ctx, 9, 1, 2, long), Err(ErrorCode::FieldTooLong));
    assert_eq!(ctx, before);
    let fits = Some("u".repeat(100));
    assert!(upload_data(&mut ctx, 9, 1, 2, fits).is_ok());
    assert_eq!(ctx.machine.rewards_earned, 11);
}

#[test]
fn upload_room_is_what_the_counters_leave() {
    let mut ctx = running();
    assert!(ctx.check_room(true));
    ctx.machine.rewards_earned = u64::MAX - 11;
    assert!(ctx.check_room(true));
    ctx.machine.rewards_earned = u64::MAX - 10;
    assert!(!ctx.check_room(true));
    assert!(ctx.check_room(false));
    ctx.machine.rewards_earned = u64::MAX;
    assert!(!ctx.check_room(false));
    ctx.machine.rewards_earned = 0;
    ctx.plant.image_count = u64::MAX;
    assert!(!ctx.check_room(true));
    assert!(ctx.check_room(false));
    ctx.system_state.total_data_uploads = u64::MAX;
    assert!(!ctx.check_room(false));
}

fn used(ctx: &UploadData, data: IoTData, user: u8) -> UseData {
    UseData {
        system_state: ctx.system_state.clone(),
        machine: ctx.machine.clone(),
        data,
        user: addr(user),
    }
}

#[test]
fn use_data_counts_each_use() {
    let mut upload = running();
    let data = upload_data(&mut upload, 5, 1, 2, None).unwrap();
    let mut ctx = used(&upload, data, STRANGER);
    for n in 1..=50u64 {
        assert!(ctx.check_room());
        assert_eq!(use_data(&mut ctx), Ok(()));
        assert_eq!(ctx.data.used_count, n);
        assert_eq!(ctx.machine.data_used_count, n);
        assert_eq!(ctx.system_state.data_request_count, n);
        assert_eq!(ctx.machine.rewards_earned, 1 + 2 * n);
    }
    assert_eq!(ctx.machine.data_count, 1);
    assert_eq!(ctx.system_state.total_data_uploads, 1);
    assert_eq!(ctx.data.timestamp, 5);
    assert_eq!(ctx.user, addr(STRANGER));
}

#[test]
fn use_data_room_is_what_the_counters_leave() {
    let mut upload = running();
    let data = upload_data(&mut upload, 5, 1, 2, None).unwrap();
    let mut ctx = used(&upload, data, OWNER);
    ctx.machine.rewards_earned = u64::MAX - 2;
    assert!(ctx.check_room());
    ctx.machine.rewards_earned = u64::MAX - 1;
    assert!(!ctx.check_room());
    ctx.machine.rewards_earned = 0;
    ctx.data.used_count = u64::MAX;
    assert!(!ctx.check_room());
}

#[test]
fn claim_by_a_stranger_costs_the_owner_nothing() {
    let mut upload = running();
    upload_data(&mut upload, 5, 1, 2, Some("http://x".to_string())).unwrap();
    let mut ctx = ClaimRewards { machine: upload.machine, user: addr(STRANGER) };
    let before = ctx.clone();
    assert_eq!(claim_rewards(&mut ctx), Err(ErrorCode::Unauthorized));
    assert_eq!(ctx, before);
    assert_eq!(ctx.machine.rewards_earned, 11);
    ctx.user = addr(OWNER);
    assert_eq!(claim_rewards(&mut ctx), Ok(11));
}

#[test]
fn claim_takes_everything_once() {
    let mut upload = running();
    upload_data(&mut upload, 5, 1, 2, None).unwrap();
    upload_data(&mut upload, 6, 1, 2, Some("http://x".to_string())).unwrap();
    let mut ctx = ClaimRewards { machine: upload.machine, user: addr(OWNER) };
    let bump = ctx.machine.auth_bump;
    assert_eq!(claim_rewards(&mut ctx), Ok(12));
    assert_eq!(ctx.machine.rewards_earned, 0);
    assert_eq!(ctx.machine.data_count, 2);
    assert_eq!(ctx.machine.image_count, 1);
    assert_eq!(ctx.machine.auth_bump, bump);
    assert!(ctx.machine.is_active);
    let before = ctx.clone();
    assert_eq!(claim_rewards(&mut ctx), Err(ErrorCode::NoRewardsAvailable));
    assert_eq!(ctx, before);
}

#[test]
fn claim_with_nothing_earned_is_refused() {
    let (_, machine) = register(new_system(), MACHINE_KEY, OWNER, "m1");
    let mut ctx = ClaimRewards { machine: machine.unwrap(), user: addr(OWNER) };
    assert_eq!(claim_rewards(&mut ctx), Err(ErrorCode::NoRewardsAvailable));
    // Who asks is looked at first.
    ctx.user = addr(STRANGER);
    assert_eq!(claim_rewards(&mut ctx), Err(ErrorCode::Unauthorized));
}

#[test]
fn error_messages() {
    assert_eq!(ErrorCode::MachineIdAlreadyExists.message(), "Machine ID already exists");
    assert_eq!(ErrorCode::Unauthorized.message(), "Unauthorized operation");
    assert_eq!(ErrorCode::MachineNotActive.message(), "Machine is not active");
    assert_eq!(ErrorCode::NoRewardsAvailable.message(), "No rewards available to claim");
    assert_eq!(ErrorCode::UnregisteredPlant.message(), "Unregistered plant");
    assert_eq!(ErrorCode::AlreadyInitialized.message(), "System is already initialized");
    assert_eq!(ErrorCode::FieldTooLong.message(), "Text field is too long");
    assert_eq!(ErrorCode::InvalidMachineAuth.message(), "Machine authority is not valid");
}

#[test]
fn addresses_compare_by_their_bytes() {
    let mut bytes = [7u8; 32];
    assert_eq!(Address::new(bytes), addr(7));
    assert_eq!(addr(7).to_bytes(), bytes);
    bytes[31] = 8;
    assert_ne!(Address::new(bytes), addr(7));
    bytes[31] = 7;
    bytes[0] = 6;
    assert_ne!(Address::new(bytes), addr(7));
}

#[test]
fn the_catalogs_answer_for_what_they_hold() {
    let (system, _) = register(new_system(), MACHINE_KEY, OWNER, "m1");
    let (system, _) = register(system, 11, OWNER, "m2");
    let (system, _) = plant(system, PLANT_KEY, OWNER, "basil", 1);
    assert!(system.has_machine(&"m1".to_string()));
    assert!(system.has_machine(&"m2".to_string()));
    assert!(!system.has_machine(&"m3".to_string()));
    assert!(!system.has_machine(&"M1".to_string()));
    assert!(!system.has_machine(&"basil".to_string()));
    assert!(system.has_plant(&addr(PLANT_KEY)));
    assert!(!system.has_plant(&addr(MACHINE_KEY)));
    assert!(!system.has_plant(&addr(21)));
    assert!(!new_system().has_machine(&"m1".to_string()));
    assert!(!new_system().has_plant(&addr(PLANT_KEY)));
}
