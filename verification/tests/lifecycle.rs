use sched_core::account::default_config;
use sched_core::config::{
    CombinedConfig, Config, EmployeeColor, HourFormat, LastNameStyle, NewConfig,
    NewPerEmployeeConfig, PerEmployeeConfig,
};
use sched_core::datetime::Timestamp;
use sched_core::db::{
    add_config, add_employee_config, check_token, copy_config, create_account, get_active_config,
    get_configs, login, remove_config, set_active_config, update_config, update_employee_config,
    Database,
};
use sched_core::employee::{Employee, EmployeeLevel, NewEmployee};
use sched_core::error::{Error, Fault};
use sched_core::lifecycle::owned_configs;
use sched_core::message::LoginInfo;

fn at(secs: i64) -> Timestamp {
    Timestamp::new(secs, 0)
}

fn new_account(email: &str, password: &str, level: EmployeeLevel) -> NewEmployee {
    NewEmployee::new(
        LoginInfo { email: String::from(email), password: String::from(password) },
        None,
        level,
        String::from("First"),
        String::from("Last"),
        Some(String::from("555-0100")),
        EmployeeColor::Blue,
    )
    .unwrap()
}

fn account(db: &mut Database, email: &str, level: EmployeeLevel) -> (Employee, String) {
    let created = create_account(db, new_account(email, "pw", level), default_config(at(0))).unwrap();
    let info = LoginInfo { email: String::from(email), password: String::from("pw") };
    let (_, token) = login(db, info, at(0)).unwrap();
    (created, token)
}

fn named(name: &str) -> NewConfig {
    NewConfig { config_name: String::from(name), ..default_config(at(5)) }
}

fn active(db: &Database, token: &str) -> Option<i32> {
    check_token(db, token, at(1)).unwrap().active_config
}

fn config_ids(db: &Database) -> Vec<i32> {
    db.configs.rows().iter().map(|c| c.id).collect()
}

fn stored(db: &Database, id: i32) -> Config {
    db.configs.rows().iter().find(|c| c.id == id).unwrap().clone()
}

fn snapshot(db: &Database) -> String {
    format!("{:?}", db)
}

#[test]
fn new_account_points_at_a_configuration_it_owns() {
    let mut db = Database::new();
    let created = create_account(
        &mut db,
        new_account("e1@example.com", "pw", EmployeeLevel::Supervisor),
        default_config(at(7)),
    )
    .unwrap();
    assert_eq!(created.id, 1);
    assert_eq!(created.active_config, Some(1));
    assert_eq!(db.employees.len(), 1);
    assert_eq!(db.employees.row(0).active_config, Some(1));
    assert_eq!(db.configs.len(), 1);
    let config = db.configs.row(0);
    assert_eq!(config.id, 1);
    assert_eq!(config.employee_id, created.id);
    assert_eq!(config.config_name, "Default");
    assert_eq!(config.hour_format, HourFormat::H12);
    assert_eq!(config.last_name_style, LastNameStyle::Initial);
    assert_eq!(config.view_date, at(7));
    assert!(config.view_employees.is_empty());
    assert!(config.show_minutes);
    assert!(config.show_shifts);
    assert!(!config.show_vacations);
    assert!(!config.show_call_shifts);
    assert!(!config.show_disabled);
}

#[test]
fn every_new_account_gets_its_own_configuration() {
    let mut db = Database::new();
    let (e1, _) = account(&mut db, "e1@example.com", EmployeeLevel::Supervisor);
    let (e2, _) = account(&mut db, "e2@example.com", EmployeeLevel::Read);
    assert_eq!((e1.id, e1.active_config), (1, Some(1)));
    assert_eq!((e2.id, e2.active_config), (2, Some(2)));
    assert_eq!(db.configs.row(1).employee_id, 2);
}

#[test]
fn the_owner_named_by_the_defaults_is_replaced() {
    let mut db = Database::new();
    let defaults = NewConfig { employee_id: 99, ..default_config(at(0)) };
    let created =
        create_account(&mut db, new_account("e1@example.com", "pw", EmployeeLevel::Read), defaults)
            .unwrap();
    assert_eq!(db.configs.row(0).employee_id, created.id);
}

#[test]
fn account_with_a_taken_email_is_refused_and_nothing_is_added() {
    let mut db = Database::new();
    account(&mut db, "e1@example.com", EmployeeLevel::Supervisor);
    let before = snapshot(&db);
    let outcome = create_account(
        &mut db,
        new_account("e1@example.com", "other", EmployeeLevel::Read),
        default_config(at(0)),
    );
    assert_eq!(outcome.err(), Some(Error::EmployeeExists));
    assert_eq!(snapshot(&db), before);
}

#[test]
fn removing_the_sole_configuration_is_a_no_op() {
    let mut db = Database::new();
    let (_, token) = account(&mut db, "e1@example.com", EmployeeLevel::Supervisor);
    let sole = stored(&db, 1);
    let before = snapshot(&db);
    assert_eq!(remove_config(&mut db, &token, at(1), sole), Ok(()));
    assert_eq!(snapshot(&db), before);
    assert_eq!(active(&db, &token), Some(1));
    assert_eq!(config_ids(&db), vec![1]);
}

#[test]
fn scenario_two_configurations() {
    let mut db = Database::new();
    let (e1, token) = account(&mut db, "e1@example.com", EmployeeLevel::Supervisor);
    let c1 = stored(&db, 1);
    let c2 = add_config(&mut db, &token, at(1), named("Second")).unwrap();
    assert_eq!(c2.id, 2);
    assert_eq!(c2.employee_id, e1.id);
    assert_eq!(active(&db, &token), Some(1));
    assert_eq!(set_active_config(&mut db, &token, at(1), c2.clone()), Ok(()));
    assert_eq!(active(&db, &token), Some(2));
    assert_eq!(remove_config(&mut db, &token, at(1), c1), Ok(()));
    assert_eq!(active(&db, &token), Some(2));
    assert_eq!(config_ids(&db), vec![2]);
    let before = snapshot(&db);
    assert_eq!(remove_config(&mut db, &token, at(1), c2), Ok(()));
    assert_eq!(snapshot(&db), before);
    assert_eq!(active(&db, &token), Some(2));
    assert_eq!(config_ids(&db), vec![2]);
}

#[test]
fn removing_the_active_configuration_points_at_one_that_is_left() {
    let mut db = Database::new();
    let (e1, token) = account(&mut db, "e1@example.com", EmployeeLevel::Supervisor);
    let c1 = stored(&db, 1);
    add_config(&mut db, &token, at(1), named("Second")).unwrap();
    add_config(&mut db, &token, at(1), named("Third")).unwrap();
    assert_eq!(active(&db, &token), Some(1));
    assert_eq!(remove_config(&mut db, &token, at(1), c1), Ok(()));
    assert_eq!(config_ids(&db), vec![2, 3]);
    let now_active = active(&db, &token).unwrap();
    assert_eq!(now_active, 2);
    assert_eq!(stored(&db, now_active).employee_id, e1.id);
    assert!(db.configs.position(1).is_none());
}

#[test]
fn removing_another_configuration_leaves_the_pointer_alone() {
    let mut db = Database::new();
    let (_, token) = account(&mut db, "e1@example.com", EmployeeLevel::Supervisor);
    let c2 = add_config(&mut db, &token, at(1), named("Second")).unwrap();
    let c3 = add_config(&mut db, &token, at(1), named("Third")).unwrap();
    assert_eq!(set_active_config(&mut db, &token, at(1), c2.clone()), Ok(()));
    assert_eq!(active(&db, &token), Some(2));
    assert_eq!(remove_config(&mut db, &token, at(1), c3), Ok(()));
    assert_eq!(active(&db, &token), Some(2));
    assert_eq!(config_ids(&db), vec![1, 2]);
    assert_eq!(db.configs.len(), 2);
    let c4 = add_config(&mut db, &token, at(1), named("Fourth")).unwrap();
    assert_eq!(c4.id, 4);
    let c1 = stored(&db, 1);
    assert_eq!(remove_config(&mut db, &token, at(1), c1), Ok(()));
    assert_eq!(active(&db, &token), Some(2));
    assert_eq!(config_ids(&db), vec![2, 4]);
    assert_eq!(remove_config(&mut db, &token, at(1), c2), Ok(()));
    assert_eq!(active(&db, &token), Some(4));
    assert_eq!(config_ids(&db), vec![4]);
}

#[test]
fn removing_a_configuration_that_is_not_stored_changes_nothing() {
    let mut db = Database::new();
    let (e1, token) = account(&mut db, "e1@example.com", EmployeeLevel::Supervisor);
    let c2 = add_config(&mut db, &token, at(1), named("Second")).unwrap();
    assert_eq!(set_active_config(&mut db, &token, at(1), c2), Ok(()));
    let absent = Config { id: 77, employee_id: e1.id, ..stored(&db, 1) };
    let before = snapshot(&db);
    assert_eq!(remove_config(&mut db, &token, at(1), absent), Ok(()));
    assert_eq!(snapshot(&db), before);
    assert_eq!(active(&db, &token), Some(2));
}

#[test]
fn a_removal_brings_a_stray_pointer_home() {
    let mut db = Database::new();
    let (e1, token) = account(&mut db, "e1@example.com", EmployeeLevel::Supervisor);
    add_config(&mut db, &token, at(1), named("Second")).unwrap();
    let c3 = add_config(&mut db, &token, at(1), named("Third")).unwrap();
    let absent = Config { id: 500, employee_id: e1.id, ..stored(&db, 1) };
    assert_eq!(set_active_config(&mut db, &token, at(1), absent), Ok(()));
    assert_eq!(active(&db, &token), Some(500));
    assert_eq!(remove_config(&mut db, &token, at(1), c3), Ok(()));
    assert_eq!(config_ids(&db), vec![1, 2]);
    assert_eq!(active(&db, &token), Some(1));
}

#[test]
fn the_sole_configuration_stays_whatever_is_named() {
    let mut db = Database::new();
    let (_, t1) = account(&mut db, "e1@example.com", EmployeeLevel::Read);
    let (_, t2) = account(&mut db, "e2@example.com", EmployeeLevel::Read);
    add_config(&mut db, &t2, at(1), named("Second")).unwrap();
    let before = snapshot(&db);
    for id in [1, 2, 3, 9] {
        let named_config = stored(&db, if id == 9 { 1 } else { id });
        let named_config = Config { id, ..named_config };
        assert_eq!(remove_config(&mut db, &t1, at(1), named_config), Ok(()));
        assert_eq!(snapshot(&db), before);
    }
    assert_eq!(active(&db, &t1), Some(1));
    assert_eq!(config_ids(&db), vec![1, 2, 3]);
}

#[test]
fn removing_touches_no_other_account() {
    let mut db = Database::new();
    let (_, t1) = account(&mut db, "e1@example.com", EmployeeLevel::Supervisor);
    let (e2, t2) = account(&mut db, "e2@example.com", EmployeeLevel::Supervisor);
    let c3 = add_config(&mut db, &t1, at(1), named("Second")).unwrap();
    assert_eq!(c3.id, 3);
    let c1 = stored(&db, 1);
    assert_eq!(remove_config(&mut db, &t1, at(1), c1), Ok(()));
    assert_eq!(active(&db, &t1), Some(3));
    assert_eq!(active(&db, &t2), Some(2));
    assert_eq!(stored(&db, 2).employee_id, e2.id);
    assert_eq!(config_ids(&db), vec![2, 3]);
}

#[test]
fn a_configuration_of_another_account_cannot_be_removed() {
    let mut db = Database::new();
    let (e1, t1) = account(&mut db, "e1@example.com", EmployeeLevel::Supervisor);
    let (_, _t2) = account(&mut db, "e2@example.com", EmployeeLevel::Supervisor);
    add_config(&mut db, &t1, at(1), named("Second")).unwrap();
    let theirs = stored(&db, 2);
    let before = snapshot(&db);
    assert_eq!(remove_config(&mut db, &t1, at(1), theirs.clone()), Err(Error::IdentityMismatch));
    assert_eq!(snapshot(&db), before);
    let forged = Config { employee_id: e1.id, ..theirs };
    assert_eq!(remove_config(&mut db, &t1, at(1), forged), Err(Error::IdentityMismatch));
    assert_eq!(snapshot(&db), before);
}

#[test]
fn removing_without_a_session_is_unauthorized() {
    let mut db = Database::new();
    let (_, token) = account(&mut db, "e1@example.com", EmployeeLevel::Supervisor);
    add_config(&mut db, &token, at(1), named("Second")).unwrap();
    let c1 = stored(&db, 1);
    let before = snapshot(&db);
    assert_eq!(remove_config(&mut db, "nope", at(1), c1.clone()), Err(Error::Unauthorized));
    assert_eq!(remove_config(&mut db, &token, at(90_000), c1), Err(Error::Unauthorized));
    assert_eq!(snapshot(&db), before);
}

#[test]
fn set_active_checks_the_owner_that_the_configuration_names() {
    let mut db = Database::new();
    let (_, t1) = account(&mut db, "e1@example.com", EmployeeLevel::Supervisor);
    let (_, _t2) = account(&mut db, "e2@example.com", EmployeeLevel::Read);
    let theirs = stored(&db, 2);
    let before = snapshot(&db);
    assert_eq!(set_active_config(&mut db, &t1, at(1), theirs), Err(Error::IdentityMismatch));
    assert_eq!(snapshot(&db), before);
    let mine = stored(&db, 1);
    assert_eq!(set_active_config(&mut db, "nope", at(1), mine), Err(Error::Unauthorized));
    assert_eq!(snapshot(&db), before);
}

#[test]
fn set_active_does_not_look_the_configuration_up() {
    let mut db = Database::new();
    let (e1, t1) = account(&mut db, "e1@example.com", EmployeeLevel::Read);
    let absent = Config { id: 500, employee_id: e1.id, ..stored(&db, 1) };
    assert_eq!(set_active_config(&mut db, &t1, at(1), absent), Ok(()));
    assert_eq!(active(&db, &t1), Some(500));
}

#[test]
fn get_active_config_reads_the_pointer() {
    let mut db = Database::new();
    let (_, t1) = account(&mut db, "e1@example.com", EmployeeLevel::Read);
    assert_eq!(get_active_config(&db, &t1, at(1)).unwrap().contents, Some(1));
    assert_eq!(get_active_config(&db, "nope", at(1)).err(), Some(Error::TokenNotFound));
    assert_eq!(get_active_config(&db, &t1, at(86_400)).err(), Some(Error::TokenExpired));
}

#[test]
fn add_config_stores_for_the_account_of_the_token() {
    let mut db = Database::new();
    let (e1, t1) = account(&mut db, "e1@example.com", EmployeeLevel::Read);
    let new = NewConfig {
        employee_id: 42,
        hour_format: HourFormat::H24,
        last_name_style: LastNameStyle::Full,
        view_employees: vec![3, 1, 2],
        show_vacations: true,
        ..named("Mine")
    };
    let added = add_config(&mut db, &t1, at(1), new).unwrap();
    assert_eq!(added.id, 2);
    assert_eq!(added.employee_id, e1.id);
    assert_eq!(added.config_name, "Mine");
    assert_eq!(added.hour_format, HourFormat::H24);
    assert_eq!(added.last_name_style, LastNameStyle::Full);
    assert_eq!(added.view_employees, vec![3, 1, 2]);
    assert!(added.show_vacations);
    assert_eq!(format!("{:?}", stored(&db, 2)), format!("{:?}", added));
    let before = snapshot(&db);
    assert_eq!(add_config(&mut db, "nope", at(1), named("x")).err(), Some(Error::Unauthorized));
    assert_eq!(snapshot(&db), before);
}

#[test]
fn update_config_replaces_the_stored_row() {
    let mut db = Database::new();
    let (_, t1) = account(&mut db, "e1@example.com", EmployeeLevel::Read);
    let changed = Config {
        config_name: String::from("Renamed"),
        show_disabled: true,
        view_employees: vec![9],
        ..stored(&db, 1)
    };
    let returned = update_config(&mut db, &t1, at(1), changed.clone()).unwrap();
    assert_eq!(format!("{:?}", returned), format!("{:?}", changed));
    assert_eq!(format!("{:?}", stored(&db, 1)), format!("{:?}", changed));
    assert_eq!(db.configs.len(), 1);
}

#[test]
fn update_config_is_for_the_owner_only() {
    let mut db = Database::new();
    let (e1, t1) = account(&mut db, "e1@example.com", EmployeeLevel::Admin);
    let (e2, _) = account(&mut db, "e2@example.com", EmployeeLevel::Read);
    let before = snapshot(&db);
    let theirs = stored(&db, 2);
    assert_eq!(
        update_config(&mut db, &t1, at(1), theirs.clone()).err(),
        Some(Error::IdentityMismatch)
    );
    let forged = Config { employee_id: e1.id, ..theirs };
    assert_eq!(update_config(&mut db, &t1, at(1), forged).err(), Some(Error::IdentityMismatch));
    let gift = Config { employee_id: e2.id, ..stored(&db, 1) };
    assert_eq!(update_config(&mut db, &t1, at(1), gift).err(), Some(Error::IdentityMismatch));
    let absent = Config { id: 9, ..stored(&db, 1) };
    assert_eq!(
        update_config(&mut db, &t1, at(1), absent).err(),
        Some(Error::Infrastructure(Fault::RecordNotFound))
    );
    let mine = stored(&db, 1);
    assert_eq!(update_config(&mut db, "nope", at(1), mine).err(), Some(Error::Unauthorized));
    assert_eq!(snapshot(&db), before);
}

#[test]
fn per_employee_colors_are_added_and_updated() {
    let mut db = Database::new();
    let (_, t1) = account(&mut db, "e1@example.com", EmployeeLevel::Read);
    let new = NewPerEmployeeConfig { config_id: 1, employee_id: 1, color: EmployeeColor::Red };
    assert_eq!(add_employee_config(&mut db, &t1, at(1), new), Ok(()));
    assert_eq!(db.per_employee_configs.len(), 1);
    let row = *db.per_employee_configs.row(0);
    assert_eq!((row.id, row.config_id, row.employee_id, row.color), (1, 1, 1, EmployeeColor::Red));
    let changed = PerEmployeeConfig { color: EmployeeColor::Purple, ..row };
    assert_eq!(update_employee_config(&mut db, &t1, at(1), changed), Ok(()));
    assert_eq!(db.per_employee_configs.row(0).color, EmployeeColor::Purple);
    let absent = PerEmployeeConfig { id: 5, ..row };
    let before = snapshot(&db);
    assert_eq!(
        update_employee_config(&mut db, &t1, at(1), absent),
        Err(Error::Infrastructure(Fault::RecordNotFound))
    );
    assert_eq!(add_employee_config(&mut db, "nope", at(1), new), Err(Error::Unauthorized));
    assert_eq!(update_employee_config(&mut db, "nope", at(1), changed), Err(Error::Unauthorized));
    assert_eq!(snapshot(&db), before);
}

#[test]
fn get_configs_lists_the_accounts_own_with_their_colors() {
    let mut db = Database::new();
    let (_, t1) = account(&mut db, "e1@example.com", EmployeeLevel::Read);
    let (_, t2) = account(&mut db, "e2@example.com", EmployeeLevel::Read);
    add_config(&mut db, &t1, at(1), named("Second")).unwrap();
    for (config_id, employee_id, color) in [
        (3, 1, EmployeeColor::Red),
        (2, 1, EmployeeColor::Grey),
        (1, 2, EmployeeColor::Blue),
        (3, 2, EmployeeColor::Black),
    ] {
        let new = NewPerEmployeeConfig { config_id, employee_id, color };
        add_employee_config(&mut db, &t2, at(1), new).unwrap();
    }
    let mine = get_configs(&db, &t1, at(1)).unwrap().contents;
    assert_eq!(mine.len(), 2);
    assert_eq!(mine[0].config.id, 1);
    assert_eq!(mine[0].config.config_name, "Default");
    assert_eq!(mine[0].per_employee.iter().map(|p| p.id).collect::<Vec<i32>>(), vec![3]);
    assert_eq!(mine[1].config.id, 3);
    assert_eq!(mine[1].config.config_name, "Second");
    assert_eq!(mine[1].per_employee.iter().map(|p| p.id).collect::<Vec<i32>>(), vec![1, 4]);
    assert_eq!(mine[1].per_employee[1].color, EmployeeColor::Black);
    let theirs = get_configs(&db, &t2, at(1)).unwrap().contents;
    assert_eq!(theirs.len(), 1);
    assert_eq!(theirs[0].config.id, 2);
    assert_eq!(theirs[0].per_employee.len(), 1);
    assert_eq!(get_configs(&db, "nope", at(1)).err(), Some(Error::TokenNotFound));
}

#[test]
fn copy_config_stores_a_copy_with_its_colors() {
    let mut db = Database::new();
    let (e1, t1) = account(&mut db, "e1@example.com", EmployeeLevel::Read);
    for color in [EmployeeColor::Red, EmployeeColor::Green] {
        let new = NewPerEmployeeConfig { config_id: 1, employee_id: 7, color };
        add_employee_config(&mut db, &t1, at(1), new).unwrap();
    }
    let mut listed = get_configs(&db, &t1, at(1)).unwrap().contents;
    let combined: CombinedConfig = listed.remove(0);
    assert_eq!(copy_config(&mut db, &t1, at(1), combined), Ok(()));
    assert_eq!(config_ids(&db), vec![1, 2]);
    let copy = stored(&db, 2);
    assert_eq!(copy.employee_id, e1.id);
    assert_eq!(copy.config_name, "Default");
    let colors: Vec<(i32, i32, i32, EmployeeColor)> = db
        .per_employee_configs
        .rows()
        .iter()
        .map(|p| (p.id, p.config_id, p.employee_id, p.color))
        .collect();
    assert_eq!(
        colors,
        vec![
            (1, 1, 7, EmployeeColor::Red),
            (2, 1, 7, EmployeeColor::Green),
            (3, 2, 7, EmployeeColor::Red),
            (4, 2, 7, EmployeeColor::Green),
        ]
    );
    assert_eq!(active(&db, &t1), Some(1));
}

#[test]
fn copy_config_is_for_the_owner_only() {
    let mut db = Database::new();
    let (_, t1) = account(&mut db, "e1@example.com", EmployeeLevel::Admin);
    let (_, t2) = account(&mut db, "e2@example.com", EmployeeLevel::Read);
    let theirs = get_configs(&db, &t2, at(1)).unwrap().contents.remove(0);
    let before = snapshot(&db);
    assert_eq!(copy_config(&mut db, &t1, at(1), theirs.clone()), Err(Error::IdentityMismatch));
    assert_eq!(copy_config(&mut db, "nope", at(1), theirs), Err(Error::Unauthorized));
    assert_eq!(snapshot(&db), before);
}

#[test]
fn owned_configs_finds_the_first_and_whether_there_are_more() {
    let mut db = Database::new();
    let (_, t1) = account(&mut db, "e1@example.com", EmployeeLevel::Read);
    let (_, t2) = account(&mut db, "e2@example.com", EmployeeLevel::Read);
    assert_eq!(owned_configs(&db.configs, 1), (Some(0), false));
    assert_eq!(owned_configs(&db.configs, 2), (Some(1), false));
    assert_eq!(owned_configs(&db.configs, 3), (None, false));
    add_config(&mut db, &t2, at(1), named("x")).unwrap();
    add_config(&mut db, &t1, at(1), named("y")).unwrap();
    assert_eq!(owned_configs(&db.configs, 1), (Some(0), true));
    assert_eq!(owned_configs(&db.configs, 2), (Some(1), true));
}
