use sched_core::account::{default_config, store_password_hash};
use sched_core::auth::{authorize, locate, match_ids};
use sched_core::config::EmployeeColor;
use sched_core::datetime::Timestamp;
use sched_core::db::{
    add_employee, change_password, check_token, create_account, get_current_employee,
    get_employees, login, remove_employee, update_employee, update_employee_color,
    update_employee_phone_number, Database,
};
use sched_core::employee::{ClientSideEmployee, Employee, EmployeeLevel, NewEmployee};
use sched_core::error::{Error, Fault};
use sched_core::message::{ChangePasswordInfo, LoginInfo};
use sched_core::password::verify_password;

fn at(secs: i64) -> Timestamp {
    Timestamp::new(secs, 0)
}

fn info(email: &str, password: &str) -> LoginInfo {
    LoginInfo { email: String::from(email), password: String::from(password) }
}

fn account(db: &mut Database, email: &str, level: EmployeeLevel) -> (Employee, String) {
    let new = NewEmployee::new(
        info(email, "pw"),
        None,
        level,
        String::from("First"),
        String::from("Last"),
        None,
        EmployeeColor::Blue,
    )
    .unwrap();
    let created = create_account(db, new, default_config(at(0))).unwrap();
    let (_, token) = login(db, info(email, "pw"), at(0)).unwrap();
    (created, token)
}

fn details(id: i32, email: &str, first: &str) -> ClientSideEmployee {
    ClientSideEmployee {
        id,
        email: String::from(email),
        active_config: Some(1000),
        level: EmployeeLevel::Admin,
        first: String::from(first),
        last: String::from("Doe"),
        phone_number: Some(String::from("555-0199")),
        default_color: EmployeeColor::Yellow,
    }
}

fn change(old: &str, new: &str) -> ChangePasswordInfo {
    ChangePasswordInfo { old_password: String::from(old), new_password: String::from(new) }
}

fn snapshot(db: &Database) -> String {
    format!("{:?}", db)
}

#[test]
fn levels_are_ordered() {
    let (read, supervisor, admin) =
        (EmployeeLevel::Read, EmployeeLevel::Supervisor, EmployeeLevel::Admin);
    assert_eq!((read.rank(), supervisor.rank(), admin.rank()), (0, 1, 2));
    for (level, minimum, enough) in [
        (read, read, true),
        (read, supervisor, false),
        (read, admin, false),
        (supervisor, read, true),
        (supervisor, supervisor, true),
        (supervisor, admin, false),
        (admin, read, true),
        (admin, supervisor, true),
        (admin, admin, true),
    ] {
        assert_eq!(level.at_least(minimum), enough, "{:?} {:?}", level, minimum);
    }
}

#[test]
fn match_ids_compares_keys() {
    assert_eq!(match_ids(3, 3), Ok(()));
    assert_eq!(match_ids(3, 4), Err(Error::IdentityMismatch));
    assert_eq!(match_ids(-1, -1), Ok(()));
}

#[test]
fn the_level_is_checked_before_the_owner() {
    let mut db = Database::new();
    let (reader, _) = account(&mut db, "r@example.com", EmployeeLevel::Read);
    let (supervisor, _) = account(&mut db, "s@example.com", EmployeeLevel::Supervisor);
    let (admin, _) = account(&mut db, "a@example.com", EmployeeLevel::Admin);
    let own = Some(supervisor.id);
    assert_eq!(authorize(&reader, EmployeeLevel::Supervisor, own), Err(Error::Forbidden));
    assert_eq!(
        authorize(&reader, EmployeeLevel::Supervisor, Some(reader.id)),
        Err(Error::Forbidden)
    );
    assert_eq!(authorize(&reader, EmployeeLevel::Supervisor, None), Err(Error::Forbidden));
    assert_eq!(authorize(&reader, EmployeeLevel::Read, Some(reader.id)), Ok(()));
    assert_eq!(authorize(&reader, EmployeeLevel::Read, own), Err(Error::IdentityMismatch));
    assert_eq!(authorize(&supervisor, EmployeeLevel::Supervisor, own), Ok(()));
    assert_eq!(authorize(&supervisor, EmployeeLevel::Supervisor, None), Ok(()));
    assert_eq!(authorize(&supervisor, EmployeeLevel::Admin, own), Err(Error::Forbidden));
    assert_eq!(authorize(&admin, EmployeeLevel::Supervisor, own), Err(Error::IdentityMismatch));
    assert_eq!(authorize(&admin, EmployeeLevel::Admin, None), Ok(()));
}

#[test]
fn locate_checks_the_claim_then_the_stored_owner() {
    let mut db = Database::new();
    let (e1, _) = account(&mut db, "e1@example.com", EmployeeLevel::Read);
    let (e2, _) = account(&mut db, "e2@example.com", EmployeeLevel::Read);
    let read = EmployeeLevel::Read;
    assert_eq!(locate(&e1, read, Some(e1.id), &db.configs, 1), Ok(Some(0)));
    assert_eq!(locate(&e2, read, Some(e2.id), &db.configs, 2), Ok(Some(1)));
    assert_eq!(locate(&e1, read, Some(e1.id), &db.configs, 3), Ok(None));
    assert_eq!(locate(&e1, read, Some(e2.id), &db.configs, 1), Err(Error::IdentityMismatch));
    assert_eq!(locate(&e1, read, Some(e1.id), &db.configs, 2), Err(Error::IdentityMismatch));
    assert_eq!(locate(&e1, read, None, &db.configs, 2), Err(Error::IdentityMismatch));
    assert_eq!(
        locate(&e1, EmployeeLevel::Admin, Some(e1.id), &db.configs, 1),
        Err(Error::Forbidden)
    );
}

#[test]
fn change_password_replaces_the_hash_and_keeps_sessions() {
    let mut db = Database::new();
    let (e1, token) = account(&mut db, "e1@example.com", EmployeeLevel::Read);
    let (_, other_session) = login(&mut db, info("e1@example.com", "pw"), at(0)).unwrap();
    assert_eq!(change_password(&mut db, &token, at(1), change("pw", "better")), Ok(()));
    let stored = db.employees.row(0).password_hash.clone();
    assert_ne!(stored, e1.password_hash);
    assert_eq!(verify_password("better", &stored), Ok(true));
    assert_eq!(verify_password("pw", &stored), Ok(false));
    assert_eq!(db.sessions.len(), 2);
    assert_eq!(check_token(&db, &token, at(1)).unwrap().id, e1.id);
    assert_eq!(check_token(&db, &other_session, at(1)).unwrap().id, e1.id);
    assert_eq!(
        login(&mut db, info("e1@example.com", "pw"), at(1)).err(),
        Some(Error::InvalidPassword)
    );
    assert!(login(&mut db, info("e1@example.com", "better"), at(1)).is_ok());
}

#[test]
fn change_password_with_a_wrong_old_password_is_invalid() {
    let mut db = Database::new();
    let (_, token) = account(&mut db, "e1@example.com", EmployeeLevel::Read);
    let before = snapshot(&db);
    assert_eq!(
        change_password(&mut db, &token, at(1), change("wrong", "better")),
        Err(Error::InvalidPassword)
    );
    assert_eq!(
        change_password(&mut db, "nope", at(1), change("pw", "better")),
        Err(Error::Unauthorized)
    );
    assert_eq!(
        change_password(&mut db, &token, at(86_400), change("pw", "better")),
        Err(Error::Unauthorized)
    );
    assert_eq!(snapshot(&db), before);
}

#[test]
fn a_damaged_stored_hash_is_reported() {
    let mut db = Database::new();
    let (_, token) = account(&mut db, "e1@example.com", EmployeeLevel::Read);
    store_password_hash(&mut db, 0, String::from("damaged"));
    assert_eq!(db.employees.row(0).password_hash, "damaged");
    let before = snapshot(&db);
    let malformed = Error::Infrastructure(Fault::MalformedHash);
    assert_eq!(change_password(&mut db, &token, at(1), change("pw", "better")), Err(malformed));
    assert_eq!(login(&mut db, info("e1@example.com", "pw"), at(1)).err(), Some(malformed));
    assert_eq!(snapshot(&db), before);
}

#[test]
fn color_and_phone_number_are_the_accounts_own() {
    let mut db = Database::new();
    let (_, t1) = account(&mut db, "e1@example.com", EmployeeLevel::Read);
    let (e2, _) = account(&mut db, "e2@example.com", EmployeeLevel::Read);
    assert_eq!(update_employee_color(&mut db, &t1, at(1), EmployeeColor::LightGrey), Ok(()));
    assert_eq!(
        update_employee_phone_number(&mut db, &t1, at(1), String::from("555-0123")),
        Ok(())
    );
    let mine = get_current_employee(&db, &t1, at(1)).unwrap();
    assert_eq!(mine.default_color, EmployeeColor::LightGrey);
    assert_eq!(mine.phone_number, Some(String::from("555-0123")));
    assert_eq!(mine.email, "e1@example.com");
    assert_eq!(format!("{:?}", db.employees.row(1)), format!("{:?}", e2));
    let before = snapshot(&db);
    assert_eq!(
        update_employee_color(&mut db, "nope", at(1), EmployeeColor::Red),
        Err(Error::Unauthorized)
    );
    assert_eq!(
        update_employee_phone_number(&mut db, "nope", at(1), String::new()),
        Err(Error::Unauthorized)
    );
    assert_eq!(snapshot(&db), before);
}

#[test]
fn current_employee_is_the_one_of_the_token() {
    let mut db = Database::new();
    let (e1, t1) = account(&mut db, "e1@example.com", EmployeeLevel::Supervisor);
    let current = get_current_employee(&db, &t1, at(1)).unwrap();
    let expected: ClientSideEmployee = e1.into();
    assert_eq!(format!("{:?}", current), format!("{:?}", expected));
    assert_eq!(get_current_employee(&db, "nope", at(1)).err(), Some(Error::TokenNotFound));
    assert_eq!(get_current_employee(&db, &t1, at(86_400)).err(), Some(Error::TokenExpired));
}

#[test]
fn employees_are_listed_in_order_without_hashes() {
    let mut db = Database::new();
    let (_, t1) = account(&mut db, "e1@example.com", EmployeeLevel::Read);
    account(&mut db, "e2@example.com", EmployeeLevel::Admin);
    let listed = get_employees(&db, &t1, at(1)).unwrap().contents;
    assert_eq!(listed.len(), 2);
    assert_eq!(
        (listed[0].id, listed[0].email.as_str(), listed[0].level),
        (1, "e1@example.com", EmployeeLevel::Read)
    );
    assert_eq!(
        (listed[1].id, listed[1].email.as_str(), listed[1].level),
        (2, "e2@example.com", EmployeeLevel::Admin)
    );
    assert!(!format!("{:?}", listed).contains("rpbkdf2"));
    assert_eq!(get_employees(&db, "nope", at(1)).err(), Some(Error::TokenNotFound));
}

#[test]
fn a_supervisor_adds_an_account_with_its_first_configuration() {
    let mut db = Database::new();
    let (_, token) = account(&mut db, "s@example.com", EmployeeLevel::Supervisor);
    let added = add_employee(&mut db, &token, at(9), details(77, "ignored@example.com", "Ann")).unwrap();
    assert_eq!(added.id, 2);
    assert_eq!(added.email, "");
    assert_eq!(added.level, EmployeeLevel::Read);
    assert_eq!(added.first, "Ann");
    assert_eq!(added.last, "Doe");
    assert_eq!(added.phone_number, Some(String::from("555-0199")));
    assert_eq!(added.default_color, EmployeeColor::Green);
    assert_eq!(added.active_config, Some(2));
    assert_eq!(db.employees.len(), 2);
    assert_eq!(verify_password("", &db.employees.row(1).password_hash), Ok(true));
    let config = db.configs.row(1);
    assert_eq!((config.id, config.employee_id), (2, 2));
    assert_eq!(config.config_name, "Default");
    assert_eq!(config.view_date, at(9));
    let (summary, _) = login(&mut db, info("", ""), at(9)).unwrap();
    assert_eq!(summary.id, 2);
}

#[test]
fn a_second_account_without_an_email_is_refused() {
    let mut db = Database::new();
    let (_, token) = account(&mut db, "s@example.com", EmployeeLevel::Supervisor);
    add_employee(&mut db, &token, at(1), details(0, "", "Ann")).unwrap();
    let before = snapshot(&db);
    assert_eq!(
        add_employee(&mut db, &token, at(1), details(0, "", "Bob")).err(),
        Some(Error::EmployeeExists)
    );
    assert_eq!(snapshot(&db), before);
    assert_eq!(
        update_employee(&mut db, &token, at(1), details(2, "ann@example.com", "Ann")),
        Ok(())
    );
    let bob = add_employee(&mut db, &token, at(1), details(0, "", "Bob")).unwrap();
    assert_eq!(bob.id, 3);
}

#[test]
fn a_reader_cannot_add_change_or_remove_accounts() {
    let mut db = Database::new();
    let (e1, token) = account(&mut db, "r@example.com", EmployeeLevel::Read);
    let before = snapshot(&db);
    assert_eq!(
        add_employee(&mut db, &token, at(1), details(0, "", "Ann")).err(),
        Some(Error::Forbidden)
    );
    assert_eq!(
        update_employee(&mut db, &token, at(1), details(e1.id, "x@example.com", "X")),
        Err(Error::Forbidden)
    );
    assert_eq!(
        remove_employee(&mut db, &token, at(1), details(e1.id, "", "")),
        Err(Error::Forbidden)
    );
    assert_eq!(snapshot(&db), before);
}

#[test]
fn without_a_session_accounts_are_out_of_reach() {
    let mut db = Database::new();
    let (e1, token) = account(&mut db, "a@example.com", EmployeeLevel::Admin);
    let before = snapshot(&db);
    assert_eq!(
        add_employee(&mut db, "nope", at(1), details(0, "", "Ann")).err(),
        Some(Error::Unauthorized)
    );
    assert_eq!(
        update_employee(&mut db, "nope", at(1), details(e1.id, "x", "X")),
        Err(Error::Unauthorized)
    );
    assert_eq!(
        remove_employee(&mut db, "nope", at(1), details(e1.id, "", "")),
        Err(Error::Unauthorized)
    );
    assert_eq!(
        remove_employee(&mut db, &token, at(86_400), details(e1.id, "", "")),
        Err(Error::Unauthorized)
    );
    assert_eq!(snapshot(&db), before);
}

#[test]
fn update_employee_changes_what_a_client_may_change() {
    let mut db = Database::new();
    let (_, token) = account(&mut db, "s@example.com", EmployeeLevel::Supervisor);
    let (e2, t2) = account(&mut db, "e2@example.com", EmployeeLevel::Read);
    assert_eq!(
        update_employee(&mut db, &token, at(1), details(e2.id, "new@example.com", "Ann")),
        Ok(())
    );
    let row = db.employees.row(1).clone();
    assert_eq!(row.id, e2.id);
    assert_eq!(row.email, "new@example.com");
    assert_eq!(row.first, "Ann");
    assert_eq!(row.last, "Doe");
    assert_eq!(row.phone_number, Some(String::from("555-0199")));
    assert_eq!(row.default_color, EmployeeColor::Yellow);
    assert_eq!(row.level, EmployeeLevel::Read);
    assert_eq!(row.active_config, e2.active_config);
    assert_eq!(row.password_hash, e2.password_hash);
    assert_eq!(check_token(&db, &t2, at(1)).unwrap().email, "new@example.com");
}

#[test]
fn update_employee_keeps_emails_apart() {
    let mut db = Database::new();
    let (e1, token) = account(&mut db, "s@example.com", EmployeeLevel::Supervisor);
    let (e2, _) = account(&mut db, "e2@example.com", EmployeeLevel::Read);
    let before = snapshot(&db);
    assert_eq!(
        update_employee(&mut db, &token, at(1), details(e2.id, "s@example.com", "Ann")),
        Err(Error::EmployeeExists)
    );
    assert_eq!(snapshot(&db), before);
    assert_eq!(
        update_employee(&mut db, &token, at(1), details(e1.id, "s@example.com", "Sam")),
        Ok(())
    );
    assert_eq!(db.employees.row(0).first, "Sam");
    let after = snapshot(&db);
    assert_eq!(
        update_employee(&mut db, &token, at(1), details(50, "free@example.com", "Nobody")),
        Ok(())
    );
    assert_eq!(snapshot(&db), after);
}

#[test]
fn only_an_admin_removes_accounts() {
    let mut db = Database::new();
    let (_, admin) = account(&mut db, "a@example.com", EmployeeLevel::Admin);
    let (_, supervisor) = account(&mut db, "s@example.com", EmployeeLevel::Supervisor);
    let (e3, t3) = account(&mut db, "e3@example.com", EmployeeLevel::Read);
    let before = snapshot(&db);
    assert_eq!(
        remove_employee(&mut db, &supervisor, at(1), details(e3.id, "", "")),
        Err(Error::Forbidden)
    );
    assert_eq!(snapshot(&db), before);
    assert_eq!(remove_employee(&mut db, &admin, at(1), details(e3.id, "", "")), Ok(()));
    assert_eq!(db.employees.len(), 2);
    assert!(db.employees.position(e3.id).is_none());
    assert_eq!(check_token(&db, &t3, at(1)).err(), Some(Error::AccountNotFound));
    let after = snapshot(&db);
    assert_eq!(remove_employee(&mut db, &admin, at(1), details(e3.id, "", "")), Ok(()));
    assert_eq!(snapshot(&db), after);
    assert_eq!(
        update_employee_color(&mut db, &t3, at(1), EmployeeColor::Red),
        Err(Error::Unauthorized)
    );
}

#[test]
fn account_keys_are_not_handed_out_twice() {
    let mut db = Database::new();
    let (_, admin) = account(&mut db, "a@example.com", EmployeeLevel::Admin);
    let (e2, _) = account(&mut db, "e2@example.com", EmployeeLevel::Read);
    assert_eq!(remove_employee(&mut db, &admin, at(1), details(e2.id, "", "")), Ok(()));
    let (e3, _) = account(&mut db, "e3@example.com", EmployeeLevel::Read);
    assert_eq!(e3.id, 3);
    assert_eq!(e3.active_config, Some(3));
}
