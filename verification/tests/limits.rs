use sched_core::account::default_config;
use sched_core::config::{
    CombinedConfig, Config, EmployeeColor, HourFormat, LastNameStyle, NewPerEmployeeConfig,
    PerEmployeeConfig,
};
use sched_core::datetime::Timestamp;
use sched_core::db::{
    add_config, add_employee, add_employee_config, add_shift, add_shift_exception, add_vacation,
    copy_config, create_account, Database,
};
use sched_core::employee::{
    ClientSideEmployee, Employee, EmployeeLevel, NewEmployee, NewSession, Session,
};
use sched_core::employee::Name;
use sched_core::error::{Error, Fault};
use sched_core::message::LoginInfo;
use sched_core::roster::{add_employee as add_to_roster, Roster};
use sched_core::session::open_session;
use sched_core::shift::{
    NewShift, NewShiftException, NewVacation, Shift, ShiftException, ShiftRepeat, Vacation,
};
use sched_core::table::Table;

const LAST: i32 = i32::MAX - 1;
const EXHAUSTED: Error = Error::Infrastructure(Fault::KeysExhausted);

fn at(secs: i64) -> Timestamp {
    Timestamp::new(secs, 0)
}

fn supervisor(id: i32) -> Employee {
    Employee {
        id,
        email: String::from("s@example.com"),
        password_hash: String::from("hash"),
        active_config: Some(LAST),
        level: EmployeeLevel::Supervisor,
        first: String::from("F"),
        last: String::from("L"),
        phone_number: None,
        default_color: EmployeeColor::Red,
    }
}

fn config(id: i32, employee_id: i32) -> Config {
    Config {
        id,
        employee_id,
        config_name: String::from("Default"),
        hour_format: HourFormat::H12,
        last_name_style: LastNameStyle::Initial,
        view_date: at(0),
        view_employees: vec![],
        show_minutes: true,
        show_shifts: true,
        show_vacations: false,
        show_call_shifts: false,
        show_disabled: false,
    }
}

fn shift(id: i32, supervisor_id: i32) -> Shift {
    Shift {
        id,
        supervisor_id,
        employee_id: None,
        start: at(1),
        end: at(2),
        repeat: ShiftRepeat::NeverRepeat,
        every_x: None,
        note: None,
        on_call: false,
    }
}

/// A store in which every table but the account table has handed out its
/// last key, with one supervisor signed in under the token `t`.
fn full(account_id: i32) -> Database {
    Database::from_tables(
        Table::from_rows(vec![supervisor(account_id)]).unwrap(),
        Table::from_rows(vec![Session {
            id: LAST,
            employee_id: account_id,
            expiration: at(100),
            token: String::from("t"),
        }])
        .unwrap(),
        Table::from_rows(vec![config(LAST, account_id)]).unwrap(),
        Table::from_rows(vec![PerEmployeeConfig {
            id: LAST - 1,
            config_id: LAST,
            employee_id: account_id,
            color: EmployeeColor::Blue,
        }])
        .unwrap(),
        Table::from_rows(vec![shift(LAST, account_id)]).unwrap(),
        Table::from_rows(vec![ShiftException { id: LAST, shift_id: LAST, date: at(5) }]).unwrap(),
        Table::from_rows(vec![Vacation {
            id: LAST,
            supervisor_id: None,
            employee_id: account_id,
            approved: false,
            start: at(1),
            end: at(2),
            requested: at(0),
        }])
        .unwrap(),
    )
    .unwrap()
}

fn snapshot(db: &Database) -> String {
    format!("{:?}", db)
}

#[test]
fn a_full_table_refuses_a_new_row_and_nothing_changes() {
    let mut db = full(1);
    assert_eq!(db.shifts.next_key(), i32::MAX);
    let before = snapshot(&db);
    let new_shift = NewShift {
        supervisor_id: 1,
        employee_id: None,
        start: at(1),
        end: at(2),
        repeat: ShiftRepeat::EveryDay,
        every_x: None,
        note: None,
        on_call: false,
    };
    assert_eq!(add_shift(&mut db, "t", at(1), new_shift).err(), Some(EXHAUSTED));
    assert_eq!(
        add_shift_exception(&mut db, "t", at(1), NewShiftException { shift_id: LAST, date: at(9) }).err(),
        Some(EXHAUSTED)
    );
    let new_vacation = NewVacation {
        supervisor_id: None,
        employee_id: 1,
        approved: false,
        start: at(1),
        end: at(2),
        requested: at(0),
    };
    assert_eq!(add_vacation(&mut db, "t", at(1), new_vacation).err(), Some(EXHAUSTED));
    assert_eq!(add_config(&mut db, "t", at(1), default_config(at(1))).err(), Some(EXHAUSTED));
    let session = NewSession::with_token(1, at(50), String::from("other"));
    assert_eq!(open_session(&mut db, 0, session).err(), Some(EXHAUSTED));
    let details = ClientSideEmployee {
        id: 0,
        email: String::new(),
        active_config: None,
        level: EmployeeLevel::Read,
        first: String::from("A"),
        last: String::from("B"),
        phone_number: None,
        default_color: EmployeeColor::Red,
    };
    assert_eq!(add_employee(&mut db, "t", at(1), details).err(), Some(EXHAUSTED));
    let info = LoginInfo { email: String::from("n@example.com"), password: String::from("pw") };
    let new = NewEmployee::new(
        info,
        None,
        EmployeeLevel::Read,
        String::new(),
        String::new(),
        None,
        EmployeeColor::Red,
    )
    .unwrap();
    assert_eq!(create_account(&mut db, new, default_config(at(1))).err(), Some(EXHAUSTED));
    assert_eq!(snapshot(&db), before);
}

#[test]
fn per_employee_colors_fit_up_to_the_last_key() {
    let mut db = full(1);
    assert_eq!(db.per_employee_configs.next_key(), LAST);
    let new = NewPerEmployeeConfig { config_id: LAST, employee_id: 1, color: EmployeeColor::Red };
    assert_eq!(add_employee_config(&mut db, "t", at(1), new), Ok(()));
    assert_eq!(db.per_employee_configs.next_key(), i32::MAX);
    let before = snapshot(&db);
    assert_eq!(add_employee_config(&mut db, "t", at(1), new), Err(EXHAUSTED));
    assert_eq!(snapshot(&db), before);
}

#[test]
fn a_copy_is_stored_whole_or_not_at_all() {
    let color = PerEmployeeConfig { id: 1, config_id: 1, employee_id: 1, color: EmployeeColor::Red };
    let combined = |colors: usize| CombinedConfig {
        config: config(1, 1),
        per_employee: vec![color; colors],
    };
    let mut db = Database::from_tables(
        Table::from_rows(vec![supervisor(1)]).unwrap(),
        Table::from_rows(vec![Session {
            id: 1,
            employee_id: 1,
            expiration: at(100),
            token: String::from("t"),
        }])
        .unwrap(),
        Table::from_rows(vec![config(1, 1)]).unwrap(),
        Table::from_rows(vec![PerEmployeeConfig { id: LAST - 2, ..color }]).unwrap(),
        Table::from_rows(Vec::<Shift>::new()).unwrap(),
        Table::from_rows(Vec::<ShiftException>::new()).unwrap(),
        Table::from_rows(Vec::<Vacation>::new()).unwrap(),
    )
    .unwrap();
    assert_eq!(db.per_employee_configs.next_key(), LAST - 1);
    let before = snapshot(&db);
    assert_eq!(copy_config(&mut db, "t", at(1), combined(3)), Err(EXHAUSTED));
    assert_eq!(snapshot(&db), before);
    assert_eq!(copy_config(&mut db, "t", at(1), combined(2)), Ok(()));
    assert_eq!(db.configs.len(), 2);
    assert_eq!(db.per_employee_configs.len(), 3);
    assert_eq!(db.per_employee_configs.row(2).id, LAST);
    assert_eq!(db.per_employee_configs.next_key(), i32::MAX);
    let before = snapshot(&db);
    assert_eq!(copy_config(&mut db, "t", at(1), combined(1)), Err(EXHAUSTED));
    assert_eq!(snapshot(&db), before);
    assert_eq!(copy_config(&mut db, "t", at(1), combined(0)), Ok(()));
    assert_eq!(db.configs.len(), 3);
}

#[test]
fn a_full_roster_refuses_new_rows() {
    let mut conn = Roster::new();
    conn.employees = Table::from_rows(vec![sched_core::roster::Employee {
        id: LAST,
        name: Name { first: String::from("Ann"), last: String::from("Lee") },
        phone_number: None,
    }])
    .unwrap();
    conn.shifts = Table::from_rows(vec![sched_core::roster::Shift {
        id: LAST,
        employee_id: LAST,
        start: 5,
        duration_hours: 0,
    }])
    .unwrap();
    let ann = sched_core::roster::get_employee(
        &conn,
        Name { first: String::from("Ann"), last: String::from("Lee") },
    )
    .unwrap();
    assert_eq!(
        add_to_roster(&mut conn, Name { first: String::from("Bob"), last: String::from("Lee") }, None).err(),
        Some(sched_core::roster::Error::UnknownError)
    );
    assert_eq!(ann.add_shift(&mut conn, 6, 0), Err(sched_core::timetable::Error::Unknown));
    assert_eq!(ann.add_shift(&mut conn, 5, 0), Err(sched_core::timetable::Error::ShiftExists));
    assert_eq!(conn.employees.len(), 1);
    assert_eq!(conn.shifts.len(), 1);
}
