use sched_core::config::{CalendarView, Config, EmployeeColor, HourFormat, LastNameStyle, PerEmployeeConfig};
use sched_core::datetime::Timestamp;
use sched_core::db::{Database, JsonObject};
use sched_core::employee::{ClientSideEmployee, Employee, EmployeeLevel, Session, TokenData};
use sched_core::enum_helper::{make_string_error, same_text, StringError};
use sched_core::error::{Error, Fault};
use sched_core::message::{ChangePasswordInfo, LoginInfo};
use sched_core::password::verify_password;
use sched_core::settings::{
    NewPerEmployeeSettings, NewSettings, PerEmployeeSettings, Settings, ViewType,
};
use sched_core::shift::{Shift, ShiftException, ShiftRepeat, Vacation};
use sched_core::table::Table;
use sched_core::token::{Token, TokenError, DEFAULT_TOKEN_VALIDITY};
use sched_core::user::{ClientSideUser, NewSession, NewUser, User, UserLevel};

fn employee(id: i32, email: &str) -> Employee {
    Employee {
        id,
        email: String::from(email),
        password_hash: String::from("hash"),
        active_config: None,
        level: EmployeeLevel::Read,
        first: String::from("F"),
        last: String::from("L"),
        phone_number: None,
        default_color: EmployeeColor::Red,
    }
}

fn session(id: i32, token: &str) -> Session {
    Session { id, employee_id: 1, expiration: Timestamp::new(9, 0), token: String::from(token) }
}

fn tables(employees: Vec<Employee>, sessions: Vec<Session>) -> Option<Database> {
    Database::from_tables(
        Table::from_rows(employees).unwrap(),
        Table::from_rows(sessions).unwrap(),
        Table::from_rows(Vec::<Config>::new()).unwrap(),
        Table::from_rows(Vec::<PerEmployeeConfig>::new()).unwrap(),
        Table::from_rows(Vec::<Shift>::new()).unwrap(),
        Table::from_rows(Vec::<ShiftException>::new()).unwrap(),
        Table::from_rows(Vec::<Vacation>::new()).unwrap(),
    )
}

#[test]
fn errors_describe_themselves() {
    assert_eq!(Error::InvalidPassword.message(), "Incorrect password was entered!");
    assert_eq!(Error::EmployeeExists.message(), "A owner with that email already exists!");
    assert_eq!(Error::TokenExpired.message(), "The token is expired!");
    assert_eq!(Error::TokenNotFound.message(), "Token not found, unauthorized access!");
    assert_eq!(Error::Unauthorized.message(), "Unauthorized request!");
    assert_eq!(Error::IdentityMismatch.message(), "Identity was not expected");
    assert_eq!(Error::Forbidden.message(), "Insufficient level for the request!");
    assert_eq!(Error::AccountNotFound.message(), "The account of the session does not exist!");
    assert_eq!(
        Error::Infrastructure(Fault::MalformedHash).message(),
        "Misc: Hash is not in Rust PBKDF2 format."
    );
    assert_eq!(Error::Infrastructure(Fault::HashFailure).message(), "Misc: Hash error");
    assert_eq!(
        Error::Infrastructure(Fault::PayloadFailure).message(),
        "Misc: Error serializing token data!"
    );
    assert_eq!(
        Error::Infrastructure(Fault::TokenCollision).message(),
        "Misc: A session with that token already exists!"
    );
    assert_eq!(Error::Infrastructure(Fault::RecordNotFound).message(), "Misc: Record not found");
    assert_eq!(
        Error::Infrastructure(Fault::KeysExhausted).message(),
        "Misc: No key is left for a new record"
    );
    assert_eq!(Fault::HashFailure.message(), "Hash error");
}

#[test]
fn string_errors_carry_their_message() {
    let error = make_string_error("enum_from_sql: bytes empty!");
    assert_eq!(error.0, "enum_from_sql: bytes empty!");
    assert_eq!(error.message(), "Error: enum_from_sql: bytes empty!");
    assert_eq!(make_string_error("").message(), "Error: ");
    assert_eq!(StringError(String::from("x")).clone().0, "x");
}

#[test]
fn texts_are_compared_whole() {
    assert!(same_text("", ""));
    assert!(same_text("Read", "Read"));
    assert!(!same_text("Read", "read"));
    assert!(!same_text("Read", "Read "));
    assert!(!same_text("Rea", "Read"));
}

#[test]
fn levels_have_names() {
    for level in [EmployeeLevel::Read, EmployeeLevel::Supervisor, EmployeeLevel::Admin] {
        assert_eq!(EmployeeLevel::from_text(level.as_str()).ok(), Some(level));
    }
    assert_eq!(EmployeeLevel::Supervisor.as_str(), "Supervisor");
    assert_eq!(
        EmployeeLevel::from_text("supervisor").err().map(|e| e.0),
        Some(String::from("VariantNotFound"))
    );
    assert_eq!(
        EmployeeLevel::from_text("").err().map(|e| e.0),
        Some(String::from("VariantNotFound"))
    );
    for level in [UserLevel::Read, UserLevel::Supervisor, UserLevel::Admin] {
        assert_eq!(UserLevel::from_text(level.as_str()).ok(), Some(level));
    }
    assert!(UserLevel::from_text("Owner").is_err());
}

#[test]
fn a_requested_level_falls_back_to_read() {
    assert_eq!(EmployeeLevel::from_request("Supervisor"), EmployeeLevel::Supervisor);
    assert_eq!(EmployeeLevel::from_request("Admin"), EmployeeLevel::Admin);
    assert_eq!(EmployeeLevel::from_request("Read"), EmployeeLevel::Read);
    assert_eq!(EmployeeLevel::from_request("admin"), EmployeeLevel::Read);
    assert_eq!(EmployeeLevel::from_request(""), EmployeeLevel::Read);
}

#[test]
fn preferences_have_names() {
    for format in [HourFormat::H12, HourFormat::H24] {
        assert_eq!(HourFormat::from_text(format.as_str()).ok(), Some(format));
    }
    for style in [LastNameStyle::Full, LastNameStyle::Initial, LastNameStyle::Hidden] {
        assert_eq!(LastNameStyle::from_text(style.as_str()).ok(), Some(style));
    }
    for view in [CalendarView::Month, CalendarView::Week, CalendarView::Day, CalendarView::DayAlt] {
        assert_eq!(CalendarView::from_text(view.as_str()).ok(), Some(view));
    }
    for repeat in [ShiftRepeat::NeverRepeat, ShiftRepeat::EveryWeek, ShiftRepeat::EveryDay] {
        assert_eq!(ShiftRepeat::from_text(repeat.as_str()).ok(), Some(repeat));
    }
    assert_eq!(HourFormat::H24.as_str(), "H24");
    assert_eq!(CalendarView::DayAlt.as_str(), "DayAlt");
    assert!(CalendarView::from_text("Day ").is_err());
    assert!(HourFormat::from_text("Hour12").is_err());
    assert!(ShiftRepeat::from_text("Never").is_err());
}

#[test]
fn colors_have_names() {
    let colors = [
        (EmployeeColor::Red, "Red"),
        (EmployeeColor::LightRed, "LightRed"),
        (EmployeeColor::Green, "Green"),
        (EmployeeColor::LightGreen, "LightGreen"),
        (EmployeeColor::Blue, "Blue"),
        (EmployeeColor::LightBlue, "LightBlue"),
        (EmployeeColor::Yellow, "Yellow"),
        (EmployeeColor::LightYellow, "LightYellow"),
        (EmployeeColor::Grey, "Grey"),
        (EmployeeColor::LightGrey, "LightGrey"),
        (EmployeeColor::Black, "Black"),
        (EmployeeColor::Brown, "Brown"),
        (EmployeeColor::Purple, "Purple"),
    ];
    for (color, name) in colors {
        assert_eq!(color.as_str(), name);
        assert_eq!(EmployeeColor::from_text(name).ok(), Some(color));
    }
    assert!(EmployeeColor::from_text("Gray").is_err());
    assert!(EmployeeColor::from_text("Light").is_err());
}

#[test]
fn a_json_object_holds_its_contents() {
    assert_eq!(JsonObject::new(Some(3)).contents, Some(3));
    assert_eq!(JsonObject::new(vec![1, 2]).contents, vec![1, 2]);
}

#[test]
fn a_client_sees_key_and_level_of_a_user() {
    let user = User {
        id: 4,
        email: String::from("u@example.com"),
        password_hash: String::from("hash"),
        startup_settings: Some(2),
        level: UserLevel::Supervisor,
    };
    assert_eq!(
        ClientSideUser::from(user.clone()),
        ClientSideUser { id: 4, level: UserLevel::Supervisor }
    );
    assert_eq!(user.clone().email, "u@example.com");
}

#[test]
fn a_client_sees_an_account_without_its_hash() {
    let mut account = employee(3, "e@example.com");
    account.active_config = Some(8);
    account.phone_number = Some(String::from("555"));
    let summary: ClientSideEmployee = account.into();
    assert_eq!(summary.id, 3);
    assert_eq!(summary.email, "e@example.com");
    assert_eq!(summary.active_config, Some(8));
    assert_eq!(summary.level, EmployeeLevel::Read);
    assert_eq!((summary.first.as_str(), summary.last.as_str()), ("F", "L"));
    assert_eq!(summary.phone_number, Some(String::from("555")));
    assert_eq!(summary.default_color, EmployeeColor::Red);
}

#[test]
fn a_new_user_has_a_hash_of_its_password() {
    let info = LoginInfo { email: String::from("u@example.com"), password: String::from("pw") };
    let user = NewUser::new(info, UserLevel::Admin).unwrap();
    assert_eq!(user.email, "u@example.com");
    assert_eq!(user.level, UserLevel::Admin);
    assert_eq!(verify_password("pw", &user.password_hash), Ok(true));
    assert_eq!(verify_password("pW", &user.clone().password_hash), Ok(false));
}

#[test]
fn a_users_session_keeps_its_expiry_field_by_field() {
    let session = NewSession::new(3, (2019, 3, 24, 7, 30)).unwrap();
    assert_eq!(session.user_id, 3);
    assert_eq!(
        (session.year, session.month, session.day, session.hour, session.minute),
        (2019, 3, 24, 7, 30)
    );
    assert_eq!(verify_password("[3,2019,3,24,7,30]", &session.token), Ok(true));
    let stored = sched_core::user::Session {
        id: 1,
        user_id: session.user_id,
        year: session.year,
        month: session.month,
        day: session.day,
        hour: session.hour,
        minute: session.minute,
        token: session.token,
    };
    assert_eq!(stored.expires(), (2019, 3, 24, 7, 30));
}

#[test]
fn token_data_is_written_as_three_integers() {
    let data = TokenData { employee_id: 12, expiration: Timestamp::new(-5, 999_999_999) };
    assert_eq!(data.to_json(), Ok(String::from("[12,-5,999999999]")));
}

#[test]
fn defaults_of_messages_are_empty() {
    let info = LoginInfo::default();
    assert_eq!((info.email.as_str(), info.password.as_str()), ("", ""));
    let change = ChangePasswordInfo::default();
    assert_eq!((change.old_password.as_str(), change.new_password.as_str()), ("", ""));
    let copy = ChangePasswordInfo { old_password: String::from("a"), new_password: String::from("b") }.clone();
    assert_eq!((copy.old_password.as_str(), copy.new_password.as_str()), ("a", "b"));
}

#[test]
fn token_claims_run_for_an_hour() {
    assert_eq!(DEFAULT_TOKEN_VALIDITY, 3600);
    let claims = Token::create("frank", 1_000, String::from("id-1")).unwrap();
    assert_eq!(claims.sub, "frank");
    assert_eq!(claims.iat, 1_000);
    assert_eq!(claims.exp, 4_600);
    assert_eq!(claims.jti, "id-1");
    assert!(Token::create("frank", u64::MAX - 3600, String::new()).is_ok());
    assert_eq!(
        Token::create("frank", u64::MAX - 3599, String::new()).err(),
        Some(TokenError::Create)
    );
}

#[test]
fn a_good_token_is_renewed_for_the_same_subject() {
    let presented = Token::create("frank", 1_000, String::from("id-1")).unwrap();
    let renewed = Token::verify(Some(presented), 2_000, String::from("id-2")).unwrap();
    assert_eq!(renewed.sub, "frank");
    assert_eq!((renewed.iat, renewed.exp), (2_000, 5_600));
    assert_eq!(renewed.jti, "id-2");
    assert_eq!(Token::verify(None, 2_000, String::from("id-3")).err(), Some(TokenError::Verify));
    let presented = Token::create("frank", 1_000, String::from("id-1")).unwrap();
    assert_eq!(
        Token::verify(Some(presented), u64::MAX, String::new()).err(),
        Some(TokenError::Create)
    );
    assert_eq!(TokenError::Create.message(), "unable to create session token");
    assert_eq!(TokenError::Verify.message(), "unable to verify session token");
}

#[test]
fn settings_lose_their_key() {
    let settings = Settings {
        id: 5,
        employee_id: 2,
        name: String::from("Mine"),
        view_type: ViewType::Week,
        hour_format: sched_core::settings::HourFormat::Hour24,
        last_name_style: sched_core::settings::LastNameStyle::FirstInitial,
        view_year: 2019,
        view_month: 3,
        view_day: 24,
        view_employees: vec![1, 2],
        show_minutes: true,
    };
    let new: NewSettings = settings.into();
    assert_eq!(new.employee_id, 2);
    assert_eq!(new.name, "Mine");
    assert_eq!(new.view_type, ViewType::Week);
    assert_eq!(new.hour_format, sched_core::settings::HourFormat::Hour24);
    assert_eq!(new.last_name_style, sched_core::settings::LastNameStyle::FirstInitial);
    assert_eq!((new.view_year, new.view_month, new.view_day), (2019, 3, 24));
    assert_eq!(new.view_employees, vec![1, 2]);
    assert!(new.show_minutes);
    let per = PerEmployeeSettings {
        id: 9,
        settings_id: 5,
        employee_id: 2,
        color: sched_core::settings::EmployeeColor::Brown,
    };
    let new_per: NewPerEmployeeSettings = per.into();
    assert_eq!(
        new_per,
        NewPerEmployeeSettings {
            settings_id: 5,
            employee_id: 2,
            color: sched_core::settings::EmployeeColor::Brown
        }
    );
}

#[test]
fn a_table_is_loaded_with_the_least_next_key() {
    let empty = Table::from_rows(Vec::<Employee>::new()).unwrap();
    assert_eq!((empty.len(), empty.next_key()), (0, 1));
    let table = Table::from_rows(vec![employee(7, "a"), employee(2, "b"), employee(5, "c")]).unwrap();
    assert_eq!(table.next_key(), 8);
    assert_eq!(table.rows().iter().map(|e| e.id).collect::<Vec<i32>>(), vec![7, 2, 5]);
    assert_eq!(table.position(2), Some(1));
    assert_eq!(table.position(3), None);
    assert_eq!(table.row(2).email, "c");
    assert!(table.is_well_formed());
    assert!(table.keys_are_distinct());
    let negative = Table::from_rows(vec![employee(-3, "a"), employee(0, "b")]).unwrap();
    assert_eq!(negative.next_key(), 1);
}

#[test]
fn a_table_with_a_repeated_or_last_key_is_refused() {
    assert!(Table::from_rows(vec![employee(1, "a"), employee(2, "b"), employee(1, "c")]).is_none());
    assert!(Table::from_rows(vec![employee(i32::MAX, "a")]).is_none());
    assert!(Table::from_rows(vec![employee(i32::MAX - 1, "a")]).is_some());
}

#[test]
fn a_store_is_loaded_only_when_well_formed() {
    let db = tables(vec![employee(1, "a"), employee(2, "b")], vec![session(1, "t1"), session(2, "t2")])
        .unwrap();
    assert!(db.is_well_formed());
    assert!(db.tokens_are_distinct());
    assert!(db.emails_are_distinct());
    assert_eq!(db.email_position("b"), Some(1));
    assert_eq!(db.session_position("t1"), Some(0));
    assert_eq!(db.session_position("t3"), None);
    assert_eq!(
        sched_core::db::check_token(&db, "t2", Timestamp::new(8, 999_999_999)).unwrap().email,
        "a"
    );
    assert!(tables(vec![employee(1, "a"), employee(2, "a")], vec![]).is_none());
    assert!(tables(vec![employee(1, "a")], vec![session(1, "t"), session(2, "t")]).is_none());
    assert!(tables(vec![], vec![]).is_some());
    assert!(Database::new().is_well_formed());
}

#[test]
fn lookups_answer_positions() {
    let db = tables(vec![employee(4, "a"), employee(9, "b")], vec![session(3, "t")]).unwrap();
    assert_eq!(db.resolve_position("t", Timestamp::new(0, 0)), Err(Error::AccountNotFound));
    assert_eq!(db.resolve_position("x", Timestamp::new(0, 0)), Err(Error::TokenNotFound));
    assert_eq!(db.authenticate_position("x", Timestamp::new(0, 0)), Err(Error::Unauthorized));
    assert_eq!(db.authenticate("t", Timestamp::new(0, 0)).err(), Some(Error::Unauthorized));
    let db = tables(vec![employee(4, "a"), employee(1, "b")], vec![session(3, "t")]).unwrap();
    assert_eq!(db.resolve_position("t", Timestamp::new(0, 0)), Ok(1));
    assert_eq!(db.authenticate_position("t", Timestamp::new(0, 0)), Ok(1));
    assert_eq!(db.authenticate("t", Timestamp::new(0, 0)).unwrap().email, "b");
    assert_eq!(db.resolve_position("t", Timestamp::new(9, 0)), Err(Error::TokenExpired));
    assert_eq!(db.authenticate_position("t", Timestamp::new(9, 0)), Err(Error::Unauthorized));
}

#[test]
fn a_user_changes_the_password_with_the_old_one() {
    let info = LoginInfo { email: String::from("u@example.com"), password: String::from("pw") };
    let new = NewUser::new(info, UserLevel::Read).unwrap();
    let mut user = User {
        id: 1,
        email: new.email,
        password_hash: new.password_hash,
        startup_settings: None,
        level: new.level,
    };
    assert_eq!(user.check_password("pw"), Ok(true));
    assert_eq!(user.check_password("wrong"), Ok(false));
    let before = user.password_hash.clone();
    assert_eq!(user.change_password("wrong", "better"), Err(Error::InvalidPassword));
    assert_eq!(user.password_hash, before);
    assert_eq!(user.change_password("pw", "better"), Ok(()));
    assert_eq!(user.check_password("better"), Ok(true));
    assert_eq!(user.check_password("pw"), Ok(false));
    user.password_hash = String::from("damaged");
    assert_eq!(user.check_password("better"), Err(Error::Infrastructure(Fault::MalformedHash)));
    assert_eq!(
        user.change_password("better", "x"),
        Err(Error::Infrastructure(Fault::MalformedHash))
    );
    assert_eq!(user.password_hash, "damaged");
}
