//! Settings: the view preferences as the service first kept them.

use vstd::prelude::*;
use vstd::std_specs::convert::FromSpecImpl;

verus! {

#[derive(Clone, Copy, Debug, PartialEq, Eq, Structural)]
pub enum HourFormat {
    Hour12,
    Hour24,
}

#[derive(Clone, Copy, Debug, PartialEq, Eq, Structural)]
pub enum LastNameStyle {
    FullName,
    FirstInitial,
    Hidden,
}

#[derive(Clone, Copy, Debug, PartialEq, Eq, Structural)]
pub enum ViewType {
    Month,
    Week,
    Day,
}

#[derive(Clone, Copy, Debug, PartialEq, Eq, Structural)]
pub enum EmployeeColor {
    Red,
    LightRed,
    Green,
    LightGreen,
    Blue,
    LightBlue,
    Yellow,
    LightYellow,
    Grey,
    LightGrey,
    Black,
    Brown,
}

/// A settings row. `employee_id` is the account that owns it.
#[derive(Debug)]
pub struct Settings {
    pub id: i32,
    pub employee_id: i32,
    pub name: String,
    pub view_type: ViewType,
    pub hour_format: HourFormat,
    pub last_name_style: LastNameStyle,
    pub view_year: i32,
    pub view_month: i32,
    pub view_day: i32,
    pub view_employees: Vec<i32>,
    pub show_minutes: bool,
}

/// Settings that have no key yet.
#[derive(Debug)]
pub struct NewSettings {
    pub employee_id: i32,
    pub name: String,
    pub view_type: ViewType,
    pub hour_format: HourFormat,
    pub last_name_style: LastNameStyle,
    pub view_year: i32,
    pub view_month: i32,
    pub view_day: i32,
    pub view_employees: Vec<i32>,
    pub show_minutes: bool,
}

impl From<Settings> for NewSettings {
    fn from(settings: Settings) -> (new: Self) {
        NewSettings {
            employee_id: settings.employee_id,
            name: settings.name,
            view_type: settings.view_type,
            hour_format: settings.hour_format,
            last_name_style: settings.last_name_style,
            view_year: settings.view_year,
            view_month: settings.view_month,
            view_day: settings.view_day,
            view_employees: settings.view_employees,
            show_minutes: settings.show_minutes,
        }
    }
}

impl FromSpecImpl<Settings> for NewSettings {
    open spec fn obeys_from_spec() -> bool {
        true
    }

    open spec fn from_spec(settings: Settings) -> Self {
        NewSettings {
            employee_id: settings.employee_id,
            name: settings.name,
            view_type: settings.view_type,
            hour_format: settings.hour_format,
            last_name_style: settings.last_name_style,
            view_year: settings.view_year,
            view_month: settings.view_month,
            view_day: settings.view_day,
            view_employees: settings.view_employees,
            show_minutes: settings.show_minutes,
        }
    }
}

/// The color that settings show one employee in.
#[derive(Clone, Copy, Debug, PartialEq, Eq)]
pub struct PerEmployeeSettings {
    pub id: i32,
    pub settings_id: i32,
    pub employee_id: i32,
    pub color: EmployeeColor,
}

/// A per-employee color that has no key yet.
#[derive(Clone, Copy, Debug, PartialEq, Eq)]
pub struct NewPerEmployeeSettings {
    pub settings_id: i32,
    pub employee_id: i32,
    pub color: EmployeeColor,
}

impl From<PerEmployeeSettings> for NewPerEmployeeSettings {
    fn from(per_employee: PerEmployeeSettings) -> (new: Self) {
        NewPerEmployeeSettings {
            settings_id: per_employee.settings_id,
            employee_id: per_employee.employee_id,
            color: per_employee.color,
        }
    }
}

impl FromSpecImpl<PerEmployeeSettings> for NewPerEmployeeSettings {
    open spec fn obeys_from_spec() -> bool {
        true
    }

    open spec fn from_spec(per_employee: PerEmployeeSettings) -> Self {
        NewPerEmployeeSettings {
            settings_id: per_employee.settings_id,
            employee_id: per_employee.employee_id,
            color: per_employee.color,
        }
    }
}

/// Settings together with their per-employee colors.
#[derive(Debug)]
pub struct CombinedSettings {
    pub settings: Settings,
    pub per_employee: Vec<PerEmployeeSettings>,
}

} // verus!
