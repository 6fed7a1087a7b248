//! Configurations: the named bundles of view preferences that accounts own.

use crate::datetime::Timestamp;
use crate::enum_helper::{make_string_error, same_text, StringError};
use crate::table::Record;
use vstd::prelude::*;

verus! {

#[derive(Clone, Copy, Debug, PartialEq, Eq, Structural)]
pub enum HourFormat {
    H12,
    H24,
}

#[derive(Clone, Copy, Debug, PartialEq, Eq, Structural)]
pub enum LastNameStyle {
    Full,
    Initial,
    Hidden,
}

#[derive(Clone, Copy, Debug, PartialEq, Eq, Structural)]
pub enum CalendarView {
    Month,
    Week,
    Day,
    DayAlt,
}

#[derive(Clone, Copy, Debug, PartialEq, Eq, Structural)]
pub enum EmployeeColor {
    Red,
    LightRed,
    Green,
    LightGreen,
    Blue,
    LightBlue,
    Yellow,
    LightYellow,
    Grey,
    LightGrey,
    Black,
    Brown,
    Purple,
}

impl HourFormat {
    /// The name of the hour format.
    pub open spec fn text(self) -> Seq<char> {
        match self {
            HourFormat::H12 => "H12"@,
            HourFormat::H24 => "H24"@,
        }
    }

    /// The hour format that `text` names, if it names one.
    pub open spec fn parse(text: Seq<char>) -> Option<HourFormat> {
        if text == "H12"@ {
            Some(HourFormat::H12)
        } else if text == "H24"@ {
            Some(HourFormat::H24)
        } else {
            None
        }
    }

    /// The name of the hour format.
    pub fn as_str(&self) -> (text: &'static str)
        ensures
            text@ == self.text(),
    {
        match self {
            HourFormat::H12 => "H12",
            HourFormat::H24 => "H24",
        }
    }

    /// The hour format that `text` names. A text that names none is refused
    /// with the message `VariantNotFound`.
    pub fn from_text(text: &str) -> (value: Result<HourFormat, StringError>)
        ensures
            match value {
                Ok(v) => Self::parse(text@) == Some(v),
                Err(e) => Self::parse(text@) is None && e.0@ == "VariantNotFound"@,
            },
    {
        if same_text(text, "H12") {
            Ok(HourFormat::H12)
        } else if same_text(text, "H24") {
            Ok(HourFormat::H24)
        } else {
            Err(make_string_error("VariantNotFound"))
        }
    }

    /// Every hour format is found again under its name.
    pub proof fn lemma_text_parses(self)
        ensures
            Self::parse(self.text()) == Some(self),
    {
        reveal_strlit("H12");
        reveal_strlit("H24");
        assert("H24"@[1] != "H12"@[1]);
    }
}

impl LastNameStyle {
    /// The name of the style.
    pub open spec fn text(self) -> Seq<char> {
        match self {
            LastNameStyle::Full => "Full"@,
            LastNameStyle::Initial => "Initial"@,
            LastNameStyle::Hidden => "Hidden"@,
        }
    }

    /// The style that `text` names, if it names one.
    pub open spec fn parse(text: Seq<char>) -> Option<LastNameStyle> {
        if text == "Full"@ {
            Some(LastNameStyle::Full)
        } else if text == "Initial"@ {
            Some(LastNameStyle::Initial)
        } else if text == "Hidden"@ {
            Some(LastNameStyle::Hidden)
        } else {
            None
        }
    }

    /// The name of the style.
    pub fn as_str(&self) -> (text: &'static str)
        ensures
            text@ == self.text(),
    {
        match self {
            LastNameStyle::Full => "Full",
            LastNameStyle::Initial => "Initial",
            LastNameStyle::Hidden => "Hidden",
        }
    }

    /// The style that `text` names. A text that names none is refused
    /// with the message `VariantNotFound`.
    pub fn from_text(text: &str) -> (value: Result<LastNameStyle, StringError>)
        ensures
            match value {
                Ok(v) => Self::parse(text@) == Some(v),
                Err(e) => Self::parse(text@) is None && e.0@ == "VariantNotFound"@,
            },
    {
        if same_text(text, "Full") {
            Ok(LastNameStyle::Full)
        } else if same_text(text, "Initial") {
            Ok(LastNameStyle::Initial)
        } else if same_text(text, "Hidden") {
            Ok(LastNameStyle::Hidden)
        } else {
            Err(make_string_error("VariantNotFound"))
        }
    }

    /// Every style is found again under its name.
    pub proof fn lemma_text_parses(self)
        ensures
            Self::parse(self.text()) == Some(self),
    {
        reveal_strlit("Full");
        reveal_strlit("Initial");
        reveal_strlit("Hidden");
        assert("Initial"@.len() != "Full"@.len());
    }
}

impl CalendarView {
    /// The name of the view.
    pub open spec fn text(self) -> Seq<char> {
        match self {
            CalendarView::Month => "Month"@,
            CalendarView::Week => "Week"@,
            CalendarView::Day => "Day"@,
            CalendarView::DayAlt => "DayAlt"@,
        }
    }

    /// The view that `text` names, if it names one.
    pub open spec fn parse(text: Seq<char>) -> Option<CalendarView> {
        if text == "Month"@ {
            Some(CalendarView::Month)
        } else if text == "Week"@ {
            Some(CalendarView::Week)
        } else if text == "Day"@ {
            Some(CalendarView::Day)
        } else if text == "DayAlt"@ {
            Some(CalendarView::DayAlt)
        } else {
            None
        }
    }

    /// The name of the view.
    pub fn as_str(&self) -> (text: &'static str)
        ensures
            text@ == self.text(),
    {
        match self {
            CalendarView::Month => "Month",
            CalendarView::Week => "Week",
            CalendarView::Day => "Day",
            CalendarView::DayAlt => "DayAlt",
        }
    }

    /// The view that `text` names. A text that names none is refused
    /// with the message `VariantNotFound`.
    pub fn from_text(text: &str) -> (value: Result<CalendarView, StringError>)
        ensures
            match value {
                Ok(v) => Self::parse(text@) == Some(v),
                Err(e) => Self::parse(text@) is None && e.0@ == "VariantNotFound"@,
            },
    {
        if same_text(text, "Month") {
            Ok(CalendarView::Month)
        } else if same_text(text, "Week") {
            Ok(CalendarView::Week)
        } else if same_text(text, "Day") {
            Ok(CalendarView::Day)
        } else if same_text(text, "DayAlt") {
            Ok(CalendarView::DayAlt)
        } else {
            Err(make_string_error("VariantNotFound"))
        }
    }

    /// Every view is found again under its name.
    pub proof fn lemma_text_parses(self)
        ensures
            Self::parse(self.text()) == Some(self),
    {
        reveal_strlit("Month");
        reveal_strlit("Week");
        reveal_strlit("Day");
        reveal_strlit("DayAlt");
        assert("Week"@.len() != "Month"@.len());
        assert("Day"@.len() != "Month"@.len());
    }
}

impl EmployeeColor {
    /// The name of the color.
    pub open spec fn text(self) -> Seq<char> {
        match self {
            EmployeeColor::Red => "Red"@,
            EmployeeColor::LightRed => "LightRed"@,
            EmployeeColor::Green => "Green"@,
            EmployeeColor::LightGreen => "LightGreen"@,
            EmployeeColor::Blue => "Blue"@,
            EmployeeColor::LightBlue => "LightBlue"@,
            EmployeeColor::Yellow => "Yellow"@,
            EmployeeColor::LightYellow => "LightYellow"@,
            EmployeeColor::Grey => "Grey"@,
            EmployeeColor::LightGrey => "LightGrey"@,
            EmployeeColor::Black => "Black"@,
            EmployeeColor::Brown => "Brown"@,
            EmployeeColor::Purple => "Purple"@,
        }
    }

    /// The color that `text` names, if it names one.
    pub open spec fn parse(text: Seq<char>) -> Option<EmployeeColor> {
        if text == "Red"@ {
            Some(EmployeeColor::Red)
        } else if text == "LightRed"@ {
            Some(EmployeeColor::LightRed)
        } else if text == "Green"@ {
            Some(EmployeeColor::Green)
        } else if text == "LightGreen"@ {
            Some(EmployeeColor::LightGreen)
        } else if text == "Blue"@ {
            Some(EmployeeColor::Blue)
        } else if text == "LightBlue"@ {
            Some(EmployeeColor::LightBlue)
        } else if text == "Yellow"@ {
            Some(EmployeeColor::Yellow)
        } else if text == "LightYellow"@ {
            Some(EmployeeColor::LightYellow)
        } else if text == "Grey"@ {
            Some(EmployeeColor::Grey)
        } else if text == "LightGrey"@ {
            Some(EmployeeColor::LightGrey)
        } else if text == "Black"@ {
            Some(EmployeeColor::Black)
        } else if text == "Brown"@ {
            Some(EmployeeColor::Brown)
        } else if text == "Purple"@ {
            Some(EmployeeColor::Purple)
        } else {
            None
        }
    }

    /// The name of the color.
    pub fn as_str(&self) -> (text: &'static str)
        ensures
            text@ == self.text(),
    {
        match self {
            EmployeeColor::Red => "Red",
            EmployeeColor::LightRed => "LightRed",
            EmployeeColor::Green => "Green",
            EmployeeColor::LightGreen => "LightGreen",
            EmployeeColor::Blue => "Blue",
            EmployeeColor::LightBlue => "LightBlue",
            EmployeeColor::Yellow => "Yellow",
            EmployeeColor::LightYellow => "LightYellow",
            EmployeeColor::Grey => "Grey",
            EmployeeColor::LightGrey => "LightGrey",
            EmployeeColor::Black => "Black",
            EmployeeColor::Brown => "Brown",
            EmployeeColor::Purple => "Purple",
        }
    }

    /// The color that `text` names. A text that names none is refused
    /// with the message `VariantNotFound`.
    pub fn from_text(text: &str) -> (value: Result<EmployeeColor, StringError>)
        ensures
            match value {
                Ok(v) => Self::parse(text@) == Some(v),
                Err(e) => Self::parse(text@) is None && e.0@ == "VariantNotFound"@,
            },
    {
        if same_text(text, "Red") {
            Ok(EmployeeColor::Red)
        } else if same_text(text, "LightRed") {
            Ok(EmployeeColor::LightRed)
        } else if same_text(text, "Green") {
            Ok(EmployeeColor::Green)
        } else if same_text(text, "LightGreen") {
            Ok(EmployeeColor::LightGreen)
        } else if same_text(text, "Blue") {
            Ok(EmployeeColor::Blue)
        } else if same_text(text, "LightBlue") {
            Ok(EmployeeColor::LightBlue)
        } else if same_text(text, "Yellow") {
            Ok(EmployeeColor::Yellow)
        } else if same_text(text, "LightYellow") {
            Ok(EmployeeColor::LightYellow)
        } else if same_text(text, "Grey") {
            Ok(EmployeeColor::Grey)
        } else if same_text(text, "LightGrey") {
            Ok(EmployeeColor::LightGrey)
        } else if same_text(text, "Black") {
            Ok(EmployeeColor::Black)
        } else if same_text(text, "Brown") {
            Ok(EmployeeColor::Brown)
        } else if same_text(text, "Purple") {
            Ok(EmployeeColor::Purple)
        } else {
            Err(make_string_error("VariantNotFound"))
        }
    }

    /// Every color is found again under its name.
    pub proof fn lemma_text_parses(self)
        ensures
            Self::parse(self.text()) == Some(self),
    {
        reveal_strlit("Red");
        reveal_strlit("LightRed");
        reveal_strlit("Green");
        reveal_strlit("LightGreen");
        reveal_strlit("Blue");
        reveal_strlit("LightBlue");
        reveal_strlit("Yellow");
        reveal_strlit("LightYellow");
        reveal_strlit("Grey");
        reveal_strlit("LightGrey");
        reveal_strlit("Black");
        reveal_strlit("Brown");
        reveal_strlit("Purple");
        assert("LightRed"@.len() != "Red"@.len());
        assert("Green"@.len() != "Red"@.len());
        assert("LightGreen"@.len() != "Red"@.len());
        assert("Blue"@.len() != "Red"@.len());
        assert("Grey"@[0] != "Blue"@[0]);
        assert("LightGrey"@[5] != "LightBlue"@[5]);
        assert("Black"@[0] != "Green"@[0]);
        assert("Brown"@[1] != "Black"@[1]);
        assert("Purple"@[0] != "Yellow"@[0]);
    }
}

/// A configuration row. `employee_id` is the account that owns it.
#[derive(Debug)]
pub struct Config {
    pub id: i32,
    pub employee_id: i32,
    pub config_name: String,
    pub hour_format: HourFormat,
    pub last_name_style: LastNameStyle,
    pub view_date: Timestamp,
    pub view_employees: Vec<i32>,
    pub show_minutes: bool,
    pub show_shifts: bool,
    pub show_vacations: bool,
    pub show_call_shifts: bool,
    pub show_disabled: bool,
}

/// A configuration that has no key yet.
#[derive(Debug)]
pub struct NewConfig {
    pub employee_id: i32,
    pub config_name: String,
    pub hour_format: HourFormat,
    pub last_name_style: LastNameStyle,
    pub view_date: Timestamp,
    pub view_employees: Vec<i32>,
    pub show_minutes: bool,
    pub show_shifts: bool,
    pub show_vacations: bool,
    pub show_call_shifts: bool,
    pub show_disabled: bool,
}

/// The color that a configuration shows one employee in.
#[derive(Clone, Copy, Debug, PartialEq, Eq)]
pub struct PerEmployeeConfig {
    pub id: i32,
    pub config_id: i32,
    pub employee_id: i32,
    pub color: EmployeeColor,
}

/// A per-employee color that has no key yet.
#[derive(Clone, Copy, Debug, PartialEq, Eq)]
pub struct NewPerEmployeeConfig {
    pub config_id: i32,
    pub employee_id: i32,
    pub color: EmployeeColor,
}

/// A configuration together with its per-employee colors.
#[derive(Debug)]
pub struct CombinedConfig {
    pub config: Config,
    pub per_employee: Vec<PerEmployeeConfig>,
}

impl Config {
    /// Whether `self` and `other` agree in every field, the list of viewed
    /// employees taken as a sequence.
    pub open spec fn same_as(self, other: Config) -> bool {
        &&& self.id == other.id
        &&& self.employee_id == other.employee_id
        &&& self.config_name == other.config_name
        &&& self.hour_format == other.hour_format
        &&& self.last_name_style == other.last_name_style
        &&& self.view_date == other.view_date
        &&& self.view_employees@ == other.view_employees@
        &&& self.show_minutes == other.show_minutes
        &&& self.show_shifts == other.show_shifts
        &&& self.show_vacations == other.show_vacations
        &&& self.show_call_shifts == other.show_call_shifts
        &&& self.show_disabled == other.show_disabled
    }

    /// The row that `new` becomes under the key `id`.
    pub open spec fn keyed_spec(id: i32, new: NewConfig) -> Config {
        Config {
            id,
            employee_id: new.employee_id,
            config_name: new.config_name,
            hour_format: new.hour_format,
            last_name_style: new.last_name_style,
            view_date: new.view_date,
            view_employees: new.view_employees,
            show_minutes: new.show_minutes,
            show_shifts: new.show_shifts,
            show_vacations: new.show_vacations,
            show_call_shifts: new.show_call_shifts,
            show_disabled: new.show_disabled,
        }
    }

    /// The row that `new` becomes under the key `id`.
    pub fn keyed(id: i32, new: NewConfig) -> (row: Config)
        ensures
            row == Self::keyed_spec(id, new),
    {
        Config {
            id,
            employee_id: new.employee_id,
            config_name: new.config_name,
            hour_format: new.hour_format,
            last_name_style: new.last_name_style,
            view_date: new.view_date,
            view_employees: new.view_employees,
            show_minutes: new.show_minutes,
            show_shifts: new.show_shifts,
            show_vacations: new.show_vacations,
            show_call_shifts: new.show_call_shifts,
            show_disabled: new.show_disabled,
        }
    }
}

impl Clone for Config {
    fn clone(&self) -> (copy: Self)
        ensures
            copy.same_as(*self),
    {
        Config {
            id: self.id,
            employee_id: self.employee_id,
            config_name: self.config_name.clone(),
            hour_format: self.hour_format,
            last_name_style: self.last_name_style,
            view_date: self.view_date,
            view_employees: self.view_employees.clone(),
            show_minutes: self.show_minutes,
            show_shifts: self.show_shifts,
            show_vacations: self.show_vacations,
            show_call_shifts: self.show_call_shifts,
            show_disabled: self.show_disabled,
        }
    }
}

impl Clone for NewConfig {
    fn clone(&self) -> (copy: Self)
        ensures
            Config::keyed_spec(0, copy).same_as(Config::keyed_spec(0, *self)),
    {
        NewConfig {
            employee_id: self.employee_id,
            config_name: self.config_name.clone(),
            hour_format: self.hour_format,
            last_name_style: self.last_name_style,
            view_date: self.view_date,
            view_employees: self.view_employees.clone(),
            show_minutes: self.show_minutes,
            show_shifts: self.show_shifts,
            show_vacations: self.show_vacations,
            show_call_shifts: self.show_call_shifts,
            show_disabled: self.show_disabled,
        }
    }
}

impl Clone for CombinedConfig {
    fn clone(&self) -> (copy: Self)
        ensures
            copy.config.same_as(self.config),
            copy.per_employee@ == self.per_employee@,
    {
        CombinedConfig { config: self.config.clone(), per_employee: self.per_employee.clone() }
    }
}

impl NewConfig {
    /// The same configuration for the owner `employee_id`.
    pub open spec fn owned_by_spec(self, employee_id: i32) -> NewConfig {
        NewConfig { employee_id, ..self }
    }

    /// The same configuration for the owner `employee_id`.
    pub fn owned_by(self, employee_id: i32) -> (new: NewConfig)
        ensures
            new == self.owned_by_spec(employee_id),
    {
        NewConfig { employee_id, ..self }
    }

    /// What `config` holds, without its key.
    pub open spec fn of_spec(config: Config) -> NewConfig {
        NewConfig {
            employee_id: config.employee_id,
            config_name: config.config_name,
            hour_format: config.hour_format,
            last_name_style: config.last_name_style,
            view_date: config.view_date,
            view_employees: config.view_employees,
            show_minutes: config.show_minutes,
            show_shifts: config.show_shifts,
            show_vacations: config.show_vacations,
            show_call_shifts: config.show_call_shifts,
            show_disabled: config.show_disabled,
        }
    }

    /// What `config` holds, without its key.
    pub fn of(config: Config) -> (new: NewConfig)
        ensures
            new == Self::of_spec(config),
    {
        NewConfig {
            employee_id: config.employee_id,
            config_name: config.config_name,
            hour_format: config.hour_format,
            last_name_style: config.last_name_style,
            view_date: config.view_date,
            view_employees: config.view_employees,
            show_minutes: config.show_minutes,
            show_shifts: config.show_shifts,
            show_vacations: config.show_vacations,
            show_call_shifts: config.show_call_shifts,
            show_disabled: config.show_disabled,
        }
    }
}

impl PerEmployeeConfig {
    /// The row that `new` becomes under the key `id`.
    pub open spec fn keyed_spec(id: i32, new: NewPerEmployeeConfig) -> PerEmployeeConfig {
        PerEmployeeConfig {
            id,
            config_id: new.config_id,
            employee_id: new.employee_id,
            color: new.color,
        }
    }

    /// The row that `new` becomes under the key `id`.
    pub fn keyed(id: i32, new: NewPerEmployeeConfig) -> (row: PerEmployeeConfig)
        ensures
            row == Self::keyed_spec(id, new),
    {
        PerEmployeeConfig {
            id,
            config_id: new.config_id,
            employee_id: new.employee_id,
            color: new.color,
        }
    }
}

impl Record for Config {
    open spec fn key(&self) -> i32 {
        self.id
    }

    fn id(&self) -> (id: i32) {
        self.id
    }
}

impl Record for PerEmployeeConfig {
    open spec fn key(&self) -> i32 {
        self.id
    }

    fn id(&self) -> (id: i32) {
        self.id
    }
}

} // verus!
