//! What a client's sign-in form keeps track of: whether an email looks
//! like one, and when the form can be sent.

use crate::message::LoginInfo;
use crate::table::{first_true, is_first_true};
use vstd::prelude::*;

verus! {

/// How an input of the form is shown.
#[derive(Clone, Copy, Debug, PartialEq, Eq, Structural)]
pub enum InputState {
    Normal,
    Success,
    Danger,
    Disabled,
}

impl Default for InputState {
    fn default() -> (state: Self)
        ensures
            state == InputState::Normal,
    {
        InputState::Normal
    }
}

/// How often `c` occurs in `s`.
pub open spec fn occurrences(s: Seq<char>, c: char) -> nat
    decreases s.len(),
{
    if s.len() == 0 {
        0
    } else {
        occurrences(s.drop_last(), c) + if s.last() == c {
            1nat
        } else {
            0nat
        }
    }
}

/// For each character of `s`, whether it is `c`.
pub open spec fn char_mask(s: Seq<char>, c: char) -> Seq<bool> {
    Seq::new(s.len(), |i: int| s[i] == c)
}

/// The position of the first `c` in `s`.
pub open spec fn index_of_char(s: Seq<char>, c: char) -> Option<int> {
    first_true(char_mask(s, c))
}

/// How an email input is shown. Nothing typed: `Normal`. Exactly one `@`
/// with text on both sides, and in the text after it exactly one `.` that
/// is not its last character: `Success`. Anything else: `Danger`.
pub open spec fn email_state(email: Seq<char>) -> InputState {
    if email.len() == 0 {
        InputState::Normal
    } else if occurrences(email, '@') != 1 {
        InputState::Danger
    } else {
        let at = index_of_char(email, '@').unwrap();
        let domain = email.skip(at + 1);
        if at == 0 || domain.len() == 0 {
            InputState::Danger
        } else if occurrences(domain, '.') != 1 {
            InputState::Danger
        } else {
            let dot = index_of_char(domain, '.').unwrap();
            if dot + 1 < domain.len() {
                InputState::Success
            } else {
                InputState::Danger
            }
        }
    }
}

/// One more character adds one to the occurrences where it is the wanted
/// one, and nothing where it is not.
proof fn lemma_occurrences_step(s: Seq<char>, c: char, i: int)
    requires
        0 <= i < s.len(),
    ensures
        occurrences(s.take(i + 1), c) == occurrences(s.take(i), c) + if s[i] == c {
            1nat
        } else {
            0nat
        },
        occurrences(s.take(0), c) == 0,
{
    assert(s.take(i + 1).drop_last() =~= s.take(i));
}

/// How often `wanted` occurs in `text` from the position `from` on, and
/// where it occurs first, counted from `from`.
fn scan(text: &str, from: usize, wanted: char) -> (found: (usize, Option<usize>))
    requires
        from <= text@.len(),
    ensures
        found.0 == occurrences(text@.skip(from as int), wanted),
        (found.0 == 0) == (found.1 is None),
        match found.1 {
            Some(p) => index_of_char(text@.skip(from as int), wanted) == Some(p as int) && from
                + p < text@.len(),
            None => index_of_char(text@.skip(from as int), wanted) is None,
        },
{
    let ghost tail = text@.skip(from as int);
    let ghost mask = char_mask(tail, wanted);
    let len = text.unicode_len();
    let mut count: usize = 0;
    let mut first: Option<usize> = None;
    let mut i: usize = from;
    while i < len
        invariant
            from <= i <= len,
            len == text@.len(),
            tail == text@.skip(from as int),
            mask == char_mask(tail, wanted),
            count == occurrences(tail.take(i - from), wanted),
            count <= i - from,
            (count == 0) == (first is None),
            match first {
                Some(p) => from + p < i && is_first_true(mask, p as int),
                None => forall|j: int| 0 <= j < i - from ==> !#[trigger] mask[j],
            },
        decreases len - i,
    {
        proof {
            lemma_occurrences_step(tail, wanted, i - from);
        }
        if text.get_char(i) == wanted {
            count += 1;
            if first.is_none() {
                first = Some(i - from);
            }
        }
        i += 1;
    }
    proof {
        assert(tail.take(tail.len() as int) =~= tail);
    }
    (count, first)
}

/// How an email input is shown: see `email_state`.
pub fn validate_email(email: &str) -> (state: InputState)
    ensures
        state == email_state(email@),
{
    let len = email.unicode_len();
    if len == 0 {
        return InputState::Normal;
    }
    assert(email@.skip(0) =~= email@);
    let (ats, first_at) = scan(email, 0, '@');
    if ats != 1 {
        return InputState::Danger;
    }
    let at = match first_at {
        Some(at) => at,
        None => {
            return InputState::Danger;
        },
    };
    if at == 0 || at + 1 == len {
        return InputState::Danger;
    }
    let (dots, first_dot) = scan(email, at + 1, '.');
    if dots != 1 {
        return InputState::Danger;
    }
    match first_dot {
        Some(dot) => if dot + 1 < len - at - 1 {
            InputState::Success
        } else {
            InputState::Danger
        },
        None => InputState::Danger,
    }
}

/// How a password input is shown: `Success` once anything is typed.
pub open spec fn password_state(password: Seq<char>) -> InputState {
    if password.len() > 0 {
        InputState::Success
    } else {
        InputState::Normal
    }
}

/// The sign-in form: what is typed, and how its inputs and its button are
/// shown.
#[derive(Debug)]
pub struct LoginPage {
    pub login_info: LoginInfo,
    pub email_state: InputState,
    pub password_state: InputState,
    pub button_state: InputState,
}

impl Default for LoginPage {
    fn default() -> (page: Self)
        ensures
            page.login_info.email@.len() == 0,
            page.login_info.password@.len() == 0,
            page.email_state == InputState::Normal,
            page.password_state == InputState::Normal,
            page.button_state == InputState::Disabled,
    {
        LoginPage {
            login_info: LoginInfo::default(),
            email_state: InputState::Normal,
            password_state: InputState::Normal,
            button_state: InputState::Disabled,
        }
    }
}

impl LoginPage {
    /// How the button is shown after a change: ready once both inputs are
    /// good, and otherwise as before.
    pub open spec fn button_after(self) -> InputState {
        if self.email_state == InputState::Success && self.password_state == InputState::Success {
            InputState::Success
        } else {
            self.button_state
        }
    }

    /// Takes a newly typed email.
    pub fn update_email(&mut self, email: String)
        ensures
            final(self).login_info.email == email,
            final(self).login_info.password == old(self).login_info.password,
            final(self).email_state == email_state(email@),
            final(self).password_state == old(self).password_state,
            final(self).button_state == (LoginPage {
                email_state: email_state(email@),
                ..*old(self)
            }).button_after(),
    {
        self.email_state = validate_email(email.as_str());
        self.login_info.email = email;
        update_login_button(self);
    }

    /// Takes a newly typed password.
    pub fn update_password(&mut self, password: String)
        ensures
            final(self).login_info.password == password,
            final(self).login_info.email == old(self).login_info.email,
            final(self).password_state == password_state(password@),
            final(self).email_state == old(self).email_state,
            final(self).button_state == (LoginPage {
                password_state: password_state(password@),
                ..*old(self)
            }).button_after(),
    {
        self.password_state = if password.as_str().unicode_len() > 0 {
            InputState::Success
        } else {
            InputState::Normal
        };
        self.login_info.password = password;
        update_login_button(self);
    }

    /// Sends the form: both inputs and the button are switched off.
    pub fn submit(&mut self)
        ensures
            final(self).login_info == old(self).login_info,
            final(self).email_state == InputState::Disabled,
            final(self).password_state == InputState::Disabled,
            final(self).button_state == InputState::Disabled,
    {
        self.button_state = InputState::Disabled;
        self.email_state = InputState::Disabled;
        self.password_state = InputState::Disabled;
    }
}

/// Makes the button ready once both inputs are good.
pub fn update_login_button(page: &mut LoginPage)
    ensures
        final(page).login_info == old(page).login_info,
        final(page).email_state == old(page).email_state,
        final(page).password_state == old(page).password_state,
        final(page).button_state == old(page).button_after(),
{
    if page.email_state == InputState::Success && page.password_state == InputState::Success {
        page.button_state = InputState::Success;
    }
}

/// What happens on a bare sign-in form.
#[derive(Debug)]
pub enum Message {
    UpdateEmail(String),
    UpdatePassword(String),
    Submit,
}

/// A bare sign-in form: what is typed, and whether the inputs are
/// switched off.
#[derive(Debug)]
pub struct LoginComponent {
    pub email: String,
    pub password: String,
    pub inputs_disabled: bool,
}

impl LoginComponent {
    /// An empty form.
    pub fn create() -> (form: Self)
        ensures
            form.email@.len() == 0,
            form.password@.len() == 0,
            !form.inputs_disabled,
    {
        LoginComponent { email: String::new(), password: String::new(), inputs_disabled: false }
    }

    /// The form after `msg`.
    pub open spec fn after(self, msg: Message) -> LoginComponent {
        match msg {
            Message::UpdateEmail(email) => LoginComponent { email, ..self },
            Message::UpdatePassword(password) => LoginComponent { password, ..self },
            Message::Submit => LoginComponent { inputs_disabled: true, ..self },
        }
    }

    /// Takes `msg` and says whether the form has to be drawn again: only
    /// sending switches the inputs off and asks for that.
    pub fn update(&mut self, msg: Message) -> (redraw: bool)
        ensures
            *final(self) == old(self).after(msg),
            redraw == (msg is Submit),
    {
        match msg {
            Message::UpdateEmail(email) => {
                self.email = email;
                false
            },
            Message::UpdatePassword(password) => {
                self.password = password;
                false
            },
            Message::Submit => {
                self.inputs_disabled = true;
                true
            },
        }
    }
}

/// The pages of a client.
#[derive(Clone, Copy, Debug, PartialEq, Eq, Structural)]
pub enum RootPage {
    Login,
    Settings,
    Calendar,
}

/// The page that a client shows.
#[derive(Clone, Copy, Debug, PartialEq, Eq, Structural)]
pub struct RootComponent {
    pub root_page: RootPage,
}

impl Default for RootComponent {
    fn default() -> (root: Self)
        ensures
            root.root_page == RootPage::Login,
    {
        Self { root_page: RootPage::Login }
    }
}

/// How wide the client's window is, by class.
#[derive(Clone, Copy, Debug, PartialEq, Eq, Structural)]
pub enum DeviceClass {
    Mobile,
    HalfDesktop,
    Desktop,
}

impl Default for DeviceClass {
    fn default() -> (class: Self)
        ensures
            class == DeviceClass::Mobile,
    {
        DeviceClass::Mobile
    }
}

impl DeviceClass {
    /// What the class prints as.
    pub open spec fn text(self) -> Seq<char> {
        match self {
            DeviceClass::Desktop => "Device class: Desktop"@,
            DeviceClass::HalfDesktop => "Device class: Half desktop"@,
            DeviceClass::Mobile => "Device class: Mobile"@,
        }
    }

    /// What the class prints as.
    pub fn message(&self) -> (text: String)
        ensures
            text@ == self.text(),
    {
        match self {
            DeviceClass::Desktop => "Device class: Desktop".to_owned(),
            DeviceClass::HalfDesktop => "Device class: Half desktop".to_owned(),
            DeviceClass::Mobile => "Device class: Mobile".to_owned(),
        }
    }
}

/// The class of a window that is `width` wide: up to 600 mobile, up to
/// 1000 half a desktop, and a desktop beyond that and below zero.
pub fn classify_device(width: i32) -> (class: DeviceClass)
    ensures
        class == if 0 <= width <= 600 {
            DeviceClass::Mobile
        } else if 601 <= width <= 1000 {
            DeviceClass::HalfDesktop
        } else {
            DeviceClass::Desktop
        },
{
    if 0 <= width && width <= 600 {
        DeviceClass::Mobile
    } else if 601 <= width && width <= 1000 {
        DeviceClass::HalfDesktop
    } else {
        DeviceClass::Desktop
    }
}

} // verus!
