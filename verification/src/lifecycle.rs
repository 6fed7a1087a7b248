//! The active configuration of an account.
//!
//! An account is created together with a first configuration, and its
//! pointer to the active configuration is set to it in the same step.
//! Removing the active configuration re-points the owner to one that is
//! left; removing another leaves the pointer alone; and an account's only
//! configuration is never removed.

use crate::auth::{ids_match, locate, match_ids, target};
use crate::config::{CombinedConfig, Config, NewConfig, NewPerEmployeeConfig, PerEmployeeConfig};
use crate::datetime::Timestamp;
use crate::db::JsonObject;
use crate::employee::{Employee, EmployeeLevel, NewEmployee};
use crate::error::{Error, Fault};
use crate::store::{email_mask, index_of_email, Database, DatabaseView};
use crate::table::{
    first_true, index_of_key, is_first_true, key_mask, lemma_appended, lemma_filter_step,
    lemma_first_true, lemma_first_true_found, lemma_key_finds, Table, TableView,
};
use vstd::prelude::*;

verus! {

/// For each configuration of `rows`, whether `account` owns it.
pub open spec fn owner_mask(rows: Seq<Config>, account: i32) -> Seq<bool> {
    Seq::new(rows.len(), |i: int| rows[i].employee_id == account)
}

/// The position of the first configuration that `account` owns.
pub open spec fn first_owned(rows: Seq<Config>, account: i32) -> Option<int> {
    first_true(owner_mask(rows, account))
}

/// Whether `account` owns more than one configuration of `rows`.
pub open spec fn owns_several(rows: Seq<Config>, account: i32) -> bool {
    exists|i: int, j: int|
        #![trigger rows[i], rows[j]]
        0 <= i < j < rows.len() && rows[i].employee_id == account && rows[j].employee_id
            == account
}

impl DatabaseView {
    /// Whether the account at position `k` points at a configuration that
    /// is in the store and that it owns.
    pub open spec fn points_home(self, k: int) -> bool {
        match self.employees.rows[k].active_config {
            Some(id) => match index_of_key(self.configs.rows, id) {
                Some(j) => self.configs.rows[j].employee_id == self.employees.rows[k].id,
                None => false,
            },
            None => false,
        }
    }

    /// Whether every account points at a configuration that it owns.
    pub open spec fn all_point_home(self) -> bool {
        forall|k: int| 0 <= k < self.employees.rows.len() ==> #[trigger] self.points_home(k)
    }

    /// Whether an account with the email `email` can be added with its
    /// first configuration: no account has the email yet, and both tables
    /// have a key left.
    pub open spec fn account_fits(self, email: Seq<char>) -> Result<(), Error> {
        if index_of_email(self.employees.rows, email) is Some {
            Err(Error::EmployeeExists)
        } else if self.employees.next_key == i32::MAX || self.configs.next_key == i32::MAX {
            Err(Error::Infrastructure(Fault::KeysExhausted))
        } else {
            Ok(())
        }
    }

    /// The row of a new account: `account` under the next account key,
    /// pointing at the next configuration key.
    pub open spec fn account_row(self, account: NewEmployee) -> Employee {
        Employee::keyed_spec(self.employees.next_key, account).with_active_config(
            Some(self.configs.next_key),
        )
    }

    /// The row of a new account's first configuration: `defaults` under the
    /// next configuration key, owned by the new account.
    pub open spec fn first_config_row(self, defaults: NewConfig) -> Config {
        Config::keyed_spec(self.configs.next_key, defaults.owned_by_spec(self.employees.next_key))
    }

    /// The store with a new account and its first configuration.
    pub open spec fn with_account(self, account: NewEmployee, defaults: NewConfig) -> DatabaseView {
        DatabaseView {
            employees: self.employees.appended(self.account_row(account)),
            configs: self.configs.appended(self.first_config_row(defaults)),
            ..self
        }
    }

    /// The store with the account at position `k` pointing at `active`.
    pub open spec fn with_pointer(self, k: int, active: Option<i32>) -> DatabaseView {
        DatabaseView {
            employees: self.employees.with_row(
                k,
                self.employees.rows[k].with_active_config(active),
            ),
            ..self
        }
    }

    /// What setting the active configuration does: the account of the token
    /// must be the owner that `config` names, and then points at `config`.
    /// Whether `config` is in the store is not looked at.
    pub open spec fn set_active_config(
        self,
        token: Seq<char>,
        now: Timestamp,
        config: Config,
    ) -> (Result<(), Error>, DatabaseView) {
        match self.authenticate_index(token, now) {
            Err(e) => (Err(e), self),
            Ok(k) => match ids_match(self.employees.rows[k].id, config.employee_id) {
                Err(e) => (Err(e), self),
                Ok(_) => (Ok(()), self.with_pointer(k, Some(config.id))),
            },
        }
    }

    /// The store after the account at position `k` has lost the
    /// configuration at position `target`, if any. Where the account then
    /// still points at a configuration that is stored as its own, the
    /// pointer stays; otherwise the account is pointed at the first
    /// configuration that it still owns.
    pub open spec fn after_removal(self, k: int, target: Option<int>) -> DatabaseView {
        let configs = match target {
            Some(i) => self.configs.without(i),
            None => self.configs,
        };
        let kept = DatabaseView { configs, ..self };
        if kept.points_home(k) {
            kept
        } else {
            let left = first_owned(configs.rows, self.employees.rows[k].id);
            kept.with_pointer(k, Some(configs.rows[left.unwrap()].id))
        }
    }

    /// What removing a configuration does.
    ///
    /// An account that owns no more than one configuration keeps it:
    /// nothing changes, and that is no error. Otherwise the account of the
    /// token must be the owner that `config` names, and the stored
    /// configuration with the key of `config` must be the account's own; it
    /// is taken out. The pointer moves only where it has to: an account
    /// whose active configuration is still stored as its own keeps it, and
    /// an account that has lost its active configuration is pointed at the
    /// first configuration that it still owns.
    pub open spec fn remove_config(
        self,
        token: Seq<char>,
        now: Timestamp,
        config: Config,
    ) -> (Result<(), Error>, DatabaseView) {
        match self.authenticate_index(token, now) {
            Err(e) => (Err(e), self),
            Ok(k) => {
                let account = self.employees.rows[k].id;
                if !owns_several(self.configs.rows, account) {
                    (Ok(()), self)
                } else if config.employee_id != account {
                    (Err(Error::IdentityMismatch), self)
                } else {
                    match index_of_key(self.configs.rows, config.id) {
                        Some(i) => if self.configs.rows[i].employee_id != account {
                            (Err(Error::IdentityMismatch), self)
                        } else {
                            (Ok(()), self.after_removal(k, Some(i)))
                        },
                        None => (Ok(()), self.after_removal(k, None)),
                    }
                }
            },
        }
    }
}

/// A new account with its first configuration leaves the store well
/// formed, and the new account points at the configuration made for it.
pub proof fn lemma_with_account(store: DatabaseView, account: NewEmployee, defaults: NewConfig)
    requires
        store.wf(),
        store.account_fits(account.email@) is Ok,
    ensures
        store.with_account(account, defaults).wf(),
        store.with_account(account, defaults).points_home(store.employees.rows.len() as int),
        store.with_account(account, defaults).employees.rows[store.employees.rows.len() as int]
            == store.account_row(account),
        store.all_point_home() ==> store.with_account(account, defaults).all_point_home(),
{
    let after = store.with_account(account, defaults);
    let config = store.first_config_row(defaults);
    lemma_appended(store.configs, config);
    let taken = email_mask(store.employees.rows, account.email@);
    lemma_first_true(taken);
    assert forall|i: int, j: int|
        0 <= i < after.employees.rows.len() && 0 <= j < after.employees.rows.len() && i
            != j implies (#[trigger] after.employees.rows[i]).email@ != (
    #[trigger] after.employees.rows[j]).email@ by {
        if i < store.employees.rows.len() {
            assert(!taken[i]);
        }
        if j < store.employees.rows.len() {
            assert(!taken[j]);
        }
    }
    if store.all_point_home() {
        assert forall|k: int| 0 <= k < after.employees.rows.len() implies #[trigger]
            after.points_home(k) by {
            if k < store.employees.rows.len() {
                assert(store.points_home(k));
                lemma_config_stays(store.configs, config, store.employees.rows[k].active_config);
            }
        }
    }
}

/// A configuration that a key finds is still found, at the same place,
/// after another row has been added at the end.
pub proof fn lemma_config_stays(configs: TableView<Config>, added: Config, pointer: Option<i32>)
    requires
        configs.wf(),
        pointer is Some,
        index_of_key(configs.rows, pointer.unwrap()) is Some,
    ensures
        index_of_key(configs.rows.push(added), pointer.unwrap()) == index_of_key(
            configs.rows,
            pointer.unwrap(),
        ),
{
    let key = pointer.unwrap();
    let j = index_of_key(configs.rows, key).unwrap();
    let after = key_mask(configs.rows.push(added), key);
    lemma_first_true_found(after, j);
}

/// Where an account owns several configurations and loses at most one of
/// them, it still owns one, and the store stays well formed with the
/// account pointing at a configuration that it owns. The key of the one
/// removed finds nothing any more, and every other row stays.
pub proof fn lemma_after_removal(store: DatabaseView, k: int, target: Option<int>)
    requires
        store.wf(),
        0 <= k < store.employees.rows.len(),
        owns_several(store.configs.rows, store.employees.rows[k].id),
        match target {
            Some(i) => 0 <= i < store.configs.rows.len() && store.configs.rows[i].employee_id
                == store.employees.rows[k].id,
            None => true,
        },
    ensures
        store.after_removal(k, target).wf(),
        store.after_removal(k, target).points_home(k),
        match target {
            Some(i) => {
                &&& first_owned(store.configs.without(i).rows, store.employees.rows[k].id) is Some
                &&& index_of_key(
                    store.after_removal(k, target).configs.rows,
                    store.configs.rows[i].id,
                ) is None
                &&& store.after_removal(k, target).configs.rows == store.configs.rows.remove(i)
            },
            None => {
                &&& first_owned(store.configs.rows, store.employees.rows[k].id) is Some
                &&& store.after_removal(k, target).configs == store.configs
            },
        },
        store.all_point_home() ==> store.after_removal(k, target).all_point_home(),
{
    let account = store.employees.rows[k].id;
    let configs = match target {
        Some(i) => store.configs.without(i),
        None => store.configs,
    };
    let (a, b) = choose|a: int, b: int|
        #![trigger store.configs.rows[a], store.configs.rows[b]]
        0 <= a < b < store.configs.rows.len() && store.configs.rows[a].employee_id == account
            && store.configs.rows[b].employee_id == account;
    let mask = owner_mask(configs.rows, account);
    match target {
        Some(i) => {
            let kept_row = if a == i { b } else { a };
            let moved = if kept_row < i { kept_row } else { kept_row - 1 };
            assert(mask[moved]);
        },
        None => {
            assert(mask[a]);
        },
    }
    lemma_first_true(mask);
    let left = first_owned(configs.rows, account).unwrap();
    let after = store.after_removal(k, target);
    lemma_key_finds(configs, left);
    if store.all_point_home() {
        assert forall|other: int| 0 <= other < after.employees.rows.len() implies #[trigger]
            after.points_home(other) by {
            if other != k {
                assert(store.points_home(other));
                let pointer = store.employees.rows[other].active_config.unwrap();
                let j = index_of_key(store.configs.rows, pointer).unwrap();
                match target {
                    Some(i) => {
                        let moved = if j < i { j } else { j - 1 };
                        lemma_key_finds(configs, moved);
                    },
                    None => {},
                }
            }
        }
    }
}

/// What an account owns among the configurations: the position of the
/// first one, and whether there is another.
pub fn owned_configs(configs: &Table<Config>, account: i32) -> (owned: (Option<usize>, bool))
    ensures
        match owned.0 {
            Some(p) => first_owned(configs@.rows, account) == Some(p as int) && p
                < configs@.rows.len() && configs@.rows[p as int].employee_id == account,
            None => first_owned(configs@.rows, account) is None,
        },
        owned.1 == owns_several(configs@.rows, account),
{
    let ghost rows = configs@.rows;
    let ghost mask = owner_mask(rows, account);
    let mut first: Option<usize> = None;
    let mut several: bool = false;
    let mut i: usize = 0;
    while i < configs.len()
        invariant
            i <= rows.len(),
            rows == configs@.rows,
            mask == owner_mask(rows, account),
            match first {
                Some(p) => p < i && is_first_true(mask, p as int),
                None => forall|j: int| 0 <= j < i ==> !#[trigger] mask[j],
            },
            several == exists|a: int, b: int|
                #![trigger rows[a], rows[b]]
                0 <= a < b < i && rows[a].employee_id == account && rows[b].employee_id
                    == account,
        decreases rows.len() - i,
    {
        if configs.row(i).employee_id == account {
            match first {
                Some(p) => {
                    several = true;
                },
                None => {
                    assert forall|a: int, b: int|
                        #![trigger rows[a], rows[b]]
                        0 <= a < b < i + 1 implies !(rows[a].employee_id == account
                            && rows[b].employee_id == account) by {
                        assert(!mask[a]);
                    }
                    first = Some(i);
                },
            }
        }
        i += 1;
    }
    (first, several)
}

/// Points the account at position `k` at `active`.
pub(crate) fn point_at(db: &mut Database, k: usize, active: Option<i32>)
    requires
        old(db)@.wf(),
        k < old(db)@.employees.rows.len(),
    ensures
        final(db)@.wf(),
        final(db)@ == old(db)@.with_pointer(k as int, active),
{
    let mut row = db.employees.row(k).clone();
    row.active_config = active;
    db.employees.put(k, row);
}

/// Adds an account together with its first configuration, as one step:
/// either both rows are added and the account points at the configuration,
/// which it owns, or nothing changes. `defaults` is the configuration to
/// start with; the owner it names is replaced by the new account.
///
/// Fails with `EmployeeExists` where an account already has the email, and
/// with `KeysExhausted` where either table has no key left.
pub fn create_account(
    db: &mut Database,
    account: NewEmployee,
    defaults: NewConfig,
) -> (created: Result<Employee, Error>)
    requires
        old(db)@.wf(),
    ensures
        final(db)@.wf(),
        match old(db)@.account_fits(account.email@) {
            Err(e) => created == Err::<Employee, Error>(e) && final(db)@ == old(db)@,
            Ok(_) => {
                &&& created == Ok::<Employee, Error>(old(db)@.account_row(account))
                &&& final(db)@ == old(db)@.with_account(account, defaults)
                &&& final(db)@.points_home(old(db)@.employees.rows.len() as int)
                &&& old(db)@.all_point_home() ==> final(db)@.all_point_home()
            },
        },
{
    if db.email_position(account.email.as_str()).is_some() {
        return Err(Error::EmployeeExists);
    }
    let account_key = db.employees.next_key();
    let config_key = db.configs.next_key();
    if account_key == i32::MAX || config_key == i32::MAX {
        return Err(Error::Infrastructure(Fault::KeysExhausted));
    }
    proof {
        lemma_with_account(db@, account, defaults);
    }
    let mut row = Employee::keyed(account_key, account);
    row.active_config = Some(config_key);
    let created = row.clone();
    let config = Config::keyed(config_key, defaults.owned_by(account_key));
    db.employees.append(row);
    db.configs.append(config);
    Ok(created)
}

/// Makes `config` the active configuration of the account of the token.
/// Fails with `Unauthorized` without a live session and with
/// `IdentityMismatch` where `config` names another owner; neither changes
/// the store.
pub fn set_active_config(
    db: &mut Database,
    token: &str,
    now: Timestamp,
    config: Config,
) -> (done: Result<(), Error>)
    requires
        old(db)@.wf(),
    ensures
        final(db)@.wf(),
        (done, final(db)@) == old(db)@.set_active_config(token@, now, config),
{
    let k = match db.authenticate_position(token, now) {
        Ok(k) => k,
        Err(e) => {
            return Err(e);
        },
    };
    match match_ids(db.employees.row(k).id, config.employee_id) {
        Err(e) => {
            return Err(e);
        },
        Ok(_) => {},
    }
    point_at(db, k, Some(config.id));
    Ok(())
}

/// Whether the account at position `k` points at a configuration that is
/// stored as its own.
pub fn points_home(db: &Database, k: usize) -> (home: bool)
    requires
        k < db@.employees.rows.len(),
    ensures
        home == db@.points_home(k as int),
{
    let account = db.employees.row(k);
    match account.active_config {
        Some(id) => match db.configs.position(id) {
            Some(j) => db.configs.row(j).employee_id == account.id,
            None => false,
        },
        None => false,
    }
}

/// Removes a configuration of the account of the token: see
/// `DatabaseView::remove_config`. The only configuration of an account
/// stays, without an error. After a removal the key of the one removed
/// finds nothing and the account points at a configuration that it owns:
/// at the one it pointed at before, unless that was the one removed.
pub fn remove_config(
    db: &mut Database,
    token: &str,
    now: Timestamp,
    config: Config,
) -> (done: Result<(), Error>)
    requires
        old(db)@.wf(),
    ensures
        final(db)@.wf(),
        (done, final(db)@) == old(db)@.remove_config(token@, now, config),
        done is Err ==> final(db)@ == old(db)@,
{
    let k = match db.authenticate_position(token, now) {
        Ok(k) => k,
        Err(e) => {
            return Err(e);
        },
    };
    let account = db.employees.row(k).id;
    let (_, several) = owned_configs(&db.configs, account);
    if !several {
        return Ok(());
    }
    match match_ids(account, config.employee_id) {
        Err(e) => {
            return Err(e);
        },
        Ok(_) => {},
    }
    let target = db.configs.position(config.id);
    let ghost shown: Option<int> = match target {
        Some(i) => Some(i as int),
        None => None,
    };
    proof {
        if shown is None || db@.configs.rows[shown.unwrap()].employee_id == account {
            lemma_after_removal(db@, k as int, shown);
        }
    }
    match target {
        Some(i) => {
            if db.configs.row(i).employee_id != account {
                return Err(Error::IdentityMismatch);
            }
            db.configs.take(i);
        },
        None => {},
    }
    if !points_home(db, k) {
        let (left, _) = owned_configs(&db.configs, account);
        match left {
            Some(p) => {
                let active = db.configs.row(p).id;
                point_at(db, k, Some(active));
            },
            None => {},
        }
    }
    Ok(())
}

/// The configurations of `rows` that `account` owns, in their order.
pub open spec fn owned_rows(rows: Seq<Config>, account: i32) -> Seq<Config> {
    rows.filter(|c: Config| c.employee_id == account)
}

/// The per-employee colors of `rows` that belong to the configuration
/// `config`, in their order.
pub open spec fn colors_of(rows: Seq<PerEmployeeConfig>, config: i32) -> Seq<PerEmployeeConfig> {
    rows.filter(|p: PerEmployeeConfig| p.config_id == config)
}

/// Whether `listed` shows `config` with the per-employee colors that
/// `colors` holds for it.
pub open spec fn shows(
    listed: CombinedConfig,
    config: Config,
    colors: Seq<PerEmployeeConfig>,
) -> bool {
    &&& listed.config.same_as(config)
    &&& listed.per_employee@ == colors_of(colors, config.id)
}

/// Whether `list` shows the configurations `owned`, one for one and in order.
pub open spec fn shows_all(
    list: Seq<CombinedConfig>,
    owned: Seq<Config>,
    colors: Seq<PerEmployeeConfig>,
) -> bool {
    &&& list.len() == owned.len()
    &&& forall|j: int| 0 <= j < list.len() ==> shows(#[trigger] list[j], owned[j], colors)
}

/// The per-employee colors of the configuration `config`.
fn colors_for(colors: &Table<PerEmployeeConfig>, config: i32) -> (found: Vec<PerEmployeeConfig>)
    ensures
        found@ == colors_of(colors@.rows, config),
{
    let ghost rows = colors@.rows;
    let ghost keep = |p: PerEmployeeConfig| p.config_id == config;
    let mut found: Vec<PerEmployeeConfig> = Vec::new();
    let mut i: usize = 0;
    while i < colors.len()
        invariant
            i <= rows.len(),
            rows == colors@.rows,
            keep == (|p: PerEmployeeConfig| p.config_id == config),
            found@ == rows.take(i as int).filter(keep),
        decreases rows.len() - i,
    {
        proof {
            lemma_filter_step(rows, keep, i as int);
        }
        let row = *colors.row(i);
        if row.config_id == config {
            found.push(row);
        }
        i += 1;
    }
    assert(rows.take(rows.len() as int) =~= rows);
    found
}

/// The active configuration of the account of the token.
pub fn get_active_config(
    db: &Database,
    token: &str,
    now: Timestamp,
) -> (active: Result<JsonObject<Option<i32>>, Error>)
    ensures
        match db@.resolve(token@, now) {
            Ok(account) => active matches Ok(object) && object.contents == account.active_config,
            Err(e) => active matches Err(f) && f == e,
        },
{
    match db.resolve_position(token, now) {
        Ok(k) => Ok(JsonObject::new(db.employees.row(k).active_config)),
        Err(e) => Err(e),
    }
}

/// The configurations that the account of the token owns, in their order,
/// each with its per-employee colors.
pub fn get_configs(
    db: &Database,
    token: &str,
    now: Timestamp,
) -> (listed: Result<JsonObject<Vec<CombinedConfig>>, Error>)
    ensures
        match db@.resolve(token@, now) {
            Ok(account) => listed matches Ok(object) && shows_all(
                object.contents@,
                owned_rows(db@.configs.rows, account.id),
                db@.per_employee_configs.rows,
            ),
            Err(e) => listed matches Err(f) && f == e,
        },
{
    let k = match db.resolve_position(token, now) {
        Ok(k) => k,
        Err(e) => {
            return Err(e);
        },
    };
    let account = db.employees.row(k).id;
    let ghost rows = db@.configs.rows;
    let ghost keep = |c: Config| c.employee_id == account;
    let mut list: Vec<CombinedConfig> = Vec::new();
    let mut i: usize = 0;
    while i < db.configs.len()
        invariant
            i <= rows.len(),
            rows == db@.configs.rows,
            keep == (|c: Config| c.employee_id == account),
            shows_all(list@, rows.take(i as int).filter(keep), db@.per_employee_configs.rows),
        decreases rows.len() - i,
    {
        proof {
            lemma_filter_step(rows, keep, i as int);
        }
        let row = db.configs.row(i);
        if row.employee_id == account {
            let per_employee = colors_for(&db.per_employee_configs, row.id);
            list.push(CombinedConfig { config: row.clone(), per_employee });
        }
        i += 1;
    }
    assert(rows.take(rows.len() as int) =~= rows);
    Ok(JsonObject::new(list))
}

impl DatabaseView {
    /// What adding a configuration does: it is stored under the next key
    /// for the account of the token, whatever owner `new` names.
    pub open spec fn add_config(self, token: Seq<char>, now: Timestamp, new: NewConfig) -> (
        Result<Config, Error>,
        DatabaseView,
    ) {
        match self.authenticate(token, now) {
            Err(e) => (Err(e), self),
            Ok(account) => if self.configs.next_key == i32::MAX {
                (Err(Error::Infrastructure(Fault::KeysExhausted)), self)
            } else {
                let row = Config::keyed_spec(self.configs.next_key, new.owned_by_spec(account.id));
                (Ok(row), DatabaseView { configs: self.configs.appended(row), ..self })
            },
        }
    }

    /// What updating a configuration does: the account of the token must be
    /// the owner that `updated` names and the owner of the stored row with
    /// its key, which `updated` then replaces.
    pub open spec fn update_config(self, token: Seq<char>, now: Timestamp, updated: Config) -> (
        Result<Config, Error>,
        DatabaseView,
    ) {
        match self.authenticate(token, now) {
            Err(e) => (Err(e), self),
            Ok(account) => match target(
                account,
                EmployeeLevel::Read,
                Some(updated.employee_id),
                self.configs.rows,
                updated.id,
            ) {
                Err(e) => (Err(e), self),
                Ok(None) => (Err(Error::Infrastructure(Fault::RecordNotFound)), self),
                Ok(Some(i)) => (
                    Ok(updated),
                    DatabaseView { configs: self.configs.with_row(i, updated), ..self },
                ),
            },
        }
    }

    /// What adding a per-employee color does: it is stored under the next key.
    pub open spec fn add_employee_config(
        self,
        token: Seq<char>,
        now: Timestamp,
        new: NewPerEmployeeConfig,
    ) -> (Result<(), Error>, DatabaseView) {
        match self.authenticate(token, now) {
            Err(e) => (Err(e), self),
            Ok(_) => if self.per_employee_configs.next_key == i32::MAX {
                (Err(Error::Infrastructure(Fault::KeysExhausted)), self)
            } else {
                (
                    Ok(()),
                    DatabaseView {
                        per_employee_configs: self.per_employee_configs.appended(
                            PerEmployeeConfig::keyed_spec(self.per_employee_configs.next_key, new),
                        ),
                        ..self
                    },
                )
            },
        }
    }

    /// What updating a per-employee color does: `updated` replaces the
    /// stored row with its key.
    pub open spec fn update_employee_config(
        self,
        token: Seq<char>,
        now: Timestamp,
        updated: PerEmployeeConfig,
    ) -> (Result<(), Error>, DatabaseView) {
        match self.authenticate(token, now) {
            Err(e) => (Err(e), self),
            Ok(_) => match index_of_key(self.per_employee_configs.rows, updated.id) {
                None => (Err(Error::Infrastructure(Fault::RecordNotFound)), self),
                Some(i) => (
                    Ok(()),
                    DatabaseView {
                        per_employee_configs: self.per_employee_configs.with_row(i, updated),
                        ..self
                    },
                ),
            },
        }
    }
}

/// The rows that copies of `colors` become for the configuration `config`,
/// under the keys from `first_key` on.
pub open spec fn copied_colors(colors: Seq<PerEmployeeConfig>, first_key: int, config: i32) -> Seq<
    PerEmployeeConfig,
> {
    Seq::new(
        colors.len(),
        |j: int|
            PerEmployeeConfig {
                id: (first_key + j) as i32,
                config_id: config,
                employee_id: colors[j].employee_id,
                color: colors[j].color,
            },
    )
}

impl DatabaseView {
    /// Whether a copy of a configuration with `colors` per-employee colors
    /// can be stored: both tables have the keys it takes.
    pub open spec fn copy_fits(self, colors: nat) -> bool {
        &&& self.configs.next_key < i32::MAX
        &&& self.per_employee_configs.next_key + colors <= i32::MAX
    }

    /// What copying a configuration does: the account of the token must be
    /// the owner that the configuration names. A copy is stored under the
    /// next key, and copies of its per-employee colors under the next keys
    /// of their table, in their order.
    pub open spec fn copy_config(
        self,
        token: Seq<char>,
        now: Timestamp,
        combined: CombinedConfig,
    ) -> (Result<(), Error>, DatabaseView) {
        match self.authenticate(token, now) {
            Err(e) => (Err(e), self),
            Ok(account) => match ids_match(account.id, combined.config.employee_id) {
                Err(e) => (Err(e), self),
                Ok(_) => if !self.copy_fits(combined.per_employee@.len()) {
                    (Err(Error::Infrastructure(Fault::KeysExhausted)), self)
                } else {
                    (
                        Ok(()),
                        DatabaseView {
                            configs: self.configs.appended(
                                Config::keyed_spec(
                                    self.configs.next_key,
                                    NewConfig::of_spec(combined.config),
                                ),
                            ),
                            per_employee_configs: TableView {
                                rows: self.per_employee_configs.rows + copied_colors(
                                    combined.per_employee@,
                                    self.per_employee_configs.next_key as int,
                                    self.configs.next_key,
                                ),
                                next_key: (self.per_employee_configs.next_key
                                    + combined.per_employee@.len()) as i32,
                            },
                            ..self
                        },
                    )
                },
            },
        }
    }
}

/// Stores a copy of a configuration of the account of the token, with
/// copies of its per-employee colors. Either all of it is stored or nothing
/// changes. Fails with `Unauthorized` without a live session, with
/// `IdentityMismatch` where the configuration names another owner, and with
/// `KeysExhausted` where a table lacks the keys.
pub fn copy_config(
    db: &mut Database,
    token: &str,
    now: Timestamp,
    combined_config: CombinedConfig,
) -> (done: Result<(), Error>)
    requires
        old(db)@.wf(),
    ensures
        final(db)@.wf(),
        (done, final(db)@) == old(db)@.copy_config(token@, now, combined_config),
        done is Err ==> final(db)@ == old(db)@,
{
    let k = match db.authenticate_position(token, now) {
        Ok(k) => k,
        Err(e) => {
            return Err(e);
        },
    };
    match match_ids(db.employees.row(k).id, combined_config.config.employee_id) {
        Err(e) => {
            return Err(e);
        },
        Ok(_) => {},
    }
    let config_key = db.configs.next_key();
    let first_key = db.per_employee_configs.next_key();
    let colors = combined_config.per_employee;
    if config_key == i32::MAX || colors.len() > (i32::MAX - first_key) as usize {
        return Err(Error::Infrastructure(Fault::KeysExhausted));
    }
    let row = Config::keyed(config_key, NewConfig::of(combined_config.config));
    db.configs.append(row);
    let ghost start = db@;
    let ghost copies = copied_colors(colors@, first_key as int, config_key);
    let mut j: usize = 0;
    while j < colors.len()
        invariant
            j <= colors@.len(),
            first_key == start.per_employee_configs.next_key,
            first_key + colors@.len() <= i32::MAX,
            copies == copied_colors(colors@, first_key as int, config_key),
            db@.wf(),
            db@ == (DatabaseView {
                per_employee_configs: TableView {
                    rows: start.per_employee_configs.rows + copies.take(j as int),
                    next_key: (first_key + j) as i32,
                },
                ..start
            }),
        decreases colors@.len() - j,
    {
        let key = db.per_employee_configs.next_key();
        let color = colors[j];
        let copy = PerEmployeeConfig {
            id: key,
            config_id: config_key,
            employee_id: color.employee_id,
            color: color.color,
        };
        proof {
            assert(copies.take(j + 1) =~= copies.take(j as int).push(copy));
        }
        db.per_employee_configs.append(copy);
        j += 1;
    }
    assert(copies.take(colors@.len() as int) =~= copies);
    Ok(())
}

/// Whether `given` is `expected`, a configuration being taken field by field.
pub open spec fn same_outcome(
    given: Result<Config, Error>,
    expected: Result<Config, Error>,
) -> bool {
    match expected {
        Ok(row) => given matches Ok(config) && config.same_as(row),
        Err(e) => given matches Err(f) && f == e,
    }
}

/// Adds a configuration for the account of the token and returns the row.
/// Fails with `Unauthorized` without a live session and with
/// `KeysExhausted` where the table has no key left.
pub fn add_config(
    db: &mut Database,
    token: &str,
    now: Timestamp,
    new_config: NewConfig,
) -> (added: Result<Config, Error>)
    requires
        old(db)@.wf(),
    ensures
        final(db)@.wf(),
        same_outcome(added, old(db)@.add_config(token@, now, new_config).0),
        final(db)@ == old(db)@.add_config(token@, now, new_config).1,
        added is Err ==> final(db)@ == old(db)@,
{
    let k = match db.authenticate_position(token, now) {
        Ok(k) => k,
        Err(e) => {
            return Err(e);
        },
    };
    let key = db.configs.next_key();
    if key == i32::MAX {
        return Err(Error::Infrastructure(Fault::KeysExhausted));
    }
    let row = Config::keyed(key, new_config.owned_by(db.employees.row(k).id));
    let added = row.clone();
    db.configs.append(row);
    Ok(added)
}

/// Replaces a configuration of the account of the token by `updated` and
/// returns it. Fails with `Unauthorized` without a live session, with
/// `IdentityMismatch` where `updated` or the stored row names another
/// owner, and with `RecordNotFound` where no row has the key.
pub fn update_config(
    db: &mut Database,
    token: &str,
    now: Timestamp,
    updated: Config,
) -> (stored: Result<Config, Error>)
    requires
        old(db)@.wf(),
    ensures
        final(db)@.wf(),
        same_outcome(stored, old(db)@.update_config(token@, now, updated).0),
        final(db)@ == old(db)@.update_config(token@, now, updated).1,
        stored is Err ==> final(db)@ == old(db)@,
{
    let account = match db.authenticate(token, now) {
        Ok(account) => account,
        Err(e) => {
            return Err(e);
        },
    };
    let found = match locate(
        &account,
        EmployeeLevel::Read,
        Some(updated.employee_id),
        &db.configs,
        updated.id,
    ) {
        Ok(found) => found,
        Err(e) => {
            return Err(e);
        },
    };
    match found {
        None => Err(Error::Infrastructure(Fault::RecordNotFound)),
        Some(i) => {
            let copy = updated.clone();
            db.configs.put(i, updated);
            Ok(copy)
        },
    }
}

/// Adds a per-employee color. Fails with `Unauthorized` without a live
/// session and with `KeysExhausted` where the table has no key left.
pub fn add_employee_config(
    db: &mut Database,
    token: &str,
    now: Timestamp,
    new_config: NewPerEmployeeConfig,
) -> (done: Result<(), Error>)
    requires
        old(db)@.wf(),
    ensures
        final(db)@.wf(),
        (done, final(db)@) == old(db)@.add_employee_config(token@, now, new_config),
        done is Err ==> final(db)@ == old(db)@,
{
    match db.authenticate_position(token, now) {
        Ok(_) => {},
        Err(e) => {
            return Err(e);
        },
    }
    let key = db.per_employee_configs.next_key();
    if key == i32::MAX {
        return Err(Error::Infrastructure(Fault::KeysExhausted));
    }
    let row = PerEmployeeConfig::keyed(key, new_config);
    db.per_employee_configs.append(row);
    Ok(())
}

/// Replaces the per-employee color that has the key of `config`. Fails
/// with `Unauthorized` without a live session and with `RecordNotFound`
/// where no row has the key.
pub fn update_employee_config(
    db: &mut Database,
    token: &str,
    now: Timestamp,
    config: PerEmployeeConfig,
) -> (done: Result<(), Error>)
    requires
        old(db)@.wf(),
    ensures
        final(db)@.wf(),
        (done, final(db)@) == old(db)@.update_employee_config(token@, now, config),
        done is Err ==> final(db)@ == old(db)@,
{
    match db.authenticate_position(token, now) {
        Ok(_) => {},
        Err(e) => {
            return Err(e);
        },
    }
    match db.per_employee_configs.position(config.id) {
        None => Err(Error::Infrastructure(Fault::RecordNotFound)),
        Some(i) => {
            db.per_employee_configs.put(i, config);
            Ok(())
        },
    }
}

} // verus!
