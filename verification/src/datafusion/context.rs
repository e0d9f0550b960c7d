//! The query session: the tables that statements can name and the store
//! clients that remote locators are routed to.
//!
//! A session holds two mappings, from table names to table handles and from
//! URL roots to store clients. Registering under a name or a root that is
//! taken replaces what was there. Nothing is ever unregistered.

use crate::error::SaError;
use crate::object_storage::locator::{
    lemma_table_name_of_locator, spec_protocol, spec_table_name, table_name_of,
};
use crate::object_storage::storage::{
    SaStorage, StoreClient, StoreClientView, TableHandle, TableHandleView,
};
use crate::registry::Registry;
use crate::schema::{FieldView, TableSchema};
use crate::text::{str_eq, strings_view};
use crate::url_root::ParsedUrl;
use vstd::prelude::*;
use vstd::string::*;

verus! {

/// What a session holds: its tables and its store clients.
pub struct SessionState {
    tables: Registry<TableHandle>,
    object_stores: Registry<StoreClient>,
}

impl SessionState {
    /// The state is well formed.
    pub closed spec fn wf(&self) -> bool {
        self.tables.wf() && self.object_stores.wf()
    }

    /// The tables, by name.
    pub closed spec fn tables(&self) -> Map<Seq<char>, TableHandleView> {
        self.tables.map().map_values(|t: TableHandle| t@)
    }

    /// The store clients, by URL root.
    pub closed spec fn object_stores(&self) -> Map<Seq<char>, StoreClientView> {
        self.object_stores.map().map_values(|c: StoreClient| c@)
    }

    /// The state without tables and store clients.
    pub fn new() -> (r: SessionState)
        ensures
            r.wf(),
            r.tables() == Map::<Seq<char>, TableHandleView>::empty(),
            r.object_stores() == Map::<Seq<char>, StoreClientView>::empty(),
    {
        let r = SessionState { tables: Registry::new(), object_stores: Registry::new() };
        assert(r.tables() =~= Map::<Seq<char>, TableHandleView>::empty());
        assert(r.object_stores() =~= Map::<Seq<char>, StoreClientView>::empty());
        r
    }

    /// The number of tables.
    pub fn table_count(&self) -> (r: usize)
        requires
            self.wf(),
        ensures
            self.tables().dom().finite(),
            r == self.tables().dom().len(),
    {
        assert(self.tables().dom() =~= self.tables.map().dom());
        self.tables.len()
    }

    /// The number of store clients.
    pub fn object_store_count(&self) -> (r: usize)
        requires
            self.wf(),
        ensures
            self.object_stores().dom().finite(),
            r == self.object_stores().dom().len(),
    {
        assert(self.object_stores().dom() =~= self.object_stores.map().dom());
        self.object_stores.len()
    }

    /// The table registered under `name`.
    pub fn table(&self, name: &str) -> (r: Option<&TableHandle>)
        requires
            self.wf(),
        ensures
            match r {
                Some(t) => self.tables().contains_key(name@) && t@ == self.tables()[name@],
                None => !self.tables().contains_key(name@),
            },
    {
        self.tables.get(name)
    }

    /// The store client registered under `url_root`.
    pub fn object_store(&self, url_root: &str) -> (r: Option<&StoreClient>)
        requires
            self.wf(),
        ensures
            match r {
                Some(c) => self.object_stores().contains_key(url_root@) && c@
                    == self.object_stores()[url_root@],
                None => !self.object_stores().contains_key(url_root@),
            },
    {
        self.object_stores.get(url_root)
    }

    /// Registers `table` under `name`; the result says whether a table of
    /// that name was replaced.
    pub fn register_table(&mut self, name: &str, table: TableHandle) -> (replaced: bool)
        requires
            old(self).wf(),
        ensures
            final(self).wf(),
            final(self).tables() == old(self).tables().insert(name@, table@),
            final(self).object_stores() == old(self).object_stores(),
            replaced == old(self).tables().contains_key(name@),
    {
        let replaced = self.tables.insert(name, table);
        assert(self.tables() =~= old(self).tables().insert(name@, table@));
        replaced
    }

    /// Registers `client` under `url_root`; the result says whether a client
    /// of that root was replaced.
    pub fn register_store(&mut self, url_root: &str, client: StoreClient) -> (replaced: bool)
        requires
            old(self).wf(),
        ensures
            final(self).wf(),
            final(self).object_stores() == old(self).object_stores().insert(url_root@, client@),
            final(self).tables() == old(self).tables(),
            replaced == old(self).object_stores().contains_key(url_root@),
    {
        let replaced = self.object_stores.insert(url_root, client);
        assert(self.object_stores() =~= old(self).object_stores().insert(url_root@, client@));
        replaced
    }
}

impl Clone for SessionState {
    /// A snapshot of the state.
    fn clone(&self) -> (r: SessionState)
        ensures
            self.wf() ==> r.wf() && r.tables() == self.tables() && r.object_stores()
                == self.object_stores(),
    {
        let r = SessionState {
            tables: self.tables.clone(),
            object_stores: self.object_stores.clone(),
        };
        proof {
            if self.wf() {
                assert(r.tables() =~= self.tables());
                assert(r.object_stores() =~= self.object_stores());
            }
        }
        r
    }
}

/// The lines that describe the columns of a schema: name, ` - `, type.
pub open spec fn spec_schema_lines(schema: Seq<FieldView>) -> Seq<Seq<char>> {
    Seq::new(schema.len(), |i: int| schema[i].name + " - "@ + schema[i].data_type.spec_name())
}

/// The table name that the locator `file_url` derives is taken by the table
/// of another locator.
pub open spec fn spec_collides(tables: Map<Seq<char>, TableHandleView>, file_url: Seq<char>) -> bool {
    tables.contains_key(spec_table_name(file_url)) && tables[spec_table_name(file_url)].file_url
        != file_url
}

/// The table that an identifier of a statement names: the table registered
/// under the identifier, or else the table of the locator that the identifier
/// is. A locator whose table name was taken over by another locator names
/// nothing.
pub open spec fn spec_resolve(
    tables: Map<Seq<char>, TableHandleView>,
    identifier: Seq<char>,
) -> Option<TableHandleView> {
    if tables.contains_key(identifier) {
        Some(tables[identifier])
    } else if tables.contains_key(spec_table_name(identifier)) && tables[spec_table_name(
        identifier,
    )].file_url == identifier {
        Some(tables[spec_table_name(identifier)])
    } else {
        None
    }
}

/// The locator whose table a registration of the locator `file_url` would
/// replace, if it would replace the table of another locator.
pub open spec fn spec_displaced(
    tables: Map<Seq<char>, TableHandleView>,
    file_url: Seq<char>,
) -> Option<Seq<char>> {
    if spec_collides(tables, file_url) {
        Some(tables[spec_table_name(file_url)].file_url)
    } else {
        None
    }
}

/// A query session.
pub struct SaDataFusion {
    pub ctx: SessionState,
}

impl SaDataFusion {
    /// The session is well formed.
    pub open spec fn wf(&self) -> bool {
        self.ctx.wf()
    }

    /// The tables of the session, by name.
    pub open spec fn tables(&self) -> Map<Seq<char>, TableHandleView> {
        self.ctx.tables()
    }

    /// The store clients of the session, by URL root.
    pub open spec fn object_stores(&self) -> Map<Seq<char>, StoreClientView> {
        self.ctx.object_stores()
    }

    /// A session without tables and store clients.
    pub fn new() -> (r: SaDataFusion)
        ensures
            r.wf(),
            r.tables() == Map::<Seq<char>, TableHandleView>::empty(),
            r.object_stores() == Map::<Seq<char>, StoreClientView>::empty(),
    {
        SaDataFusion { ctx: SessionState::new() }
    }

    /// A snapshot of what the session holds.
    pub fn get_session_state(&self) -> (r: SessionState)
        requires
            self.wf(),
        ensures
            r.wf(),
            r.tables() == self.tables(),
            r.object_stores() == self.object_stores(),
    {
        self.ctx.clone()
    }

    /// Files `object_store` under the root of `url`, in place of any client
    /// filed there before.
    pub fn register_object_store(&mut self, url: &ParsedUrl, object_store: StoreClient)
        requires
            old(self).wf(),
        ensures
            final(self).wf(),
            final(self).object_stores() == old(self).object_stores().insert(
                url.spec_root(),
                object_store@,
            ),
            final(self).tables() == old(self).tables(),
    {
        let _ = self.ctx.register_store(url.root(), object_store);
    }

    /// Registers the table of `sa_storage` under the table name that its
    /// locator derives. A table registered under that name before is replaced
    /// without notice. An adapter that is not bound to a table is refused.
    pub fn register_sa_storage<S: SaStorage>(&mut self, sa_storage: &S) -> (r: Result<(), SaError>)
        requires
            old(self).wf(),
        ensures
            final(self).wf(),
            final(self).object_stores() == old(self).object_stores(),
            match r {
                Ok(()) => sa_storage.spec_table_provider().is_some() && final(self).tables() == old(
                    self,
                ).tables().insert(
                    spec_table_name(sa_storage.spec_file_url()),
                    sa_storage.spec_table_provider().unwrap(),
                ),
                Err(e) => e == SaError::NotBound && sa_storage.spec_table_provider().is_none()
                    && final(self).tables() == old(self).tables(),
            },
    {
        match sa_storage.get_table_provider() {
            Some(table) => {
                let url = sa_storage.get_file_url();
                let name = table_name_of(url.as_str());
                let _ = self.ctx.register_table(name.as_str(), table);
                Ok(())
            },
            None => Err(SaError::NotBound),
        }
    }

    /// The table that `identifier` names in a statement: a table name, or a
    /// locator whose table is registered.
    pub fn resolve(&self, identifier: &str) -> (r: Option<&TableHandle>)
        requires
            self.wf(),
        ensures
            match r {
                Some(table) => spec_resolve(self.tables(), identifier@) == Some(table@),
                None => spec_resolve(self.tables(), identifier@).is_none(),
            },
    {
        match self.ctx.table(identifier) {
            Some(table) => Some(table),
            None => {
                let name = table_name_of(identifier);
                match self.ctx.table(name.as_str()) {
                    Some(table) => if str_eq(table.file_url(), identifier) {
                        Some(table)
                    } else {
                        None
                    },
                    None => None,
                }
            },
        }
    }

    /// The locator whose table registering the locator `file_url` would
    /// replace: another locator that derived the same table name. After the
    /// registration that locator names nothing.
    pub fn displaced_by(&self, file_url: &str) -> (r: Option<String>)
        requires
            self.wf(),
        ensures
            match r {
                Some(locator) => spec_displaced(self.tables(), file_url@) == Some(locator@),
                None => spec_displaced(self.tables(), file_url@).is_none(),
            },
    {
        let name = table_name_of(file_url);
        match self.ctx.table(name.as_str()) {
            Some(table) => if str_eq(table.file_url(), file_url) {
                None
            } else {
                Some(String::from_str(table.file_url()))
            },
            None => None,
        }
    }

    /// Tells whether registering `sa_storage` would replace the table of
    /// another locator: a registration collision. Registering does not check
    /// this; a caller who wants collisions reported asks first.
    pub fn check_collision<S: SaStorage>(&self, sa_storage: &S) -> (r: Result<(), SaError>)
        requires
            self.wf(),
        ensures
            r == if spec_collides(self.tables(), sa_storage.spec_file_url()) {
                Err::<(), SaError>(SaError::RegistrationCollision)
            } else {
                Ok::<(), SaError>(())
            },
    {
        let url = sa_storage.get_file_url();
        let name = table_name_of(url.as_str());
        match self.ctx.table(name.as_str()) {
            Some(table) => if str_eq(table.file_url(), url.as_str()) {
                Ok(())
            } else {
                Err(SaError::RegistrationCollision)
            },
            None => Ok(()),
        }
    }

    /// Registers the table of `sa_object`, as `register_sa_storage` does.
    pub fn register_storage<S: SaStorage>(&mut self, sa_object: &S) -> (r: Result<(), SaError>)
        requires
            old(self).wf(),
        ensures
            final(self).wf(),
            final(self).object_stores() == old(self).object_stores(),
            match r {
                Ok(()) => sa_object.spec_table_provider().is_some() && final(self).tables() == old(
                    self,
                ).tables().insert(
                    spec_table_name(sa_object.spec_file_url()),
                    sa_object.spec_table_provider().unwrap(),
                ),
                Err(e) => e == SaError::NotBound && sa_object.spec_table_provider().is_none()
                    && final(self).tables() == old(self).tables(),
            },
    {
        self.register_sa_storage(sa_object)
    }

    /// The schema of the table registered under `table_name`. Asking for a
    /// table that is not registered is an execution error.
    pub fn get_schema(&self, table_name: &str) -> (r: Result<TableSchema, SaError>)
        requires
            self.wf(),
        ensures
            match r {
                Ok(schema) => self.tables().contains_key(table_name@) && schema@
                    == self.tables()[table_name@].schema,
                Err(e) => e == SaError::ExecutionError && !self.tables().contains_key(table_name@),
            },
    {
        match self.ctx.table(table_name) {
            Some(table) => Ok(table.schema().clone()),
            None => Err(SaError::ExecutionError),
        }
    }

    /// The schema of the table registered under `table_name`, as `get_schema`
    /// gives it.
    pub fn get_schema_in_table(&self, table_name: &str) -> (r: Result<TableSchema, SaError>)
        requires
            self.wf(),
        ensures
            match r {
                Ok(schema) => self.tables().contains_key(table_name@) && schema@
                    == self.tables()[table_name@].schema,
                Err(e) => e == SaError::ExecutionError && !self.tables().contains_key(table_name@),
            },
    {
        self.get_schema(table_name)
    }

    /// One line for each column of the table registered under `table_name`:
    /// the name of the column, ` - `, and the name of its type.
    pub fn display_schema(&self, table_name: &str) -> (r: Result<Vec<String>, SaError>)
        requires
            self.wf(),
        ensures
            match r {
                Ok(lines) => self.tables().contains_key(table_name@) && strings_view(lines@)
                    == spec_schema_lines(self.tables()[table_name@].schema),
                Err(e) => e == SaError::ExecutionError && !self.tables().contains_key(table_name@),
            },
    {
        match self.ctx.table(table_name) {
            Some(table) => {
                let schema = table.schema();
                let mut lines: Vec<String> = Vec::new();
                let mut i: usize = 0;
                while i < schema.len()
                    invariant
                        i <= schema@.len(),
                        lines@.len() == i,
                        forall|k: int|
                            0 <= k < i ==> (#[trigger] lines@[k])@ == spec_schema_lines(schema@)[k],
                    decreases schema@.len() - i,
                {
                    match schema.field(i) {
                        Some(field) => {
                            let line = String::from_str(field.name()).concat(" - ").concat(
                                field.data_type().name(),
                            );
                            lines.push(line);
                        },
                        None => {},
                    }
                    i += 1;
                }
                assert(strings_view(lines@) =~= spec_schema_lines(schema@));
                Ok(lines)
            },
            None => Err(SaError::ExecutionError),
        }
    }
}

/// Of two registrations under one table name only the second can be queried:
/// the name leads to the second table, and the session has no more names than
/// after the first registration.
pub proof fn law_last_registration_wins(
    tables: Map<Seq<char>, TableHandleView>,
    first_url: Seq<char>,
    first: TableHandleView,
    second_url: Seq<char>,
    second: TableHandleView,
)
    requires
        spec_table_name(first_url) == spec_table_name(second_url),
    ensures
        tables.insert(spec_table_name(first_url), first).insert(spec_table_name(second_url), second)
            == tables.insert(spec_table_name(second_url), second),
        tables.insert(spec_table_name(first_url), first).insert(
            spec_table_name(second_url),
            second,
        )[spec_table_name(first_url)] == second,
        tables.insert(spec_table_name(first_url), first).insert(
            spec_table_name(second_url),
            second,
        ).dom() == tables.insert(spec_table_name(first_url), first).dom(),
{
    let name = spec_table_name(first_url);
    assert(tables.insert(name, first).insert(name, second) =~= tables.insert(name, second));
    assert(tables.insert(name, first).insert(name, second).dom() =~= tables.insert(
        name,
        first,
    ).dom());
}

/// Of two distinct locators that derive one table name, registered one after
/// the other, only the second can be queried: the second locator names its own
/// table, and the first, which named its table before, names nothing any
/// more. (Neither locator is itself the name of a table registered before.)
pub proof fn law_only_the_second_is_queryable(
    tables: Map<Seq<char>, TableHandleView>,
    first: TableHandleView,
    second: TableHandleView,
)
    requires
        spec_protocol(first.file_url).is_some(),
        spec_protocol(second.file_url).is_some(),
        spec_table_name(first.file_url) == spec_table_name(second.file_url),
        first.file_url != second.file_url,
        !tables.contains_key(first.file_url),
        !tables.contains_key(second.file_url),
    ensures
        spec_resolve(tables.insert(spec_table_name(first.file_url), first), first.file_url) == Some(
            first,
        ),
        spec_resolve(
            tables.insert(spec_table_name(first.file_url), first).insert(
                spec_table_name(second.file_url),
                second,
            ),
            second.file_url,
        ) == Some(second),
        spec_resolve(
            tables.insert(spec_table_name(first.file_url), first).insert(
                spec_table_name(second.file_url),
                second,
            ),
            first.file_url,
        ).is_none(),
{
    lemma_table_name_of_locator(first.file_url);
    lemma_table_name_of_locator(second.file_url);
}

/// Two distinct locators that derive one table name collide: once the table
/// of the first is registered, the second is flagged.
pub proof fn law_collision_is_flagged(
    tables: Map<Seq<char>, TableHandleView>,
    first: TableHandleView,
    second_url: Seq<char>,
)
    requires
        spec_table_name(first.file_url) == spec_table_name(second_url),
        first.file_url != second_url,
    ensures
        spec_collides(tables.insert(spec_table_name(first.file_url), first), second_url),
        !spec_collides(tables.insert(spec_table_name(first.file_url), first), first.file_url),
{
}

/// A registration leaves every table under another name as it was.
pub proof fn law_registration_keeps_other_tables(
    tables: Map<Seq<char>, TableHandleView>,
    url: Seq<char>,
    table: TableHandleView,
    other: Seq<char>,
)
    requires
        other != spec_table_name(url),
    ensures
        tables.insert(spec_table_name(url), table).contains_key(other) == tables.contains_key(other),
        tables.contains_key(other) ==> tables.insert(spec_table_name(url), table)[other]
            == tables[other],
{
}

} // verus!
