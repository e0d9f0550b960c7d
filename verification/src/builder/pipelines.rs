//! The query pipeline: from the text of a statement to the tables it names and
//! on to its execution.
//!
//! The pipeline itself neither reads files nor runs statements. It decides: it
//! tells its driver what to do next (an action), and the driver reports what
//! came of it (an event). Locators are bound and registered one after the
//! other, in the order in which the statement names them; the statement is
//! executed, unmodified, when all of them are registered; the first failure
//! ends the invocation, and what was registered before it stays registered.

use crate::datafusion::context::SaDataFusion;
use crate::error::SaError;
use crate::helper::sql::{
    is_locator_between, law_no_locator_iff_empty, spec_sql_parser, sql_parser,
};
use crate::object_storage::local_storage::SaLocalStorage;
use crate::object_storage::locator::{
    spec_parse_locator, spec_table_name, Locator, LocatorView, Protocol,
};
use crate::object_storage::s3::{spec_region_or_default, SaS3};
use crate::object_storage::storage::{
    file_format_of, spec_file_format, FileFormat, StoreClient, StoreClientView, TableHandleView,
};
use crate::schema::{spec_normalize, FieldView, TableSchema};
use crate::text::{strings_view, strs_view};
use crate::url_root::{spec_url_root, ParsedUrl};
use vstd::prelude::*;
use vstd::string::*;

verus! {

/// The store client that a remote source needs, and the root under which it is
/// filed in the session.
#[derive(Debug, PartialEq, Eq)]
pub struct StoreTarget {
    pub url_root: String,
    pub bucket: String,
    pub region: String,
}

/// What a store target holds.
pub struct StoreTargetView {
    pub url_root: Seq<char>,
    pub bucket: Seq<char>,
    pub region: Seq<char>,
}

impl View for StoreTarget {
    type V = StoreTargetView;

    open spec fn view(&self) -> StoreTargetView {
        StoreTargetView { url_root: self.url_root@, bucket: self.bucket@, region: self.region@ }
    }
}

/// How one locator is to be bound: its reader and, for a remote locator, its
/// store.
#[derive(Debug, PartialEq, Eq)]
pub struct BindPlan {
    pub uri: String,
    pub protocol: Protocol,
    pub file_format: FileFormat,
    pub store: Option<StoreTarget>,
}

/// What a bind plan holds.
pub struct BindPlanView {
    pub uri: Seq<char>,
    pub protocol: Protocol,
    pub file_format: FileFormat,
    pub store: Option<StoreTargetView>,
}

impl View for BindPlan {
    type V = BindPlanView;

    open spec fn view(&self) -> BindPlanView {
        BindPlanView {
            uri: self.uri@,
            protocol: self.protocol,
            file_format: self.file_format,
            store: match self.store {
                Some(s) => Some(s@),
                None => None,
            },
        }
    }
}

/// The plan for the locator `uri` with remote stores in `region`. The reader is
/// settled first, then the protocol, then the shape of the locator.
pub open spec fn spec_plan(uri: Seq<char>, region: Seq<char>) -> Result<BindPlanView, SaError> {
    match spec_file_format(uri) {
        None => Err(SaError::UnsupportedFileFormat),
        Some(file_format) => match spec_parse_locator(uri) {
            Err(e) => Err(e),
            Ok(LocatorView::Local { .. }) => Ok(
                BindPlanView { uri, protocol: Protocol::Local, file_format, store: None },
            ),
            Ok(LocatorView::Remote { bucket, .. }) => match spec_url_root(uri) {
                None => Err(SaError::ParseError),
                Some(url_root) => Ok(
                    BindPlanView {
                        uri,
                        protocol: Protocol::Remote,
                        file_format,
                        store: Some(StoreTargetView { url_root, bucket, region }),
                    },
                ),
            },
        },
    }
}

/// A plan or an error, by the view of the plan.
pub open spec fn plan_view(r: Result<BindPlan, SaError>) -> Result<BindPlanView, SaError> {
    match r {
        Ok(p) => Ok(p@),
        Err(e) => Err(e),
    }
}

/// Plans the binding of the locator `uri`: selects the reader by the end of
/// the locator, classifies the locator by its prefix and checks its shape. For
/// a remote locator the plan names the store client to set up, in `region`.
pub fn plan_bind(uri: &str, region: &str) -> (r: Result<BindPlan, SaError>)
    ensures
        plan_view(r) == spec_plan(uri@, region@),
{
    let file_format = match file_format_of(uri) {
        Ok(f) => f,
        Err(e) => {
            return Err(e);
        },
    };
    match Locator::parse(uri) {
        Err(e) => Err(e),
        Ok(Locator::Local { uri: text, .. }) => Ok(
            BindPlan { uri: text, protocol: Protocol::Local, file_format, store: None },
        ),
        Ok(Locator::Remote { uri: text, bucket, .. }) => match ParsedUrl::parse(uri) {
            Err(e) => Err(e),
            Ok(url) => Ok(
                BindPlan {
                    uri: text,
                    protocol: Protocol::Remote,
                    file_format,
                    store: Some(
                        StoreTarget {
                            url_root: String::from_str(url.root()),
                            bucket,
                            region: String::from_str(region),
                        },
                    ),
                },
            ),
        },
    }
}

/// Where an invocation stands.
#[derive(Clone, Copy, Debug, PartialEq, Eq, Structural)]
pub enum Stage {
    /// The next locator waits for the sample of its schema.
    Binding,
    /// Every locator is registered; the statement waits for the engine.
    Executing,
    /// The statement was executed.
    Done,
    /// The invocation ended with this failure.
    Failed(SaError),
}

/// What the driver is asked to do.
#[derive(Debug, PartialEq, Eq)]
pub enum SaAction {
    /// Set up the store of the plan, if it names one, file it under its root,
    /// and sample the schema of the source. Report `StoreFailed` if the store
    /// could not be set up, else `Sampled` or `BindFailed`.
    Bind(BindPlan),
    /// Submit the statement to the engine. Report `Executed` or
    /// `ExecutionFailed`.
    Execute(String),
    /// Nothing: the statement was executed.
    Finish,
    /// Nothing: the invocation failed.
    Abort(SaError),
}

/// What an action holds.
pub enum SaActionView {
    Bind(BindPlanView),
    Execute(Seq<char>),
    Finish,
    Abort(SaError),
}

impl View for SaAction {
    type V = SaActionView;

    open spec fn view(&self) -> SaActionView {
        match self {
            SaAction::Bind(plan) => SaActionView::Bind(plan@),
            SaAction::Execute(stm) => SaActionView::Execute(stm@),
            SaAction::Finish => SaActionView::Finish,
            SaAction::Abort(e) => SaActionView::Abort(*e),
        }
    }
}

/// What the driver reports.
#[derive(Debug)]
pub enum SaEvent {
    /// Sampling the source gave this schema.
    Sampled(TableSchema),
    /// The store of the source could not be set up; nothing was filed.
    StoreFailed,
    /// The source could not be bound. Its store, if it has one, was filed
    /// before.
    BindFailed(SaError),
    /// The engine executed the statement.
    Executed,
    /// The engine could not execute the statement.
    ExecutionFailed,
}

/// What an event holds.
pub enum SaEventView {
    Sampled(Seq<FieldView>),
    StoreFailed,
    BindFailed(SaError),
    Executed,
    ExecutionFailed,
}

impl View for SaEvent {
    type V = SaEventView;

    open spec fn view(&self) -> SaEventView {
        match self {
            SaEvent::Sampled(schema) => SaEventView::Sampled(schema@),
            SaEvent::StoreFailed => SaEventView::StoreFailed,
            SaEvent::BindFailed(e) => SaEventView::BindFailed(*e),
            SaEvent::Executed => SaEventView::Executed,
            SaEvent::ExecutionFailed => SaEventView::ExecutionFailed,
        }
    }
}

/// An invocation, as the contracts see it.
pub struct SaQueryView {
    /// The statement, as it was handed in.
    pub stm: Seq<char>,
    /// The locators of the statement, in order of appearance.
    pub uris: Seq<Seq<char>>,
    /// How many of them are registered.
    pub registered: int,
    /// The region of remote stores.
    pub region: Seq<char>,
    /// Where the invocation stands.
    pub stage: Stage,
    /// The tables of the session.
    pub tables: Map<Seq<char>, TableHandleView>,
    /// The store clients of the session.
    pub object_stores: Map<Seq<char>, StoreClientView>,
}

/// The stage of an invocation in which `registered` locators are registered
/// and nothing has failed: executing when none is left, else binding the next
/// one, unless it cannot be planned.
pub open spec fn spec_stage_at(uris: Seq<Seq<char>>, registered: int, region: Seq<char>) -> Stage {
    if registered >= uris.len() {
        Stage::Executing
    } else {
        match spec_plan(uris[registered], region) {
            Ok(_) => Stage::Binding,
            Err(e) => Stage::Failed(e),
        }
    }
}

/// The invocation for `stm` on a session with the given tables and store
/// clients, before any event.
pub open spec fn spec_start(
    stm: Seq<char>,
    region: Seq<char>,
    tables: Map<Seq<char>, TableHandleView>,
    object_stores: Map<Seq<char>, StoreClientView>,
) -> SaQueryView {
    SaQueryView {
        stm,
        uris: spec_sql_parser(stm),
        registered: 0,
        region,
        stage: spec_stage_at(spec_sql_parser(stm), 0, region),
        tables,
        object_stores,
    }
}

/// The table that the plan binds, given the sample of its source: every column
/// is text.
pub open spec fn spec_bound_table(plan: BindPlanView, sampled: Seq<FieldView>) -> TableHandleView {
    TableHandleView {
        file_url: plan.uri,
        file_format: plan.file_format,
        schema: spec_normalize(sampled, true),
    }
}

/// The store clients after the store of the plan was filed.
pub open spec fn spec_stores_after(
    object_stores: Map<Seq<char>, StoreClientView>,
    plan: BindPlanView,
) -> Map<Seq<char>, StoreClientView> {
    match plan.store {
        Some(store) => object_stores.insert(
            store.url_root,
            StoreClientView { region: store.region, bucket: store.bucket },
        ),
        None => object_stores,
    }
}

/// The store clients once the store of the locator in turn is filed.
pub open spec fn spec_stores_filed(q: SaQueryView) -> Map<Seq<char>, StoreClientView> {
    if 0 <= q.registered < q.uris.len() {
        match spec_plan(q.uris[q.registered], q.region) {
            Ok(plan) => spec_stores_after(q.object_stores, plan),
            Err(_) => q.object_stores,
        }
    } else {
        q.object_stores
    }
}

/// The invocation after an event. A store that was set up stays filed
/// whatever becomes of the bind. An event that the stage did not ask for
/// changes nothing.
pub open spec fn spec_on_event(q: SaQueryView, event: SaEventView) -> SaQueryView {
    match (q.stage, event) {
        (Stage::Binding, SaEventView::Sampled(sampled)) => match spec_plan(
            q.uris[q.registered],
            q.region,
        ) {
            Ok(plan) => if sampled.len() == 0 {
                SaQueryView {
                    stage: Stage::Failed(SaError::SchemaInferenceError),
                    object_stores: spec_stores_after(q.object_stores, plan),
                    ..q
                }
            } else {
                SaQueryView {
                    registered: q.registered + 1,
                    stage: spec_stage_at(q.uris, q.registered + 1, q.region),
                    tables: q.tables.insert(
                        spec_table_name(plan.uri),
                        spec_bound_table(plan, sampled),
                    ),
                    object_stores: spec_stores_after(q.object_stores, plan),
                    ..q
                }
            },
            Err(_) => q,
        },
        (Stage::Binding, SaEventView::StoreFailed) => SaQueryView {
            stage: Stage::Failed(SaError::RemoteStoreError),
            ..q
        },
        (Stage::Binding, SaEventView::BindFailed(e)) => SaQueryView {
            stage: Stage::Failed(e),
            object_stores: spec_stores_filed(q),
            ..q
        },
        (Stage::Executing, SaEventView::Executed) => SaQueryView { stage: Stage::Done, ..q },
        (Stage::Executing, SaEventView::ExecutionFailed) => SaQueryView {
            stage: Stage::Failed(SaError::ExecutionError),
            ..q
        },
        _ => q,
    }
}

/// What the driver is asked to do in a stage.
pub open spec fn spec_action(q: SaQueryView) -> SaActionView {
    match q.stage {
        Stage::Binding => match spec_plan(q.uris[q.registered], q.region) {
            Ok(plan) => SaActionView::Bind(plan),
            Err(e) => SaActionView::Abort(e),
        },
        Stage::Executing => SaActionView::Execute(q.stm),
        Stage::Done => SaActionView::Finish,
        Stage::Failed(e) => SaActionView::Abort(e),
    }
}

/// The locator at which a failed invocation failed, if it failed at one.
pub open spec fn spec_failed_locator(q: SaQueryView) -> Option<Seq<char>> {
    match q.stage {
        Stage::Failed(_) => if 0 <= q.registered < q.uris.len() {
            Some(q.uris[q.registered])
        } else {
            None
        },
        _ => None,
    }
}

/// One invocation of the pipeline: a statement, its locators, and the session
/// in which they are registered.
pub struct SaQuery {
    sa_datafusion: SaDataFusion,
    stm: String,
    uris: Vec<String>,
    registered: usize,
    region: String,
    stage: Stage,
}

impl View for SaQuery {
    type V = SaQueryView;

    closed spec fn view(&self) -> SaQueryView {
        SaQueryView {
            stm: self.stm@,
            uris: strings_view(self.uris@),
            registered: self.registered as int,
            region: self.region@,
            stage: self.stage,
            tables: self.sa_datafusion.tables(),
            object_stores: self.sa_datafusion.object_stores(),
        }
    }
}

/// The stage of `q` is the one that its locators, its progress and its past
/// failure call for.
pub open spec fn stage_fits(q: SaQueryView) -> bool {
    &&& 0 <= q.registered <= q.uris.len()
    &&& q.uris == spec_sql_parser(q.stm)
    &&& match q.stage {
        Stage::Binding => spec_stage_at(q.uris, q.registered, q.region) == Stage::Binding,
        Stage::Executing => q.registered == q.uris.len(),
        Stage::Done => q.registered == q.uris.len(),
        Stage::Failed(_) => true,
    }
}

impl SaQuery {
    /// The invocation is well formed: its session is, and its stage fits.
    pub closed spec fn wf(&self) -> bool {
        self.sa_datafusion.wf() && stage_fits(self@)
    }

    /// Where the invocation stands.
    pub fn stage(&self) -> (r: Stage)
        ensures
            r == self@.stage,
    {
        self.stage
    }

    /// The locators of the statement, in order of appearance.
    pub fn uris(&self) -> (r: &Vec<String>)
        ensures
            strings_view(r@) == self@.uris,
    {
        &self.uris
    }

    /// How many locators are registered.
    pub fn registered(&self) -> (r: usize)
        ensures
            r == self@.registered,
    {
        self.registered
    }

    /// The locator at which the invocation failed: the one that was to be
    /// bound when the failure came. None where nothing failed, or where the
    /// failure came from the statement itself.
    pub fn failed_locator(&self) -> (r: Option<&str>)
        requires
            self.wf(),
        ensures
            match r {
                Some(uri) => spec_failed_locator(self@) == Some(uri@),
                None => spec_failed_locator(self@).is_none(),
            },
    {
        match self.stage {
            Stage::Failed(_) => if self.registered < self.uris.len() {
                Some(self.uris[self.registered].as_str())
            } else {
                None
            },
            _ => None,
        }
    }

    /// The session of the invocation.
    pub fn session(&self) -> (r: &SaDataFusion)
        ensures
            r.tables() == self@.tables,
            r.object_stores() == self@.object_stores,
            self.wf() ==> r.wf(),
    {
        &self.sa_datafusion
    }

    /// Ends the invocation and hands the session back.
    pub fn into_session(self) -> (r: SaDataFusion)
        ensures
            r.tables() == self@.tables,
            r.object_stores() == self@.object_stores,
            self.wf() ==> r.wf(),
    {
        self.sa_datafusion
    }

    /// The stage for the locator at `registered`, nothing having failed.
    fn stage_at(uris: &Vec<String>, registered: usize, region: &str) -> (r: Stage)
        ensures
            r == spec_stage_at(strings_view(uris@), registered as int, region@),
    {
        if registered >= uris.len() {
            Stage::Executing
        } else {
            match plan_bind(uris[registered].as_str(), region) {
                Ok(_) => Stage::Binding,
                Err(e) => Stage::Failed(e),
            }
        }
    }

    /// What the driver is to do next.
    pub fn next_action(&self) -> (r: SaAction)
        requires
            self.wf(),
        ensures
            r@ == spec_action(self@),
    {
        match self.stage {
            Stage::Binding => match plan_bind(
                self.uris[self.registered].as_str(),
                self.region.as_str(),
            ) {
                Ok(plan) => SaAction::Bind(plan),
                Err(e) => SaAction::Abort(e),
            },
            Stage::Executing => SaAction::Execute(self.stm.clone()),
            Stage::Done => SaAction::Finish,
            Stage::Failed(e) => SaAction::Abort(e),
        }
    }

    /// Takes in what the driver reports. A sample binds the locator in turn,
    /// with every column as text, and registers its table; the invocation then
    /// moves on to the next locator, or to the statement when none is left. A
    /// failure ends the invocation. An event that was not asked for changes
    /// nothing.
    pub fn on_event(self, event: SaEvent) -> (r: SaQuery)
        requires
            self.wf(),
        ensures
            r.wf(),
            stage_fits(r@),
            r@ == spec_on_event(self@, event@),
    {
        let SaQuery { sa_datafusion, stm, uris, registered, region, stage } = self;
        let mut sa_datafusion = sa_datafusion;
        match (stage, event) {
            (Stage::Binding, SaEvent::Sampled(sampled)) => {
                let plan = match plan_bind(uris[registered].as_str(), region.as_str()) {
                    Ok(plan) => plan,
                    Err(_) => {
                        return SaQuery { sa_datafusion, stm, uris, registered, region, stage };
                    },
                };
                let bound = match plan.protocol {
                    Protocol::Local => {
                        let local = SaLocalStorage::new_with_file_uri(plan.uri.as_str());
                        match local.init_table_provider(plan.file_format, Some(false), &sampled) {
                            Ok(local) => sa_datafusion.register_sa_storage(&local),
                            Err(e) => Err(e),
                        }
                    },
                    Protocol::Remote => match SaS3::new_from_s3_uri(plan.uri.as_str()) {
                        Ok(s3) => match s3.init_table_provider(
                            region.as_str(),
                            &mut sa_datafusion,
                            plan.file_format,
                            Some(false),
                            &sampled,
                        ) {
                            Ok(s3) => sa_datafusion.register_sa_storage(&s3),
                            Err(e) => Err(e),
                        },
                        Err(e) => Err(e),
                    },
                };
                match bound {
                    Ok(()) => {
                        let count = uris.len();
                        assert(registered < count);
                        let registered = registered + 1;
                        let stage = Self::stage_at(&uris, registered, region.as_str());
                        SaQuery { sa_datafusion, stm, uris, registered, region, stage }
                    },
                    Err(e) => SaQuery {
                        sa_datafusion,
                        stm,
                        uris,
                        registered,
                        region,
                        stage: Stage::Failed(e),
                    },
                }
            },
            (Stage::Binding, SaEvent::StoreFailed) => SaQuery {
                sa_datafusion,
                stm,
                uris,
                registered,
                region,
                stage: Stage::Failed(SaError::RemoteStoreError),
            },
            (Stage::Binding, SaEvent::BindFailed(e)) => {
                match plan_bind(uris[registered].as_str(), region.as_str()) {
                    Ok(BindPlan { store: Some(store), .. }) => {
                        let client = StoreClient::new(store.region.as_str(), store.bucket.as_str());
                        let _ = sa_datafusion.ctx.register_store(store.url_root.as_str(), client);
                    },
                    _ => {},
                }
                SaQuery { sa_datafusion, stm, uris, registered, region, stage: Stage::Failed(e) }
            },
            (Stage::Executing, SaEvent::Executed) => SaQuery {
                sa_datafusion,
                stm,
                uris,
                registered,
                region,
                stage: Stage::Done,
            },
            (Stage::Executing, SaEvent::ExecutionFailed) => SaQuery {
                sa_datafusion,
                stm,
                uris,
                registered,
                region,
                stage: Stage::Failed(SaError::ExecutionError),
            },
            _ => SaQuery { sa_datafusion, stm, uris, registered, region, stage },
        }
    }
}

/// Starts an invocation for the statement `stm` on the session
/// `sa_datafusion`: finds the locators of the statement and plans the first
/// one. Remote stores are set up in `s3_region`, or in `us-east-1` where no
/// region is given.
pub fn sa_query(sa_datafusion: SaDataFusion, stm: &str, s3_region: Option<&str>) -> (r: SaQuery)
    requires
        sa_datafusion.wf(),
    ensures
        r.wf(),
        stage_fits(r@),
        r@ == spec_start(
            stm@,
            spec_region_or_default(
                match s3_region {
                    Some(region) => Some(region@),
                    None => None,
                },
            ),
            sa_datafusion.tables(),
            sa_datafusion.object_stores(),
        ),
{
    let found = sql_parser(stm);
    let mut uris: Vec<String> = Vec::new();
    let mut i: usize = 0;
    while i < found.len()
        invariant
            i <= found@.len(),
            uris@.len() == i,
            forall|k: int| 0 <= k < i ==> (#[trigger] uris@[k])@ == found@[k]@,
        decreases found.len() - i,
    {
        uris.push(String::from_str(found[i]));
        i += 1;
    }
    assert(strings_view(uris@) =~= strs_view(found@));
    let region = SaS3::region_or_default(s3_region);
    let stage = SaQuery::stage_at(&uris, 0, region.as_str());
    SaQuery { sa_datafusion, stm: String::from_str(stm), uris, registered: 0, region, stage }
}

/// The invocation after a sequence of events, taken in one after the other.
pub open spec fn spec_run(q: SaQueryView, events: Seq<SaEventView>) -> SaQueryView
    decreases events.len(),
{
    if events.len() == 0 {
        q
    } else {
        spec_on_event(spec_run(q, events.drop_last()), events.last())
    }
}

/// A statement without any quoted, protocol-prefixed substring is executed at
/// once, as it was written, and nothing is registered for it: the session
/// holds what it held.
pub proof fn law_statement_without_locators(
    stm: Seq<char>,
    region: Seq<char>,
    tables: Map<Seq<char>, TableHandleView>,
    object_stores: Map<Seq<char>, StoreClientView>,
)
    requires
        forall|open: int, close: int| !is_locator_between(stm, open, close),
    ensures
        spec_start(stm, region, tables, object_stores).uris.len() == 0,
        spec_start(stm, region, tables, object_stores).registered == 0,
        spec_start(stm, region, tables, object_stores).stage == Stage::Executing,
        spec_start(stm, region, tables, object_stores).tables == tables,
        spec_start(stm, region, tables, object_stores).object_stores == object_stores,
        spec_action(spec_start(stm, region, tables, object_stores)) == SaActionView::Execute(stm),
{
    law_no_locator_iff_empty(stm);
}

/// The stage of an invocation fits at its start and after every event.
pub proof fn law_stage_always_fits(
    stm: Seq<char>,
    region: Seq<char>,
    tables: Map<Seq<char>, TableHandleView>,
    object_stores: Map<Seq<char>, StoreClientView>,
    events: Seq<SaEventView>,
)
    ensures
        stage_fits(spec_run(spec_start(stm, region, tables, object_stores), events)),
    decreases events.len(),
{
    if events.len() > 0 {
        law_stage_always_fits(stm, region, tables, object_stores, events.drop_last());
    }
}

/// The statement is submitted only when every locator of the statement is
/// registered, and it is submitted as it was written.
pub proof fn law_execute_after_all_registered(q: SaQueryView, submitted: Seq<char>)
    requires
        stage_fits(q),
        spec_action(q) == SaActionView::Execute(submitted),
    ensures
        submitted == q.stm,
        q.registered == spec_sql_parser(q.stm).len(),
{
}

/// Locators are bound in the order in which the statement names them: the
/// locator to bind is the one that follows those already registered.
pub proof fn law_bind_in_order(q: SaQueryView, plan: BindPlanView)
    requires
        stage_fits(q),
        spec_action(q) == SaActionView::Bind(plan),
    ensures
        0 <= q.registered < spec_sql_parser(q.stm).len(),
        plan.uri == spec_sql_parser(q.stm)[q.registered],
        spec_plan(plan.uri, q.region) == Ok::<BindPlanView, SaError>(plan),
{
}

/// An event registers at most one locator, and never takes a registration
/// back: every table that was registered stays registered or is replaced.
pub proof fn law_one_step_at_a_time(q: SaQueryView, event: SaEventView)
    ensures
        q.registered <= spec_on_event(q, event).registered <= q.registered + 1,
        spec_on_event(q, event).stm == q.stm,
        spec_on_event(q, event).uris == q.uris,
        forall|name: Seq<char>|
            q.tables.contains_key(name) ==> spec_on_event(q, event).tables.contains_key(name),
        forall|root: Seq<char>|
            q.object_stores.contains_key(root) ==> spec_on_event(
                q,
                event,
            ).object_stores.contains_key(root),
{
}

/// A failure is final: whatever is reported afterwards, the invocation stays
/// failed with the same error, the session stays as it was, and the driver is
/// never asked to execute the statement.
pub proof fn law_failure_is_final(q: SaQueryView, e: SaError, events: Seq<SaEventView>)
    requires
        q.stage == Stage::Failed(e),
    ensures
        spec_run(q, events) == q,
        spec_action(spec_run(q, events)) == SaActionView::Abort(e),
    decreases events.len(),
{
    if events.len() > 0 {
        law_failure_is_final(q, e, events.drop_last());
    }
}

/// A source that cannot be bound ends the invocation: the failure is the one
/// that was reported, no table is registered for the source, and whatever is
/// reported afterwards the statement is not executed. The store of a remote
/// source stays filed.
pub proof fn law_bind_failure_aborts(q: SaQueryView, e: SaError, later: Seq<SaEventView>)
    requires
        q.stage == Stage::Binding,
    ensures
        spec_on_event(q, SaEventView::BindFailed(e)).stage == Stage::Failed(e),
        spec_on_event(q, SaEventView::BindFailed(e)).tables == q.tables,
        spec_on_event(q, SaEventView::BindFailed(e)).registered == q.registered,
        spec_on_event(q, SaEventView::BindFailed(e)).object_stores == spec_stores_filed(q),
        spec_action(spec_run(spec_on_event(q, SaEventView::BindFailed(e)), later))
            == SaActionView::Abort(e),
{
    law_failure_is_final(spec_on_event(q, SaEventView::BindFailed(e)), e, later);
}

/// A statement whose first locator can be planned but not bound is never
/// executed: the invocation waits for that locator, the reported failure ends
/// it, no table is registered, and whatever is reported afterwards the driver
/// is told to abort with that failure.
pub proof fn law_unbound_source_is_never_executed(
    stm: Seq<char>,
    region: Seq<char>,
    tables: Map<Seq<char>, TableHandleView>,
    object_stores: Map<Seq<char>, StoreClientView>,
    e: SaError,
    later: Seq<SaEventView>,
)
    requires
        spec_sql_parser(stm).len() > 0,
        spec_plan(spec_sql_parser(stm)[0], region).is_ok(),
    ensures
        spec_start(stm, region, tables, object_stores).stage == Stage::Binding,
        spec_action(
            spec_run(
                spec_on_event(
                    spec_start(stm, region, tables, object_stores),
                    SaEventView::BindFailed(e),
                ),
                later,
            ),
        ) == SaActionView::Abort(e),
        spec_run(
            spec_on_event(spec_start(stm, region, tables, object_stores), SaEventView::BindFailed(e)),
            later,
        ).tables == tables,
        spec_plan(spec_sql_parser(stm)[0], region).unwrap().store.is_none() ==> spec_run(
            spec_on_event(spec_start(stm, region, tables, object_stores), SaEventView::BindFailed(e)),
            later,
        ).object_stores == object_stores,
{
    let start = spec_start(stm, region, tables, object_stores);
    law_bind_failure_aborts(start, e, later);
    law_failure_is_final(spec_on_event(start, SaEventView::BindFailed(e)), e, later);
}

} // verus!
