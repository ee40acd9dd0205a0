//! The hierarchical store: a [`DB`] owns named [`Workflow`]s, and each
//! workflow owns four independent name-keyed collections of entities that
//! keep append-only event logs.
//!
//! Every fallible operation reports [`DBERROR::DataAlreadyExist`] when an
//! `add_*` meets a name that is already taken in the targeted collection and
//! [`DBERROR::DataNotExist`] when a `get_*` misses; nothing here panics and
//! nothing mutates on failure.

use crate::name_table::NameTable;
use crate::numeric::{BigNumber, Datatype};
use vstd::prelude::*;

verus! {

/// The two error kinds of the store.
#[derive(Clone, Copy, Debug, PartialEq, Eq, Structural)]
pub enum DBERROR {
    /// An `add_*` operation met a name that is already present.
    DataAlreadyExist,
    /// A `get_*` operation met a name that is absent.
    DataNotExist,
}

/// Outcome of a store operation.
pub type DBResult<T> = Result<T, DBERROR>;

/// A queue-join log viewed with each user name as a character sequence.
pub open spec fn user_log_view(s: Seq<(String, BigNumber, BigNumber)>) -> Seq<
    (Seq<char>, BigNumber, BigNumber),
> {
    s.map_values(|t: (String, BigNumber, BigNumber)| (t.0@, t.1, t.2))
}

/// A user/time log viewed with each user name as a character sequence.
pub open spec fn stamp_log_view(s: Seq<(String, BigNumber)>) -> Seq<(Seq<char>, BigNumber)> {
    s.map_values(|t: (String, BigNumber)| (t.0@, t.1))
}

/// A put/get log viewed with each user name as a character sequence.
pub open spec fn amount_log_view(s: Seq<(BigNumber, BigNumber, BigNumber, String)>) -> Seq<
    (BigNumber, BigNumber, BigNumber, Seq<char>),
> {
    s.map_values(|t: (BigNumber, BigNumber, BigNumber, String)| (t.0, t.1, t.2, t.3@))
}

/// A mapping from field name to a typed default value, attached to every
/// structural entity as an extension point.
#[derive(Debug)]
pub struct DefaultData {
    datatype: NameTable<Datatype>,
}

impl DefaultData {
    /// The stored field/value pairs.
    pub closed spec fn entries(&self) -> Map<Seq<char>, Datatype> {
        self.datatype@
    }

    /// Creates an empty mapping.
    pub fn new() -> (r: DefaultData)
        ensures
            r.entries() == Map::<Seq<char>, Datatype>::empty(),
    {
        DefaultData { datatype: NameTable::new() }
    }

    /// Inserts or overwrites the typed default stored under a field name:
    /// the last write wins.
    pub fn set(&mut self, key: &str, value: Datatype)
        ensures
            final(self).entries() == old(self).entries().insert(key@, value),
    {
        self.datatype.insert(key.to_owned(), value);
    }

    /// Reads the typed default stored under a field name.
    pub fn get<'a>(&'a self, key: &str) -> (r: Option<&'a Datatype>)
        ensures
            match r {
                Some(v) => self.entries().contains_key(key@) && *v == self.entries()[key@],
                None => !self.entries().contains_key(key@),
            },
    {
        self.datatype.get(key)
    }
}

/// Reserved per-resource metadata; initialized and otherwise inert.
#[derive(Clone, Copy, Debug, PartialEq, Eq, Structural)]
pub struct ResInfo {
    /// Reserved aggregate: never computed by the store.
    pub avg_time: BigNumber,
    /// Reserved aggregate: never computed by the store.
    pub no_of_users: i64,
    /// Reserved aggregate: never computed by the store.
    pub leave: BigNumber,
    /// Whether raw logs are retained.
    pub rawstore: bool,
    /// Whether analysis is enabled.
    pub analysis: bool,
}

/// The reserved defaults every fresh [`ResInfo`] carries.
pub open spec fn initial_res_info() -> ResInfo {
    ResInfo {
        avg_time: BigNumber::Int(0),
        no_of_users: 0,
        leave: BigNumber::Int(0),
        rawstore: true,
        analysis: true,
    }
}

/// Reserved per-container metadata; initialized and otherwise inert.
#[derive(Clone, Copy, Debug, PartialEq, Eq, Structural)]
pub struct ContInfo {
    /// Reserved aggregate: never computed by the store.
    pub top_get_amount: BigNumber,
    /// Reserved aggregate: never computed by the store.
    pub top_put_amount: BigNumber,
    /// Reserved aggregate: never computed by the store.
    pub clear_times: i64,
    /// Whether raw logs are retained.
    pub rawstore: bool,
    /// Whether analysis is enabled.
    pub analysis: bool,
}

/// The reserved defaults every fresh [`ContInfo`] carries.
pub open spec fn initial_cont_info() -> ContInfo {
    ContInfo {
        top_get_amount: BigNumber::Int(0),
        top_put_amount: BigNumber::Int(0),
        clear_times: 0,
        rawstore: true,
        analysis: true,
    }
}

/// Reserved per-store metadata; initialized and otherwise inert.
#[derive(Clone, Copy, Debug, PartialEq, Eq, Structural)]
pub struct StoreInfo {
    /// Reserved aggregate: never computed by the store.
    pub top_get_amount: BigNumber,
    /// Reserved aggregate: never computed by the store.
    pub top_put_amount: BigNumber,
    /// Reserved aggregate: never computed by the store.
    pub clear_times: i64,
    /// Whether raw logs are retained.
    pub rawstore: bool,
    /// Whether analysis is enabled.
    pub analysis: bool,
}

/// The reserved defaults every fresh [`StoreInfo`] carries.
pub open spec fn initial_store_info() -> StoreInfo {
    StoreInfo {
        top_get_amount: BigNumber::Int(0),
        top_put_amount: BigNumber::Int(0),
        clear_times: 0,
        rawstore: true,
        analysis: true,
    }
}

/// Reserved per-workflow metadata; initialized and otherwise inert.
#[derive(Clone, Copy, Debug, PartialEq, Eq, Structural)]
pub struct WorkflowInfo {
    /// Reserved field: never computed by the store.
    pub resinfo: BigNumber,
}

/// The reserved default every fresh [`WorkflowInfo`] carries.
pub open spec fn initial_workflow_info() -> WorkflowInfo {
    WorkflowInfo { resinfo: BigNumber::Int(0) }
}

/// An entity tracking user queue-join, enter and leave events.
#[derive(Debug)]
pub struct Resource {
    user_time: Vec<(String, BigNumber, BigNumber)>,
    enter_time: Vec<(String, BigNumber)>,
    leave_time: Vec<(String, BigNumber)>,
    default_data: DefaultData,
    res_info: ResInfo,
}

impl Resource {
    /// The queue-join log: (user, join time, queue length), in append order.
    pub closed spec fn user_log(&self) -> Seq<(Seq<char>, BigNumber, BigNumber)> {
        user_log_view(self.user_time@)
    }

    /// The enter log: (user, enter time), in append order.
    pub closed spec fn enter_log(&self) -> Seq<(Seq<char>, BigNumber)> {
        stamp_log_view(self.enter_time@)
    }

    /// The leave log: (user, leave time), in append order.
    pub closed spec fn leave_log(&self) -> Seq<(Seq<char>, BigNumber)> {
        stamp_log_view(self.leave_time@)
    }

    /// The typed defaults attached to this resource.
    pub closed spec fn defaults(&self) -> Map<Seq<char>, Datatype> {
        self.default_data.entries()
    }

    /// The reserved metadata block.
    pub closed spec fn info(&self) -> ResInfo {
        self.res_info
    }

    /// A freshly constructed resource: empty logs, empty defaults, reserved
    /// metadata at its initial values.
    pub open spec fn is_fresh(&self) -> bool {
        &&& self.user_log().len() == 0
        &&& self.enter_log().len() == 0
        &&& self.leave_log().len() == 0
        &&& self.defaults() == Map::<Seq<char>, Datatype>::empty()
        &&& self.info() == initial_res_info()
    }

    /// Creates a resource with empty logs.
    pub fn new() -> (r: Resource)
        ensures
            r.is_fresh(),
    {
        Resource {
            user_time: Vec::new(),
            enter_time: Vec::new(),
            leave_time: Vec::new(),
            default_data: DefaultData::new(),
            res_info: ResInfo {
                avg_time: BigNumber::Int(0),
                no_of_users: 0,
                leave: BigNumber::Int(0),
                rawstore: true,
                analysis: true,
            },
        }
    }

    /// Appends a queue-join event; repeated users and times are allowed.
    pub fn add_user_time(
        &mut self,
        user: &str,
        queue_join_time: BigNumber,
        queue_length: BigNumber,
    ) -> (r: DBResult<()>)
        ensures
            r == Ok::<(), DBERROR>(()),
            final(self).user_log() == old(self).user_log().push(
                (user@, queue_join_time, queue_length),
            ),
            final(self).enter_log() == old(self).enter_log(),
            final(self).leave_log() == old(self).leave_log(),
            final(self).defaults() == old(self).defaults(),
            final(self).info() == old(self).info(),
    {
        self.user_time.push((user.to_owned(), queue_join_time, queue_length));
        proof {
            assert(self.user_log() =~= old(self).user_log().push(
                (user@, queue_join_time, queue_length),
            ));
        }
        Ok(())
    }

    /// Appends an enter event.
    pub fn add_enter_time(&mut self, user: &str, enter_time: BigNumber) -> (r: DBResult<()>)
        ensures
            r == Ok::<(), DBERROR>(()),
            final(self).enter_log() == old(self).enter_log().push((user@, enter_time)),
            final(self).user_log() == old(self).user_log(),
            final(self).leave_log() == old(self).leave_log(),
            final(self).defaults() == old(self).defaults(),
            final(self).info() == old(self).info(),
    {
        self.enter_time.push((user.to_owned(), enter_time));
        proof {
            assert(self.enter_log() =~= old(self).enter_log().push((user@, enter_time)));
        }
        Ok(())
    }

    /// Appends a leave event.
    pub fn add_leave_time(&mut self, user: &str, leave_time: BigNumber) -> (r: DBResult<()>)
        ensures
            r == Ok::<(), DBERROR>(()),
            final(self).leave_log() == old(self).leave_log().push((user@, leave_time)),
            final(self).user_log() == old(self).user_log(),
            final(self).enter_log() == old(self).enter_log(),
            final(self).defaults() == old(self).defaults(),
            final(self).info() == old(self).info(),
    {
        self.leave_time.push((user.to_owned(), leave_time));
        proof {
            assert(self.leave_log() =~= old(self).leave_log().push((user@, leave_time)));
        }
        Ok(())
    }

    /// Reads the queue-join log, in append order.
    pub fn user_times(&self) -> (r: &Vec<(String, BigNumber, BigNumber)>)
        ensures
            user_log_view(r@) == self.user_log(),
    {
        &self.user_time
    }

    /// Reads the enter log, in append order.
    pub fn enter_times(&self) -> (r: &Vec<(String, BigNumber)>)
        ensures
            stamp_log_view(r@) == self.enter_log(),
    {
        &self.enter_time
    }

    /// Reads the leave log, in append order.
    pub fn leave_times(&self) -> (r: &Vec<(String, BigNumber)>)
        ensures
            stamp_log_view(r@) == self.leave_log(),
    {
        &self.leave_time
    }
}

/// An entity tracking put and get quantity events with a caller-supplied
/// running total.
#[derive(Debug)]
pub struct Container {
    put_time: Vec<(BigNumber, BigNumber, BigNumber, String)>,
    get_time: Vec<(BigNumber, BigNumber, BigNumber, String)>,
    default_data: DefaultData,
    cont_info: ContInfo,
}

impl Container {
    /// The put log: (time, amount, total after, user), in append order.
    pub closed spec fn put_log(&self) -> Seq<(BigNumber, BigNumber, BigNumber, Seq<char>)> {
        amount_log_view(self.put_time@)
    }

    /// The get log: (time, amount, total after, user), in append order.
    pub closed spec fn get_log(&self) -> Seq<(BigNumber, BigNumber, BigNumber, Seq<char>)> {
        amount_log_view(self.get_time@)
    }

    /// The typed defaults attached to this container.
    pub closed spec fn defaults(&self) -> Map<Seq<char>, Datatype> {
        self.default_data.entries()
    }

    /// The reserved metadata block.
    pub closed spec fn info(&self) -> ContInfo {
        self.cont_info
    }

    /// A freshly constructed container: empty logs, empty defaults, reserved
    /// metadata at its initial values.
    pub open spec fn is_fresh(&self) -> bool {
        &&& self.put_log().len() == 0
        &&& self.get_log().len() == 0
        &&& self.defaults() == Map::<Seq<char>, Datatype>::empty()
        &&& self.info() == initial_cont_info()
    }

    /// Creates a container with empty logs.
    pub fn new() -> (r: Container)
        ensures
            r.is_fresh(),
    {
        Container {
            put_time: Vec::new(),
            get_time: Vec::new(),
            default_data: DefaultData::new(),
            cont_info: ContInfo {
                top_get_amount: BigNumber::Int(0),
                top_put_amount: BigNumber::Int(0),
                clear_times: 0,
                rawstore: true,
                analysis: true,
            },
        }
    }

    /// Appends a put event; the total after the put is supplied by the
    /// caller, the store keeps no running total of its own.
    pub fn add_put_time(
        &mut self,
        put_time: BigNumber,
        put_amount: BigNumber,
        total_amount: BigNumber,
        user: &str,
    ) -> (r: DBResult<()>)
        ensures
            r == Ok::<(), DBERROR>(()),
            final(self).put_log() == old(self).put_log().push(
                (put_time, put_amount, total_amount, user@),
            ),
            final(self).get_log() == old(self).get_log(),
            final(self).defaults() == old(self).defaults(),
            final(self).info() == old(self).info(),
    {
        self.put_time.push((put_time, put_amount, total_amount, user.to_owned()));
        proof {
            assert(self.put_log() =~= old(self).put_log().push(
                (put_time, put_amount, total_amount, user@),
            ));
        }
        Ok(())
    }

    /// Appends a get event; the total after the get is supplied by the
    /// caller.
    pub fn add_get_time(
        &mut self,
        get_time: BigNumber,
        get_amount: BigNumber,
        total_amount: BigNumber,
        user: &str,
    ) -> (r: DBResult<()>)
        ensures
            r == Ok::<(), DBERROR>(()),
            final(self).get_log() == old(self).get_log().push(
                (get_time, get_amount, total_amount, user@),
            ),
            final(self).put_log() == old(self).put_log(),
            final(self).defaults() == old(self).defaults(),
            final(self).info() == old(self).info(),
    {
        self.get_time.push((get_time, get_amount, total_amount, user.to_owned()));
        proof {
            assert(self.get_log() =~= old(self).get_log().push(
                (get_time, get_amount, total_amount, user@),
            ));
        }
        Ok(())
    }

    /// Reads the put log, in append order.
    pub fn put_times(&self) -> (r: &Vec<(BigNumber, BigNumber, BigNumber, String)>)
        ensures
            amount_log_view(r@) == self.put_log(),
    {
        &self.put_time
    }

    /// Reads the get log, in append order.
    pub fn get_times(&self) -> (r: &Vec<(BigNumber, BigNumber, BigNumber, String)>)
        ensures
            amount_log_view(r@) == self.get_log(),
    {
        &self.get_time
    }
}

/// Structurally identical to [`Container`], but a semantically distinct
/// namespace: a workflow's containers and stores are queried separately.
#[derive(Debug)]
pub struct Store {
    put_time: Vec<(BigNumber, BigNumber, BigNumber, String)>,
    get_time: Vec<(BigNumber, BigNumber, BigNumber, String)>,
    default_data: DefaultData,
    store_info: StoreInfo,
}

impl Store {
    /// The put log: (time, amount, total after, user), in append order.
    pub closed spec fn put_log(&self) -> Seq<(BigNumber, BigNumber, BigNumber, Seq<char>)> {
        amount_log_view(self.put_time@)
    }

    /// The get log: (time, amount, total after, user), in append order.
    pub closed spec fn get_log(&self) -> Seq<(BigNumber, BigNumber, BigNumber, Seq<char>)> {
        amount_log_view(self.get_time@)
    }

    /// The typed defaults attached to this store entity.
    pub closed spec fn defaults(&self) -> Map<Seq<char>, Datatype> {
        self.default_data.entries()
    }

    /// The reserved metadata block.
    pub closed spec fn info(&self) -> StoreInfo {
        self.store_info
    }

    /// A freshly constructed store entity: empty logs, empty defaults,
    /// reserved metadata at its initial values.
    pub open spec fn is_fresh(&self) -> bool {
        &&& self.put_log().len() == 0
        &&& self.get_log().len() == 0
        &&& self.defaults() == Map::<Seq<char>, Datatype>::empty()
        &&& self.info() == initial_store_info()
    }

    /// Creates a store entity with empty logs.
    pub fn new() -> (r: Store)
        ensures
            r.is_fresh(),
    {
        Store {
            put_time: Vec::new(),
            get_time: Vec::new(),
            default_data: DefaultData::new(),
            store_info: StoreInfo {
                top_get_amount: BigNumber::Int(0),
                top_put_amount: BigNumber::Int(0),
                clear_times: 0,
                rawstore: true,
                analysis: true,
            },
        }
    }

    /// Appends a put event; the total after the put is supplied by the
    /// caller, the store keeps no running total of its own.
    pub fn add_put_time(
        &mut self,
        put_time: BigNumber,
        put_amount: BigNumber,
        total_amount: BigNumber,
        user: &str,
    ) -> (r: DBResult<()>)
        ensures
            r == Ok::<(), DBERROR>(()),
            final(self).put_log() == old(self).put_log().push(
                (put_time, put_amount, total_amount, user@),
            ),
            final(self).get_log() == old(self).get_log(),
            final(self).defaults() == old(self).defaults(),
            final(self).info() == old(self).info(),
    {
        self.put_time.push((put_time, put_amount, total_amount, user.to_owned()));
        proof {
            assert(self.put_log() =~= old(self).put_log().push(
                (put_time, put_amount, total_amount, user@),
            ));
        }
        Ok(())
    }

    /// Appends a get event; the total after the get is supplied by the
    /// caller.
    pub fn add_get_time(
        &mut self,
        get_time: BigNumber,
        get_amount: BigNumber,
        total_amount: BigNumber,
        user: &str,
    ) -> (r: DBResult<()>)
        ensures
            r == Ok::<(), DBERROR>(()),
            final(self).get_log() == old(self).get_log().push(
                (get_time, get_amount, total_amount, user@),
            ),
            final(self).put_log() == old(self).put_log(),
            final(self).defaults() == old(self).defaults(),
            final(self).info() == old(self).info(),
    {
        self.get_time.push((get_time, get_amount, total_amount, user.to_owned()));
        proof {
            assert(self.get_log() =~= old(self).get_log().push(
                (get_time, get_amount, total_amount, user@),
            ));
        }
        Ok(())
    }

    /// Reads the put log, in append order.
    pub fn put_times(&self) -> (r: &Vec<(BigNumber, BigNumber, BigNumber, String)>)
        ensures
            amount_log_view(r@) == self.put_log(),
    {
        &self.put_time
    }

    /// Reads the get log, in append order.
    pub fn get_times(&self) -> (r: &Vec<(BigNumber, BigNumber, BigNumber, String)>)
        ensures
            amount_log_view(r@) == self.get_log(),
    {
        &self.get_time
    }
}

/// A named, loosely typed placeholder entity for cases not covered by the
/// other entity kinds: a description and a typed-defaults map.
#[derive(Debug)]
pub struct CustomComponent {
    des: String,
    default_data: DefaultData,
}

impl CustomComponent {
    /// The description text.
    pub closed spec fn description_text(&self) -> Seq<char> {
        self.des@
    }

    /// The typed defaults attached to this component.
    pub closed spec fn defaults(&self) -> Map<Seq<char>, Datatype> {
        self.default_data.entries()
    }

    /// A freshly constructed component: empty description, empty defaults.
    pub open spec fn is_fresh(&self) -> bool {
        &&& self.description_text().len() == 0
        &&& self.defaults() == Map::<Seq<char>, Datatype>::empty()
    }

    /// Creates a component with an empty description.
    pub fn new() -> (r: CustomComponent)
        ensures
            r.is_fresh(),
    {
        CustomComponent { des: String::new(), default_data: DefaultData::new() }
    }

    /// Replaces the description text.
    pub fn set_description(&mut self, text: &str)
        ensures
            final(self).description_text() == text@,
            final(self).defaults() == old(self).defaults(),
    {
        self.des = text.to_owned();
    }

    /// Reads the description text.
    pub fn description(&self) -> (r: &str)
        ensures
            r@ == self.description_text(),
    {
        self.des.as_str()
    }

    /// Inserts or overwrites the typed default stored under a field name:
    /// the last write wins.
    pub fn default_data(&mut self, key: &str, datatype: Datatype)
        ensures
            final(self).defaults() == old(self).defaults().insert(key@, datatype),
            final(self).description_text() == old(self).description_text(),
    {
        self.default_data.set(key, datatype);
    }

    /// Reads the typed default stored under a field name.
    pub fn get_default<'a>(&'a self, key: &str) -> (r: Option<&'a Datatype>)
        ensures
            match r {
                Some(v) => self.defaults().contains_key(key@) && *v == self.defaults()[key@],
                None => !self.defaults().contains_key(key@),
            },
    {
        self.default_data.get(key)
    }
}

/// A named top-level grouping of simulation entities: four independent
/// name-keyed collections, one per entity kind.  The same name may be used
/// in two different collections; within one collection names are unique.
#[derive(Debug)]
pub struct Workflow {
    name: String,
    resource: NameTable<Resource>,
    container: NameTable<Container>,
    store: NameTable<Store>,
    custom: NameTable<CustomComponent>,
    default_data: DefaultData,
    workflow_info: WorkflowInfo,
}

impl Workflow {
    /// The workflow's own name.
    pub closed spec fn spec_name(&self) -> Seq<char> {
        self.name@
    }

    /// The resources, keyed by name.
    pub closed spec fn resources(&self) -> Map<Seq<char>, Resource> {
        self.resource@
    }

    /// The containers, keyed by name.
    pub closed spec fn containers(&self) -> Map<Seq<char>, Container> {
        self.container@
    }

    /// The store entities, keyed by name.
    pub closed spec fn stores(&self) -> Map<Seq<char>, Store> {
        self.store@
    }

    /// The custom components, keyed by name.
    pub closed spec fn customs(&self) -> Map<Seq<char>, CustomComponent> {
        self.custom@
    }

    /// The typed defaults attached to this workflow.
    pub closed spec fn defaults(&self) -> Map<Seq<char>, Datatype> {
        self.default_data.entries()
    }

    /// The reserved metadata block.
    pub closed spec fn info(&self) -> WorkflowInfo {
        self.workflow_info
    }

    /// A freshly constructed workflow: the given name, all four collections
    /// empty, empty defaults, reserved metadata at its initial value.
    pub open spec fn is_fresh(&self, name: Seq<char>) -> bool {
        &&& self.spec_name() == name
        &&& self.resources() == Map::<Seq<char>, Resource>::empty()
        &&& self.containers() == Map::<Seq<char>, Container>::empty()
        &&& self.stores() == Map::<Seq<char>, Store>::empty()
        &&& self.customs() == Map::<Seq<char>, CustomComponent>::empty()
        &&& self.defaults() == Map::<Seq<char>, Datatype>::empty()
        &&& self.info() == initial_workflow_info()
    }

    /// Everything but the resource collection is the same in both workflows.
    pub open spec fn same_but_resources(&self, other: &Workflow) -> bool {
        &&& self.spec_name() == other.spec_name()
        &&& self.containers() == other.containers()
        &&& self.stores() == other.stores()
        &&& self.customs() == other.customs()
        &&& self.defaults() == other.defaults()
        &&& self.info() == other.info()
    }

    /// Everything but the container collection is the same in both workflows.
    pub open spec fn same_but_containers(&self, other: &Workflow) -> bool {
        &&& self.spec_name() == other.spec_name()
        &&& self.resources() == other.resources()
        &&& self.stores() == other.stores()
        &&& self.customs() == other.customs()
        &&& self.defaults() == other.defaults()
        &&& self.info() == other.info()
    }

    /// Everything but the store collection is the same in both workflows.
    pub open spec fn same_but_stores(&self, other: &Workflow) -> bool {
        &&& self.spec_name() == other.spec_name()
        &&& self.resources() == other.resources()
        &&& self.containers() == other.containers()
        &&& self.customs() == other.customs()
        &&& self.defaults() == other.defaults()
        &&& self.info() == other.info()
    }

    /// Everything but the custom-component collection is the same in both
    /// workflows.
    pub open spec fn same_but_customs(&self, other: &Workflow) -> bool {
        &&& self.spec_name() == other.spec_name()
        &&& self.resources() == other.resources()
        &&& self.containers() == other.containers()
        &&& self.stores() == other.stores()
        &&& self.defaults() == other.defaults()
        &&& self.info() == other.info()
    }

    /// Creates a workflow with all four collections empty.
    pub fn new(name: &str) -> (r: Workflow)
        ensures
            r.is_fresh(name@),
    {
        Workflow {
            name: name.to_owned(),
            resource: NameTable::new(),
            container: NameTable::new(),
            store: NameTable::new(),
            custom: NameTable::new(),
            default_data: DefaultData::new(),
            workflow_info: WorkflowInfo { resinfo: BigNumber::Int(0) },
        }
    }

    /// Adds a fresh resource under a name not yet used by any resource of
    /// this workflow; a name used by another entity kind does not collide.
    pub fn add_resource(&mut self, name: &str) -> (r: DBResult<()>)
        ensures
            match r {
                Ok(()) => {
                    &&& !old(self).resources().contains_key(name@)
                    &&& final(self).resources() == old(self).resources().insert(
                        name@,
                        final(self).resources()[name@],
                    )
                    &&& final(self).resources()[name@].is_fresh()
                    &&& final(self).same_but_resources(old(self))
                },
                Err(e) => {
                    &&& e == DBERROR::DataAlreadyExist
                    &&& old(self).resources().contains_key(name@)
                    &&& *final(self) == *old(self)
                },
            },
    {
        if self.resource.contains_name(name) {
            return Err(DBERROR::DataAlreadyExist);
        }
        self.resource.insert(name.to_owned(), Resource::new());
        Ok(())
    }

    /// Adds a fresh container under a name not yet used by any container of
    /// this workflow.
    pub fn add_container(&mut self, name: &str) -> (r: DBResult<()>)
        ensures
            match r {
                Ok(()) => {
                    &&& !old(self).containers().contains_key(name@)
                    &&& final(self).containers() == old(self).containers().insert(
                        name@,
                        final(self).containers()[name@],
                    )
                    &&& final(self).containers()[name@].is_fresh()
                    &&& final(self).same_but_containers(old(self))
                },
                Err(e) => {
                    &&& e == DBERROR::DataAlreadyExist
                    &&& old(self).containers().contains_key(name@)
                    &&& *final(self) == *old(self)
                },
            },
    {
        if self.container.contains_name(name) {
            return Err(DBERROR::DataAlreadyExist);
        }
        self.container.insert(name.to_owned(), Container::new());
        Ok(())
    }

    /// Adds a fresh store entity under a name not yet used by any store of
    /// this workflow.
    pub fn add_store(&mut self, name: &str) -> (r: DBResult<()>)
        ensures
            match r {
                Ok(()) => {
                    &&& !old(self).stores().contains_key(name@)
                    &&& final(self).stores() == old(self).stores().insert(
                        name@,
                        final(self).stores()[name@],
                    )
                    &&& final(self).stores()[name@].is_fresh()
                    &&& final(self).same_but_stores(old(self))
                },
                Err(e) => {
                    &&& e == DBERROR::DataAlreadyExist
                    &&& old(self).stores().contains_key(name@)
                    &&& *final(self) == *old(self)
                },
            },
    {
        if self.store.contains_name(name) {
            return Err(DBERROR::DataAlreadyExist);
        }
        self.store.insert(name.to_owned(), Store::new());
        Ok(())
    }

    /// Adds a fresh custom component under a name not yet used by any custom
    /// component of this workflow.
    pub fn add_custom(&mut self, name: &str) -> (r: DBResult<()>)
        ensures
            match r {
                Ok(()) => {
                    &&& !old(self).customs().contains_key(name@)
                    &&& final(self).customs() == old(self).customs().insert(
                        name@,
                        final(self).customs()[name@],
                    )
                    &&& final(self).customs()[name@].is_fresh()
                    &&& final(self).same_but_customs(old(self))
                },
                Err(e) => {
                    &&& e == DBERROR::DataAlreadyExist
                    &&& old(self).customs().contains_key(name@)
                    &&& *final(self) == *old(self)
                },
            },
    {
        if self.custom.contains_name(name) {
            return Err(DBERROR::DataAlreadyExist);
        }
        self.custom.insert(name.to_owned(), CustomComponent::new());
        Ok(())
    }

    /// Looks a resource up by name.
    pub fn get_resource<'a>(&'a self, name: &str) -> (r: DBResult<&'a Resource>)
        ensures
            match r {
                Ok(v) => self.resources().contains_key(name@) && *v == self.resources()[name@],
                Err(e) => e == DBERROR::DataNotExist && !self.resources().contains_key(name@),
            },
    {
        match self.resource.get(name) {
            Some(v) => Ok(v),
            None => Err(DBERROR::DataNotExist),
        }
    }

    /// Looks a container up by name.
    pub fn get_container<'a>(&'a self, name: &str) -> (r: DBResult<&'a Container>)
        ensures
            match r {
                Ok(v) => self.containers().contains_key(name@) && *v == self.containers()[name@],
                Err(e) => e == DBERROR::DataNotExist && !self.containers().contains_key(name@),
            },
    {
        match self.container.get(name) {
            Some(v) => Ok(v),
            None => Err(DBERROR::DataNotExist),
        }
    }

    /// Looks a store entity up by name.
    pub fn get_store<'a>(&'a self, name: &str) -> (r: DBResult<&'a Store>)
        ensures
            match r {
                Ok(v) => self.stores().contains_key(name@) && *v == self.stores()[name@],
                Err(e) => e == DBERROR::DataNotExist && !self.stores().contains_key(name@),
            },
    {
        match self.store.get(name) {
            Some(v) => Ok(v),
            None => Err(DBERROR::DataNotExist),
        }
    }

    /// Looks a custom component up by name.
    pub fn get_custom<'a>(&'a self, name: &str) -> (r: DBResult<&'a CustomComponent>)
        ensures
            match r {
                Ok(v) => self.customs().contains_key(name@) && *v == self.customs()[name@],
                Err(e) => e == DBERROR::DataNotExist && !self.customs().contains_key(name@),
            },
    {
        match self.custom.get(name) {
            Some(v) => Ok(v),
            None => Err(DBERROR::DataNotExist),
        }
    }

    /// Looks a resource up by name for mutation; what the caller writes
    /// through the reference becomes the stored resource.
    pub fn get_mut_resource<'a>(&'a mut self, name: &str) -> (r: DBResult<&'a mut Resource>)
        ensures
            match r {
                Ok(v) => {
                    &&& old(self).resources().contains_key(name@)
                    &&& *v == old(self).resources()[name@]
                    &&& final(self).resources() == old(self).resources().insert(name@, *final(v))
                    &&& final(self).same_but_resources(old(self))
                },
                Err(e) => {
                    &&& e == DBERROR::DataNotExist
                    &&& !old(self).resources().contains_key(name@)
                    &&& *final(self) == *old(self)
                },
            },
    {
        match self.resource.get_mut(name) {
            Some(v) => Ok(v),
            None => Err(DBERROR::DataNotExist),
        }
    }

    /// Looks a container up by name for mutation.
    pub fn get_mut_container<'a>(&'a mut self, name: &str) -> (r: DBResult<&'a mut Container>)
        ensures
            match r {
                Ok(v) => {
                    &&& old(self).containers().contains_key(name@)
                    &&& *v == old(self).containers()[name@]
                    &&& final(self).containers() == old(self).containers().insert(
                        name@,
                        *final(v),
                    )
                    &&& final(self).same_but_containers(old(self))
                },
                Err(e) => {
                    &&& e == DBERROR::DataNotExist
                    &&& !old(self).containers().contains_key(name@)
                    &&& *final(self) == *old(self)
                },
            },
    {
        match self.container.get_mut(name) {
            Some(v) => Ok(v),
            None => Err(DBERROR::DataNotExist),
        }
    }

    /// Looks a store entity up by name for mutation.
    pub fn get_mut_store<'a>(&'a mut self, name: &str) -> (r: DBResult<&'a mut Store>)
        ensures
            match r {
                Ok(v) => {
                    &&& old(self).stores().contains_key(name@)
                    &&& *v == old(self).stores()[name@]
                    &&& final(self).stores() == old(self).stores().insert(name@, *final(v))
                    &&& final(self).same_but_stores(old(self))
                },
                Err(e) => {
                    &&& e == DBERROR::DataNotExist
                    &&& !old(self).stores().contains_key(name@)
                    &&& *final(self) == *old(self)
                },
            },
    {
        match self.store.get_mut(name) {
            Some(v) => Ok(v),
            None => Err(DBERROR::DataNotExist),
        }
    }

    /// Looks a custom component up by name for mutation.
    pub fn get_mut_custom<'a>(&'a mut self, name: &str) -> (r: DBResult<&'a mut CustomComponent>)
        ensures
            match r {
                Ok(v) => {
                    &&& old(self).customs().contains_key(name@)
                    &&& *v == old(self).customs()[name@]
                    &&& final(self).customs() == old(self).customs().insert(name@, *final(v))
                    &&& final(self).same_but_customs(old(self))
                },
                Err(e) => {
                    &&& e == DBERROR::DataNotExist
                    &&& !old(self).customs().contains_key(name@)
                    &&& *final(self) == *old(self)
                },
            },
    {
        match self.custom.get_mut(name) {
            Some(v) => Ok(v),
            None => Err(DBERROR::DataNotExist),
        }
    }
}

/// The root of the store: a named collection of workflows, a size counter
/// that no operation maintains, and two retained path strings against which
/// no input or output is ever performed.
#[derive(Debug)]
pub struct DB {
    name: String,
    data: NameTable<Workflow>,
    size_in_bytes: i64,
    raw_file_path: String,
    overview_file_path: String,
    default_data: DefaultData,
}

impl DB {
    /// The database's own name.
    pub closed spec fn spec_name(&self) -> Seq<char> {
        self.name@
    }

    /// The workflows, keyed by name.
    pub closed spec fn workflows(&self) -> Map<Seq<char>, Workflow> {
        self.data@
    }

    /// The declared byte-size counter; state only, maintained by nothing.
    pub closed spec fn spec_size_in_bytes(&self) -> i64 {
        self.size_in_bytes
    }

    /// The retained raw-file path string.
    pub closed spec fn raw_path(&self) -> Seq<char> {
        self.raw_file_path@
    }

    /// The retained overview-file path string.
    pub closed spec fn overview_path(&self) -> Seq<char> {
        self.overview_file_path@
    }

    /// The typed defaults attached to the database.
    pub closed spec fn defaults(&self) -> Map<Seq<char>, Datatype> {
        self.default_data.entries()
    }

    /// Everything but the workflow collection is the same in both databases.
    pub open spec fn same_but_workflows(&self, other: &DB) -> bool {
        &&& self.spec_name() == other.spec_name()
        &&& self.spec_size_in_bytes() == other.spec_size_in_bytes()
        &&& self.raw_path() == other.raw_path()
        &&& self.overview_path() == other.overview_path()
        &&& self.defaults() == other.defaults()
    }

    /// Creates an empty database; the two path strings are stored verbatim
    /// and no file is touched.
    pub fn new(name: &str, raw_file: &str, ov_file: &str) -> (r: DB)
        ensures
            r.spec_name() == name@,
            r.workflows() == Map::<Seq<char>, Workflow>::empty(),
            r.spec_size_in_bytes() == 0,
            r.raw_path() == raw_file@,
            r.overview_path() == ov_file@,
            r.defaults() == Map::<Seq<char>, Datatype>::empty(),
    {
        DB {
            name: name.to_owned(),
            data: NameTable::new(),
            size_in_bytes: 0,
            raw_file_path: raw_file.to_owned(),
            overview_file_path: ov_file.to_owned(),
            default_data: DefaultData::new(),
        }
    }

    /// Adds a fresh workflow under a name not yet used by any workflow.
    pub fn add_workflow(&mut self, name: &str) -> (r: DBResult<()>)
        ensures
            match r {
                Ok(()) => {
                    &&& !old(self).workflows().contains_key(name@)
                    &&& final(self).workflows() == old(self).workflows().insert(
                        name@,
                        final(self).workflows()[name@],
                    )
                    &&& final(self).workflows()[name@].is_fresh(name@)
                    &&& final(self).same_but_workflows(old(self))
                },
                Err(e) => {
                    &&& e == DBERROR::DataAlreadyExist
                    &&& old(self).workflows().contains_key(name@)
                    &&& *final(self) == *old(self)
                },
            },
    {
        if self.data.contains_name(name) {
            return Err(DBERROR::DataAlreadyExist);
        }
        self.data.insert(name.to_owned(), Workflow::new(name));
        Ok(())
    }

    /// Looks a workflow up by name.
    pub fn get_workflow<'a>(&'a self, name: &str) -> (r: DBResult<&'a Workflow>)
        ensures
            match r {
                Ok(w) => self.workflows().contains_key(name@) && *w == self.workflows()[name@],
                Err(e) => e == DBERROR::DataNotExist && !self.workflows().contains_key(name@),
            },
    {
        match self.data.get(name) {
            Some(w) => Ok(w),
            None => Err(DBERROR::DataNotExist),
        }
    }

    /// Looks a workflow up by name for mutation; what the caller writes
    /// through the reference becomes the stored workflow.
    pub fn get_mut_workflow<'a>(&'a mut self, name: &str) -> (r: DBResult<&'a mut Workflow>)
        ensures
            match r {
                Ok(w) => {
                    &&& old(self).workflows().contains_key(name@)
                    &&& *w == old(self).workflows()[name@]
                    &&& final(self).workflows() == old(self).workflows().insert(name@, *final(w))
                    &&& final(self).same_but_workflows(old(self))
                },
                Err(e) => {
                    &&& e == DBERROR::DataNotExist
                    &&& !old(self).workflows().contains_key(name@)
                    &&& *final(self) == *old(self)
                },
            },
    {
        match self.data.get_mut(name) {
            Some(w) => Ok(w),
            None => Err(DBERROR::DataNotExist),
        }
    }
}

} // verus!
