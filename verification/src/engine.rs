//! The session of one run: the table names it has bound, the two steps of a
//! registration around the engine's own work, and the wrapping of what the
//! engine reports for a statement.

use crate::error::{outcome, ErrorView, SqlStreamError};
use crate::format::Format;
use crate::resolver::{path_exists, resolution, resolve_with};
use vstd::prelude::*;

verus! {

/// A table name bound to a file and to the format in which the file is read.
#[derive(Debug, PartialEq, Eq)]
pub struct TableBinding {
    /// The name by which statements refer to the table.
    pub name: String,
    /// The path of the file behind the table.
    pub source_path: String,
    /// How the file is read.
    pub format: Format,
}

/// A table binding in contracts.
pub struct BindingView {
    pub name: Seq<char>,
    pub source_path: Seq<char>,
    pub format: Format,
}

impl View for TableBinding {
    type V = BindingView;

    open spec fn view(&self) -> BindingView {
        BindingView { name: self.name@, source_path: self.source_path@, format: self.format }
    }
}

/// What the engine reports once it was asked to load a table.
#[derive(Debug, PartialEq, Eq)]
pub enum LoadOutcome {
    /// The table is loaded and can be referred to.
    Loaded,
    /// The reader could not determine a column schema. Holds the cause.
    SchemaUnknown(String),
    /// Reading or decoding failed in another way. Holds the cause.
    Failed(String),
}

/// True when `session` holds a binding of `name`.
pub open spec fn binds(session: Seq<BindingView>, name: Seq<char>) -> bool {
    exists|i: int| 0 <= i < session.len() && (#[trigger] session[i]).name == name
}

/// True when no two bindings of `session` share a name.
pub open spec fn names_distinct(session: Seq<BindingView>) -> bool {
    forall|i: int, j: int|
        0 <= i < j < session.len() ==> (#[trigger] session[i]).name != (#[trigger] session[j]).name
}

/// What the first step of a registration yields in a session: the error of
/// the resolution where the path does not resolve, `DuplicateTable` where the
/// path resolves and the name is taken, and else the binding that the engine
/// is to load.
pub open spec fn registration(
    session: Seq<BindingView>,
    path: Seq<char>,
    name: Seq<char>,
    found: bool,
) -> Result<BindingView, ErrorView> {
    match resolution(path, found) {
        Err(error) => Err(error),
        Ok(format) => if binds(session, name) {
            Err(ErrorView::DuplicateTable(name))
        } else {
            Ok(BindingView { name, source_path: path, format })
        },
    }
}

/// What the second step of a registration yields, and the session that it
/// leaves: the engine's failure where it reported one, `DuplicateTable` where
/// the name was taken in the meantime, both with the session as it was, and
/// else the session with the binding added behind the others.
pub open spec fn completion(session: Seq<BindingView>, binding: BindingView, loaded: LoadOutcome) -> (
    Result<(), ErrorView>,
    Seq<BindingView>,
) {
    match loaded {
        LoadOutcome::SchemaUnknown(cause) => (Err(ErrorView::SchemaInference(cause@)), session),
        LoadOutcome::Failed(cause) => (
            Err(ErrorView::TableRegistration(binding.name, cause@)),
            session,
        ),
        LoadOutcome::Loaded => if binds(session, binding.name) {
            (Err(ErrorView::DuplicateTable(binding.name)), session)
        } else {
            (Ok(()), session.push(binding))
        },
    }
}

/// A planned registration in contracts.
pub open spec fn planned(result: Result<TableBinding, SqlStreamError>) -> Result<
    BindingView,
    ErrorView,
> {
    match result {
        Ok(binding) => Ok(binding@),
        Err(error) => Err(error@),
    }
}

/// The session of one run. It holds the tables that were registered, in the
/// order of their registration, and no name twice.
pub struct QueryEngine {
    tables: Vec<TableBinding>,
}

impl View for QueryEngine {
    type V = Seq<BindingView>;

    closed spec fn view(&self) -> Seq<BindingView> {
        Seq::new(self.tables@.len(), |i: int| self.tables@[i]@)
    }
}

impl QueryEngine {
    #[verifier::type_invariant]
    spec fn well_formed(&self) -> bool {
        names_distinct(self@)
    }

    /// A session without tables.
    pub fn new() -> (result: Result<QueryEngine, SqlStreamError>)
        ensures
            result matches Ok(engine) && engine@ == Seq::<BindingView>::empty(),
    {
        let engine = QueryEngine { tables: Vec::new() };
        assert(engine@ =~= Seq::<BindingView>::empty());
        Ok(engine)
    }

    /// The number of tables that the session holds.
    pub fn table_count(&self) -> (count: usize)
        ensures
            count == self@.len(),
            names_distinct(self@),
    {
        proof {
            use_type_invariant(self);
        }
        self.tables.len()
    }

    /// The binding of `name`, if the session holds one.
    pub fn lookup(&self, name: &str) -> (found: Option<&TableBinding>)
        ensures
            match found {
                Some(binding) => binding@.name == name@ && self@.contains(binding@),
                None => !binds(self@, name@),
            },
    {
        let wanted = name.to_owned();
        let mut i: usize = 0;
        while i < self.tables.len()
            invariant
                i <= self.tables.len(),
                wanted@ == name@,
                forall|j: int| 0 <= j < i ==> (#[trigger] self@[j]).name != name@,
            decreases self.tables.len() - i,
        {
            if self.tables[i].name == wanted {
                assert(self@[i as int] == self.tables[i as int]@);
                return Some(&self.tables[i]);
            }
            assert(self@[i as int].name != name@);
            i += 1;
        }
        None
    }

    /// Whether the session holds a binding of `name`.
    pub fn is_registered(&self, name: &str) -> (bound: bool)
        ensures
            bound == binds(self@, name@),
    {
        match self.lookup(name) {
            Some(binding) => {
                assert(binds(self@, name@)) by {
                    let i = choose|i: int| 0 <= i < self@.len() && self@[i] == binding@;
                    assert(self@[i].name == name@);
                }
                true
            },
            None => false,
        }
    }

    /// First step of a registration, given whether the file exists: resolves
    /// the path, refuses a name that is taken, and returns the binding that
    /// the engine is to load. The session is not changed yet.
    pub fn plan_registration(&self, file_path: &str, table_name: &str, found: bool) -> (result:
        Result<TableBinding, SqlStreamError>)
        ensures
            planned(result) == registration(self@, file_path@, table_name@, found),
    {
        let format = match resolve_with(file_path, found) {
            Ok(format) => format,
            Err(error) => {
                return Err(error);
            },
        };
        if self.is_registered(table_name) {
            return Err(SqlStreamError::DuplicateTable(table_name.to_owned()));
        }
        Ok(
            TableBinding {
                name: table_name.to_owned(),
                source_path: file_path.to_owned(),
                format,
            },
        )
    }

    /// First step of a registration, asking the file system whether the file
    /// exists.
    pub fn register_file(&self, file_path: &str, table_name: &str) -> (result: Result<
        TableBinding,
        SqlStreamError,
    >)
        ensures
            planned(result) == registration(self@, file_path@, table_name@, true) || planned(result)
                == registration(self@, file_path@, table_name@, false),
    {
        self.plan_registration(file_path, table_name, path_exists(file_path))
    }

    /// Second step of a registration: takes in what the engine reported for
    /// `binding`. The binding joins the session where the engine loaded it and
    /// its name is free; in every other case the session stays as it was.
    pub fn complete_registration(&mut self, binding: TableBinding, loaded: LoadOutcome) -> (result:
        Result<(), SqlStreamError>)
        ensures
            (outcome(result), final(self)@) == completion(
                old(self)@,
                binding@,
                loaded,
            ),
            names_distinct(final(self)@),
    {
        proof {
            use_type_invariant(&*self);
        }
        match loaded {
            LoadOutcome::SchemaUnknown(cause) => Err(SqlStreamError::SchemaInference(cause)),
            LoadOutcome::Failed(cause) => Err(
                SqlStreamError::TableRegistration(binding.name, cause),
            ),
            LoadOutcome::Loaded => {
                if self.is_registered(binding.name.as_str()) {
                    return Err(SqlStreamError::DuplicateTable(binding.name));
                }
                let ghost before = self@;
                let ghost added = binding@;
                let mut tables: Vec<TableBinding> = Vec::new();
                std::mem::swap(&mut self.tables, &mut tables);
                tables.push(binding);
                proof {
                    let after = Seq::new(tables@.len(), |i: int| tables@[i]@);
                    assert(after =~= before.push(added));
                    assert forall|i: int, j: int| 0 <= i < j < after.len() implies (
                    #[trigger] after[i]).name != (#[trigger] after[j]).name by {
                        if j == before.len() {
                            assert(before[i].name != added.name);
                        } else {
                            assert(before[i].name != before[j].name);
                        }
                    }
                }
                self.tables = tables;
                assert(self@ =~= before.push(added));
                Ok(())
            },
        }
    }

    /// Wraps what the engine reported for a statement: its result is handed
    /// on as it is, its failure becomes `QueryExecution` with the engine's
    /// message, character for character.
    pub fn execute_query<T>(&self, reported: Result<T, String>) -> (result: Result<
        T,
        SqlStreamError,
    >)
        ensures
            match reported {
                Ok(rows) => result == Ok::<T, SqlStreamError>(rows),
                Err(message) => result matches Err(error) && error@ == ErrorView::QueryExecution(
                    message@,
                ),
            },
    {
        match reported {
            Ok(rows) => Ok(rows),
            Err(message) => Err(SqlStreamError::QueryExecution(message)),
        }
    }
}

impl Default for QueryEngine {
    fn default() -> (engine: QueryEngine)
        ensures
            engine@ == Seq::<BindingView>::empty(),
    {
        let engine = QueryEngine { tables: Vec::new() };
        assert(engine@ =~= Seq::<BindingView>::empty());
        engine
    }
}

/// Registering a path that does not exist yields `FileNotFound` with that
/// path and no other error, whatever the session holds and whatever the name.
pub proof fn law_missing_file_is_not_registered(
    session: Seq<BindingView>,
    path: Seq<char>,
    name: Seq<char>,
)
    ensures
        registration(session, path, name, false) == Err::<BindingView, ErrorView>(
            ErrorView::FileNotFound(path),
        ),
{
}

/// A registration yields the error of the resolution wherever the path does
/// not resolve, and is turned away for no other reason than a taken name
/// where it does.
pub proof fn law_registration_follows_resolution(
    session: Seq<BindingView>,
    path: Seq<char>,
    name: Seq<char>,
    found: bool,
)
    ensures
        match resolution(path, found) {
            Err(error) => registration(session, path, name, found) == Err::<BindingView, ErrorView>(
                error,
            ),
            Ok(format) => !binds(session, name) ==> registration(session, path, name, found) == Ok::<
                BindingView,
                ErrorView,
            >(BindingView { name, source_path: path, format }),
        },
{
}

/// A name is bound once. After the registration of `first` has been
/// completed, a registration under the same name is always refused: its
/// first step with `DuplicateTable` wherever the path resolves, and its second
/// step, whatever the engine reported, with the session left as it was.
pub proof fn law_name_is_bound_once(
    session: Seq<BindingView>,
    first: BindingView,
    path: Seq<char>,
    found: bool,
    again: BindingView,
    loaded: LoadOutcome,
)
    requires
        again.name == first.name,
    ensures
        ({
            let bound = completion(session, first, LoadOutcome::Loaded).1;
            &&& binds(bound, first.name)
            &&& registration(bound, path, first.name, found) is Err
            &&& resolution(path, found) is Ok ==> registration(bound, path, first.name, found)
                == Err::<BindingView, ErrorView>(ErrorView::DuplicateTable(first.name))
            &&& completion(bound, again, loaded).0 is Err
            &&& completion(bound, again, LoadOutcome::Loaded).0 == Err::<(), ErrorView>(
                ErrorView::DuplicateTable(first.name),
            )
            &&& completion(bound, again, loaded).1 == bound
        }),
{
    let bound = completion(session, first, LoadOutcome::Loaded).1;
    if binds(session, first.name) {
        assert(bound == session);
    } else {
        assert(bound == session.push(first));
        assert(bound[session.len() as int].name == first.name);
    }
}

/// No step of a registration makes two bindings share a name, and none takes
/// a binding away or changes one.
pub proof fn law_completion_keeps_session(
    session: Seq<BindingView>,
    binding: BindingView,
    loaded: LoadOutcome,
)
    requires
        names_distinct(session),
    ensures
        names_distinct(completion(session, binding, loaded).1),
        session.is_prefix_of(completion(session, binding, loaded).1),
{
    let after = completion(session, binding, loaded).1;
    if after != session {
        assert(after == session.push(binding));
        assert forall|i: int, j: int| 0 <= i < j < after.len() implies (#[trigger] after[i]).name != (
        #[trigger] after[j]).name by {
            if j == session.len() {
                assert(session[i].name != binding.name);
            } else {
                assert(session[i].name != session[j].name);
            }
        }
    }
}

} // verus!
