//! Statements for the store: SQL text with numbered placeholders and, in
//! the same order, the values bound to them. No value is ever written into
//! the text.

use vstd::prelude::*;
use vstd::string::*;
use crate::database::contents_repository::ContentRowStatus;
use crate::database::json::{json_model, JsonModel};
use crate::error::{IdField, RepositoryError, ValidationError};
use crate::ident::EntityId;
use crate::text::owned;

verus! {

/// A value bound to a placeholder.
#[derive(Debug, Clone)]
pub enum BindValue {
    Text(String),
    Id(EntityId),
    Int(i32),
    Json(serde_json::Value),
    Status(ContentRowStatus),
    Ids(Vec<EntityId>),
}

/// What contracts say of a bound value.
pub enum BindModel {
    Text(Seq<char>),
    Id(EntityId),
    Int(i32),
    Json(JsonModel),
    Status(ContentRowStatus),
    Ids(Seq<EntityId>),
}

impl View for BindValue {
    type V = BindModel;

    open spec fn view(&self) -> BindModel {
        match *self {
            BindValue::Text(text) => BindModel::Text(text@),
            BindValue::Id(id) => BindModel::Id(id),
            BindValue::Int(n) => BindModel::Int(n),
            BindValue::Json(value) => BindModel::Json(json_model(value)),
            BindValue::Status(status) => BindModel::Status(status),
            BindValue::Ids(ids) => BindModel::Ids(ids@),
        }
    }
}

/// What contracts say of bound values in order.
pub open spec fn binds_view(binds: Seq<BindValue>) -> Seq<BindModel> {
    Seq::new(binds.len(), |i: int| binds[i]@)
}

/// A statement as text and bound values.
pub struct StatementModel {
    pub sql: Seq<char>,
    pub binds: Seq<BindModel>,
}

/// A statement ready to be run: placeholder `$k` of the text takes the
/// `k`-th bound value, counted from one.
#[derive(Debug, Clone)]
pub struct Statement {
    pub sql: String,
    pub binds: Vec<BindValue>,
}

impl View for Statement {
    type V = StatementModel;

    open spec fn view(&self) -> StatementModel {
        StatementModel { sql: self.sql@, binds: binds_view(self.binds@) }
    }
}

/// The character of a decimal digit.
pub open spec fn digit_char(digit: nat) -> char
    recommends
        digit < 10,
{
    seq!['0', '1', '2', '3', '4', '5', '6', '7', '8', '9'][digit as int]
}

/// A number in decimal, without leading zeros.
pub open spec fn decimal(n: nat) -> Seq<char>
    decreases n,
{
    if n < 10 {
        seq![digit_char(n)]
    } else {
        decimal(n / 10).push(digit_char(n % 10))
    }
}

/// The placeholder for the `n`-th bound value: a dollar sign and the
/// number.
pub open spec fn placeholder(n: nat) -> Seq<char> {
    seq!['$'] + decimal(n)
}

/// The text of one decimal digit.
fn digit_text(digit: u128) -> (r: &'static str)
    requires
        digit < 10,
    ensures
        r@ == seq![digit_char(digit as nat)],
{
    proof {
        reveal_strlit("0");
        reveal_strlit("1");
        reveal_strlit("2");
        reveal_strlit("3");
        reveal_strlit("4");
        reveal_strlit("5");
        reveal_strlit("6");
        reveal_strlit("7");
        reveal_strlit("8");
        reveal_strlit("9");
    }
    let r = if digit == 0 {
        "0"
    } else if digit == 1 {
        "1"
    } else if digit == 2 {
        "2"
    } else if digit == 3 {
        "3"
    } else if digit == 4 {
        "4"
    } else if digit == 5 {
        "5"
    } else if digit == 6 {
        "6"
    } else if digit == 7 {
        "7"
    } else if digit == 8 {
        "8"
    } else {
        "9"
    };
    assert(r@ =~= seq![digit_char(digit as nat)]);
    r
}

/// Appends `n` in decimal to `out`.
pub fn push_decimal(out: &mut String, n: u128)
    ensures
        final(out)@ == old(out)@ + decimal(n as nat),
    decreases n,
{
    if n >= 10 {
        push_decimal(out, n / 10);
    }
    out.append(digit_text(n % 10));
    assert(final(out)@ =~= old(out)@ + decimal(n as nat));
}

/// Appends the placeholder for the `n`-th bound value to `out`.
pub fn push_placeholder(out: &mut String, n: u128)
    ensures
        final(out)@ == old(out)@ + placeholder(n as nat),
{
    proof {
        reveal_strlit("$");
    }
    out.append("$");
    push_decimal(out, n);
    assert(final(out)@ =~= old(out)@ + placeholder(n as nat));
}

impl Statement {
    /// A statement with a fixed text.
    pub fn new(sql: &str, binds: Vec<BindValue>) -> (r: Statement)
        ensures
            r@ == (StatementModel { sql: sql@, binds: binds_view(binds@) }),
    {
        Statement { sql: owned(sql), binds }
    }
}

/// One assignment of a `SET` clause: the column, and the value bound to
/// its placeholder.
pub type Assignment = (Seq<char>, BindModel);

/// The text of the assignment that stands at `position` of a `SET` clause,
/// counted from one: the column, ` = `, and the placeholder of that number.
pub open spec fn assignment_text(column: Seq<char>, position: nat) -> Seq<char> {
    column + " = "@ + placeholder(position)
}

/// The text of the first `n` assignments, separated by commas.
pub open spec fn set_list(assignments: Seq<Assignment>, n: nat) -> Seq<char>
    decreases n,
{
    if n == 0 {
        Seq::empty()
    } else if n == 1 {
        assignment_text(assignments[0].0, 1)
    } else {
        set_list(assignments, (n - 1) as nat) + ","@ + assignment_text(assignments[n - 1].0, n)
    }
}

/// The values of the assignments, in order.
pub open spec fn assigned_values(assignments: Seq<Assignment>) -> Seq<BindModel> {
    Seq::new(assignments.len(), |i: int| assignments[i].1)
}

/// The statement of a partial update: `head`, the assignments, `condition`
/// with the placeholder that follows the assignments' own, and `tail`. The
/// key is bound last.
pub open spec fn update_model(
    head: Seq<char>,
    assignments: Seq<Assignment>,
    condition: Seq<char>,
    key: BindModel,
    tail: Seq<char>,
) -> StatementModel {
    StatementModel {
        sql: head + set_list(assignments, assignments.len()) + condition + placeholder(
            assignments.len() + 1,
        ) + tail,
        binds: assigned_values(assignments).push(key),
    }
}

/// A statement of a partial update never has an empty list of
/// assignments: with one assignment or more, text stands between the
/// beginning of the statement and its condition.
pub proof fn set_list_is_never_empty(assignments: Seq<Assignment>, n: nat)
    requires
        1 <= n <= assignments.len(),
    ensures
        set_list(assignments, n).len() >= 5,
    decreases n,
{
    reveal_strlit(" = ");
    assert(placeholder(n).len() >= 2);
    if n > 1 {
        set_list_is_never_empty(assignments, (n - 1) as nat);
    }
}

/// The text of the first `n` assignments does not depend on what follows
/// them.
proof fn lemma_set_list_prefix(assignments: Seq<Assignment>, more: Assignment, n: nat)
    requires
        n <= assignments.len(),
    ensures
        set_list(assignments.push(more), n) == set_list(assignments, n),
    decreases n,
{
    if n > 1 {
        lemma_set_list_prefix(assignments, more, (n - 1) as nat);
    }
}

/// Collects the assignments of a partial update, each bound to the next
/// placeholder, and closes them into a statement.
pub struct UpdateBuilder {
    sql: String,
    binds: Vec<BindValue>,
    head: Ghost<Seq<char>>,
    assignments: Ghost<Seq<Assignment>>,
}

impl UpdateBuilder {
    #[verifier::type_invariant]
    spec fn consistent(self) -> bool {
        &&& self.sql@ == self.head@ + set_list(self.assignments@, self.assignments@.len())
        &&& binds_view(self.binds@) == assigned_values(self.assignments@)
    }

    /// The text the statement begins with.
    pub closed spec fn head(self) -> Seq<char> {
        self.head@
    }

    /// The assignments made so far, in order.
    pub closed spec fn assignments(self) -> Seq<Assignment> {
        self.assignments@
    }

    /// A builder without assignments for a statement that begins with
    /// `head`.
    pub fn new(head: &str) -> (r: UpdateBuilder)
        ensures
            r.head() == head@,
            r.assignments() == Seq::<Assignment>::empty(),
    {
        let sql = owned(head);
        let binds: Vec<BindValue> = Vec::new();
        assert(sql@ =~= head@ + set_list(Seq::<Assignment>::empty(), 0));
        assert(binds_view(binds@) =~= assigned_values(Seq::<Assignment>::empty()));
        UpdateBuilder { sql, binds, head: Ghost(head@), assignments: Ghost(Seq::empty()) }
    }

    /// Whether no assignment was made yet.
    pub fn is_empty(&self) -> (r: bool)
        ensures
            r == (self.assignments().len() == 0),
    {
        proof {
            use_type_invariant(self);
        }
        assert(self.binds@.len() == self.assignments@.len()) by {
            assert(binds_view(self.binds@).len() == assigned_values(self.assignments@).len());
        }
        self.binds.len() == 0
    }

    /// Adds the assignment of `value` to `column`.
    pub fn set(self, column: &str, value: BindValue) -> (r: UpdateBuilder)
        ensures
            r.head() == self.head(),
            r.assignments() == self.assignments().push((column@, value@)),
    {
        proof {
            use_type_invariant(&self);
        }
        let UpdateBuilder { sql, binds, head, assignments } = self;
        let mut sql = sql;
        let mut binds = binds;
        let ghost before = assignments@;
        let ghost after = before.push((column@, value@));
        let ghost old_binds = binds_view(binds@);
        let count: usize = binds.len();
        assert(count == before.len()) by {
            assert(binds_view(binds@).len() == assigned_values(before).len());
        }
        if count > 0 {
            sql.append(",");
        }
        sql.append(column);
        sql.append(" = ");
        push_placeholder(&mut sql, count as u128 + 1);
        binds.push(value);
        proof {
            lemma_set_list_prefix(before, (column@, value@), before.len());
            assert(sql@ =~= head@ + set_list(after, after.len()));
            assert forall|i: int| 0 <= i < after.len() implies binds_view(binds@)[i]
                == assigned_values(after)[i] by {
                if i < count {
                    assert(binds_view(binds@)[i] == old_binds[i]);
                    assert(old_binds[i] == assigned_values(before)[i]);
                }
            }
            assert(binds_view(binds@) =~= assigned_values(after));
        }
        UpdateBuilder { sql, binds, head, assignments: Ghost(after) }
    }

    /// Adds the assignment of a text to `column` where there is one, and
    /// nothing where there is none.
    pub fn set_text(self, column: &str, value: Option<String>) -> (r: UpdateBuilder)
        ensures
            r.head() == self.head(),
            r.assignments() == self.assignments() + optional_text(column@, value),
    {
        match value {
            Some(text) => {
                let r = self.set(column, BindValue::Text(text));
                assert(r.assignments() =~= self.assignments() + optional_text(column@, value));
                r
            },
            None => {
                assert(self.assignments() =~= self.assignments() + optional_text(column@, value));
                self
            },
        }
    }

    /// Adds the assignment of an identifier to `column` where there is
    /// one, and nothing where there is none.
    pub fn set_id(self, column: &str, value: Option<EntityId>) -> (r: UpdateBuilder)
        ensures
            r.head() == self.head(),
            r.assignments() == self.assignments() + optional_id(column@, value),
    {
        match value {
            Some(id) => {
                let r = self.set(column, BindValue::Id(id));
                assert(r.assignments() =~= self.assignments() + optional_id(column@, value));
                r
            },
            None => {
                assert(self.assignments() =~= self.assignments() + optional_id(column@, value));
                self
            },
        }
    }

    /// Closes the assignments into a statement that ends with `condition`,
    /// the placeholder for `key`, and `tail`. Without any assignment there
    /// is no statement to run, and the update is refused.
    pub fn finish(self, condition: &str, key: BindValue, tail: &str) -> (r: Result<
        Statement,
        ValidationError,
    >)
        ensures
            match r {
                Ok(statement) => self.assignments().len() > 0 && statement@ == update_model(
                    self.head(),
                    self.assignments(),
                    condition@,
                    key@,
                    tail@,
                ),
                Err(e) => self.assignments().len() == 0 && e == ValidationError::NothingToUpdate,
            },
    {
        proof {
            use_type_invariant(&self);
        }
        let UpdateBuilder { sql, binds, head, assignments } = self;
        let mut sql = sql;
        let mut binds = binds;
        let count: usize = binds.len();
        assert(count == assignments@.len()) by {
            assert(binds_view(binds@).len() == assigned_values(assignments@).len());
        }
        if count == 0 {
            return Err(ValidationError::NothingToUpdate);
        }
        let ghost old_binds = binds_view(binds@);
        sql.append(condition);
        push_placeholder(&mut sql, count as u128 + 1);
        sql.append(tail);
        binds.push(key);
        let statement = Statement { sql, binds };
        proof {
            let model = update_model(head@, assignments@, condition@, key@, tail@);
            assert(statement@.sql =~= model.sql);
            assert forall|i: int| 0 <= i < model.binds.len() implies statement@.binds[i]
                == model.binds[i] by {
                if i < count {
                    assert(statement@.binds[i] == old_binds[i]);
                    assert(old_binds[i] == assigned_values(assignments@)[i]);
                }
            }
            assert(statement@.binds =~= model.binds);
        }
        Ok(statement)
    }
}

/// The assignment of an optional text to `column`: one where the text is
/// present, none where it is absent.
pub open spec fn optional_text(column: Seq<char>, value: Option<String>) -> Seq<Assignment> {
    match value {
        Some(text) => seq![(column, BindModel::Text(text@))],
        None => Seq::empty(),
    }
}

/// The assignment of an optional identifier to `column`: one where the
/// identifier is present, none where it is absent.
pub open spec fn optional_id(column: Seq<char>, value: Option<EntityId>) -> Seq<Assignment> {
    match value {
        Some(id) => seq![(column, BindModel::Id(id))],
        None => Seq::empty(),
    }
}

/// What contracts say of the outcome of planning a statement.
pub open spec fn planned_view(planned: Result<Statement, RepositoryError>) -> Result<
    StatementModel,
    RepositoryError,
> {
    match planned {
        Ok(statement) => Ok(statement@),
        Err(e) => Err(e),
    }
}

/// The statement that reads a page: `sql` with the limit bound first and
/// the offset second.
pub open spec fn page_model(sql: Seq<char>, limit: i32, offset: i32) -> StatementModel {
    StatementModel { sql, binds: seq![BindModel::Int(limit), BindModel::Int(offset)] }
}

/// The statement that reads at most `limit` rows after skipping `offset`.
pub fn page_statement(sql: &str, limit: i32, offset: i32) -> (r: Statement)
    ensures
        r@ == page_model(sql@, limit, offset),
{
    let mut binds: Vec<BindValue> = Vec::new();
    binds.push(BindValue::Int(limit));
    binds.push(BindValue::Int(offset));
    assert(binds_view(binds@) =~= seq![BindModel::Int(limit), BindModel::Int(offset)]);
    Statement::new(sql, binds)
}

/// The statement that names one row: `sql` with the identifier as its
/// only bound value; or the refusal of an identifier that could not be
/// read.
pub open spec fn keyed_model(sql: Seq<char>, id: Option<EntityId>) -> Result<
    StatementModel,
    RepositoryError,
> {
    match id {
        None => Err(RepositoryError::InvalidId(IdField::Id)),
        Some(id) => Ok(StatementModel { sql, binds: seq![BindModel::Id(id)] }),
    }
}

/// The statement `sql` for the row with the identifier `id`, where `id`
/// is what was read from the text of an identifier.
pub fn keyed_statement(sql: &str, id: Option<EntityId>) -> (r: Result<Statement, RepositoryError>)
    ensures
        planned_view(r) == keyed_model(sql@, id),
{
    match id {
        None => Err(RepositoryError::InvalidId(IdField::Id)),
        Some(id) => {
            let mut binds: Vec<BindValue> = Vec::new();
            binds.push(BindValue::Id(id));
            assert(binds_view(binds@) =~= seq![BindModel::Id(id)]);
            Ok(Statement::new(sql, binds))
        },
    }
}

} // verus!
