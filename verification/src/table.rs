//! The relation itself: its schema, and the negotiation by which it tells the
//! planner which of the offered constraints it will enforce.

use vstd::prelude::*;
use crate::columns::{column, column_of, Columns, CREATE_SQL};
use crate::cursor::{CursorView, ListDirectoryCursor};

verus! {

/// The comparison that a constraint makes, as the host numbers them.
#[derive(Clone, Copy, Debug, PartialEq, Eq)]
pub enum ConstraintOperator {
    EQ,
    GT,
    LE,
    LT,
    GE,
    MATCH,
    LIKE,
    GLOB,
    REGEXP,
    NE,
    ISNOT,
    ISNOTNULL,
    ISNULL,
    IS,
    LIMIT,
    OFFSET,
    FUNCTION(u8),
}

/// One constraint that the planner offers: the column it is on, whether the planner
/// can supply its right-hand side, and its operator where the host knows it.
#[derive(Clone, Copy, Debug, PartialEq, Eq)]
pub struct Constraint {
    pub column_idx: i32,
    pub usable: bool,
    pub op: Option<ConstraintOperator>,
}

/// What the relation answers for one offered constraint.
#[derive(Clone, Copy, Debug, PartialEq, Eq)]
pub struct ConstraintUsage {
    /// The host need not check the constraint again on the rows it gets.
    pub omit: bool,
    /// The 1-based slot of `filter`'s arguments that receives the right-hand side.
    pub argv_index: i32,
}

/// The plan that a successful negotiation hands back.
#[derive(Clone, Debug, PartialEq, Eq)]
pub struct IndexPlan {
    /// One answer per offered constraint, in the order offered.
    pub usages: Vec<ConstraintUsage>,
    pub estimated_cost: u32,
    pub estimated_rows: i64,
    pub idxnum: i32,
}

/// An `IndexPlan` as a mathematical value.
pub struct IndexPlanView {
    pub usages: Seq<ConstraintUsage>,
    pub estimated_cost: int,
    pub estimated_rows: int,
    pub idxnum: int,
}

impl View for IndexPlan {
    type V = IndexPlanView;

    open spec fn view(&self) -> IndexPlanView {
        IndexPlanView {
            usages: self.usages@,
            estimated_cost: self.estimated_cost as int,
            estimated_rows: self.estimated_rows as int,
            idxnum: self.idxnum as int,
        }
    }
}

/// Why a negotiation failed.
#[derive(Clone, Copy, Debug, PartialEq, Eq)]
pub enum BestIndexError {
    /// A constraint was offered that the relation does not support.
    Constraint,
    /// No directory was given: the relation cannot be scanned.
    Error,
}

/// The cost reported for every scan: a directory listing is an expensive, unindexed read.
pub const ESTIMATED_COST: u32 = 100000;

/// The number of rows reported for every scan.
pub const ESTIMATED_ROWS: i64 = 100000;

/// The constraint is on the hidden `input` column.
pub open spec fn on_input(c: Constraint) -> bool {
    column_of(c.column_idx as int) == Some(Columns::Input)
}

/// The constraint is the one kind the relation supports: an equality on the hidden
/// `input` column whose right-hand side the planner can supply.
pub open spec fn binds_input(c: Constraint) -> bool {
    &&& on_input(c)
    &&& c.usable
    &&& c.op == Some(ConstraintOperator::EQ)
}

/// Every offered constraint is on the `input` column.
pub open spec fn all_on_input(cs: Seq<Constraint>) -> bool {
    forall|i: int| 0 <= i < cs.len() ==> on_input(#[trigger] cs[i])
}

/// Some offered constraint gives the directory: it is a usable equality on `input`.
pub open spec fn some_binds_input(cs: Seq<Constraint>) -> bool {
    exists|i: int| 0 <= i < cs.len() && binds_input(#[trigger] cs[i])
}

/// Every offered constraint is supported.
pub open spec fn all_bind_input(cs: Seq<Constraint>) -> bool {
    forall|i: int| 0 <= i < cs.len() ==> binds_input(#[trigger] cs[i])
}

/// The answer given for a supported constraint: enforced here, bound to the first argument.
pub open spec fn bound_usage() -> ConstraintUsage {
    ConstraintUsage { omit: true, argv_index: 1 }
}

/// The plan for `n` supported constraints.
pub open spec fn plan_for(n: nat) -> IndexPlanView {
    IndexPlanView {
        usages: Seq::new(n, |i: int| bound_usage()),
        estimated_cost: ESTIMATED_COST as int,
        estimated_rows: ESTIMATED_ROWS as int,
        idxnum: 1,
    }
}

/// The outcome of a negotiation over the offered constraints.
///
/// A constraint on a column other than `input` has the negotiation refused with
/// the constraint error. Else, where no usable equality on `input` is offered, no
/// directory was given, and the negotiation fails with the plain error. Else a
/// directory was given; anything offered besides usable equalities on `input` is
/// refused with the constraint error, and without any such the plan stands.
pub open spec fn negotiated(cs: Seq<Constraint>) -> Result<IndexPlanView, BestIndexError> {
    if !all_on_input(cs) {
        Err(BestIndexError::Constraint)
    } else if !some_binds_input(cs) {
        Err(BestIndexError::Error)
    } else if !all_bind_input(cs) {
        Err(BestIndexError::Constraint)
    } else {
        Ok(plan_for(cs.len()))
    }
}

/// The relation. It keeps no state of its own between calls.
#[derive(Clone, Copy, Debug, PartialEq, Eq)]
pub struct ListTable {}

fn is_on_input(c: &Constraint) -> (r: bool)
    ensures
        r == on_input(*c),
{
    match column(c.column_idx) {
        Some(Columns::Input) => true,
        _ => false,
    }
}

fn supported(c: &Constraint) -> (r: bool)
    ensures
        r == binds_input(*c),
{
    match column(c.column_idx) {
        Some(Columns::Input) => c.usable && matches!(c.op, Some(ConstraintOperator::EQ)),
        _ => false,
    }
}

impl ListTable {
    /// Hands out the schema and the relation.
    pub fn connect() -> (r: (String, ListTable))
        ensures
            r.0@ == CREATE_SQL@,
    {
        (CREATE_SQL.to_owned(), ListTable {  })
    }

    /// Releases the relation. It holds nothing, so there is nothing to do and
    /// nothing that can fail.
    pub fn destroy(&self) {
    }

    /// Opens a cursor on the relation: one on which no scan has been started.
    pub fn open(&mut self) -> (r: ListDirectoryCursor)
        ensures
            r@ == (CursorView { input: None, rows: None, idx: 0 }),
            *final(self) == *old(self),
    {
        ListDirectoryCursor::new()
    }

    /// Decides whether the offered constraints allow a scan, and how.
    ///
    /// The outcome is what `negotiated` gives: the plan where every offered
    /// constraint is a usable equality on `input` and there is at least one, the
    /// plain error where no directory was given, and the constraint error for a
    /// constraint on another column or beside the directory.
    pub fn best_index(&self, constraints: &Vec<Constraint>) -> (r: Result<
        IndexPlan,
        BestIndexError,
    >)
        ensures
            match negotiated(constraints@) {
                Ok(plan) => r is Ok && r->Ok_0@ == plan,
                Err(e) => r == Err::<IndexPlan, BestIndexError>(e),
            },
    {
        let mut k: usize = 0;
        while k < constraints.len()
            invariant
                k <= constraints.len(),
                forall|j: int| 0 <= j < k ==> on_input(#[trigger] constraints@[j]),
            decreases constraints.len() - k,
        {
            if !is_on_input(&constraints[k]) {
                return Err(BestIndexError::Constraint);
            }
            k += 1;
        }
        let mut usages: Vec<ConstraintUsage> = Vec::new();
        let mut bound = false;
        let mut all = true;
        let mut i: usize = 0;
        while i < constraints.len()
            invariant
                i <= constraints.len(),
                usages@.len() == i,
                forall|j: int| 0 <= j < i ==> #[trigger] usages@[j] == bound_usage(),
                bound ==> some_binds_input(constraints@),
                !bound ==> forall|j: int| 0 <= j < i ==> !binds_input(#[trigger] constraints@[j]),
                all ==> forall|j: int| 0 <= j < i ==> binds_input(#[trigger] constraints@[j]),
                !all ==> !all_bind_input(constraints@),
            decreases constraints.len() - i,
        {
            if supported(&constraints[i]) {
                bound = true;
            } else {
                all = false;
            }
            usages.push(ConstraintUsage { omit: true, argv_index: 1 });
            i += 1;
        }
        if !bound {
            return Err(BestIndexError::Error);
        }
        if !all {
            return Err(BestIndexError::Constraint);
        }
        let plan = IndexPlan {
            usages,
            estimated_cost: ESTIMATED_COST,
            estimated_rows: ESTIMATED_ROWS,
            idxnum: 1,
        };
        assert(plan@.usages =~= plan_for(constraints@.len()).usages);
        Ok(plan)
    }
}

/// Without a usable equality on `input` among the offered constraints, negotiation
/// fails. It fails with the plain error, for want of a directory, unless a
/// constraint on another column was offered, which is refused as such.
pub proof fn lemma_no_input_fails(cs: Seq<Constraint>)
    requires
        forall|i: int| 0 <= i < cs.len() ==> !binds_input(#[trigger] cs[i]),
    ensures
        negotiated(cs) is Err,
        all_on_input(cs) ==> negotiated(cs) == Err::<IndexPlanView, BestIndexError>(
            BestIndexError::Error,
        ),
        !all_on_input(cs) ==> negotiated(cs) == Err::<IndexPlanView, BestIndexError>(
            BestIndexError::Constraint,
        ),
{
}

/// A constraint on any column but `input` has the whole negotiation refused with
/// the constraint error, whatever else is offered.
pub proof fn lemma_other_column_rejected(cs: Seq<Constraint>, i: int)
    requires
        0 <= i < cs.len(),
        !on_input(cs[i]),
    ensures
        negotiated(cs) == Err::<IndexPlanView, BestIndexError>(BestIndexError::Constraint),
{
}

/// A negotiation succeeds exactly when something was offered and all of it is
/// supported; the plan then binds every constraint to the first argument.
pub proof fn lemma_success(cs: Seq<Constraint>)
    ensures
        negotiated(cs) is Ok <==> cs.len() > 0 && all_bind_input(cs),
        negotiated(cs) is Ok ==> negotiated(cs)->Ok_0.usages.len() == cs.len(),
{
    if cs.len() > 0 && all_bind_input(cs) {
        assert(binds_input(cs[0]));
    }
}

} // verus!
