//! Handles through which the host refers to values of the engine.
//!
//! The host cannot look into a dataframe, a series, an expression or a lazy
//! query plan. It holds a handle instead and passes it back into later calls.
//! A handle shares one value among all its holders by counting references:
//! the value lives as long as the longest holder.

use std::ops::Deref;
use std::sync::Arc;
use vstd::prelude::*;
use vstd::rwlock::{ReadHandle, RwLock, RwLockPredicate};
use polars::prelude::{Column, DataFrame, Expr, LazyFrame, Series};

verus! {

/// A dataframe of the engine.
#[verifier::external_type_specification]
#[verifier::external_body]
pub struct ExEngineDataFrame(DataFrame);

/// A column of a dataframe of the engine.
#[verifier::external_type_specification]
#[verifier::external_body]
pub struct ExEngineColumn(Column);

/// An expression of the engine.
#[verifier::external_type_specification]
#[verifier::external_body]
pub struct ExEngineExpr(Expr);

/// A lazy query plan of the engine.
#[verifier::external_type_specification]
#[verifier::external_body]
pub struct ExEngineLazyFrame(LazyFrame);

/// Calls `Expr::clone` of polars. Trusted: the copy is the expression.
#[verifier::external_body]
fn clone_expr(expr: &Expr) -> (copy: Expr)
    ensures
        copy == *expr,
{
    expr.clone()
}

/// Calls `LazyFrame::clone` of polars. Trusted: the copy is the plan.
#[verifier::external_body]
fn clone_lazy_frame(plan: &LazyFrame) -> (copy: LazyFrame)
    ensures
        copy == *plan,
{
    plan.clone()
}

/// Calls `Series::clone` of polars. Trusted: the copy is the series.
#[verifier::external_body]
fn clone_series(series: &Series) -> (copy: Series)
    ensures
        copy == *series,
{
    series.clone()
}

/// Calls `DataFrame::clone` of polars. Trusted: the copy is the dataframe.
#[verifier::external_body]
fn clone_data_frame(frame: &DataFrame) -> (copy: DataFrame)
    ensures
        copy == *frame,
{
    frame.clone()
}

/// What a handle to an expression shares among its holders.
pub struct ExExprRef(pub Expr);

/// What a handle to a lazy query plan shares among its holders.
pub struct ExLazyFrameRef(pub LazyFrame);

/// What a handle to a series shares among its holders.
pub struct ExSeriesRef(pub Series);

impl ExExprRef {
    /// Wraps the expression for sharing.
    pub fn new(expr: Expr) -> (shared: Self)
        ensures
            shared.0 == expr,
    {
        Self(expr)
    }
}

impl ExLazyFrameRef {
    /// Wraps the plan for sharing.
    pub fn new(df: LazyFrame) -> (shared: Self)
        ensures
            shared.0 == df,
    {
        Self(df)
    }
}

impl ExSeriesRef {
    /// Wraps the series for sharing.
    pub fn new(s: Series) -> (shared: Self)
        ensures
            shared.0 == s,
    {
        Self(s)
    }
}

/// A handle to an expression. The expression never changes once the handle
/// is made.
pub struct ExExpr {
    pub resource: Arc<ExExprRef>,
}

/// A handle to a lazy query plan. The plan never changes once the handle is
/// made: an operation on it makes a new plan behind a new handle.
pub struct ExLazyFrame {
    pub resource: Arc<ExLazyFrameRef>,
}

/// A handle to a series. The series never changes once the handle is made.
pub struct ExSeries {
    pub resource: Arc<ExSeriesRef>,
}

impl ExExpr {
    /// The expression behind the handle.
    pub open spec fn inner(self) -> Expr {
        self.resource.0
    }

    /// Takes the expression and returns the one handle that owns it.
    pub fn new(expr: Expr) -> (handle: Self)
        ensures
            handle.inner() == expr,
    {
        Self { resource: Arc::new(ExExprRef::new(expr)) }
    }

    /// A copy of the expression behind the handle, which stays as it is.
    pub fn clone_inner(&self) -> (copy: Expr)
        ensures
            copy == self.inner(),
    {
        clone_expr(&self.resource.0)
    }
}

impl ExLazyFrame {
    /// The plan behind the handle.
    pub open spec fn inner(self) -> LazyFrame {
        self.resource.0
    }

    /// Takes the plan and returns the one handle that owns it.
    pub fn new(df: LazyFrame) -> (handle: Self)
        ensures
            handle.inner() == df,
    {
        Self { resource: Arc::new(ExLazyFrameRef::new(df)) }
    }

    /// A copy of the plan behind the handle, which stays as it is.
    pub fn clone_inner(&self) -> (copy: LazyFrame)
        ensures
            copy == self.inner(),
    {
        clone_lazy_frame(&self.resource.0)
    }
}

impl ExSeries {
    /// The series behind the handle.
    pub open spec fn inner(self) -> Series {
        self.resource.0
    }

    /// Takes the series and returns the one handle that owns it.
    pub fn new(s: Series) -> (handle: Self)
        ensures
            handle.inner() == s,
    {
        Self { resource: Arc::new(ExSeriesRef::new(s)) }
    }

    /// A copy of the series behind the handle, which stays as it is.
    pub fn clone_inner(&self) -> (copy: Series)
        ensures
            copy == self.inner(),
    {
        clone_series(&self.resource.0)
    }
}

/// What a handle to a dataframe shares among its holders: the dataframe
/// behind one lock, which any number of readers or one writer can hold.
pub struct ExDataFrameRef {
    lock: RwLock<DataFrame, MadeFor>,
}

/// What the lock of a dataframe is made with: the dataframe that it holds
/// first. The lock admits every dataframe that a writer stores later.
pub ghost struct MadeFor {
    pub origin: DataFrame,
}

impl RwLockPredicate<DataFrame> for MadeFor {
    open spec fn inv(self, frame: DataFrame) -> bool {
        true
    }
}

impl ExDataFrameRef {
    /// The dataframe with which the lock was made.
    pub closed spec fn made_for(self) -> DataFrame {
        self.lock.pred().origin
    }

    /// `frame` is the dataframe that a holder of this lock saw while it held
    /// the lock as a reader.
    pub closed spec fn read_as(self, frame: DataFrame) -> bool {
        exists|reader: ReadHandle<DataFrame, MadeFor>|
            reader.rwlock() == self.lock && reader@ == frame
    }

    /// Puts the dataframe behind a lock of its own, for sharing.
    pub fn new(df: DataFrame) -> (shared: Self)
        ensures
            shared.made_for() == df,
    {
        let ghost made_for = MadeFor { origin: df };
        Self { lock: RwLock::new(df, Ghost(made_for)) }
    }
}

/// A handle to a dataframe, the one kind of value that is changed in place.
/// What a reader sees is the dataframe as some writer left it, never one
/// that a writer is still working on.
pub struct ExDataFrame {
    pub resource: Arc<ExDataFrameRef>,
}

impl ExDataFrame {
    /// The dataframe with which the handle was made. What the handle holds
    /// later is what its writers have stored.
    pub open spec fn made_for(self) -> DataFrame {
        self.resource.made_for()
    }

    /// `frame` is the dataframe that a holder of the handle saw while it held
    /// the lock as a reader.
    pub open spec fn read_as(self, frame: DataFrame) -> bool {
        self.resource.read_as(frame)
    }

    /// Takes the dataframe and returns the one handle that owns it.
    pub fn new(df: DataFrame) -> (handle: Self)
        ensures
            handle.made_for() == df,
    {
        Self { resource: Arc::new(ExDataFrameRef::new(df)) }
    }

    /// A copy of the dataframe behind the handle, made while holding the lock
    /// as a reader: the copy is the dataframe that this reader saw.
    pub fn clone_inner(&self) -> (copy: DataFrame)
        ensures
            self.read_as(copy),
    {
        let guard = self.resource.lock.acquire_read();
        let copy = clone_data_frame(guard.borrow());
        proof {
            assert(guard.rwlock() == self.resource.lock && guard@ == copy);
        }
        guard.release_read();
        copy
    }

    /// Changes the dataframe in place. The lock is held as the one writer
    /// from before `mutation` sees the dataframe until after the dataframe
    /// that it hands back is stored, and it is released whether `mutation`
    /// reports a failure in its outcome or not. The outcome is the one that
    /// `mutation` reported for the dataframe it was given.
    pub fn with_write_lock<T, F: FnOnce(DataFrame) -> (DataFrame, T)>(&self, mutation: F) -> (outcome:
        T)
        requires
            forall|frame: DataFrame| mutation.requires((frame,)),
        ensures
            exists|before: DataFrame, after: DataFrame|
                mutation.ensures((before,), (after, outcome)),
    {
        let (frame, guard) = self.resource.lock.acquire_write();
        let (next, outcome) = mutation(frame);
        guard.release_write(next);
        outcome
    }
}

impl Deref for ExExpr {
    type Target = Expr;

    /// The expression behind the handle, lent out.
    fn deref(&self) -> (inner: &Expr)
        ensures
            *inner == self.inner(),
    {
        &self.resource.0
    }
}

impl Deref for ExLazyFrame {
    type Target = LazyFrame;

    /// The plan behind the handle, lent out.
    fn deref(&self) -> (inner: &LazyFrame)
        ensures
            *inner == self.inner(),
    {
        &self.resource.0
    }
}

impl Deref for ExSeries {
    type Target = Series;

    /// The series behind the handle, lent out.
    fn deref(&self) -> (inner: &Series)
        ensures
            *inner == self.inner(),
    {
        &self.resource.0
    }
}

} // verus!
