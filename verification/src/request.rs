//! The request and response shapes of the gateway, and their
//! mathematical models.
//!
//! A request pairs statement text — one string, or an ordered list of
//! strings for a batch — with an argument list. An argument is a JSON
//! scalar, a JSON array (legal only as the per-statement argument group
//! of a batch), or a JSON object (never legal). Inside a group only
//! scalars bind; a nested array or object there is recorded as
//! `ArgItem::Composite`, since the pipeline never reads inside it —
//! it only rejects it.

use vstd::prelude::*;
use crate::value::{JsonScalar, ScalarModel};

verus! {

/// One element of a batch argument group: a bindable scalar, or a
/// nested composite (array or object), which cannot bind.
#[derive(Clone, Debug, PartialEq)]
pub enum ArgItem {
    Scalar(JsonScalar),
    Composite,
}

/// One element of a request's argument list.
#[derive(Clone, Debug, PartialEq)]
pub enum ArgEntry {
    /// A JSON scalar, bindable as a statement parameter.
    Scalar(JsonScalar),
    /// A JSON array: the argument group of one batch statement.
    List(Vec<ArgItem>),
    /// A JSON object: never a legal argument.
    Object,
}

/// The statement part of a request: one statement, or a batch.
#[derive(Clone, Debug, PartialEq)]
pub enum SqlInput {
    Single(String),
    Batch(Vec<String>),
}

/// A decoded request: statement text and arguments.
#[derive(Clone, Debug, PartialEq)]
pub struct Input {
    pub sql: SqlInput,
    pub args: Vec<ArgEntry>,
}

/// A response: result rows, empty on any failure and on a batch.
#[derive(Clone, Debug, PartialEq)]
pub struct Output {
    pub rows: Vec<Vec<JsonScalar>>,
}

/// Model of an `ArgItem`.
pub ghost enum ArgItemModel {
    Scalar(ScalarModel),
    Composite,
}

/// Model of an `ArgEntry`.
pub ghost enum ArgEntryModel {
    Scalar(ScalarModel),
    List(Seq<ArgItemModel>),
    Object,
}

/// Model of a `SqlInput`: statement text as character sequences.
pub ghost enum SqlModel {
    Single(Seq<char>),
    Batch(Seq<Seq<char>>),
}

/// Model of an `Input`.
pub ghost struct InputModel {
    pub sql: SqlModel,
    pub args: Seq<ArgEntryModel>,
}

impl View for ArgItem {
    type V = ArgItemModel;

    open spec fn view(&self) -> ArgItemModel {
        match self {
            ArgItem::Scalar(s) => ArgItemModel::Scalar(s@),
            ArgItem::Composite => ArgItemModel::Composite,
        }
    }
}

impl DeepView for ArgItem {
    type V = ArgItemModel;

    open spec fn deep_view(&self) -> ArgItemModel {
        self.view()
    }
}

impl View for ArgEntry {
    type V = ArgEntryModel;

    open spec fn view(&self) -> ArgEntryModel {
        match self {
            ArgEntry::Scalar(s) => ArgEntryModel::Scalar(s@),
            ArgEntry::List(items) => ArgEntryModel::List(items.deep_view()),
            ArgEntry::Object => ArgEntryModel::Object,
        }
    }
}

impl DeepView for ArgEntry {
    type V = ArgEntryModel;

    open spec fn deep_view(&self) -> ArgEntryModel {
        self.view()
    }
}

impl View for SqlInput {
    type V = SqlModel;

    open spec fn view(&self) -> SqlModel {
        match self {
            SqlInput::Single(sql) => SqlModel::Single(sql@),
            SqlInput::Batch(stmts) => SqlModel::Batch(stmts.deep_view()),
        }
    }
}

impl View for Input {
    type V = InputModel;

    open spec fn view(&self) -> InputModel {
        InputModel { sql: self.sql@, args: self.args.deep_view() }
    }
}

impl View for Output {
    type V = Seq<Seq<ScalarModel>>;

    open spec fn view(&self) -> Seq<Seq<ScalarModel>> {
        self.rows.deep_view()
    }
}

impl Default for Output {
    /// The empty response: no rows.
    fn default() -> (r: Self)
        ensures
            r@ == Seq::<Seq<ScalarModel>>::empty(),
    {
        let r = Output { rows: Vec::new() };
        proof {
            assert(r@ =~= Seq::<Seq<ScalarModel>>::empty());
        }
        r
    }
}

} // verus!
