//! The wire codes of the term and query kinds against the protocol
//! crate's generated enumerations.

use ql2::query::QueryType;
use ql2::term::TermType;
use unreql::{QueryKind, TermKind};

#[test]
fn term_codes_match_the_protocol_definition() {
    assert_eq!(TermKind::Datum.code(), TermType::Datum as i64);
    assert_eq!(TermKind::MakeArray.code(), TermType::MakeArray as i64);
    assert_eq!(TermKind::Var.code(), TermType::Var as i64);
    assert_eq!(TermKind::Error.code(), TermType::Error as i64);
    assert_eq!(TermKind::ImplicitVar.code(), TermType::ImplicitVar as i64);
    assert_eq!(TermKind::Db.code(), TermType::Db as i64);
    assert_eq!(TermKind::Table.code(), TermType::Table as i64);
    assert_eq!(TermKind::Get.code(), TermType::Get as i64);
    assert_eq!(TermKind::GetAll.code(), TermType::GetAll as i64);
    assert_eq!(TermKind::Eq.code(), TermType::Eq as i64);
    assert_eq!(TermKind::Ne.code(), TermType::Ne as i64);
    assert_eq!(TermKind::Lt.code(), TermType::Lt as i64);
    assert_eq!(TermKind::Le.code(), TermType::Le as i64);
    assert_eq!(TermKind::Gt.code(), TermType::Gt as i64);
    assert_eq!(TermKind::Ge.code(), TermType::Ge as i64);
    assert_eq!(TermKind::Not.code(), TermType::Not as i64);
    assert_eq!(TermKind::Add.code(), TermType::Add as i64);
    assert_eq!(TermKind::Sub.code(), TermType::Sub as i64);
    assert_eq!(TermKind::Mul.code(), TermType::Mul as i64);
    assert_eq!(TermKind::Div.code(), TermType::Div as i64);
    assert_eq!(TermKind::Mod.code(), TermType::Mod as i64);
    assert_eq!(TermKind::Floor.code(), TermType::Floor as i64);
    assert_eq!(TermKind::Ceil.code(), TermType::Ceil as i64);
    assert_eq!(TermKind::Round.code(), TermType::Round as i64);
    assert_eq!(TermKind::GetField.code(), TermType::GetField as i64);
    assert_eq!(TermKind::Bracket.code(), TermType::Bracket as i64);
    assert_eq!(TermKind::HasFields.code(), TermType::HasFields as i64);
    assert_eq!(TermKind::Pluck.code(), TermType::Pluck as i64);
    assert_eq!(TermKind::Without.code(), TermType::Without as i64);
    assert_eq!(TermKind::Merge.code(), TermType::Merge as i64);
    assert_eq!(TermKind::Between.code(), TermType::Between as i64);
    assert_eq!(TermKind::Slice.code(), TermType::Slice as i64);
    assert_eq!(TermKind::Reduce.code(), TermType::Reduce as i64);
    assert_eq!(TermKind::Fold.code(), TermType::Fold as i64);
    assert_eq!(TermKind::Filter.code(), TermType::Filter as i64);
    assert_eq!(TermKind::OrderBy.code(), TermType::OrderBy as i64);
    assert_eq!(TermKind::Distinct.code(), TermType::Distinct as i64);
    assert_eq!(TermKind::Count.code(), TermType::Count as i64);
    assert_eq!(TermKind::Union.code(), TermType::Union as i64);
    assert_eq!(TermKind::Nth.code(), TermType::Nth as i64);
    assert_eq!(TermKind::Skip.code(), TermType::Skip as i64);
    assert_eq!(TermKind::Limit.code(), TermType::Limit as i64);
    assert_eq!(TermKind::Update.code(), TermType::Update as i64);
    assert_eq!(TermKind::Delete.code(), TermType::Delete as i64);
    assert_eq!(TermKind::Replace.code(), TermType::Replace as i64);
    assert_eq!(TermKind::Insert.code(), TermType::Insert as i64);
    assert_eq!(TermKind::DbCreate.code(), TermType::DbCreate as i64);
    assert_eq!(TermKind::DbDrop.code(), TermType::DbDrop as i64);
    assert_eq!(TermKind::DbList.code(), TermType::DbList as i64);
    assert_eq!(TermKind::TableCreate.code(), TermType::TableCreate as i64);
    assert_eq!(TermKind::TableDrop.code(), TermType::TableDrop as i64);
    assert_eq!(TermKind::TableList.code(), TermType::TableList as i64);
    assert_eq!(TermKind::IndexCreate.code(), TermType::IndexCreate as i64);
    assert_eq!(TermKind::IndexDrop.code(), TermType::IndexDrop as i64);
    assert_eq!(TermKind::IndexList.code(), TermType::IndexList as i64);
    assert_eq!(TermKind::IndexStatus.code(), TermType::IndexStatus as i64);
    assert_eq!(TermKind::IndexWait.code(), TermType::IndexWait as i64);
    assert_eq!(TermKind::IndexRename.code(), TermType::IndexRename as i64);
    assert_eq!(TermKind::Funcall.code(), TermType::Funcall as i64);
    assert_eq!(TermKind::Branch.code(), TermType::Branch as i64);
    assert_eq!(TermKind::Or.code(), TermType::Or as i64);
    assert_eq!(TermKind::And.code(), TermType::And as i64);
    assert_eq!(TermKind::ForEach.code(), TermType::ForEach as i64);
    assert_eq!(TermKind::Func.code(), TermType::Func as i64);
    assert_eq!(TermKind::Asc.code(), TermType::Asc as i64);
    assert_eq!(TermKind::Desc.code(), TermType::Desc as i64);
    assert_eq!(TermKind::Info.code(), TermType::Info as i64);
    assert_eq!(TermKind::Default.code(), TermType::Default as i64);
    assert_eq!(TermKind::Group.code(), TermType::Group as i64);
    assert_eq!(TermKind::Sum.code(), TermType::Sum as i64);
    assert_eq!(TermKind::Avg.code(), TermType::Avg as i64);
    assert_eq!(TermKind::Min.code(), TermType::Min as i64);
    assert_eq!(TermKind::Max.code(), TermType::Max as i64);
    assert_eq!(TermKind::Random.code(), TermType::Random as i64);
    assert_eq!(TermKind::Changes.code(), TermType::Changes as i64);
    assert_eq!(TermKind::Args.code(), TermType::Args as i64);
    assert_eq!(TermKind::Minval.code(), TermType::Minval as i64);
    assert_eq!(TermKind::Maxval.code(), TermType::Maxval as i64);
    assert_eq!(TermKind::Sync.code(), TermType::Sync as i64);
    assert_eq!(TermKind::Grant.code(), TermType::Grant as i64);
    assert_eq!(TermKind::Point.code(), TermType::Point as i64);
    assert_eq!(TermKind::Circle.code(), TermType::Circle as i64);
    assert_eq!(TermKind::Distance.code(), TermType::Distance as i64);
    assert_eq!(TermKind::GetNearest.code(), TermType::GetNearest as i64);
    assert_eq!(TermKind::Wait.code(), TermType::Wait as i64);
    assert_eq!(TermKind::Now.code(), TermType::Now as i64);
}

#[test]
fn query_codes_match_the_protocol_definition() {
    assert_eq!(QueryKind::Start.code(), QueryType::Start as i64);
    assert_eq!(QueryKind::Continue.code(), QueryType::Continue as i64);
    assert_eq!(QueryKind::Stop.code(), QueryType::Stop as i64);
    assert_eq!(QueryKind::NoreplyWait.code(), QueryType::NoreplyWait as i64);
    assert_eq!(QueryKind::ServerInfo.code(), QueryType::ServerInfo as i64);
}
