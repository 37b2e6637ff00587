use vstd::prelude::*;
use crate::text::opt_view;

verus! {

/// A value bound to one parameter of a database statement.
pub enum SqlValue {
    Text(String),
    NullableText(Option<String>),
    Int(i32),
}

/// What a statement parameter holds, as plain text and numbers.
pub enum SqlValueModel {
    Text(Seq<char>),
    NullableText(Option<Seq<char>>),
    Int(i32),
}

impl View for SqlValue {
    type V = SqlValueModel;

    open spec fn view(&self) -> SqlValueModel {
        match self {
            SqlValue::Text(s) => SqlValueModel::Text(s@),
            SqlValue::NullableText(o) => SqlValueModel::NullableText(opt_view(*o)),
            SqlValue::Int(n) => SqlValueModel::Int(*n),
        }
    }
}

/// The parameters of a statement, in binding order.
pub open spec fn params_view(v: Seq<SqlValue>) -> Seq<SqlValueModel> {
    v.map_values(|x: SqlValue| x@)
}

} // verus!
