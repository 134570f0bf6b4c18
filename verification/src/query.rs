//! What filters and updates mean to the documents of a collection. Nothing here runs: the laws of
//! this library are stated over these definitions. They cover the operators that this library
//! writes, on fields that hold no array (the database would look inside one); an expression on
//! values that its operator is not defined on has no value here.
use vstd::prelude::*;

use crate::document::{doc_field, field, no_fields, BsonValue, Fields};

verus! {

/// The position of the first dot in a path; its length where there is none.
pub open spec fn first_dot(path: Seq<char>) -> int
    decreases path.len(),
{
    if path.len() == 0 || path[0] == '.' {
        0
    } else {
        1 + first_dot(path.drop_first())
    }
}

/// Whether a name has no dot.
pub open spec fn is_plain(name: Seq<char>) -> bool {
    forall|i: int| 0 <= i < name.len() ==> #[trigger] name[i] != '.'
}

/// The value at a path: dots lead into documents.
pub open spec fn lookup(document: Fields, path: Seq<char>) -> Option<BsonValue>
    decreases path.len(),
{
    let dot = first_dot(path);
    if dot < 0 || dot >= path.len() {
        field(document, path)
    } else {
        match doc_field(document, path.take(dot)) {
            Some(inner) => lookup(inner, path.skip(dot + 1)),
            None => None,
        }
    }
}

proof fn first_dot_of_plain(name: Seq<char>)
    requires
        is_plain(name),
    ensures
        first_dot(name) == name.len(),
    decreases name.len(),
{
    if name.len() > 0 {
        assert(name[0] != '.');
        assert forall|i: int| 0 <= i < name.drop_first().len() implies #[trigger] name.drop_first()[i]
            != '.' by {
            assert(name[i + 1] != '.');
        }
        first_dot_of_plain(name.drop_first());
    }
}

proof fn first_dot_after_plain(name: Seq<char>, rest: Seq<char>)
    requires
        is_plain(name),
    ensures
        first_dot(name + seq!['.'] + rest) == name.len(),
    decreases name.len(),
{
    let path = name + seq!['.'] + rest;
    if name.len() > 0 {
        assert(path[0] == name[0]);
        assert(name[0] != '.');
        assert(path.drop_first() =~= name.drop_first() + seq!['.'] + rest);
        assert forall|i: int| 0 <= i < name.drop_first().len() implies #[trigger] name.drop_first()[i]
            != '.' by {
            assert(name[i + 1] != '.');
        }
        first_dot_after_plain(name.drop_first(), rest);
    } else {
        assert(path[0] == '.');
    }
}

/// A name without a dot is looked up among the fields.
pub(crate) proof fn lookup_plain(document: Fields, name: Seq<char>)
    requires
        is_plain(name),
    ensures
        lookup(document, name) == field(document, name),
{
    first_dot_of_plain(name);
}

/// A dotted path is looked up inside the document that its first part names.
pub(crate) proof fn lookup_inside(document: Fields, path: Seq<char>, outer: Seq<char>, inner: Seq<char>)
    requires
        is_plain(outer),
        path == outer + seq!['.'] + inner,
    ensures
        lookup(document, path) == match doc_field(document, outer) {
            Some(fields) => lookup(fields, inner),
            None => None,
        },
{
    first_dot_after_plain(outer, inner);
    assert(path.take(outer.len() as int) =~= outer);
    assert(path.skip(outer.len() as int + 1) =~= inner);
}

/// Whether an operator on one field holds of the value there.
pub open spec fn operator_holds(
    value: Option<BsonValue>,
    name: Seq<char>,
    operand: BsonValue,
) -> bool {
    if name == "$in"@ {
        operand matches BsonValue::Array(values) && value matches Some(value) && values.contains(
            value,
        )
    } else if name == "$nin"@ {
        operand matches BsonValue::Array(values) && !(value matches Some(value) && values.contains(
            value,
        ))
    } else if name == "$eq"@ {
        value == Some(operand)
    } else if name == "$exists"@ {
        operand matches BsonValue::Bool(present) && present == (value is Some)
    } else if name == "$type"@ {
        operand == BsonValue::Str("date"@) && value matches Some(BsonValue::Date(_))
    } else {
        false
    }
}

/// Whether every one of several operators on one field holds of the value there.
pub open spec fn operators_hold(value: Option<BsonValue>, operators: Fields) -> bool {
    forall|name: Seq<char>| #[trigger]
        operators.dom().contains(name) ==> operator_holds(value, name, operators[name])
}

/// Whether a condition holds of the value of a field: every operator of a document of operators,
/// or else equality.
pub open spec fn condition_holds(value: Option<BsonValue>, condition: BsonValue) -> bool {
    match condition {
        BsonValue::Doc(operators) => operators_hold(value, operators),
        literal => value == Some(literal),
    }
}

/// The whole number that a value is, if it is one.
pub open spec fn whole_number(value: Option<BsonValue>) -> Option<int> {
    match value {
        Some(BsonValue::Int32(number)) => Some(number as int),
        Some(BsonValue::Int64(number)) => Some(number as int),
        _ => None,
    }
}

/// The sum of a date and a number of milliseconds, where it is a date again.
pub open spec fn date_sum(
    date: Option<BsonValue>,
    millis: Option<BsonValue>,
) -> Option<BsonValue> {
    match (date, whole_number(millis)) {
        (Some(BsonValue::Date(date)), Some(millis)) => if i64::MIN <= date + millis <= i64::MAX {
            Some(BsonValue::Date((date + millis) as i64))
        } else {
            None
        },
        _ => None,
    }
}

/// The name of the type of a value; what is not there has a name too.
pub open spec fn name_of_type(value: Option<BsonValue>) -> Seq<char> {
    match value {
        None => "missing"@,
        Some(BsonValue::Null) => "null"@,
        Some(BsonValue::Bool(_)) => "bool"@,
        Some(BsonValue::Int32(_)) => "int"@,
        Some(BsonValue::Int64(_)) => "long"@,
        Some(BsonValue::Str(_)) => "string"@,
        Some(BsonValue::Date(_)) => "date"@,
        Some(BsonValue::ObjectId(_)) => "objectId"@,
        Some(BsonValue::Array(_)) => "array"@,
        Some(BsonValue::Doc(_)) => "object"@,
        Some(BsonValue::Other(_)) => "other"@,
    }
}

/// The value of an expression on a document, to a depth of nesting. A string that starts with a
/// dollar sign stands for a field.
pub open spec fn evaluate(expression: BsonValue, document: Fields, depth: nat) -> Option<BsonValue>
    decreases depth,
{
    match expression {
        BsonValue::Str(text) => if text.len() > 0 && text[0] == '$' {
            lookup(document, text.skip(1))
        } else {
            Some(expression)
        },
        BsonValue::Doc(operators) => if depth == 0 {
            None
        } else if operators.dom().contains("$add"@) {
            match operators["$add"@] {
                BsonValue::Array(operands) => date_sum(
                    evaluate(operands[0], document, (depth - 1) as nat),
                    evaluate(operands[1], document, (depth - 1) as nat),
                ),
                _ => None,
            }
        } else if operators.dom().contains("$ifNull"@) {
            match operators["$ifNull"@] {
                BsonValue::Array(operands) => match evaluate(
                    operands[0],
                    document,
                    (depth - 1) as nat,
                ) {
                    None | Some(BsonValue::Null) => evaluate(
                        operands[1],
                        document,
                        (depth - 1) as nat,
                    ),
                    value => value,
                },
                _ => None,
            }
        } else if operators.dom().contains("$lte"@) {
            match operators["$lte"@] {
                BsonValue::Array(operands) => match (
                    evaluate(operands[0], document, (depth - 1) as nat),
                    evaluate(operands[1], document, (depth - 1) as nat),
                ) {
                    (Some(BsonValue::Date(left)), Some(BsonValue::Date(right))) => Some(
                        BsonValue::Bool(left <= right),
                    ),
                    _ => None,
                },
                _ => None,
            }
        } else if operators.dom().contains("$ne"@) {
            match operators["$ne"@] {
                BsonValue::Array(operands) => Some(
                    BsonValue::Bool(
                        evaluate(operands[0], document, (depth - 1) as nat) != evaluate(
                            operands[1],
                            document,
                            (depth - 1) as nat,
                        ),
                    ),
                ),
                _ => None,
            }
        } else if operators.dom().contains("$type"@) {
            Some(
                BsonValue::Str(
                    name_of_type(evaluate(operators["$type"@], document, (depth - 1) as nat)),
                ),
            )
        } else if operators.dom().contains("$getField"@) {
            match operators["$getField"@] {
                BsonValue::Doc(arguments) => match (
                    evaluate(arguments["input"@], document, (depth - 1) as nat),
                    arguments["field"@],
                ) {
                    (Some(BsonValue::Doc(fields)), BsonValue::Str(name)) => field(fields, name),
                    _ => None,
                },
                _ => None,
            }
        } else {
            None
        },
        literal => Some(literal),
    }
}

/// How deep expressions and alternatives nest in the filters of this library.
pub open spec fn nesting() -> nat {
    5
}

/// Whether a filter selects a document, without alternatives.
pub open spec fn selects_plainly(filter: Fields, document: Fields) -> bool {
    forall|path: Seq<char>| #[trigger]
        filter.dom().contains(path) ==> if path == "$expr"@ {
            evaluate(filter[path], document, nesting()) == Some(BsonValue::Bool(true))
        } else {
            condition_holds(lookup(document, path), filter[path])
        }
}

/// Whether a filter, given as a value, selects a document.
pub open spec fn alternative_selects(alternative: BsonValue, document: Fields) -> bool {
    match alternative {
        BsonValue::Doc(filter) => selects_plainly(filter, document),
        _ => false,
    }
}

/// Whether one of several alternatives selects a document.
pub open spec fn one_selects(alternatives: Seq<BsonValue>, document: Fields) -> bool {
    exists|i: int|
        0 <= i < alternatives.len() && #[trigger] alternative_selects(alternatives[i], document)
}

/// Whether one of several alternatives, given as a value, selects a document.
pub open spec fn any_selects(alternatives: BsonValue, document: Fields) -> bool {
    match alternatives {
        BsonValue::Array(alternatives) => one_selects(alternatives, document),
        _ => false,
    }
}

/// Whether a filter selects a document: every condition holds, and one of the alternatives where
/// the filter has some.
pub open spec fn selects(filter: Fields, document: Fields) -> bool {
    &&& selects_plainly(filter.remove("$or"@), document)
    &&& filter.dom().contains("$or"@) ==> any_selects(filter["$or"@], document)
}

/// Whether one of two paths lies on the other, so that a change at one may show at the other.
pub open spec fn is_related(left: Seq<char>, right: Seq<char>) -> bool {
    ||| left == right
    ||| (left + seq!['.']).is_prefix_of(right)
    ||| (right + seq!['.']).is_prefix_of(left)
}

/// Whether no change of `changes` can show at `path`.
pub open spec fn is_untouched(path: Seq<char>, changes: Fields) -> bool {
    forall|changed: Seq<char>| #[trigger]
        changes.dom().contains(changed) ==> !is_related(path, changed)
}

/// The fields under one operator of an update.
pub open spec fn update_part(update: Fields, name: Seq<char>) -> Fields {
    match doc_field(update, name) {
        Some(fields) => fields,
        None => no_fields(),
    }
}

/// Whether an update turns `before` into `after`: what it sets is there, what it unsets is gone, and
/// whatever it does not touch is as before. What it sets on insertion counts for a new document
/// alone.
pub open spec fn updates(update: Fields, before: Fields, after: Fields, inserting: bool) -> bool {
    let set = update_part(update, "$set"@);
    let set_on_insert = update_part(update, "$setOnInsert"@);
    let unset = update_part(update, "$unset"@);
    &&& forall|path: Seq<char>| #[trigger]
        set.dom().contains(path) ==> lookup(after, path) == Some(set[path])
    &&& inserting ==> forall|path: Seq<char>| #[trigger]
        set_on_insert.dom().contains(path) ==> lookup(after, path) == Some(set_on_insert[path])
    &&& forall|path: Seq<char>| #[trigger]
        unset.dom().contains(path) ==> lookup(after, path) is None
    &&& forall|path: Seq<char>|
        is_untouched(path, set) && is_untouched(path, unset) && (inserting ==> is_untouched(
            path,
            set_on_insert,
        )) ==> #[trigger] lookup(after, path) == lookup(before, path)
}

} // verus!
