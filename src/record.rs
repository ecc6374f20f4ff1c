//! The canonical record of a row: the table name first, then each column with the
//! JSON projection of its cell, in schema order; and its compact JSON text.
use vstd::prelude::*;
use vstd::string::StringExecFns;
use crate::cell::{CellValue, JsonScalar, JsonScalarView, cell_json, into_json_value, null_text};

verus! {

/// What `json::stringify` gives for a string: the JSON string literal.
pub uninterp spec fn json_quoted(s: Seq<char>) -> Seq<char>;

/// True when no character of `s` needs a JSON escape.
pub open spec fn needs_no_escape(s: Seq<char>) -> bool {
    forall|i: int| 0 <= i < s.len() ==> #[trigger] s[i] != '"' && s[i] != '\\' && (s[i] as u32) >= 32
}

/// Relies on `json::stringify` of a `&str`: the dump of a JSON string, which is
/// the text between double quotes, where only `"`, `\` and control characters
/// (below U+0020) are escaped.
#[verifier::external_body]
fn quote(s: &str) -> (r: String)
    ensures
        r@ == json_quoted(s@),
        needs_no_escape(s@) ==> r@ == seq!['"'] + s@ + seq!['"'],
{
    json::stringify(s)
}

/// One named member of a canonical record.
pub struct Field {
    pub name: String,
    pub value: JsonScalar,
}

/// A row as an ordered document: the source table's name, then the columns.
pub struct CanonicalRecord {
    pub table_name: String,
    pub fields: Vec<Field>,
}

/// The row's cell count differs from the schema's column count.
#[derive(Debug, PartialEq, Eq, Structural, Clone, Copy)]
pub struct SchemaDrift {
    pub columns: usize,
    pub values: usize,
}

/// The key under which a record holds its table's name.
pub open spec fn table_key() -> Seq<char> {
    seq!['t', 'a', 'b', 'l', 'e', '_', 'n', 'a', 'm', 'e']
}

/// JSON text of a scalar.
pub open spec fn scalar_text(v: JsonScalarView) -> Seq<char> {
    match v {
        JsonScalarView::Null => null_text(),
        JsonScalarView::Number(t) => t,
        JsonScalarView::Text(s) => json_quoted(s),
    }
}

/// `"name":value`
pub open spec fn member_text(name: Seq<char>, value: JsonScalarView) -> Seq<char> {
    json_quoted(name) + seq![':'] + scalar_text(value)
}

/// `,"n1":v1,"n2":v2...` over paired names and values.
pub open spec fn members_text(names: Seq<Seq<char>>, values: Seq<JsonScalarView>) -> Seq<char>
    decreases names.len(),
{
    if names.len() == 0 || values.len() == 0 {
        Seq::<char>::empty()
    } else {
        members_text(names.drop_last(), values.drop_last()) + seq![',']
            + member_text(names.last(), values.last())
    }
}

/// The compact JSON object for a table name and its named column values.
pub open spec fn document_text(
    table: Seq<char>,
    names: Seq<Seq<char>>,
    values: Seq<JsonScalarView>,
) -> Seq<char> {
    seq!['{'] + member_text(table_key(), JsonScalarView::Text(table)) + members_text(names, values)
        + seq!['}']
}

pub open spec fn field_names(fields: Seq<Field>) -> Seq<Seq<char>> {
    fields.map_values(|f: Field| f.name@)
}

pub open spec fn field_values(fields: Seq<Field>) -> Seq<JsonScalarView> {
    fields.map_values(|f: Field| f.value@)
}

pub open spec fn string_views(s: Seq<String>) -> Seq<Seq<char>> {
    s.map_values(|x: String| x@)
}

pub open spec fn json_projections(values: Seq<CellValue>) -> Seq<JsonScalarView> {
    values.map_values(|v: CellValue| cell_json(v))
}

impl CanonicalRecord {
    /// The record's JSON text.
    pub open spec fn text(&self) -> Seq<char> {
        document_text(self.table_name@, field_names(self.fields@), field_values(self.fields@))
    }

    /// The record's compact JSON text, members in record order.
    pub fn to_json(&self) -> (r: String)
        ensures
            r@ == self.text(),
    {
        proof {
            reveal_strlit("table_name");
            reveal_strlit("{");
            reveal_strlit("}");
            reveal_strlit(",");
        }
        let mut out = String::from_str("{");
        let key = quote("table_name");
        push_member(&mut out, &key, &JsonScalar::Text(self.table_name.clone()));
        let ghost names = field_names(self.fields@);
        let ghost values = field_values(self.fields@);
        let ghost head = out@;
        let mut i: usize = 0;
        while i < self.fields.len()
            invariant
                i <= self.fields@.len(),
                names == field_names(self.fields@),
                values == field_values(self.fields@),
                out@ == head + members_text(names.take(i as int), values.take(i as int)),
            decreases self.fields@.len() - i,
        {
            let ghost before = out@;
            out.append(",");
            let name = quote(self.fields[i].name.as_str());
            push_member(&mut out, &name, &self.fields[i].value);
            proof {
                assert(names.take(i + 1).drop_last() =~= names.take(i as int));
                assert(values.take(i + 1).drop_last() =~= values.take(i as int));
                assert(names.take(i + 1).last() == self.fields@[i as int].name@);
                assert(values.take(i + 1).last() == self.fields@[i as int].value@);
                reveal_strlit(",");
                assert(out@ =~= before + seq![','] + member_text(
                    self.fields@[i as int].name@,
                    self.fields@[i as int].value@,
                ));
                assert(out@ =~= head + members_text(names.take(i + 1), values.take(i + 1)));
            }
            i = i + 1;
        }
        assert(names.take(i as int) =~= names);
        assert(values.take(i as int) =~= values);
        out.append("}");
        assert(table_key() =~= "table_name"@);
        assert(out@ =~= self.text());
        out
    }
}

/// Appends `key:value`, the key being already quoted.
fn push_member(out: &mut String, quoted_key: &String, value: &JsonScalar)
    ensures
        final(out)@ == old(out)@ + quoted_key@ + seq![':'] + scalar_text(value@),
{
    proof {
        reveal_strlit(":");
        reveal_strlit("null");
    }
    out.append(quoted_key.as_str());
    out.append(":");
    match value {
        JsonScalar::Null => out.append("null"),
        JsonScalar::Number(t) => out.append(t.as_str()),
        JsonScalar::Text(s) => {
            let q = quote(s.as_str());
            out.append(q.as_str());
        },
    }
    assert(final(out)@ =~= old(out)@ + quoted_key@ + seq![':'] + scalar_text(value@));
}

/// Pairs each column name with the JSON projection of its cell; fails when the
/// row and the schema differ in length, never truncating or padding.
pub fn build_record(columns: &Vec<String>, values: &Vec<CellValue>, table_name: &String) -> (r:
    Result<CanonicalRecord, SchemaDrift>)
    ensures
        match r {
            Ok(rec) => {
                &&& columns@.len() == values@.len()
                &&& rec.table_name@ == table_name@
                &&& field_names(rec.fields@) == string_views(columns@)
                &&& field_values(rec.fields@) == json_projections(values@)
            },
            Err(e) => {
                &&& columns@.len() != values@.len()
                &&& e == (SchemaDrift { columns: columns@.len() as usize, values: values@.len() as usize })
            },
        },
{
    if columns.len() != values.len() {
        return Err(SchemaDrift { columns: columns.len(), values: values.len() });
    }
    let mut fields: Vec<Field> = Vec::new();
    let mut i: usize = 0;
    while i < values.len()
        invariant
            i <= values@.len(),
            columns@.len() == values@.len(),
            fields@.len() == i,
            forall|j: int| 0 <= j < i ==> #[trigger] fields@[j].name@ == columns@[j]@,
            forall|j: int| 0 <= j < i ==> #[trigger] fields@[j].value@ == cell_json(values@[j]),
        decreases values@.len() - i,
    {
        let name = columns[i].clone();
        let value = into_json_value(&values[i]);
        fields.push(Field { name, value });
        i = i + 1;
    }
    assert(field_names(fields@) =~= string_views(columns@));
    assert(field_values(fields@) =~= json_projections(values@));
    Ok(CanonicalRecord { table_name: table_name.clone(), fields })
}

/// The compact JSON document of a row; fails when the row and the schema differ
/// in length.
pub fn row_document(columns: &Vec<String>, values: &Vec<CellValue>, table_name: &String) -> (r:
    Result<String, SchemaDrift>)
    ensures
        match r {
            Ok(s) => {
                &&& columns@.len() == values@.len()
                &&& s@ == document_text(table_name@, string_views(columns@), json_projections(values@))
            },
            Err(e) => {
                &&& columns@.len() != values@.len()
                &&& e == (SchemaDrift { columns: columns@.len() as usize, values: values@.len() as usize })
            },
        },
{
    match build_record(columns, values, table_name) {
        Ok(rec) => Ok(rec.to_json()),
        Err(e) => Err(e),
    }
}

} // verus!
