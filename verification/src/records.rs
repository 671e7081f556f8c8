//! The two input record shapes and their loaders.
//!
//! A loader takes the raw input text, parses it as a JSON array of objects,
//! and validates every row against the record shape: exactly the expected
//! fields, each of the expected type. Any deviation — malformed text, a
//! non-array top level, a missing, extra or mistyped field — is a schema
//! error, and nothing is returned. A record's `code` must also be usable
//! as a file name: non-empty and free of path separators.

use vstd::prelude::*;

use crate::errors::BuildError;
use crate::rows::{parse_rows, row_model, rows_model, JsonField};
use crate::rows::FieldValue;
use crate::text::str_eq;

verus! {

/// One status record, as loaded: four opaque strings.
#[derive(Debug)]
pub struct StatusRecord {
    pub code: String,
    pub reason: String,
    pub description: String,
    pub link: String,
}

/// The mathematical shape of one status record.
pub struct StatusModel {
    pub code: Seq<char>,
    pub reason: Seq<char>,
    pub description: Seq<char>,
    pub link: Seq<char>,
}

impl View for StatusRecord {
    type V = StatusModel;

    open spec fn view(&self) -> StatusModel {
        StatusModel {
            code: self.code@,
            reason: self.reason@,
            description: self.description@,
            link: self.link@,
        }
    }
}

/// A code that can stand in a file name: non-empty, no path separator.
pub open spec fn code_is_safe(code: Seq<char>) -> bool {
    code.len() > 0 && forall|i: int|
        0 <= i < code.len() ==> code[i] != '/' && code[i] != '\\'
}

impl StatusModel {
    /// A loaded record's invariant.
    pub open spec fn wf(self) -> bool {
        code_is_safe(self.code)
    }
}

/// One status group, as loaded: three opaque strings and the codes listed
/// under the group.
#[derive(Debug)]
pub struct StatusGroup {
    pub title: String,
    pub description: String,
    pub link: String,
    pub codes: Vec<u64>,
}

/// The mathematical shape of one status group.
pub struct GroupModel {
    pub title: Seq<char>,
    pub description: Seq<char>,
    pub link: Seq<char>,
    pub codes: Seq<u64>,
}

impl View for StatusGroup {
    type V = GroupModel;

    open spec fn view(&self) -> GroupModel {
        GroupModel {
            title: self.title@,
            description: self.description@,
            link: self.link@,
            codes: self.codes@,
        }
    }
}

/// The string carried by a field, where it is one.
pub open spec fn str_of(f: JsonField) -> Seq<char>
    recommends
        f is Str,
{
    match f {
        JsonField::Str(t) => t,
        _ => Seq::<char>::empty(),
    }
}

/// The integer list carried by a field, where it is one.
pub open spec fn ints_of(f: JsonField) -> Seq<u64>
    recommends
        f is Ints,
{
    match f {
        JsonField::Ints(xs) => xs,
        _ => Seq::<u64>::empty(),
    }
}

/// A row that is exactly one status record: the four string fields, in key
/// order, and a filesystem-safe code.
pub open spec fn status_row_ok(row: Seq<(Seq<char>, JsonField)>) -> bool {
    &&& row.len() == 4
    &&& row[0].0 == "code"@ && row[0].1 is Str
    &&& row[1].0 == "description"@ && row[1].1 is Str
    &&& row[2].0 == "link"@ && row[2].1 is Str
    &&& row[3].0 == "reason"@ && row[3].1 is Str
    &&& code_is_safe(str_of(row[0].1))
}

/// The record held by a well-shaped status row.
pub open spec fn status_of_row(row: Seq<(Seq<char>, JsonField)>) -> StatusModel
    recommends
        status_row_ok(row),
{
    StatusModel {
        code: str_of(row[0].1),
        description: str_of(row[1].1),
        link: str_of(row[2].1),
        reason: str_of(row[3].1),
    }
}

/// All rows as status records, or nothing if any row is mis-shaped.
pub open spec fn statuses_of_rows(rows: Seq<Seq<(Seq<char>, JsonField)>>) -> Option<
    Seq<StatusModel>,
> {
    if forall|i: int| 0 <= i < rows.len() ==> status_row_ok(#[trigger] rows[i]) {
        Some(rows.map_values(|row: Seq<(Seq<char>, JsonField)>| status_of_row(row)))
    } else {
        None
    }
}

/// What loading status records from a text yields.
pub open spec fn statuses_spec(text: Seq<char>) -> Option<Seq<StatusModel>> {
    match crate::rows::json_rows(text) {
        Some(rows) => statuses_of_rows(rows),
        None => None,
    }
}

/// A row that is exactly one status group: three string fields and the
/// integer list, in key order.
pub open spec fn group_row_ok(row: Seq<(Seq<char>, JsonField)>) -> bool {
    &&& row.len() == 4
    &&& row[0].0 == "codes"@ && row[0].1 is Ints
    &&& row[1].0 == "description"@ && row[1].1 is Str
    &&& row[2].0 == "link"@ && row[2].1 is Str
    &&& row[3].0 == "title"@ && row[3].1 is Str
}

/// The group held by a well-shaped group row.
pub open spec fn group_of_row(row: Seq<(Seq<char>, JsonField)>) -> GroupModel
    recommends
        group_row_ok(row),
{
    GroupModel {
        codes: ints_of(row[0].1),
        description: str_of(row[1].1),
        link: str_of(row[2].1),
        title: str_of(row[3].1),
    }
}

/// All rows as status groups, or nothing if any row is mis-shaped.
pub open spec fn groups_of_rows(rows: Seq<Seq<(Seq<char>, JsonField)>>) -> Option<
    Seq<GroupModel>,
> {
    if forall|i: int| 0 <= i < rows.len() ==> group_row_ok(#[trigger] rows[i]) {
        Some(rows.map_values(|row: Seq<(Seq<char>, JsonField)>| group_of_row(row)))
    } else {
        None
    }
}

/// What loading status groups from a text yields.
pub open spec fn groups_spec(text: Seq<char>) -> Option<Seq<GroupModel>> {
    match crate::rows::json_rows(text) {
        Some(rows) => groups_of_rows(rows),
        None => None,
    }
}

/// The models of a vector of loaded records.
pub open spec fn records_model(v: Seq<StatusRecord>) -> Seq<StatusModel> {
    v.map_values(|r: StatusRecord| r@)
}

/// The models of a vector of loaded groups.
pub open spec fn groups_model(v: Seq<StatusGroup>) -> Seq<GroupModel> {
    v.map_values(|g: StatusGroup| g@)
}

fn code_safe(code: &str) -> (r: bool)
    ensures
        r == code_is_safe(code@),
{
    let n = code.unicode_len();
    if n == 0 {
        return false;
    }
    let mut i: usize = 0;
    while i < n
        invariant
            n == code@.len(),
            0 <= i <= n,
            forall|k: int| 0 <= k < i ==> code@[k] != '/' && code@[k] != '\\',
        decreases n - i,
    {
        let c = code.get_char(i);
        if c == '/' || c == '\\' {
            return false;
        }
        i = i + 1;
    }
    true
}

fn copy_codes(xs: &Vec<u64>) -> (r: Vec<u64>)
    ensures
        r@ == xs@,
{
    let mut r: Vec<u64> = Vec::new();
    let mut i: usize = 0;
    while i < xs.len()
        invariant
            0 <= i <= xs@.len(),
            r@ == xs@.take(i as int),
        decreases xs@.len() - i,
    {
        r.push(xs[i]);
        i = i + 1;
        proof {
            assert(r@ =~= xs@.take(i as int));
        }
    }
    proof {
        assert(xs@.take(xs@.len() as int) =~= xs@);
    }
    r
}

fn check_status_row(row: &Vec<(String, FieldValue)>) -> (r: Option<StatusRecord>)
    ensures
        match r {
            Some(rec) => status_row_ok(row_model(row@)) && rec@ == status_of_row(row_model(row@)),
            None => !status_row_ok(row_model(row@)),
        },
{
    if row.len() != 4 {
        return None;
    }
    if !str_eq(row[0].0.as_str(), "code") {
        return None;
    }
    let code = match &row[0].1 {
        FieldValue::Str(t) => t.clone(),
        _ => { return None; },
    };
    if !str_eq(row[1].0.as_str(), "description") {
        return None;
    }
    let description = match &row[1].1 {
        FieldValue::Str(t) => t.clone(),
        _ => { return None; },
    };
    if !str_eq(row[2].0.as_str(), "link") {
        return None;
    }
    let link = match &row[2].1 {
        FieldValue::Str(t) => t.clone(),
        _ => { return None; },
    };
    if !str_eq(row[3].0.as_str(), "reason") {
        return None;
    }
    let reason = match &row[3].1 {
        FieldValue::Str(t) => t.clone(),
        _ => { return None; },
    };
    if !code_safe(code.as_str()) {
        return None;
    }
    Some(StatusRecord { code, reason, description, link })
}

fn check_group_row(row: &Vec<(String, FieldValue)>) -> (r: Option<StatusGroup>)
    ensures
        match r {
            Some(g) => group_row_ok(row_model(row@)) && g@ == group_of_row(row_model(row@)),
            None => !group_row_ok(row_model(row@)),
        },
{
    if row.len() != 4 {
        return None;
    }
    if !str_eq(row[0].0.as_str(), "codes") {
        return None;
    }
    let codes = match &row[0].1 {
        FieldValue::Ints(xs) => copy_codes(xs),
        _ => { return None; },
    };
    if !str_eq(row[1].0.as_str(), "description") {
        return None;
    }
    let description = match &row[1].1 {
        FieldValue::Str(t) => t.clone(),
        _ => { return None; },
    };
    if !str_eq(row[2].0.as_str(), "link") {
        return None;
    }
    let link = match &row[2].1 {
        FieldValue::Str(t) => t.clone(),
        _ => { return None; },
    };
    if !str_eq(row[3].0.as_str(), "title") {
        return None;
    }
    let title = match &row[3].1 {
        FieldValue::Str(t) => t.clone(),
        _ => { return None; },
    };
    Some(StatusGroup { title, description, link, codes })
}

/// Loads the status records of one build from the raw text of the status
/// data file. Succeeds exactly on a JSON array of objects each of which is
/// one status record; any other text is a schema error.
pub fn load_statuses(text: &str) -> (r: Result<Vec<StatusRecord>, BuildError>)
    ensures
        match r {
            Ok(v) => statuses_spec(text@) == Some(records_model(v@)) && forall|i: int|
                0 <= i < v@.len() ==> (#[trigger] v@[i])@.wf(),
            Err(e) => e is Schema && statuses_spec(text@) is None,
        },
{
    let rows = match parse_rows(text) {
        Some(rows) => rows,
        None => { return Err(BuildError::Schema("status data is not a JSON array of objects".to_owned())); },
    };
    let ghost rm = rows_model(rows@);
    let mut out: Vec<StatusRecord> = Vec::new();
    let mut idx: usize = 0;
    while idx < rows.len()
        invariant
            rm == rows_model(rows@),
            crate::rows::json_rows(text@) == Some(rm),
            out@.len() == idx,
            0 <= idx <= rows@.len(),
            forall|i: int| 0 <= i < idx ==> status_row_ok(#[trigger] rm[i]),
            forall|i: int| 0 <= i < idx ==> (#[trigger] out@[i])@ == status_of_row(rm[i]),
        decreases rows@.len() - idx,
    {
        proof {
            assert(rm[idx as int] == row_model(rows@[idx as int]@));
        }
        match check_status_row(&rows[idx]) {
            Some(rec) => {
                out.push(rec);
                idx = idx + 1;
            },
            None => {
                proof {
                    assert(!status_row_ok(rm[idx as int]));
                    assert(statuses_of_rows(rm) is None);
                }
                return Err(BuildError::Schema("a status record has the wrong shape".to_owned()));
            },
        }
    }
    proof {
        assert(statuses_of_rows(rm) == Some(
            rm.map_values(|row: Seq<(Seq<char>, JsonField)>| status_of_row(row)),
        ));
        assert(records_model(out@) =~= rm.map_values(
            |row: Seq<(Seq<char>, JsonField)>| status_of_row(row),
        ));
        assert(forall|i: int| 0 <= i < out@.len() ==> (#[trigger] out@[i])@.wf());
    }
    Ok(out)
}

/// Loads the status groups of one build from the raw text of the index
/// data file. Succeeds exactly on a JSON array of objects each of which is
/// one status group; any other text is a schema error.
pub fn load_groups(text: &str) -> (r: Result<Vec<StatusGroup>, BuildError>)
    ensures
        match r {
            Ok(v) => groups_spec(text@) == Some(groups_model(v@)),
            Err(e) => e is Schema && groups_spec(text@) is None,
        },
{
    let rows = match parse_rows(text) {
        Some(rows) => rows,
        None => { return Err(BuildError::Schema("index data is not a JSON array of objects".to_owned())); },
    };
    let ghost rm = rows_model(rows@);
    let mut out: Vec<StatusGroup> = Vec::new();
    let mut idx: usize = 0;
    while idx < rows.len()
        invariant
            rm == rows_model(rows@),
            crate::rows::json_rows(text@) == Some(rm),
            out@.len() == idx,
            0 <= idx <= rows@.len(),
            forall|i: int| 0 <= i < idx ==> group_row_ok(#[trigger] rm[i]),
            forall|i: int| 0 <= i < idx ==> (#[trigger] out@[i])@ == group_of_row(rm[i]),
        decreases rows@.len() - idx,
    {
        proof {
            assert(rm[idx as int] == row_model(rows@[idx as int]@));
        }
        match check_group_row(&rows[idx]) {
            Some(g) => {
                out.push(g);
                idx = idx + 1;
            },
            None => {
                proof {
                    assert(!group_row_ok(rm[idx as int]));
                    assert(groups_of_rows(rm) is None);
                }
                return Err(BuildError::Schema("a status group has the wrong shape".to_owned()));
            },
        }
    }
    proof {
        assert(groups_of_rows(rm) == Some(
            rm.map_values(|row: Seq<(Seq<char>, JsonField)>| group_of_row(row)),
        ));
        assert(groups_model(out@) =~= rm.map_values(
            |row: Seq<(Seq<char>, JsonField)>| group_of_row(row),
        ));
    }
    Ok(out)
}

} // verus!
