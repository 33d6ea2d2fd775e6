//! The sortedness checker: decides whether the workspace lists and the
//! dependency tables of a manifest are lexicographically sorted, with the
//! exploded-table-header exception for dependency tables.

use vstd::prelude::*;
use vstd::string::StringExecFns;
use crate::document::{get_spec, Manifest, Value};
use crate::error::ShapeError;
use crate::text::{contains_str, contains_substr, lex_le, lex_lt, str_le};

verus! {

/// The character sequence of a string value; empty on any other shape.
pub open spec fn value_str(v: Value) -> Seq<char> {
    match v {
        Value::Str(s) => s@,
        _ => Seq::empty(),
    }
}

/// Every item of the array is a string.
pub open spec fn all_strings(items: Seq<Value>) -> bool {
    forall|i: int| 0 <= i < items.len() ==> items[i] is Str
}

/// The character sequences of an array of string values.
pub open spec fn item_views(items: Seq<Value>) -> Seq<Seq<char>> {
    items.map(|i: int, v: Value| value_str(v))
}

/// Every adjacent pair is in lexicographic order.
pub open spec fn strings_sorted(keys: Seq<Seq<char>>) -> bool {
    forall|i: int| #![trigger keys[i]] 0 <= i && i + 1 < keys.len() ==> lex_le(keys[i], keys[i + 1])
}

/// A workspace list under `key` is well shaped: absent, or an array whose
/// items are all strings.
pub open spec fn list_well_shaped(ws: Value, key: Seq<char>) -> bool {
    match get_spec(ws, key) {
        None => true,
        Some(v) => v is Arr && all_strings(v->Arr_0@),
    }
}

/// A workspace list under `key` is sorted: absent, or an array whose items
/// appear in lexicographic order. No exception applies here: the raw file
/// text plays no part in this predicate.
pub open spec fn list_sorted(ws: Value, key: Seq<char>) -> bool {
    match get_spec(ws, key) {
        None => true,
        Some(v) => v is Arr && strings_sorted(item_views(v->Arr_0@)),
    }
}

/// The workspace section, if present, has well-shaped `exclude` and
/// `members` lists.
pub open spec fn workspace_well_shaped(root: Value) -> bool {
    match get_spec(root, "workspace"@) {
        None => true,
        Some(ws) => list_well_shaped(ws, "exclude"@) && list_well_shaped(ws, "members"@),
    }
}

/// The workspace section, if present, has sorted `exclude` and `members`
/// lists; an absent section passes vacuously.
pub open spec fn workspace_sorted(root: Value) -> bool {
    match get_spec(root, "workspace"@) {
        None => true,
        Some(ws) => list_sorted(ws, "exclude"@) && list_sorted(ws, "members"@),
    }
}

/// The exploded table header `[section.key]` as it would read in the file.
pub open spec fn dep_header(section: Seq<char>, key: Seq<char>) -> Seq<char> {
    seq!['['] + section + seq!['.'] + key + seq![']']
}

/// The keys of a table, in declaration order.
pub open spec fn table_keys(entries: Seq<(String, Value)>) -> Seq<Seq<char>> {
    entries.map(|i: int, e: (String, Value)| e.0@)
}

/// Adjacent dependency keys are in order, except that an out-of-order key
/// is forgiven when the raw text holds its exploded header `[section.key]`
/// somewhere in the file. This is deliberately a textual heuristic: it
/// looks for the literal substring, not for a genuine sub-table in the
/// document tree, so a header inside a comment would also count.
pub open spec fn dep_keys_sorted(keys: Seq<Seq<char>>, section: Seq<char>, raw: Seq<char>) -> bool {
    forall|i: int|
        #![trigger keys[i]]
        0 <= i && i + 1 < keys.len() ==> lex_le(keys[i], keys[i + 1]) || contains_substr(
            raw,
            dep_header(section, keys[i + 1]),
        )
}

/// A dependency section under `section` is well shaped: absent, or a table.
pub open spec fn deps_well_shaped(root: Value, section: Seq<char>) -> bool {
    match get_spec(root, section) {
        None => true,
        Some(v) => v is Table,
    }
}

/// A dependency section under `section` passes: absent, or a table whose
/// keys satisfy `dep_keys_sorted` against the raw text.
pub open spec fn deps_sorted(root: Value, section: Seq<char>, raw: Seq<char>) -> bool {
    match get_spec(root, section) {
        None => true,
        Some(v) => v is Table && dep_keys_sorted(table_keys(v->Table_0@), section, raw),
    }
}

/// Every section the checker reads has the shape the parser owes it.
pub open spec fn manifest_well_shaped(m: Manifest) -> bool {
    &&& workspace_well_shaped(m.value)
    &&& deps_well_shaped(m.value, "build-dependencies"@)
    &&& deps_well_shaped(m.value, "dependencies"@)
    &&& deps_well_shaped(m.value, "dev-dependencies"@)
}

/// The verdict as a whole: the workspace lists and all three dependency
/// tables pass their sub-checks.
pub open spec fn manifest_sorted(m: Manifest) -> bool {
    &&& workspace_sorted(m.value)
    &&& deps_sorted(m.value, "build-dependencies"@, m.parsed_file@)
    &&& deps_sorted(m.value, "dependencies"@, m.parsed_file@)
    &&& deps_sorted(m.value, "dev-dependencies"@, m.parsed_file@)
}

/// What `is_sorted` returns: the verdict on a well-shaped manifest, and the
/// shape error otherwise. The result is a function of the manifest alone.
pub open spec fn is_sorted_post(m: Manifest, r: Result<bool, ShapeError>) -> bool {
    if manifest_well_shaped(m) {
        r == Result::<bool, ShapeError>::Ok(manifest_sorted(m))
    } else {
        r == Result::<bool, ShapeError>::Err(ShapeError)
    }
}

/// Checks one workspace list: `Ok(true)` when the list under `key` is
/// absent or sorted, `Ok(false)` when some adjacent pair is out of order,
/// and `Err` exactly when the list is present but not an array of strings.
#[verifier::loop_isolation(false)]
pub fn check_workspace_by_key(workspace: &Value, key: &str) -> (r: Result<bool, ShapeError>)
    ensures
        list_well_shaped(*workspace, key@) ==> r == Result::<bool, ShapeError>::Ok(
            list_sorted(*workspace, key@),
        ),
        !list_well_shaped(*workspace, key@) ==> r == Result::<bool, ShapeError>::Err(ShapeError),
{
    match workspace.get(key) {
        None => Ok(true),
        Some(v) => match v {
            Value::Arr(items) => {
                let n = items.len();
                let mut i: usize = 0;
                while i < n
                    invariant
                        i <= n,
                        forall|j: int| 0 <= j < i ==> items@[j] is Str,
                    decreases n - i,
                {
                    match &items[i] {
                        Value::Str(_) => {},
                        _ => {
                            return Err(ShapeError);
                        },
                    }
                    i += 1;
                }
                if n == 0 {
                    return Ok(true);
                }
                let mut k: usize = 0;
                while k < n - 1
                    invariant
                        k <= n - 1,
                        all_strings(items@),
                        forall|j: int|
                            #![trigger item_views(items@)[j]]
                            0 <= j < k ==> lex_le(
                                item_views(items@)[j],
                                item_views(items@)[j + 1],
                            ),
                    decreases n - k,
                {
                    match (&items[k], &items[k + 1]) {
                        (Value::Str(a), Value::Str(b)) => {
                            if !str_le(a.as_str(), b.as_str()) {
                                proof {
                                    assert(item_views(items@)[k as int] == value_str(
                                        items@[k as int],
                                    ));
                                    assert(item_views(items@)[k as int + 1] == value_str(
                                        items@[k as int + 1],
                                    ));
                                    assert(!lex_le(
                                        item_views(items@)[k as int],
                                        item_views(items@)[k as int + 1],
                                    ));
                                }
                                return Ok(false);
                            }
                        },
                        _ => {
                            proof {
                                assert(items@[k as int] is Str);
                                assert(items@[k as int + 1] is Str);
                            }
                            return Err(ShapeError);
                        },
                    }
                    k += 1;
                }
                Ok(true)
            },
            _ => Err(ShapeError),
        },
    }
}

/// Checks the workspace section: both its `exclude` and `members` lists
/// must be sorted; an absent section passes. A malformed list is reported
/// even when the other list has already failed the order check.
pub fn check_workspace(manifest: &Value) -> (r: Result<bool, ShapeError>)
    ensures
        workspace_well_shaped(*manifest) ==> r == Result::<bool, ShapeError>::Ok(
            workspace_sorted(*manifest),
        ),
        !workspace_well_shaped(*manifest) ==> r == Result::<bool, ShapeError>::Err(ShapeError),
{
    match manifest.get("workspace") {
        None => Ok(true),
        Some(ws) => {
            let excl = check_workspace_by_key(ws, "exclude");
            match excl {
                Err(e) => Err(e),
                Ok(a) => {
                    let memb = check_workspace_by_key(ws, "members");
                    match memb {
                        Err(e) => Err(e),
                        Ok(b) => Ok(a && b),
                    }
                },
            }
        },
    }
}

/// Builds the exploded header text `[section.key]`.
fn build_header(section: &str, key: &str) -> (r: String)
    ensures
        r@ == dep_header(section@, key@),
{
    let mut s = String::from_str("[");
    s.append(section);
    s.append(".");
    s.append(key);
    s.append("]");
    proof {
        reveal_strlit("[");
        reveal_strlit(".");
        reveal_strlit("]");
        assert(s@ =~= dep_header(section@, key@));
    }
    s
}

/// Walks the entries of one dependency table and decides `dep_keys_sorted`:
/// every out-of-order adjacent pair must find the exploded header of its
/// second key in the raw text.
#[verifier::loop_isolation(false)]
fn deps_entries_sorted(entries: &Vec<(String, Value)>, section: &str, raw: &String) -> (r: bool)
    ensures
        r == dep_keys_sorted(table_keys(entries@), section@, raw@),
{
    let n = entries.len();
    if n == 0 {
        return true;
    }
    let mut i: usize = 0;
    while i < n - 1
        invariant
            i <= n - 1,
            forall|j: int|
                #![trigger table_keys(entries@)[j]]
                0 <= j < i ==> lex_le(
                    table_keys(entries@)[j],
                    table_keys(entries@)[j + 1],
                ) || contains_substr(raw@, dep_header(section@, table_keys(entries@)[j + 1])),
        decreases n - i,
    {
        let a = &entries[i].0;
        let b = &entries[i + 1].0;
        if !str_le(a.as_str(), b.as_str()) {
            let hdr = build_header(section, b.as_str());
            if !contains_str(raw.as_str(), hdr.as_str()) {
                proof {
                    assert(table_keys(entries@)[i as int] == entries@[i as int].0@);
                    assert(table_keys(entries@)[i as int + 1] == entries@[i as int + 1].0@);
                    assert(!lex_le(
                        table_keys(entries@)[i as int],
                        table_keys(entries@)[i as int + 1],
                    ));
                    assert(!contains_substr(
                        raw@,
                        dep_header(section@, table_keys(entries@)[i as int + 1]),
                    ));
                }
                return false;
            }
        }
        i += 1;
    }
    true
}

/// Checks one dependency section: `Ok(true)` when the section under `key`
/// is absent or its keys pass the order check (with the header exception),
/// `Ok(false)` when some out-of-order key has no exploded header in the raw
/// text, and `Err` exactly when the section is present but not a table.
pub fn check_deps_by_key(manifest: &Manifest, key: &str) -> (r: Result<bool, ShapeError>)
    ensures
        deps_well_shaped(manifest.value, key@) ==> r == Result::<bool, ShapeError>::Ok(
            deps_sorted(manifest.value, key@, manifest.parsed_file@),
        ),
        !deps_well_shaped(manifest.value, key@) ==> r == Result::<bool, ShapeError>::Err(
            ShapeError,
        ),
{
    match manifest.value.get(key) {
        None => Ok(true),
        Some(v) => match v {
            Value::Table(entries) => Ok(deps_entries_sorted(entries, key, &manifest.parsed_file)),
            _ => Err(ShapeError),
        },
    }
}

/// The whole check: the workspace lists and the three dependency sections,
/// in that order. On a well-shaped manifest the verdict is exactly
/// `manifest_sorted`; a malformed section is reported as a shape error.
pub fn is_sorted(manifest: &Manifest) -> (r: Result<bool, ShapeError>)
    ensures
        is_sorted_post(*manifest, r),
{
    let w = match check_workspace(&manifest.value) {
        Ok(b) => b,
        Err(e) => {
            return Err(e);
        },
    };
    let bd = match check_deps_by_key(manifest, "build-dependencies") {
        Ok(b) => b,
        Err(e) => {
            return Err(e);
        },
    };
    let d = match check_deps_by_key(manifest, "dependencies") {
        Ok(b) => b,
        Err(e) => {
            return Err(e);
        },
    };
    let dd = match check_deps_by_key(manifest, "dev-dependencies") {
        Ok(b) => b,
        Err(e) => {
            return Err(e);
        },
    };
    Ok(w && bd && d && dd)
}

/// Law: a document with no `workspace`, `dependencies`, `dev-dependencies`
/// or `build-dependencies` key is well shaped and vacuously sorted.
pub proof fn lemma_vacuous_document(m: Manifest)
    requires
        get_spec(m.value, "workspace"@) is None,
        get_spec(m.value, "build-dependencies"@) is None,
        get_spec(m.value, "dependencies"@) is None,
        get_spec(m.value, "dev-dependencies"@) is None,
    ensures
        manifest_well_shaped(m),
        manifest_sorted(m),
{
}

/// Law: a dependency table whose keys are in strictly increasing order
/// passes the order check, whatever the raw text holds.
pub proof fn lemma_strictly_increasing_keys_pass(
    keys: Seq<Seq<char>>,
    section: Seq<char>,
    raw: Seq<char>,
)
    requires
        forall|i: int| #![trigger keys[i]] 0 <= i && i + 1 < keys.len() ==> lex_lt(keys[i], keys[i + 1]),
    ensures
        dep_keys_sorted(keys, section, raw),
{
    assert forall|i: int| #![trigger keys[i]] 0 <= i && i + 1 < keys.len() implies lex_le(
        keys[i],
        keys[i + 1],
    ) || contains_substr(raw, dep_header(section, keys[i + 1])) by {
        assert(lex_lt(keys[i], keys[i + 1]));
    }
}

/// Law: an out-of-order workspace list fails the whole check, whatever the
/// raw text holds — the exploded-header exception never applies to the
/// workspace lists.
pub proof fn lemma_workspace_exception_never_applies(m: Manifest)
    requires
        !workspace_sorted(m.value),
    ensures
        !manifest_sorted(m),
{
}

/// Law: the verdict is a pure function of the manifest. Any two results
/// that meet the contract of `is_sorted` on the same manifest are equal, so
/// running the checker twice on an unmodified document cannot disagree.
pub proof fn lemma_verdict_deterministic(
    m: Manifest,
    r1: Result<bool, ShapeError>,
    r2: Result<bool, ShapeError>,
)
    requires
        is_sorted_post(m, r1),
        is_sorted_post(m, r2),
    ensures
        r1 == r2,
{
}

} // verus!
