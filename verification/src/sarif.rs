//! The report patcher: a structured document model and the minimal,
//! field-exact mutation that stamps the extractor's identity into a report.
//!
//! A report is held as a tree of [`JsonValue`]. Numbers are kept as their
//! raw text so every field the patch does not touch round-trips unchanged.
//! The one contractually known location is `runs[0].tool.driver.name`.

use vstd::prelude::*;

use crate::text::concat2;

verus! {

/// A structured document value. Object member order is preserved; a number
/// keeps its original text.
#[derive(Debug, PartialEq)]
pub enum JsonValue {
    Null,
    Bool(bool),
    /// A number, as the exact text it was written with.
    Number(String),
    Text(String),
    Array(Vec<JsonValue>),
    Object(Vec<(String, JsonValue)>),
}

/// The mathematical value of a [`JsonValue`].
pub enum JsonSpec {
    Null,
    Bool(bool),
    Number(Seq<char>),
    Text(Seq<char>),
    Array(Seq<JsonSpec>),
    Object(Seq<(Seq<char>, JsonSpec)>),
}

impl JsonValue {
    /// The mathematical value of this document.
    pub open spec fn deep(self) -> JsonSpec
        decreases self,
    {
        match self {
            JsonValue::Null => JsonSpec::Null,
            JsonValue::Bool(b) => JsonSpec::Bool(b),
            JsonValue::Number(s) => JsonSpec::Number(s@),
            JsonValue::Text(s) => JsonSpec::Text(s@),
            JsonValue::Array(elems) => JsonSpec::Array(
                Seq::new(
                    elems@.len(),
                    |i: int|
                        if 0 <= i < elems@.len() {
                            elems@[i].deep()
                        } else {
                            JsonSpec::Null
                        },
                ),
            ),
            JsonValue::Object(fields) => JsonSpec::Object(
                Seq::new(
                    fields@.len(),
                    |i: int|
                        if 0 <= i < fields@.len() {
                            (fields@[i].0@, fields@[i].1.deep())
                        } else {
                            (Seq::<char>::empty(), JsonSpec::Null)
                        },
                ),
            ),
        }
    }
}

impl View for JsonValue {
    type V = JsonSpec;

    open spec fn view(&self) -> JsonSpec {
        self.deep()
    }
}

/// The mathematical value of an object's member list.
pub open spec fn fields_view(fields: Seq<(String, JsonValue)>) -> Seq<(Seq<char>, JsonSpec)> {
    Seq::new(fields.len(), |i: int| (fields[i].0@, fields[i].1.deep()))
}

/// Index of the first member named `key`, or the list's length if none is.
pub open spec fn key_index(fields: Seq<(Seq<char>, JsonSpec)>, key: Seq<char>) -> int
    decreases fields.len(),
{
    if fields.len() == 0 {
        0
    } else if fields[0].0 == key {
        0
    } else {
        1 + key_index(fields.skip(1), key)
    }
}

/// The object has a member named `key`.
pub open spec fn has_key(fields: Seq<(Seq<char>, JsonSpec)>, key: Seq<char>) -> bool {
    key_index(fields, key) < fields.len()
}

/// The value of the first member named `key`.
pub open spec fn get_key(fields: Seq<(Seq<char>, JsonSpec)>, key: Seq<char>) -> JsonSpec
    recommends
        has_key(fields, key),
{
    fields[key_index(fields, key)].1
}

/// The member list with `key` bound to `v`: overwritten in place when the
/// key is present, appended at the end when it is not.
pub open spec fn set_key(
    fields: Seq<(Seq<char>, JsonSpec)>,
    key: Seq<char>,
    v: JsonSpec,
) -> Seq<(Seq<char>, JsonSpec)> {
    if has_key(fields, key) {
        fields.update(key_index(fields, key), (key, v))
    } else {
        fields.push((key, v))
    }
}

/// What `key_index` finds: the first member named `key`, every earlier
/// member named otherwise; the length exactly when no member is named `key`.
pub proof fn lemma_key_index(fields: Seq<(Seq<char>, JsonSpec)>, key: Seq<char>)
    ensures
        0 <= key_index(fields, key) <= fields.len(),
        key_index(fields, key) < fields.len() ==> fields[key_index(fields, key)].0 == key,
        forall|j: int| 0 <= j < key_index(fields, key) ==> (#[trigger] fields[j]).0 != key,
    decreases fields.len(),
{
    if fields.len() > 0 && fields[0].0 != key {
        lemma_key_index(fields.skip(1), key);
        assert forall|j: int| 0 <= j < key_index(fields, key) implies (#[trigger] fields[j]).0
            != key by {
            if j > 0 {
                assert(fields.skip(1)[j - 1] == fields[j]);
            }
        }
    }
}

/// An index that holds the first member named `key` is what `key_index`
/// finds.
pub proof fn lemma_key_index_unique(fields: Seq<(Seq<char>, JsonSpec)>, key: Seq<char>, i: int)
    requires
        0 <= i < fields.len(),
        fields[i].0 == key,
        forall|j: int| 0 <= j < i ==> (#[trigger] fields[j]).0 != key,
    ensures
        key_index(fields, key) == i,
{
    lemma_key_index(fields, key);
    let k = key_index(fields, key);
    if k < i {
        assert(fields[k].0 != key);
    }
    if k > i {
        assert(fields[i].0 != key);
    }
}

/// When no member is named `key`, `key_index` is the length.
pub proof fn lemma_key_index_absent(fields: Seq<(Seq<char>, JsonSpec)>, key: Seq<char>)
    requires
        forall|j: int| 0 <= j < fields.len() ==> (#[trigger] fields[j]).0 != key,
    ensures
        key_index(fields, key) == fields.len(),
{
    lemma_key_index(fields, key);
    if key_index(fields, key) < fields.len() {
        assert(fields[key_index(fields, key)].0 != key);
    }
}

/// The mathematical value of an array's element list.
pub open spec fn elems_view(elems: Seq<JsonValue>) -> Seq<JsonSpec> {
    Seq::new(elems.len(), |i: int| elems[i].deep())
}

/// The value of an object member, by its location in the tree.
pub proof fn lemma_deep_object(v: JsonValue)
    requires
        v is Object,
    ensures
        v.deep() == JsonSpec::Object(fields_view(v->Object_0@)),
{
    assert(v.deep()->Object_0 =~= fields_view(v->Object_0@));
}

/// An array value's mathematical form, element by element.
pub proof fn lemma_deep_array(v: JsonValue)
    requires
        v is Array,
    ensures
        v.deep() == JsonSpec::Array(elems_view(v->Array_0@)),
{
    assert(v.deep()->Array_0 =~= elems_view(v->Array_0@));
}

/// A driver section can be patched when it is an object. A present driver
/// of any other shape is left untouched.
pub open spec fn driver_patchable(d: JsonSpec) -> bool {
    d is Object
}

/// The tool section carries a patchable driver.
pub open spec fn tool_patchable(t: JsonSpec) -> bool {
    &&& t is Object
    &&& has_key(t->Object_0, "driver"@)
    &&& driver_patchable(get_key(t->Object_0, "driver"@))
}

/// The run carries a tool section with a patchable driver.
pub open spec fn run_patchable(r: JsonSpec) -> bool {
    &&& r is Object
    &&& has_key(r->Object_0, "tool"@)
    &&& tool_patchable(get_key(r->Object_0, "tool"@))
}

/// The runs section is a non-empty array whose first run is patchable.
pub open spec fn runs_patchable(rs: JsonSpec) -> bool {
    &&& rs is Array
    &&& rs->Array_0.len() > 0
    &&& run_patchable(rs->Array_0[0])
}

/// The document has the contractually known path `runs[0].tool.driver`,
/// with the driver an object.
pub open spec fn has_driver(doc: JsonSpec) -> bool {
    &&& doc is Object
    &&& has_key(doc->Object_0, "runs"@)
    &&& runs_patchable(get_key(doc->Object_0, "runs"@))
}

/// The driver with exactly its `name` member overwritten (or added);
/// every sibling member is untouched.
pub open spec fn patch_driver(d: JsonSpec, name: Seq<char>) -> JsonSpec
    recommends
        driver_patchable(d),
{
    JsonSpec::Object(set_key(d->Object_0, "name"@, JsonSpec::Text(name)))
}

/// The tool with exactly its driver's name overwritten.
pub open spec fn patch_tool(t: JsonSpec, name: Seq<char>) -> JsonSpec
    recommends
        tool_patchable(t),
{
    JsonSpec::Object(
        set_key(t->Object_0, "driver"@, patch_driver(get_key(t->Object_0, "driver"@), name)),
    )
}

/// The run with exactly its tool's driver name overwritten.
pub open spec fn patch_run(r: JsonSpec, name: Seq<char>) -> JsonSpec
    recommends
        run_patchable(r),
{
    JsonSpec::Object(
        set_key(r->Object_0, "tool"@, patch_tool(get_key(r->Object_0, "tool"@), name)),
    )
}

/// The runs array with exactly the first run's driver name overwritten.
pub open spec fn patch_runs(rs: JsonSpec, name: Seq<char>) -> JsonSpec
    recommends
        runs_patchable(rs),
{
    JsonSpec::Array(rs->Array_0.update(0, patch_run(rs->Array_0[0], name)))
}

/// The whole patch: when `runs[0].tool.driver` exists and is an object, its
/// `name` member — and nothing else in the document — is overwritten with
/// `name`; otherwise the document is returned unchanged.
pub open spec fn spec_patch(doc: JsonSpec, name: Seq<char>) -> JsonSpec {
    if has_driver(doc) {
        JsonSpec::Object(
            set_key(doc->Object_0, "runs"@, patch_runs(get_key(doc->Object_0, "runs"@), name)),
        )
    } else {
        doc
    }
}

/// What binding a key does to an object: the key is afterwards present with
/// exactly that value, at the same place, and binding it again overwrites
/// the first binding.
pub proof fn lemma_set_key(fields: Seq<(Seq<char>, JsonSpec)>, key: Seq<char>, v: JsonSpec)
    ensures
        has_key(set_key(fields, key, v), key),
        get_key(set_key(fields, key, v), key) == v,
        set_key(fields, key, v).len() == (if has_key(fields, key) {
            fields.len()
        } else {
            fields.len() + 1
        }),
        forall|w: JsonSpec| #[trigger]
            set_key(set_key(fields, key, v), key, w) == set_key(fields, key, w),
{
    lemma_key_index(fields, key);
    let k = key_index(fields, key);
    if has_key(fields, key) {
        let updated = fields.update(k, (key, v));
        lemma_key_index_unique(updated, key, k);
        assert forall|w: JsonSpec| #[trigger]
            set_key(set_key(fields, key, v), key, w) == set_key(fields, key, w) by {
            assert(updated.update(k, (key, w)) =~= fields.update(k, (key, w)));
        }
    } else {
        let pushed = fields.push((key, v));
        lemma_key_index_unique(pushed, key, fields.len() as int);
        assert forall|w: JsonSpec| #[trigger]
            set_key(set_key(fields, key, v), key, w) == set_key(fields, key, w) by {
            assert(pushed.update(fields.len() as int, (key, w)) =~= fields.push((key, w)));
        }
    }
}

/// The driver section of a document with the known path.
pub open spec fn driver_of(doc: JsonSpec) -> JsonSpec
    recommends
        has_driver(doc),
{
    let runs = get_key(doc->Object_0, "runs"@);
    let run0 = runs->Array_0[0];
    let tool = get_key(run0->Object_0, "tool"@);
    get_key(tool->Object_0, "driver"@)
}

/// The driver's name member.
pub open spec fn driver_name(doc: JsonSpec) -> JsonSpec
    recommends
        has_driver(doc),
{
    get_key(driver_of(doc)->Object_0, "name"@)
}

/// Law: patching a document with the known path keeps the path, and the
/// stored driver name afterwards is exactly the applied name.
pub proof fn lemma_patch_sets_name(doc: JsonSpec, name: Seq<char>)
    requires
        has_driver(doc),
    ensures
        has_driver(spec_patch(doc, name)),
        driver_name(spec_patch(doc, name)) == JsonSpec::Text(name),
{
    let f = doc->Object_0;
    let rs = get_key(f, "runs"@);
    let elems = rs->Array_0;
    let r0 = elems[0];
    let r0f = r0->Object_0;
    let t0 = get_key(r0f, "tool"@);
    let t0f = t0->Object_0;
    let d0 = get_key(t0f, "driver"@);
    let d0f = d0->Object_0;
    let dp = patch_driver(d0, name);
    let tp = patch_tool(t0, name);
    let rp = patch_run(r0, name);
    let rsp = patch_runs(rs, name);
    lemma_set_key(d0f, "name"@, JsonSpec::Text(name));
    lemma_set_key(t0f, "driver"@, dp);
    lemma_set_key(r0f, "tool"@, tp);
    lemma_set_key(f, "runs"@, rsp);
    assert(rsp->Array_0[0] == rp);
}

/// Law: a document without the known path is returned unchanged by the
/// patch — the tolerant no-op.
pub proof fn lemma_patch_missing_path(doc: JsonSpec, name: Seq<char>)
    requires
        !has_driver(doc),
    ensures
        spec_patch(doc, name) == doc,
{
}

/// Law: patching is a pure overwrite, not an append — patching twice yields
/// exactly the document patched once with the last name.
pub proof fn lemma_patch_overwrite(doc: JsonSpec, n1: Seq<char>, n2: Seq<char>)
    ensures
        spec_patch(spec_patch(doc, n1), n2) == spec_patch(doc, n2),
{
    if !has_driver(doc) {
        return ;
    }
    let f = doc->Object_0;
    let rs = get_key(f, "runs"@);
    let elems = rs->Array_0;
    let r0 = elems[0];
    let r0f = r0->Object_0;
    let t0 = get_key(r0f, "tool"@);
    let t0f = t0->Object_0;
    let d0 = get_key(t0f, "driver"@);
    let d0f = d0->Object_0;

    let dp1 = patch_driver(d0, n1);
    let tp1 = patch_tool(t0, n1);
    let rp1 = patch_run(r0, n1);
    let rsp1 = patch_runs(rs, n1);
    let doc1 = spec_patch(doc, n1);

    lemma_set_key(d0f, "name"@, JsonSpec::Text(n1));
    lemma_set_key(t0f, "driver"@, dp1);
    lemma_set_key(r0f, "tool"@, tp1);
    lemma_set_key(f, "runs"@, rsp1);
    assert(rsp1->Array_0[0] == rp1);
    assert(has_driver(doc1));

    // Walk the patched document once more with the second name and collapse
    // each double binding into a single one.
    let f1 = doc1->Object_0;
    assert(get_key(f1, "runs"@) == rsp1);
    let elems1 = rsp1->Array_0;
    assert(elems1 == elems.update(0, rp1));
    assert(get_key(rp1->Object_0, "tool"@) == tp1);
    assert(get_key(tp1->Object_0, "driver"@) == dp1);

    // Driver level: rebinding the name overwrites the first binding.
    assert(patch_driver(dp1, n2) == patch_driver(d0, n2)) by {
        lemma_set_key(d0f, "name"@, JsonSpec::Text(n1));
    }
    // Tool level.
    assert(patch_tool(tp1, n2) == patch_tool(t0, n2)) by {
        lemma_set_key(t0f, "driver"@, dp1);
        assert(set_key(set_key(t0f, "driver"@, dp1), "driver"@, patch_driver(dp1, n2)) == set_key(
            t0f,
            "driver"@,
            patch_driver(d0, n2),
        ));
    }
    // Run level.
    assert(patch_run(rp1, n2) == patch_run(r0, n2)) by {
        lemma_set_key(r0f, "tool"@, tp1);
        assert(set_key(set_key(r0f, "tool"@, tp1), "tool"@, patch_tool(tp1, n2)) == set_key(
            r0f,
            "tool"@,
            patch_tool(t0, n2),
        ));
    }
    // Runs level: updating the first element twice keeps only the last.
    assert(patch_runs(rsp1, n2) == patch_runs(rs, n2)) by {
        assert(elems.update(0, rp1).update(0, patch_run(r0, n2)) =~= elems.update(
            0,
            patch_run(r0, n2),
        ));
    }
    // Document level.
    assert(set_key(set_key(f, "runs"@, rsp1), "runs"@, patch_runs(rs, n2)) == set_key(
        f,
        "runs"@,
        patch_runs(rs, n2),
    )) by {
        lemma_set_key(f, "runs"@, rsp1);
    }
}

/// Finds the first member named `key`.
fn obj_find(fields: &Vec<(String, JsonValue)>, key: &str) -> (r: Option<usize>)
    ensures
        r matches Some(i) ==> {
            &&& i < fields@.len()
            &&& i == key_index(fields_view(fields@), key@)
            &&& has_key(fields_view(fields@), key@)
        },
        r is None ==> !has_key(fields_view(fields@), key@),
{
    let key_string = key.to_owned();
    let mut i: usize = 0;
    while i < fields.len()
        invariant
            i <= fields@.len(),
            key_string@ == key@,
            forall|j: int| 0 <= j < i ==> (#[trigger] fields_view(fields@)[j]).0 != key@,
        decreases fields@.len() - i,
    {
        let entry = &fields[i];
        if entry.0 == key_string {
            proof {
                assert(fields_view(fields@)[i as int].0 == key@);
                lemma_key_index_unique(fields_view(fields@), key@, i as int);
            }
            return Some(i);
        }
        proof {
            assert(fields_view(fields@)[i as int].0 != key@);
        }
        i = i + 1;
    }
    proof {
        lemma_key_index_absent(fields_view(fields@), key@);
    }
    None
}

/// Binds `key` to `v` in the member list: overwritten in place when the key
/// is present, appended at the end when it is not.
fn obj_set(fields: Vec<(String, JsonValue)>, key: String, v: JsonValue) -> (r: Vec<
    (String, JsonValue),
>)
    ensures
        fields_view(r@) == set_key(fields_view(fields@), key@, v.deep()),
{
    let ghost fields0 = fields@;
    let ghost vdeep = v.deep();
    let mut fields = fields;
    match obj_find(&fields, key.as_str()) {
        Some(i) => {
            fields.remove(i);
            fields.insert(i, (key, v));
            proof {
                assert(fields@ =~= fields0.update(i as int, (key, v)));
                assert(fields_view(fields@) =~= set_key(fields_view(fields0), key@, vdeep));
            }
            fields
        },
        None => {
            fields.push((key, v));
            proof {
                assert(fields@ =~= fields0.push((key, v)));
                assert(fields_view(fields@) =~= set_key(fields_view(fields0), key@, vdeep));
            }
            fields
        },
    }
}

/// Overwrites the driver's `name` member when the driver is an object;
/// any other driver value is returned unchanged.
fn patch_driver_value(d: JsonValue, name: String) -> (r: JsonValue)
    ensures
        driver_patchable(d.deep()) ==> r.deep() == patch_driver(d.deep(), name@),
        !driver_patchable(d.deep()) ==> r.deep() == d.deep(),
{
    let ghost d0 = d;
    match d {
        JsonValue::Object(fields) => {
            proof {
                lemma_deep_object(d0);
            }
            let patched = obj_set(fields, "name".to_owned(), JsonValue::Text(name));
            let r = JsonValue::Object(patched);
            proof {
                lemma_deep_object(r);
            }
            r
        },
        other => other,
    }
}

/// Patches the driver inside the tool section when the path fits; anything
/// else is returned unchanged.
fn patch_tool_value(t: JsonValue, name: String) -> (r: JsonValue)
    ensures
        tool_patchable(t.deep()) ==> r.deep() == patch_tool(t.deep(), name@),
        !tool_patchable(t.deep()) ==> r.deep() == t.deep(),
{
    let ghost t0 = t;
    match t {
        JsonValue::Object(fields) => {
            proof {
                lemma_deep_object(t0);
            }
            let mut fields = fields;
            let ghost fields0 = fields@;
            match obj_find(&fields, "driver") {
                Some(i) => {
                    let (k, dv) = fields.remove(i);
                    let ghost dv0 = dv;
                    let nd = patch_driver_value(dv, name);
                    fields.insert(i, (k, nd));
                    let r = JsonValue::Object(fields);
                    proof {
                        lemma_deep_object(r);
                        assert(fields@ =~= fields0.update(i as int, (k, nd)));
                        assert(fields_view(fields0)[i as int].1 == dv0.deep());
                        lemma_key_index(fields_view(fields0), "driver"@);
                        assert(k@ == "driver"@);
                        if driver_patchable(dv0.deep()) {
                            assert(fields_view(fields@) =~= set_key(
                                fields_view(fields0),
                                "driver"@,
                                patch_driver(dv0.deep(), name@),
                            ));
                        } else {
                            assert(fields_view(fields@) =~= fields_view(fields0));
                        }
                    }
                    r
                },
                None => {
                    let r = JsonValue::Object(fields);
                    proof {
                        lemma_deep_object(r);
                        assert(fields_view(fields@) =~= fields_view(fields0));
                    }
                    r
                },
            }
        },
        other => other,
    }
}

/// Patches the tool inside one run when the path fits; anything else is
/// returned unchanged.
fn patch_run_value(run: JsonValue, name: String) -> (r: JsonValue)
    ensures
        run_patchable(run.deep()) ==> r.deep() == patch_run(run.deep(), name@),
        !run_patchable(run.deep()) ==> r.deep() == run.deep(),
{
    let ghost run0 = run;
    match run {
        JsonValue::Object(fields) => {
            proof {
                lemma_deep_object(run0);
            }
            let mut fields = fields;
            let ghost fields0 = fields@;
            match obj_find(&fields, "tool") {
                Some(i) => {
                    let (k, tv) = fields.remove(i);
                    let ghost tv0 = tv;
                    let nt = patch_tool_value(tv, name);
                    fields.insert(i, (k, nt));
                    let r = JsonValue::Object(fields);
                    proof {
                        lemma_deep_object(r);
                        assert(fields@ =~= fields0.update(i as int, (k, nt)));
                        assert(fields_view(fields0)[i as int].1 == tv0.deep());
                        lemma_key_index(fields_view(fields0), "tool"@);
                        assert(k@ == "tool"@);
                        if tool_patchable(tv0.deep()) {
                            assert(fields_view(fields@) =~= set_key(
                                fields_view(fields0),
                                "tool"@,
                                patch_tool(tv0.deep(), name@),
                            ));
                        } else {
                            assert(fields_view(fields@) =~= fields_view(fields0));
                        }
                    }
                    r
                },
                None => {
                    let r = JsonValue::Object(fields);
                    proof {
                        lemma_deep_object(r);
                        assert(fields_view(fields@) =~= fields_view(fields0));
                    }
                    r
                },
            }
        },
        other => other,
    }
}

/// Patches the first run of the runs array when the path fits; anything
/// else is returned unchanged.
fn patch_runs_value(runs: JsonValue, name: String) -> (r: JsonValue)
    ensures
        runs_patchable(runs.deep()) ==> r.deep() == patch_runs(runs.deep(), name@),
        !runs_patchable(runs.deep()) ==> r.deep() == runs.deep(),
{
    let ghost runs0 = runs;
    match runs {
        JsonValue::Array(elems) => {
            proof {
                lemma_deep_array(runs0);
            }
            let mut elems = elems;
            let ghost elems0 = elems@;
            if elems.len() == 0 {
                let r = JsonValue::Array(elems);
                proof {
                    lemma_deep_array(r);
                    assert(elems_view(elems@) =~= elems_view(elems0));
                }
                return r;
            }
            let e0 = elems.remove(0);
            let ghost e00 = e0;
            let p0 = patch_run_value(e0, name);
            elems.insert(0, p0);
            let r = JsonValue::Array(elems);
            proof {
                lemma_deep_array(r);
                assert(elems@ =~= elems0.update(0, p0));
                assert(elems_view(elems0)[0] == e00.deep());
                if run_patchable(e00.deep()) {
                    assert(elems_view(elems@) =~= elems_view(elems0).update(
                        0,
                        patch_run(e00.deep(), name@),
                    ));
                } else {
                    assert(elems_view(elems@) =~= elems_view(elems0));
                }
            }
            r
        },
        other => other,
    }
}

/// Whether `tool` is an object carrying an object-shaped driver.
fn tool_has_driver(tool: &JsonValue) -> (r: bool)
    ensures
        r == tool_patchable(tool.deep()),
{
    match tool {
        JsonValue::Object(fields) => {
            proof {
                lemma_deep_object(*tool);
            }
            match obj_find(fields, "driver") {
                Some(i) => {
                    let entry = &fields[i];
                    proof {
                        assert(get_key(fields_view(fields@), "driver"@) == entry.1.deep());
                    }
                    match &entry.1 {
                        JsonValue::Object(_) => true,
                        _ => false,
                    }
                },
                None => false,
            }
        },
        _ => false,
    }
}

/// Whether `run` carries a tool section with an object-shaped driver.
fn run_has_driver(run: &JsonValue) -> (r: bool)
    ensures
        r == run_patchable(run.deep()),
{
    match run {
        JsonValue::Object(fields) => {
            proof {
                lemma_deep_object(*run);
            }
            match obj_find(fields, "tool") {
                Some(i) => {
                    let entry = &fields[i];
                    proof {
                        assert(get_key(fields_view(fields@), "tool"@) == entry.1.deep());
                    }
                    tool_has_driver(&entry.1)
                },
                None => false,
            }
        },
        _ => false,
    }
}

/// Whether the document carries the contractually known path
/// `runs[0].tool.driver` with an object driver — exactly the condition
/// under which the patch changes anything. A caller that finds the path
/// absent can leave the stored report untouched, byte for byte.
pub fn has_driver_path(doc: &JsonValue) -> (r: bool)
    ensures
        r == has_driver(doc.deep()),
{
    match doc {
        JsonValue::Object(fields) => {
            proof {
                lemma_deep_object(*doc);
            }
            match obj_find(fields, "runs") {
                Some(i) => {
                    let entry = &fields[i];
                    proof {
                        assert(get_key(fields_view(fields@), "runs"@) == entry.1.deep());
                    }
                    match &entry.1 {
                        JsonValue::Array(elems) => {
                            if elems.len() == 0 {
                                false
                            } else {
                                proof {
                                    lemma_deep_array(entry.1);
                                    assert(elems_view(elems@)[0] == elems@[0].deep());
                                }
                                run_has_driver(&elems[0])
                            }
                        },
                        _ => false,
                    }
                },
                None => false,
            }
        },
        _ => false,
    }
}

/// The label stamped into a patched report for extractor `extractor`.
pub open spec fn sarif_label(extractor: Seq<char>) -> Seq<char> {
    "CodeQL - "@ + extractor
}

/// The tool name a patched report carries: `CodeQL - {extractor}`.
pub fn sarif_tool_label(extractor: &str) -> (r: String)
    ensures
        r@ == sarif_label(extractor@),
{
    concat2("CodeQL - ", extractor)
}

/// Stamps the extractor's display name into the report: exactly the member
/// `runs[0].tool.driver.name` becomes `CodeQL - {extractor}`, and every
/// other part of the document is returned unchanged. A document without
/// that path — or whose driver is not an object — is returned whole.
pub fn update_sarif(doc: JsonValue, extractor: &str) -> (r: JsonValue)
    ensures
        r.deep() == spec_patch(doc.deep(), sarif_label(extractor@)),
{
    let name = sarif_tool_label(extractor);
    let ghost doc0 = doc;
    match doc {
        JsonValue::Object(fields) => {
            proof {
                lemma_deep_object(doc0);
            }
            let mut fields = fields;
            let ghost fields0 = fields@;
            match obj_find(&fields, "runs") {
                Some(i) => {
                    let (k, rv) = fields.remove(i);
                    let ghost rv0 = rv;
                    let nr = patch_runs_value(rv, name);
                    fields.insert(i, (k, nr));
                    let r = JsonValue::Object(fields);
                    proof {
                        lemma_deep_object(r);
                        assert(fields@ =~= fields0.update(i as int, (k, nr)));
                        assert(fields_view(fields0)[i as int].1 == rv0.deep());
                        lemma_key_index(fields_view(fields0), "runs"@);
                        assert(k@ == "runs"@);
                        if runs_patchable(rv0.deep()) {
                            assert(fields_view(fields@) =~= set_key(
                                fields_view(fields0),
                                "runs"@,
                                patch_runs(rv0.deep(), sarif_label(extractor@)),
                            ));
                        } else {
                            assert(fields_view(fields@) =~= fields_view(fields0));
                        }
                    }
                    r
                },
                None => {
                    let r = JsonValue::Object(fields);
                    proof {
                        lemma_deep_object(r);
                        assert(fields_view(fields@) =~= fields_view(fields0));
                    }
                    r
                },
            }
        },
        other => other,
    }
}

} // verus!
