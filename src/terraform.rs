//! The provisioning tool's output: a map from output name to a text or a
//! list of texts, decoded from the tool's JSON report.

use vstd::prelude::*;
use crate::json::{
    decode_document, distinct_keys, json_document, json_fields, json_items, json_text,
    object_entries,
};

verus! {

/// One output of the provisioning tool.
#[allow(inconsistent_fields)]
pub enum TerraformValue {
    String { value: String },
    List { value: Vec<String> },
}

/// What an output holds, as a mathematical value.
pub enum ValueModel {
    Scalar(Seq<char>),
    List(Seq<Seq<char>>),
}

impl View for TerraformValue {
    type V = ValueModel;

    open spec fn view(&self) -> ValueModel {
        match self {
            TerraformValue::String { value } => ValueModel::Scalar(value@),
            TerraformValue::List { value } => ValueModel::List(value.deep_view()),
        }
    }
}

/// Items joined with ", ".
pub open spec fn join(xs: Seq<Seq<char>>) -> Seq<char>
    decreases xs.len(),
{
    if xs.len() == 0 {
        Seq::empty()
    } else if xs.len() == 1 {
        xs[0]
    } else {
        join(xs.drop_last()) + ", "@ + xs.last()
    }
}

/// The text form of an output: a scalar verbatim, a list in brackets.
pub open spec fn render(m: ValueModel) -> Seq<char> {
    match m {
        ValueModel::Scalar(t) => t,
        ValueModel::List(xs) => "["@ + join(xs) + "]"@,
    }
}

impl TerraformValue {
    /// The text form of the output, as used for an address.
    pub fn to_text(&self) -> (r: String)
        ensures
            r@ == render(self@),
    {
        match self {
            TerraformValue::String { value } => value.clone(),
            TerraformValue::List { value } => {
                let mut r = String::from_str("[");
                let mut i: usize = 0;
                while i < value.len()
                    invariant
                        i <= value.len(),
                        r@ == "["@ + join(value.deep_view().subrange(0, i as int)),
                    decreases value.len() - i,
                {
                    let ghost xs = value.deep_view();
                    if i > 0 {
                        r.append(", ");
                    }
                    r.append(value[i].as_str());
                    proof {
                        let s = xs.subrange(0, i + 1);
                        assert(s.drop_last() =~= xs.subrange(0, i as int));
                        if i == 0 {
                            assert(join(xs.subrange(0, 0)) =~= Seq::<char>::empty());
                        }
                    }
                    i = i + 1;
                }
                assert(value.deep_view().subrange(0, value.len() as int) =~= value.deep_view());
                r.append("]");
                r
            }
        }
    }
}

/// Why a provisioning report could not be read.
#[derive(Debug, PartialEq, Eq, Structural)]
pub enum ParseError {
    Malformed,
}

/// The first value stored under `key`.
pub open spec fn lookup<V>(es: Seq<(Seq<char>, V)>, key: Seq<char>) -> Option<V>
    decreases es.len(),
{
    if es.len() == 0 {
        None
    } else {
        match lookup(es.drop_last(), key) {
            Some(v) => Some(v),
            None => if es.last().0 == key { Some(es.last().1) } else { None },
        }
    }
}

/// The reading of one output entry: an object whose `value` field is a
/// string or an array of strings.
pub open spec fn classify(v: serde_json::Value) -> Option<ValueModel> {
    match json_fields(v) {
        Some(fs) => match lookup(fs, "value"@) {
            Some(f) => match json_text(f) {
                Some(t) => Some(ValueModel::Scalar(t)),
                None => match json_items(f) {
                    Some(xs) => if forall|i: int| 0 <= i < xs.len() ==> (#[trigger] json_text(xs[i])) is Some {
                        Some(ValueModel::List(xs.map_values(|x: serde_json::Value| json_text(x).unwrap())))
                    } else {
                        None
                    },
                    None => None,
                },
            },
            None => None,
        },
        None => None,
    }
}

/// The reading of a whole report: an object each of whose entries reads.
pub open spec fn document_model(d: serde_json::Value) -> Option<Seq<(Seq<char>, ValueModel)>> {
    match json_fields(d) {
        Some(fs) => if forall|i: int| 0 <= i < fs.len() ==> (#[trigger] classify(fs[i].1)) is Some {
            Some(fs.map_values(|e: (Seq<char>, serde_json::Value)| (e.0, classify(e.1).unwrap())))
        } else {
            None
        },
        None => None,
    }
}

/// The reading of a report's text, `None` where it is malformed.
pub open spec fn parse_spec(raw: Seq<char>) -> Option<Seq<(Seq<char>, ValueModel)>> {
    match json_document(raw) {
        Some(d) => document_model(d),
        None => None,
    }
}

/// The outputs of one provisioning run, each name once.
pub struct TerraformOutput {
    entries: Vec<(String, TerraformValue)>,
}

impl View for TerraformOutput {
    type V = Seq<(Seq<char>, ValueModel)>;

    closed spec fn view(&self) -> Seq<(Seq<char>, ValueModel)> {
        self.entries@.map_values(|e: (String, TerraformValue)| (e.0@, e.1@))
    }
}

impl TerraformOutput {
    pub open spec fn wf(&self) -> bool {
        distinct_keys(self@)
    }

    /// Number of outputs.
    pub fn len(&self) -> (r: usize)
        ensures
            r == self@.len(),
    {
        self.entries.len()
    }

    /// The output stored under `key`.
    pub fn get(&self, key: &str) -> (r: Option<&TerraformValue>)
        ensures
            match r {
                Some(v) => lookup(self@, key@) == Some(v@),
                None => lookup(self@, key@) is None,
            },
    {
        let k = String::from_str(key);
        let mut i: usize = 0;
        while i < self.entries.len()
            invariant
                i <= self.entries.len(),
                lookup(self@, key@) is None ==> lookup(self@.subrange(0, i as int), key@) is None,
                lookup(self@.subrange(0, i as int), key@) is None,
                k@ == key@,
            decreases self.entries.len() - i,
        {
            proof {
                assert(self@.subrange(0, i + 1).drop_last() =~= self@.subrange(0, i as int));
            }
            if self.entries[i].0 == k {
                proof {
                    lemma_lookup_prefix(self@, key@, i + 1);
                }
                return Some(&self.entries[i].1);
            }
            i = i + 1;
        }
        assert(self@.subrange(0, self.entries.len() as int) =~= self@);
        None
    }
}

/// A value found in a prefix is the value found in the whole list.
pub proof fn lemma_lookup_prefix<V>(es: Seq<(Seq<char>, V)>, key: Seq<char>, n: int)
    requires
        0 <= n <= es.len(),
        lookup(es.subrange(0, n), key) is Some,
    ensures
        lookup(es, key) == lookup(es.subrange(0, n), key),
    decreases es.len() - n,
{
    if n < es.len() {
        assert(es.subrange(0, n + 1).drop_last() =~= es.subrange(0, n));
        lemma_lookup_prefix(es, key, n + 1);
    } else {
        assert(es.subrange(0, n) =~= es);
    }
}

/// Reads one output entry.
fn classify_entry(v: &serde_json::Value) -> (r: Option<TerraformValue>)
    ensures
        match r {
            Some(t) => classify(*v) == Some(t@),
            None => classify(*v) is None,
        },
{
    let fields = match object_entries(v) {
        Some(f) => f,
        None => return None,
    };
    let ghost fs = json_fields(*v).unwrap();
    let key = String::from_str("value");
    let mut found: Option<&serde_json::Value> = None;
    let mut i: usize = 0;
    while i < fields.len()
        invariant
            i <= fields.len(),
            fs == crate::json::entries_view(fields@),
            json_fields(*v) == Some(fs),
            key@ == "value"@,
            match found {
                Some(x) => lookup(fs.subrange(0, i as int), "value"@) == Some(*x),
                None => lookup(fs.subrange(0, i as int), "value"@) is None,
            },
        decreases fields.len() - i,
    {
        proof {
            assert(fs.subrange(0, i + 1).drop_last() =~= fs.subrange(0, i as int));
        }
        if found.is_none() && fields[i].0 == key {
            found = Some(&fields[i].1);
        }
        i = i + 1;
    }
    assert(fs.subrange(0, fields.len() as int) =~= fs);
    let f = match found {
        Some(x) => x,
        None => return None,
    };
    if let Some(t) = f.as_str() {
        return Some(TerraformValue::String { value: String::from_str(t) });
    }
    let items = match f.as_array() {
        Some(a) => a,
        None => return None,
    };
    let mut out: Vec<String> = Vec::new();
    let mut j: usize = 0;
    while j < items.len()
        invariant
            j <= items.len(),
            out@.len() == j,
            json_items(*f) == Some(items@),
            json_text(*f) is None,
            lookup(fs, "value"@) == Some(*f),
            json_fields(*v) == Some(fs),
            forall|k: int| 0 <= k < j ==> (#[trigger] json_text(items@[k])) == Some(out@[k]@),
        decreases items.len() - j,
    {
        match items[j].as_str() {
            Some(t) => out.push(String::from_str(t)),
            None => {
                assert(json_text(items@[j as int]) is None);
                return None;
            },
        }
        j = j + 1;
    }
    let ghost xs = items@;
    assert(out.deep_view() =~= xs.map_values(|x: serde_json::Value| json_text(x).unwrap()));
    Some(TerraformValue::List { value: out })
}

/// Builds and reads a provisioning run.
pub struct TerraformClient;

impl TerraformClient {
    /// Reads the provisioning tool's JSON report into its outputs: every
    /// entry must be an object whose `value` is a string or an array of
    /// strings; anything else is malformed.
    pub fn parse_output(raw_json: &str) -> (r: Result<TerraformOutput, ParseError>)
        ensures
            match parse_spec(raw_json@) {
                Some(m) => r is Ok && r->Ok_0@ == m && r->Ok_0.wf(),
                None => r == Err::<TerraformOutput, ParseError>(ParseError::Malformed),
            },
    {
        let doc = match decode_document(raw_json) {
            Ok(d) => d,
            Err(_) => return Err(ParseError::Malformed),
        };
        let fields = match object_entries(&doc) {
            Some(f) => f,
            None => return Err(ParseError::Malformed),
        };
        let ghost fs = json_fields(doc).unwrap();
        let mut entries: Vec<(String, TerraformValue)> = Vec::new();
        let mut i: usize = 0;
        while i < fields.len()
            invariant
                i <= fields.len(),
                fs == crate::json::entries_view(fields@),
                json_document(raw_json@) == Some(doc),
                json_fields(doc) == Some(fs),
                distinct_keys(fs),
                entries@.len() == i,
                forall|k: int| 0 <= k < i ==> (#[trigger] entries@[k]).0@ == fs[k].0
                    && classify(fs[k].1) == Some(entries@[k].1@),
            decreases fields.len() - i,
        {
            assert(fs[i as int] == (fields@[i as int].0@, fields@[i as int].1));
            match classify_entry(&fields[i].1) {
                Some(t) => entries.push((fields[i].0.clone(), t)),
                None => {
                    assert(classify(fs[i as int].1) is None);
                    return Err(ParseError::Malformed);
                },
            }
            i = i + 1;
        }
        let out = TerraformOutput { entries };
        assert(out@ =~= fs.map_values(|e: (Seq<char>, serde_json::Value)| (e.0, classify(e.1).unwrap())));
        assert forall|k: int| 0 <= k < fs.len() implies (#[trigger] classify(fs[k].1)) is Some by {
            assert(classify(fs[k].1) == Some(entries@[k].1@));
        }
        assert(forall|k: int| 0 <= k < out@.len() ==> (#[trigger] out@[k]).0 == fs[k].0);
        Ok(out)
    }

    /// The variables handed to the provisioning template.
    pub fn build_apply_vars() -> (r: Vec<(String, String)>)
        ensures
            r@.len() == 1,
            r@[0].0@ == "worker_count"@,
            r@[0].1@ == "2"@,
    {
        let mut vars: Vec<(String, String)> = Vec::new();
        vars.push((String::from_str("worker_count"), String::from_str("2")));
        vars
    }
}

/// With distinct keys, each key finds its own entry.
pub proof fn lemma_lookup_distinct<V>(es: Seq<(Seq<char>, V)>, i: int)
    requires
        distinct_keys(es),
        0 <= i < es.len(),
    ensures
        lookup(es, es[i].0) == Some(es[i].1),
    decreases es.len(),
{
    let d = es.drop_last();
    if i < es.len() - 1 {
        assert(d[i] == es[i]);
        assert(distinct_keys(d)) by {
            assert forall|a: int, b: int| 0 <= a < d.len() && 0 <= b < d.len() && a != b implies d[a].0 != d[b].0 by {
                assert(d[a] == es[a] && d[b] == es[b]);
            }
        }
        lemma_lookup_distinct(d, i);
    } else {
        lemma_lookup_absent(d, es[i].0);
    }
}

/// A key held by no entry finds nothing.
pub proof fn lemma_lookup_absent<V>(es: Seq<(Seq<char>, V)>, key: Seq<char>)
    requires
        forall|j: int| 0 <= j < es.len() ==> (#[trigger] es[j]).0 != key,
    ensures
        lookup(es, key) is None,
    decreases es.len(),
{
    if es.len() > 0 {
        let d = es.drop_last();
        assert forall|j: int| 0 <= j < d.len() implies (#[trigger] d[j]).0 != key by {
            assert(d[j] == es[j]);
        }
        lemma_lookup_absent(d, key);
    }
}

/// A successful read keeps every key of the report once, in the report's
/// order, and each key finds the reading of its own entry: a string `value`
/// gives a scalar, an array of strings a list.
pub proof fn lemma_parse_keeps_keys(raw: Seq<char>, out: TerraformOutput)
    requires
        parse_spec(raw) == Some(out@),
        out.wf(),
    ensures
        ({
            let fs = json_fields(json_document(raw).unwrap()).unwrap();
            &&& out@.len() == fs.len()
            &&& forall|i: int| 0 <= i < fs.len() ==> (#[trigger] out@[i]).0 == fs[i].0
            &&& forall|i: int| 0 <= i < fs.len() ==> lookup(out@, #[trigger] fs[i].0) == classify(fs[i].1)
            &&& forall|i: int| 0 <= i < fs.len() ==> ((#[trigger] out@[i]).1 is Scalar <==> json_text(
                lookup(json_fields(fs[i].1).unwrap(), "value"@).unwrap()) is Some)
        }),
{
    let fs = json_fields(json_document(raw).unwrap()).unwrap();
    assert forall|i: int| 0 <= i < fs.len() implies lookup(out@, #[trigger] fs[i].0) == classify(fs[i].1) by {
        assert(classify(fs[i].1) is Some);
        assert(out@[i] == (fs[i].0, classify(fs[i].1).unwrap()));
        lemma_lookup_distinct(out@, i);
    }
    assert forall|i: int| 0 <= i < fs.len() implies ((#[trigger] out@[i]).1 is Scalar <==> json_text(
        lookup(json_fields(fs[i].1).unwrap(), "value"@).unwrap()) is Some) by {
        assert(classify(fs[i].1) is Some);
    }
}

} // verus!
