use vstd::prelude::*;

use crate::attributes::AttributeError;
use crate::command::{
    failure_matches, is_malformed, output_text, succeeded, Invocation, ProcessOutput,
};
use crate::error::LVMError;
use crate::text::{digits_value, is_usize_text, unsigned_digits};

verus! {

/// serde_json's parse error, of which only the message is read.
#[verifier::external_type_specification]
#[verifier::external_body]
pub struct ExJsonError(serde_json::Error);

/// What a member of a report record holds, as far as the records read it.
pub enum ScalarView {
    /// A JSON string.
    Text(Seq<char>),
    /// A JSON number, as the decimal text that serde_json displays.
    Number(Seq<char>),
    /// Anything else.
    Other,
}

/// The members of a report record: names and values, in the report's order.
pub type RecordView = Seq<(Seq<char>, ScalarView)>;

/// The value of one member of a report record, as far as the records read it.
#[derive(Debug)]
pub enum ReportValue {
    /// A JSON string.
    Text(String),
    /// A JSON number, as its decimal text.
    Number(String),
    /// Anything else.
    Other,
}

impl View for ReportValue {
    type V = ScalarView;

    open spec fn view(&self) -> ScalarView {
        match self {
            ReportValue::Text(t) => ScalarView::Text(t@),
            ReportValue::Number(t) => ScalarView::Number(t@),
            ReportValue::Other => ScalarView::Other,
        }
    }
}

impl Clone for ReportValue {
    fn clone(&self) -> (r: Self)
        ensures
            r@ == self@,
    {
        match self {
            ReportValue::Text(t) => ReportValue::Text(t.clone()),
            ReportValue::Number(t) => ReportValue::Number(t.clone()),
            ReportValue::Other => ReportValue::Other,
        }
    }
}

/// The view of a list of members.
pub open spec fn members_view(m: Seq<(String, ReportValue)>) -> RecordView {
    m.map_values(|p: (String, ReportValue)| (p.0@, p.1@))
}

/// One record of a report: its members, in the report's order.
#[derive(Clone, Debug)]
pub struct ReportRecord {
    pub members: Vec<(String, ReportValue)>,
}

impl View for ReportRecord {
    type V = RecordView;

    open spec fn view(&self) -> RecordView {
        members_view(self.members@)
    }
}

/// The views of a list of records.
pub open spec fn records_view(v: Seq<ReportRecord>) -> Seq<RecordView> {
    v.map_values(|r: ReportRecord| r@)
}

/// Whether `serde_json::from_str` accepts the text as one JSON document.
pub uninterp spec fn is_json(text: Seq<char>) -> bool;

/// What the JSON document `text` holds at the JSON pointer `pointer`: `None` where nothing
/// is there, `Some(None)` where it is not an array, and otherwise its elements in order,
/// each the members of an object, or `None` for an element that is not an object.
pub uninterp spec fn report_at(text: Seq<char>, pointer: Seq<char>) -> Option<
    Option<Seq<Option<RecordView>>>,
>;

/// The elements that the report reader hands out, as views.
pub type ReadReport = Option<Option<Vec<Option<Vec<(String, ReportValue)>>>>>;

/// The view of what the report reader hands out.
pub open spec fn read_view(r: ReadReport) -> Option<Option<Seq<Option<RecordView>>>> {
    match r {
        None => None,
        Some(None) => Some(None),
        Some(Some(items)) => Some(
            Some(
                items@.map_values(
                    |i: Option<Vec<(String, ReportValue)>>|
                        match i {
                            Some(m) => Some(members_view(m@)),
                            None => None,
                        },
                ),
            ),
        ),
    }
}

/// Relies on serde_json::from_str, serde_json::Value::pointer, the Array, Object, String
/// and Number variants of serde_json::Value, and the decimal text that serde_json::Number
/// displays: whether the text parses, and what it holds at the pointer, depend on the two
/// strings alone.
#[verifier::external_body]
fn read_report(text: &str, pointer: &str) -> (r: Result<ReadReport, serde_json::Error>)
    ensures
        r is Ok <==> is_json(text@),
        r matches Ok(v) ==> read_view(v) == report_at(text@, pointer@),
{
    let doc: serde_json::Value = serde_json::from_str(text)?;
    Ok(doc.pointer(pointer).map(|v| v.as_array().map(|items| items.iter().map(|item| {
        item.as_object().map(|m| m.iter().map(|(k, v)| (k.clone(), match v {
            serde_json::Value::String(s) => ReportValue::Text(s.clone()),
            serde_json::Value::Number(n) => ReportValue::Number(n.to_string()),
            _ => ReportValue::Other,
        })).collect())
    }).collect())))
}

/// The JSON pointer of the report array named `key`.
pub open spec fn report_pointer(key: Seq<char>) -> Seq<char> {
    "/report/0/"@ + key
}

/// Builds [report_pointer].
pub fn report_pointer_of(key: &str) -> (r: String)
    ensures
        r@ == report_pointer(key@),
{
    let mut p = String::from_str("/report/0/");
    p.append(key);
    p
}

/// The members of every element, where every element is an object.
pub open spec fn objects_of(items: Seq<Option<RecordView>>) -> Option<Seq<RecordView>> {
    if forall|i: int| 0 <= i < items.len() ==> (#[trigger] items[i]) is Some {
        Some(
            Seq::new(
                items.len(),
                |i: int|
                    match items[i] {
                        Some(m) => m,
                        None => Seq::empty(),
                    },
            ),
        )
    } else {
        None
    }
}

/// The records of the report array named `key` in the JSON report `text`, where it is an
/// array of objects.
pub open spec fn report_records_of(text: Seq<char>, key: Seq<char>) -> Option<Seq<RecordView>> {
    match report_at(text, report_pointer(key)) {
        Some(Some(items)) => objects_of(items),
        _ => None,
    }
}

/// What unwrapping the report array named `key` from the text `text` gives: the records in
/// the report's order, or the malformed-output error of the first step that fails.
pub open spec fn unwrapped(
    text: Seq<char>,
    key: Seq<char>,
    r: Result<Vec<ReportRecord>, LVMError>,
) -> bool {
    &&& r matches Err(e) ==> e is MalformedOutput
    &&& if !is_json(text) {
        r matches Err(e) && is_malformed(&e, "could not decode JSON output"@)
    } else {
        match report_at(text, report_pointer(key)) {
            None => r matches Err(e) && is_malformed(&e, "wrapping is in the wrong format"@),
            Some(None) => r matches Err(e) && is_malformed(&e, "wrapped value is not an array"@),
            Some(Some(items)) => match objects_of(items) {
                None => r matches Err(e) && is_malformed(
                    &e,
                    "could not decode wrapped type as JSON"@,
                ),
                Some(recs) => r matches Ok(v) && records_view(v@) == recs,
            },
        }
    }
}

/// Unwraps the report array named `key` from a JSON report, such as
/// `{"report": [{"lv": [...]}]}`, into its records, in the report's order.
pub fn unwrap_report(text: &str, key: &str) -> (r: Result<Vec<ReportRecord>, LVMError>)
    ensures
        unwrapped(text@, key@, r),
{
    let pointer = report_pointer_of(key);
    let read = match read_report(text, pointer.as_str()) {
        Ok(read) => read,
        Err(e) => {
            return Err(
                LVMError::MalformedOutput {
                    cause: String::from_str("could not decode JSON output"),
                    result: e.to_string(),
                },
            )
        },
    };
    let items = match read {
        None => {
            let mut expected = String::from_str("expected { \"report\": [ { \"");
            expected.append(key);
            expected.append("\": ... } ] }");
            return Err(
                LVMError::MalformedOutput {
                    cause: String::from_str("wrapping is in the wrong format"),
                    result: expected,
                },
            );
        },
        Some(None) => {
            return Err(
                LVMError::MalformedOutput {
                    cause: String::from_str("wrapped value is not an array"),
                    result: String::from_str("expecting [ ... ]"),
                },
            )
        },
        Some(Some(items)) => items,
    };
    let ghost elems = read_view(Some(Some(items))).unwrap().unwrap();
    let mut records: Vec<ReportRecord> = Vec::new();
    let n = items.len();
    for i in 0..n
        invariant
            n == items@.len(),
            is_json(text@),
            report_at(text@, report_pointer(key@)) == Some(Some(elems)),
            elems.len() == n,
            forall|j: int|
                0 <= j < n ==> #[trigger] elems[j] == match items@[j] {
                    Some(m) => Some(members_view(m@)),
                    None => None,
                },
            records@.len() == i,
            forall|j: int| 0 <= j < i ==> (#[trigger] elems[j]) == Some(records@[j]@),
    {
        match &items[i] {
            Some(m) => records.push(ReportRecord { members: clone_members(m) }),
            None => {
                assert(elems[i as int] is None);
                assert(objects_of(elems) is None);
                return Err(
                    LVMError::MalformedOutput {
                        cause: String::from_str("could not decode wrapped type as JSON"),
                        result: String::from_str("expected a JSON object"),
                    },
                );
            },
        }
    }
    proof {
        assert(forall|j: int| 0 <= j < n ==> (#[trigger] elems[j]) is Some);
        assert(records_view(records@) =~= objects_of(elems).unwrap());
    }
    Ok(records)
}

/// A copy of a list of members.
fn clone_members(m: &Vec<(String, ReportValue)>) -> (r: Vec<(String, ReportValue)>)
    ensures
        members_view(r@) == members_view(m@),
{
    let mut r: Vec<(String, ReportValue)> = Vec::new();
    let n = m.len();
    for i in 0..n
        invariant
            n == m@.len(),
            members_view(r@) == members_view(m@.subrange(0, i as int)),
    {
        let (k, v) = &m[i];
        let ghost before = r@;
        r.push((k.clone(), v.clone()));
        proof {
            assert(members_view(r@) =~= members_view(before).push((k@, v@)));
            assert(members_view(m@.subrange(0, i + 1)) =~= members_view(
                m@.subrange(0, i as int),
            ).push((k@, v@)));
        }
    }
    proof {
        assert(m@.subrange(0, n as int) =~= m@);
    }
    r
}

/// What reading a query's output promises about the failures that come before the report
/// itself is read: those of the process, of UTF-8 and of JSON. A result comes only from a
/// process that succeeded and printed a JSON document.
pub open spec fn output_errors<T>(
    inv: &Invocation,
    out: &ProcessOutput,
    r: Result<T, LVMError>,
) -> bool {
    &&& r is Ok ==> succeeded(out) && vstd::utf8::valid_utf8(out.stdout@) && is_json(
        vstd::utf8::decode_utf8(out.stdout@),
    )
    &&& !succeeded(out) ==> (r matches Err(e) && failure_matches(inv, out, &e))
    &&& succeeded(out) && !vstd::utf8::valid_utf8(out.stdout@) ==> (r matches Err(e)
        && is_malformed(&e, "could not decode command output from UTF-8"@))
    &&& succeeded(out) && vstd::utf8::valid_utf8(out.stdout@) && !is_json(
        vstd::utf8::decode_utf8(out.stdout@),
    ) ==> (r matches Err(e) && is_malformed(&e, "could not decode JSON output"@))
}

/// Whether the process succeeded and printed UTF-8 text.
pub open spec fn printed_text(out: &ProcessOutput) -> bool {
    succeeded(out) && vstd::utf8::valid_utf8(out.stdout@)
}

/// The text that a process printed.
pub open spec fn stdout_text(out: &ProcessOutput) -> Seq<char> {
    vstd::utf8::decode_utf8(out.stdout@)
}

/// The records of the report array named `key` that a query printed, where the process
/// succeeded, printed UTF-8 JSON, and the report holds an array of objects there.
pub open spec fn output_records(out: &ProcessOutput, key: Seq<char>) -> Option<Seq<RecordView>> {
    if printed_text(out) && is_json(stdout_text(out)) {
        report_records_of(stdout_text(out), key)
    } else {
        None
    }
}

/// What reading the report array named `key` from a query's output gives: the failures of
/// [output_errors], and then those of [unwrapped].
pub open spec fn report_read<T>(
    inv: &Invocation,
    out: &ProcessOutput,
    key: Seq<char>,
    r: Result<T, LVMError>,
) -> bool {
    &&& output_errors(inv, out, r)
    &&& printed_text(out) && is_json(stdout_text(out)) ==> match report_at(
        stdout_text(out),
        report_pointer(key),
    ) {
        None => r matches Err(e) && is_malformed(&e, "wrapping is in the wrong format"@),
        Some(None) => r matches Err(e) && is_malformed(&e, "wrapped value is not an array"@),
        Some(Some(items)) => objects_of(items) is None ==> (r matches Err(e) && is_malformed(
            &e,
            "could not decode wrapped type as JSON"@,
        )),
    }
}

/// The records of the report array named `key` that a query printed.
pub fn report_records(inv: &Invocation, key: &str, out: &ProcessOutput) -> (r: Result<
    Vec<ReportRecord>,
    LVMError,
>)
    ensures
        report_read(inv, out, key@, r),
        printed_text(out) ==> unwrapped(stdout_text(out), key@, r),
        r matches Ok(v) ==> output_records(out, key@) == Some(records_view(v@)),
{
    match output_text(inv, out) {
        Ok(text) => unwrap_report(text.as_str(), key),
        Err(e) => Err(e),
    }
}

/// Relies on serde_aux::field_attributes::deserialize_number_from_string, which reads a
/// JSON string with `usize`'s `FromStr`: an optional `+`, then decimal digits standing for
/// a number no larger than `usize::MAX`.
#[verifier::external_body]
fn number_from_string(s: &str) -> (r: Option<usize>)
    ensures
        r is Some <==> is_usize_text(s@),
        r matches Some(n) ==> n == digits_value(unsigned_digits(s@)),
{
    serde_aux::field_attributes::deserialize_number_from_string::<usize, serde_json::Value>(
        serde_json::Value::String(s.to_owned()),
    ).ok()
}

/// The value of the first member of `m` named `key`.
pub open spec fn member_of(m: RecordView, key: Seq<char>) -> Option<ScalarView>
    decreases m.len(),
{
    if m.len() == 0 {
        None
    } else if m[0].0 == key {
        Some(m[0].1)
    } else {
        member_of(m.drop_first(), key)
    }
}

/// The text of the member `key` of `rec`, where it is a JSON string.
pub open spec fn text_member(rec: RecordView, key: Seq<char>) -> Option<Seq<char>> {
    match member_of(rec, key) {
        Some(ScalarView::Text(t)) => Some(t),
        _ => None,
    }
}

/// The number in the member `key` of `rec`, where it is a `usize` written as a JSON
/// string or a JSON number.
pub open spec fn number_member(rec: RecordView, key: Seq<char>) -> Option<nat> {
    match member_of(rec, key) {
        Some(ScalarView::Text(t)) => if is_usize_text(t) {
            Some(digits_value(unsigned_digits(t)))
        } else {
            None
        },
        Some(ScalarView::Number(t)) => if is_usize_text(t) {
            Some(digits_value(unsigned_digits(t)))
        } else {
            None
        },
        _ => None,
    }
}

impl ReportRecord {
    /// The value of the member named `key`.
    pub fn member(&self, key: &str) -> (r: Option<ReportValue>)
        ensures
            match r {
                Some(v) => member_of(self@, key@) == Some(v@),
                None => member_of(self@, key@) is None,
            },
    {
        let n = self.members.len();
        let mut i: usize = 0;
        assert(self.members@.subrange(0, n as int) =~= self.members@);
        while i < n
            invariant
                n == self.members@.len(),
                i <= n,
                member_of(self@, key@) == member_of(
                    members_view(self.members@.subrange(i as int, n as int)),
                    key@,
                ),
            decreases n - i,
        {
            let ghost rest = self.members@.subrange(i as int, n as int);
            assert(members_view(rest).drop_first() =~= members_view(
                self.members@.subrange(i + 1, n as int),
            ));
            if self.members[i].0.eq(&String::from_str(key)) {
                return Some(self.members[i].1.clone());
            }
            i = i + 1;
        }
        None
    }

    /// The text of the member `key`, where it is a JSON string.
    pub fn text(&self, key: &str) -> (r: Option<String>)
        ensures
            r matches Some(t) ==> text_member(self@, key@) == Some(t@),
            r is None ==> text_member(self@, key@) is None,
    {
        match self.member(key) {
            Some(ReportValue::Text(t)) => Some(t),
            _ => None,
        }
    }

    /// The number in the member `key`, where it is a `usize` written as a JSON string or a
    /// JSON number.
    pub fn number(&self, key: &str) -> (r: Option<usize>)
        ensures
            r matches Some(n) ==> number_member(self@, key@) == Some(n as nat),
            r is None ==> number_member(self@, key@) is None,
    {
        match self.member(key) {
            Some(ReportValue::Text(t)) => number_from_string(t.as_str()),
            Some(ReportValue::Number(t)) => number_from_string(t.as_str()),
            _ => None,
        }
    }
}

/// The error of a record whose member `key` is missing or does not hold what it should.
pub fn field_error(key: &str) -> (r: LVMError)
    ensures
        is_malformed(&r, "could not decode wrapped type as JSON"@),
{
    let mut result = String::from_str("missing or invalid field `");
    result.append(key);
    result.append("`");
    LVMError::MalformedOutput {
        cause: String::from_str("could not decode wrapped type as JSON"),
        result,
    }
}

/// The error of a record whose attribute string, the member `key`, does not decode.
pub fn attribute_error(key: &str, e: &AttributeError) -> (r: LVMError)
    ensures
        is_malformed(&r, "could not decode wrapped type as JSON"@),
{
    let mut result = String::from_str("invalid field `");
    result.append(key);
    result.append("`: ");
    result.append(e.to_string().as_str());
    LVMError::MalformedOutput {
        cause: String::from_str("could not decode wrapped type as JSON"),
        result,
    }
}

} // verus!
