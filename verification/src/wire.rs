//! The wire protocol between the host and plugin scripts: JSON values and the
//! shapes of the payloads that cross the boundary.

use crate::error::BridgeError;
use crate::span::Span;
use crate::text::str_eq;
use vstd::prelude::*;
use vstd::string::StringExecFns;

verus! {

/// A JSON value as it arrives from, or is handed to, the script runtime.
#[derive(Debug, PartialEq, Eq)]
pub enum Json {
    Null,
    Bool(bool),
    /// A number without fraction or exponent.
    Integer(i128),
    /// Any other number. The protocol accepts none, so its value is not kept.
    OtherNumber,
    Str(String),
    Array(Vec<Json>),
    /// An object: its members in the order in which they were written.
    Object(Vec<Member>),
}

/// One member of a JSON object.
#[derive(Debug, PartialEq, Eq)]
pub struct Member {
    pub name: String,
    pub value: Json,
}

/// The mathematical content of a [`Json`] value.
pub enum JsonView {
    Null,
    Bool(bool),
    Integer(int),
    OtherNumber,
    Str(Seq<char>),
    Array(Seq<JsonView>),
    Object(Seq<(Seq<char>, JsonView)>),
}

impl View for Json {
    type V = JsonView;

    open spec fn view(&self) -> JsonView
        decreases self,
    {
        match self {
            Json::Null => JsonView::Null,
            Json::Bool(b) => JsonView::Bool(*b),
            Json::Integer(n) => JsonView::Integer(*n as int),
            Json::OtherNumber => JsonView::OtherNumber,
            Json::Str(s) => JsonView::Str(s@),
            Json::Array(items) => JsonView::Array(
                Seq::new(
                    items@.len(),
                    |i: int|
                        if 0 <= i < items@.len() {
                            items@[i]@
                        } else {
                            JsonView::Null
                        },
                ),
            ),
            Json::Object(members) => JsonView::Object(
                Seq::new(
                    members@.len(),
                    |i: int|
                        if 0 <= i < members@.len() {
                            (members@[i].name@, members@[i].value@)
                        } else {
                            (Seq::empty(), JsonView::Null)
                        },
                ),
            ),
        }
    }
}

/// The content of an array is the contents of its items, in order.
pub proof fn lemma_array_view(value: Json)
    requires
        value is Array,
    ensures
        value@ is Array,
        value@->Array_0.len() == value->Array_0@.len(),
        forall|i: int|
            0 <= i < value->Array_0@.len() ==> #[trigger] value@->Array_0[i]
                == value->Array_0@[i]@,
{
    reveal_with_fuel(<Json as View>::view, 2);
}

/// The content of an object is the names and contents of its members, in
/// order.
pub proof fn lemma_object_view(value: Json)
    requires
        value is Object,
    ensures
        value@ is Object,
        value@->Object_0.len() == value->Object_0@.len(),
        forall|i: int|
            0 <= i < value->Object_0@.len() ==> #[trigger] value@->Object_0[i] == (
                value->Object_0@[i].name@,
                value->Object_0@[i].value@,
            ),
{
    reveal_with_fuel(<Json as View>::view, 2);
}

/// The value of the first member called `name`, if there is one.
pub open spec fn first_named(members: Seq<(Seq<char>, JsonView)>, name: Seq<char>) -> Option<
    JsonView,
>
    decreases members.len(),
{
    if members.len() == 0 {
        None
    } else if members[0].0 == name {
        Some(members[0].1)
    } else {
        first_named(members.drop_first(), name)
    }
}

impl JsonView {
    /// The member `name` of an object: `None` for a value that is no object,
    /// or an object without such a member.
    pub open spec fn field(self, name: Seq<char>) -> Option<JsonView> {
        match self {
            JsonView::Object(members) => first_named(members, name),
            _ => None,
        }
    }
}

impl Json {
    /// The member `name` of an object: `None` for a value that is no object,
    /// or an object without such a member.
    pub fn field(&self, name: &str) -> (found: Option<&Json>)
        ensures
            match found {
                Some(value) => self@.field(name@) == Some(value@),
                None => self@.field(name@) is None,
            },
    {
        match self {
            Json::Object(members) => {
                let ghost views = self@->Object_0;
                let mut i: usize = 0;
                proof {
                    lemma_object_view(*self);
                }
                assert(views.skip(0) =~= views);
                while i < members.len()
                    invariant
                        i <= members.len(),
                        self@ == JsonView::Object(views),
                        views.len() == members@.len(),
                        forall|j: int|
                            0 <= j < members@.len() ==> #[trigger] views[j] == (
                                members@[j].name@,
                                members@[j].value@,
                            ),
                        first_named(views, name@) == first_named(views.skip(i as int), name@),
                    decreases members.len() - i,
                {
                    assert(views.skip(i as int)[0] == views[i as int]);
                    if str_eq(members[i].name.as_str(), name) {
                        assert(first_named(views.skip(i as int), name@) == Some(
                            views[i as int].1,
                        ));
                        return Some(&members[i].value);
                    }
                    assert(views.skip(i as int).drop_first() =~= views.skip(i as int + 1));
                    i += 1;
                }
                None
            },
            _ => None,
        }
    }
}

/// A finding as a plugin reports it: the rule's code comes with the report
/// that holds it.
#[derive(Debug, PartialEq, Eq)]
pub struct ReportedDiagnostic {
    pub span: Span,
    pub message: String,
    pub hint: Option<String>,
}

/// The mathematical content of a [`ReportedDiagnostic`].
pub struct ReportedView {
    pub span: Span,
    pub message: Seq<char>,
    pub hint: Option<Seq<char>>,
}

impl View for ReportedDiagnostic {
    type V = ReportedView;

    open spec fn view(&self) -> ReportedView {
        ReportedView {
            span: self.span,
            message: self.message@,
            hint: match self.hint {
                Some(hint) => Some(hint@),
                None => None,
            },
        }
    }
}

/// The contents of a list of reported findings, in order.
pub open spec fn reported_views(list: Seq<ReportedDiagnostic>) -> Seq<ReportedView> {
    Seq::new(list.len(), |i: int| list[i]@)
}

/// The findings of one rule, as one call of a plugin delivers them.
#[derive(Debug, PartialEq, Eq)]
pub struct DiagnosticReport {
    pub code: String,
    pub diagnostics: Vec<ReportedDiagnostic>,
}

/// The mathematical content of a [`DiagnosticReport`].
pub struct ReportView {
    pub code: Seq<char>,
    pub diagnostics: Seq<ReportedView>,
}

impl View for DiagnosticReport {
    type V = ReportView;

    open spec fn view(&self) -> ReportView {
        ReportView { code: self.code@, diagnostics: reported_views(self.diagnostics@) }
    }
}

/// The byte offset that a JSON value stands for: an integer that fits 32
/// bits without sign.
pub open spec fn offset_of(value: JsonView) -> Option<u32> {
    match value {
        JsonView::Integer(n) => if 0 <= n <= u32::MAX {
            Some(n as u32)
        } else {
            None
        },
        _ => None,
    }
}

/// The text that a JSON value stands for: that of a string.
pub open spec fn text_of(value: JsonView) -> Option<Seq<char>> {
    match value {
        JsonView::Str(text) => Some(text),
        _ => None,
    }
}

/// The span that a JSON value stands for: `{ lo, hi }`, both offsets.
pub open spec fn span_of(value: JsonView) -> Option<Span> {
    match (value.field("lo"@), value.field("hi"@)) {
        (Some(lo), Some(hi)) => match (offset_of(lo), offset_of(hi)) {
            (Some(lo), Some(hi)) => Some(Span { lo, hi }),
            _ => None,
        },
        _ => None,
    }
}

/// The hint that the member `hint` of a finding stands for. A missing member
/// and `null` both mean that there is no hint; a string is the hint; any other
/// value is malformed.
pub open spec fn hint_of(member: Option<JsonView>) -> Option<Option<Seq<char>>> {
    match member {
        None => Some(None),
        Some(JsonView::Null) => Some(None),
        Some(JsonView::Str(text)) => Some(Some(text)),
        Some(_) => None,
    }
}

/// The finding that a JSON value stands for:
/// `{ span: { lo, hi }, message: string, hint: string | null }`.
pub open spec fn reported_of(value: JsonView) -> Option<ReportedView> {
    match (value.field("span"@), value.field("message"@)) {
        (Some(span), Some(message)) => match (
            span_of(span),
            text_of(message),
            hint_of(value.field("hint"@)),
        ) {
            (Some(span), Some(message), Some(hint)) => Some(ReportedView { span, message, hint }),
            _ => None,
        },
        _ => None,
    }
}

/// The findings that a JSON value stands for: an array of findings.
pub open spec fn reported_list_of(value: JsonView) -> Option<Seq<ReportedView>> {
    match value {
        JsonView::Array(items) => if forall|i: int|
            0 <= i < items.len() ==> (#[trigger] reported_of(items[i])) is Some {
            Some(Seq::new(items.len(), |i: int| reported_of(items[i])->Some_0))
        } else {
            None
        },
        _ => None,
    }
}

/// The report that a JSON value stands for:
/// `{ code: string, diagnostics: [finding, ...] }`.
pub open spec fn report_of(value: JsonView) -> Option<ReportView> {
    match (value.field("code"@), value.field("diagnostics"@)) {
        (Some(code), Some(diagnostics)) => match (text_of(code), reported_list_of(diagnostics)) {
            (Some(code), Some(diagnostics)) => Some(ReportView { code, diagnostics }),
            _ => None,
        },
        _ => None,
    }
}

/// The rule code that a JSON value announces: `{ code: string }`.
pub open spec fn rule_code_of(value: JsonView) -> Option<Seq<char>> {
    match value.field("code"@) {
        Some(code) => text_of(code),
        None => None,
    }
}

/// The span that a control-flow query asks about: `{ span: { lo, hi } }`.
pub open spec fn query_of(value: JsonView) -> Option<Span> {
    match value.field("span"@) {
        Some(span) => span_of(span),
        None => None,
    }
}

/// A tri-state as JSON: `true`, `false`, or `null` for unknown.
pub open spec fn tri_state(value: Option<bool>) -> JsonView {
    match value {
        Some(b) => JsonView::Bool(b),
        None => JsonView::Null,
    }
}

/// The answer to a control-flow query:
/// `{ isReachable: bool | null, stopsExecution: bool | null }`.
pub open spec fn answer_of(is_reachable: Option<bool>, stops_execution: Option<bool>) -> JsonView {
    JsonView::Object(
        seq![
            ("isReachable"@, tri_state(is_reachable)),
            ("stopsExecution"@, tri_state(stops_execution)),
        ],
    )
}

/// Reads a byte offset. Fails on anything but an integer from 0 to 2^32 - 1.
pub fn decode_offset(value: &Json) -> (decoded: Result<u32, BridgeError>)
    ensures
        match offset_of(value@) {
            Some(offset) => decoded == Ok::<u32, BridgeError>(offset),
            None => decoded matches Err(BridgeError::Protocol),
        },
{
    match value {
        Json::Integer(n) => {
            if 0 <= *n && *n <= 0xffff_ffff {
                Ok(*n as u32)
            } else {
                Err(BridgeError::Protocol)
            }
        },
        _ => Err(BridgeError::Protocol),
    }
}

/// Reads a string.
pub fn decode_text(value: &Json) -> (decoded: Result<String, BridgeError>)
    ensures
        match text_of(value@) {
            Some(text) => decoded matches Ok(s) && s@ == text,
            None => decoded matches Err(BridgeError::Protocol),
        },
{
    match value {
        Json::Str(text) => Ok(text.clone()),
        _ => Err(BridgeError::Protocol),
    }
}

/// Reads a span from `{ lo, hi }`.
pub fn decode_span(value: &Json) -> (decoded: Result<Span, BridgeError>)
    ensures
        match span_of(value@) {
            Some(span) => decoded == Ok::<Span, BridgeError>(span),
            None => decoded matches Err(BridgeError::Protocol),
        },
{
    let lo = match value.field("lo") {
        Some(lo) => lo,
        None => { return Err(BridgeError::Protocol); },
    };
    let hi = match value.field("hi") {
        Some(hi) => hi,
        None => { return Err(BridgeError::Protocol); },
    };
    let lo = match decode_offset(lo) {
        Ok(lo) => lo,
        Err(e) => { return Err(e); },
    };
    let hi = match decode_offset(hi) {
        Ok(hi) => hi,
        Err(e) => { return Err(e); },
    };
    Ok(Span { lo, hi })
}

/// Reads the hint of a finding from its member `hint`, which may be missing.
pub fn decode_hint(member: Option<&Json>) -> (decoded: Result<Option<String>, BridgeError>)
    ensures
        match hint_of(
            match member {
                Some(value) => Some(value@),
                None => None,
            },
        ) {
            Some(Some(text)) => decoded matches Ok(Some(s)) && s@ == text,
            Some(None) => decoded matches Ok(None),
            None => decoded matches Err(BridgeError::Protocol),
        },
{
    match member {
        None => Ok(None),
        Some(Json::Null) => Ok(None),
        Some(Json::Str(text)) => Ok(Some(text.clone())),
        Some(_) => Err(BridgeError::Protocol),
    }
}

/// Reads one finding from `{ span, message, hint }`.
pub fn decode_reported(value: &Json) -> (decoded: Result<ReportedDiagnostic, BridgeError>)
    ensures
        match reported_of(value@) {
            Some(reported) => decoded matches Ok(d) && d@ == reported,
            None => decoded matches Err(BridgeError::Protocol),
        },
{
    let span = match value.field("span") {
        Some(span) => span,
        None => { return Err(BridgeError::Protocol); },
    };
    let message = match value.field("message") {
        Some(message) => message,
        None => { return Err(BridgeError::Protocol); },
    };
    let span = match decode_span(span) {
        Ok(span) => span,
        Err(e) => { return Err(e); },
    };
    let message = match decode_text(message) {
        Ok(message) => message,
        Err(e) => { return Err(e); },
    };
    let hint = match decode_hint(value.field("hint")) {
        Ok(hint) => hint,
        Err(e) => { return Err(e); },
    };
    Ok(ReportedDiagnostic { span, message, hint })
}

/// Reads a list of findings from an array. One malformed item fails the
/// whole list.
pub fn decode_reported_list(value: &Json) -> (decoded: Result<
    Vec<ReportedDiagnostic>,
    BridgeError,
>)
    ensures
        match reported_list_of(value@) {
            Some(list) => decoded matches Ok(v) && reported_views(v@) == list,
            None => decoded matches Err(BridgeError::Protocol),
        },
{
    match value {
        Json::Array(items) => {
            proof {
                lemma_array_view(*value);
            }
            let ghost views = value@->Array_0;
            let mut list: Vec<ReportedDiagnostic> = Vec::new();
            let mut i: usize = 0;
            while i < items.len()
                invariant
                    i <= items.len(),
                    value@ == JsonView::Array(views),
                    views.len() == items@.len(),
                    forall|j: int| 0 <= j < items@.len() ==> #[trigger] views[j] == items@[j]@,
                    list.len() == i,
                    forall|j: int| 0 <= j < i ==> (#[trigger] reported_of(views[j])) is Some,
                    forall|j: int|
                        0 <= j < i ==> (#[trigger] list@[j])@ == reported_of(views[j])->Some_0,
                decreases items.len() - i,
            {
                match decode_reported(&items[i]) {
                    Ok(reported) => {
                        list.push(reported);
                    },
                    Err(e) => {
                        assert(reported_of(views[i as int]) is None);
                        return Err(e);
                    },
                }
                i += 1;
            }
            assert(reported_views(list@) =~= reported_list_of(value@)->Some_0);
            Ok(list)
        },
        _ => Err(BridgeError::Protocol),
    }
}

/// Reads a report of findings from `{ code, diagnostics }`.
pub fn decode_report(value: &Json) -> (decoded: Result<DiagnosticReport, BridgeError>)
    ensures
        match report_of(value@) {
            Some(report) => decoded matches Ok(r) && r@ == report,
            None => decoded matches Err(BridgeError::Protocol),
        },
{
    let code = match value.field("code") {
        Some(code) => code,
        None => { return Err(BridgeError::Protocol); },
    };
    let diagnostics = match value.field("diagnostics") {
        Some(diagnostics) => diagnostics,
        None => { return Err(BridgeError::Protocol); },
    };
    let code = match decode_text(code) {
        Ok(code) => code,
        Err(e) => { return Err(e); },
    };
    let diagnostics = match decode_reported_list(diagnostics) {
        Ok(diagnostics) => diagnostics,
        Err(e) => { return Err(e); },
    };
    Ok(DiagnosticReport { code, diagnostics })
}

/// Reads the announcement of a rule code from `{ code }`.
pub fn decode_rule_code(value: &Json) -> (decoded: Result<String, BridgeError>)
    ensures
        match rule_code_of(value@) {
            Some(code) => decoded matches Ok(s) && s@ == code,
            None => decoded matches Err(BridgeError::Protocol),
        },
{
    match value.field("code") {
        Some(code) => decode_text(code),
        None => Err(BridgeError::Protocol),
    }
}

/// Reads a control-flow query from `{ span }`.
pub fn decode_query(value: &Json) -> (decoded: Result<Span, BridgeError>)
    ensures
        match query_of(value@) {
            Some(span) => decoded == Ok::<Span, BridgeError>(span),
            None => decoded matches Err(BridgeError::Protocol),
        },
{
    match value.field("span") {
        Some(span) => decode_span(span),
        None => Err(BridgeError::Protocol),
    }
}

/// Writes a tri-state: `true`, `false`, or `null` for unknown.
pub fn encode_tri_state(value: Option<bool>) -> (encoded: Json)
    ensures
        encoded@ == tri_state(value),
{
    match value {
        Some(b) => Json::Bool(b),
        None => Json::Null,
    }
}

/// Writes the answer to a control-flow query.
pub fn encode_answer(is_reachable: Option<bool>, stops_execution: Option<bool>) -> (encoded: Json)
    ensures
        encoded@ == answer_of(is_reachable, stops_execution),
{
    let mut members: Vec<Member> = Vec::new();
    members.push(
        Member { name: String::from_str("isReachable"), value: encode_tri_state(is_reachable) },
    );
    members.push(
        Member {
            name: String::from_str("stopsExecution"),
            value: encode_tri_state(stops_execution),
        },
    );
    let encoded = Json::Object(members);
    proof {
        lemma_object_view(encoded);
        assert(encoded@->Object_0 =~= answer_of(is_reachable, stops_execution)->Object_0);
    }
    encoded
}

/// Writes the empty object, the answer of an operation that has nothing to
/// say.
pub fn encode_nothing() -> (encoded: Json)
    ensures
        encoded@ == JsonView::Object(Seq::empty()),
{
    let encoded = Json::Object(Vec::new());
    proof {
        lemma_object_view(encoded);
        assert(encoded@->Object_0 =~= Seq::<(Seq<char>, JsonView)>::empty());
    }
    encoded
}

} // verus!
