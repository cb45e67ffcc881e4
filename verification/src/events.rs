//! Audit events: a name and the fields recorded with it.

use vstd::prelude::*;

use crate::text::{copy, copy_all};

verus! {

/// The value of an audit field.
#[derive(Debug, Clone, PartialEq, Eq)]
pub enum FieldValue {
    Text(String),
    Int(i64),
    Count(u64),
    Flag(bool),
    Texts(Vec<String>),
}

#[verifier::ext_equal]
pub ghost enum FieldValueView {
    Text(Seq<char>),
    Int(i64),
    Count(u64),
    Flag(bool),
    Texts(Seq<Seq<char>>),
}

impl DeepView for FieldValue {
    type V = FieldValueView;

    open spec fn deep_view(&self) -> FieldValueView {
        match self {
            FieldValue::Text(s) => FieldValueView::Text(s@),
            FieldValue::Int(n) => FieldValueView::Int(*n),
            FieldValue::Count(n) => FieldValueView::Count(*n),
            FieldValue::Flag(b) => FieldValueView::Flag(*b),
            FieldValue::Texts(v) => FieldValueView::Texts(v.deep_view()),
        }
    }
}

/// An audit event before it is stamped with the time. A field without a value is
/// not among its fields.
#[derive(Debug, Clone, PartialEq, Eq)]
pub struct AuditEvent {
    pub event: String,
    pub fields: Vec<(String, FieldValue)>,
}

#[verifier::ext_equal]
pub ghost struct AuditEventView {
    pub event: Seq<char>,
    pub fields: Seq<(Seq<char>, FieldValueView)>,
}

impl DeepView for AuditEvent {
    type V = AuditEventView;

    open spec fn deep_view(&self) -> AuditEventView {
        AuditEventView { event: self.event@, fields: self.fields.deep_view() }
    }
}

impl AuditEventView {
    /// The event with no field.
    pub open spec fn named(event: Seq<char>) -> AuditEventView {
        AuditEventView { event, fields: Seq::empty() }
    }

    pub open spec fn with(self, key: Seq<char>, value: FieldValueView) -> AuditEventView {
        AuditEventView { event: self.event, fields: self.fields.push((key, value)) }
    }

    pub open spec fn text(self, key: Seq<char>, value: Seq<char>) -> AuditEventView {
        self.with(key, FieldValueView::Text(value))
    }

    /// The event with a field for `value`, or as it is where there is none.
    pub open spec fn maybe_text(self, key: Seq<char>, value: Option<Seq<char>>) -> AuditEventView {
        match value {
            Some(v) => self.text(key, v),
            None => self,
        }
    }

    pub open spec fn maybe_int(self, key: Seq<char>, value: Option<i64>) -> AuditEventView {
        match value {
            Some(v) => self.with(key, FieldValueView::Int(v)),
            None => self,
        }
    }

    pub open spec fn maybe_count(self, key: Seq<char>, value: Option<u64>) -> AuditEventView {
        match value {
            Some(v) => self.with(key, FieldValueView::Count(v)),
            None => self,
        }
    }

    pub open spec fn number(self, key: Seq<char>, value: i64) -> AuditEventView {
        self.with(key, FieldValueView::Int(value))
    }

    pub open spec fn flag(self, key: Seq<char>, value: bool) -> AuditEventView {
        self.with(key, FieldValueView::Flag(value))
    }

    pub open spec fn texts(self, key: Seq<char>, value: Seq<Seq<char>>) -> AuditEventView {
        self.with(key, FieldValueView::Texts(value))
    }
}

impl AuditEvent {
    pub fn named(event: &str) -> (r: AuditEvent)
        ensures
            r.deep_view() == AuditEventView::named(event@),
    {
        let r: AuditEvent = AuditEvent { event: event.to_string(), fields: Vec::new() };
        assert(r.deep_view() =~= AuditEventView::named(event@));
        r
    }

    fn with(self, key: &str, value: FieldValue) -> (r: AuditEvent)
        ensures
            r.deep_view() == self.deep_view().with(key@, value.deep_view()),
    {
        let ghost before = self.deep_view();
        let ghost added = value.deep_view();
        let mut fields: Vec<(String, FieldValue)> = self.fields;
        fields.push((key.to_string(), value));
        let r: AuditEvent = AuditEvent { event: self.event, fields };
        assert(r.deep_view() =~= before.with(key@, added));
        r
    }

    pub fn text(self, key: &str, value: &str) -> (r: AuditEvent)
        ensures
            r.deep_view() == self.deep_view().text(key@, value@),
    {
        self.with(key, FieldValue::Text(value.to_string()))
    }

    pub fn maybe_text(self, key: &str, value: &Option<String>) -> (r: AuditEvent)
        ensures
            r.deep_view() == self.deep_view().maybe_text(key@, value.deep_view()),
    {
        match value {
            Some(v) => self.with(key, FieldValue::Text(copy(v))),
            None => self,
        }
    }

    pub fn maybe_int(self, key: &str, value: Option<i64>) -> (r: AuditEvent)
        ensures
            r.deep_view() == self.deep_view().maybe_int(key@, value),
    {
        match value {
            Some(v) => self.with(key, FieldValue::Int(v)),
            None => self,
        }
    }

    pub fn maybe_count(self, key: &str, value: Option<u64>) -> (r: AuditEvent)
        ensures
            r.deep_view() == self.deep_view().maybe_count(key@, value),
    {
        match value {
            Some(v) => self.with(key, FieldValue::Count(v)),
            None => self,
        }
    }

    pub fn number(self, key: &str, value: i64) -> (r: AuditEvent)
        ensures
            r.deep_view() == self.deep_view().number(key@, value),
    {
        self.with(key, FieldValue::Int(value))
    }

    pub fn flag(self, key: &str, value: bool) -> (r: AuditEvent)
        ensures
            r.deep_view() == self.deep_view().flag(key@, value),
    {
        self.with(key, FieldValue::Flag(value))
    }

    pub fn texts(self, key: &str, value: &Vec<String>) -> (r: AuditEvent)
        ensures
            r.deep_view() == self.deep_view().texts(key@, value.deep_view()),
    {
        self.with(key, FieldValue::Texts(copy_all(value)))
    }
}

} // verus!
