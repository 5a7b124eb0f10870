//! Declarative schema definitions: the statically known shape of the events
//! a decoder produces, registered once at pipeline-construction time so that
//! downstream stages can validate field shapes without re-inspecting raw
//! bytes.

use crate::config::LogNamespace;
use crate::event::{ContentsView, ValueView, lookup_contents};
use vstd::prelude::*;

verus! {

/// The base type a schema declares for a value. Decoders in this layer
/// produce opaque byte strings only, so that is the one kind they declare.
#[derive(Debug, Clone, Copy, PartialEq, Eq)]
pub enum Kind {
    Bytes,
}

/// The kind of a decoded value.
pub open spec fn kind_of(v: ValueView) -> Kind {
    match v {
        ValueView::Bytes(_) => Kind::Bytes,
    }
}

/// One declared top-level event field: its key, its base type, and the
/// semantic meaning attached to it, if any.
#[derive(Debug, Clone, PartialEq, Eq)]
pub struct FieldSchema {
    pub key: String,
    pub kind: Kind,
    pub meaning: Option<String>,
}

/// The mathematical value of a `FieldSchema`.
#[verifier::ext_equal]
pub struct FieldSchemaView {
    pub key: Seq<char>,
    pub kind: Kind,
    pub meaning: Option<Seq<char>>,
}

impl View for FieldSchema {
    type V = FieldSchemaView;

    open spec fn view(&self) -> FieldSchemaView {
        FieldSchemaView { key: self.key@, kind: self.kind, meaning: self.meaning.deep_view() }
    }
}

/// A declarative description of the shape of the events a decoder produces
/// under one namespace: either a declared root value (the modern layout) or
/// a table of declared fields (the legacy layout), with semantic meanings.
#[derive(Debug, Clone, PartialEq, Eq)]
pub struct Definition {
    /// The namespace this definition is expressed for.
    pub log_namespace: LogNamespace,
    /// The declared type of the event root; nothing when the root is the
    /// field table rather than a bare value.
    pub root_kind: Option<Kind>,
    /// The semantic meaning attached to the event root, if any.
    pub root_meaning: Option<String>,
    /// The declared top-level fields.
    pub fields: Vec<FieldSchema>,
}

/// The mathematical value of a `Definition`.
#[verifier::ext_equal]
pub struct DefinitionView {
    pub log_namespace: LogNamespace,
    pub root_kind: Option<Kind>,
    pub root_meaning: Option<Seq<char>>,
    pub fields: Seq<FieldSchemaView>,
}

impl View for Definition {
    type V = DefinitionView;

    open spec fn view(&self) -> DefinitionView {
        DefinitionView {
            log_namespace: self.log_namespace,
            root_kind: self.root_kind,
            root_meaning: self.root_meaning.deep_view(),
            fields: self.fields@.map_values(|f: FieldSchema| f@),
        }
    }
}

impl Definition {
    /// The empty definition of the legacy namespace: no root value and no
    /// fields declared yet.
    pub fn empty_legacy_namespace() -> (d: Definition)
        ensures
            d@ == (DefinitionView {
                log_namespace: LogNamespace::Legacy,
                root_kind: None,
                root_meaning: None,
                fields: Seq::<FieldSchemaView>::empty(),
            }),
    {
        let d = Definition {
            log_namespace: LogNamespace::Legacy,
            root_kind: None,
            root_meaning: None,
            fields: Vec::new(),
        };
        proof {
            assert(d@ =~= (DefinitionView {
                log_namespace: LogNamespace::Legacy,
                root_kind: None,
                root_meaning: None,
                fields: Seq::<FieldSchemaView>::empty(),
            }));
        }
        d
    }

    /// A definition declaring the event root itself, typed as `kind`, with
    /// the default metadata of the given namespace and no named fields.
    pub fn new_with_default_metadata(kind: Kind, log_namespace: LogNamespace) -> (d: Definition)
        ensures
            d@ == (DefinitionView {
                log_namespace,
                root_kind: Some(kind),
                root_meaning: None,
                fields: Seq::<FieldSchemaView>::empty(),
            }),
    {
        let d = Definition { log_namespace, root_kind: Some(kind), root_meaning: None, fields: Vec::new() };
        proof {
            assert(d@ =~= (DefinitionView {
                log_namespace,
                root_kind: Some(kind),
                root_meaning: None,
                fields: Seq::<FieldSchemaView>::empty(),
            }));
        }
        d
    }

    /// This definition with one more declared event field, of the given key,
    /// base type and semantic meaning.
    pub fn with_event_field(self, key: String, kind: Kind, meaning: Option<String>) -> (d: Definition)
        ensures
            d@ == (DefinitionView {
                fields: self@.fields.push(
                    (FieldSchemaView { key: key@, kind, meaning: meaning.deep_view() }),
                ),
                ..self@
            }),
    {
        let ghost input: DefinitionView = self@;
        let ghost new_field: FieldSchemaView = FieldSchemaView {
            key: key@,
            kind,
            meaning: meaning.deep_view(),
        };
        let Definition { log_namespace, root_kind, root_meaning, mut fields } = self;
        let ghost orig: Seq<FieldSchemaView> = fields@.map_values(|f: FieldSchema| f@);
        fields.push(FieldSchema { key, kind, meaning });
        let d = Definition { log_namespace, root_kind, root_meaning, fields };
        proof {
            assert(fields@.map_values(|f: FieldSchema| f@) =~= orig.push(new_field));
            assert(d@ =~= (DefinitionView { fields: input.fields.push(new_field), ..input }));
        }
        d
    }

    /// This definition with the given semantic meaning attached to the
    /// event root.
    pub fn with_meaning(self, meaning: String) -> (d: Definition)
        ensures
            d@ == (DefinitionView { root_meaning: Some(meaning@), ..self@ }),
    {
        let ghost input: DefinitionView = self@;
        let Definition { log_namespace, root_kind, root_meaning: _, fields } = self;
        let d = Definition { log_namespace, root_kind, root_meaning: Some(meaning), fields };
        proof {
            assert(d@ =~= (DefinitionView { root_meaning: Some(meaning@), ..input }));
        }
        d
    }
}

/// Whether an event with the given contents has the shape this definition
/// declares: a declared root kind matches a bare root value of that kind,
/// and otherwise the event carries a field table holding every declared
/// field, under its declared key and with its declared base type.
pub open spec fn contents_match_definition(def: DefinitionView, contents: ContentsView) -> bool {
    match def.root_kind {
        Some(k) => contents matches ContentsView::Root(v) && kind_of(v) == k,
        None => contents matches ContentsView::Fields(_) && (forall|j: int|
            0 <= j < def.fields.len() ==> ((#[trigger] lookup_contents(
                contents,
                def.fields[j].key,
            )) matches Some(v) && kind_of(v) == def.fields[j].kind)),
    }
}

} // verus!
