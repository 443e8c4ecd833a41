use vstd::prelude::*;

use crate::post::{DocId, Field, Post, PostKind};

verus! {

/// Shards of the index.
pub const SHARDS: u32 = 3;

/// Replicas of each shard.
pub const REPLICAS: u32 = 0;

/// Shortest prefix the edge n-gram tokenizer emits.
pub const MIN_GRAM: u32 = 2;

/// Longest prefix the edge n-gram tokenizer emits.
pub const MAX_GRAM: u32 = 10;

/// How a text field is analysed.
#[derive(Clone, Copy, Debug, PartialEq, Eq, Structural)]
pub enum Analyzer {
    /// The whole value is one token.
    Keyword,
    /// Lower-cased prefixes of each run of letters and digits, for search as you type.
    EdgeNgram,
}

/// One mapped field of the index.
#[derive(Clone, Copy, Debug, PartialEq, Eq, Structural)]
pub struct Property {
    pub field: Field,
    pub analyzer: Analyzer,
}

/// The schema an index is created with: mapped fields, routing, shards and
/// the edge n-gram analysis chain.
#[derive(Clone, Debug, PartialEq, Eq)]
pub struct IndexSchema {
    pub properties: Vec<Property>,
    pub routing_required: bool,
    pub shards: u32,
    pub replicas: u32,
    pub min_gram: u32,
    pub max_gram: u32,
}

pub open spec fn schema_properties() -> Seq<Property> {
    seq![
        Property { field: Field::Id, analyzer: Analyzer::Keyword },
        Property { field: Field::Name, analyzer: Analyzer::EdgeNgram },
        Property { field: Field::Description, analyzer: Analyzer::EdgeNgram },
        Property { field: Field::Nickname, analyzer: Analyzer::EdgeNgram },
        Property { field: Field::Lastname, analyzer: Analyzer::EdgeNgram },
        Property { field: Field::Picture, analyzer: Analyzer::Keyword },
    ]
}

impl IndexSchema {
    /// The schema every document kind shares.
    pub open spec fn is_standard(&self) -> bool {
        &&& self.properties@ == schema_properties()
        &&& self.routing_required
        &&& self.shards == SHARDS
        &&& self.replicas == REPLICAS
        &&& self.min_gram == MIN_GRAM
        &&& self.max_gram == MAX_GRAM
    }

    pub fn standard() -> (r: IndexSchema)
        ensures
            r.is_standard(),
    {
        let mut properties: Vec<Property> = Vec::new();
        properties.push(Property { field: Field::Id, analyzer: Analyzer::Keyword });
        properties.push(Property { field: Field::Name, analyzer: Analyzer::EdgeNgram });
        properties.push(Property { field: Field::Description, analyzer: Analyzer::EdgeNgram });
        properties.push(Property { field: Field::Nickname, analyzer: Analyzer::EdgeNgram });
        properties.push(Property { field: Field::Lastname, analyzer: Analyzer::EdgeNgram });
        properties.push(Property { field: Field::Picture, analyzer: Analyzer::Keyword });
        assert(properties@ =~= schema_properties());
        IndexSchema {
            properties,
            routing_required: true,
            shards: SHARDS,
            replicas: REPLICAS,
            min_gram: MIN_GRAM,
            max_gram: MAX_GRAM,
        }
    }
}

/// The fields a partial update rewrites, for each kind, in script order.
pub open spec fn mutable_fields(k: PostKind) -> Seq<Field> {
    match k {
        PostKind::Course => seq![Field::Name, Field::Description, Field::Picture],
        PostKind::Category => seq![Field::Name],
        PostKind::User => seq![Field::Name, Field::Nickname, Field::Lastname, Field::Picture],
    }
}

/// The fields free-text search looks at: those of one kind, or of all kinds.
pub open spec fn searchable_fields(k: Option<PostKind>) -> Seq<Field> {
    match k {
        Some(PostKind::Course) => seq![Field::Name, Field::Description],
        Some(PostKind::Category) => seq![Field::Name],
        Some(PostKind::User) => seq![Field::Name, Field::Lastname, Field::Nickname],
        None => seq![Field::Name, Field::Lastname, Field::Nickname, Field::Description],
    }
}

/// The script statement that copies parameter `f` into the stored field `f`.
pub open spec fn assignment_text(f: Field) -> Seq<char> {
    "ctx._source."@ + f.spec_name() + " = params."@ + f.spec_name()
}

/// The update script for `fs`: one assignment per field, separated by "; ".
pub open spec fn script_text(fs: Seq<Field>) -> Seq<char>
    decreases fs.len(),
{
    if fs.len() == 0 {
        Seq::empty()
    } else if fs.len() == 1 {
        assignment_text(fs[0])
    } else {
        script_text(fs.drop_last()) + "; "@ + assignment_text(fs.last())
    }
}

/// A parameter of an update script: the new value of one field.
#[derive(Clone, Debug, PartialEq, Eq)]
pub struct Assignment {
    pub field: Field,
    pub value: String,
}

/// A partial update: a script over named parameters, applied to the documents
/// whose `id` field matches `match_id`.
#[derive(Clone, Debug, PartialEq, Eq)]
pub struct UpdateSpec {
    pub match_id: String,
    pub script: String,
    pub params: Vec<Assignment>,
}

/// A delete of the documents whose `id` field matches `match_id`.
#[derive(Clone, Debug, PartialEq, Eq)]
pub struct DeleteSpec {
    pub match_id: String,
}

fn script_for(fields: &Vec<Field>) -> (r: String)
    ensures
        r@ == script_text(fields@),
{
    let mut s = String::new();
    let mut i: usize = 0;
    while i < fields.len()
        invariant
            i <= fields@.len(),
            s@ == script_text(fields@.subrange(0, i as int)),
        decreases fields@.len() - i,
    {
        let f = fields[i];
        if i > 0 {
            s.append("; ");
        }
        s.append("ctx._source.");
        s.append(f.name());
        s.append(" = params.");
        s.append(f.name());
        proof {
            let next = fields@.subrange(0, i + 1);
            assert(next.drop_last() =~= fields@.subrange(0, i as int));
            assert(next.last() == f);
        }
        i = i + 1;
    }
    assert(fields@.subrange(0, fields@.len() as int) =~= fields@);
    s
}

fn mutable_fields_of(k: PostKind) -> (r: Vec<Field>)
    ensures
        r@ == mutable_fields(k),
{
    let mut v: Vec<Field> = Vec::new();
    match k {
        PostKind::Course => {
            v.push(Field::Name);
            v.push(Field::Description);
            v.push(Field::Picture);
        },
        PostKind::Category => {
            v.push(Field::Name);
        },
        PostKind::User => {
            v.push(Field::Name);
            v.push(Field::Nickname);
            v.push(Field::Lastname);
            v.push(Field::Picture);
        },
    }
    assert(v@ =~= mutable_fields(k));
    v
}

/// The fields free-text search over `k` looks at.
pub fn searchable_fields_of(k: Option<PostKind>) -> (r: Vec<Field>)
    ensures
        r@ == searchable_fields(k),
{
    let mut v: Vec<Field> = Vec::new();
    match k {
        Some(PostKind::Course) => {
            v.push(Field::Name);
            v.push(Field::Description);
        },
        Some(PostKind::Category) => {
            v.push(Field::Name);
        },
        Some(PostKind::User) => {
            v.push(Field::Name);
            v.push(Field::Lastname);
            v.push(Field::Nickname);
        },
        None => {
            v.push(Field::Name);
            v.push(Field::Lastname);
            v.push(Field::Nickname);
            v.push(Field::Description);
        },
    }
    assert(v@ =~= searchable_fields(k));
    v
}

/// How the terms of a free-text query must be met.
#[derive(Clone, Debug, PartialEq, Eq)]
pub enum Matching {
    /// Every document.
    All,
    /// Every term of `text` in some field of `fields` ("cross fields", all terms required).
    CrossFields { text: String, fields: Vec<Field> },
}

/// Highlighted fragments over `fields`, each match wrapped in `pre_tag` and `post_tag`.
#[derive(Clone, Debug, PartialEq, Eq)]
pub struct Highlight {
    pub fields: Vec<Field>,
    pub pre_tag: String,
    pub post_tag: String,
}

/// A search request.
#[derive(Clone, Debug, PartialEq, Eq)]
pub struct QuerySpec {
    pub matching: Matching,
    pub highlight: Option<Highlight>,
}

/// What a search for `text` over the documents of kind `k` (or of every kind) asks:
/// everything for an empty text; else all terms across the kind's searchable
/// fields, with those fields highlighted in `<b>` and `</b>`.
pub open spec fn is_query_for(q: QuerySpec, k: Option<PostKind>, text: Seq<char>) -> bool {
    if text.len() == 0 {
        q.matching == Matching::All && q.highlight is None
    } else {
        &&& q.matching matches Matching::CrossFields { text: t, fields: fs }
        &&& t@ == text
        &&& fs@ == searchable_fields(k)
        &&& q.highlight matches Some(h)
        &&& h.fields@ == searchable_fields(k)
        &&& h.pre_tag@ == "<b>"@
        &&& h.post_tag@ == "</b>"@
    }
}

/// Builds the search request for `text` over the documents of kind `k`, or of every kind.
pub fn build_query(k: Option<PostKind>, text: &str) -> (r: QuerySpec)
    ensures
        is_query_for(r, k, text@),
{
    if text.is_empty() {
        QuerySpec { matching: Matching::All, highlight: None }
    } else {
        let fields = searchable_fields_of(k);
        let shown = searchable_fields_of(k);
        QuerySpec {
            matching: Matching::CrossFields { text: text.to_owned(), fields },
            highlight: Some(
                Highlight {
                    fields: shown,
                    pre_tag: String::from_str("<b>"),
                    post_tag: String::from_str("</b>"),
                },
            ),
        }
    }
}

/// The delete request for the documents with identifier `id`.
pub fn delete_spec(id: DocId) -> (r: DeleteSpec)
    ensures
        r.match_id@ == id.text(),
{
    DeleteSpec { match_id: id.to_text() }
}

impl Post {
    /// The partial update of the stored document with this one's id: the
    /// kind's mutable fields, set to this document's values.
    pub open spec fn is_update_of(&self, u: UpdateSpec) -> bool {
        let fs = mutable_fields(self.spec_kind());
        &&& u.match_id@ == self.spec_id().text()
        &&& u.script@ == script_text(fs)
        &&& u.params@.len() == fs.len()
        &&& forall|i: int|
            0 <= i < fs.len() ==> (#[trigger] u.params@[i]).field == fs[i] && u.params@[i].value@
                == self.field_value(fs[i])
    }

    pub fn update_by_query(&self) -> (r: UpdateSpec)
        ensures
            self.is_update_of(r),
    {
        let fields = mutable_fields_of(self.kind());
        let script = script_for(&fields);
        let mut params: Vec<Assignment> = Vec::new();
        let mut i: usize = 0;
        while i < fields.len()
            invariant
                i <= fields@.len(),
                fields@ == mutable_fields(self.spec_kind()),
                params@.len() == i,
                forall|j: int|
                    0 <= j < i ==> (#[trigger] params@[j]).field == fields@[j] && params@[j].value@
                        == self.field_value(fields@[j]),
            decreases fields@.len() - i,
        {
            let f = fields[i];
            params.push(Assignment { field: f, value: self.value_of(f) });
            i = i + 1;
        }
        UpdateSpec { match_id: self.id().to_text(), script, params }
    }

    /// The schema of the index that holds documents of this kind; all kinds share it.
    pub fn base_index(&self) -> (r: IndexSchema)
        ensures
            r.is_standard(),
    {
        IndexSchema::standard()
    }

    /// The search request for `q` over the documents of this one's kind.
    pub fn query(&self, q: &str) -> (r: QuerySpec)
        ensures
            is_query_for(r, Some(self.spec_kind()), q@),
    {
        build_query(Some(self.kind()), q)
    }
}

} // verus!
