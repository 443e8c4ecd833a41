use vstd::prelude::*;

verus! {

/// The text `uuid` renders for a 128-bit identifier (hyphenated, lower-case hex).
pub uninterp spec fn uuid_text(v: u128) -> Seq<char>;

/// Relies on `uuid::Uuid::from_u128` and `Uuid`'s `Display`, which writes the
/// hyphenated form: 36 characters, a function of the value alone.
#[verifier::external_body]
fn uuid_string(v: u128) -> (r: String)
    ensures
        r@ == uuid_text(v),
        r@.len() == 36,
{
    uuid::Uuid::from_u128(v).to_string()
}

/// The identifier of a document: a UUID held as its 128-bit value. It is both
/// the document's key and its routing key in the index.
#[derive(Clone, Copy, Debug, PartialEq, Eq, Structural)]
pub struct DocId {
    pub value: u128,
}

impl DocId {
    /// The text under which the engine stores and routes the document.
    pub open spec fn text(self) -> Seq<char> {
        uuid_text(self.value)
    }

    pub fn to_text(&self) -> (r: String)
        ensures
            r@ == self.text(),
    {
        uuid_string(self.value)
    }
}

/// A field of the indexed documents.
#[derive(Clone, Copy, Debug, PartialEq, Eq, Structural)]
pub enum Field {
    Id,
    Name,
    Description,
    Lastname,
    Nickname,
    Picture,
}

impl Field {
    pub open spec fn spec_name(self) -> Seq<char> {
        match self {
            Field::Id => "id"@,
            Field::Name => "name"@,
            Field::Description => "description"@,
            Field::Lastname => "lastname"@,
            Field::Nickname => "nickname"@,
            Field::Picture => "picture"@,
        }
    }

    /// The field's name in the stored documents.
    pub fn name(&self) -> (r: &'static str)
        ensures
            r@ == self.spec_name(),
    {
        match self {
            Field::Id => "id",
            Field::Name => "name",
            Field::Description => "description",
            Field::Lastname => "lastname",
            Field::Nickname => "nickname",
            Field::Picture => "picture",
        }
    }
}

#[derive(Clone, Debug, PartialEq, Eq)]
pub struct Course {
    pub id: DocId,
    pub name: String,
    pub description: String,
    pub picture: String,
}

#[derive(Clone, Debug, PartialEq, Eq)]
pub struct Category {
    pub id: DocId,
    pub name: String,
}

#[derive(Clone, Debug, PartialEq, Eq)]
pub struct User {
    pub id: DocId,
    pub name: String,
    pub lastname: String,
    pub nickname: String,
    pub picture: String,
}

/// A document of one of the three kinds the repository stores.
#[derive(Clone, Debug, PartialEq, Eq)]
pub enum Post {
    Course(Course),
    Category(Category),
    User(User),
}

/// The kind of a document, without its fields.
#[derive(Clone, Copy, Debug, PartialEq, Eq, Structural)]
pub enum PostKind {
    Course,
    Category,
    User,
}

impl Post {
    pub open spec fn spec_id(&self) -> DocId {
        match self {
            Post::Course(c) => c.id,
            Post::Category(c) => c.id,
            Post::User(u) => u.id,
        }
    }

    pub open spec fn spec_kind(&self) -> PostKind {
        match self {
            Post::Course(_) => PostKind::Course,
            Post::Category(_) => PostKind::Category,
            Post::User(_) => PostKind::User,
        }
    }

    /// What the document holds in `f`, for the fields its kind has.
    pub open spec fn field_value(&self, f: Field) -> Seq<char> {
        match self {
            Post::Course(c) => match f {
                Field::Name => c.name@,
                Field::Description => c.description@,
                Field::Picture => c.picture@,
                _ => Seq::empty(),
            },
            Post::Category(c) => match f {
                Field::Name => c.name@,
                _ => Seq::empty(),
            },
            Post::User(u) => match f {
                Field::Name => u.name@,
                Field::Lastname => u.lastname@,
                Field::Nickname => u.nickname@,
                Field::Picture => u.picture@,
                _ => Seq::empty(),
            },
        }
    }

    pub fn id(&self) -> (r: DocId)
        ensures
            r == self.spec_id(),
    {
        match self {
            Post::Course(c) => c.id,
            Post::Category(c) => c.id,
            Post::User(u) => u.id,
        }
    }

    pub fn kind(&self) -> (r: PostKind)
        ensures
            r == self.spec_kind(),
    {
        match self {
            Post::Course(_) => PostKind::Course,
            Post::Category(_) => PostKind::Category,
            Post::User(_) => PostKind::User,
        }
    }

    /// A copy of what the document holds in `f`.
    pub fn value_of(&self, f: Field) -> (r: String)
        ensures
            r@ == self.field_value(f),
    {
        match self {
            Post::Course(c) => match f {
                Field::Name => c.name.clone(),
                Field::Description => c.description.clone(),
                Field::Picture => c.picture.clone(),
                _ => String::new(),
            },
            Post::Category(c) => match f {
                Field::Name => c.name.clone(),
                _ => String::new(),
            },
            Post::User(u) => match f {
                Field::Name => u.name.clone(),
                Field::Lastname => u.lastname.clone(),
                Field::Nickname => u.nickname.clone(),
                Field::Picture => u.picture.clone(),
                _ => String::new(),
            },
        }
    }
}

impl From<Course> for Post {
    fn from(c: Course) -> (r: Post)
        ensures
            r == Post::Course(c),
    {
        Post::Course(c)
    }
}

impl vstd::std_specs::convert::FromSpecImpl<Course> for Post {
    open spec fn obeys_from_spec() -> bool {
        true
    }

    open spec fn from_spec(c: Course) -> Post {
        Post::Course(c)
    }
}

impl From<Category> for Post {
    fn from(c: Category) -> (r: Post)
        ensures
            r == Post::Category(c),
    {
        Post::Category(c)
    }
}

impl vstd::std_specs::convert::FromSpecImpl<Category> for Post {
    open spec fn obeys_from_spec() -> bool {
        true
    }

    open spec fn from_spec(c: Category) -> Post {
        Post::Category(c)
    }
}

impl From<User> for Post {
    fn from(u: User) -> (r: Post)
        ensures
            r == Post::User(u),
    {
        Post::User(u)
    }
}

impl vstd::std_specs::convert::FromSpecImpl<User> for Post {
    open spec fn obeys_from_spec() -> bool {
        true
    }

    open spec fn from_spec(u: User) -> Post {
        Post::User(u)
    }
}

} // verus!
