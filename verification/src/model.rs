//! The entity model: the closed set of entity kinds and, for each, its
//! storage name and its ordered list of typed fields. The statement builder
//! and the row decoder both work from this table.

use vstd::prelude::*;
use vstd::string::*;
use crate::value::{default_value, has_type, FieldType, Value};

verus! {

/// The kinds of entity that the backend stores, one table each.
#[derive(Clone, Copy, Debug, PartialEq, Eq)]
pub enum EntityKind {
    User,
    Subspace,
    Post,
    Comment,
    Tag,
    PostTag,
    PostDiff,
    Moderator,
    Extobj,
}

/// The standing of a user, a subspace, a post or a comment, kept in its
/// `status` field. A new entity is `Normal`; deleting an entity removes its
/// row and never sets `Deleted`.
#[derive(Clone, Copy, Debug, PartialEq, Eq)]
pub enum EntityStatus {
    Normal,
    Frozen,
    Forbidden,
    Deleted,
}

/// How much an entity counts in a listing, kept in its `weight` field. A
/// new entity is `Normal`.
#[derive(Clone, Copy, Debug, PartialEq, Eq)]
pub enum EntityWeight {
    SuperLow,
    VeryLow,
    Low,
    Normal,
    High,
    VeryHigh,
    SuperHigh,
}

/// The role of a user, kept in its `role` field. A new user is `Normal`.
#[derive(Clone, Copy, Debug, PartialEq, Eq)]
pub enum UserRole {
    Normal,
}

impl EntityStatus {
    /// The number that stands for the status in the storage.
    pub open spec fn spec_code(self) -> int {
        match self {
            EntityStatus::Normal => 0,
            EntityStatus::Frozen => 1,
            EntityStatus::Forbidden => 2,
            EntityStatus::Deleted => 3,
        }
    }

    /// The number that stands for the status in the storage.
    pub fn code(&self) -> (c: i16)
        ensures
            c == self.spec_code(),
    {
        match self {
            EntityStatus::Normal => 0,
            EntityStatus::Frozen => 1,
            EntityStatus::Forbidden => 2,
            EntityStatus::Deleted => 3,
        }
    }

    /// The status that a stored number stands for, if it stands for one.
    pub fn from_code(c: i16) -> (r: Option<EntityStatus>)
        ensures
            match r {
                Some(s) => s.spec_code() == c,
                None => forall|s: EntityStatus| s.spec_code() != c,
            },
    {
        if c == 0 {
            Some(EntityStatus::Normal)
        } else if c == 1 {
            Some(EntityStatus::Frozen)
        } else if c == 2 {
            Some(EntityStatus::Forbidden)
        } else if c == 3 {
            Some(EntityStatus::Deleted)
        } else {
            None
        }
    }
}

impl EntityWeight {
    /// The number that stands for the weight in the storage.
    pub open spec fn spec_code(self) -> int {
        match self {
            EntityWeight::SuperLow => -3,
            EntityWeight::VeryLow => -2,
            EntityWeight::Low => -1,
            EntityWeight::Normal => 0,
            EntityWeight::High => 1,
            EntityWeight::VeryHigh => 2,
            EntityWeight::SuperHigh => 3,
        }
    }

    /// The number that stands for the weight in the storage.
    pub fn code(&self) -> (c: i16)
        ensures
            c == self.spec_code(),
    {
        match self {
            EntityWeight::SuperLow => -3,
            EntityWeight::VeryLow => -2,
            EntityWeight::Low => -1,
            EntityWeight::Normal => 0,
            EntityWeight::High => 1,
            EntityWeight::VeryHigh => 2,
            EntityWeight::SuperHigh => 3,
        }
    }

    /// The weight that a stored number stands for, if it stands for one.
    pub fn from_code(c: i16) -> (r: Option<EntityWeight>)
        ensures
            match r {
                Some(w) => w.spec_code() == c,
                None => forall|w: EntityWeight| w.spec_code() != c,
            },
    {
        if c == -3 {
            Some(EntityWeight::SuperLow)
        } else if c == -2 {
            Some(EntityWeight::VeryLow)
        } else if c == -1 {
            Some(EntityWeight::Low)
        } else if c == 0 {
            Some(EntityWeight::Normal)
        } else if c == 1 {
            Some(EntityWeight::High)
        } else if c == 2 {
            Some(EntityWeight::VeryHigh)
        } else if c == 3 {
            Some(EntityWeight::SuperHigh)
        } else {
            None
        }
    }
}

impl UserRole {
    /// The number that stands for the role in the storage.
    pub open spec fn spec_code(self) -> int {
        0
    }

    /// The number that stands for the role in the storage.
    pub fn code(&self) -> (c: i16)
        ensures
            c == self.spec_code(),
    {
        0
    }

    /// The role that a stored number stands for, if it stands for one.
    pub fn from_code(c: i16) -> (r: Option<UserRole>)
        ensures
            match r {
                Some(s) => s.spec_code() == c,
                None => forall|s: UserRole| s.spec_code() != c,
            },
    {
        if c == 0 {
            Some(UserRole::Normal)
        } else {
            None
        }
    }
}

/// The default of a numeric field is the code of `Normal`: an entity whose
/// status, weight or role was never set is a normal one.
pub proof fn lemma_default_is_normal()
    ensures
        EntityStatus::Normal.spec_code() == 0,
        EntityWeight::Normal.spec_code() == 0,
        UserRole::Normal.spec_code() == 0,
        default_value(FieldType::Int16) == Value::Int16(0),
        default_value(FieldType::Int32) == Value::Int32(0),
{
}

/// One field of an entity: its column name and its declared type.
#[derive(Clone, Debug, PartialEq, Eq)]
pub struct Field {
    pub name: String,
    pub ty: FieldType,
}

impl DeepView for Field {
    type V = (Seq<char>, FieldType);

    open spec fn deep_view(&self) -> (Seq<char>, FieldType) {
        (self.name@, self.ty)
    }
}

/// The name of the table that holds the entities of a kind.
pub open spec fn spec_model_name(kind: EntityKind) -> Seq<char> {
    match kind {
        EntityKind::User => "gutpuser"@,
        EntityKind::Subspace => "gutpsubspace"@,
        EntityKind::Post => "gutppost"@,
        EntityKind::Comment => "gutpcomment"@,
        EntityKind::Tag => "gutptag"@,
        EntityKind::PostTag => "gutpposttag"@,
        EntityKind::PostDiff => "gutppostdiff"@,
        EntityKind::Moderator => "gutpmoderator"@,
        EntityKind::Extobj => "gutpextobj"@,
    }
}

/// The fields of a kind, in the one order that statements and rows follow.
/// The identity comes first.
pub open spec fn spec_fields(kind: EntityKind) -> Seq<(Seq<char>, FieldType)> {
    match kind {
        EntityKind::User => seq![
            ("id"@, FieldType::Text),
            ("account"@, FieldType::Text),
            ("oauth_source"@, FieldType::Text),
            ("nickname"@, FieldType::Text),
            ("avatar"@, FieldType::Text),
            ("role"@, FieldType::Int16),
            ("status"@, FieldType::Int16),
            ("created_time"@, FieldType::Int64),
        ],
        EntityKind::Subspace => seq![
            ("id"@, FieldType::Text),
            ("slug"@, FieldType::Text),
            ("title"@, FieldType::Text),
            ("description"@, FieldType::Text),
            ("banner"@, FieldType::Text),
            ("is_public"@, FieldType::Bool),
            ("status"@, FieldType::Int16),
            ("weight"@, FieldType::Int16),
            ("owner_id"@, FieldType::Text),
            ("category"@, FieldType::Text),
            ("app_id"@, FieldType::Text),
            ("created_time"@, FieldType::Int64),
        ],
        EntityKind::Post => seq![
            ("id"@, FieldType::Text),
            ("title"@, FieldType::Text),
            ("content"@, FieldType::Text),
            ("author_id"@, FieldType::Text),
            ("author_nickname"@, FieldType::Text),
            ("subspace_id"@, FieldType::Text),
            ("parent_post_id"@, FieldType::Text),
            ("ext_link"@, FieldType::Text),
            ("is_public"@, FieldType::Bool),
            ("status"@, FieldType::Int16),
            ("weight"@, FieldType::Int16),
            ("category"@, FieldType::Text),
            ("app_id"@, FieldType::Text),
            ("created_time"@, FieldType::Int64),
            ("updated_time"@, FieldType::Int64),
        ],
        EntityKind::Comment => seq![
            ("id"@, FieldType::Text),
            ("content"@, FieldType::Text),
            ("author_id"@, FieldType::Text),
            ("author_nickname"@, FieldType::Text),
            ("post_id"@, FieldType::Text),
            ("parent_comment_id"@, FieldType::Text),
            ("is_public"@, FieldType::Bool),
            ("status"@, FieldType::Int16),
            ("weight"@, FieldType::Int32),
            ("created_time"@, FieldType::Int64),
        ],
        EntityKind::Tag => seq![
            ("id"@, FieldType::Text),
            ("caption"@, FieldType::Text),
            ("subspace_id"@, FieldType::Text),
            ("creator_id"@, FieldType::Text),
            ("is_public"@, FieldType::Bool),
            ("weight"@, FieldType::Int16),
            ("created_time"@, FieldType::Int64),
        ],
        EntityKind::PostTag => seq![
            ("id"@, FieldType::Text),
            ("post_id"@, FieldType::Text),
            ("tag_id"@, FieldType::Text),
            ("created_time"@, FieldType::Int64),
        ],
        EntityKind::PostDiff => seq![
            ("id"@, FieldType::Text),
            ("post_id"@, FieldType::Text),
            ("diff"@, FieldType::Text),
            ("version_num"@, FieldType::Int32),
            ("created_time"@, FieldType::Int64),
        ],
        EntityKind::Moderator => seq![
            ("id"@, FieldType::Text),
            ("user_id"@, FieldType::Text),
            ("subspace_id"@, FieldType::Text),
            ("is_subspace_moderator"@, FieldType::Bool),
            ("tag_id"@, FieldType::Text),
            ("permission_level"@, FieldType::Int16),
            ("created_time"@, FieldType::Int64),
        ],
        EntityKind::Extobj => seq![
            ("id"@, FieldType::Text),
            ("caption"@, FieldType::Text),
            ("content"@, FieldType::Text),
            ("user_id"@, FieldType::Text),
            ("subspace_id"@, FieldType::Text),
            ("tag_id"@, FieldType::Text),
            ("post_id"@, FieldType::Text),
            ("comment_id"@, FieldType::Text),
            ("is_public"@, FieldType::Bool),
            ("weight"@, FieldType::Int16),
            ("created_time"@, FieldType::Int64),
        ],
    }
}

/// How many fields a kind has.
pub open spec fn spec_field_count(kind: EntityKind) -> nat {
    spec_fields(kind).len()
}

/// The column names of a kind, in field order.
pub open spec fn spec_field_names(kind: EntityKind) -> Seq<Seq<char>> {
    Seq::new(spec_fields(kind).len(), |i: int| spec_fields(kind)[i].0)
}

/// The field types of a kind, in field order.
pub open spec fn spec_field_types(kind: EntityKind) -> Seq<FieldType> {
    Seq::new(spec_fields(kind).len(), |i: int| spec_fields(kind)[i].1)
}

/// The position of the creation time among the fields of a kind.
pub open spec fn spec_created_index(kind: EntityKind) -> int {
    match kind {
        EntityKind::User => 7,
        EntityKind::Subspace => 11,
        EntityKind::Post => 13,
        EntityKind::Comment => 9,
        EntityKind::Tag => 6,
        EntityKind::PostTag => 3,
        EntityKind::PostDiff => 4,
        EntityKind::Moderator => 6,
        EntityKind::Extobj => 10,
    }
}

/// Whether a list of values is a full record of a kind: one value for each
/// field, each of the field's type.
pub open spec fn well_typed(kind: EntityKind, values: Seq<Value>) -> bool {
    &&& values.len() == spec_fields(kind).len()
    &&& forall|i: int|
        0 <= i < values.len() ==> has_type(#[trigger] values[i], spec_fields(kind)[i].1)
}

/// The record of a kind in which every field holds its default value.
pub open spec fn default_record(kind: EntityKind) -> Seq<Value> {
    Seq::new(spec_fields(kind).len(), |i: int| default_value(spec_fields(kind)[i].1))
}

/// No table name is empty.
pub proof fn lemma_model_name_not_empty(kind: EntityKind)
    ensures
        spec_model_name(kind).len() > 0,
{
    reveal_strlit("gutpuser");
    reveal_strlit("gutpsubspace");
    reveal_strlit("gutppost");
    reveal_strlit("gutpcomment");
    reveal_strlit("gutptag");
    reveal_strlit("gutpposttag");
    reveal_strlit("gutppostdiff");
    reveal_strlit("gutpmoderator");
    reveal_strlit("gutpextobj");
}

/// Every kind starts with a text identity named `id` and has a 64-bit
/// creation time named `created_time` at its own position, which is never
/// the first.
pub proof fn lemma_identity_and_creation(kind: EntityKind)
    ensures
        spec_fields(kind).len() >= 2,
        spec_fields(kind).len() <= 15,
        spec_fields(kind)[0] == ("id"@, FieldType::Text),
        0 < spec_created_index(kind) < spec_fields(kind).len(),
        spec_fields(kind)[spec_created_index(kind)] == ("created_time"@, FieldType::Int64),
{
}

fn push_field(fields: &mut Vec<Field>, name: &str, ty: FieldType)
    ensures
        final(fields).deep_view() == old(fields).deep_view().push((name@, ty)),
{
    fields.push(Field { name: String::from_str(name), ty });
    assert(fields.deep_view() =~= old(fields).deep_view().push((name@, ty)));
}

impl EntityKind {
    /// The name of the table that holds the entities of this kind.
    pub fn model_name(&self) -> (name: String)
        ensures
            name@ == spec_model_name(*self),
    {
        match self {
            EntityKind::User => String::from_str("gutpuser"),
            EntityKind::Subspace => String::from_str("gutpsubspace"),
            EntityKind::Post => String::from_str("gutppost"),
            EntityKind::Comment => String::from_str("gutpcomment"),
            EntityKind::Tag => String::from_str("gutptag"),
            EntityKind::PostTag => String::from_str("gutpposttag"),
            EntityKind::PostDiff => String::from_str("gutppostdiff"),
            EntityKind::Moderator => String::from_str("gutpmoderator"),
            EntityKind::Extobj => String::from_str("gutpextobj"),
        }
    }

    /// The position of the creation time among the fields.
    pub fn created_index(&self) -> (i: usize)
        ensures
            i == spec_created_index(*self),
    {
        match self {
            EntityKind::User => 7,
            EntityKind::Subspace => 11,
            EntityKind::Post => 13,
            EntityKind::Comment => 9,
            EntityKind::Tag => 6,
            EntityKind::PostTag => 3,
            EntityKind::PostDiff => 4,
            EntityKind::Moderator => 6,
            EntityKind::Extobj => 10,
        }
    }

    /// The column names of this kind, in field order.
    pub fn field_names(&self) -> (names: Vec<String>)
        ensures
            names.deep_view() == spec_field_names(*self),
    {
        let fields = self.fields();
        let mut names: Vec<String> = Vec::new();
        let mut i: usize = 0;
        while i < fields.len()
            invariant
                i <= fields.len(),
                fields.deep_view() == spec_fields(*self),
                names.len() == i,
                forall|j: int| 0 <= j < i ==> names[j]@ == spec_fields(*self)[j].0,
            decreases fields.len() - i,
        {
            assert(fields.deep_view()[i as int] == (fields[i as int].name@, fields[i as int].ty));
            names.push(fields[i].name.clone());
            i = i + 1;
        }
        assert(fields.deep_view().len() == fields.len());
        assert(names.deep_view() =~= spec_field_names(*self));
        names
    }

    /// The field types of this kind, in field order.
    pub fn field_types(&self) -> (types: Vec<FieldType>)
        ensures
            types@ == spec_field_types(*self),
    {
        let fields = self.fields();
        let mut types: Vec<FieldType> = Vec::new();
        let mut i: usize = 0;
        while i < fields.len()
            invariant
                i <= fields.len(),
                fields.deep_view() == spec_fields(*self),
                types.len() == i,
                forall|j: int| 0 <= j < i ==> types[j] == spec_fields(*self)[j].1,
            decreases fields.len() - i,
        {
            assert(fields.deep_view()[i as int] == (fields[i as int].name@, fields[i as int].ty));
            types.push(fields[i].ty);
            i = i + 1;
        }
        assert(fields.deep_view().len() == fields.len());
        assert(types@ =~= spec_field_types(*self));
        types
    }

    /// The fields of this kind, in order.
    pub fn fields(&self) -> (fields: Vec<Field>)
        ensures
            fields.deep_view() == spec_fields(*self),
    {
        let mut f: Vec<Field> = Vec::new();
        assert(f.deep_view() =~= Seq::empty());
        match self {
            EntityKind::User => {
                push_field(&mut f, "id", FieldType::Text);
                push_field(&mut f, "account", FieldType::Text);
                push_field(&mut f, "oauth_source", FieldType::Text);
                push_field(&mut f, "nickname", FieldType::Text);
                push_field(&mut f, "avatar", FieldType::Text);
                push_field(&mut f, "role", FieldType::Int16);
                push_field(&mut f, "status", FieldType::Int16);
                push_field(&mut f, "created_time", FieldType::Int64);
            },
            EntityKind::Subspace => {
                push_field(&mut f, "id", FieldType::Text);
                push_field(&mut f, "slug", FieldType::Text);
                push_field(&mut f, "title", FieldType::Text);
                push_field(&mut f, "description", FieldType::Text);
                push_field(&mut f, "banner", FieldType::Text);
                push_field(&mut f, "is_public", FieldType::Bool);
                push_field(&mut f, "status", FieldType::Int16);
                push_field(&mut f, "weight", FieldType::Int16);
                push_field(&mut f, "owner_id", FieldType::Text);
                push_field(&mut f, "category", FieldType::Text);
                push_field(&mut f, "app_id", FieldType::Text);
                push_field(&mut f, "created_time", FieldType::Int64);
            },
            EntityKind::Post => {
                push_field(&mut f, "id", FieldType::Text);
                push_field(&mut f, "title", FieldType::Text);
                push_field(&mut f, "content", FieldType::Text);
                push_field(&mut f, "author_id", FieldType::Text);
                push_field(&mut f, "author_nickname", FieldType::Text);
                push_field(&mut f, "subspace_id", FieldType::Text);
                push_field(&mut f, "parent_post_id", FieldType::Text);
                push_field(&mut f, "ext_link", FieldType::Text);
                push_field(&mut f, "is_public", FieldType::Bool);
                push_field(&mut f, "status", FieldType::Int16);
                push_field(&mut f, "weight", FieldType::Int16);
                push_field(&mut f, "category", FieldType::Text);
                push_field(&mut f, "app_id", FieldType::Text);
                push_field(&mut f, "created_time", FieldType::Int64);
                push_field(&mut f, "updated_time", FieldType::Int64);
            },
            EntityKind::Comment => {
                push_field(&mut f, "id", FieldType::Text);
                push_field(&mut f, "content", FieldType::Text);
                push_field(&mut f, "author_id", FieldType::Text);
                push_field(&mut f, "author_nickname", FieldType::Text);
                push_field(&mut f, "post_id", FieldType::Text);
                push_field(&mut f, "parent_comment_id", FieldType::Text);
                push_field(&mut f, "is_public", FieldType::Bool);
                push_field(&mut f, "status", FieldType::Int16);
                push_field(&mut f, "weight", FieldType::Int32);
                push_field(&mut f, "created_time", FieldType::Int64);
            },
            EntityKind::Tag => {
                push_field(&mut f, "id", FieldType::Text);
                push_field(&mut f, "caption", FieldType::Text);
                push_field(&mut f, "subspace_id", FieldType::Text);
                push_field(&mut f, "creator_id", FieldType::Text);
                push_field(&mut f, "is_public", FieldType::Bool);
                push_field(&mut f, "weight", FieldType::Int16);
                push_field(&mut f, "created_time", FieldType::Int64);
            },
            EntityKind::PostTag => {
                push_field(&mut f, "id", FieldType::Text);
                push_field(&mut f, "post_id", FieldType::Text);
                push_field(&mut f, "tag_id", FieldType::Text);
                push_field(&mut f, "created_time", FieldType::Int64);
            },
            EntityKind::PostDiff => {
                push_field(&mut f, "id", FieldType::Text);
                push_field(&mut f, "post_id", FieldType::Text);
                push_field(&mut f, "diff", FieldType::Text);
                push_field(&mut f, "version_num", FieldType::Int32);
                push_field(&mut f, "created_time", FieldType::Int64);
            },
            EntityKind::Moderator => {
                push_field(&mut f, "id", FieldType::Text);
                push_field(&mut f, "user_id", FieldType::Text);
                push_field(&mut f, "subspace_id", FieldType::Text);
                push_field(&mut f, "is_subspace_moderator", FieldType::Bool);
                push_field(&mut f, "tag_id", FieldType::Text);
                push_field(&mut f, "permission_level", FieldType::Int16);
                push_field(&mut f, "created_time", FieldType::Int64);
            },
            EntityKind::Extobj => {
                push_field(&mut f, "id", FieldType::Text);
                push_field(&mut f, "caption", FieldType::Text);
                push_field(&mut f, "content", FieldType::Text);
                push_field(&mut f, "user_id", FieldType::Text);
                push_field(&mut f, "subspace_id", FieldType::Text);
                push_field(&mut f, "tag_id", FieldType::Text);
                push_field(&mut f, "post_id", FieldType::Text);
                push_field(&mut f, "comment_id", FieldType::Text);
                push_field(&mut f, "is_public", FieldType::Bool);
                push_field(&mut f, "weight", FieldType::Int16);
                push_field(&mut f, "created_time", FieldType::Int64);
            },
        }
        f
    }
}

} // verus!
