//! The typed entities, one struct per kind, and what ties each to the
//! entity model: its kind and its fields as an ordered list of values.

use vstd::prelude::*;
use crate::model::{default_record, well_typed, EntityKind};
use crate::value::{has_type, FieldType, SqlValue, Value};

verus! {

/// What every entity offers to the statement builder and the row decoder:
/// its kind, and the passage between the struct and the ordered list of its
/// field values.
pub trait EightFishModel: Sized {
    /// The kind of the entity.
    spec fn spec_kind() -> EntityKind;

    /// The field values of the entity, in the order of the model.
    spec fn spec_values(&self) -> Seq<Value>;

    /// The field values of an entity are a full record of its kind.
    proof fn lemma_well_typed(&self)
        ensures
            well_typed(Self::spec_kind(), self.spec_values()),
    ;

    /// The kind of the entity.
    fn kind() -> (k: EntityKind)
        ensures
            k == Self::spec_kind(),
    ;

    /// The field values of the entity, in the order of the model.
    fn values(&self) -> (v: Vec<SqlValue>)
        ensures
            v.deep_view() == self.spec_values(),
    ;

    /// The entity that holds the given field values.
    fn from_values(values: &Vec<SqlValue>) -> (e: Self)
        requires
            well_typed(Self::spec_kind(), values.deep_view()),
        ensures
            e.spec_values() == values.deep_view(),
    ;
}

fn text_at(values: &Vec<SqlValue>, i: usize) -> (r: String)
    requires
        i < values.len(),
        has_type(values.deep_view()[i as int], FieldType::Text),
    ensures
        values.deep_view()[i as int] == Value::Text(r@),
{
    match &values[i] {
        SqlValue::Text(s) => s.clone(),
        _ => String::new(),
    }
}

fn bool_at(values: &Vec<SqlValue>, i: usize) -> (r: bool)
    requires
        i < values.len(),
        has_type(values.deep_view()[i as int], FieldType::Bool),
    ensures
        values.deep_view()[i as int] == Value::Bool(r),
{
    match &values[i] {
        SqlValue::Bool(b) => *b,
        _ => false,
    }
}

fn int16_at(values: &Vec<SqlValue>, i: usize) -> (r: i16)
    requires
        i < values.len(),
        has_type(values.deep_view()[i as int], FieldType::Int16),
    ensures
        values.deep_view()[i as int] == Value::Int16(r),
{
    match &values[i] {
        SqlValue::Int16(n) => *n,
        _ => 0,
    }
}

fn int32_at(values: &Vec<SqlValue>, i: usize) -> (r: i32)
    requires
        i < values.len(),
        has_type(values.deep_view()[i as int], FieldType::Int32),
    ensures
        values.deep_view()[i as int] == Value::Int32(r),
{
    match &values[i] {
        SqlValue::Int32(n) => *n,
        _ => 0,
    }
}

fn int64_at(values: &Vec<SqlValue>, i: usize) -> (r: i64)
    requires
        i < values.len(),
        has_type(values.deep_view()[i as int], FieldType::Int64),
    ensures
        values.deep_view()[i as int] == Value::Int64(r),
{
    match &values[i] {
        SqlValue::Int64(n) => *n,
        _ => 0,
    }
}

fn push_value(values: &mut Vec<SqlValue>, v: SqlValue)
    ensures
        final(values).deep_view() == old(values).deep_view().push(v@),
{
    values.push(v);
    assert(values.deep_view() =~= old(values).deep_view().push(v@));
}

/// A registered user.
#[derive(Clone, Debug, PartialEq, Eq)]
pub struct GutpUser {
    pub id: String,
    pub account: String,
    pub oauth_source: String,
    pub nickname: String,
    pub avatar: String,
    pub role: i16,
    pub status: i16,
    pub created_time: i64,
}

impl Default for GutpUser {
    /// The entity in which every field holds its default value.
    fn default() -> (e: Self)
        ensures
            e.spec_values() == default_record(EntityKind::User),
    {
        let e = GutpUser {
            id: String::new(),
            account: String::new(),
            oauth_source: String::new(),
            nickname: String::new(),
            avatar: String::new(),
            role: 0,
            status: 0,
            created_time: 0,
        };
        assert(e.spec_values() =~= default_record(EntityKind::User));
        e
    }
}

impl EightFishModel for GutpUser {
    open spec fn spec_kind() -> EntityKind {
        EntityKind::User
    }

    open spec fn spec_values(&self) -> Seq<Value> {
        seq![
            Value::Text(self.id@),
            Value::Text(self.account@),
            Value::Text(self.oauth_source@),
            Value::Text(self.nickname@),
            Value::Text(self.avatar@),
            Value::Int16(self.role),
            Value::Int16(self.status),
            Value::Int64(self.created_time),
        ]
    }

    proof fn lemma_well_typed(&self) {
    }

    fn kind() -> (k: EntityKind) {
        EntityKind::User
    }

    fn values(&self) -> (v: Vec<SqlValue>) {
        let mut v: Vec<SqlValue> = Vec::new();
        assert(v.deep_view() =~= Seq::empty());
        push_value(&mut v, SqlValue::Text(self.id.clone()));
        push_value(&mut v, SqlValue::Text(self.account.clone()));
        push_value(&mut v, SqlValue::Text(self.oauth_source.clone()));
        push_value(&mut v, SqlValue::Text(self.nickname.clone()));
        push_value(&mut v, SqlValue::Text(self.avatar.clone()));
        push_value(&mut v, SqlValue::Int16(self.role));
        push_value(&mut v, SqlValue::Int16(self.status));
        push_value(&mut v, SqlValue::Int64(self.created_time));
        v
    }

    fn from_values(values: &Vec<SqlValue>) -> (e: Self) {
        assert(values.deep_view().len() == values.len());
        let e = GutpUser {
            id: text_at(values, 0),
            account: text_at(values, 1),
            oauth_source: text_at(values, 2),
            nickname: text_at(values, 3),
            avatar: text_at(values, 4),
            role: int16_at(values, 5),
            status: int16_at(values, 6),
            created_time: int64_at(values, 7),
        };
        assert(e.spec_values() =~= values.deep_view());
        e
    }
}

/// A subspace: one forum of the community.
#[derive(Clone, Debug, PartialEq, Eq)]
pub struct GutpSubspace {
    pub id: String,
    pub slug: String,
    pub title: String,
    pub description: String,
    pub banner: String,
    pub is_public: bool,
    pub status: i16,
    pub weight: i16,
    pub owner_id: String,
    pub category: String,
    pub app_id: String,
    pub created_time: i64,
}

impl Default for GutpSubspace {
    /// The entity in which every field holds its default value.
    fn default() -> (e: Self)
        ensures
            e.spec_values() == default_record(EntityKind::Subspace),
    {
        let e = GutpSubspace {
            id: String::new(),
            slug: String::new(),
            title: String::new(),
            description: String::new(),
            banner: String::new(),
            is_public: false,
            status: 0,
            weight: 0,
            owner_id: String::new(),
            category: String::new(),
            app_id: String::new(),
            created_time: 0,
        };
        assert(e.spec_values() =~= default_record(EntityKind::Subspace));
        e
    }
}

impl EightFishModel for GutpSubspace {
    open spec fn spec_kind() -> EntityKind {
        EntityKind::Subspace
    }

    open spec fn spec_values(&self) -> Seq<Value> {
        seq![
            Value::Text(self.id@),
            Value::Text(self.slug@),
            Value::Text(self.title@),
            Value::Text(self.description@),
            Value::Text(self.banner@),
            Value::Bool(self.is_public),
            Value::Int16(self.status),
            Value::Int16(self.weight),
            Value::Text(self.owner_id@),
            Value::Text(self.category@),
            Value::Text(self.app_id@),
            Value::Int64(self.created_time),
        ]
    }

    proof fn lemma_well_typed(&self) {
    }

    fn kind() -> (k: EntityKind) {
        EntityKind::Subspace
    }

    fn values(&self) -> (v: Vec<SqlValue>) {
        let mut v: Vec<SqlValue> = Vec::new();
        assert(v.deep_view() =~= Seq::empty());
        push_value(&mut v, SqlValue::Text(self.id.clone()));
        push_value(&mut v, SqlValue::Text(self.slug.clone()));
        push_value(&mut v, SqlValue::Text(self.title.clone()));
        push_value(&mut v, SqlValue::Text(self.description.clone()));
        push_value(&mut v, SqlValue::Text(self.banner.clone()));
        push_value(&mut v, SqlValue::Bool(self.is_public));
        push_value(&mut v, SqlValue::Int16(self.status));
        push_value(&mut v, SqlValue::Int16(self.weight));
        push_value(&mut v, SqlValue::Text(self.owner_id.clone()));
        push_value(&mut v, SqlValue::Text(self.category.clone()));
        push_value(&mut v, SqlValue::Text(self.app_id.clone()));
        push_value(&mut v, SqlValue::Int64(self.created_time));
        v
    }

    fn from_values(values: &Vec<SqlValue>) -> (e: Self) {
        assert(values.deep_view().len() == values.len());
        let e = GutpSubspace {
            id: text_at(values, 0),
            slug: text_at(values, 1),
            title: text_at(values, 2),
            description: text_at(values, 3),
            banner: text_at(values, 4),
            is_public: bool_at(values, 5),
            status: int16_at(values, 6),
            weight: int16_at(values, 7),
            owner_id: text_at(values, 8),
            category: text_at(values, 9),
            app_id: text_at(values, 10),
            created_time: int64_at(values, 11),
        };
        assert(e.spec_values() =~= values.deep_view());
        e
    }
}

/// A post in a subspace.
#[derive(Clone, Debug, PartialEq, Eq)]
pub struct GutpPost {
    pub id: String,
    pub title: String,
    pub content: String,
    pub author_id: String,
    pub author_nickname: String,
    pub subspace_id: String,
    pub parent_post_id: String,
    pub ext_link: String,
    pub is_public: bool,
    pub status: i16,
    pub weight: i16,
    pub category: String,
    pub app_id: String,
    pub created_time: i64,
    pub updated_time: i64,
}

impl Default for GutpPost {
    /// The entity in which every field holds its default value.
    fn default() -> (e: Self)
        ensures
            e.spec_values() == default_record(EntityKind::Post),
    {
        let e = GutpPost {
            id: String::new(),
            title: String::new(),
            content: String::new(),
            author_id: String::new(),
            author_nickname: String::new(),
            subspace_id: String::new(),
            parent_post_id: String::new(),
            ext_link: String::new(),
            is_public: false,
            status: 0,
            weight: 0,
            category: String::new(),
            app_id: String::new(),
            created_time: 0,
            updated_time: 0,
        };
        assert(e.spec_values() =~= default_record(EntityKind::Post));
        e
    }
}

impl EightFishModel for GutpPost {
    open spec fn spec_kind() -> EntityKind {
        EntityKind::Post
    }

    open spec fn spec_values(&self) -> Seq<Value> {
        seq![
            Value::Text(self.id@),
            Value::Text(self.title@),
            Value::Text(self.content@),
            Value::Text(self.author_id@),
            Value::Text(self.author_nickname@),
            Value::Text(self.subspace_id@),
            Value::Text(self.parent_post_id@),
            Value::Text(self.ext_link@),
            Value::Bool(self.is_public),
            Value::Int16(self.status),
            Value::Int16(self.weight),
            Value::Text(self.category@),
            Value::Text(self.app_id@),
            Value::Int64(self.created_time),
            Value::Int64(self.updated_time),
        ]
    }

    proof fn lemma_well_typed(&self) {
    }

    fn kind() -> (k: EntityKind) {
        EntityKind::Post
    }

    fn values(&self) -> (v: Vec<SqlValue>) {
        let mut v: Vec<SqlValue> = Vec::new();
        assert(v.deep_view() =~= Seq::empty());
        push_value(&mut v, SqlValue::Text(self.id.clone()));
        push_value(&mut v, SqlValue::Text(self.title.clone()));
        push_value(&mut v, SqlValue::Text(self.content.clone()));
        push_value(&mut v, SqlValue::Text(self.author_id.clone()));
        push_value(&mut v, SqlValue::Text(self.author_nickname.clone()));
        push_value(&mut v, SqlValue::Text(self.subspace_id.clone()));
        push_value(&mut v, SqlValue::Text(self.parent_post_id.clone()));
        push_value(&mut v, SqlValue::Text(self.ext_link.clone()));
        push_value(&mut v, SqlValue::Bool(self.is_public));
        push_value(&mut v, SqlValue::Int16(self.status));
        push_value(&mut v, SqlValue::Int16(self.weight));
        push_value(&mut v, SqlValue::Text(self.category.clone()));
        push_value(&mut v, SqlValue::Text(self.app_id.clone()));
        push_value(&mut v, SqlValue::Int64(self.created_time));
        push_value(&mut v, SqlValue::Int64(self.updated_time));
        v
    }

    fn from_values(values: &Vec<SqlValue>) -> (e: Self) {
        assert(values.deep_view().len() == values.len());
        let e = GutpPost {
            id: text_at(values, 0),
            title: text_at(values, 1),
            content: text_at(values, 2),
            author_id: text_at(values, 3),
            author_nickname: text_at(values, 4),
            subspace_id: text_at(values, 5),
            parent_post_id: text_at(values, 6),
            ext_link: text_at(values, 7),
            is_public: bool_at(values, 8),
            status: int16_at(values, 9),
            weight: int16_at(values, 10),
            category: text_at(values, 11),
            app_id: text_at(values, 12),
            created_time: int64_at(values, 13),
            updated_time: int64_at(values, 14),
        };
        assert(e.spec_values() =~= values.deep_view());
        e
    }
}

/// A comment under a post.
#[derive(Clone, Debug, PartialEq, Eq)]
pub struct GutpComment {
    pub id: String,
    pub content: String,
    pub author_id: String,
    pub author_nickname: String,
    pub post_id: String,
    pub parent_comment_id: String,
    pub is_public: bool,
    pub status: i16,
    pub weight: i32,
    pub created_time: i64,
}

impl Default for GutpComment {
    /// The entity in which every field holds its default value.
    fn default() -> (e: Self)
        ensures
            e.spec_values() == default_record(EntityKind::Comment),
    {
        let e = GutpComment {
            id: String::new(),
            content: String::new(),
            author_id: String::new(),
            author_nickname: String::new(),
            post_id: String::new(),
            parent_comment_id: String::new(),
            is_public: false,
            status: 0,
            weight: 0,
            created_time: 0,
        };
        assert(e.spec_values() =~= default_record(EntityKind::Comment));
        e
    }
}

impl EightFishModel for GutpComment {
    open spec fn spec_kind() -> EntityKind {
        EntityKind::Comment
    }

    open spec fn spec_values(&self) -> Seq<Value> {
        seq![
            Value::Text(self.id@),
            Value::Text(self.content@),
            Value::Text(self.author_id@),
            Value::Text(self.author_nickname@),
            Value::Text(self.post_id@),
            Value::Text(self.parent_comment_id@),
            Value::Bool(self.is_public),
            Value::Int16(self.status),
            Value::Int32(self.weight),
            Value::Int64(self.created_time),
        ]
    }

    proof fn lemma_well_typed(&self) {
    }

    fn kind() -> (k: EntityKind) {
        EntityKind::Comment
    }

    fn values(&self) -> (v: Vec<SqlValue>) {
        let mut v: Vec<SqlValue> = Vec::new();
        assert(v.deep_view() =~= Seq::empty());
        push_value(&mut v, SqlValue::Text(self.id.clone()));
        push_value(&mut v, SqlValue::Text(self.content.clone()));
        push_value(&mut v, SqlValue::Text(self.author_id.clone()));
        push_value(&mut v, SqlValue::Text(self.author_nickname.clone()));
        push_value(&mut v, SqlValue::Text(self.post_id.clone()));
        push_value(&mut v, SqlValue::Text(self.parent_comment_id.clone()));
        push_value(&mut v, SqlValue::Bool(self.is_public));
        push_value(&mut v, SqlValue::Int16(self.status));
        push_value(&mut v, SqlValue::Int32(self.weight));
        push_value(&mut v, SqlValue::Int64(self.created_time));
        v
    }

    fn from_values(values: &Vec<SqlValue>) -> (e: Self) {
        assert(values.deep_view().len() == values.len());
        let e = GutpComment {
            id: text_at(values, 0),
            content: text_at(values, 1),
            author_id: text_at(values, 2),
            author_nickname: text_at(values, 3),
            post_id: text_at(values, 4),
            parent_comment_id: text_at(values, 5),
            is_public: bool_at(values, 6),
            status: int16_at(values, 7),
            weight: int32_at(values, 8),
            created_time: int64_at(values, 9),
        };
        assert(e.spec_values() =~= values.deep_view());
        e
    }
}

/// A tag of a subspace.
#[derive(Clone, Debug, PartialEq, Eq)]
pub struct GutpTag {
    pub id: String,
    pub caption: String,
    pub subspace_id: String,
    pub creator_id: String,
    pub is_public: bool,
    pub weight: i16,
    pub created_time: i64,
}

impl Default for GutpTag {
    /// The entity in which every field holds its default value.
    fn default() -> (e: Self)
        ensures
            e.spec_values() == default_record(EntityKind::Tag),
    {
        let e = GutpTag {
            id: String::new(),
            caption: String::new(),
            subspace_id: String::new(),
            creator_id: String::new(),
            is_public: false,
            weight: 0,
            created_time: 0,
        };
        assert(e.spec_values() =~= default_record(EntityKind::Tag));
        e
    }
}

impl EightFishModel for GutpTag {
    open spec fn spec_kind() -> EntityKind {
        EntityKind::Tag
    }

    open spec fn spec_values(&self) -> Seq<Value> {
        seq![
            Value::Text(self.id@),
            Value::Text(self.caption@),
            Value::Text(self.subspace_id@),
            Value::Text(self.creator_id@),
            Value::Bool(self.is_public),
            Value::Int16(self.weight),
            Value::Int64(self.created_time),
        ]
    }

    proof fn lemma_well_typed(&self) {
    }

    fn kind() -> (k: EntityKind) {
        EntityKind::Tag
    }

    fn values(&self) -> (v: Vec<SqlValue>) {
        let mut v: Vec<SqlValue> = Vec::new();
        assert(v.deep_view() =~= Seq::empty());
        push_value(&mut v, SqlValue::Text(self.id.clone()));
        push_value(&mut v, SqlValue::Text(self.caption.clone()));
        push_value(&mut v, SqlValue::Text(self.subspace_id.clone()));
        push_value(&mut v, SqlValue::Text(self.creator_id.clone()));
        push_value(&mut v, SqlValue::Bool(self.is_public));
        push_value(&mut v, SqlValue::Int16(self.weight));
        push_value(&mut v, SqlValue::Int64(self.created_time));
        v
    }

    fn from_values(values: &Vec<SqlValue>) -> (e: Self) {
        assert(values.deep_view().len() == values.len());
        let e = GutpTag {
            id: text_at(values, 0),
            caption: text_at(values, 1),
            subspace_id: text_at(values, 2),
            creator_id: text_at(values, 3),
            is_public: bool_at(values, 4),
            weight: int16_at(values, 5),
            created_time: int64_at(values, 6),
        };
        assert(e.spec_values() =~= values.deep_view());
        e
    }
}

/// The link between a post and one of its tags.
#[derive(Clone, Debug, PartialEq, Eq)]
pub struct GutpPostTag {
    pub id: String,
    pub post_id: String,
    pub tag_id: String,
    pub created_time: i64,
}

impl Default for GutpPostTag {
    /// The entity in which every field holds its default value.
    fn default() -> (e: Self)
        ensures
            e.spec_values() == default_record(EntityKind::PostTag),
    {
        let e = GutpPostTag {
            id: String::new(),
            post_id: String::new(),
            tag_id: String::new(),
            created_time: 0,
        };
        assert(e.spec_values() =~= default_record(EntityKind::PostTag));
        e
    }
}

impl EightFishModel for GutpPostTag {
    open spec fn spec_kind() -> EntityKind {
        EntityKind::PostTag
    }

    open spec fn spec_values(&self) -> Seq<Value> {
        seq![
            Value::Text(self.id@),
            Value::Text(self.post_id@),
            Value::Text(self.tag_id@),
            Value::Int64(self.created_time),
        ]
    }

    proof fn lemma_well_typed(&self) {
    }

    fn kind() -> (k: EntityKind) {
        EntityKind::PostTag
    }

    fn values(&self) -> (v: Vec<SqlValue>) {
        let mut v: Vec<SqlValue> = Vec::new();
        assert(v.deep_view() =~= Seq::empty());
        push_value(&mut v, SqlValue::Text(self.id.clone()));
        push_value(&mut v, SqlValue::Text(self.post_id.clone()));
        push_value(&mut v, SqlValue::Text(self.tag_id.clone()));
        push_value(&mut v, SqlValue::Int64(self.created_time));
        v
    }

    fn from_values(values: &Vec<SqlValue>) -> (e: Self) {
        assert(values.deep_view().len() == values.len());
        let e = GutpPostTag {
            id: text_at(values, 0),
            post_id: text_at(values, 1),
            tag_id: text_at(values, 2),
            created_time: int64_at(values, 3),
        };
        assert(e.spec_values() =~= values.deep_view());
        e
    }
}

/// One recorded revision of a post.
#[derive(Clone, Debug, PartialEq, Eq)]
pub struct GutpPostDiff {
    pub id: String,
    pub post_id: String,
    pub diff: String,
    pub version_num: i32,
    pub created_time: i64,
}

impl Default for GutpPostDiff {
    /// The entity in which every field holds its default value.
    fn default() -> (e: Self)
        ensures
            e.spec_values() == default_record(EntityKind::PostDiff),
    {
        let e = GutpPostDiff {
            id: String::new(),
            post_id: String::new(),
            diff: String::new(),
            version_num: 0,
            created_time: 0,
        };
        assert(e.spec_values() =~= default_record(EntityKind::PostDiff));
        e
    }
}

impl EightFishModel for GutpPostDiff {
    open spec fn spec_kind() -> EntityKind {
        EntityKind::PostDiff
    }

    open spec fn spec_values(&self) -> Seq<Value> {
        seq![
            Value::Text(self.id@),
            Value::Text(self.post_id@),
            Value::Text(self.diff@),
            Value::Int32(self.version_num),
            Value::Int64(self.created_time),
        ]
    }

    proof fn lemma_well_typed(&self) {
    }

    fn kind() -> (k: EntityKind) {
        EntityKind::PostDiff
    }

    fn values(&self) -> (v: Vec<SqlValue>) {
        let mut v: Vec<SqlValue> = Vec::new();
        assert(v.deep_view() =~= Seq::empty());
        push_value(&mut v, SqlValue::Text(self.id.clone()));
        push_value(&mut v, SqlValue::Text(self.post_id.clone()));
        push_value(&mut v, SqlValue::Text(self.diff.clone()));
        push_value(&mut v, SqlValue::Int32(self.version_num));
        push_value(&mut v, SqlValue::Int64(self.created_time));
        v
    }

    fn from_values(values: &Vec<SqlValue>) -> (e: Self) {
        assert(values.deep_view().len() == values.len());
        let e = GutpPostDiff {
            id: text_at(values, 0),
            post_id: text_at(values, 1),
            diff: text_at(values, 2),
            version_num: int32_at(values, 3),
            created_time: int64_at(values, 4),
        };
        assert(e.spec_values() =~= values.deep_view());
        e
    }
}

/// The grant that makes a user moderator of a subspace or of a tag.
#[derive(Clone, Debug, PartialEq, Eq)]
pub struct GutpModerator {
    pub id: String,
    pub user_id: String,
    pub subspace_id: String,
    pub is_subspace_moderator: bool,
    pub tag_id: String,
    pub permission_level: i16,
    pub created_time: i64,
}

impl Default for GutpModerator {
    /// The entity in which every field holds its default value.
    fn default() -> (e: Self)
        ensures
            e.spec_values() == default_record(EntityKind::Moderator),
    {
        let e = GutpModerator {
            id: String::new(),
            user_id: String::new(),
            subspace_id: String::new(),
            is_subspace_moderator: false,
            tag_id: String::new(),
            permission_level: 0,
            created_time: 0,
        };
        assert(e.spec_values() =~= default_record(EntityKind::Moderator));
        e
    }
}

impl EightFishModel for GutpModerator {
    open spec fn spec_kind() -> EntityKind {
        EntityKind::Moderator
    }

    open spec fn spec_values(&self) -> Seq<Value> {
        seq![
            Value::Text(self.id@),
            Value::Text(self.user_id@),
            Value::Text(self.subspace_id@),
            Value::Bool(self.is_subspace_moderator),
            Value::Text(self.tag_id@),
            Value::Int16(self.permission_level),
            Value::Int64(self.created_time),
        ]
    }

    proof fn lemma_well_typed(&self) {
    }

    fn kind() -> (k: EntityKind) {
        EntityKind::Moderator
    }

    fn values(&self) -> (v: Vec<SqlValue>) {
        let mut v: Vec<SqlValue> = Vec::new();
        assert(v.deep_view() =~= Seq::empty());
        push_value(&mut v, SqlValue::Text(self.id.clone()));
        push_value(&mut v, SqlValue::Text(self.user_id.clone()));
        push_value(&mut v, SqlValue::Text(self.subspace_id.clone()));
        push_value(&mut v, SqlValue::Bool(self.is_subspace_moderator));
        push_value(&mut v, SqlValue::Text(self.tag_id.clone()));
        push_value(&mut v, SqlValue::Int16(self.permission_level));
        push_value(&mut v, SqlValue::Int64(self.created_time));
        v
    }

    fn from_values(values: &Vec<SqlValue>) -> (e: Self) {
        assert(values.deep_view().len() == values.len());
        let e = GutpModerator {
            id: text_at(values, 0),
            user_id: text_at(values, 1),
            subspace_id: text_at(values, 2),
            is_subspace_moderator: bool_at(values, 3),
            tag_id: text_at(values, 4),
            permission_level: int16_at(values, 5),
            created_time: int64_at(values, 6),
        };
        assert(e.spec_values() =~= values.deep_view());
        e
    }
}

/// An extension object attached to other entities.
#[derive(Clone, Debug, PartialEq, Eq)]
pub struct GutpExtobj {
    pub id: String,
    pub caption: String,
    pub content: String,
    pub user_id: String,
    pub subspace_id: String,
    pub tag_id: String,
    pub post_id: String,
    pub comment_id: String,
    pub is_public: bool,
    pub weight: i16,
    pub created_time: i64,
}

impl Default for GutpExtobj {
    /// The entity in which every field holds its default value.
    fn default() -> (e: Self)
        ensures
            e.spec_values() == default_record(EntityKind::Extobj),
    {
        let e = GutpExtobj {
            id: String::new(),
            caption: String::new(),
            content: String::new(),
            user_id: String::new(),
            subspace_id: String::new(),
            tag_id: String::new(),
            post_id: String::new(),
            comment_id: String::new(),
            is_public: false,
            weight: 0,
            created_time: 0,
        };
        assert(e.spec_values() =~= default_record(EntityKind::Extobj));
        e
    }
}

impl EightFishModel for GutpExtobj {
    open spec fn spec_kind() -> EntityKind {
        EntityKind::Extobj
    }

    open spec fn spec_values(&self) -> Seq<Value> {
        seq![
            Value::Text(self.id@),
            Value::Text(self.caption@),
            Value::Text(self.content@),
            Value::Text(self.user_id@),
            Value::Text(self.subspace_id@),
            Value::Text(self.tag_id@),
            Value::Text(self.post_id@),
            Value::Text(self.comment_id@),
            Value::Bool(self.is_public),
            Value::Int16(self.weight),
            Value::Int64(self.created_time),
        ]
    }

    proof fn lemma_well_typed(&self) {
    }

    fn kind() -> (k: EntityKind) {
        EntityKind::Extobj
    }

    fn values(&self) -> (v: Vec<SqlValue>) {
        let mut v: Vec<SqlValue> = Vec::new();
        assert(v.deep_view() =~= Seq::empty());
        push_value(&mut v, SqlValue::Text(self.id.clone()));
        push_value(&mut v, SqlValue::Text(self.caption.clone()));
        push_value(&mut v, SqlValue::Text(self.content.clone()));
        push_value(&mut v, SqlValue::Text(self.user_id.clone()));
        push_value(&mut v, SqlValue::Text(self.subspace_id.clone()));
        push_value(&mut v, SqlValue::Text(self.tag_id.clone()));
        push_value(&mut v, SqlValue::Text(self.post_id.clone()));
        push_value(&mut v, SqlValue::Text(self.comment_id.clone()));
        push_value(&mut v, SqlValue::Bool(self.is_public));
        push_value(&mut v, SqlValue::Int16(self.weight));
        push_value(&mut v, SqlValue::Int64(self.created_time));
        v
    }

    fn from_values(values: &Vec<SqlValue>) -> (e: Self) {
        assert(values.deep_view().len() == values.len());
        let e = GutpExtobj {
            id: text_at(values, 0),
            caption: text_at(values, 1),
            content: text_at(values, 2),
            user_id: text_at(values, 3),
            subspace_id: text_at(values, 4),
            tag_id: text_at(values, 5),
            post_id: text_at(values, 6),
            comment_id: text_at(values, 7),
            is_public: bool_at(values, 8),
            weight: int16_at(values, 9),
            created_time: int64_at(values, 10),
        };
        assert(e.spec_values() =~= values.deep_view());
        e
    }
}

} // verus!
