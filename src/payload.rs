use vstd::prelude::*;

use crate::category::Category;
use crate::sql::Statement;
use crate::update::{
    clearable_text_field, id_field, plan_update, ref_field, relation_field, statements_view, text_field,
    update_plan, ContextModel, UpdateContext, UpdateError,
};
use crate::wire::{decode_id, decode_text, spec_decode_id, spec_decode_text, WireValue};

verus! {

/// A sparse update of one entity kind: every field is optional, and an absent
/// field is left as it is.
pub trait UpdateCategoryPayload: Sized {
    spec fn spec_category() -> Category;

    /// The assignments and relation sets that this payload asks for.
    spec fn spec_update(&self) -> ContextModel;

    /// The kind whose table the payload updates.
    fn category() -> (r: Category)
        ensures
            r == Self::spec_category(),
    ;

    fn update(&self) -> (r: UpdateContext)
        ensures
            r@ == self.spec_update(),
    ;
}

/// An update of a post. `content` and `comments` hold their JSON text, `updated`
/// and `published` their RFC 3339 text; `authors`, `collections` and `tags` are
/// complete member sets.
pub struct UpdatePostPayload {
    pub title: Option<String>,
    pub source: Option<WireValue>,
    pub content: Option<String>,
    pub thumb: Option<WireValue>,
    pub comments: Option<String>,
    pub updated: Option<String>,
    pub published: Option<String>,
    pub platform: Option<WireValue>,
    pub authors: Option<Vec<u32>>,
    pub collections: Option<Vec<u32>>,
    pub tags: Option<Vec<u32>>,
}

impl UpdateCategoryPayload for UpdatePostPayload {
    open spec fn spec_category() -> Category {
        Category::Post
    }

    open spec fn spec_update(&self) -> ContextModel {
        ContextModel {
            content: text_field("title"@, self.title)
                + clearable_text_field("source"@, spec_decode_text(self.source))
                + text_field("content"@, self.content)
                + ref_field("thumb"@, spec_decode_id(self.thumb))
                + text_field("comments"@, self.comments)
                + text_field("updated"@, self.updated)
                + text_field("published"@, self.published)
                + ref_field("platform"@, spec_decode_id(self.platform)),
            relations: relation_field("collection_posts"@, "collection"@, "post"@, self.collections)
                + relation_field("author_posts"@, "author"@, "post"@, self.authors)
                + relation_field("post_tags"@, "tag"@, "post"@, self.tags),
        }
    }

    fn category() -> (r: Category) {
        Category::Post
    }

    fn update(&self) -> (r: UpdateContext) {
        let mut ctx = UpdateContext::new();
        ctx.set_text("title", &self.title);
        ctx.set_clearable_text("source", decode_text(&self.source));
        ctx.set_text("content", &self.content);
        ctx.set_ref("thumb", decode_id(&self.thumb));
        ctx.set_text("comments", &self.comments);
        ctx.set_text("updated", &self.updated);
        ctx.set_text("published", &self.published);
        ctx.set_ref("platform", decode_id(&self.platform));
        ctx.set_relation("collection_posts", "collection", "post", &self.collections);
        ctx.set_relation("author_posts", "author", "post", &self.authors);
        ctx.set_relation("post_tags", "tag", "post", &self.tags);
        assert(ctx@.content =~= self.spec_update().content);
        assert(ctx@.relations =~= self.spec_update().relations);
        ctx
    }
}

/// An update of an author. `updated` holds RFC 3339 text. `aliases` is accepted
/// and not applied: aliases are kept in a table of their own.
pub struct UpdateAuthorPayload {
    pub name: Option<String>,
    pub thumb: Option<WireValue>,
    pub updated: Option<String>,
    pub aliases: Option<Vec<String>>,
}

impl UpdateCategoryPayload for UpdateAuthorPayload {
    open spec fn spec_category() -> Category {
        Category::Author
    }

    open spec fn spec_update(&self) -> ContextModel {
        ContextModel {
            content: text_field("name"@, self.name)
                + ref_field("thumb"@, spec_decode_id(self.thumb))
                + text_field("updated"@, self.updated),
            relations: Seq::empty(),
        }
    }

    fn category() -> (r: Category) {
        Category::Author
    }

    fn update(&self) -> (r: UpdateContext) {
        let mut ctx = UpdateContext::new();
        ctx.set_text("name", &self.name);
        ctx.set_ref("thumb", decode_id(&self.thumb));
        ctx.set_text("updated", &self.updated);
        assert(ctx@.content =~= self.spec_update().content);
        ctx
    }
}

/// An update of a collection; `id` renumbers it.
pub struct UpdateCollectionPayload {
    pub id: Option<u32>,
    pub name: Option<String>,
    pub source: Option<WireValue>,
    pub thumb: Option<WireValue>,
}

impl UpdateCategoryPayload for UpdateCollectionPayload {
    open spec fn spec_category() -> Category {
        Category::Collection
    }

    open spec fn spec_update(&self) -> ContextModel {
        ContextModel {
            content: id_field("id"@, self.id)
                + text_field("name"@, self.name)
                + clearable_text_field("source"@, spec_decode_text(self.source))
                + ref_field("thumb"@, spec_decode_id(self.thumb)),
            relations: Seq::empty(),
        }
    }

    fn category() -> (r: Category) {
        Category::Collection
    }

    fn update(&self) -> (r: UpdateContext) {
        let mut ctx = UpdateContext::new();
        ctx.set_id("id", &self.id);
        ctx.set_text("name", &self.name);
        ctx.set_clearable_text("source", decode_text(&self.source));
        ctx.set_ref("thumb", decode_id(&self.thumb));
        assert(ctx@.content =~= self.spec_update().content);
        ctx
    }
}

/// An update of a file's metadata; `extra` holds its JSON text.
pub struct UpdateFileMetaPayload {
    pub filename: Option<String>,
    pub post: Option<u32>,
    pub mime: Option<String>,
    pub extra: Option<String>,
}

impl UpdateCategoryPayload for UpdateFileMetaPayload {
    open spec fn spec_category() -> Category {
        Category::FileMeta
    }

    open spec fn spec_update(&self) -> ContextModel {
        ContextModel {
            content: text_field("filename"@, self.filename)
                + id_field("post"@, self.post)
                + text_field("mime"@, self.mime)
                + text_field("extra"@, self.extra),
            relations: Seq::empty(),
        }
    }

    fn category() -> (r: Category) {
        Category::FileMeta
    }

    fn update(&self) -> (r: UpdateContext) {
        let mut ctx = UpdateContext::new();
        ctx.set_text("filename", &self.filename);
        ctx.set_id("post", &self.post);
        ctx.set_text("mime", &self.mime);
        ctx.set_text("extra", &self.extra);
        assert(ctx@.content =~= self.spec_update().content);
        ctx
    }
}

/// An update of a platform.
pub struct UpdatePlatformPayload {
    pub name: Option<String>,
}

impl UpdateCategoryPayload for UpdatePlatformPayload {
    open spec fn spec_category() -> Category {
        Category::Platform
    }

    open spec fn spec_update(&self) -> ContextModel {
        ContextModel { content: text_field("name"@, self.name), relations: Seq::empty() }
    }

    fn category() -> (r: Category) {
        Category::Platform
    }

    fn update(&self) -> (r: UpdateContext) {
        let mut ctx = UpdateContext::new();
        ctx.set_text("name", &self.name);
        assert(ctx@.content =~= self.spec_update().content);
        ctx
    }
}

/// An update of a tag.
pub struct UpdateTagPayload {
    pub name: Option<String>,
    pub platform: Option<WireValue>,
}

impl UpdateCategoryPayload for UpdateTagPayload {
    open spec fn spec_category() -> Category {
        Category::Tag
    }

    open spec fn spec_update(&self) -> ContextModel {
        ContextModel {
            content: text_field("name"@, self.name) + ref_field("platform"@, spec_decode_id(self.platform)),
            relations: Seq::empty(),
        }
    }

    fn category() -> (r: Category) {
        Category::Tag
    }

    fn update(&self) -> (r: UpdateContext) {
        let mut ctx = UpdateContext::new();
        ctx.set_text("name", &self.name);
        ctx.set_ref("platform", decode_id(&self.platform));
        assert(ctx@.content =~= self.spec_update().content);
        ctx
    }
}

} // verus!

verus! {

/// The statements that apply `payload` to the row `id` of its kind, or the refusal
/// of a payload that changes nothing.
pub fn update_category_statements<P: UpdateCategoryPayload>(payload: &P, id: u32) -> (r: Result<Vec<Statement>, UpdateError>)
    ensures
        r is Err <==> (payload.spec_update().content.len() == 0 && payload.spec_update().relations.len() == 0),
        r matches Ok(s) ==> statements_view(s@) == update_plan(P::spec_category().spec_table_name(), id, payload.spec_update()),
{
    let ctx = payload.update();
    plan_update(P::category(), id, &ctx)
}

} // verus!
