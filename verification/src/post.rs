//! Posts and their metadata: creating a post, taking one up from what its
//! directory holds, editing its tags and keywords, and planning how it is
//! saved, built and published.

use vstd::prelude::*;

use crate::labels::{
    already_attached_text, attach, attached, detach, detached, list_lines, listing,
    not_attached_text, unique, Label,
};
use crate::outside::{gfm_html, render_gfm, slug_of, slugify, utc_now};
use crate::plan::{outcome_view, Plan, PlanView, Step, StepView};
use crate::text::{
    child_path, is_digit, join_path, lemma_decimal_places, lemma_zero_padded_places,
    signed_zero_padded, to_signed_zero_padded, to_zero_padded, zero_padded,
};

verus! {

/// A point in time: whole seconds since the start of 1970 in UTC, and the
/// nanoseconds that have passed of the running second.
#[derive(Clone, Copy, Debug, PartialEq, Eq)]
pub struct Timestamp {
    pub seconds: i64,
    pub nanoseconds: u32,
}

/// What a post says of itself.
#[derive(Debug, PartialEq, Eq)]
pub struct PostInfo {
    pub title: String,
    pub author: String,
    pub published_date: Option<Timestamp>,
    /// When the post was last built.
    pub update: Option<Timestamp>,
    /// The tags in the order in which they were attached, none of them twice.
    pub tags: Vec<String>,
}

/// [`PostInfo`] as a mathematical value.
pub struct PostInfoView {
    pub title: Seq<char>,
    pub author: Seq<char>,
    pub published_date: Option<Timestamp>,
    pub update: Option<Timestamp>,
    pub tags: Seq<Seq<char>>,
}

impl View for PostInfo {
    type V = PostInfoView;

    open spec fn view(&self) -> PostInfoView {
        PostInfoView {
            title: self.title@,
            author: self.author@,
            published_date: self.published_date,
            update: self.update,
            tags: self.tags.deep_view(),
        }
    }
}

impl PostInfoView {
    /// The record with every text empty, no date and no tag.
    pub open spec fn empty() -> PostInfoView {
        PostInfoView {
            title: Seq::empty(),
            author: Seq::empty(),
            published_date: None,
            update: None,
            tags: Seq::empty(),
        }
    }
}

impl Default for PostInfo {
    fn default() -> (r: PostInfo)
        ensures
            r@ == PostInfoView::empty(),
            r.wf(),
    {
        let r = PostInfo {
            title: String::new(),
            author: String::new(),
            published_date: None,
            update: None,
            tags: Vec::new(),
        };
        assert(r.tags.deep_view() =~= Seq::<Seq<char>>::empty());
        r
    }
}

impl PostInfo {
    /// No tag occurs twice.
    pub open spec fn wf(&self) -> bool {
        unique(self@.tags)
    }

    /// Attaches a tag behind the others. Fails, and changes nothing, when the
    /// tag is attached already.
    pub fn add_tag(&mut self, tag: String) -> (r: Result<(), String>)
        ensures
            match attached(old(self)@.tags, tag@) {
                Some(tags) => r is Ok && final(self)@ == (PostInfoView { tags, ..old(self)@ }),
                None => r is Err && r->Err_0@ == already_attached_text(Label::Tag, tag@)
                    && *final(self) == *old(self),
            },
            old(self).wf() ==> final(self).wf(),
    {
        attach(&mut self.tags, tag, Label::Tag)
    }

    /// Detaches a tag; the others keep their order. Fails, and changes
    /// nothing, when the tag is not attached.
    pub fn remove_tag(&mut self, tag: &str) -> (r: Result<(), String>)
        ensures
            match detached(old(self)@.tags, tag@) {
                Some(tags) => r is Ok && final(self)@ == (PostInfoView { tags, ..old(self)@ }),
                None => r is Err && r->Err_0@ == not_attached_text(Label::Tag, tag@)
                    && *final(self) == *old(self),
            },
            old(self).wf() ==> final(self).wf(),
    {
        detach(&mut self.tags, tag, Label::Tag)
    }

    /// The lines that show the tags: one bulleted line for each, in the order
    /// in which they were attached, or one line that says that there is none.
    pub fn list_tags(&self) -> (lines: Vec<String>)
        ensures
            lines.deep_view() == listing(self@.tags, Label::Tag),
    {
        list_lines(&self.tags, Label::Tag)
    }
}

/// How a post presents itself where it is shared.
#[derive(Debug, PartialEq, Eq)]
pub struct OpenGraph {
    pub short: String,
    pub opengraphimage: String,
    pub description: String,
    /// The keywords in the order in which they were attached, none of them
    /// twice.
    pub keywords: Vec<String>,
}

/// [`OpenGraph`] as a mathematical value.
pub struct OpenGraphView {
    pub short: Seq<char>,
    pub opengraphimage: Seq<char>,
    pub description: Seq<char>,
    pub keywords: Seq<Seq<char>>,
}

impl View for OpenGraph {
    type V = OpenGraphView;

    open spec fn view(&self) -> OpenGraphView {
        OpenGraphView {
            short: self.short@,
            opengraphimage: self.opengraphimage@,
            description: self.description@,
            keywords: self.keywords.deep_view(),
        }
    }
}

impl OpenGraphView {
    /// The record with every text empty and no keyword.
    pub open spec fn empty() -> OpenGraphView {
        OpenGraphView {
            short: Seq::empty(),
            opengraphimage: Seq::empty(),
            description: Seq::empty(),
            keywords: Seq::empty(),
        }
    }
}

impl Default for OpenGraph {
    fn default() -> (r: OpenGraph)
        ensures
            r@ == OpenGraphView::empty(),
            r.wf(),
    {
        let r = OpenGraph {
            short: String::new(),
            opengraphimage: String::new(),
            description: String::new(),
            keywords: Vec::new(),
        };
        assert(r.keywords.deep_view() =~= Seq::<Seq<char>>::empty());
        r
    }
}

impl OpenGraph {
    /// No keyword occurs twice.
    pub open spec fn wf(&self) -> bool {
        unique(self@.keywords)
    }

    /// Attaches a keyword behind the others. Fails, and changes nothing, when
    /// the keyword is attached already.
    pub fn add_keyword(&mut self, keyword: String) -> (r: Result<(), String>)
        ensures
            match attached(old(self)@.keywords, keyword@) {
                Some(keywords) => r is Ok && final(self)@ == (OpenGraphView {
                    keywords,
                    ..old(self)@
                }),
                None => r is Err && r->Err_0@ == already_attached_text(Label::Keyword, keyword@)
                    && *final(self) == *old(self),
            },
            old(self).wf() ==> final(self).wf(),
    {
        attach(&mut self.keywords, keyword, Label::Keyword)
    }

    /// Detaches a keyword; the others keep their order. Fails, and changes
    /// nothing, when the keyword is not attached.
    pub fn remove_keyword(&mut self, keyword: &str) -> (r: Result<(), String>)
        ensures
            match detached(old(self)@.keywords, keyword@) {
                Some(keywords) => r is Ok && final(self)@ == (OpenGraphView {
                    keywords,
                    ..old(self)@
                }),
                None => r is Err && r->Err_0@ == not_attached_text(Label::Keyword, keyword@)
                    && *final(self) == *old(self),
            },
            old(self).wf() ==> final(self).wf(),
    {
        detach(&mut self.keywords, keyword, Label::Keyword)
    }

    /// The lines that show the keywords: one bulleted line for each, in the
    /// order in which they were attached, or one line that says that there is
    /// none.
    pub fn list_keywords(&self) -> (lines: Vec<String>)
        ensures
            lines.deep_view() == listing(self@.keywords, Label::Keyword),
    {
        list_lines(&self.keywords, Label::Keyword)
    }
}

/// Everything that is kept about a post beside its body.
#[derive(Debug, PartialEq, Eq)]
pub struct Metadata {
    pub post: PostInfo,
    pub opengraph: OpenGraph,
}

/// [`Metadata`] as a mathematical value.
pub struct MetadataView {
    pub post: PostInfoView,
    pub opengraph: OpenGraphView,
}

impl View for Metadata {
    type V = MetadataView;

    open spec fn view(&self) -> MetadataView {
        MetadataView { post: self.post@, opengraph: self.opengraph@ }
    }
}

impl MetadataView {
    /// The metadata in which nothing is set.
    pub open spec fn empty() -> MetadataView {
        MetadataView { post: PostInfoView::empty(), opengraph: OpenGraphView::empty() }
    }

    /// The same metadata under another title.
    pub open spec fn titled(self, title: Seq<char>) -> MetadataView {
        MetadataView { post: PostInfoView { title, ..self.post }, ..self }
    }

    /// The same metadata, last built at `now`.
    pub open spec fn updated(self, now: Timestamp) -> MetadataView {
        MetadataView { post: PostInfoView { update: Some(now), ..self.post }, ..self }
    }
}

impl Default for Metadata {
    fn default() -> (r: Metadata)
        ensures
            r@ == MetadataView::empty(),
            r.wf(),
    {
        Metadata { post: PostInfo::default(), opengraph: OpenGraph::default() }
    }
}

impl Metadata {
    /// Neither the tags nor the keywords hold an entry twice.
    pub open spec fn wf(&self) -> bool {
        self.post.wf() && self.opengraph.wf()
    }

    /// The same metadata under another title.
    pub fn with_title(self, title: &str) -> (r: Metadata)
        ensures
            r@ == self@.titled(title@),
            self.wf() ==> r.wf(),
    {
        let mut r = self;
        r.post.title = title.to_owned();
        r
    }
}

/// A blog post: a directory that holds the body in `content.md`, the metadata
/// in `metadata.toml` and the pictures below `images`.
#[derive(Debug, PartialEq, Eq)]
pub struct Post {
    /// The body, in Markdown.
    pub content: String,
    /// The directory of the post, with `/` between its components.
    pub path: String,
    pub metadata: Metadata,
}

/// [`Post`] as a mathematical value.
pub struct PostView {
    pub content: Seq<char>,
    pub path: Seq<char>,
    pub metadata: MetadataView,
}

impl View for Post {
    type V = PostView;

    open spec fn view(&self) -> PostView {
        PostView { content: self.content@, path: self.path@, metadata: self.metadata@ }
    }
}

impl PostView {
    /// The same post with other tags.
    pub open spec fn with_tags(self, tags: Seq<Seq<char>>) -> PostView {
        PostView {
            metadata: MetadataView {
                post: PostInfoView { tags, ..self.metadata.post },
                ..self.metadata
            },
            ..self
        }
    }

    /// The same post with other keywords.
    pub open spec fn with_keywords(self, keywords: Seq<Seq<char>>) -> PostView {
        PostView {
            metadata: MetadataView {
                opengraph: OpenGraphView { keywords, ..self.metadata.opengraph },
                ..self.metadata
            },
            ..self
        }
    }
}

/// What the directory of a post gave when it was read: the first thing that
/// went wrong, or the body and the metadata.
#[derive(Debug, PartialEq, Eq)]
pub enum PostFiles {
    /// There is nothing at the path.
    Missing,
    /// `content.md` could not be read as UTF-8 text.
    ContentUnreadable { cause: String },
    /// `metadata.toml` could not be read as UTF-8 text.
    MetadataUnreadable { cause: String },
    /// `metadata.toml` does not hold metadata.
    MetadataInvalid { cause: String },
    /// Both files were read.
    Read { content: String, metadata: Metadata },
}

/// The directory of a post that is created in the given year and month:
/// the year in four digits, the month in two, and the slug of the title.
pub open spec fn post_path(year: int, month: nat, slug: Seq<char>) -> Seq<char> {
    signed_zero_padded(year, 4) + seq!['/'] + zero_padded(month, 2) + seq!['/'] + slug
}

/// The post that is created under a title: a body of one heading, the path of
/// [`post_path`], and metadata in which only the title is set.
pub open spec fn created(title: Seq<char>, year: int, month: nat, slug: Seq<char>) -> PostView {
    PostView {
        content: "# "@ + title,
        path: post_path(year, month, slug),
        metadata: MetadataView::empty().titled(title),
    }
}

/// The directory of a post that is created in a year of our era with four
/// digits has three components: the four digits of the year, the two digits of
/// the month, and the slug, with one `/` before each of the last two. So it
/// ends with the slug.
pub proof fn lemma_post_path_components(year: int, month: nat, slug: Seq<char>)
    requires
        0 <= year <= 9999,
        1 <= month <= 12,
    ensures
        ({
            let path = post_path(year, month, slug);
            &&& path.len() == 8 + slug.len()
            &&& path.subrange(0, 4) == zero_padded(year as nat, 4)
            &&& forall|i: int| 0 <= i < 4 ==> is_digit(#[trigger] path[i])
            &&& path[4] == '/'
            &&& path.subrange(5, 7) == zero_padded(month, 2)
            &&& forall|i: int| 5 <= i < 7 ==> is_digit(#[trigger] path[i])
            &&& path[7] == '/'
            &&& path.subrange(8, path.len() as int) == slug
        }),
{
    let path = post_path(year, month, slug);
    let year_text = zero_padded(year as nat, 4);
    let month_text = zero_padded(month, 2);
    lemma_decimal_places(year as nat);
    lemma_decimal_places(month);
    lemma_zero_padded_places(year as nat, 4);
    lemma_zero_padded_places(month, 2);
    assert(path =~= year_text + seq!['/'] + month_text + seq!['/'] + slug);
    assert(path.subrange(0, 4) =~= year_text);
    assert(path.subrange(5, 7) =~= month_text);
    assert(path.subrange(8, path.len() as int) =~= slug);
    assert forall|i: int| 0 <= i < 4 implies is_digit(#[trigger] path[i]) by {
        assert(path[i] == year_text[i]);
    }
    assert forall|i: int| 5 <= i < 7 implies is_digit(#[trigger] path[i]) by {
        assert(path[i] == month_text[i - 5]);
    }
}

/// The steps that write a post to its directory.
pub open spec fn save_steps(path: Seq<char>, content: Seq<char>) -> Seq<StepView> {
    seq![
        StepView::EnsureDirectory { path },
        StepView::EnsureDirectory { path: child_path(path, "images"@) },
        StepView::WriteContent { path: child_path(path, "content.md"@), text: content },
        StepView::WriteMetadata { path: child_path(path, "metadata.toml"@) },
    ]
}

/// The plan of a build: save the post, make the output directory, write the
/// page and copy the pictures. When the body cannot be rendered, the plan
/// ends behind the output directory with the renderer's message.
pub open spec fn build_plan(
    path: Seq<char>,
    content: Seq<char>,
    rendered: Result<Seq<char>, Seq<char>>,
) -> PlanView {
    let output = child_path(path, "dist/"@);
    let prepared = save_steps(path, content).push(StepView::EnsureDirectory { path: output });
    match rendered {
        Ok(html) => PlanView {
            steps: prepared.push(
                StepView::WritePage { path: child_path(output, "index.html"@), html },
            ).push(
                StepView::CopyImages {
                    from: child_path(path, "images"@),
                    to: child_path(output, "images"@),
                },
            ),
            outcome: Ok(()),
        },
        Err(message) => PlanView { steps: prepared, outcome: Err(message) },
    }
}

/// A rendering with its texts as sequences of characters.
pub open spec fn rendered_view(rendered: Result<String, String>) -> Result<Seq<char>, Seq<char>> {
    match rendered {
        Ok(html) => Ok(html@),
        Err(message) => Err(message@),
    }
}

impl Post {
    /// The metadata holds no tag and no keyword twice.
    pub open spec fn wf(&self) -> bool {
        self.metadata.wf()
    }

    /// Creates a post under `title`, dated by the clock: the directory is
    /// named after the current year and month in UTC and the slug of the
    /// title. The body is one heading that holds the title, and the metadata
    /// holds the title and nothing else: no tag, no keyword. Nothing is
    /// written.
    pub fn new(title: &str) -> (r: Post)
        ensures
            r@.content == "# "@ + title@,
            r@.metadata == MetadataView::empty().titled(title@),
            r@.metadata.post.tags.len() == 0,
            r@.metadata.opengraph.keywords.len() == 0,
            exists|year: i32, month: u32|
                1 <= month <= 12 && r@.path == #[trigger] post_path(
                    year as int,
                    month as nat,
                    slug_of(title@),
                ),
            r.wf(),
    {
        let now = utc_now();
        let slug = slugify(title);
        let r = Post::at(title, now.year, now.month, slug.as_str());
        r
    }

    /// Creates a post under `title` for a given year, month and slug.
    pub fn at(title: &str, year: i32, month: u32, slug: &str) -> (r: Post)
        ensures
            r@ == created(title@, year as int, month as nat, slug@),
            r.wf(),
    {
        let mut path = to_signed_zero_padded(year, 4);
        proof {
            reveal_strlit("/");
        }
        path.append("/");
        path.append(to_zero_padded(month as usize, 2).as_str());
        path.append("/");
        path.append(slug);
        assert(path@ =~= post_path(year as int, month as nat, slug@));
        let mut content = "# ".to_owned();
        content.append(title);
        Post { content, path, metadata: Metadata::default().with_title(title) }
    }

    /// Takes a post up from what its directory gave. A post is never half
    /// loaded: whatever went wrong first while reading is the error.
    pub fn load(path: String, files: PostFiles) -> (r: Result<Post, String>)
        ensures
            match files {
                PostFiles::Missing => r is Err && r->Err_0@ == "Blog post does not exist"@,
                PostFiles::ContentUnreadable { cause } => r is Err && r->Err_0@
                    == "Failed to read content file: "@ + cause@,
                PostFiles::MetadataUnreadable { cause } => r is Err && r->Err_0@
                    == "Failed to read metadata file: "@ + cause@,
                PostFiles::MetadataInvalid { cause } => r is Err && r->Err_0@
                    == "Failed to parse metadata file: "@ + cause@,
                PostFiles::Read { content, metadata } => r is Ok && r->Ok_0 == (Post {
                    content,
                    path,
                    metadata,
                }),
            },
    {
        match files {
            PostFiles::Missing => Err("Blog post does not exist".to_owned()),
            PostFiles::ContentUnreadable { cause } => {
                let mut message = "Failed to read content file: ".to_owned();
                message.append(cause.as_str());
                Err(message)
            },
            PostFiles::MetadataUnreadable { cause } => {
                let mut message = "Failed to read metadata file: ".to_owned();
                message.append(cause.as_str());
                Err(message)
            },
            PostFiles::MetadataInvalid { cause } => {
                let mut message = "Failed to parse metadata file: ".to_owned();
                message.append(cause.as_str());
                Err(message)
            },
            PostFiles::Read { content, metadata } => Ok(Post { content, path, metadata }),
        }
    }

    /// Plans the saving of the post: make its directory and the one for its
    /// pictures, then write the body and the metadata, replacing what is
    /// there.
    pub fn save(&self) -> (plan: Plan)
        ensures
            plan@ == (PlanView { steps: save_steps(self@.path, self@.content), outcome: Ok(()) }),
    {
        let steps = self.save_steps();
        Plan { steps, outcome: Ok(()) }
    }

    fn save_steps(&self) -> (steps: Vec<Step>)
        ensures
            steps.deep_view() == save_steps(self@.path, self@.content),
    {
        let mut steps: Vec<Step> = Vec::new();
        steps.push(Step::EnsureDirectory { path: self.path.clone() });
        steps.push(Step::EnsureDirectory { path: join_path(self.path.as_str(), "images") });
        steps.push(
            Step::WriteContent {
                path: join_path(self.path.as_str(), "content.md"),
                text: self.content.clone(),
            },
        );
        steps.push(Step::WriteMetadata { path: join_path(self.path.as_str(), "metadata.toml") });
        steps
    }

    /// Builds the post: stamps it as updated now, renders its body, and plans
    /// the writing of both. The post is saved before anything else, so the new
    /// stamp is on disk even when a later step fails.
    pub fn build(&mut self) -> (plan: Plan)
        ensures
            exists|now: Timestamp| #[trigger]
                old(self)@.metadata.updated(now) == final(self)@.metadata,
            final(self)@.content == old(self)@.content,
            final(self)@.path == old(self)@.path,
            plan@ == build_plan(old(self)@.path, old(self)@.content, gfm_html(old(self)@.content)),
            old(self).wf() ==> final(self).wf(),
    {
        let moment = utc_now();
        let now = Timestamp { seconds: moment.seconds, nanoseconds: moment.nanoseconds };
        let rendered = render_gfm(self.content.as_str());
        let ghost before = self@.metadata;
        let plan = self.build_from(now, rendered);
        assert(before.updated(now) == self@.metadata);
        plan
    }

    /// Builds the post from the time of the build and the rendering of its
    /// body.
    pub fn build_from(&mut self, now: Timestamp, rendered: Result<String, String>) -> (plan: Plan)
        ensures
            final(self)@ == (PostView {
                metadata: old(self)@.metadata.updated(now),
                ..old(self)@
            }),
            plan@ == build_plan(old(self)@.path, old(self)@.content, rendered_view(rendered)),
            old(self).wf() ==> final(self).wf(),
    {
        self.metadata.post.update = Some(now);
        let mut steps = self.save_steps();
        let output = join_path(self.path.as_str(), "dist/");
        steps.push(Step::EnsureDirectory { path: output.clone() });
        match rendered {
            Ok(html) => {
                steps.push(Step::WritePage { path: join_path(output.as_str(), "index.html"), html });
                steps.push(
                    Step::CopyImages {
                        from: join_path(self.path.as_str(), "images"),
                        to: join_path(output.as_str(), "images"),
                    },
                );
                let plan = Plan { steps, outcome: Ok(()) };
                assert(plan@.steps =~= build_plan(
                    self@.path,
                    self@.content,
                    rendered_view(rendered),
                ).steps);
                plan
            },
            Err(message) => {
                let plan = Plan { steps, outcome: Err(message) };
                assert(plan@.steps =~= build_plan(
                    self@.path,
                    self@.content,
                    rendered_view(rendered),
                ).steps);
                plan
            },
        }
    }

    /// Publishing is not there yet: it always fails, and changes nothing.
    pub fn publish(&mut self) -> (r: Result<(), String>)
        ensures
            r is Err,
            r->Err_0@ == "Not implemented"@,
            *final(self) == *old(self),
    {
        Err("Not implemented".to_owned())
    }
}

} // verus!
