//! The commands of the tool, and what each of them comes to: how a command
//! changes a post, which lines it prints, and whether the post is saved
//! afterwards.

use vstd::prelude::*;

use crate::labels::{
    attach_complaints, attach_each, attached_each, detach_complaints, detach_each, detached_each,
    list_lines, listing, Label,
};
use crate::post::{Post, PostFiles};

verus! {

/// A command line.
#[derive(Debug, PartialEq, Eq)]
pub struct Cli {
    pub subcmd: SubCommand,
}

/// What the tool is asked to do.
#[derive(Debug, PartialEq, Eq)]
pub enum SubCommand {
    /// Create a post under a title.
    New { title: String },
    /// Build the post in the directory `path`.
    Build { path: String },
    /// Publish the post in the directory `path`.
    Publish { path: String },
    /// Edit or show the tags of a post.
    Tag(Tag),
    /// Edit or show the keywords of a post.
    Keyword(Keyword),
    /// Fetch, show or choose header pictures of a post.
    Header(Header),
}

/// A command on the tags of the post in the directory `post`.
#[derive(Debug, PartialEq, Eq)]
pub struct Tag {
    pub post: String,
    pub subcmd: TagSubCommand,
}

#[derive(Debug, PartialEq, Eq)]
pub enum TagSubCommand {
    Add { tags: Vec<String> },
    Remove { tags: Vec<String> },
    List,
}

/// A command on the keywords of the post in the directory `post`.
#[derive(Debug, PartialEq, Eq)]
pub struct Keyword {
    pub post: String,
    pub subcmd: KeywordSubCommand,
}

#[derive(Debug, PartialEq, Eq)]
pub enum KeywordSubCommand {
    Add { keywords: Vec<String> },
    Remove { keywords: Vec<String> },
    List,
}

/// A command on the header pictures of the post in the directory `post`.
#[derive(Debug, PartialEq, Eq)]
pub struct Header {
    pub post: String,
    pub subcmd: HeaderSubCommand,
}

#[derive(Debug, PartialEq, Eq)]
pub enum HeaderSubCommand {
    /// Make the candidate with this number the header.
    Choose { index: usize },
    /// Fetch this many new candidates.
    Fetch { amount: usize },
    /// Show the candidates.
    List,
}

/// What a command on tags or keywords comes to, beside the change to the post.
#[derive(Debug, PartialEq, Eq)]
pub struct Report {
    /// The lines to print, in order.
    pub lines: Vec<String>,
    /// Whether the post is to be saved now.
    pub save: bool,
}

/// The directory of the post that a command works on. Only `new` works on
/// none.
pub open spec fn target(command: SubCommand) -> Option<Seq<char>> {
    match command {
        SubCommand::New { .. } => None,
        SubCommand::Build { path } => Some(path@),
        SubCommand::Publish { path } => Some(path@),
        SubCommand::Tag(tag) => Some(tag.post@),
        SubCommand::Keyword(keyword) => Some(keyword.post@),
        SubCommand::Header(header) => Some(header.post@),
    }
}

/// What a command prints before it starts. Only `publish` prints anything.
pub open spec fn announcement(command: SubCommand) -> Option<Seq<char>> {
    match command {
        SubCommand::Publish { path } => Some("Publishing post: "@ + path@),
        _ => None,
    }
}

/// What stands in front of the cause when the work of a command fails. For a
/// command on tags or keywords that work is the saving of the post.
pub open spec fn complaint_prefix(command: SubCommand) -> Seq<char> {
    match command {
        SubCommand::New { .. } => "Failed to save post: "@,
        SubCommand::Build { .. } => "Failed to build post: "@,
        SubCommand::Publish { .. } => "Error while publishing post: "@,
        SubCommand::Tag(_) => "Unable to save post: "@,
        SubCommand::Keyword(_) => "Unable to save post: "@,
        SubCommand::Header(header) => header_complaint_prefix(header.subcmd),
    }
}

/// What stands in front of the cause when a command on header pictures fails.
pub open spec fn header_complaint_prefix(subcmd: HeaderSubCommand) -> Seq<char> {
    match subcmd {
        HeaderSubCommand::Choose { .. } => "Error while selecting the header: "@,
        HeaderSubCommand::Fetch { .. } => "Error while fetching new posts: "@,
        HeaderSubCommand::List => "Error while displaying candidate pictures: "@,
    }
}

impl SubCommand {
    /// The directory of the post that the command works on, if it works on
    /// one.
    pub fn post(&self) -> (r: Option<&String>)
        ensures
            match r {
                Some(path) => target(*self) == Some(path@),
                None => target(*self) is None,
            },
    {
        match self {
            SubCommand::New { .. } => None,
            SubCommand::Build { path } => Some(path),
            SubCommand::Publish { path } => Some(path),
            SubCommand::Tag(tag) => Some(&tag.post),
            SubCommand::Keyword(keyword) => Some(&keyword.post),
            SubCommand::Header(header) => Some(&header.post),
        }
    }

    /// The line that the command prints before it starts, if it prints one.
    pub fn announce(&self) -> (r: Option<String>)
        ensures
            match r {
                Some(line) => announcement(*self) == Some(line@),
                None => announcement(*self) is None,
            },
    {
        match self {
            SubCommand::Publish { path } => {
                let mut line = "Publishing post: ".to_owned();
                line.append(path.as_str());
                Some(line)
            },
            _ => None,
        }
    }

    /// The line to print when the work of the command failed for `cause`.
    pub fn complain(&self, cause: &str) -> (r: String)
        ensures
            r@ == complaint_prefix(*self) + cause@,
    {
        let prefix = match self {
            SubCommand::New { .. } => "Failed to save post: ",
            SubCommand::Build { .. } => "Failed to build post: ",
            SubCommand::Publish { .. } => "Error while publishing post: ",
            SubCommand::Tag(_) => "Unable to save post: ",
            SubCommand::Keyword(_) => "Unable to save post: ",
            SubCommand::Header(header) => match header.subcmd {
                HeaderSubCommand::Choose { .. } => "Error while selecting the header: ",
                HeaderSubCommand::Fetch { .. } => "Error while fetching new posts: ",
                HeaderSubCommand::List => "Error while displaying candidate pictures: ",
            },
        };
        let mut r = prefix.to_owned();
        r.append(cause);
        r
    }
}

/// Takes up the post that a command works on. A post that cannot be loaded
/// ends the command: the error is the line to print before the tool stops.
pub fn load_post(path: String, files: PostFiles) -> (r: Result<Post, String>)
    ensures
        match files {
            PostFiles::Missing => r is Err && r->Err_0@ == "Failed to load post: "@
                + "Blog post does not exist"@,
            PostFiles::ContentUnreadable { cause } => r is Err && r->Err_0@
                == "Failed to load post: "@ + ("Failed to read content file: "@ + cause@),
            PostFiles::MetadataUnreadable { cause } => r is Err && r->Err_0@
                == "Failed to load post: "@ + ("Failed to read metadata file: "@ + cause@),
            PostFiles::MetadataInvalid { cause } => r is Err && r->Err_0@
                == "Failed to load post: "@ + ("Failed to parse metadata file: "@ + cause@),
            PostFiles::Read { content, metadata } => r is Ok && r->Ok_0 == (Post {
                content,
                path,
                metadata,
            }),
        },
{
    match Post::load(path, files) {
        Ok(post) => Ok(post),
        Err(cause) => {
            let mut line = "Failed to load post: ".to_owned();
            line.append(cause.as_str());
            Err(line)
        },
    }
}

/// Carries out a command on the tags of a post. Each tag is attached or
/// detached on its own, in the order given: one that fails gets a line and
/// holds up neither the others nor the saving of the post. Listing changes
/// nothing and saves nothing.
pub fn handle_tag_command(post: &mut Post, subcmd: &TagSubCommand) -> (report: Report)
    ensures
        match *subcmd {
            TagSubCommand::Add { tags } => {
                &&& final(post)@ == old(post)@.with_tags(
                    attached_each(old(post)@.metadata.post.tags, tags.deep_view()),
                )
                &&& report.lines.deep_view() == attach_complaints(
                    old(post)@.metadata.post.tags,
                    tags.deep_view(),
                    Label::Tag,
                )
                &&& report.save
            },
            TagSubCommand::Remove { tags } => {
                &&& final(post)@ == old(post)@.with_tags(
                    detached_each(old(post)@.metadata.post.tags, tags.deep_view()),
                )
                &&& report.lines.deep_view() == detach_complaints(
                    old(post)@.metadata.post.tags,
                    tags.deep_view(),
                    Label::Tag,
                )
                &&& report.save
            },
            TagSubCommand::List => {
                &&& *final(post) == *old(post)
                &&& report.lines.deep_view() == listing(old(post)@.metadata.post.tags, Label::Tag)
                &&& !report.save
            },
        },
        old(post).wf() ==> final(post).wf(),
{
    match subcmd {
        TagSubCommand::Add { tags } => {
            let lines = attach_each(&mut post.metadata.post.tags, tags, Label::Tag);
            Report { lines, save: true }
        },
        TagSubCommand::Remove { tags } => {
            let lines = detach_each(&mut post.metadata.post.tags, tags, Label::Tag);
            Report { lines, save: true }
        },
        TagSubCommand::List => Report {
            lines: list_lines(&post.metadata.post.tags, Label::Tag),
            save: false,
        },
    }
}

/// Carries out a command on the keywords of a post, as
/// [`handle_tag_command`] does for tags.
pub fn handle_keyword_command(post: &mut Post, subcmd: &KeywordSubCommand) -> (report: Report)
    ensures
        match *subcmd {
            KeywordSubCommand::Add { keywords } => {
                &&& final(post)@ == old(post)@.with_keywords(
                    attached_each(old(post)@.metadata.opengraph.keywords, keywords.deep_view()),
                )
                &&& report.lines.deep_view() == attach_complaints(
                    old(post)@.metadata.opengraph.keywords,
                    keywords.deep_view(),
                    Label::Keyword,
                )
                &&& report.save
            },
            KeywordSubCommand::Remove { keywords } => {
                &&& final(post)@ == old(post)@.with_keywords(
                    detached_each(old(post)@.metadata.opengraph.keywords, keywords.deep_view()),
                )
                &&& report.lines.deep_view() == detach_complaints(
                    old(post)@.metadata.opengraph.keywords,
                    keywords.deep_view(),
                    Label::Keyword,
                )
                &&& report.save
            },
            KeywordSubCommand::List => {
                &&& *final(post) == *old(post)
                &&& report.lines.deep_view() == listing(
                    old(post)@.metadata.opengraph.keywords,
                    Label::Keyword,
                )
                &&& !report.save
            },
        },
        old(post).wf() ==> final(post).wf(),
{
    match subcmd {
        KeywordSubCommand::Add { keywords } => {
            let lines = attach_each(&mut post.metadata.opengraph.keywords, keywords, Label::Keyword);
            Report { lines, save: true }
        },
        KeywordSubCommand::Remove { keywords } => {
            let lines = detach_each(&mut post.metadata.opengraph.keywords, keywords, Label::Keyword);
            Report { lines, save: true }
        },
        KeywordSubCommand::List => Report {
            lines: list_lines(&post.metadata.opengraph.keywords, Label::Keyword),
            save: false,
        },
    }
}

/// The lines that a command on header pictures prints once its work is done:
/// none when it went well, else the cause behind a prefix that names the
/// command.
pub fn handle_header_command(subcmd: &HeaderSubCommand, outcome: &Result<(), String>) -> (lines:
    Vec<String>)
    ensures
        lines.deep_view() == match *outcome {
            Ok(_) => Seq::<Seq<char>>::empty(),
            Err(cause) => seq![header_complaint_prefix(*subcmd) + cause@],
        },
{
    let mut lines: Vec<String> = Vec::new();
    if let Err(cause) = outcome {
        let prefix = match subcmd {
            HeaderSubCommand::Choose { .. } => "Error while selecting the header: ",
            HeaderSubCommand::Fetch { .. } => "Error while fetching new posts: ",
            HeaderSubCommand::List => "Error while displaying candidate pictures: ",
        };
        let mut line = prefix.to_owned();
        line.append(cause.as_str());
        lines.push(line);
    }
    lines
}

} // verus!
