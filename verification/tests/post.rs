use blog::plan::{Action, Failure, Fault, Plan, Step};
use blog::post::{Metadata, Post, PostFiles, Timestamp};
use chrono::{Datelike, Utc};

#[test]
pub fn test_add_keyword() {
    let mut post = Post::new("Test post");

    // Test adding a keyword
    let result = post.metadata.opengraph.add_keyword("test".to_string());
    assert!(result.is_ok());
    assert_eq!(post.metadata.opengraph.keywords, vec!["test".to_string()]);

    // Test inserting the same keyword again
    let result = post.metadata.opengraph.add_keyword("test".to_string());
    assert!(result.is_err());
    assert_eq!(post.metadata.opengraph.keywords, vec!["test".to_string()]);

    // Test adding another keyword
    let result = post.metadata.opengraph.add_keyword("another".to_string());
    assert!(result.is_ok());
    assert_eq!(
        post.metadata.opengraph.keywords,
        vec!["test".to_string(), "another".to_string()]
    );
}

#[test]
pub fn test_remove_keyword() {
    let mut post = Post::new("Test post");

    // Test adding a keyword
    let result = post.metadata.opengraph.add_keyword("test".to_string());
    assert!(result.is_ok());
    assert_eq!(post.metadata.opengraph.keywords, vec!["test".to_string()]);

    // Test removing a keyword that is not there
    let result = post.metadata.opengraph.remove_keyword("idontexist");
    assert!(result.is_err());
    assert_eq!(post.metadata.opengraph.keywords, vec!["test".to_string()]);

    // Test removing the keyword
    let result = post.metadata.opengraph.remove_keyword("test");
    assert!(result.is_ok());
    let expected: Vec<String> = Vec::new();
    assert_eq!(post.metadata.opengraph.keywords, expected);
}

#[test]
pub fn test_add_tag() {
    let mut post = Post::new("Test post");

    // Test adding a tag
    let result = post.metadata.post.add_tag("test".to_string());
    assert!(result.is_ok());
    assert_eq!(post.metadata.post.tags, vec!["test".to_string()]);

    // Test inserting the same tag again
    let result = post.metadata.post.add_tag("test".to_string());
    assert!(result.is_err());
    assert_eq!(post.metadata.post.tags, vec!["test".to_string()]);

    // Test adding another tag
    let result = post.metadata.post.add_tag("another".to_string());
    assert!(result.is_ok());
    assert_eq!(
        post.metadata.post.tags,
        vec!["test".to_string(), "another".to_string()]
    );
}

#[test]
pub fn test_remove_tag() {
    let mut post = Post::new("Test post");

    // Test adding a tag
    let result = post.metadata.post.add_tag("test".to_string());
    assert!(result.is_ok());
    assert_eq!(post.metadata.post.tags, vec!["test".to_string()]);

    // Test removing a tag that is not there
    let result = post.metadata.post.remove_tag("idontexist");
    assert!(result.is_err());
    assert_eq!(post.metadata.post.tags, vec!["test".to_string()]);

    // Test removing the tag
    let result = post.metadata.post.remove_tag("test");
    assert!(result.is_ok());
    let expected: Vec<String> = Vec::new();
    assert_eq!(post.metadata.post.tags, expected);
}

#[test]
pub fn test_post_path() {
    let timestamp = Utc::now();

    let post = Post::new("Test");
    let path = std::path::Path::new(&post.path);
    assert!(path.to_str().is_some());
    assert!(path
        .to_str()
        .unwrap()
        .contains(&format!("{:04}", timestamp.year())));
    assert!(path
        .to_str()
        .unwrap()
        .contains(&format!("{:02}", timestamp.month())));
    assert!(path.ends_with("test"));
}

#[test]
fn new_post_starts_with_a_heading_and_only_a_title() {
    let post = Post::new("Test post");
    assert_eq!(post.content, "# Test post");
    assert_eq!(post.metadata.post.title, "Test post");
    assert_eq!(post.metadata.post.author, "");
    assert_eq!(post.metadata.post.published_date, None);
    assert_eq!(post.metadata.post.update, None);
    assert!(post.metadata.post.tags.is_empty());
    assert!(post.metadata.opengraph.keywords.is_empty());
    assert_eq!(post.metadata.opengraph.short, "");
    assert_eq!(post.metadata.opengraph.opengraphimage, "");
    assert_eq!(post.metadata.opengraph.description, "");
}

#[test]
fn new_post_path_is_year_month_and_slug() {
    let before = Utc::now();
    let post = Post::new("Hello, World!");
    let after = Utc::now();
    let early = format!("{:04}/{:02}/hello-world", before.year(), before.month());
    let late = format!("{:04}/{:02}/hello-world", after.year(), after.month());
    assert!(post.path == early || post.path == late);
}

#[test]
fn new_post_slug_strips_accents_and_punctuation() {
    let post = Post::new("  Æúű--cool?  ");
    assert!(post.path.ends_with("/aeuu-cool"));
    assert_eq!(post.content, "#   Æúű--cool?  ");
}

#[test]
fn post_at_formats_the_date() {
    let post = Post::at("Test post", 2024, 5, "test-post");
    assert_eq!(post.path, "2024/05/test-post");
    assert_eq!(post.content, "# Test post");
    assert_eq!(post.metadata, Metadata::default().with_title("Test post"));

    assert_eq!(Post::at("t", 2024, 12, "t").path, "2024/12/t");
    assert_eq!(Post::at("t", 987, 1, "t").path, "0987/01/t");
    assert_eq!(Post::at("t", 12345, 10, "t").path, "12345/10/t");
    assert_eq!(Post::at("t", 0, 0, "").path, "0000/00/");
    assert_eq!(Post::at("t", -5, 3, "t").path, "-005/03/t");
    assert_eq!(Post::at("t", -5, 3, "t").path, format!("{:04}/{:02}/t", -5, 3));
    assert_eq!(
        Post::at("t", i32::MIN, u32::MAX, "t").path,
        format!("{:04}/{:02}/t", i32::MIN, u32::MAX)
    );
}

#[test]
fn default_metadata_is_empty() {
    let metadata = Metadata::default();
    assert_eq!(metadata.post.title, "");
    assert_eq!(metadata.post.author, "");
    assert_eq!(metadata.post.published_date, None);
    assert_eq!(metadata.post.update, None);
    assert!(metadata.post.tags.is_empty());
    assert_eq!(metadata.opengraph.short, "");
    assert!(metadata.opengraph.keywords.is_empty());
}

#[test]
fn with_title_changes_only_the_title() {
    let mut metadata = Metadata::default();
    metadata.post.author = "me".to_string();
    metadata.post.tags.push("a".to_string());
    metadata.opengraph.keywords.push("k".to_string());
    let metadata = metadata.with_title("New");
    assert_eq!(metadata.post.title, "New");
    assert_eq!(metadata.post.author, "me");
    assert_eq!(metadata.post.tags, vec!["a".to_string()]);
    assert_eq!(metadata.opengraph.keywords, vec!["k".to_string()]);
}

#[test]
fn load_missing_post_is_not_found() {
    let result = Post::load("2024/05/nothing".to_string(), PostFiles::Missing);
    assert_eq!(result, Err("Blog post does not exist".to_string()));
}

#[test]
fn load_reports_the_first_failure() {
    let result = Post::load(
        "p".to_string(),
        PostFiles::ContentUnreadable { cause: "stream did not contain valid UTF-8".to_string() },
    );
    assert_eq!(
        result,
        Err("Failed to read content file: stream did not contain valid UTF-8".to_string())
    );
    let result = Post::load(
        "p".to_string(),
        PostFiles::MetadataUnreadable { cause: "No such file or directory".to_string() },
    );
    assert_eq!(
        result,
        Err("Failed to read metadata file: No such file or directory".to_string())
    );
    let result =
        Post::load("p".to_string(), PostFiles::MetadataInvalid { cause: "bad".to_string() });
    assert_eq!(result, Err("Failed to parse metadata file: bad".to_string()));
}

#[test]
fn load_takes_content_and_metadata_together() {
    let mut metadata = Metadata::default().with_title("Kept");
    metadata.post.tags.push("one".to_string());
    let result = Post::load(
        "2024/05/kept".to_string(),
        PostFiles::Read { content: "# Kept\n\nbody".to_string(), metadata },
    );
    let post = result.unwrap();
    assert_eq!(post.path, "2024/05/kept");
    assert_eq!(post.content, "# Kept\n\nbody");
    assert_eq!(post.metadata.post.title, "Kept");
    assert_eq!(post.metadata.post.tags, vec!["one".to_string()]);
}

#[test]
fn load_of_empty_metadata_has_defaults() {
    let post = Post::load(
        "p".to_string(),
        PostFiles::Read { content: String::new(), metadata: Metadata::default() },
    )
    .unwrap();
    assert_eq!(post.metadata, Metadata::default());
    assert_eq!(post.content, "");
}

fn saved(path: &str, content: &str) -> Vec<Step> {
    vec![
        Step::EnsureDirectory { path: path.to_string() },
        Step::EnsureDirectory { path: format!("{path}/images") },
        Step::WriteContent { path: format!("{path}/content.md"), text: content.to_string() },
        Step::WriteMetadata { path: format!("{path}/metadata.toml") },
    ]
}

#[test]
fn save_plans_directories_then_files() {
    let post = Post::at("Test post", 2024, 5, "test-post");
    let plan = post.save();
    assert_eq!(
        plan,
        Plan { steps: saved("2024/05/test-post", "# Test post"), outcome: Ok(()) }
    );
}

#[test]
fn save_then_load_gives_the_post_back() {
    let mut post = Post::at("Round trip", 2023, 11, "round-trip");
    post.metadata.post.add_tag("a".to_string()).unwrap();
    post.metadata.opengraph.add_keyword("k".to_string()).unwrap();
    post.metadata.post.update = Some(Timestamp { seconds: 5, nanoseconds: 6 });
    let plan = post.save();
    let written = match &plan.steps[2] {
        Step::WriteContent { text, .. } => text.clone(),
        other => panic!("unexpected step {other:?}"),
    };
    let Post { content, path, metadata } = post;
    assert_eq!(written, content);
    let again = Post::load(path.clone(), PostFiles::Read { content: written, metadata }).unwrap();
    assert_eq!(again.path, path);
    assert_eq!(again.content, content);
    assert_eq!(again.metadata.post.tags, vec!["a".to_string()]);
    assert_eq!(again.metadata.opengraph.keywords, vec!["k".to_string()]);
    assert_eq!(again.metadata.post.update, Some(Timestamp { seconds: 5, nanoseconds: 6 }));
}

#[test]
fn save_with_trailing_separator_adds_none() {
    let post = Post::load(
        "posts/first/".to_string(),
        PostFiles::Read { content: "x".to_string(), metadata: Metadata::default() },
    )
    .unwrap();
    let plan = post.save();
    assert_eq!(
        plan.steps,
        vec![
            Step::EnsureDirectory { path: "posts/first/".to_string() },
            Step::EnsureDirectory { path: "posts/first/images".to_string() },
            Step::WriteContent {
                path: "posts/first/content.md".to_string(),
                text: "x".to_string()
            },
            Step::WriteMetadata { path: "posts/first/metadata.toml".to_string() },
        ]
    );
}

#[test]
fn build_from_stamps_and_plans_the_output() {
    let mut post = Post::at("Test post", 2024, 5, "test-post");
    let now = Timestamp { seconds: 1_700_000_000, nanoseconds: 42 };
    let plan = post.build_from(now, Ok("<h1>Test post</h1>".to_string()));
    assert_eq!(post.metadata.post.update, Some(now));
    assert_eq!(post.metadata.post.title, "Test post");
    assert_eq!(post.content, "# Test post");
    assert_eq!(post.path, "2024/05/test-post");
    let mut steps = saved("2024/05/test-post", "# Test post");
    steps.push(Step::EnsureDirectory { path: "2024/05/test-post/dist/".to_string() });
    steps.push(Step::WritePage {
        path: "2024/05/test-post/dist/index.html".to_string(),
        html: "<h1>Test post</h1>".to_string(),
    });
    steps.push(Step::CopyImages {
        from: "2024/05/test-post/images".to_string(),
        to: "2024/05/test-post/dist/images".to_string(),
    });
    assert_eq!(plan, Plan { steps, outcome: Ok(()) });
}

#[test]
fn build_from_failed_rendering_still_saves() {
    let mut post = Post::at("Test post", 2024, 5, "test-post");
    let now = Timestamp { seconds: 1, nanoseconds: 2 };
    let plan = post.build_from(now, Err("1:1: bad (x:y)".to_string()));
    assert_eq!(post.metadata.post.update, Some(now));
    let mut steps = saved("2024/05/test-post", "# Test post");
    steps.push(Step::EnsureDirectory { path: "2024/05/test-post/dist/".to_string() });
    assert_eq!(plan, Plan { steps, outcome: Err("1:1: bad (x:y)".to_string()) });
}

#[test]
fn build_renders_github_flavoured_markdown() {
    let mut post = Post::at("Test post", 2024, 5, "test-post");
    post.content = "# Test post\n\n~gone~ www.example.com\n\n| a |\n| - |\n| b |\n".to_string();
    let before = Utc::now();
    let plan = post.build();
    let after = Utc::now();
    assert_eq!(plan.outcome, Ok(()));
    assert_eq!(plan.steps.len(), 7);
    let html = match &plan.steps[5] {
        Step::WritePage { path, html } => {
            assert_eq!(path, "2024/05/test-post/dist/index.html");
            html.clone()
        }
        other => panic!("unexpected step {other:?}"),
    };
    assert_ne!(html, post.content);
    assert!(html.starts_with("<h1>Test post</h1>"));
    assert!(html.contains("<del>gone</del>"));
    assert!(html.contains("<a href=\"http://www.example.com\">www.example.com</a>"));
    assert!(html.contains("<table>"));
    let stamp = post.metadata.post.update.unwrap();
    assert!(before.timestamp() <= stamp.seconds && stamp.seconds <= after.timestamp());
    assert!(stamp.nanoseconds < 2_000_000_000);
}

#[test]
fn build_of_plain_heading_is_exact() {
    let mut post = Post::at("Hi Mercury!", 2024, 5, "hi-mercury");
    let plan = post.build();
    assert_eq!(
        plan.steps[5],
        Step::WritePage {
            path: "2024/05/hi-mercury/dist/index.html".to_string(),
            html: "<h1>Hi Mercury!</h1>".to_string()
        }
    );
}

#[test]
fn publish_is_not_implemented() {
    let mut post = Post::at("Test post", 2024, 5, "test-post");
    post.metadata.post.add_tag("a".to_string()).unwrap();
    assert_eq!(post.publish(), Err("Not implemented".to_string()));
    assert_eq!(post.path, "2024/05/test-post");
    assert_eq!(post.content, "# Test post");
    assert_eq!(post.metadata.post.tags, vec!["a".to_string()]);
}

#[test]
fn step_failures_name_the_step() {
    let p = || "p".to_string();
    let cases = vec![
        (Step::EnsureDirectory { path: p() }, "Failed to create directory: denied"),
        (Step::WriteContent { path: p(), text: p() }, "Failed to write content file: denied"),
        (Step::WriteMetadata { path: p() }, "Failed to write metadata file: denied"),
        (Step::WritePage { path: p(), html: p() }, "Failed to write output file: denied"),
        (Step::CopyImages { from: p(), to: p() }, "Failed to copy images folder: denied"),
        (Step::CopyFile { from: p(), to: p() }, "denied"),
        (Step::Download { url: p(), to: p() }, "denied"),
        (
            Step::Search { endpoint: p(), authorization: p(), query: p(), per_page: p() },
            "denied",
        ),
        (Step::WriteSidecar { path: p(), picture: 0 }, "denied"),
        (Step::Warn { message: p() }, "denied"),
    ];
    for (step, expected) in cases {
        assert_eq!(step.failure(Fault::Transfer, "denied"), expected);
    }
    assert_eq!(
        Step::WriteMetadata { path: p() }.failure(Fault::Encoding, "unsupported"),
        "Failed to serialize metadata: unsupported"
    );
    assert_eq!(
        Step::WriteSidecar { path: p(), picture: 3 }.failure(Fault::Encoding, "unsupported"),
        "unsupported"
    );
    assert_eq!(
        Step::WriteContent { path: p(), text: p() }.failure(Fault::Encoding, ""),
        "Failed to write content file: "
    );
}

fn denied() -> Option<Result<(), Failure>> {
    Some(Err(Failure { fault: Fault::Transfer, cause: "denied".to_string() }))
}

#[test]
fn plan_hands_out_every_step_then_its_outcome() {
    let plan = Post::at("T", 2024, 5, "t").save();
    assert_eq!(plan.advance(0, None), (1, Action::Perform { step: 0 }));
    assert_eq!(plan.advance(1, Some(Ok(()))), (2, Action::Perform { step: 1 }));
    assert_eq!(plan.advance(2, Some(Ok(()))), (3, Action::Perform { step: 2 }));
    assert_eq!(plan.advance(3, Some(Ok(()))), (4, Action::Perform { step: 3 }));
    assert_eq!(plan.advance(4, Some(Ok(()))), (4, Action::Finish { result: Ok(()) }));
}

#[test]
fn plan_ends_at_the_first_failure() {
    let plan = Post::at("T", 2024, 5, "t").save();
    assert_eq!(
        plan.advance(1, denied()),
        (1, Action::Finish { result: Err("Failed to create directory: denied".to_string()) })
    );
    assert_eq!(
        plan.advance(3, denied()),
        (3, Action::Finish { result: Err("Failed to write content file: denied".to_string()) })
    );
    assert_eq!(
        plan.advance(
            4,
            Some(Err(Failure { fault: Fault::Encoding, cause: "no".to_string() }))
        ),
        (4, Action::Finish { result: Err("Failed to serialize metadata: no".to_string()) })
    );
    assert_eq!(
        plan.advance(0, denied()),
        (0, Action::Finish { result: Err("denied".to_string()) })
    );
    assert_eq!(
        plan.advance(9, denied()),
        (9, Action::Finish { result: Err("denied".to_string()) })
    );
}

#[test]
fn empty_plan_ends_with_its_outcome_at_once() {
    let plan = Plan { steps: vec![], outcome: Err("no".to_string()) };
    assert_eq!(plan.advance(0, None), (0, Action::Finish { result: Err("no".to_string()) }));
    let plan = Plan { steps: vec![], outcome: Ok(()) };
    assert_eq!(plan.advance(0, None), (0, Action::Finish { result: Ok(()) }));
}

#[test]
fn plan_with_a_failing_outcome_performs_its_steps_first() {
    let mut post = Post::at("T", 2024, 5, "t");
    let plan = post.build_from(Timestamp { seconds: 0, nanoseconds: 0 }, Err("bad".to_string()));
    assert_eq!(plan.steps.len(), 5);
    assert_eq!(plan.advance(4, Some(Ok(()))), (5, Action::Perform { step: 4 }));
    assert_eq!(
        plan.advance(5, Some(Ok(()))),
        (5, Action::Finish { result: Err("bad".to_string()) })
    );
}
