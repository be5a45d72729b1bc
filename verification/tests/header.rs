use blog::header::{
    get_new_candidates, is_sidecar_name, search_request, CandidatePlan, Listing, PexelPicture,
    SearchResponse,
};
use blog::plan::{Plan, Step};
use blog::post::{Metadata, Post};

fn picture(photographer: &str, landscape: Option<&str>) -> PexelPicture {
    let mut picture = PexelPicture::new(
        640,
        480,
        format!("https://pictures.example/{photographer}"),
        photographer.to_string(),
        format!("https://people.example/{photographer}"),
        Some(format!("by {photographer}")),
    );
    picture.set_source("original".to_string(), format!("https://img.example/{photographer}.jpg"));
    if let Some(url) = landscape {
        picture.set_source("landscape".to_string(), url.to_string());
    }
    picture
}

#[test]
fn header_path_is_below_images() {
    assert_eq!(Metadata::header_path("2024/05/test"), "2024/05/test/images/header");
    assert_eq!(Metadata::header_path("2024/05/test/"), "2024/05/test/images/header");
    assert_eq!(Metadata::header_path(""), "images/header");
}

#[test]
fn header_files_have_fixed_names() {
    assert_eq!(Metadata::candidates_path("p"), "p/images/header/candidates");
    assert_eq!(Metadata::candidate_picture("p", 3), "p/images/header/candidates/header_3.jpg");
    assert_eq!(
        Metadata::candidate_descriptor("p", 12),
        "p/images/header/candidates/header_12.toml"
    );
    assert_eq!(Metadata::header_picture("p"), "p/images/header/header.jpg");
}

#[test]
fn header_exists_names_the_file() {
    assert_eq!(
        Metadata::header_exists("2024/05/test", true),
        Some("2024/05/test/images/header/header.jpg".to_string())
    );
    assert_eq!(Metadata::header_exists("2024/05/test", false), None);
}

#[test]
fn sources_are_found_by_size() {
    let picture = picture("ann", Some("https://img.example/ann-wide.jpg"));
    assert_eq!(picture.source("landscape"), Some(&"https://img.example/ann-wide.jpg".to_string()));
    assert_eq!(picture.source("original"), Some(&"https://img.example/ann.jpg".to_string()));
    assert_eq!(picture.source("portrait"), None);
    assert_eq!(picture.source("Landscape"), None);
}

#[test]
fn set_source_replaces_in_place() {
    let mut picture = picture("ann", Some("first"));
    picture.set_source("original".to_string(), "second".to_string());
    assert_eq!(
        picture.src,
        vec![
            ("original".to_string(), "second".to_string()),
            ("landscape".to_string(), "first".to_string()),
        ]
    );
    picture.set_source("tiny".to_string(), "third".to_string());
    assert_eq!(picture.src.len(), 3);
    assert_eq!(picture.source("tiny"), Some(&"third".to_string()));
    assert_eq!(picture.source("landscape"), Some(&"first".to_string()));
    assert_eq!(picture.width, 640);
    assert_eq!(picture.height, 480);
    assert_eq!(picture.photographer, "ann");
}

#[test]
fn summary_shows_photographer_page_and_description() {
    let mut picture = picture("ann", None);
    assert_eq!(picture.summary(), "Picture by ann - https://pictures.example/ann `by ann`");
    picture.alt = None;
    assert_eq!(picture.summary(), "Picture by ann - https://pictures.example/ann ``");
}

#[test]
fn fetch_without_keywords_asks_for_nothing() {
    let post = Post::at("Test post", 2024, 5, "test-post");
    let expected = Plan {
        steps: vec![],
        outcome: Err(
            "Unable to fetch image for the blog post; The post has no keyword".to_string(),
        ),
    };
    assert_eq!(
        post.metadata.fetch_new_header_images(&post.path, 3, Some("key".to_string())),
        expected
    );
    assert_eq!(post.metadata.fetch_new_header_images(&post.path, 3, None), expected);
}

#[test]
fn fetch_without_key_asks_for_nothing() {
    let mut post = Post::at("Test post", 2024, 5, "test-post");
    post.metadata.opengraph.add_keyword("sea".to_string()).unwrap();
    let expected = Plan { steps: vec![], outcome: Err("Missing PEXEL_API_KEY".to_string()) };
    assert_eq!(post.metadata.fetch_new_header_images(&post.path, 3, None), expected);
    assert_eq!(search_request("h", &vec!["sea".to_string()], 3, None), expected);
}

#[test]
fn fetch_plans_the_search() {
    let mut post = Post::at("Test post", 2024, 5, "test-post");
    post.metadata.opengraph.add_keyword("sea".to_string()).unwrap();
    post.metadata.opengraph.add_keyword("blue sky".to_string()).unwrap();
    let plan =
        post.metadata.fetch_new_header_images(&post.path, 15, Some("secret".to_string()));
    assert_eq!(
        plan,
        Plan {
            steps: vec![
                Step::EnsureDirectory {
                    path: "2024/05/test-post/images/header/candidates".to_string()
                },
                Step::Search {
                    endpoint: "https://api.pexels.com/v1/search".to_string(),
                    authorization: "secret".to_string(),
                    query: "sea, blue sky".to_string(),
                    per_page: "15".to_string(),
                },
            ],
            outcome: Ok(()),
        }
    );
}

#[test]
fn search_with_one_keyword_and_no_amount() {
    let plan = search_request("h", &vec!["sea".to_string()], 0, Some("k".to_string()));
    assert_eq!(
        plan.steps,
        vec![
            Step::EnsureDirectory { path: "h/candidates".to_string() },
            Step::Search {
                endpoint: "https://api.pexels.com/v1/search".to_string(),
                authorization: "k".to_string(),
                query: "sea".to_string(),
                per_page: "0".to_string(),
            },
        ]
    );
    assert_eq!(plan.outcome, Ok(()));
}

#[test]
fn refused_search_fails_with_the_body() {
    let plan = get_new_candidates(
        "p/images/header",
        &SearchResponse::Refused { body: "{\"error\":\"quota\"}".to_string() },
    );
    assert_eq!(
        plan,
        CandidatePlan {
            plan: Plan {
                steps: vec![],
                outcome: Err("Failed to fetch image: {\"error\":\"quota\"}".to_string()),
            },
            images: vec![],
        }
    );
}

#[test]
fn empty_answer_fetches_nothing() {
    let plan = get_new_candidates("p/images/header", &SearchResponse::Found { photos: vec![] });
    assert_eq!(
        plan,
        CandidatePlan { plan: Plan { steps: vec![], outcome: Ok(()) }, images: vec![] }
    );
}

#[test]
fn candidates_are_numbered_from_one() {
    let photos = vec![picture("ann", Some("https://img.example/1")), picture("bob", Some("https://img.example/2"))];
    let plan = get_new_candidates("p/images/header", &SearchResponse::Found { photos });
    assert_eq!(
        plan,
        CandidatePlan {
            plan: Plan {
                steps: vec![
                    Step::Download {
                        url: "https://img.example/1".to_string(),
                        to: "p/images/header/candidates/header_1.jpg".to_string(),
                    },
                    Step::WriteSidecar {
                        path: "p/images/header/candidates/header_1.toml".to_string(),
                        picture: 0,
                    },
                    Step::Download {
                        url: "https://img.example/2".to_string(),
                        to: "p/images/header/candidates/header_2.jpg".to_string(),
                    },
                    Step::WriteSidecar {
                        path: "p/images/header/candidates/header_2.toml".to_string(),
                        picture: 1,
                    },
                ],
                outcome: Ok(()),
            },
            images: vec![
                "p/images/header/candidates/header_1.jpg".to_string(),
                "p/images/header/candidates/header_2.jpg".to_string(),
            ],
        }
    );
}

#[test]
fn picture_without_landscape_ends_the_fetch() {
    let photos = vec![
        picture("ann", Some("https://img.example/1")),
        picture("bob", None),
        picture("cy", Some("https://img.example/3")),
    ];
    let plan = get_new_candidates("h", &SearchResponse::Found { photos });
    assert_eq!(
        plan,
        CandidatePlan {
            plan: Plan {
                steps: vec![
                    Step::Download {
                        url: "https://img.example/1".to_string(),
                        to: "h/candidates/header_1.jpg".to_string(),
                    },
                    Step::WriteSidecar {
                        path: "h/candidates/header_1.toml".to_string(),
                        picture: 0
                    },
                ],
                outcome: Err("Unable to retreive landscape image from pexel picture".to_string()),
            },
            images: vec!["h/candidates/header_1.jpg".to_string()],
        }
    );
    let plan =
        get_new_candidates("h", &SearchResponse::Found { photos: vec![picture("bob", None)] });
    assert_eq!(
        plan,
        CandidatePlan {
            plan: Plan {
                steps: vec![],
                outcome: Err("Unable to retreive landscape image from pexel picture".to_string()),
            },
            images: vec![],
        }
    );
}

#[test]
fn tenth_candidate_has_two_digits() {
    let photos: Vec<PexelPicture> =
        (0..11).map(|i| picture("ann", Some(&format!("u{i}")))).collect();
    let plan = get_new_candidates("h", &SearchResponse::Found { photos });
    assert_eq!(plan.plan.steps.len(), 22);
    assert_eq!(
        plan.plan.steps[18],
        Step::Download { url: "u9".to_string(), to: "h/candidates/header_10.jpg".to_string() }
    );
    assert_eq!(
        plan.plan.steps[21],
        Step::WriteSidecar { path: "h/candidates/header_11.toml".to_string(), picture: 10 }
    );
    assert_eq!(plan.plan.outcome, Ok(()));
    assert_eq!(plan.images.len(), 11);
    assert_eq!(plan.images[10], "h/candidates/header_11.jpg");
}

#[test]
fn sidecar_names_end_in_toml() {
    assert!(is_sidecar_name("header_1.toml"));
    assert!(is_sidecar_name("a.toml"));
    assert!(is_sidecar_name("..toml"));
    assert!(is_sidecar_name("header.jpg.toml"));
    assert!(!is_sidecar_name("header_1.jpg"));
    assert!(!is_sidecar_name(".toml"));
    assert!(!is_sidecar_name("toml"));
    assert!(!is_sidecar_name(""));
    assert!(!is_sidecar_name("header_1.TOML"));
    assert!(!is_sidecar_name("header_1.toml "));
    assert!(!is_sidecar_name("header_1_toml"));
    for name in ["header_1.toml", "a.toml", "..toml", ".toml", "toml", "x.jpg", "é.toml"] {
        let expected = std::path::Path::new(name).extension().is_some_and(|e| e == "toml");
        assert_eq!(is_sidecar_name(name), expected);
    }
}

#[test]
fn listing_numbers_the_candidates_as_met() {
    let entries = vec![Ok(picture("ann", None)), Ok(picture("bob", None))];
    assert_eq!(
        Metadata::list_header_candidates(&entries),
        Listing {
            lines: vec![
                "1 - Picture by ann - https://pictures.example/ann `by ann`".to_string(),
                "2 - Picture by bob - https://pictures.example/bob `by bob`".to_string(),
            ],
            outcome: Ok(()),
        }
    );
    assert_eq!(
        Metadata::list_header_candidates(&vec![]),
        Listing { lines: vec![], outcome: Ok(()) }
    );
}

#[test]
fn listing_ends_at_the_first_unreadable_descriptor() {
    let entries = vec![
        Ok(picture("ann", None)),
        Err("missing field `width`".to_string()),
        Ok(picture("bob", None)),
        Err("later".to_string()),
    ];
    assert_eq!(
        Metadata::list_header_candidates(&entries),
        Listing {
            lines: vec!["1 - Picture by ann - https://pictures.example/ann `by ann`".to_string()],
            outcome: Err("missing field `width`".to_string()),
        }
    );
}

#[test]
fn choose_copies_picture_and_descriptor() {
    let plan = Metadata::choose_header("2024/05/test", 2, false, true, true);
    assert_eq!(
        plan,
        Plan {
            steps: vec![
                Step::CopyFile {
                    from: "2024/05/test/images/header/candidates/header_2.jpg".to_string(),
                    to: "2024/05/test/images/header/header.jpg".to_string(),
                },
                Step::CopyFile {
                    from: "2024/05/test/images/header/candidates/header_2.toml".to_string(),
                    to: "2024/05/test/images/header/header.toml".to_string(),
                },
            ],
            outcome: Ok(()),
        }
    );
}

#[test]
fn choose_over_a_chosen_header_warns_first() {
    let plan = Metadata::choose_header("p", 1, true, true, true);
    assert_eq!(plan.outcome, Ok(()));
    assert_eq!(plan.steps.len(), 3);
    assert_eq!(
        plan.steps[0],
        Step::Warn {
            message: "A header file has already been selected, it will be overwritten".to_string()
        }
    );
    assert_eq!(
        plan.steps[1],
        Step::CopyFile {
            from: "p/images/header/candidates/header_1.jpg".to_string(),
            to: "p/images/header/header.jpg".to_string(),
        }
    );
}

#[test]
fn choose_missing_candidate_copies_nothing() {
    let plan = Metadata::choose_header("p", 7, false, false, true);
    assert_eq!(
        plan,
        Plan {
            steps: vec![],
            outcome: Err("No candidate header with the id 7 could be found".to_string()),
        }
    );
    let plan = Metadata::choose_header("p", 7, false, false, false);
    assert_eq!(
        plan.outcome,
        Err("No candidate header with the id 7 could be found".to_string())
    );
    assert!(plan.steps.is_empty());
    let plan = Metadata::choose_header("p", 0, true, false, true);
    assert_eq!(
        plan,
        Plan {
            steps: vec![Step::Warn {
                message: "A header file has already been selected, it will be overwritten"
                    .to_string()
            }],
            outcome: Err("No candidate header with the id 0 could be found".to_string()),
        }
    );
}

#[test]
fn choose_missing_descriptor_copies_nothing() {
    let plan = Metadata::choose_header("p", 12, false, true, false);
    assert_eq!(
        plan,
        Plan {
            steps: vec![],
            outcome: Err(
                "The metadata file for candidate header 12 could not be found".to_string()
            ),
        }
    );
}
