//! Header pictures: the candidates that an image search proposes for a post,
//! and the one that is chosen among them.
//!
//! Below the directory of a post, `images/header` holds the chosen picture as
//! `header.jpg` with its descriptor `header.toml`, and `candidates` below it
//! holds `header_1.jpg`, `header_1.toml`, `header_2.jpg` and so on.

use vstd::prelude::*;

use crate::plan::{outcome_view, Plan, PlanView, Step, StepView};
use crate::post::Metadata;
use crate::text::{child_path, decimal, join, join_path, joined, to_decimal};

verus! {

/// A picture as the image search describes it. The descriptor is written
/// beside each picture that is fetched.
#[derive(Debug, PartialEq, Eq)]
pub struct PexelPicture {
    pub width: usize,
    pub height: usize,
    /// The page of the picture.
    pub url: String,
    pub photographer: String,
    pub photographer_url: String,
    /// The address of the picture in each size that is offered, by the name of
    /// the size. A name stands for one address.
    pub src: Vec<(String, String)>,
    pub alt: Option<String>,
}

/// [`PexelPicture`] as a mathematical value.
pub struct PexelPictureView {
    pub width: nat,
    pub height: nat,
    pub url: Seq<char>,
    pub photographer: Seq<char>,
    pub photographer_url: Seq<char>,
    pub src: Seq<(Seq<char>, Seq<char>)>,
    pub alt: Option<Seq<char>>,
}

impl View for PexelPicture {
    type V = PexelPictureView;

    open spec fn view(&self) -> PexelPictureView {
        PexelPictureView {
            width: self.width as nat,
            height: self.height as nat,
            url: self.url@,
            photographer: self.photographer@,
            photographer_url: self.photographer_url@,
            src: self.src.deep_view(),
            alt: self.alt.deep_view(),
        }
    }
}

impl DeepView for PexelPicture {
    type V = PexelPictureView;

    open spec fn deep_view(&self) -> PexelPictureView {
        self@
    }
}

/// The names of the sizes, in the order of the entries.
pub open spec fn size_names(src: Seq<(Seq<char>, Seq<char>)>) -> Seq<Seq<char>> {
    Seq::new(src.len(), |i: int| src[i].0)
}

/// The address that stands under a size: that of the first entry with this
/// name.
pub open spec fn source_url(src: Seq<(Seq<char>, Seq<char>)>, size: Seq<char>) -> Option<
    Seq<char>,
> {
    match size_names(src).index_of_first(size) {
        Some(index) => Some(src[index].1),
        None => None,
    }
}

/// The entries after `size` has been given the address `url`: the entry of
/// that name is replaced where it stands, or a new entry comes last.
pub open spec fn with_source(
    src: Seq<(Seq<char>, Seq<char>)>,
    size: Seq<char>,
    url: Seq<char>,
) -> Seq<(Seq<char>, Seq<char>)> {
    match size_names(src).index_of_first(size) {
        Some(index) => src.update(index, (size, url)),
        None => src.push((size, url)),
    }
}

/// The one line that presents a picture: who took it, its page, and its
/// description between backticks (nothing between them when it has none).
pub open spec fn summary_text(picture: PexelPictureView) -> Seq<char> {
    "Picture by "@ + picture.photographer + " - "@ + picture.url + " `"@ + (match picture.alt {
        Some(alt) => alt,
        None => Seq::empty(),
    }) + "`"@
}

impl PexelPicture {
    /// No size is named twice.
    pub open spec fn wf(&self) -> bool {
        size_names(self@.src).no_duplicates()
    }

    /// A picture that is offered in no size yet.
    pub fn new(
        width: usize,
        height: usize,
        url: String,
        photographer: String,
        photographer_url: String,
        alt: Option<String>,
    ) -> (r: PexelPicture)
        ensures
            r@ == (PexelPictureView {
                width: width as nat,
                height: height as nat,
                url: url@,
                photographer: photographer@,
                photographer_url: photographer_url@,
                src: Seq::empty(),
                alt: alt.deep_view(),
            }),
            r.wf(),
    {
        let r = PexelPicture {
            width,
            height,
            url,
            photographer,
            photographer_url,
            src: Vec::new(),
            alt,
        };
        assert(r.src.deep_view() =~= Seq::<(Seq<char>, Seq<char>)>::empty());
        r
    }

    /// Where the entry for a size stands.
    fn size_position(&self, size: &str) -> (r: Option<usize>)
        ensures
            match r {
                Some(index) => {
                    &&& index < self.src.len()
                    &&& size_names(self@.src).index_of_first(size@) == Some(index as int)
                },
                None => size_names(self@.src).index_of_first(size@) is None,
            },
    {
        let wanted = size.to_owned();
        let ghost names = size_names(self@.src);
        let mut index: usize = 0;
        while index < self.src.len()
            invariant
                index <= self.src.len(),
                names == size_names(self@.src),
                names.len() == self.src.len(),
                wanted@ == size@,
                forall|i: int| 0 <= i < index ==> names[i] != size@,
            decreases self.src.len() - index,
        {
            if self.src[index].0 == wanted {
                proof {
                    assert(names[index as int] == size@);
                    names.index_of_first_ensures(size@);
                }
                return Some(index);
            }
            index = index + 1;
        }
        proof {
            names.index_of_first_ensures(size@);
        }
        None
    }

    /// The address of the picture in the given size, if it is offered in it.
    pub fn source(&self, size: &str) -> (r: Option<&String>)
        ensures
            match r {
                Some(url) => source_url(self@.src, size@) == Some(url@),
                None => source_url(self@.src, size@) is None,
            },
    {
        match self.size_position(size) {
            Some(index) => Some(&self.src[index].1),
            None => None,
        }
    }

    /// Gives the picture an address for a size, in place of the one that it
    /// had for that size, if any.
    pub fn set_source(&mut self, size: String, url: String)
        ensures
            final(self)@ == (PexelPictureView {
                src: with_source(old(self)@.src, size@, url@),
                ..old(self)@
            }),
            old(self).wf() ==> final(self).wf(),
    {
        let ghost before = self@.src;
        match self.size_position(size.as_str()) {
            Some(index) => {
                self.src[index] = (size, url);
                assert(self@.src =~= before.update(index as int, (size@, url@)));
                assert(size_names(self@.src) =~= size_names(before)) by {
                    size_names(before).index_of_first_ensures(size@);
                }
            },
            None => {
                self.src.push((size, url));
                assert(self@.src =~= before.push((size@, url@)));
                assert(size_names(self@.src) =~= size_names(before).push(size@));
                proof {
                    size_names(before).index_of_first_ensures(size@);
                }
            },
        }
    }

    /// The one line that presents the picture.
    pub fn summary(&self) -> (r: String)
        ensures
            r@ == summary_text(self@),
    {
        let mut r = "Picture by ".to_owned();
        r.append(self.photographer.as_str());
        r.append(" - ");
        r.append(self.url.as_str());
        r.append(" `");
        if let Some(alt) = &self.alt {
            r.append(alt.as_str());
        }
        r.append("`");
        r
    }
}

/// A size stands for the address of the first entry that names it, and for
/// none when no entry names it.
pub proof fn lemma_source_is_first(src: Seq<(Seq<char>, Seq<char>)>, size: Seq<char>, index: int)
    requires
        0 <= index <= src.len(),
        forall|i: int| 0 <= i < index ==> src[i].0 != size,
        index < src.len() ==> src[index].0 == size,
    ensures
        source_url(src, size) == if index < src.len() {
            Some(src[index].1)
        } else {
            None
        },
{
    let names = size_names(src);
    names.index_of_first_ensures(size);
    if index < src.len() {
        assert(names[index] == size);
    }
}

/// After [`PexelPicture::set_source`] the size stands for the new address,
/// and every other size for the address that it stood for.
pub proof fn lemma_with_source(
    src: Seq<(Seq<char>, Seq<char>)>,
    size: Seq<char>,
    url: Seq<char>,
    other: Seq<char>,
)
    ensures
        source_url(with_source(src, size, url), size) == Some(url),
        other != size ==> source_url(with_source(src, size, url), other) == source_url(src, other),
{
    let names = size_names(src);
    let after = with_source(src, size, url);
    let names_after = size_names(after);
    names.index_of_first_ensures(size);
    names.index_of_first_ensures(other);
    names_after.index_of_first_ensures(size);
    names_after.index_of_first_ensures(other);
    match names.index_of_first(size) {
        Some(index) => {
            assert(names_after =~= names);
            assert(after[index] == (size, url));
            if other != size {
                if names.contains(other) {
                    let at = names.index_of_first(other)->0;
                    assert(names[at] == other);
                    assert(after[at] == src[at]);
                }
            }
        },
        None => {
            assert(names_after =~= names.push(size));
            assert(names_after[names.len() as int] == size);
            let at = names_after.index_of_first(size)->0;
            if at < names.len() {
                assert(names[at] == size);
            }
            assert(after[names.len() as int] == (size, url));
            if other != size {
                if names_after.contains(other) {
                    let k = names_after.index_of_first(other)->0;
                    assert(k < names.len());
                    assert(names[k] == other);
                    let j = names.index_of_first(other)->0;
                    assert(names_after[j] == other);
                    assert(j == k);
                    assert(after[k] == src[k]);
                } else {
                    if names.contains(other) {
                        let j = names.index_of_first(other)->0;
                        assert(names_after[j] == other);
                    }
                }
            }
        },
    }
}

/// The directory of the header pictures of the post at `post`.
pub open spec fn header_directory(post: Seq<char>) -> Seq<char> {
    child_path(post, "images/header"@)
}

/// The directory of the candidates below the header directory `header`.
pub open spec fn candidates_directory(header: Seq<char>) -> Seq<char> {
    child_path(header, "candidates"@)
}

/// The file of the candidate with the given number, counted from 1, below the
/// header directory `header`: `extension` is `.jpg` for the picture and
/// `.toml` for its descriptor.
pub open spec fn candidate_file(header: Seq<char>, number: nat, extension: Seq<char>) -> Seq<
    char,
> {
    child_path(candidates_directory(header), "header_"@ + decimal(number) + extension)
}

/// Builds the path of a candidate's file.
fn candidate_path(header: &str, number: usize, extension: &str) -> (r: String)
    ensures
        r@ == candidate_file(header@, number as nat, extension@),
{
    let directory = join_path(header, "candidates");
    let mut name = "header_".to_owned();
    name.append(to_decimal(number).as_str());
    name.append(extension);
    join_path(directory.as_str(), name.as_str())
}

/// Where the image search is asked.
pub open spec fn search_endpoint() -> Seq<char> {
    "https://api.pexels.com/v1/search"@
}

/// The plan that asks the image search for `limit` pictures that go with
/// the keywords: make the directory of the candidates, then send one request,
/// in which the keywords are joined with a comma and a blank.
pub open spec fn search_plan(
    header: Seq<char>,
    keywords: Seq<Seq<char>>,
    limit: nat,
    api_key: Seq<char>,
) -> PlanView {
    PlanView {
        steps: seq![
            StepView::EnsureDirectory { path: candidates_directory(header) },
            StepView::Search {
                endpoint: search_endpoint(),
                authorization: api_key,
                query: joined(keywords, ", "@),
                per_page: decimal(limit),
            },
        ],
        outcome: Ok(()),
    }
}

/// The plan of an operation that fails before anything is made or sent.
pub open spec fn refusal(message: Seq<char>) -> PlanView {
    PlanView { steps: Seq::empty(), outcome: Err(message) }
}

/// What the image search answered.
#[derive(Debug, PartialEq, Eq)]
pub enum SearchResponse {
    /// Any status but success, with the body of the answer.
    Refused { body: String },
    /// The pictures, in the order of the answer.
    Found { photos: Vec<PexelPicture> },
}

/// The plan that fetches candidates, and the pictures that its steps write,
/// in the order in which they are written.
#[derive(Debug, PartialEq, Eq)]
pub struct CandidatePlan {
    pub plan: Plan,
    pub images: Vec<String>,
}

/// [`CandidatePlan`] as a mathematical value.
pub struct CandidatePlanView {
    pub plan: PlanView,
    pub images: Seq<Seq<char>>,
}

impl View for CandidatePlan {
    type V = CandidatePlanView;

    open spec fn view(&self) -> CandidatePlanView {
        CandidatePlanView { plan: self.plan@, images: self.images.deep_view() }
    }
}

/// Whether a picture is offered in the size that headers are fetched in.
pub open spec fn has_landscape(picture: PexelPictureView) -> bool {
    source_url(picture.src, "landscape"@) is Some
}

/// How many pictures at the front of the answer can be fetched: those before
/// the first that is not offered in landscape.
pub open spec fn fetchable(photos: Seq<PexelPictureView>) -> nat
    decreases photos.len(),
{
    if photos.len() == 0 || !has_landscape(photos[0]) {
        0
    } else {
        1 + fetchable(photos.drop_first())
    }
}

/// The steps that fetch the first `count` pictures of the answer: for each in
/// turn, download its landscape image to `header_N.jpg`, then write its
/// descriptor to `header_N.toml`, with N counted from 1.
pub open spec fn fetch_steps(header: Seq<char>, photos: Seq<PexelPictureView>, count: nat) -> Seq<
    StepView,
> {
    Seq::new(
        2 * count,
        |k: int|
            if k % 2 == 0 {
                StepView::Download {
                    url: source_url(photos[k / 2].src, "landscape"@)->0,
                    to: candidate_file(header, (k / 2 + 1) as nat, ".jpg"@),
                }
            } else {
                StepView::WriteSidecar {
                    path: candidate_file(header, (k / 2 + 1) as nat, ".toml"@),
                    picture: (k / 2) as nat,
                }
            },
    )
}

/// The pictures of the first `count` candidates.
pub open spec fn candidate_images(header: Seq<char>, count: nat) -> Seq<Seq<char>> {
    Seq::new(count, |i: int| candidate_file(header, (i + 1) as nat, ".jpg"@))
}

/// The plan that fetches the pictures of an answer: in order, up to the first
/// that is not offered in landscape, where the plan fails.
pub open spec fn fetch_plan(header: Seq<char>, photos: Seq<PexelPictureView>) -> CandidatePlanView {
    let count = fetchable(photos);
    CandidatePlanView {
        plan: PlanView {
            steps: fetch_steps(header, photos, count),
            outcome: if count == photos.len() {
                Ok(())
            } else {
                Err("Unable to retreive landscape image from pexel picture"@)
            },
        },
        images: candidate_images(header, count),
    }
}

/// The plan for an answer of the image search. An answer that is no success
/// fails at once with its body; the pictures of a success are fetched as
/// [`fetch_plan`] says.
pub open spec fn candidates_plan(header: Seq<char>, response: SearchResponse) -> CandidatePlanView {
    match response {
        SearchResponse::Refused { body } => CandidatePlanView {
            plan: refusal("Failed to fetch image: "@ + body@),
            images: Seq::empty(),
        },
        SearchResponse::Found { photos } => fetch_plan(header, photos.deep_view()),
    }
}

/// If the first `count` pictures are offered in landscape and the next one,
/// if there is one, is not, then `count` pictures can be fetched.
pub proof fn lemma_fetchable(photos: Seq<PexelPictureView>, count: nat)
    requires
        count <= photos.len(),
        forall|i: int| 0 <= i < count ==> has_landscape(#[trigger] photos[i]),
        count < photos.len() ==> !has_landscape(photos[count as int]),
    ensures
        fetchable(photos) == count,
    decreases photos.len(),
{
    if count > 0 {
        let rest = photos.drop_first();
        assert(has_landscape(photos[0]));
        assert forall|i: int| 0 <= i < count - 1 implies has_landscape(#[trigger] rest[i]) by {
            assert(rest[i] == photos[i + 1]);
        }
        if count < photos.len() {
            assert(rest[count - 1] == photos[count as int]);
        }
        lemma_fetchable(rest, (count - 1) as nat);
    }
}

/// Plans the request to the image search. Fails when there is no key for the
/// service, before anything is made or sent.
pub fn search_request(
    header: &str,
    keywords: &Vec<String>,
    limit: usize,
    api_key: Option<String>,
) -> (plan: Plan)
    ensures
        plan@ == match api_key {
            Some(key) => search_plan(header@, keywords.deep_view(), limit as nat, key@),
            None => refusal("Missing PEXEL_API_KEY"@),
        },
{
    let mut steps: Vec<Step> = Vec::new();
    match api_key {
        None => {
            assert(steps.deep_view() =~= Seq::<StepView>::empty());
            Plan { steps, outcome: Err("Missing PEXEL_API_KEY".to_owned()) }
        },
        Some(key) => {
            steps.push(Step::EnsureDirectory { path: join_path(header, "candidates") });
            steps.push(
                Step::Search {
                    endpoint: "https://api.pexels.com/v1/search".to_owned(),
                    authorization: key,
                    query: join(keywords, ", "),
                    per_page: to_decimal(limit),
                },
            );
            assert(steps.deep_view() =~= search_plan(
                header@,
                keywords.deep_view(),
                limit as nat,
                key@,
            ).steps);
            Plan { steps, outcome: Ok(()) }
        },
    }
}

/// Plans the fetching of the candidates that the image search answered with,
/// below the header directory `header`. A step that fails ends the fetch;
/// candidates that were written before it stay.
pub fn get_new_candidates(header: &str, response: &SearchResponse) -> (plan: CandidatePlan)
    ensures
        plan@ == candidates_plan(header@, *response),
{
    match response {
        SearchResponse::Refused { body } => {
            let mut message = "Failed to fetch image: ".to_owned();
            message.append(body.as_str());
            let plan = Plan { steps: Vec::new(), outcome: Err(message) };
            let images: Vec<String> = Vec::new();
            assert(plan@.steps =~= Seq::<StepView>::empty());
            assert(images.deep_view() =~= Seq::<Seq<char>>::empty());
            CandidatePlan { plan, images }
        },
        SearchResponse::Found { photos } => plan_fetch(header, photos),
    }
}

/// Plans the fetching of the pictures of an answer.
fn plan_fetch(header: &str, photos: &Vec<PexelPicture>) -> (plan: CandidatePlan)
    ensures
        plan@ == fetch_plan(header@, photos.deep_view()),
{
    let ghost all = photos.deep_view();
    let mut steps: Vec<Step> = Vec::new();
    let mut images: Vec<String> = Vec::new();
    let mut index: usize = 0;
    while index < photos.len()
        invariant
            index <= photos.len(),
            all == photos.deep_view(),
            forall|i: int| 0 <= i < index ==> has_landscape(#[trigger] all[i]),
            steps.deep_view() == fetch_steps(header@, all, index as nat),
            images.deep_view() == candidate_images(header@, index as nat),
        decreases photos.len() - index,
    {
        let ghost steps_before = steps.deep_view();
        let ghost images_before = images.deep_view();
        match photos[index].source("landscape") {
            None => {
                proof {
                    lemma_fetchable(all, index as nat);
                }
                return CandidatePlan {
                    plan: Plan {
                        steps,
                        outcome: Err(
                            "Unable to retreive landscape image from pexel picture".to_owned(),
                        ),
                    },
                    images,
                };
            },
            Some(url) => {
                let image = candidate_path(header, index + 1, ".jpg");
                let sidecar = candidate_path(header, index + 1, ".toml");
                let download = Step::Download { url: url.clone(), to: image.clone() };
                let write = Step::WriteSidecar { path: sidecar, picture: index };
                steps.push(download);
                steps.push(write);
                images.push(image);
                assert(steps.deep_view() =~= steps_before.push(download@).push(write@));
                assert(images.deep_view() =~= images_before.push(image@));
            },
        }
        index = index + 1;
    }
    proof {
        lemma_fetchable(all, index as nat);
    }
    CandidatePlan { plan: Plan { steps, outcome: Ok(()) }, images }
}

/// Whether a file of the candidates directory is a descriptor: its name ends
/// in `.toml` and holds more than that.
pub open spec fn is_sidecar(name: Seq<char>) -> bool {
    name.len() > 5 && name.subrange(name.len() - 5, name.len() as int) == ".toml"@
}

/// Tells a descriptor from the other files of the candidates directory by its
/// name.
pub fn is_sidecar_name(name: &str) -> (r: bool)
    ensures
        r == is_sidecar(name@),
{
    let len = name.unicode_len();
    if len <= 5 {
        return false;
    }
    proof {
        reveal_strlit(".toml");
    }
    let ghost tail = name@.subrange(len - 5, len as int);
    let r = name.get_char(len - 5) == '.' && name.get_char(len - 4) == 't' && name.get_char(
        len - 3,
    ) == 'o' && name.get_char(len - 2) == 'm' && name.get_char(len - 1) == 'l';
    proof {
        if r {
            assert(tail =~= ".toml"@);
        } else {
            assert(tail[0] == name@[len - 5]);
            assert(tail[1] == name@[len - 4]);
            assert(tail[2] == name@[len - 3]);
            assert(tail[3] == name@[len - 2]);
            assert(tail[4] == name@[len - 1]);
        }
    }
    r
}

/// The lines that present candidates, and how presenting them ended.
#[derive(Debug, PartialEq, Eq)]
pub struct Listing {
    pub lines: Vec<String>,
    pub outcome: Result<(), String>,
}

/// [`Listing`] as a mathematical value.
pub struct ListingView {
    pub lines: Seq<Seq<char>>,
    pub outcome: Result<(), Seq<char>>,
}

impl View for Listing {
    type V = ListingView;

    open spec fn view(&self) -> ListingView {
        ListingView { lines: self.lines.deep_view(), outcome: outcome_view(self.outcome) }
    }
}

/// How many descriptors at the front could be read: those before the first
/// that could not.
pub open spec fn readable(entries: Seq<Result<PexelPicture, String>>) -> nat
    decreases entries.len(),
{
    if entries.len() == 0 || entries[0] is Err {
        0
    } else {
        1 + readable(entries.drop_first())
    }
}

/// If the first `count` descriptors could be read and the next one, if there
/// is one, could not, then `count` descriptors are readable.
pub proof fn lemma_readable(entries: Seq<Result<PexelPicture, String>>, count: nat)
    requires
        count <= entries.len(),
        forall|i: int| 0 <= i < count ==> (#[trigger] entries[i]) is Ok,
        count < entries.len() ==> entries[count as int] is Err,
    ensures
        readable(entries) == count,
    decreases entries.len(),
{
    if count > 0 {
        let rest = entries.drop_first();
        assert(entries[0] is Ok);
        assert forall|i: int| 0 <= i < count - 1 implies (#[trigger] rest[i]) is Ok by {
            assert(rest[i] == entries[i + 1]);
        }
        if count < entries.len() {
            assert(rest[count - 1] == entries[count as int]);
        }
        lemma_readable(rest, (count - 1) as nat);
    }
}

/// The line that presents the candidate that was met as the `number`th.
pub open spec fn candidate_line(number: nat, picture: PexelPictureView) -> Seq<char> {
    decimal(number) + " - "@ + summary_text(picture)
}

/// The listing of the descriptors that were met in the candidates directory,
/// in the order in which they were met: one line for each, numbered from 1,
/// up to the first that could not be read, whose cause ends the listing.
pub open spec fn candidate_listing(entries: Seq<Result<PexelPicture, String>>) -> ListingView {
    let count = readable(entries);
    ListingView {
        lines: Seq::new(count, |i: int| candidate_line((i + 1) as nat, entries[i]->Ok_0@)),
        outcome: if count == entries.len() {
            Ok(())
        } else {
            Err(entries[count as int]->Err_0@)
        },
    }
}

/// The warning that a chosen header is about to be replaced.
pub open spec fn overwrite_warning() -> Seq<char> {
    "A header file has already been selected, it will be overwritten"@
}

/// The plan that makes the candidate `index` the header of the post at
/// `post`. A header that is there already is replaced, behind a warning. The
/// candidate's picture and descriptor are copied and stay where they are.
/// Without the picture, or without the descriptor, nothing is copied.
pub open spec fn choice_plan(
    post: Seq<char>,
    index: nat,
    header_present: bool,
    picture_present: bool,
    descriptor_present: bool,
) -> PlanView {
    let header = header_directory(post);
    let warning = if header_present {
        seq![StepView::Warn { message: overwrite_warning() }]
    } else {
        Seq::empty()
    };
    if !picture_present {
        PlanView {
            steps: warning,
            outcome: Err(
                "No candidate header with the id "@ + decimal(index) + " could be found"@,
            ),
        }
    } else if !descriptor_present {
        PlanView {
            steps: warning,
            outcome: Err(
                "The metadata file for candidate header "@ + decimal(index)
                    + " could not be found"@,
            ),
        }
    } else {
        PlanView {
            steps: warning + seq![
                StepView::CopyFile {
                    from: candidate_file(header, index, ".jpg"@),
                    to: child_path(header, "header.jpg"@),
                },
                StepView::CopyFile {
                    from: candidate_file(header, index, ".toml"@),
                    to: child_path(header, "header.toml"@),
                },
            ],
            outcome: Ok(()),
        }
    }
}

impl Metadata {
    /// The directory of the header pictures of the post at `blog_path`.
    pub fn header_path(blog_path: &str) -> (r: String)
        ensures
            r@ == header_directory(blog_path@),
    {
        join_path(blog_path, "images/header")
    }

    /// The directory of the candidates of the post at `blog_path`.
    pub fn candidates_path(blog_path: &str) -> (r: String)
        ensures
            r@ == candidates_directory(header_directory(blog_path@)),
    {
        join_path(Metadata::header_path(blog_path).as_str(), "candidates")
    }

    /// The picture of the candidate `index` of the post at `blog_path`.
    pub fn candidate_picture(blog_path: &str, index: usize) -> (r: String)
        ensures
            r@ == candidate_file(header_directory(blog_path@), index as nat, ".jpg"@),
    {
        candidate_path(Metadata::header_path(blog_path).as_str(), index, ".jpg")
    }

    /// The descriptor of the candidate `index` of the post at `blog_path`.
    pub fn candidate_descriptor(blog_path: &str, index: usize) -> (r: String)
        ensures
            r@ == candidate_file(header_directory(blog_path@), index as nat, ".toml"@),
    {
        candidate_path(Metadata::header_path(blog_path).as_str(), index, ".toml")
    }

    /// The picture of the chosen header of the post at `blog_path`.
    pub fn header_picture(blog_path: &str) -> (r: String)
        ensures
            r@ == child_path(header_directory(blog_path@), "header.jpg"@),
    {
        join_path(Metadata::header_path(blog_path).as_str(), "header.jpg")
    }

    /// The chosen header of the post at `path`, given whether its file is
    /// there.
    pub fn header_exists(path: &str, present: bool) -> (r: Option<String>)
        ensures
            match r {
                Some(file) => present && file@ == child_path(
                    header_directory(path@),
                    "header.jpg"@,
                ),
                None => !present,
            },
    {
        if present {
            Some(Metadata::header_picture(path))
        } else {
            None
        }
    }

    /// Starts the fetching of `amount` new candidates for the post at `path`:
    /// plans the request to the image search from the keywords of the post.
    /// Fails when the post has no keyword, and then when there is no key for
    /// the service; in both cases nothing is made or sent.
    pub fn fetch_new_header_images(&self, path: &str, amount: usize, api_key: Option<String>) -> (plan:
        Plan)
        ensures
            plan@ == if self@.opengraph.keywords.len() == 0 {
                refusal("Unable to fetch image for the blog post; The post has no keyword"@)
            } else {
                match api_key {
                    Some(key) => search_plan(
                        header_directory(path@),
                        self@.opengraph.keywords,
                        amount as nat,
                        key@,
                    ),
                    None => refusal("Missing PEXEL_API_KEY"@),
                }
            },
    {
        if self.opengraph.keywords.len() == 0 {
            let steps: Vec<Step> = Vec::new();
            assert(steps.deep_view() =~= Seq::<StepView>::empty());
            return Plan {
                steps,
                outcome: Err(
                    "Unable to fetch image for the blog post; The post has no keyword".to_owned(),
                ),
            };
        }
        let header = Metadata::header_path(path);
        search_request(header.as_str(), &self.opengraph.keywords, amount, api_key)
    }

    /// Presents the candidates whose descriptors were met in the candidates
    /// directory, given what reading each of them gave.
    pub fn list_header_candidates(entries: &Vec<Result<PexelPicture, String>>) -> (listing: Listing)
        ensures
            listing@ == candidate_listing(entries@),
    {
        let mut lines: Vec<String> = Vec::new();
        let mut index: usize = 0;
        while index < entries.len()
            invariant
                index <= entries.len(),
                lines.len() == index,
                forall|i: int| 0 <= i < index ==> (#[trigger] entries[i]) is Ok,
                forall|i: int|
                    0 <= i < index ==> (#[trigger] lines[i])@ == candidate_line(
                        (i + 1) as nat,
                        entries[i]->Ok_0@,
                    ),
            decreases entries.len() - index,
        {
            match &entries[index] {
                Err(cause) => {
                    proof {
                        lemma_readable(entries@, index as nat);
                    }
                    let listing = Listing { lines, outcome: Err(cause.clone()) };
                    assert(listing@.lines =~= candidate_listing(entries@).lines);
                    return listing;
                },
                Ok(picture) => {
                    let mut line = to_decimal(index + 1);
                    line.append(" - ");
                    line.append(picture.summary().as_str());
                    lines.push(line);
                },
            }
            index = index + 1;
        }
        proof {
            lemma_readable(entries@, index as nat);
        }
        let listing = Listing { lines, outcome: Ok(()) };
        assert(listing@.lines =~= candidate_listing(entries@).lines);
        listing
    }

    /// Plans making the candidate `index` the header of the post at `path`,
    /// given which of the files are there: the chosen header, the candidate's
    /// picture and the candidate's descriptor.
    pub fn choose_header(
        path: &str,
        index: usize,
        header_present: bool,
        picture_present: bool,
        descriptor_present: bool,
    ) -> (plan: Plan)
        ensures
            plan@ == choice_plan(
                path@,
                index as nat,
                header_present,
                picture_present,
                descriptor_present,
            ),
    {
        let mut steps: Vec<Step> = Vec::new();
        if header_present {
            steps.push(
                Step::Warn {
                    message: "A header file has already been selected, it will be overwritten".to_owned(),
                },
            );
        }
        let ghost warning = steps.deep_view();
        assert(warning =~= if header_present {
            seq![StepView::Warn { message: overwrite_warning() }]
        } else {
            Seq::empty()
        });
        if !picture_present {
            let mut message = "No candidate header with the id ".to_owned();
            message.append(to_decimal(index).as_str());
            message.append(" could be found");
            return Plan { steps, outcome: Err(message) };
        }
        if !descriptor_present {
            let mut message = "The metadata file for candidate header ".to_owned();
            message.append(to_decimal(index).as_str());
            message.append(" could not be found");
            return Plan { steps, outcome: Err(message) };
        }
        let header = Metadata::header_path(path);
        let picture = Step::CopyFile {
            from: candidate_path(header.as_str(), index, ".jpg"),
            to: join_path(header.as_str(), "header.jpg"),
        };
        let descriptor = Step::CopyFile {
            from: candidate_path(header.as_str(), index, ".toml"),
            to: join_path(header.as_str(), "header.toml"),
        };
        steps.push(picture);
        steps.push(descriptor);
        assert(steps.deep_view() =~= warning + seq![picture@, descriptor@]);
        Plan { steps, outcome: Ok(()) }
    }
}

} // verus!
