//! The three calls that leave this crate: the clock, the slug maker and the
//! Markdown renderer. Their contracts are taken on trust; everything else in
//! the library is proved from them.

use vstd::prelude::*;

verus! {

/// What the clock showed at one moment, in UTC.
#[derive(Clone, Copy, Debug)]
pub struct Moment {
    /// The calendar year.
    pub year: i32,
    /// The calendar month, counted from 1.
    pub month: u32,
    /// Whole seconds since the start of 1970.
    pub seconds: i64,
    /// The nanoseconds that have passed of the running second.
    pub nanoseconds: u32,
}

/// Reads the current time with `chrono::Utc::now` and takes its calendar year
/// and month, its Unix timestamp and the nanoseconds of the running second.
///
/// Trusted: the month lies between 1 and 12, as chrono's `Datelike::month`
/// documents. Nothing is claimed of the other three numbers. chrono stops the
/// program when the system clock stands before 1970.
#[verifier::external_body]
pub(crate) fn utc_now() -> (r: Moment)
    ensures
        1 <= r.month <= 12,
{
    let now = chrono::Utc::now();
    Moment {
        year: chrono::Datelike::year(&now),
        month: chrono::Datelike::month(&now),
        seconds: now.timestamp(),
        nanoseconds: now.timestamp_subsec_nanos(),
    }
}

/// The slug that the `slugify` crate makes of a title, with no stop words, `-`
/// as the separator and no length limit: the title transliterated to ASCII and
/// lower-cased, each run of other characters replaced by one hyphen, and no
/// hyphen at either end.
pub uninterp spec fn slug_of(title: Seq<char>) -> Seq<char>;

/// Makes the slug of a title with `slugify::slugify`.
///
/// Trusted: the result is a function of the title alone, named [`slug_of`].
#[verifier::external_body]
pub(crate) fn slugify(title: &str) -> (r: String)
    ensures
        r@ == slug_of(title@),
{
    slugify::slugify(title, "", "-", None)
}

/// What the `markdown` crate makes of a text under its GitHub-flavoured
/// options: the HTML, or the message of the error that it reports.
pub uninterp spec fn gfm_html(markdown: Seq<char>) -> Result<Seq<char>, Seq<char>>;

/// Renders Markdown to HTML with `markdown::to_html_with_options` and
/// `markdown::Options::gfm`; an error is given as its text.
///
/// Trusted: the result is a function of the text alone, named [`gfm_html`].
#[verifier::external_body]
pub(crate) fn render_gfm(markdown: &str) -> (r: Result<String, String>)
    ensures
        match r {
            Ok(html) => gfm_html(markdown@) == Ok::<Seq<char>, Seq<char>>(html@),
            Err(message) => gfm_html(markdown@) == Err::<Seq<char>, Seq<char>>(message@),
        },
{
    match markdown::to_html_with_options(markdown, &markdown::Options::gfm()) {
        Ok(html) => Ok(html),
        Err(message) => Err(message.to_string()),
    }
}

} // verus!
