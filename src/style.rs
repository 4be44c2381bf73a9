use indicatif::ProgressStyle;
use vstd::prelude::*;

verus! {

#[verifier::external_type_specification]
#[verifier::external_body]
pub struct ExProgressStyle(ProgressStyle);

/// The row layout shared by every item: spinner, elapsed time, bar, bytes
/// against total, throughput and time left.
pub const PROGRESS_TEMPLATE: &'static str = "{spinner:.green} [{elapsed_precise}] [{wide_bar:.cyan/blue}] {bytes}/{total_bytes} ({bytes_per_sec}, {eta})";

/// Filled, current and pending cells of the bar.
pub const PROGRESS_CHARS: &'static str = "##-";

/// Relies on indicatif's ProgressStyle::with_template, which parses the
/// row template; its parser can panic on some templates, so only the row
/// layout above, which it accepts, is handed to it.
#[verifier::external_body]
fn style_from_template(t: &str) -> (r: Option<ProgressStyle>)
    requires
        t@ == PROGRESS_TEMPLATE@,
    ensures
        r is Some,
{
    ProgressStyle::with_template(t).ok()
}

/// Relies on indicatif's ProgressStyle::progress_chars, which panics on fewer
/// than two characters; only the bar's own set is handed to it.
#[verifier::external_body]
fn with_bar_chars(style: ProgressStyle, chars: &str) -> (r: ProgressStyle)
    requires
        chars@ == PROGRESS_CHARS@,
{
    style.progress_chars(chars)
}

/// How an item's progress row is drawn: its layout and the cells of its bar.
pub struct RowStyle {
    pub template: String,
    pub chars: String,
}

/// The row style of every item: the row layout above, with the bar drawn in
/// `PROGRESS_CHARS`.
pub fn row_style() -> (r: RowStyle)
    ensures
        r.template@ == PROGRESS_TEMPLATE@,
        r.chars@ == PROGRESS_CHARS@,
{
    RowStyle { template: PROGRESS_TEMPLATE.to_string(), chars: PROGRESS_CHARS.to_string() }
}

/// The indicatif style that draws rows as `s` says.
pub fn progress_style(s: &RowStyle) -> (r: ProgressStyle)
    requires
        s.template@ == PROGRESS_TEMPLATE@,
        s.chars@ == PROGRESS_CHARS@,
{
    let style = style_from_template(s.template.as_str()).unwrap();
    with_bar_chars(style, s.chars.as_str())
}

} // verus!
