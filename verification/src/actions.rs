//! Clipboard actions: the text a key copies, and the status message that
//! reports how the copy went.
use vstd::prelude::*;
use crate::detail_page::DetailPage;
use crate::item::{UnifiedAnalysis, UnifiedDebtItem, item_function_id, latest_info};
use crate::page_extract::{
    data_flow_text, function_dependencies_text, extract_data_flow_text, extract_function_dependencies_text, extract_score_breakdown_text, score_breakdown_text,
    extract_git_context_text, extract_patterns_text, extract_responsibilities_text, git_context_text,
    patterns_text, responsibilities_text, responsibility_main, context_page_text, extract_context_text,
};
use crate::overview::items_at;
use crate::page_text::{extract_overview_text, header_text, overview_text};
use crate::results_app::ResultsApp;
use crate::text::push_str;
use crate::text_extraction::format_path_text;

verus! {

#[verifier::external_type_specification]
#[verifier::external_body]
pub struct ExClipboard(arboard::Clipboard);

#[verifier::external_type_specification]
#[verifier::external_body]
pub struct ExClipboardError(arboard::Error);

/// A handle to the system clipboard.
///
/// Calls `arboard::Clipboard::new`, which fails where no clipboard is
/// available (a headless session, for one); which outcome comes depends on the
/// system, so nothing is claimed of it.
#[verifier::external_body]
fn open_clipboard() -> Result<arboard::Clipboard, arboard::Error> {
    arboard::Clipboard::new()
}

/// Places text on the clipboard and gives back the text it handed over.
///
/// Calls `arboard::Clipboard::set_text` with `text`; whether it succeeds
/// depends on the system, so nothing is claimed of the outcome. The text
/// given back is the one handed to the call.
#[verifier::external_body]
fn clipboard_set_text(clipboard: &mut arboard::Clipboard, text: String) -> (r: (Result<(), arboard::Error>, String))
    ensures
        r.1@ == text@,
{
    let outcome = clipboard.set_text(text.as_str());
    (outcome, text)
}

/// The text of a clipboard error.
///
/// Formats the error with its `Display` implementation in `arboard`; nothing
/// is claimed of the text.
#[verifier::external_body]
fn clipboard_error_text(error: &arboard::Error) -> String {
    format!("{}", error)
}

/// How a copy to the clipboard went.
pub enum CopyOutcome {
    /// The clipboard took the text.
    Copied,
    /// The clipboard refused the text, with its explanation.
    Refused(String),
    /// No clipboard could be opened, with the explanation.
    Unavailable(String),
}

/// The status message that reports a copy of `description`.
pub open spec fn report_text(outcome: CopyOutcome, description: Seq<char>) -> Seq<char> {
    match outcome {
        CopyOutcome::Copied => "Copied "@ + description + " to clipboard"@,
        CopyOutcome::Refused(e) => "Clipboard error: "@ + e@,
        CopyOutcome::Unavailable(e) => "Clipboard not available: "@ + e@,
    }
}

/// The status message for a copy of `description` that went as `outcome`.
pub fn copy_report(outcome: &CopyOutcome, description: &str) -> (r: String)
    ensures
        r@ == report_text(*outcome, description@),
{
    let mut m = String::new();
    match outcome {
        CopyOutcome::Copied => {
            push_str(&mut m, "Copied ");
            push_str(&mut m, description);
            push_str(&mut m, " to clipboard");
        },
        CopyOutcome::Refused(e) => {
            push_str(&mut m, "Clipboard error: ");
            push_str(&mut m, e.as_str());
        },
        CopyOutcome::Unavailable(e) => {
            push_str(&mut m, "Clipboard not available: ");
            push_str(&mut m, e.as_str());
        },
    }
    m
}

/// Hand `text` to the system clipboard: how the copy went, and the text the
/// clipboard was handed, which is `text`, wherever a clipboard could be
/// opened.
pub fn hand_to_clipboard(text: String) -> (r: (CopyOutcome, Option<String>))
    ensures
        r.1 is None <==> r.0 is Unavailable,
        r.1 matches Some(h) ==> h@ == text@,
{
    match open_clipboard() {
        Ok(mut clipboard) => {
            let (result, handed) = clipboard_set_text(&mut clipboard, text);
            match result {
                Ok(()) => (CopyOutcome::Copied, Some(handed)),
                Err(e) => (CopyOutcome::Refused(clipboard_error_text(&e)), Some(handed)),
            }
        },
        Err(e) => (CopyOutcome::Unavailable(clipboard_error_text(&e)), None),
    }
}

/// Whether `r` reports a copy of `description` and gives back the text the
/// clipboard was handed: `text` wherever a clipboard could be opened, and
/// nothing where none could (which the report then says).
pub open spec fn copy_made(r: (Result<String, String>, Option<String>), text: Seq<char>, description: Seq<char>) -> bool {
    &&& r.0 matches Ok(m) && exists|o: CopyOutcome|
        m@ == #[trigger] report_text(o, description) && (r.1 is None <==> o is Unavailable)
    &&& r.1 matches Some(h) ==> h@ == text
}

/// Copy text to the system clipboard: the status message, and the text the
/// clipboard was handed. A clipboard that is unavailable or refuses the text
/// is reported in the message, never as an error.
pub fn copy_to_clipboard(text: &str, description: &str) -> (r: (Result<String, String>, Option<String>))
    ensures
        copy_made(r, text@, description@),
{
    let (outcome, handed) = hand_to_clipboard(text.to_string());
    let m = copy_report(&outcome, description);
    assert(m@ == report_text(outcome, description@));
    (Ok(m), handed)
}

/// Whether `m` reports a copy of `description` that went as some outcome,
/// with the last copied text going from `before` to `after`: `text` where a
/// clipboard took or refused it, unchanged where none could be opened.
pub open spec fn copy_recorded(
    m: Seq<char>,
    description: Seq<char>,
    text: Seq<char>,
    before: Option<Seq<char>>,
    after: Option<Seq<char>>,
) -> bool {
    exists|o: CopyOutcome|
        m == #[trigger] report_text(o, description) && after == (if o is Unavailable {
            before
        } else {
            Some(text)
        })
}

/// Whether the system clipboard can be opened. The answer depends on the
/// system (no clipboard in a headless session, for one), so nothing is
/// claimed of it.
pub fn clipboard_available() -> bool {
    open_clipboard().is_ok()
}

/// Copy file path to system clipboard: the status message, and the path as
/// handed to the clipboard.
pub fn copy_path_to_clipboard(path: &str) -> (r: (Result<String, String>, Option<String>))
    ensures
        copy_made(r, path@, "path"@),
{
    let path_str = format_path_text(path);
    copy_to_clipboard(path_str.as_str(), "path")
}

/// Plain text of a detail page, laid out as on screen.
pub open spec fn page_text(item: UnifiedDebtItem, page: DetailPage, analysis: UnifiedAnalysis) -> Seq<char> {
    let id = item_function_id(item);
    let df = analysis.data_flow_graph;
    match page {
        DetailPage::Overview => overview_text(item, items_at(analysis.items@, item)),
        DetailPage::ScoreBreakdown => score_breakdown_text(item),
        DetailPage::Context => context_page_text(item),
        DetailPage::Dependencies => function_dependencies_text(item),
        DetailPage::GitContext => git_context_text(item),
        DetailPage::Patterns => patterns_text(item, latest_info(df.purity_entries(), id)),
        DetailPage::DataFlow => data_flow_text(latest_info(df.mutation_entries(), id), latest_info(df.io_entries(), id)),
        DetailPage::Responsibilities => responsibilities_text(item),
    }
}

/// The text of a page is never empty: a page without data says so.
pub proof fn lemma_page_text_nonempty(item: UnifiedDebtItem, page: DetailPage, analysis: UnifiedAnalysis)
    ensures
        page_text(item, page, analysis).len() > 0,
{
    reveal_strlit("\n");
    reveal_strlit("No git context data available\n");
    reveal_strlit("No pattern data available\n");
    reveal_strlit("No data flow analysis data available for this function.\n");
    match page {
        DetailPage::Overview => {
            let at = items_at(analysis.items@, item);
            assert(overview_text(item, at).len() >= header_text("location"@).len());
        },
        DetailPage::ScoreBreakdown => {
            assert(score_breakdown_text(item).len() >= header_text("final score"@).len());
        },
        DetailPage::Dependencies => {
            assert(function_dependencies_text(item).len() >= header_text("function dependencies"@).len());
        },
        DetailPage::Responsibilities => {
            assert(responsibilities_text(item).len() >= responsibility_main(item).len());
        },
        _ => {},
    }
}

/// Extract plain text content from a detail page.
pub fn extract_page_text(item: &UnifiedDebtItem, page: DetailPage, app: &ResultsApp) -> (r: String)
    ensures
        r@ == page_text(*item, page, app.analysis_data()),
{
    let analysis = app.analysis();
    match page {
        DetailPage::Overview => extract_overview_text(item, app),
        DetailPage::ScoreBreakdown => extract_score_breakdown_text(item),
        DetailPage::Context => extract_context_text(item),
        DetailPage::Dependencies => extract_function_dependencies_text(item),
        DetailPage::GitContext => extract_git_context_text(item),
        DetailPage::Patterns => extract_patterns_text(item, &analysis.data_flow_graph),
        DetailPage::DataFlow => extract_data_flow_text(item, &analysis.data_flow_graph),
        DetailPage::Responsibilities => extract_responsibilities_text(item),
    }
}

/// Copy detail page content to clipboard: the status message, and the page
/// text as handed to the clipboard.
pub fn copy_page_to_clipboard(item: &UnifiedDebtItem, page: DetailPage, app: &ResultsApp) -> (r: (
    Result<String, String>,
    Option<String>,
))
    ensures
        copy_made(r, page_text(*item, page, app.analysis_data()), "page content"@),
{
    let content = extract_page_text(item, page, app);
    copy_to_clipboard(content.as_str(), "page content")
}

/// Copy the whole finding (its overview text) to the clipboard: the status
/// message, and the text as handed to the clipboard.
pub fn copy_item_as_llm_to_clipboard(item: &UnifiedDebtItem, app: &ResultsApp) -> (r: (
    Result<String, String>,
    Option<String>,
))
    ensures
        copy_made(r, page_text(*item, DetailPage::Overview, app.analysis_data()), "finding"@),
{
    let content = extract_overview_text(item, app);
    copy_to_clipboard(content.as_str(), "finding")
}

} // verus!
