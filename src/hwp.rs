//! Driving the external `hwpparser` tool: the arguments handed to it and the
//! classification of each run into an [`HwpParseResult`].

use vstd::prelude::*;
use crate::text::{contains_text, occurs_in};

verus! {

/// Name of the external executable that reads and converts HWP documents.
pub const PARSER_PROGRAM: &'static str = "hwpparser";

/// Subcommand that extracts text with tables kept.
pub const RICH_TEXT_SUBCOMMAND: &'static str = "rich-text";

/// Subcommand that extracts plain text only, the faster way.
pub const TEXT_SUBCOMMAND: &'static str = "text";

/// Subcommand that renders a document to PDF.
pub const CONVERT_SUBCOMMAND: &'static str = "convert";

/// Fragment of the error stream that marks a missing tool.
pub const NOT_FOUND_MARK: &'static str = "not found";

/// Second fragment of the error stream that marks a missing tool.
pub const NO_SUCH_FILE_MARK: &'static str = "No such file";

/// Message shown when the tool ran but reported that something is not installed.
pub const INSTALL_GUIDE: &'static str = "hwpparser가 설치되지 않았습니다.\n\n설치 방법:\n1. pip install pyhwp beautifulsoup4 lxml\n2. pip install -e ~/Documents/snovium/hwp-parser";

/// Start of the message for a text extraction that the tool rejected.
pub const PARSE_FAILED_PREFIX: &'static str = "HWP 파싱 실패: ";

/// Start of the message for a tool that could not be started at all.
pub const LAUNCH_FAILED_PREFIX: &'static str = "hwpparser 실행 실패: ";

/// Installation hint appended when text extraction could not start the tool.
pub const LAUNCH_INSTALL_HINT: &'static str = "\n\n설치 방법:\npip install -e ~/Documents/snovium/hwp-parser";

/// Start of the message for a PDF that was written.
pub const PDF_DONE_PREFIX: &'static str = "PDF 생성 완료: ";

/// Start of the message for a PDF conversion that the tool rejected.
pub const PDF_FAILED_PREFIX: &'static str = "PDF 변환 실패: ";

/// Outcome of one command, as handed to the front end.
#[derive(Debug)]
pub struct HwpParseResult {
    pub success: bool,
    pub text: Option<String>,
    pub error: Option<String>,
}

/// Abstract value of an [`HwpParseResult`].
pub struct ParseView {
    pub success: bool,
    pub text: Option<Seq<char>>,
    pub error: Option<Seq<char>>,
}

/// The text held by an optional string.
pub open spec fn opt_text(o: Option<String>) -> Option<Seq<char>> {
    match o {
        Some(s) => Some(s@),
        None => None,
    }
}

impl View for HwpParseResult {
    type V = ParseView;

    open spec fn view(&self) -> ParseView {
        ParseView { success: self.success, text: opt_text(self.text), error: opt_text(self.error) }
    }
}

/// A success carrying `text` and no error.
pub open spec fn succeeded(text: Seq<char>) -> ParseView {
    ParseView { success: true, text: Some(text), error: None }
}

/// A failure carrying the message `error` and no text.
pub open spec fn failed(error: Seq<char>) -> ParseView {
    ParseView { success: false, text: None, error: Some(error) }
}

fn succeeded_with(text: String) -> (r: HwpParseResult)
    ensures
        r@ == succeeded(text@),
{
    HwpParseResult { success: true, text: Some(text), error: None }
}

fn failed_with(error: String) -> (r: HwpParseResult)
    ensures
        r@ == failed(error@),
{
    HwpParseResult { success: false, text: None, error: Some(error) }
}

/// `a` followed by `b`, as a new `String`.
fn joined(a: &str, b: &str) -> (r: String)
    ensures
        r@ == a@ + b@,
{
    let mut r = String::from_str(a);
    r.append(b);
    r
}

/// What the host observed of one run of the tool.
#[derive(Debug)]
pub enum ToolRun {
    /// The program could not be started; `reason` is the host's description.
    LaunchFailed { reason: String },
    /// The program ran to its end, with its exit status and both output streams.
    Exited { success: bool, stdout: Vec<u8>, stderr: Vec<u8> },
}

/// The text that lossy UTF-8 decoding makes of `bytes`.
pub uninterp spec fn lossy_utf8(bytes: Seq<u8>) -> Seq<char>;

/// Relies on `String::from_utf8_lossy`: decodes the bytes as UTF-8, each
/// invalid sequence replaced by U+FFFD; the text depends on the bytes alone.
#[verifier::external_body]
fn decode_lossy(bytes: &Vec<u8>) -> (r: String)
    ensures
        r@ == lossy_utf8(bytes@),
{
    String::from_utf8_lossy(bytes.as_slice()).into_owned()
}

/// The subcommand chosen for text extraction.
pub open spec fn parse_subcommand(include_tables: bool) -> Seq<char> {
    if include_tables {
        RICH_TEXT_SUBCOMMAND@
    } else {
        TEXT_SUBCOMMAND@
    }
}

/// The error stream says that the tool, or something it needs, is missing.
pub open spec fn reports_missing_tool(stderr: Seq<char>) -> bool {
    occurs_in(stderr, NOT_FOUND_MARK@) || occurs_in(stderr, NO_SUCH_FILE_MARK@)
}

/// Result of a text extraction whose tool exited, given both streams as text.
pub open spec fn parse_exit_view(success: bool, stdout: Seq<char>, stderr: Seq<char>) -> ParseView {
    if success {
        succeeded(stdout)
    } else if reports_missing_tool(stderr) {
        failed(INSTALL_GUIDE@)
    } else {
        failed(PARSE_FAILED_PREFIX@ + stderr)
    }
}

/// Result of a text extraction whose tool could not be started.
pub open spec fn parse_launch_failure_view(reason: Seq<char>) -> ParseView {
    failed(LAUNCH_FAILED_PREFIX@ + reason + LAUNCH_INSTALL_HINT@)
}

/// Result of a text extraction, for any run of the tool.
pub open spec fn parse_run_view(run: ToolRun) -> ParseView {
    match run {
        ToolRun::LaunchFailed { reason } => parse_launch_failure_view(reason@),
        ToolRun::Exited { success, stdout, stderr } => parse_exit_view(
            success,
            lossy_utf8(stdout@),
            lossy_utf8(stderr@),
        ),
    }
}

/// Result of a PDF conversion whose tool exited, given its error stream as text.
pub open spec fn convert_exit_view(success: bool, output_path: Seq<char>, stderr: Seq<char>) -> ParseView {
    if success {
        succeeded(PDF_DONE_PREFIX@ + output_path)
    } else {
        failed(PDF_FAILED_PREFIX@ + stderr)
    }
}

/// Result of a PDF conversion whose tool could not be started.
pub open spec fn convert_launch_failure_view(reason: Seq<char>) -> ParseView {
    failed(LAUNCH_FAILED_PREFIX@ + reason)
}

/// Result of a PDF conversion to `output_path`, for any run of the tool.
pub open spec fn convert_run_view(output_path: Seq<char>, run: ToolRun) -> ParseView {
    match run {
        ToolRun::LaunchFailed { reason } => convert_launch_failure_view(reason@),
        ToolRun::Exited { success, stdout: _, stderr } => convert_exit_view(
            success,
            output_path,
            lossy_utf8(stderr@),
        ),
    }
}

/// Arguments that extract the text of the document at `path`: the rich-text
/// subcommand when tables are wanted, the plain one otherwise, then the path.
pub fn parse_hwp_args(path: &str, include_tables: bool) -> (args: Vec<String>)
    ensures
        args@.len() == 2,
        args[0]@ == parse_subcommand(include_tables),
        args[1]@ == path@,
{
    let sub = if include_tables {
        RICH_TEXT_SUBCOMMAND
    } else {
        TEXT_SUBCOMMAND
    };
    let mut args: Vec<String> = Vec::new();
    args.push(String::from_str(sub));
    args.push(String::from_str(path));
    args
}

/// Arguments that render the document at `input_path` as a PDF at `output_path`.
pub fn convert_args(input_path: &str, output_path: &str) -> (args: Vec<String>)
    ensures
        args@.len() == 3,
        args[0]@ == CONVERT_SUBCOMMAND@,
        args[1]@ == input_path@,
        args[2]@ == output_path@,
{
    let mut args: Vec<String> = Vec::new();
    args.push(String::from_str(CONVERT_SUBCOMMAND));
    args.push(String::from_str(input_path));
    args.push(String::from_str(output_path));
    args
}

/// Whether an error stream says that the tool, or something it needs, is missing.
pub fn is_missing_tool_report(stderr: &str) -> (r: bool)
    ensures
        r == reports_missing_tool(stderr@),
{
    contains_text(stderr, NOT_FOUND_MARK) || contains_text(stderr, NO_SUCH_FILE_MARK)
}

/// Classifies a text extraction whose tool exited: its output on success; an
/// installation guide when the error stream reports something missing; the
/// error stream otherwise.
pub fn parse_exit_result(success: bool, stdout: String, stderr: String) -> (r: HwpParseResult)
    ensures
        r@ == parse_exit_view(success, stdout@, stderr@),
{
    if success {
        succeeded_with(stdout)
    } else if is_missing_tool_report(stderr.as_str()) {
        failed_with(String::from_str(INSTALL_GUIDE))
    } else {
        failed_with(joined(PARSE_FAILED_PREFIX, stderr.as_str()))
    }
}

/// Classifies a text extraction whose tool could not be started.
pub fn parse_launch_failure(reason: &str) -> (r: HwpParseResult)
    ensures
        r@ == parse_launch_failure_view(reason@),
{
    let mut msg = joined(LAUNCH_FAILED_PREFIX, reason);
    msg.append(LAUNCH_INSTALL_HINT);
    failed_with(msg)
}

/// Classifies any run of a text extraction, decoding the streams it needs.
pub fn parse_run_result(run: ToolRun) -> (r: HwpParseResult)
    ensures
        r@ == parse_run_view(run),
{
    match run {
        ToolRun::LaunchFailed { reason } => parse_launch_failure(reason.as_str()),
        ToolRun::Exited { success, stdout, stderr } => {
            let out = decode_lossy(&stdout);
            let err = decode_lossy(&stderr);
            parse_exit_result(success, out, err)
        },
    }
}

/// Classifies a PDF conversion to `output_path` whose tool exited.
pub fn convert_exit_result(success: bool, output_path: &str, stderr: String) -> (r: HwpParseResult)
    ensures
        r@ == convert_exit_view(success, output_path@, stderr@),
{
    if success {
        succeeded_with(joined(PDF_DONE_PREFIX, output_path))
    } else {
        failed_with(joined(PDF_FAILED_PREFIX, stderr.as_str()))
    }
}

/// Classifies a PDF conversion whose tool could not be started.
pub fn convert_launch_failure(reason: &str) -> (r: HwpParseResult)
    ensures
        r@ == convert_launch_failure_view(reason@),
{
    failed_with(joined(LAUNCH_FAILED_PREFIX, reason))
}

/// Classifies any run of a PDF conversion to `output_path`.
pub fn convert_run_result(output_path: &str, run: ToolRun) -> (r: HwpParseResult)
    ensures
        r@ == convert_run_view(output_path@, run),
{
    match run {
        ToolRun::LaunchFailed { reason } => convert_launch_failure(reason.as_str()),
        ToolRun::Exited { success, stdout: _, stderr } => {
            let err = decode_lossy(&stderr);
            convert_exit_result(success, output_path, err)
        },
    }
}

} // verus!
