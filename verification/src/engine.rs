//! The boundary with the preprocessing engine.
//!
//! The engine (tokenizer, grammar, diagnostic pretty-printer) is an outside
//! collaborator; its internal algorithms are out of scope here. Each entry
//! below constructs a fresh engine instance — a fresh source-position index
//! over the given text — uses it once, and drops it; a parse failure is
//! captured together with the index it was produced against, so a span is
//! never resolved against an index from another invocation. Parsing and
//! rendering are pure functions of the source text, the logical filename and
//! the theme, which is what lets their results be named below.
//!
//! Whenever the parse fails, the parse error the engine reports is the fatal
//! error if parsing aborted, and otherwise the first error the parser
//! recovered from.
//!
//! The engine's transform passes are part of the out-of-scope collaborator:
//! processing here means validating the text by parsing it, and an accepted
//! text is handed back verbatim.

use vstd::prelude::*;
use crate::host::opt_text_view;
use swc_common::FileName;
use swc_common::SourceMap;
use swc_common::Spanned;
use swc_common::errors::Handler;
use swc_common::sync::Lrc;
use swc_ecma_ast::EsVersion;
use swc_ecma_parser::Syntax;
use swc_ecma_parser::error::Error;
use swc_ecma_parser::parse_file_as_module;
use swc_error_reporters::ErrorEmitter;
use swc_error_reporters::GraphicalReportHandler;
use swc_error_reporters::GraphicalTheme;
use swc_error_reporters::ToPrettyDiagnostic;
use swc_error_reporters::handler::HandlerOpts;
use swc_error_reporters::handler::ThreadSafetyDiagnostics;

verus! {

/// The engine's parse-error value (a span into the source plus enough
/// structure to render a diagnostic), opaque here.
#[verifier::external_type_specification]
#[verifier::external_body]
pub struct ExParseError(Error);

/// The engine's source-position index, opaque here.
#[verifier::external_type_specification]
#[verifier::external_body]
pub struct ExSourceMap(SourceMap);

/// Whether the engine accepts the source text: parsing it as a module
/// reports no error, neither fatal nor recovered.
pub uninterp spec fn engine_accepts(src: Seq<char>) -> bool;

/// The human-readable position string (`file:line:col` style) that the
/// engine's source-position index resolves the parse error's span to.
pub uninterp spec fn error_position_of(src: Seq<char>, filename: Option<Seq<char>>) -> Seq<char>;

/// The complete rendered report (source excerpt, location marker, message)
/// for the parse error, under the plain theme (`styled == false`) or the
/// colored theme (`styled == true`).
pub uninterp spec fn error_report_of(
    src: Seq<char>,
    filename: Option<Seq<char>>,
    styled: bool,
) -> Seq<char>;

/// The engine's parsed tree serialized as JSON text, or the debug detail of
/// the serialization failure.
pub uninterp spec fn tree_json_of(src: Seq<char>) -> Result<Seq<char>, Seq<char>>;

/// One invocation's parse failure: the error together with the
/// source-position index of the engine instance that produced it, and the
/// source and filename they were built from. The pairing guarantees the
/// error's span is only ever resolved against its own index.
pub struct EngineFailure {
    err: Error,
    cm: Lrc<SourceMap>,
    src: String,
    filename: Option<String>,
}

impl EngineFailure {
    /// The source text this failure was produced from.
    pub closed spec fn src(&self) -> Seq<char> {
        self.src@
    }

    /// The logical filename the index was built with.
    pub closed spec fn filename(&self) -> Option<Seq<char>> {
        opt_text_view(self.filename)
    }
}

/// Relies on swc_ecma_parser::parse_file_as_module: the parse outcome is a
/// pure function of the source text, and the engine accepts exactly the
/// sources that parse as a module with no fatal and no recovered error.
#[verifier::external_body]
pub(crate) fn engine_check(src: &str) -> (r: bool)
    ensures
        r == engine_accepts(src@),
{
    let cm = Lrc::new(SourceMap::default());
    let fm = cm.new_source_file(Lrc::new(FileName::Anon), src.to_string());
    let mut recovered = Vec::new();
    let parsed = parse_file_as_module(&fm, Syntax::default(), EsVersion::default(), None, &mut recovered);
    parsed.is_ok() && recovered.is_empty()
}

/// Relies on swc_ecma_parser::parse_file_as_module: parsing a rejected
/// source reports a parse error, and the error and the index built from this
/// text and filename are functions of those inputs alone.
#[verifier::external_body]
pub(crate) fn capture_failure(src: &str, filename: &Option<String>) -> (f: EngineFailure)
    requires
        !engine_accepts(src@),
    ensures
        f.src() == src@,
        f.filename() == opt_text_view(*filename),
{
    let cm = Lrc::new(SourceMap::default());
    let name = if let Some(f) = filename { FileName::Real(f.clone().into()) } else { FileName::Anon };
    let fm = cm.new_source_file(Lrc::new(name), src.to_string());
    let mut recovered = Vec::new();
    let parsed = parse_file_as_module(&fm, Syntax::default(), EsVersion::default(), None, &mut recovered);
    let err = parsed.err().unwrap_or_else(|| recovered.remove(0));
    EngineFailure { err, cm, src: src.to_string(), filename: filename.clone() }
}

/// Relies on swc_common::SourceMap::span_to_string: resolving the failure's
/// span against its own index yields a deterministic `file:line:col`-style
/// position string.
#[verifier::external_body]
pub(crate) fn emit_position(f: &EngineFailure) -> (r: String)
    ensures
        r@ == error_position_of(f.src(), f.filename()),
{
    f.cm.span_to_string(f.err.span())
}

/// Relies on swc_error_reporters (Diagnostic::to_pretty_string with miette's
/// GraphicalReportHandler): rendering the failure against its own index
/// under a fixed theme (unicode colored, or unicode colorless) is
/// deterministic; if the engine collected no diagnostic the report is empty
/// rather than a failure.
#[verifier::external_body]
pub(crate) fn emit_report(f: &EngineFailure, styled: bool) -> (r: String)
    ensures
        r@ == error_report_of(f.src(), f.filename(), styled),
{
    let mut diags = ThreadSafetyDiagnostics::default();
    let emitter = ErrorEmitter { diagnostics: diags.clone(), cm: f.cm.clone(), opts: HandlerOpts::default() };
    f.err.clone().into_diagnostic(&Handler::with_emitter(true, false, Box::new(emitter))).emit();
    let gh = GraphicalReportHandler::new_themed(if styled { GraphicalTheme::unicode() } else { GraphicalTheme::unicode_nocolor() });
    if let Some(d) = diags.take().first() { d.to_pretty_string(&f.cm, false, &gh) } else { String::new() }
}

/// Relies on swc_ecma_parser::parse_file_as_module and serde_json::to_string:
/// the accepted source's module tree serializes to a deterministic JSON text,
/// or fails with a deterministic debug detail.
#[verifier::external_body]
pub(crate) fn serialize_tree(src: &str) -> (r: Result<String, String>)
    requires
        engine_accepts(src@),
    ensures
        tree_json_of(src@) == (match r {
            Ok(json) => Ok::<Seq<char>, Seq<char>>(json@),
            Err(detail) => Err::<Seq<char>, Seq<char>>(detail@),
        }),
{
    let cm = Lrc::new(SourceMap::default());
    let fm = cm.new_source_file(Lrc::new(FileName::Anon), src.to_string());
    let mut recovered = Vec::new();
    let parsed = parse_file_as_module(&fm, Syntax::default(), EsVersion::default(), None, &mut recovered);
    match serde_json::to_string(&parsed.unwrap()) {
        Ok(json) => Ok(json),
        Err(e) => Err(format!("{e:#?}")),
    }
}

} // verus!
