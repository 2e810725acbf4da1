//! The error-artifact builder.
//!
//! Turns one parse failure into the host-facing artifact: a one-line summary
//! carrying the resolved source position, plus the full report rendered twice
//! — once per theme — through the shared append buffer.

use vstd::prelude::*;
use vstd::string::StringExecFns;
use crate::buffer::ReportBuffer;
use crate::engine::EngineFailure;
use crate::engine::capture_failure;
use crate::engine::emit_position;
use crate::engine::emit_report;
use crate::engine::engine_accepts;
use crate::engine::error_position_of;
use crate::engine::error_report_of;
use crate::host::opt_text_view;

verus! {

/// The host-facing error value for a parse failure: a short summary and the
/// two complete report renderings as named attributes.
pub struct ErrorArtifact {
    /// One line: `Parse Error at ` followed by the resolved position.
    pub message: String,
    /// The full report under the plain theme.
    pub source_code: String,
    /// The full report under the colored theme, same content with style
    /// markers embedded.
    pub source_code_color: String,
}

/// The one-line summary for the parse failure of this source and filename.
pub open spec fn summary_of(src: Seq<char>, filename: Option<Seq<char>>) -> Seq<char> {
    "Parse Error at "@ + error_position_of(src, filename)
}

/// Whether `a` is exactly the artifact that a parse failure of this source
/// and filename produces: the summary plus the plain and colored reports.
pub open spec fn artifact_matches(
    a: ErrorArtifact,
    src: Seq<char>,
    filename: Option<Seq<char>>,
) -> bool {
    &&& a.message@ == summary_of(src, filename)
    &&& a.source_code@ == error_report_of(src, filename, false)
    &&& a.source_code_color@ == error_report_of(src, filename, true)
}

/// Renders one parse failure under one theme, appending the complete report
/// to the shared buffer.
pub fn render_report(failure: &EngineFailure, styled: bool, out: &mut ReportBuffer)
    ensures
        final(out)@ == old(out)@ + error_report_of(failure.src(), failure.filename(), styled),
{
    let fragment = emit_report(failure, styled);
    out.append(fragment.as_str());
}

/// Builds the host-facing artifact for the parse failure of this source:
/// captures the failure with its own source-position index, resolves the
/// position for the summary line, then renders the report under both themes.
/// Both renders always complete; the builder itself never fails.
pub fn build_error_artifact(src: &str, filename: &Option<String>) -> (a: ErrorArtifact)
    requires
        !engine_accepts(src@),
    ensures
        artifact_matches(a, src@, opt_text_view(*filename)),
{
    let failure = capture_failure(src, filename);
    let position = emit_position(&failure);
    let message = String::from_str("Parse Error at ").concat(position.as_str());
    let mut plain = ReportBuffer::new();
    render_report(&failure, false, &mut plain);
    let mut colored = ReportBuffer::new();
    render_report(&failure, true, &mut colored);
    proof {
        assert(plain@ =~= error_report_of(src@, opt_text_view(*filename), false));
        assert(colored@ =~= error_report_of(src@, opt_text_view(*filename), true));
    }
    ErrorArtifact {
        message,
        source_code: plain.into_string(),
        source_code_color: colored.into_string(),
    }
}

/// Rendering determinism: two reports rendered from the same source,
/// filename and theme are identical.
pub proof fn lemma_render_deterministic(
    first: Seq<char>,
    second: Seq<char>,
    src: Seq<char>,
    filename: Option<Seq<char>>,
    styled: bool,
)
    requires
        first == error_report_of(src, filename, styled),
        second == error_report_of(src, filename, styled),
    ensures
        first == second,
{
}

/// Artifact agreement: two artifacts built for the same source and filename
/// carry identical message, plain report and colored report.
pub proof fn lemma_artifact_agreement(
    a: ErrorArtifact,
    b: ErrorArtifact,
    src: Seq<char>,
    filename: Option<Seq<char>>,
)
    requires
        artifact_matches(a, src, filename),
        artifact_matches(b, src, filename),
    ensures
        a.message@ == b.message@,
        a.source_code@ == b.source_code@,
        a.source_code_color@ == b.source_code_color@,
{
}

} // verus!
