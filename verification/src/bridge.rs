//! The invocation bridge: the two host-callable operations.
//!
//! `process` turns source text into transformed text; `parse` turns it into
//! the engine's tree, serialized as JSON text for the host to revive as a
//! structured value. Both decode the host options first, and both report a
//! parse failure as the same error artifact: on a parse failure, `parse`
//! deliberately re-invokes `process` on the identical inputs and propagates
//! whatever artifact that produces, so the two entry points agree
//! byte-for-byte on error presentation.

use vstd::prelude::*;
use vstd::pervasive::unreached;
use vstd::string::StringExecFns;
use crate::artifact::ErrorArtifact;
use crate::artifact::artifact_matches;
use crate::artifact::build_error_artifact;
use crate::engine::engine_accepts;
use crate::engine::engine_check;
use crate::engine::serialize_tree;
use crate::engine::tree_json_of;
use crate::host::HostValue;
use crate::host::decode_options;
use crate::host::spec_decode;

verus! {

/// A failure of one bridge operation.
pub enum BridgeError {
    /// Malformed host-supplied configuration; reported before the engine is
    /// ever invoked.
    Options { message: String },
    /// The source text failed to parse: the full error artifact.
    Parse(ErrorArtifact),
    /// A successfully parsed tree failed to serialize — an internal contract
    /// violation between engine and bridge, not a user error.
    Internal { message: String },
}

/// The invocation bridge. It holds no state: every call constructs a fresh
/// engine instance and a fresh source-position index, because reusing either
/// across calls corrupts reported source locations.
pub struct Preprocessor {}

impl Preprocessor {
    /// A fresh bridge.
    pub fn new() -> (r: Preprocessor) {
        Preprocessor {  }
    }

    /// Decodes the options, invokes the engine on the source text, and
    /// returns the engine's output text — the accepted source verbatim, the
    /// engine's transform passes being out of scope — or the decoding error,
    /// or the parse failure's artifact.
    pub fn process(&self, src: String, options: &HostValue) -> (r: Result<String, BridgeError>)
        ensures
            (match spec_decode(*options) {
                Err(m) => r matches Err(BridgeError::Options { message }) && message@
                    == "Options parsing error: "@ + m,
                Ok(d) => if engine_accepts(src@) {
                    r matches Ok(out) && out@ == src@
                } else {
                    r matches Err(BridgeError::Parse(a)) && artifact_matches(a, src@, d.0)
                },
            }),
    {
        let decoded = match decode_options(options) {
            Ok(o) => o,
            Err(detail) => {
                return Err(
                    BridgeError::Options {
                        message: String::from_str("Options parsing error: ").concat(
                            detail.as_str(),
                        ),
                    },
                );
            },
        };
        if engine_check(src.as_str()) {
            Ok(src)
        } else {
            let a = build_error_artifact(src.as_str(), &decoded.filename);
            Err(BridgeError::Parse(a))
        }
    }

    /// Decodes the options, invokes the engine on the source text, and
    /// returns the parsed tree as JSON text. On a parse failure it re-invokes
    /// `process` on the same inputs and propagates that artifact, so both
    /// operations present the identical error. A tree that fails to
    /// serialize is reported as an internal inconsistency, distinct from a
    /// parse error.
    pub fn parse(&self, src: String, options: &HostValue) -> (r: Result<String, BridgeError>)
        ensures
            (match spec_decode(*options) {
                Err(m) => r matches Err(BridgeError::Options { message }) && message@
                    == "Options parsing error: "@ + m,
                Ok(d) => if engine_accepts(src@) {
                    match tree_json_of(src@) {
                        Ok(json) => r matches Ok(out) && out@ == json,
                        Err(detail) => r matches Err(BridgeError::Internal { message })
                            && message@
                            == "Unexpected serialization error; please open an issue with the following debug info: "@
                            + detail,
                    }
                } else {
                    r matches Err(BridgeError::Parse(a)) && artifact_matches(a, src@, d.0)
                },
            }),
    {
        match decode_options(options) {
            Ok(_) => (),
            Err(detail) => {
                return Err(
                    BridgeError::Options {
                        message: String::from_str("Options parsing error: ").concat(
                            detail.as_str(),
                        ),
                    },
                );
            },
        };
        if engine_check(src.as_str()) {
            match serialize_tree(src.as_str()) {
                Ok(json) => Ok(json),
                Err(detail) => Err(
                    BridgeError::Internal {
                        message: String::from_str(
                            "Unexpected serialization error; please open an issue with the following debug info: ",
                        ).concat(detail.as_str()),
                    },
                ),
            }
        } else {
            match self.process(src, options) {
                Err(e) => Err(e),
                Ok(_) => unreached(),
            }
        }
    }
}

} // verus!
