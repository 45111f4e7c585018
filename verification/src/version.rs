//! Detect the store version for Replica Set members.
//!
//! Version detection is an ordered chain of strategies.  Each strategy
//! obtains some text (the probe command's output, or a file's contents) and
//! decodes it by extracting a single embedded brace-delimited build-info
//! block and reading the version and source-checkout strings out of it; the
//! remaining fields are preserved verbatim as opaque extra metadata.  The
//! chain runs strategies in order and finishes at the first success,
//! propagating the last failure when every strategy fails.
use vstd::prelude::*;

use crate::conf::VersionDetect;
use crate::conf::VersionProbeCommand;

verus! {

/// The version of the store software, as one winning strategy reported it.
#[derive(Debug)]
pub struct StoreVersion {
    /// The source checkout identifier the build was made from, if reported.
    pub checkout: Option<String>,
    /// Everything else the build info block carried, re-encoded verbatim.
    pub extra: Option<String>,
    /// The version number string.
    pub number: String,
}

/// Unable to find version information.
#[derive(Clone, Copy, PartialEq, Eq, Structural, Debug)]
pub struct VersionNotInOutput {}

/// Why decoding version text failed.
#[derive(Clone, Copy, PartialEq, Eq, Structural, Debug)]
pub enum VersionDecodeError {
    /// The captured output is not UTF-8 text.
    NotText,
    /// The output carries no build info block.
    NotInOutput(VersionNotInOutput),
    /// The embedded build info block is malformed.
    InvalidBuildInfo,
}

/// What decoding the bytes as UTF-8 text yields.
///
/// Named result of String::from_utf8; it depends on the bytes alone.
pub uninterp spec fn utf8_decoded(bytes: Seq<u8>) -> Option<Seq<char>>;

/// What parsing a build info block yields: the version string, the source
/// checkout string, and the remaining fields re-encoded as one JSON object.
///
/// Named result of parsing the block with serde_json; it depends on the
/// block text alone.
pub uninterp spec fn build_info_fields(block: Seq<char>) -> Option<
    (Seq<char>, Seq<char>, Seq<char>),
>;

/// Whether text carries the build info marker at position i: the words
/// "Build Info: " followed immediately by an opening brace.
pub open spec fn marker_at(text: Seq<char>, i: int) -> bool {
    0 <= i && i + 13 <= text.len() && text.subrange(i, i + 13) == "Build Info: {"@
}

/// Whether text has a closing brace at position j.
pub open spec fn close_at(text: Seq<char>, j: int) -> bool {
    0 <= j < text.len() && text[j] == '}'
}

/// Whether the extraction pattern matches the text at all: a marker with a
/// closing brace at or after its opening brace.
pub open spec fn spec_capture_exists(text: Seq<char>) -> bool {
    exists|i: int, j: int| marker_at(text, i) && i + 12 <= j && close_at(text, j)
}

/// Whether (i, j) delimit the block the extraction pattern captures: i is
/// the first marker position that still has a closing brace after its
/// opening brace, and j is the last closing brace of the whole text.
pub open spec fn spec_capture(text: Seq<char>, i: int, j: int) -> bool {
    &&& marker_at(text, i)
    &&& i + 12 <= j
    &&& close_at(text, j)
    &&& forall|k: int| marker_at(text, k) && k + 12 <= j ==> k >= i
    &&& forall|k: int| close_at(text, k) ==> k <= j
}

/// Relies on String::from_utf8: whether the bytes are UTF-8 text, and the
/// text they spell.
#[verifier::external_body]
fn decode_utf8(data: &Vec<u8>) -> (text: Option<String>)
    ensures
        match text {
            Some(t) => utf8_decoded(data@) == Some(t@),
            None => utf8_decoded(data@) is None,
        },
{
    String::from_utf8(data.clone()).ok()
}

/// Relies on regex::Regex::captures with the fixed pattern
/// `(?s)Build Info: (\{.*\})`: the match starts at the leftmost marker that
/// still has a closing brace at or after its opening brace, and the greedy
/// group runs through the last closing brace of the text.
#[verifier::external_body]
fn capture_build_info(text: &str) -> (block: Option<String>)
    ensures
        match block {
            Some(c) => exists|i: int, j: int|
                spec_capture(text@, i, j) && c@ == text@.subrange(i + 12, j + 1),
            None => !spec_capture_exists(text@),
        },
{
    let pattern = regex::Regex::new(r"(?s)Build Info: (\{.*\})")
        .expect("build info regular expression failed to compile");
    match pattern.captures(text) {
        None => None,
        Some(found) => {
            let block = found.get(1).expect("matched without capture group").as_str();
            Some(block.to_string())
        },
    }
}

/// Relies on serde_json::from_str and serde_json::to_string: splits a JSON
/// object into its "version" and "gitVersion" strings and its remaining
/// fields re-encoded as one object, their order preserved; any other shape
/// fails.
#[verifier::external_body]
fn parse_build_info(block: &str) -> (fields: Option<(String, String, String)>)
    ensures
        match fields {
            Some(f) => build_info_fields(block@) == Some((f.0@, f.1@, f.2@)),
            None => build_info_fields(block@) is None,
        },
{
    let value = match serde_json::from_str::<serde_json::Value>(block) { Ok(v) => v, Err(_) => return None };
    let mut object = match value { serde_json::Value::Object(o) => o, _ => return None };
    let number = match object.shift_remove("version") { Some(serde_json::Value::String(s)) => s, _ => return None };
    let checkout = match object.shift_remove("gitVersion") { Some(serde_json::Value::String(s)) => s, _ => return None };
    let extra = match serde_json::to_string(&serde_json::Value::Object(object)) { Ok(s) => s, Err(_) => return None };
    Some((number, checkout, extra))
}

/// Builds the store version out of the fields a build info block yielded.
///
/// A missing field set is the block's parse failure; a present one maps to a
/// version with the number, the checkout, and the extra metadata filled in.
pub fn version_from_fields(fields: Option<(String, String, String)>) -> (result: Result<
    StoreVersion,
    VersionDecodeError,
>)
    ensures
        match fields {
            None => result == Err::<StoreVersion, VersionDecodeError>(
                VersionDecodeError::InvalidBuildInfo,
            ),
            Some(f) => result matches Ok(version) && version.number == f.0 && version.checkout
                == Some(f.1) && version.extra == Some(f.2),
        },
{
    match fields {
        None => Err(VersionDecodeError::InvalidBuildInfo),
        Some((number, checkout, extra)) => Ok(
            StoreVersion { checkout: Some(checkout), extra: Some(extra), number },
        ),
    }
}

/// Whether a decode result matches what the named block fields demand.
pub open spec fn spec_decoded_from_block(
    result: Result<StoreVersion, VersionDecodeError>,
    block: Seq<char>,
) -> bool {
    match build_info_fields(block) {
        None => result == Err::<StoreVersion, VersionDecodeError>(
            VersionDecodeError::InvalidBuildInfo,
        ),
        Some(fields) => {
            &&& result matches Ok(version)
            &&& version.number@ == fields.0
            &&& version.checkout matches Some(c) && c@ == fields.1
            &&& version.extra matches Some(e) && e@ == fields.2
        },
    }
}

/// Decode the output of the version probe into a store version.
///
/// The output must be UTF-8 text holding one embedded build info block; the
/// block is captured by the fixed extraction pattern and parsed, and decoding
/// fails with the exact reason otherwise.
pub fn mongod_version_decode(data: Vec<u8>) -> (result: Result<StoreVersion, VersionDecodeError>)
    ensures
        ({
            match utf8_decoded(data@) {
                None => result == Err::<StoreVersion, VersionDecodeError>(
                    VersionDecodeError::NotText,
                ),
                Some(text) => if !spec_capture_exists(text) {
                    result == Err::<StoreVersion, VersionDecodeError>(
                        VersionDecodeError::NotInOutput(VersionNotInOutput {}),
                    )
                } else {
                    exists|i: int, j: int|
                        spec_capture(text, i, j) && spec_decoded_from_block(
                            result,
                            text.subrange(i + 12, j + 1),
                        )
                },
            }
        }),
{
    let text = match decode_utf8(&data) {
        Some(text) => text,
        None => {
            return Err(VersionDecodeError::NotText);
        },
    };
    let block = match capture_build_info(text.as_str()) {
        Some(block) => block,
        None => {
            return Err(VersionDecodeError::NotInOutput(VersionNotInOutput {}));
        },
    };
    let fields = parse_build_info(block.as_str());
    let result = version_from_fields(fields);
    proof {
        let (i, j) = choose|i: int, j: int|
            spec_capture(text@, i, j) && block@ == text@.subrange(i + 12, j + 1);
        assert(spec_capture(text@, i, j));
        assert(spec_decoded_from_block(result, text@.subrange(i + 12, j + 1)));
    }
    result
}

/// One configured way to obtain the store version text.
pub enum VersionStrategy {
    /// Run a command and decode its output.
    Command(VersionProbeCommand),
    /// Read a file and decode its contents.
    File(String),
}

/// Why one strategy of the chain failed.
pub enum StrategyError {
    /// The strategy could not obtain its text: the probe command failed to
    /// run, or the file could not be read.
    Probe(String),
    /// The obtained text did not decode into a version.
    Decode(VersionDecodeError),
}

/// Default command to detect the mongod version.
pub fn default_command_conf() -> (conf: VersionProbeCommand)
    ensures
        conf.command@ == "mongod"@,
        conf.args@.len() == 1,
        conf.args@[0]@ == "--version"@,
        conf.env@.len() == 0,
{
    let mut args: Vec<String> = Vec::new();
    args.push("--version".to_owned());
    VersionProbeCommand { args, command: "mongod".to_owned(), env: Vec::new() }
}

/// Configure the store version detection strategies.
///
/// The probe command runs first, the configured one or the default; a
/// configured version file is tried after it.
pub fn configure_strategies(detect: VersionDetect) -> (chain: Vec<VersionStrategy>)
    ensures
        chain@.len() == (if detect.file is Some {
            2int
        } else {
            1int
        }),
        match detect.command {
            Some(conf) => chain@[0] == VersionStrategy::Command(conf),
            None => {
                &&& chain@[0] matches VersionStrategy::Command(conf)
                &&& conf.command@ == "mongod"@
                &&& conf.args@.len() == 1
                &&& conf.args@[0]@ == "--version"@
                &&& conf.env@.len() == 0
            },
        },
        detect.file matches Some(path) ==> chain@[1] == VersionStrategy::File(path),
{
    let mut chain: Vec<VersionStrategy> = Vec::new();

    // Try checking the mongod command first.
    let conf = match detect.command {
        Some(conf) => conf,
        None => default_command_conf(),
    };
    chain.push(VersionStrategy::Command(conf));

    // Try checking a version file after.
    if let Some(path) = detect.file {
        chain.push(VersionStrategy::File(path));
    }
    chain
}

/// The next step of the version detection chain.
pub enum ChainStep {
    /// Run the strategy at this position and report its outcome.
    Run(usize),
    /// The chain finished with the first successful strategy's version.
    Done(StoreVersion),
    /// Every strategy failed; the last failure is carried.
    Failed(StrategyError),
}

/// The step that follows one strategy's outcome in a chain of the given
/// length: a success finishes the chain at once, a failure moves to the next
/// strategy, and the last strategy's failure ends the chain with it.
pub open spec fn spec_chain_next(
    count: int,
    index: int,
    outcome: Result<StoreVersion, StrategyError>,
) -> ChainStep {
    match outcome {
        Ok(version) => ChainStep::Done(version),
        Err(error) => if index + 1 < count {
            ChainStep::Run((index + 1) as usize)
        } else {
            ChainStep::Failed(error)
        },
    }
}

/// The first step of the version detection chain.
pub fn chain_start(strategies: &Vec<VersionStrategy>) -> (step: ChainStep)
    requires
        strategies@.len() >= 1,
    ensures
        step == ChainStep::Run(0usize),
{
    ChainStep::Run(0)
}

/// Advance the version detection chain by one strategy's outcome.
pub fn chain_next(
    strategies: &Vec<VersionStrategy>,
    index: usize,
    outcome: Result<StoreVersion, StrategyError>,
) -> (step: ChainStep)
    requires
        index < strategies@.len(),
    ensures
        step == spec_chain_next(strategies@.len() as int, index as int, outcome),
{
    match outcome {
        Ok(version) => ChainStep::Done(version),
        Err(error) => {
            let count = strategies.len();
            if index < count - 1 {
                ChainStep::Run(index + 1)
            } else {
                ChainStep::Failed(error)
            }
        },
    }
}

/// Law: when the first strategy fails and the second succeeds, the chain
/// finishes with the second strategy's version; a finished chain runs no
/// further strategy, so a third is never attempted.
pub proof fn lemma_chain_stops_at_first_success(
    count: int,
    error: StrategyError,
    version: StoreVersion,
)
    requires
        count >= 2,
    ensures
        spec_chain_next(count, 0, Err::<StoreVersion, StrategyError>(error)) == ChainStep::Run(
            1usize,
        ),
        spec_chain_next(count, 1, Ok::<StoreVersion, StrategyError>(version)) == ChainStep::Done(
            version,
        ),
{
}

} // verus!
