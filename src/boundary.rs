//! The entry points that take a program image: `validate` and `parse`.
//!
//! Both consult the engine only on an image that is at least as long as the
//! fixed header (four magic bytes and a four-byte version); a shorter one is
//! rejected here. Their callers run the engine and pass its answer in.
use vstd::prelude::*;
use crate::handle::Module;

verus! {

/// Length of the magic number and version that open every program image.
pub const HEADER_LEN: usize = 8;

/// Whether `input` is long enough to hold the header.
pub open spec fn has_header(input: Seq<u8>) -> bool {
    input.len() >= HEADER_LEN
}

/// What `validate` answers, given the engine's verdict on the same input.
pub open spec fn accepted(input: Seq<u8>, engine_verdict: bool) -> bool {
    has_header(input) && engine_verdict
}

/// Whether `parse` succeeds, given the module handle the engine returned.
pub open spec fn parsed(input: Seq<u8>, raw_module: usize) -> bool {
    has_header(input) && raw_module != 0
}

/// Why parsing failed.
#[derive(Clone, Copy, Debug, PartialEq, Eq, Structural)]
pub enum ParseError {
    /// The image is shorter than its header.
    TooShort,
    /// The engine rejected the image as malformed or invalid.
    Rejected,
}

/// Whether the engine is to be consulted on `input` at all.
pub fn needs_engine(input: &[u8]) -> (r: bool)
    ensures
        r == has_header(input@),
{
    input.len() >= HEADER_LEN
}

/// Whether `input` is a valid program, given `engine_verdict`, the engine's
/// answer for it (ignored when the engine is not to be consulted).
pub fn validate(input: &[u8], engine_verdict: bool) -> (r: bool)
    ensures
        r == accepted(input@, engine_verdict),
{
    needs_engine(input) && engine_verdict
}

/// The module parsed from `input`, given `raw_module`, the handle the engine
/// returned for it (null where it rejected the input). The engine is
/// consulted only on inputs that hold a header, so on others no handle can
/// have been made.
pub fn parse(input: &[u8], raw_module: usize) -> (r: Result<Module, ParseError>)
    requires
        !has_header(input@) ==> raw_module == 0,
    ensures
        r is Ok <==> parsed(input@, raw_module),
        r is Ok ==> r->Ok_0@ == raw_module,
        r is Err ==> (r->Err_0 == ParseError::TooShort <==> !has_header(input@)),
{
    if !needs_engine(input) {
        return Err(ParseError::TooShort);
    }
    match Module::from_handle(raw_module) {
        Some(m) => Ok(m),
        None => Err(ParseError::Rejected),
    }
}

/// An image shorter than the header is neither valid nor parsed, whatever
/// the engine would say.
pub proof fn lemma_short_input_rejected(input: Seq<u8>, engine_verdict: bool, raw_module: usize)
    requires
        input.len() < HEADER_LEN,
    ensures
        !accepted(input, engine_verdict),
        !parsed(input, raw_module),
{
}

/// Where the engine's verdict on an image and its parse of the same image
/// agree, `validate` and `parse` agree on that image too.
pub proof fn lemma_validate_agrees_with_parse(input: Seq<u8>, engine_verdict: bool, raw_module: usize)
    requires
        has_header(input) ==> (engine_verdict <==> raw_module != 0),
    ensures
        accepted(input, engine_verdict) == parsed(input, raw_module),
{
}

} // verus!
