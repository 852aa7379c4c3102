//! A one-shot bzip2 compressor over the `bzip2` crate's stream.
use vstd::prelude::*;

verus! {

/// The `bzip2` crate's compression stream, carried as an opaque value.
#[verifier::external_type_specification]
#[verifier::external_body]
pub struct ExCompress(bzip2::Compress);

/// The ways a bzip2 call can fail.
#[derive(Clone, Copy, Debug, PartialEq, Eq, Structural)]
pub enum Bzip2Error {
    Config,
    Params,
    Memory,
    InvalidSequence,
}

/// The libbzip2 return code of each failure.
pub open spec fn error_code(e: Bzip2Error) -> int {
    match e {
        Bzip2Error::Config => -9,
        Bzip2Error::Params => -2,
        Bzip2Error::Memory => -3,
        Bzip2Error::InvalidSequence => -1,
    }
}

impl Bzip2Error {
    /// The failure that a libbzip2 return code reports, if it reports one of
    /// these.
    pub fn from_code(code: i32) -> (r: Option<Bzip2Error>)
        ensures
            match r {
                Some(e) => error_code(e) == code,
                None => forall|e: Bzip2Error| error_code(e) != code,
            },
    {
        if code == -9 {
            Some(Bzip2Error::Config)
        } else if code == -2 {
            Some(Bzip2Error::Params)
        } else if code == -3 {
            Some(Bzip2Error::Memory)
        } else if code == -1 {
            Some(Bzip2Error::InvalidSequence)
        } else {
            None
        }
    }
}

/// Relies on bzip2::Compress::new with level 1 (100k blocks) and the
/// default work factor: it hands back a fresh compression stream.
#[verifier::external_body]
fn new_stream() -> (r: bzip2::Compress) {
    bzip2::Compress::new(bzip2::Compression::new(1), 0)
}

/// Relies on bzip2::Compress::compress with Action::Finish: it writes into
/// the given output, whose length does not change, and reports the only
/// failure that compressing can have, a call out of sequence.
#[verifier::external_body]
fn finish_into(stream: &mut bzip2::Compress, input: &[u8], output: &mut Vec<u8>) -> (r: Result<
    (),
    Bzip2Error,
>)
    ensures
        final(output)@.len() == old(output)@.len(),
        r matches Err(e) ==> e == Bzip2Error::InvalidSequence,
{
    match stream.compress(input, output.as_mut_slice(), bzip2::Action::Finish) {
        Ok(_) => Ok(()),
        Err(_) => Err(Bzip2Error::InvalidSequence),
    }
}

/// Compresses input with bzip2.
pub struct Compressor {
    stream: bzip2::Compress,
}

impl Compressor {
    /// A compressor with a fresh stream.
    pub fn new() -> (r: Result<Compressor, Bzip2Error>)
        ensures
            r is Ok,
    {
        Ok(Compressor { stream: new_stream() })
    }

    /// Compress `input` and finish the stream. The output buffer has the
    /// length of the input; the compressed bytes stand at its start.
    pub fn compress(&mut self, input: &[u8]) -> (r: Result<Vec<u8>, Bzip2Error>)
        ensures
            r matches Ok(v) ==> v@.len() == input@.len(),
            r matches Err(e) ==> e == Bzip2Error::InvalidSequence,
    {
        let mut output: Vec<u8> = vec![0u8; input.len()];
        match finish_into(&mut self.stream, input, &mut output) {
            Ok(()) => Ok(output),
            Err(e) => Err(e),
        }
    }
}

} // verus!
