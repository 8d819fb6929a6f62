//! What a command that the build runs leaves behind.

use vstd::prelude::*;

use crate::text::string_from_utf8;

verus! {

/// How many bytes of each output stream of a command are kept.
pub const MAX_CMD_OUTPUT_SIZE: usize = 32768;

/// What a command that ran has written, and whether it succeeded.
#[derive(Debug)]
pub struct CommandOutput {
    pub stdout: Vec<u8>,
    pub stderr: Vec<u8>,
    pub success: bool,
}

/// The outcome of running a command.
#[derive(Debug)]
pub struct TestCommandResult {
    pub stderr: String,
    pub stdout: String,
    /// The command could be started.
    pub executed: bool,
    /// The command succeeded.
    pub status: bool,
}

/// The text kept of an output stream: its first bytes, up to the limit, where these are UTF-8,
/// and no text otherwise.
pub open spec fn kept_output(bytes: Seq<u8>) -> Seq<char> {
    let kept = if bytes.len() > MAX_CMD_OUTPUT_SIZE {
        bytes.take(MAX_CMD_OUTPUT_SIZE as int)
    } else {
        bytes
    };
    if vstd::utf8::valid_utf8(kept) {
        vstd::utf8::decode_utf8(kept)
    } else {
        Seq::empty()
    }
}

/// Keeps the text of an output stream.
pub fn keep_output(bytes: Vec<u8>) -> (r: String)
    ensures
        r@ == kept_output(bytes@),
{
    let mut kept = bytes;
    kept.truncate(MAX_CMD_OUTPUT_SIZE);
    assert(kept@ =~= if bytes@.len() > MAX_CMD_OUTPUT_SIZE {
        bytes@.take(MAX_CMD_OUTPUT_SIZE as int)
    } else {
        bytes@
    });
    match string_from_utf8(kept) {
        Some(text) => text,
        None => String::new(),
    }
}

impl TestCommandResult {
    /// The outcome of a command that left this output, or that could not be run.
    pub fn from_output(output: Option<CommandOutput>) -> (r: Self)
        ensures
            r.executed == output is Some,
            r.status == (output matches Some(out) && out.success),
            r.stdout@ == (match output {
                Some(out) => kept_output(out.stdout@),
                None => Seq::empty(),
            }),
            r.stderr@ == (match output {
                Some(out) => kept_output(out.stderr@),
                None => Seq::empty(),
            }),
    {
        match output {
            Some(out) => TestCommandResult {
                stderr: keep_output(out.stderr),
                stdout: keep_output(out.stdout),
                executed: true,
                status: out.success,
            },
            None => TestCommandResult {
                stderr: String::new(),
                stdout: String::new(),
                executed: false,
                status: false,
            },
        }
    }
}

} // verus!
