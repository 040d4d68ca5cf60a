//! A cross-boundary marshalling layer for decompiling game bytecode: it
//! flattens the parsed source graph into fixed-layout, self-contained
//! snapshots that can be handed across a native module boundary to an
//! external decompiler, and it interprets and safely reclaims what the
//! other side hands back.
//!
//! The surrounding program performs the raw boundary call itself (loading
//! the native module and invoking its entry points); this crate builds the
//! snapshots the call consumes, says exactly what they contain, and turns
//! the call's return value into an owned result or a structured error
//! while accounting for the foreign-owned string's release.

use vstd::prelude::*;

pub mod dynlib;
mod error;
pub mod gamedata;
pub mod gamemaker;
pub mod primitives;
mod text;

pub use crate::error::Error;
pub use crate::gamemaker::Code;
pub use crate::gamemaker::GameContext;

use crate::dynlib::free_cs_string;
use crate::dynlib::ReturnValue;
use crate::gamedata::GameData;
use crate::gamemaker::code::code_build_ok;
use crate::gamemaker::code::code_snapshot_ok;
use crate::gamemaker::code::data_limits_ok;
use crate::gamemaker::code::parents_acyclic;
use crate::gamemaker::game_context::context_snapshot_ok;
use crate::text::append_str;
use crate::text::decimal_string;
use crate::text::spec_decimal;

verus! {

/// The context note a failed snapshot build carries out of
/// [`GameContext::decompile_request`].
pub open spec fn request_ctx_msg(index: int) -> Seq<char> {
    "converting LibGM code entry #"@ + spec_decimal(index) + " into FFI struct"@
}

/// The message of the failure reported when the boundary call signals an
/// unrecognized error code: it embeds the code and the returned detail.
pub open spec fn coded_failure_msg(code: int, detail: Seq<char>) -> Seq<char> {
    "Decompilation failed with error code "@ + spec_decimal(code) + ": "@ + detail
}

impl<'a> GameContext<'a> {
    /// Builds a new game-context snapshot from the source data.
    ///
    /// This walks every instruction of every code entry, so the snapshot
    /// should be reused across decompile calls; rebuild it after any
    /// structural change to the source data.
    pub fn new(gm_data: &'a GameData) -> (r: Result<Self, Error>)
        ensures
            r is Ok,
            context_snapshot_ok(r.unwrap(), *gm_data),
    {
        Self::try_from_libgm(gm_data)
    }

    /// Builds the code snapshot a decompile call sends across the
    /// boundary: the first half of a decompile call, before the boundary
    /// is invoked.
    ///
    /// Succeeds exactly when the requested entry and everything it
    /// references can be snapshotted; a failure short-circuits before any
    /// boundary call and carries a context note naming the entry.
    pub fn decompile_request(&self, code_ref: u32, gm_data: &'a GameData) -> (r: Result<
        Code<'a>,
        Error,
    >)
        requires
            parents_acyclic(*gm_data),
            data_limits_ok(*gm_data),
        ensures
            r is Ok <==> code_build_ok(*gm_data, code_ref as int),
            r is Ok ==> code_snapshot_ok(r.unwrap(), *gm_data, code_ref as int),
            r is Err ==> r->Err_0.contexts_view().len() > 0 && r->Err_0.contexts_view().last()
                == request_ctx_msg(code_ref as int),
            (code_ref as int) >= gm_data.codes@.len() ==> r is Err
                && r->Err_0.message_view() == crate::gamemaker::code::code_err_msg(
                code_ref as int,
            ),
    {
        match Code::try_from_libgm(code_ref, gm_data) {
            Ok(code) => Ok(code),
            Err(e) => {
                let mut note = "converting LibGM code entry #".to_owned();
                append_str(&mut note, decimal_string(code_ref).as_str());
                append_str(&mut note, " into FFI struct");
                Err(e.push_context(note))
            },
        }
    }

    /// Interprets what the boundary call returned: the second half of a
    /// decompile call.
    ///
    /// Error code zero means success: the foreign string's bytes are
    /// revalidated as UTF-8 and copied into an owned result. Code one
    /// means the bytes are the failure message itself; any other code
    /// means they are detail to embed in a generated message that also
    /// reports the code. Bytes that are not valid UTF-8 are a transport
    /// error distinguishable from a reported failure. On every path the
    /// handle is consumed and its raw address is returned, so the caller
    /// can — and must — hand it to the boundary's release entry point
    /// exactly once.
    pub fn decompile_result(ret: ReturnValue) -> (r: (Result<String, Error>, usize))
        ensures
            r.1 == ret.string.addr_spec(),
            ({
                let bytes = ret.string.bytes_view();
                let valid = vstd::utf8::valid_utf8(bytes);
                let decoded = vstd::utf8::decode_utf8(bytes);
                &&& (valid && ret.error == 0 ==> r.0 is Ok && r.0.unwrap()@ == decoded)
                &&& (valid && ret.error == 1 ==> r.0 is Err && r.0->Err_0.message_view()
                    == decoded && r.0->Err_0.contexts_view() =~= seq![
                    "decompiling code entry using Underanalyzer"@,
                ])
                &&& (valid && ret.error >= 2 ==> r.0 is Err && r.0->Err_0.message_view()
                    == coded_failure_msg(ret.error as int, decoded)
                    && r.0->Err_0.contexts_view() =~= seq![
                    "decompiling code entry using Underanalyzer"@,
                ])
                &&& (!valid ==> r.0 is Err && r.0->Err_0.message_view()
                    == "returned bytes are not valid UTF-8"@ && r.0->Err_0.contexts_view()
                    =~= seq![
                    "validating UTF-8"@,
                    "constructing string from return value of Underanalyzer DecompileToString"@,
                ])
            }),
    {
        let ReturnValue { string, error } = ret;

        let text: Result<String, Error> = match string.to_str() {
            Ok(s) => Ok(s.to_owned()),
            Err(e) => Err(
                e.push_context(
                    "constructing string from return value of Underanalyzer DecompileToString".to_owned(),
                ),
            ),
        };

        // The handle is consumed here, on every path, before control
        // returns: the caller receives the one address to release.
        let addr = free_cs_string(string);

        match text {
            Err(e) => (Err(e), addr),
            Ok(t) => {
                if error == 0 {
                    (Ok(t), addr)
                } else if error == 1 {
                    (
                        Err(
                            Error::new(t).push_context(
                                "decompiling code entry using Underanalyzer".to_owned(),
                            ),
                        ),
                        addr,
                    )
                } else {
                    let mut message = "Decompilation failed with error code ".to_owned();
                    append_str(&mut message, decimal_string(error as u32).as_str());
                    append_str(&mut message, ": ");
                    append_str(&mut message, t.as_str());
                    (
                        Err(
                            Error::new(message).push_context(
                                "decompiling code entry using Underanalyzer".to_owned(),
                            ),
                        ),
                        addr,
                    )
                }
            },
        }
    }
}

} // verus!
