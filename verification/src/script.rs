//! Scripts that update a model once per frame.

use vstd::prelude::*;
use vstd::string::StringExecFns;
use vstd::utf8::{decode_utf8, valid_utf8};

verus! {

/// The source of a script.
#[derive(Debug)]
pub struct Script {
    pub code: String,
}

/// Why the bytes of a script could not be loaded.
#[derive(Clone, Copy, Debug, PartialEq, Eq, Structural)]
pub enum ScriptLoaderError {
    /// The bytes are not UTF-8.
    FromUtf8,
}

/// `String::from_utf8` of std: the text that the bytes encode, where they
/// are UTF-8, and nothing where they are not.
#[verifier::external_body]
fn string_from_utf8(bytes: Vec<u8>) -> (text: Option<String>)
    ensures
        text is Some <==> valid_utf8(bytes@),
        text is Some ==> text.unwrap()@ == decode_utf8(bytes@),
{
    String::from_utf8(bytes).ok()
}

/// Makes a script of the bytes of its file. Fails exactly where the bytes
/// are not UTF-8.
pub fn load_script(bytes: Vec<u8>) -> (result: Result<Script, ScriptLoaderError>)
    ensures
        result is Ok <==> valid_utf8(bytes@),
        result is Ok ==> result.unwrap().code@ == decode_utf8(bytes@),
        result is Err ==> result == Err::<Script, ScriptLoaderError>(ScriptLoaderError::FromUtf8),
{
    match string_from_utf8(bytes) {
        Some(code) => Ok(Script { code }),
        None => Err(ScriptLoaderError::FromUtf8),
    }
}

/// The program that is evaluated for one update: the script's own code,
/// then a call of its `update` function on the globals `app` and `model`.
pub fn update_script_source(script: &Script) -> (source: String)
    ensures
        source@ == script.code@ + ";update(app, model);"@,
{
    let code = String::from_str(script.code.as_str());
    code.concat(";update(app, model);")
}

} // verus!
