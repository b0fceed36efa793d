//! What can go wrong on the graphics side, and how a status that a graphics
//! call reports is told from success.

use vstd::prelude::*;

verus! {

/// The error code that stands for "no error".
pub const NO_ERROR: u32 = 0;

/// A failure of the graphics side. None is retried: each one ends the
/// operation that met it.
#[derive(Debug, PartialEq, Eq)]
pub enum RenderError {
    /// A graphics call left the error `code` behind. `when` says what was
    /// being done, `text` is the platform's description where it has one.
    Graphics { when: String, code: u32, text: Option<String> },
    /// A shader stage did not compile; `log` is the platform's info log.
    ShaderCompilation { log: String },
    /// The program did not link.
    ProgramNotLinked,
}

/// Judges the error code that was read right after a graphics call: any code
/// but [`NO_ERROR`] is a failure, which carries the code, the platform's text
/// for it and what was being done.
pub fn check_error_code(when: &str, code: u32, text: Option<String>) -> (r: Result<
    (),
    RenderError,
>)
    ensures
        r is Ok <==> code == NO_ERROR,
        r matches Err(e) ==> (e matches RenderError::Graphics { when: w, code: c, text: t } && w@
            == when@ && c == code && t == text),
{
    if code == NO_ERROR {
        Ok(())
    } else {
        Err(RenderError::Graphics { when: when.to_owned(), code, text })
    }
}

/// Judges the compile status of a shader stage: 0 is a failure, which carries
/// the info log.
pub fn check_compile_status(status: i32, log: String) -> (r: Result<(), RenderError>)
    ensures
        r is Ok <==> status != 0,
        r matches Err(e) ==> e == (RenderError::ShaderCompilation { log }),
{
    if status == 0 {
        Err(RenderError::ShaderCompilation { log })
    } else {
        Ok(())
    }
}

/// Judges the link status of a program: only 1 is success.
pub fn check_link_status(status: i32) -> (r: Result<(), RenderError>)
    ensures
        r is Ok <==> status == 1,
        r matches Err(e) ==> e == RenderError::ProgramNotLinked,
{
    if status == 1 {
        Ok(())
    } else {
        Err(RenderError::ProgramNotLinked)
    }
}

} // verus!
