//! Where the local services listen, and what their answers mean.
use vstd::prelude::*;

verus! {

/// The address of the local Ollama server.
pub open spec fn ollama_base() -> Seq<char> {
    "http://localhost:11434"@
}

/// The address of a local Automatic1111 or Forge server.
pub open spec fn a1111_base() -> Seq<char> {
    "http://127.0.0.1:7860"@
}

/// The address of a local ComfyUI server.
pub open spec fn comfy_base() -> Seq<char> {
    "http://127.0.0.1:8188"@
}

/// The address of `path` on the Ollama server.
pub fn ollama_url(path: &str) -> (r: String)
    ensures
        r@ == ollama_base() + path@,
{
    let mut r = "http://localhost:11434".to_string();
    r.append(path);
    r
}

/// The address of `path` on the Automatic1111 server.
pub fn a1111_url(path: &str) -> (r: String)
    ensures
        r@ == a1111_base() + path@,
{
    let mut r = "http://127.0.0.1:7860".to_string();
    r.append(path);
    r
}

/// The address of `path` on the ComfyUI server.
pub fn comfy_url(path: &str) -> (r: String)
    ensures
        r@ == comfy_base() + path@,
{
    let mut r = "http://127.0.0.1:8188".to_string();
    r.append(path);
    r
}

/// The outcome of a request to delete a model, from whether the server answered
/// with success and the status it gave.
pub fn delete_outcome(success: bool, status: &str) -> (r: Result<(), String>)
    ensures
        success ==> r is Ok,
        !success ==> (r matches Err(m) && m@ == "삭제 실패: HTTP "@ + status@),
{
    if success {
        Ok(())
    } else {
        let mut m = "삭제 실패: HTTP ".to_string();
        m.append(status);
        Err(m)
    }
}

} // verus!
