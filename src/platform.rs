use vstd::prelude::*;

verus! {

/// The environment variable that makes WebKitGTK render through shared memory
/// instead of DMA-BUF, which avoids blank windows where GPU buffers are denied.
pub fn dmabuf_renderer_variable() -> (r: String)
    ensures
        r@ == "WEBKIT_DISABLE_DMABUF_RENDERER"@,
{
    String::from_str("WEBKIT_DISABLE_DMABUF_RENDERER")
}

/// The value to give the DMA-BUF variable, given what the environment holds
/// (`None` when it is unset or unreadable): `1` when there is nothing, and
/// nothing to change when the user chose a value.
pub fn dmabuf_override(existing: &Option<String>) -> (r: Option<String>)
    ensures
        r.is_some() <==> existing.is_none(),
        r matches Some(v) ==> v@ == "1"@,
{
    match existing {
        Some(_) => None,
        None => Some(String::from_str("1")),
    }
}

} // verus!
