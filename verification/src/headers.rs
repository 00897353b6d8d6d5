//! The public headers, and the patched copy of the sources that is compiled
//! as C++.

use crate::text::str_eq;
use vstd::prelude::*;
use vstd::string::*;

verus! {

/// The public headers, which are copied next to the library: the two of the
/// main API, the configuration header and that of the auxiliary library.
pub open spec fn spec_public_headers() -> Seq<Seq<char>> {
    seq!["lauxlib.h"@, "lua.h"@, "luaconf.h"@, "lualib.h"@]
}

/// The public headers, in the order in which they are copied.
pub fn public_headers() -> (names: Vec<&'static str>)
    ensures
        names.deep_view() == spec_public_headers(),
{
    let names: Vec<&'static str> = vec!["lauxlib.h", "lua.h", "luaconf.h", "lualib.h"];
    names
}

/// The text that opens the C linkage block of a wrapped header.
pub open spec fn wrapper_open() -> Seq<u8> {
    "extern \"C\" {\n".spec_bytes()
}

/// The text that closes the C linkage block of a wrapped header.
pub open spec fn wrapper_close() -> Seq<u8> {
    "\n}".spec_bytes()
}

/// The file is one of the public headers that are wrapped in the copy.
pub open spec fn is_wrapped_header(name: Seq<char>) -> bool {
    name == "lauxlib.h"@ || name == "lua.h"@ || name == "lualib.h"@
}

/// What the copy of the file `name` holds, given what the file itself
/// holds: a wrapped header between the two wrapper texts, any other file
/// unchanged.
pub open spec fn spec_scratch_content(name: Seq<char>, content: Seq<u8>) -> Seq<u8> {
    if is_wrapped_header(name) {
        wrapper_open() + content + wrapper_close()
    } else {
        content
    }
}

/// What the copy of the file `name` holds, given what the file itself holds.
pub fn scratch_content(name: &str, content: Vec<u8>) -> (copy: Vec<u8>)
    ensures
        copy@ == spec_scratch_content(name@, content@),
{
    if str_eq(name, "lauxlib.h") || str_eq(name, "lua.h") || str_eq(name, "lualib.h") {
        let mut copy: Vec<u8> = Vec::new();
        copy.extend_from_slice("extern \"C\" {\n".as_bytes());
        copy.extend_from_slice(content.as_slice());
        copy.extend_from_slice("\n}".as_bytes());
        copy
    } else {
        content
    }
}

/// The wrapper texts, byte by byte: `extern "C" {` and a line feed open the
/// block, a line feed and `}` close it.
pub proof fn wrapper_texts_are_spelled_out()
    ensures
        wrapper_open() == seq![
            0x65u8,
            0x78,
            0x74,
            0x65,
            0x72,
            0x6e,
            0x20,
            0x22,
            0x43,
            0x22,
            0x20,
            0x7b,
            0x0a,
        ],
        wrapper_close() == seq![0x0au8, 0x7d],
{
    reveal_strlit("extern \"C\" {\n");
    reveal_strlit("\n}");
    is_ascii_spec_bytes("extern \"C\" {\n");
    is_ascii_spec_bytes("\n}");
}

/// The copy of a wrapped header begins with the text that opens the C
/// linkage block, ends with the text that closes it, and holds the header
/// itself in between; the copy of any other file is the file, byte for byte.
pub proof fn copy_wraps_headers_only(name: Seq<char>, content: Seq<u8>)
    ensures
        is_wrapped_header(name) ==> ({
            let copy = spec_scratch_content(name, content);
            &&& copy.len() == wrapper_open().len() + content.len() + wrapper_close().len()
            &&& copy.subrange(0, wrapper_open().len() as int) == wrapper_open()
            &&& copy.subrange(wrapper_open().len() as int, copy.len() - wrapper_close().len())
                == content
            &&& copy.subrange(copy.len() - wrapper_close().len(), copy.len() as int)
                == wrapper_close()
        }),
        !is_wrapped_header(name) ==> spec_scratch_content(name, content) == content,
{
}

} // verus!
