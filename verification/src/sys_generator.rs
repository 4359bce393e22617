//! The header from which the bindings to the host are generated.

use vstd::prelude::*;
use vstd::string::*;

verus! {

/// The header of the host that every other one needs.
pub const COMMON_HEADER: &'static str = "vlc_common.h";

/// The name under which the generated header goes to the generator.
pub const WRAPPER_HEADER: &'static str = "wrapper.h";

/// The line that includes `header`.
pub open spec fn spec_include(header: Seq<char>) -> Seq<char> {
    "#include <"@ + header + ">\n"@
}

/// The lines that include the first `n` of `headers`, in their order.
pub open spec fn spec_includes(headers: Seq<&str>, n: int) -> Seq<char>
    decreases n,
{
    if n <= 0 {
        Seq::empty()
    } else {
        spec_includes(headers, n - 1) + spec_include(headers[n - 1]@)
    }
}

/// The header that includes the common header of the host and then each
/// of `headers`, one line each.
pub open spec fn spec_header_contents(headers: Seq<&str>) -> Seq<char> {
    spec_include(COMMON_HEADER@) + spec_includes(headers, headers.len() as int)
}

/// Appends the line that includes `header`.
fn push_include(contents: &mut String, header: &str)
    ensures
        final(contents)@ == old(contents)@ + spec_include(header@),
{
    contents.append("#include <");
    contents.append(header);
    contents.append(">\n");
    assert(contents@ =~= old(contents)@ + spec_include(header@));
}

/// The header that includes the common header of the host and then each
/// of `headers`.
pub fn header_contents(headers: &[&str]) -> (contents: String)
    ensures
        contents@ == spec_header_contents(headers@),
{
    let mut contents = String::new();
    push_include(&mut contents, COMMON_HEADER);
    assert(contents@ =~= spec_include(COMMON_HEADER@));
    let mut i: usize = 0;
    while i < headers.len()
        invariant
            i <= headers@.len(),
            contents@ == spec_include(COMMON_HEADER@) + spec_includes(headers@, i as int),
        decreases headers@.len() - i,
    {
        push_include(&mut contents, headers[i]);
        i += 1;
        assert(contents@ =~= spec_include(COMMON_HEADER@) + spec_includes(headers@, i as int));
    }
    contents
}

} // verus!
