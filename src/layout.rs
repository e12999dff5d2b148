use vstd::prelude::*;
use vstd::string::*;

verus! {

/// The helper package that the install site depends on.
pub const HELPER_PACKAGE: &'static str = "@mui/mcp";

/// The version range of the helper package that gets installed.
pub const HELPER_VERSION_RANGE: &'static str = "^0.1.0";

/// The manifest written at the install site when none is there: one
/// dependency on the helper package, module type, placeholder name and version.
pub const MANIFEST_CONTENT: &'static str = "{\n  \"name\": \"mcp-mui-server-wrapper\",\n  \"version\": \"1.0.0\",\n  \"type\": \"module\",\n  \"dependencies\": {\n    \"@mui/mcp\": \"^0.1.0\"\n  }\n}";

/// The manifest's file name, relative to the install site's root.
pub const MANIFEST_FILE: &'static str = "package.json";

/// The helper binary's location, relative to the install site's root.
pub const HELPER_BINARY_FILE: &'static str = "node_modules/@mui/mcp/dist/stdio.cjs.js";

/// `rel` placed under the directory `root`: a single '/' goes between them
/// unless `root` is empty or already ends with one.
pub open spec fn under(root: Seq<char>, rel: Seq<char>) -> Seq<char> {
    if root.len() > 0 && root.last() != '/' {
        root + seq!['/'] + rel
    } else {
        root + rel
    }
}

/// Where the helper binary is expected under the install site rooted at `root`.
pub open spec fn helper_binary_spec(root: Seq<char>) -> Seq<char> {
    under(root, HELPER_BINARY_FILE@)
}

/// Where the manifest is under the install site rooted at `root`.
pub open spec fn manifest_spec(root: Seq<char>) -> Seq<char> {
    under(root, MANIFEST_FILE@)
}

/// Places `rel` under the directory `root`.
pub fn path_under(root: &str, rel: &str) -> (r: String)
    ensures
        r@ == under(root@, rel@),
{
    let n = root.unicode_len();
    let mut out = String::from_str(root);
    if n > 0 && root.get_char(n - 1) != '/' {
        proof {
            reveal_strlit("/");
        }
        out.append("/");
    }
    out.append(rel);
    out
}

/// The path of the helper binary under the install site rooted at `root`.
pub fn helper_binary_path(root: &str) -> (r: String)
    ensures
        r@ == helper_binary_spec(root@),
{
    path_under(root, HELPER_BINARY_FILE)
}

/// The path of the manifest under the install site rooted at `root`.
pub fn manifest_path(root: &str) -> (r: String)
    ensures
        r@ == manifest_spec(root@),
{
    path_under(root, MANIFEST_FILE)
}

} // verus!
