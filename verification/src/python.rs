//! Configuration of the embedded Python runtime.

use vstd::prelude::*;
use vstd::string::*;

use crate::text::{contains_spec, contains_text, replace_spec, replace_text};

verus! {

/// The interpreter's path file with `#import site` switched on: `None` where
/// the file holds no `#import site`, and so needs no change; otherwise every
/// `#import site` becomes `import site`.
pub open spec fn site_import_enabled(pth: Seq<char>) -> Option<Seq<char>> {
    if contains_spec(pth, "#import site"@) {
        Some(replace_spec(pth, "#import site"@, "import site"@))
    } else {
        None
    }
}

/// Works out the new content of the interpreter's path file, where it
/// needs one, so that the interpreter loads site packages.
pub fn enable_site_import(pth: &str) -> (r: Option<String>)
    ensures
        match r {
            Some(t) => site_import_enabled(pth@) == Some(t@),
            None => site_import_enabled(pth@) is None,
        },
{
    if contains_text(pth, "#import site") {
        proof {
            reveal_strlit("#import site");
        }
        Some(replace_text(pth, "#import site", "import site"))
    } else {
        None
    }
}

/// Where the embeddable 64-bit build of a Python version is published.
pub open spec fn download_url(version: Seq<char>) -> Seq<char> {
    "https://www.python.org/ftp/python/"@ + version + "/python-"@ + version + "-embed-amd64.zip"@
}

/// The download address of the embeddable 64-bit build of `version`.
pub fn python_download_url(version: &str) -> (r: String)
    ensures
        r@ == download_url(version@),
{
    String::from_str("https://www.python.org/ftp/python/")
        .concat(version)
        .concat("/python-")
        .concat(version)
        .concat("-embed-amd64.zip")
}

} // verus!
