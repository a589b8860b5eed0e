//! Software bills of materials: whether the scanner is there, which
//! image an app runs, and the name a downloaded SBOM is saved under.

use vstd::prelude::*;

use crate::text::{chars_of, is_ascii_alnum, string_from_chars};

verus! {

/// Whether the SBOM scanner is installed.
pub struct SbomSettings {
    pub installed: bool,
}

/// A request for the SBOM of an image.
pub struct GenerateRequest {
    pub image: String,
}

/// The char a download name keeps: ASCII letters and digits, `-`, `_`
/// and `.`; any other char becomes `_`.
pub open spec fn filename_char(c: char) -> char {
    if is_ascii_alnum(c) || c == '-' || c == '_' || c == '.' { c } else { '_' }
}

pub open spec fn sanitized(s: Seq<char>) -> Seq<char> {
    s.map_values(|c: char| filename_char(c))
}

/// Makes a name safe to put in a download's file name: no separators or
/// control chars remain.
pub fn sanitize_filename(s: &str) -> (r: String)
    ensures
        r@ == sanitized(s@),
        r@.len() == s@.len(),
{
    let cs = chars_of(s);
    let mut out: Vec<char> = Vec::new();
    let mut i: usize = 0;
    while i < cs.len()
        invariant
            cs@ == s@,
            i <= cs@.len(),
            out@ == sanitized(cs@.take(i as int)),
        decreases cs@.len() - i,
    {
        let c = cs[i];
        let d = if crate::text::ascii_alnum(c) || c == '-' || c == '_' || c == '.' { c } else { '_' };
        out.push(d);
        assert(cs@.take(i + 1) =~= cs@.take(i as int).push(c));
        assert(out@ =~= sanitized(cs@.take(i + 1)));
        i = i + 1;
    }
    assert(cs@.take(cs@.len() as int) =~= cs@);
    string_from_chars(out.as_slice())
}

/// The file an app's SBOM is downloaded as, and the header naming it.
pub fn sbom_download_name(app: &str) -> (r: (String, String))
    ensures
        r.0@ == sanitized(app@) + ".spdx.json"@,
        r.1@ == "attachment; filename=\""@ + r.0@ + "\""@,
{
    let safe = sanitize_filename(app);
    let file = crate::text::concat2(safe.as_str(), ".spdx.json");
    let header = crate::text::concat3("attachment; filename=\"", file.as_str(), "\"");
    (file, header)
}

/// Whether the scanner is installed, from the agent's reply (not
/// installed when the reply says nothing).
pub fn scanner_installed(reply: Option<bool>) -> (s: SbomSettings)
    ensures
        s.installed == match reply { Some(b) => b, None => false },
{
    SbomSettings { installed: match reply { Some(b) => b, None => false } }
}

/// A name made safe for a download holds no path separator, no quote and
/// no control character, whatever name it was made from.
pub proof fn law_sanitized_name_is_safe(s: Seq<char>)
    ensures
        forall|i: int|
            0 <= i < sanitized(s).len() ==> {
                let c = #[trigger] sanitized(s)[i];
                &&& c != '/'
                &&& c != '\\'
                &&& c != '"'
                &&& (c as u32) >= 32
                &&& (c as u32) != 127
            },
{
}

} // verus!
