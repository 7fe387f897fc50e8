use vstd::prelude::*;
use crate::text::{lower_of, lowercase, owned, same_text, joined};

verus! {

/// The extraction capability a file is routed to.
#[derive(Clone, Copy, Debug, PartialEq, Eq, Structural)]
pub enum Capability {
    Audio,
    Image,
    Pdf,
    Text,
}

/// A file whose extension no capability handles.
#[derive(Debug)]
pub struct UnsupportedType {
    /// The lower-cased extension, without its dot.
    pub extension: String,
}

/// The routing table, on an extension that is already lower-cased.
pub open spec fn route_of(ext: Seq<char>) -> Option<Capability> {
    if ext == "mp3"@ || ext == "wav"@ || ext == "m4a"@ {
        Some(Capability::Audio)
    } else if ext == "png"@ || ext == "jpg"@ || ext == "jpeg"@ {
        Some(Capability::Image)
    } else if ext == "pdf"@ {
        Some(Capability::Pdf)
    } else if ext == "txt"@ || ext == "md"@ || ext == "json"@ || ext == "xml"@ || ext == "csv"@ {
        Some(Capability::Text)
    } else {
        None
    }
}

/// The extension of a path, as `Path::extension` gives it (`None` where the
/// last component has no dot after its first character).
pub uninterp spec fn extension_of(path: Seq<char>) -> Option<Seq<char>>;

/// The lower-cased extension a file name is dispatched on; a name without
/// an extension has the empty one.
pub open spec fn dispatch_key(filename: Seq<char>) -> Seq<char> {
    match extension_of(filename) {
        Some(e) => lower_of(e),
        None => Seq::empty(),
    }
}

/// Relies on `Path::extension` and `OsStr::to_str`: the part of the last
/// path component after its last dot. A path built from a `&str` is valid
/// UTF-8, so `to_str` keeps every extension.
#[verifier::external_body]
pub(crate) fn path_extension(path: &str) -> (r: Option<String>)
    ensures
        r matches Some(e) ==> extension_of(path@) == Some(e@),
        r is None ==> extension_of(path@) is None,
{
    std::path::Path::new(path).extension().and_then(|e| e.to_str()).map(|e| e.to_string())
}

/// Routes an extension that is already lower-cased.
pub fn capability_for(ext: &str) -> (r: Option<Capability>)
    ensures
        r == route_of(ext@),
{
    if same_text(ext, "mp3") || same_text(ext, "wav") || same_text(ext, "m4a") {
        Some(Capability::Audio)
    } else if same_text(ext, "png") || same_text(ext, "jpg") || same_text(ext, "jpeg") {
        Some(Capability::Image)
    } else if same_text(ext, "pdf") {
        Some(Capability::Pdf)
    } else if same_text(ext, "txt") || same_text(ext, "md") || same_text(ext, "json")
        || same_text(ext, "xml") || same_text(ext, "csv") {
        Some(Capability::Text)
    } else {
        None
    }
}

/// Routes an extension in any case: it is lower-cased first.
pub fn dispatch_extension(ext: &str) -> (r: Result<Capability, UnsupportedType>)
    ensures
        match route_of(lower_of(ext@)) {
            Some(c) => r == Ok::<Capability, UnsupportedType>(c),
            None => r matches Err(u) && u.extension@ == lower_of(ext@),
        },
{
    let lowered = lowercase(ext);
    match capability_for(lowered.as_str()) {
        Some(c) => Ok(c),
        None => Err(UnsupportedType { extension: lowered }),
    }
}

/// Routes a declared file name by its extension; a name without one is an
/// unsupported type with the empty extension.
pub fn dispatch_filename(filename: &str) -> (r: Result<Capability, UnsupportedType>)
    ensures
        match route_of(dispatch_key(filename@)) {
            Some(c) => r == Ok::<Capability, UnsupportedType>(c),
            None => r matches Err(u) && u.extension@ == dispatch_key(filename@),
        },
        extension_of(filename@) is None ==> (r matches Err(u) && u.extension@.len() == 0),
{
    match path_extension(filename) {
        Some(e) => dispatch_extension(e.as_str()),
        None => {
            proof {
                lemma_routing_total(Seq::empty());
            }
            let empty = owned("");
            proof {
                reveal_strlit("");
            }
            Err(UnsupportedType { extension: empty })
        },
    }
}

impl UnsupportedType {
    /// The message recorded for the item: `Unsupported file type: .<ext>`.
    pub fn message(&self) -> (r: String)
        ensures
            r@ == "Unsupported file type: ."@ + self.extension@,
    {
        joined("Unsupported file type: .", self.extension.as_str())
    }
}

/// Routing is total: the table decides every lower-cased extension, each
/// listed one goes to exactly its capability and every other one to none.
pub proof fn lemma_routing_total(ext: Seq<char>)
    ensures
        route_of(ext) == Some(Capability::Audio) <==> (ext == "mp3"@ || ext == "wav"@ || ext == "m4a"@),
        route_of(ext) == Some(Capability::Image) <==> (ext == "png"@ || ext == "jpg"@ || ext == "jpeg"@),
        route_of(ext) == Some(Capability::Pdf) <==> ext == "pdf"@,
        route_of(ext) == Some(Capability::Text) <==> (ext == "txt"@ || ext == "md"@ || ext == "json"@
            || ext == "xml"@ || ext == "csv"@),
        route_of(ext) is Some ==> ext.len() >= 2,
        route_of(ext) is None <==> !(ext == "mp3"@ || ext == "wav"@ || ext == "m4a"@ || ext == "png"@
            || ext == "jpg"@ || ext == "jpeg"@ || ext == "pdf"@ || ext == "txt"@ || ext == "md"@
            || ext == "json"@ || ext == "xml"@ || ext == "csv"@),
{
    reveal_strlit("mp3");
    reveal_strlit("wav");
    reveal_strlit("m4a");
    reveal_strlit("png");
    reveal_strlit("jpg");
    reveal_strlit("jpeg");
    reveal_strlit("pdf");
    reveal_strlit("txt");
    reveal_strlit("md");
    reveal_strlit("json");
    reveal_strlit("xml");
    reveal_strlit("csv");
    assert("mp3"@.len() == 3 && "mp3"@[0] == 'm' && "mp3"@[1] == 'p');
    assert("wav"@.len() == 3 && "wav"@[0] == 'w' && "wav"@[1] == 'a');
    assert("m4a"@.len() == 3 && "m4a"@[0] == 'm' && "m4a"@[1] == '4');
    assert("png"@.len() == 3 && "png"@[0] == 'p' && "png"@[1] == 'n');
    assert("jpg"@.len() == 3 && "jpg"@[0] == 'j' && "jpg"@[1] == 'p');
    assert("jpeg"@.len() == 4 && "jpeg"@[0] == 'j' && "jpeg"@[1] == 'p');
    assert("pdf"@.len() == 3 && "pdf"@[0] == 'p' && "pdf"@[1] == 'd');
    assert("txt"@.len() == 3 && "txt"@[0] == 't' && "txt"@[1] == 'x');
    assert("md"@.len() == 2 && "md"@[0] == 'm' && "md"@[1] == 'd');
    assert("json"@.len() == 4 && "json"@[0] == 'j' && "json"@[1] == 's');
    assert("xml"@.len() == 3 && "xml"@[0] == 'x' && "xml"@[1] == 'm');
    assert("csv"@.len() == 3 && "csv"@[0] == 'c' && "csv"@[1] == 's');
}

} // verus!
