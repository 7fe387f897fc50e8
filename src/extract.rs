use vstd::prelude::*;
use crate::text::{joined, trim_of, trimmed};

verus! {

/// The pages of a PDF whose text is not blank, each followed by a newline.
pub open spec fn pdf_text_of(pages: Seq<Seq<char>>) -> Seq<char>
    decreases pages.len(),
{
    if pages.len() == 0 {
        Seq::empty()
    } else {
        pdf_text_of(pages.drop_last()) + if pages.last().len() > 0 && trim_of(pages.last()).len() > 0 {
            pages.last() + "\n"@
        } else {
            Seq::empty()
        }
    }
}

/// A PDF from which no text could be extracted.
#[derive(Clone, Copy, Debug, PartialEq, Eq, Structural)]
pub enum PdfError {
    NoTextFound,
}

impl PdfError {
    /// The message reported for the item.
    pub fn message(&self) -> (r: String)
        ensures
            r@ == "No text found in PDF (Scanned PDF? Use OCR endpoint instead)"@,
    {
        "No text found in PDF (Scanned PDF? Use OCR endpoint instead)".to_owned()
    }
}

/// The views of a list of strings.
pub open spec fn views_of(v: Seq<String>) -> Seq<Seq<char>> {
    v.map_values(|s: String| s@)
}

/// Joins the text of a PDF's pages: each page whose text is not empty or
/// blank (a page whose text could not be extracted is empty), followed by a
/// newline. No such page is `NoTextFound`.
pub fn assemble_pdf_text(pages: &Vec<String>) -> (r: Result<String, PdfError>)
    ensures
        pdf_text_of(views_of(pages@)).len() == 0 ==> r == Err::<String, PdfError>(PdfError::NoTextFound),
        pdf_text_of(views_of(pages@)).len() > 0 ==> (r matches Ok(t) && t@ == pdf_text_of(views_of(pages@))),
{
    let mut full = String::new();
    let mut i: usize = 0;
    while i < pages.len()
        invariant
            i <= pages@.len(),
            full@ == pdf_text_of(views_of(pages@.subrange(0, i as int))),
        decreases pages@.len() - i,
    {
        proof {
            assert(views_of(pages@.subrange(0, i as int + 1)).drop_last() =~= views_of(
                pages@.subrange(0, i as int),
            ));
        }
        let page = &pages[i];
        if !page.as_str().is_empty() {
            let t = trimmed(page.as_str());
            if !t.as_str().is_empty() {
                let with_page = joined(full.as_str(), page.as_str());
                full = joined(with_page.as_str(), "\n");
            }
        }
        i = i + 1;
    }
    assert(pages@.subrange(0, i as int) =~= pages@);
    if full.as_str().is_empty() {
        Err(PdfError::NoTextFound)
    } else {
        Ok(full)
    }
}

/// The trimmed segments that are not empty.
pub open spec fn kept_segments(segs: Seq<Seq<char>>) -> Seq<Seq<char>>
    decreases segs.len(),
{
    if segs.len() == 0 {
        Seq::empty()
    } else {
        kept_segments(segs.drop_last()) + if trim_of(segs.last()).len() > 0 {
            seq![trim_of(segs.last())]
        } else {
            Seq::empty()
        }
    }
}

/// Parts joined by single spaces.
pub open spec fn spaced(parts: Seq<Seq<char>>) -> Seq<char>
    decreases parts.len(),
{
    if parts.len() == 0 {
        Seq::empty()
    } else if parts.len() == 1 {
        parts[0]
    } else {
        spaced(parts.drop_last()) + " "@ + parts.last()
    }
}

/// The text of a transcription: the non-empty trimmed segment texts, in
/// order, separated by single spaces.
pub fn join_segments(segments: &Vec<String>) -> (r: String)
    ensures
        r@ == spaced(kept_segments(views_of(segments@))),
{
    let mut full = String::new();
    let mut kept: usize = 0;
    let mut i: usize = 0;
    while i < segments.len()
        invariant
            i <= segments@.len(),
            kept == kept_segments(views_of(segments@.subrange(0, i as int))).len(),
            kept <= i,
            full@ == spaced(kept_segments(views_of(segments@.subrange(0, i as int)))),
        decreases segments@.len() - i,
    {
        let ghost before = kept_segments(views_of(segments@.subrange(0, i as int)));
        proof {
            assert(views_of(segments@.subrange(0, i as int + 1)).drop_last() =~= views_of(
                segments@.subrange(0, i as int),
            ));
        }
        let t = trimmed(segments[i].as_str());
        if !t.as_str().is_empty() {
            if kept == 0 {
                full = t;
            } else {
                let spaced_full = joined(full.as_str(), " ");
                full = joined(spaced_full.as_str(), t.as_str());
            }
            kept = kept + 1;
            proof {
                let after = kept_segments(views_of(segments@.subrange(0, i as int + 1)));
                assert(after.drop_last() =~= before);
                if before.len() == 0 {
                    assert(full@ =~= spaced(after));
                }
            }
        } else {
            proof {
                let after = kept_segments(views_of(segments@.subrange(0, i as int + 1)));
                assert(after =~= before);
            }
        }
        i = i + 1;
    }
    assert(segments@.subrange(0, i as int) =~= segments@);
    full
}

} // verus!
