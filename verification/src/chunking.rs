//! The boundary to the document-ingestion collaborator: turning one parsed
//! PDF page into text plus string-keyed metadata, and assembling the record
//! handed to the splitting pipeline.
//!
//! PDF parsing itself happens outside this crate; a parsed page arrives here
//! as plain values (`PdfPage`), and every rendering and selection rule
//! applied to it is verified.  Numbers are rendered in decimal by this
//! module's own verified formatter.

use vstd::prelude::*;
use crate::models::{string_views, Document};

verus! {

/// How a text should be split into ingestion records.
#[allow(non_camel_case_types)]
#[derive(Clone, Copy, Debug, PartialEq, Eq, Structural)]
pub enum ChunkingStrategy {
    SEMANTIC_CHUNKING,
    CODE_SPLIT,
}

/// Why a chunking-boundary operation failed.
#[derive(Clone, Copy, Debug, PartialEq, Eq, Structural)]
pub enum ChunkError {
    TextExtraction,
    PageDictionary,
    UnsupportedStrategy,
}

/// One value of a PDF page dictionary, as plain values.  Textual kinds
/// arrive already decoded; a `Real` arrives as the decimal text rendered at
/// the boundary (this crate carries no floating-point values); a nested
/// dictionary arrives with its entries already converted, innermost first.
#[derive(Clone, Debug, PartialEq, Eq)]
pub enum PdfValue {
    Text(String),
    Integer(i64),
    Real(String),
    Boolean(bool),
    Array(Vec<String>),
    Dictionary(Vec<(String, String)>),
    Stream,
    Unknown,
}

/// The decimal digit characters.
pub open spec fn digit_char(d: int) -> char {
    if d == 0 {
        '0'
    } else if d == 1 {
        '1'
    } else if d == 2 {
        '2'
    } else if d == 3 {
        '3'
    } else if d == 4 {
        '4'
    } else if d == 5 {
        '5'
    } else if d == 6 {
        '6'
    } else if d == 7 {
        '7'
    } else if d == 8 {
        '8'
    } else {
        '9'
    }
}

/// The decimal rendering of a natural number, most significant digit first.
pub open spec fn dec_seq(n: nat) -> Seq<char>
    decreases n,
{
    if n < 10 {
        seq![digit_char(n as int)]
    } else {
        dec_seq(n / 10).push(digit_char((n % 10) as int))
    }
}

/// The decimal rendering of an integer: a minus sign before the magnitude
/// when negative.
pub open spec fn int_dec_seq(i: int) -> Seq<char> {
    if i >= 0 {
        dec_seq(i as nat)
    } else {
        seq!['-'] + dec_seq((-i) as nat)
    }
}

/// The character of one decimal digit.
fn digit_str(d: u64) -> (r: &'static str)
    requires
        d < 10,
    ensures
        r@ == seq![digit_char(d as int)],
{
    proof {
        reveal_strlit("0");
        reveal_strlit("1");
        reveal_strlit("2");
        reveal_strlit("3");
        reveal_strlit("4");
        reveal_strlit("5");
        reveal_strlit("6");
        reveal_strlit("7");
        reveal_strlit("8");
        reveal_strlit("9");
    }
    let r = match d {
        0 => "0",
        1 => "1",
        2 => "2",
        3 => "3",
        4 => "4",
        5 => "5",
        6 => "6",
        7 => "7",
        8 => "8",
        _ => "9",
    };
    proof {
        assert(r@ =~= seq![digit_char(d as int)]);
    }
    r
}

/// Renders a natural number in decimal.
pub fn u64_to_string(n: u64) -> (r: String)
    ensures
        r@ == dec_seq(n as nat),
    decreases n,
{
    if n < 10 {
        digit_str(n).to_owned()
    } else {
        proof {
            assert(n / 10 < n);
        }
        let mut s = u64_to_string(n / 10);
        s.append(digit_str(n % 10));
        proof {
            assert(s@ =~= dec_seq(n as nat));
        }
        s
    }
}

/// Renders an integer in decimal, with a minus sign when negative.
pub fn i64_to_string(i: i64) -> (r: String)
    ensures
        r@ == int_dec_seq(i as int),
{
    if i >= 0 {
        u64_to_string(i as u64)
    } else {
        let magnitude: u64 = ((-(i + 1)) as u64) + 1;
        proof {
            reveal_strlit("-");
        }
        let mut s = "-".to_owned();
        s.append(u64_to_string(magnitude).as_str());
        proof {
            assert(s@ =~= int_dec_seq(i as int));
        }
        s
    }
}

/// A string in quotation marks.
pub open spec fn quoted(s: Seq<char>) -> Seq<char> {
    "\""@ + s + "\""@
}

/// Already-rendered pieces joined with a comma and a space.
pub open spec fn comma_joined(pieces: Seq<Seq<char>>) -> Seq<char>
    decreases pieces.len(),
{
    if pieces.len() == 0 {
        Seq::empty()
    } else if pieces.len() == 1 {
        pieces.first()
    } else {
        comma_joined(pieces.drop_last()) + ", "@ + pieces.last()
    }
}

/// Each string quoted, in order.
pub open spec fn quoted_all(items: Seq<Seq<char>>) -> Seq<Seq<char>>
    decreases items.len(),
{
    if items.len() == 0 {
        Seq::empty()
    } else {
        quoted_all(items.drop_last()).push(quoted(items.last()))
    }
}

/// The rendering of an array value: its items quoted, comma-joined, in
/// brackets.
pub open spec fn array_text_spec(items: Seq<Seq<char>>) -> Seq<char> {
    "["@ + comma_joined(quoted_all(items)) + "]"@
}

/// The rendering of one dictionary entry: quoted key, a colon, quoted
/// value.
pub open spec fn entry_text(key: Seq<char>, value: Seq<char>) -> Seq<char> {
    quoted(key) + ": "@ + quoted(value)
}

/// Each entry rendered, in order.
pub open spec fn entries_rendered(entries: Seq<(String, String)>) -> Seq<Seq<char>>
    decreases entries.len(),
{
    if entries.len() == 0 {
        Seq::empty()
    } else {
        entries_rendered(entries.drop_last()).push(
            entry_text(entries.last().0@, entries.last().1@),
        )
    }
}

/// The rendering of a nested dictionary: its entries comma-joined, in
/// braces.
pub open spec fn object_text_spec(entries: Seq<(String, String)>) -> Seq<char> {
    "{"@ + comma_joined(entries_rendered(entries)) + "}"@
}

/// Renders an array value.
pub fn array_text(items: &Vec<String>) -> (r: String)
    ensures
        r@ == array_text_spec(string_views(items@)),
{
    let mut mid = String::new();
    let mut i: usize = 0;
    while i < items.len()
        invariant
            i <= items.len(),
            mid@ == comma_joined(quoted_all(string_views(items@).subrange(0, i as int))),
        decreases items.len() - i,
    {
        if i > 0 {
            mid.append(", ");
        }
        mid.append("\"");
        mid.append(items[i].as_str());
        mid.append("\"");
        proof {
            let views = string_views(items@);
            assert(views.subrange(0, i + 1 as int).drop_last() =~= views.subrange(0, i as int));
            assert(views.subrange(0, i + 1 as int).last() == items@[i as int]@);
            let q = quoted_all(views.subrange(0, i + 1 as int));
            if i > 0 {
                assert(q.drop_last() =~= quoted_all(views.subrange(0, i as int)));
            }
            assert(mid@ =~= comma_joined(q));
        }
        i = i + 1;
    }
    let mut out = "[".to_owned();
    out.append(mid.as_str());
    out.append("]");
    proof {
        assert(string_views(items@).subrange(0, items@.len() as int) =~= string_views(items@));
        assert(out@ =~= array_text_spec(string_views(items@)));
    }
    out
}

/// Renders a nested dictionary.
pub fn object_text(entries: &Vec<(String, String)>) -> (r: String)
    ensures
        r@ == object_text_spec(entries@),
{
    let mut mid = String::new();
    let mut i: usize = 0;
    while i < entries.len()
        invariant
            i <= entries.len(),
            mid@ == comma_joined(entries_rendered(entries@.subrange(0, i as int))),
        decreases entries.len() - i,
    {
        if i > 0 {
            mid.append(", ");
        }
        mid.append("\"");
        mid.append(entries[i].0.as_str());
        mid.append("\": \"");
        mid.append(entries[i].1.as_str());
        mid.append("\"");
        proof {
            reveal_strlit("\"");
            reveal_strlit("\": \"");
            reveal_strlit(": ");
            assert(entries@.subrange(0, i + 1 as int).drop_last() =~= entries@.subrange(
                0,
                i as int,
            ));
            assert(entries@.subrange(0, i + 1 as int).last() == entries@[i as int]);
            let rendered = entries_rendered(entries@.subrange(0, i + 1 as int));
            if i > 0 {
                assert(rendered.drop_last() =~= entries_rendered(entries@.subrange(0, i as int)));
            }
            assert(mid@ =~= comma_joined(rendered));
        }
        i = i + 1;
    }
    let mut out = "{".to_owned();
    out.append(mid.as_str());
    out.append("}");
    proof {
        assert(entries@.subrange(0, entries@.len() as int) =~= entries@);
        assert(out@ =~= object_text_spec(entries@));
    }
    out
}

/// The text a dictionary value renders to.
pub open spec fn value_text_spec(value: PdfValue) -> Seq<char> {
    match value {
        PdfValue::Text(s) => s@,
        PdfValue::Integer(i) => int_dec_seq(i as int),
        PdfValue::Real(s) => s@,
        PdfValue::Boolean(b) => if b {
            "true"@
        } else {
            "false"@
        },
        PdfValue::Array(items) => array_text_spec(string_views(items@)),
        PdfValue::Dictionary(entries) => object_text_spec(entries@),
        PdfValue::Stream => "Stream Data"@,
        PdfValue::Unknown => "Unknown Type"@,
    }
}

/// Renders one dictionary value to text.
pub fn value_text(value: &PdfValue) -> (r: String)
    ensures
        r@ == value_text_spec(*value),
{
    match value {
        PdfValue::Text(s) => s.clone(),
        PdfValue::Integer(i) => i64_to_string(*i),
        PdfValue::Real(s) => s.clone(),
        PdfValue::Boolean(b) => {
            if *b {
                "true".to_owned()
            } else {
                "false".to_owned()
            }
        },
        PdfValue::Array(items) => array_text(items),
        PdfValue::Dictionary(entries) => object_text(entries),
        PdfValue::Stream => "Stream Data".to_owned(),
        PdfValue::Unknown => "Unknown Type".to_owned(),
    }
}

/// One parsed PDF page: its number and, when its content stream could be
/// loaded, the extracted text (absent when extraction failed) and its page
/// dictionary (absent when the document carries none).
#[derive(Clone, Debug, PartialEq, Eq)]
pub struct PdfPage {
    pub page_number: u32,
    pub content: Option<PageContent>,
}

/// What one loadable page carries.
#[derive(Clone, Debug, PartialEq, Eq)]
pub struct PageContent {
    pub text: Option<String>,
    pub dict: Option<Vec<(String, PdfValue)>>,
}

/// The first page whose content stream loaded, if any did.
pub open spec fn first_loaded_page(pages: Seq<PdfPage>) -> Option<PdfPage>
    decreases pages.len(),
{
    if pages.len() == 0 {
        None
    } else if pages.first().content is Some {
        Some(pages.first())
    } else {
        first_loaded_page(pages.drop_first())
    }
}

/// The extraction stands and falls with this shape: key for key the
/// converted dictionary, then the page number as the final entry.
pub open spec fn is_page_metadata(
    meta: Seq<(String, String)>,
    dict: Seq<(String, PdfValue)>,
    page_number: u32,
) -> bool {
    &&& meta.len() == dict.len() + 1
    &&& forall|j: int|
        0 <= j < dict.len() ==> (#[trigger] meta[j]).0 == dict[j].0 && meta[j].1@
            == value_text_spec(dict[j].1)
    &&& meta.last().0@ == "page_number"@
    &&& meta.last().1@ == dec_seq(page_number as nat)
}

pub struct PdfChunker;

impl Default for PdfChunker {
    fn default() -> PdfChunker {
        PdfChunker
    }
}

impl PdfChunker {
    /// Converts a page dictionary to string-keyed metadata: every key kept
    /// in order, every value rendered to text.
    pub fn dictionary_to_hashmap(&self, dict: &Vec<(String, PdfValue)>) -> (r: Vec<
        (String, String),
    >)
        ensures
            r@.len() == dict@.len(),
            forall|j: int| 0 <= j < dict@.len() ==> (#[trigger] r@[j]).0 == dict@[j].0 && r@[j].1@
                == value_text_spec(dict@[j].1),
    {
        let mut out: Vec<(String, String)> = Vec::new();
        let mut i: usize = 0;
        while i < dict.len()
            invariant
                i <= dict.len(),
                out@.len() == i,
                forall|j: int| 0 <= j < i ==> (#[trigger] out@[j]).0 == dict@[j].0 && out@[j].1@
                    == value_text_spec(dict@[j].1),
            decreases dict.len() - i,
        {
            let key = dict[i].0.clone();
            let rendered = value_text(&dict[i].1);
            out.push((key, rendered));
            i = i + 1;
        }
        out
    }

    /// Extracts the text and metadata of a parsed document: the first page
    /// whose content loaded decides the outcome.  Extracted text comes with
    /// the page dictionary converted to metadata plus the page number; a
    /// page whose text extraction or dictionary lookup failed is an error;
    /// a document without a loadable page yields empty text and metadata.
    pub fn extract_text_from_pdf(&self, pages: &Vec<PdfPage>) -> (r: Result<
        (String, Vec<(String, String)>),
        ChunkError,
    >)
        ensures
            first_loaded_page(pages@) is None ==> (r matches Ok(res) && res.0@.len() == 0
                && res.1@.len() == 0),
            first_loaded_page(pages@) matches Some(pg) ==> (pg.content matches Some(c) ==> match c
                .text {
                None => r == Err::<(String, Vec<(String, String)>), ChunkError>(
                    ChunkError::TextExtraction,
                ),
                Some(t) => match c.dict {
                    None => r == Err::<(String, Vec<(String, String)>), ChunkError>(
                        ChunkError::PageDictionary,
                    ),
                    Some(d) => ({
                        &&& r matches Ok(res)
                        &&& res.0 == t
                        &&& is_page_metadata(res.1@, d@, pg.page_number)
                    }),
                },
            }),
    {
        let ghost all = pages@;
        proof {
            assert(all.skip(0) =~= all);
        }
        let mut i: usize = 0;
        while i < pages.len()
            invariant
                i <= pages.len(),
                all == pages@,
                first_loaded_page(all) == first_loaded_page(all.skip(i as int)),
            decreases pages.len() - i,
        {
            proof {
                assert(all.skip(i as int).first() == all[i as int]);
                assert(all.skip(i as int).drop_first() =~= all.skip(i + 1 as int));
            }
            match &pages[i].content {
                Some(content) => {
                    match &content.text {
                        None => {
                            return Err(ChunkError::TextExtraction);
                        },
                        Some(text) => {
                            match &content.dict {
                                None => {
                                    return Err(ChunkError::PageDictionary);
                                },
                                Some(dict) => {
                                    let mut metadata = self.dictionary_to_hashmap(dict);
                                    proof {
                                        reveal_strlit("page_number");
                                    }
                                    metadata.push(
                                        (
                                            "page_number".to_owned(),
                                            u64_to_string(pages[i].page_number as u64),
                                        ),
                                    );
                                    return Ok((text.clone(), metadata));
                                },
                            }
                        },
                    }
                },
                None => {},
            }
            i = i + 1;
        }
        proof {
            assert(all.skip(all.len() as int) =~= Seq::<PdfPage>::empty());
        }
        Ok((String::new(), Vec::new()))
    }

    /// Assembles the ingestion record handed to the splitting collaborator.
    /// Only semantic chunking is supported; any other strategy is rejected.
    /// The splitting itself happens outside this crate.
    pub fn chunk(
        &self,
        data: String,
        metadata: Option<Vec<(String, String)>>,
        strategy: ChunkingStrategy,
    ) -> (r: Result<Document, ChunkError>)
        ensures
            strategy is SEMANTIC_CHUNKING ==> ({
                &&& r matches Ok(d)
                &&& d.page_content == data
                &&& d.metadata == metadata
                &&& d.embedding_vector is None
            }),
            strategy is CODE_SPLIT ==> r == Err::<Document, ChunkError>(
                ChunkError::UnsupportedStrategy,
            ),
    {
        match strategy {
            ChunkingStrategy::SEMANTIC_CHUNKING => Ok(
                Document { page_content: data, metadata, embedding_vector: None },
            ),
            ChunkingStrategy::CODE_SPLIT => Err(ChunkError::UnsupportedStrategy),
        }
    }
}

} // verus!
