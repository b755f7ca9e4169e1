//! Hover information at a point.
//!
//! Up to three optional content blocks — documentation text, an external
//! documentation link, and the formatted type signature — are concatenated in
//! that fixed order. An empty block is omitted, never included blank, and
//! three failed analysis calls yield an empty content list, not an error: a
//! missing hover is a normal outcome for an editor.

use vstd::prelude::*;

use crate::types::Range;

verus! {

/// One block of hover content: markdown text, or code in a named language.
#[derive(Clone, Debug)]
pub enum MarkedString {
    Markdown(String),
    Code { language: String, value: String },
}

/// The hover response: content blocks in presentation order.
#[derive(Clone, Debug)]
pub struct HoverResponse {
    pub contents: Vec<MarkedString>,
    pub range: Option<Range>,
}

/// What the assembled content blocks must be, given the three analysis
/// answers (each already settled to empty text on failure): one markdown
/// block per non-empty docs text and link, then one rust code block for a
/// non-empty type signature, in that order and nothing else.
pub open spec fn hover_blocks(
    cs: Seq<MarkedString>,
    docs: Seq<char>,
    url: Seq<char>,
    ty: Seq<char>,
) -> bool {
    let nd: int = if docs.len() > 0 {
        1
    } else {
        0
    };
    let nu: int = if url.len() > 0 {
        1
    } else {
        0
    };
    let nt: int = if ty.len() > 0 {
        1
    } else {
        0
    };
    &&& cs.len() == nd + nu + nt
    &&& docs.len() > 0 ==> (cs[0] matches MarkedString::Markdown(s) && s@ == docs)
    &&& url.len() > 0 ==> (cs[nd] matches MarkedString::Markdown(s) && s@ == url)
    &&& ty.len() > 0 ==> (cs[nd + nu] matches MarkedString::Code { language, value } && language@
        == "rust"@ && value@ == ty)
}

/// The text a content block presents.
pub open spec fn block_text(b: MarkedString) -> Seq<char> {
    match b {
        MarkedString::Markdown(s) => s@,
        MarkedString::Code { language: _, value } => value@,
    }
}

/// Omission law: assembled hover contents never include a blank block — an
/// empty analysis answer is left out, not presented empty.
pub proof fn lemma_hover_no_blank_blocks(
    cs: Seq<MarkedString>,
    docs: Seq<char>,
    url: Seq<char>,
    ty: Seq<char>,
)
    requires
        hover_blocks(cs, docs, url, ty),
    ensures
        forall|k: int| 0 <= k < cs.len() ==> #[trigger] block_text(cs[k]).len() > 0,
{
    let nd: int = if docs.len() > 0 {
        1
    } else {
        0
    };
    let nu: int = if url.len() > 0 {
        1
    } else {
        0
    };
    assert forall|k: int| 0 <= k < cs.len() implies #[trigger] block_text(cs[k]).len() > 0 by {
        if k < nd {
            assert(block_text(cs[0]) == docs);
        } else if k < nd + nu {
            assert(block_text(cs[nd]) == url);
        } else {
            assert(block_text(cs[nd + nu]) == ty);
        }
    }
}

/// The text an analysis answer settles to: what it returned, or nothing.
pub open spec fn settled_text(answer: Option<String>) -> Seq<char> {
    match answer {
        Some(s) => s@,
        None => Seq::empty(),
    }
}

/// Handles hover requests at a given point.
pub struct Hover;

impl Hover {
    pub fn new() -> Hover {
        Hover
    }

    /// The work a hover submits, after the three analysis calls have spoken
    /// (`None` is a failed call): assemble the content blocks.
    pub fn work(docs: Option<String>, doc_url: Option<String>, ty: Option<String>) -> (r:
        HoverResponse)
        ensures
            r.range is None,
            hover_blocks(r.contents@, settled_text(docs), settled_text(doc_url), settled_text(ty)),
    {
        let docs_text = match docs {
            Some(s) => s,
            None => String::new(),
        };
        let url_text = match doc_url {
            Some(s) => s,
            None => String::new(),
        };
        let ty_text = match ty {
            Some(s) => s,
            None => String::new(),
        };
        let mut contents: Vec<MarkedString> = Vec::new();
        if !docs_text.as_str().is_empty() {
            contents.push(MarkedString::Markdown(docs_text));
        }
        if !url_text.as_str().is_empty() {
            contents.push(MarkedString::Markdown(url_text));
        }
        if !ty_text.as_str().is_empty() {
            contents.push(MarkedString::Code { language: String::from_str("rust"), value: ty_text });
        }
        HoverResponse { contents, range: None }
    }

    /// Settle the deadline: a hover that never arrived has no content.
    pub fn handle(outcome: Option<HoverResponse>) -> (r: HoverResponse)
        ensures
            outcome matches Some(h) ==> r == h,
            outcome is None ==> r.contents@ == Seq::<MarkedString>::empty() && r.range is None,
    {
        match outcome {
            Some(h) => h,
            None => HoverResponse { contents: Vec::new(), range: None },
        }
    }
}

} // verus!
