//! The stored text that a collector may attach to the entries it returns.

use crate::records::hits_of;
use crate::records::RowIdWithScore;
use crate::search::index_access::segment_count;
use crate::search::index_access::stored_values;
use crate::search::index_access::StoredValue;
use tantivy::schema::Field;
use tantivy::Searcher;
use vstd::prelude::*;

verus! {

/// The text that is returned for what a document stores for one column: the
/// text of a value that is text, the empty text for a value that is not, and
/// nothing if the document stores no value for the column.
pub open spec fn stored_text(value: StoredValue) -> Option<Seq<char>> {
    match value {
        StoredValue::Text(text) => Some(text@),
        StoredValue::NotText => Some(Seq::empty()),
        StoredValue::Absent => None,
    }
}

/// The texts that are returned for the stored values of the requested columns,
/// in the order of the columns.
pub open spec fn stored_texts(values: Seq<StoredValue>) -> Seq<Seq<char>> {
    values.filter_map(|value: StoredValue| stored_text(value))
}

/// There are no more texts than stored values: each column gives one text at
/// most.
pub proof fn lemma_stored_texts_len(values: Seq<StoredValue>)
    ensures
        stored_texts(values).len() <= values.len(),
    decreases values.len(),
{
    if values.len() > 0 {
        lemma_stored_texts_len(values.drop_last());
    }
}

/// The characters of each of the strings.
pub open spec fn texts_view(texts: Seq<String>) -> Seq<Seq<char>> {
    texts.map_values(|text: String| text@)
}

/// Computes [`stored_texts`].
pub fn first_texts(values: &Vec<StoredValue>) -> (texts: Vec<String>)
    ensures
        texts_view(texts@) == stored_texts(values@),
{
    let mut texts: Vec<String> = Vec::new();
    let mut i: usize = 0;
    while i < values.len()
        invariant
            i <= values.len(),
            texts_view(texts@) == stored_texts(values@.take(i as int)),
        decreases values.len() - i,
    {
        let ghost before = texts@;
        proof {
            values@.lemma_filter_map_take_succ(|value: StoredValue| stored_text(value), i as int);
        }
        match &values[i] {
            StoredValue::Text(text) => {
                texts.push(text.clone());
                assert(texts_view(texts@) =~= texts_view(before) + seq![text@]);
            },
            StoredValue::NotText => {
                texts.push(String::new());
                assert(texts_view(texts@) =~= texts_view(before) + seq![Seq::<char>::empty()]);
            },
            StoredValue::Absent => {
                assert(texts_view(texts@) =~= texts_view(before) + Seq::<Seq<char>>::empty());
            },
        }
        i += 1;
    }
    proof {
        assert(values@.take(values.len() as int) == values@);
    }
    texts
}

/// The texts of a document by what reading it gave: none if the document
/// could not be read, and else the texts of its stored values.
pub fn texts_of_read(read: Option<Vec<StoredValue>>) -> (texts: Vec<String>)
    ensures
        read is None ==> texts@.len() == 0,
        read matches Some(values) ==> texts_view(texts@) == stored_texts(values@) && texts@.len()
            <= values@.len(),
{
    match read {
        None => Vec::new(),
        Some(values) => {
            let texts = first_texts(&values);
            proof {
                lemma_stored_texts_len(values@);
                assert(texts@.len() == texts_view(texts@).len());
            }
            texts
        },
    }
}

/// Where stored text is read from, and whether it is wanted.
pub struct TextSource {
    /// The searcher that reads stored documents.
    pub searcher: Option<Searcher>,
    /// The columns whose stored text is returned.
    pub text_fields: Option<Vec<Field>>,
    /// Whether stored text is wanted at all.
    pub need_text: bool,
}

impl TextSource {
    /// Whether text is read: it is wanted, and both a searcher and the
    /// columns are known.
    pub open spec fn reads_text(self) -> bool {
        self.need_text && self.searcher is Some && self.text_fields is Some
    }

    /// A source from which no text is read.
    pub fn none() -> (source: TextSource)
        ensures
            source.searcher is None,
            source.text_fields is None,
            !source.need_text,
    {
        TextSource { searcher: None, text_fields: None, need_text: false }
    }

    /// Whether `texts` may be the stored text of a document of segment
    /// `segment_ord`: there is none if no text is read or if the searcher has
    /// no such segment, and never more than one text for each requested
    /// column.
    pub open spec fn may_read(self, segment_ord: u32, texts: Seq<String>) -> bool {
        &&& !self.reads_text() ==> texts.len() == 0
        &&& self.reads_text() ==> texts.len() <= self.text_fields->0@.len()
        &&& self.reads_text() && segment_ord >= segment_count(self.searcher->0) ==> texts.len()
            == 0
    }

    /// Whether each of the entries carries text that may be the stored text
    /// of its document.
    pub open spec fn may_hold(self, entries: Seq<RowIdWithScore>) -> bool {
        forall|i: int|
            0 <= i < entries.len() ==> self.may_read(
                (#[trigger] entries[i]).seg_id,
                entries[i].docs@,
            )
    }

    /// Whether `out` may be `entries` with their stored text attached: the
    /// same hits in the same order, each with text that may be the stored text
    /// of its document; and the entries themselves if no text is read.
    pub open spec fn may_attach(
        self,
        entries: Seq<RowIdWithScore>,
        out: Seq<RowIdWithScore>,
    ) -> bool {
        &&& hits_of(out) == hits_of(entries)
        &&& !self.reads_text() ==> out == entries
        &&& self.reads_text() ==> self.may_hold(out)
    }

    /// The stored text of one document, one text per requested column of which
    /// the document stores a value. Empty if no text is read, if the searcher
    /// has no such segment, or if the document cannot be read.
    pub fn extract_doc_text(&self, doc: u32, segment_ord: u32) -> (texts: Vec<String>)
        ensures
            self.may_read(segment_ord, texts@),
    {
        if !self.need_text {
            return Vec::new();
        }
        match &self.searcher {
            None => Vec::new(),
            Some(searcher) => match &self.text_fields {
                None => Vec::new(),
                Some(fields) => {
                    if (segment_ord as usize) < searcher.segment_readers().len() {
                        texts_of_read(stored_values(searcher, segment_ord, doc, fields))
                    } else {
                        Vec::new()
                    }
                },
            },
        }
    }

    /// Returns the entries with the stored text of their documents attached.
    /// If no text is read the entries come back as they are.
    pub fn attach(&self, entries: Vec<RowIdWithScore>) -> (out: Vec<RowIdWithScore>)
        ensures
            self.may_attach(entries@, out@),
    {
        if !self.need_text || self.searcher.is_none() || self.text_fields.is_none() {
            return entries;
        }
        let mut out: Vec<RowIdWithScore> = Vec::new();
        let mut i: usize = 0;
        while i < entries.len()
            invariant
                i <= entries.len(),
                self.reads_text(),
                hits_of(out@) == hits_of(entries@.take(i as int)),
                self.may_hold(out@),
            decreases entries.len() - i,
        {
            let entry = &entries[i];
            let ghost before = out@;
            out.push(
                RowIdWithScore {
                    row_id: entry.row_id,
                    score_bits: entry.score_bits,
                    seg_id: entry.seg_id,
                    doc_id: entry.doc_id,
                    docs: self.extract_doc_text(entry.doc_id, entry.seg_id),
                },
            );
            proof {
                assert(entries@.take(i + 1) =~= entries@.take(i as int).push(entries@[i as int]));
                assert(hits_of(out@) =~= hits_of(before).push(entries@[i as int].hit()));
                assert(hits_of(entries@.take(i + 1)) =~= hits_of(entries@.take(i as int)).push(
                    entries@[i as int].hit(),
                ));
            }
            i += 1;
        }
        proof {
            assert(entries@.take(entries.len() as int) == entries@);
        }
        out
    }
}

} // verus!
