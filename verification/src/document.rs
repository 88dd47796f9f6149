//! A structured document as a tree of plain values.
//!
//! [`Node`] is what the rest of the library reads a description from, and
//! [`Doc`] is the same tree as a mathematical value, which contracts speak of.

use vstd::prelude::*;
use crate::vocabulary::same_text;

verus! {

/// A document as a mathematical value.
pub enum Doc {
    /// The empty value.
    Null,
    /// A boolean.
    Flag(bool),
    /// A number, by the text it prints as.
    Number(Seq<char>),
    /// A text.
    Text(Seq<char>),
    /// A sequence of documents.
    List(Seq<Doc>),
    /// A mapping, as its entries of key and value in the order they were written.
    Table(Seq<(Doc, Doc)>),
    /// A document under a tag.
    Tagged(Seq<char>, Box<Doc>),
}

/// A node of a structured document.
#[derive(Debug, PartialEq, Eq)]
pub enum Node {
    /// The empty value.
    Null,
    /// A boolean.
    Flag(bool),
    /// A number, by the text it prints as.
    Number(String),
    /// A text.
    Text(String),
    /// A sequence of nodes.
    List(Vec<Node>),
    /// A mapping, as its entries of key and value in the order they were written.
    Table(Vec<(Node, Node)>),
    /// A node under a tag.
    Tagged(String, Box<Node>),
}

impl Doc {
    /// Whether entry `index` of `entries` is the first one whose key is the text `key`.
    pub open spec fn is_first_entry(entries: Seq<(Doc, Doc)>, key: Seq<char>, index: int) -> bool {
        &&& 0 <= index < entries.len()
        &&& entries[index].0 == Doc::Text(key)
        &&& forall|earlier: int| 0 <= earlier < index ==> (#[trigger] entries[earlier]).0 != Doc::Text(key)
    }

    /// The value of the first entry of `entries` whose key is the text `key`.
    pub open spec fn lookup(entries: Seq<(Doc, Doc)>, key: Seq<char>) -> Option<Doc> {
        if exists|index: int| Doc::is_first_entry(entries, key, index) {
            Some(entries[choose|index: int| Doc::is_first_entry(entries, key, index)].1)
        } else {
            None
        }
    }

    /// The value that a mapping holds under the text `key`: that of the first
    /// such entry. Anything but a mapping holds nothing under any key.
    pub open spec fn field(self, key: Seq<char>) -> Option<Doc> {
        match self {
            Doc::Table(entries) => Doc::lookup(entries, key),
            _ => None,
        }
    }
}

impl Node {
    /// The document that this node holds.
    pub open spec fn doc(self) -> Doc
        decreases self,
    {
        match self {
            Node::Null => Doc::Null,
            Node::Flag(flag) => Doc::Flag(flag),
            Node::Number(digits) => Doc::Number(digits@),
            Node::Text(text) => Doc::Text(text@),
            Node::List(items) => Doc::List(
                Seq::new(
                    items@.len(),
                    |i: int|
                        if 0 <= i < items@.len() {
                            items@[i].doc()
                        } else {
                            Doc::Null
                        },
                ),
            ),
            Node::Table(entries) => Doc::Table(
                Seq::new(
                    entries@.len(),
                    |i: int|
                        if 0 <= i < entries@.len() {
                            (entries@[i].0.doc(), entries@[i].1.doc())
                        } else {
                            (Doc::Null, Doc::Null)
                        },
                ),
            ),
            Node::Tagged(tag, inner) => Doc::Tagged(tag@, Box::new(inner.doc())),
        }
    }

    /// Whether this node is the text `key`.
    pub fn is_text(&self, key: &str) -> (hit: bool)
        ensures
            hit == (self@ == Doc::Text(key@)),
    {
        match self {
            Node::Text(text) => same_text(text.as_str(), key),
            _ => false,
        }
    }

    /// The text of this node, if it is a text.
    pub fn as_text(&self) -> (text: Option<&String>)
        ensures
            match text {
                Some(text) => self@ == Doc::Text(text@),
                None => !(self@ is Text),
            },
    {
        match self {
            Node::Text(text) => Some(text),
            _ => None,
        }
    }

    /// The items of this node, if it is a sequence.
    pub fn as_list(&self) -> (items: Option<&Vec<Node>>)
        ensures
            match items {
                Some(items) => self@ == Doc::List(items_doc(items@)),
                None => !(self@ is List),
            },
    {
        match self {
            Node::List(items) => {
                assert(self@->List_0 =~= items_doc(items@));
                Some(items)
            },
            _ => None,
        }
    }

    /// Whether this node is a mapping.
    pub fn is_table(&self) -> (hit: bool)
        ensures
            hit == (self@ is Table),
    {
        match self {
            Node::Table(_) => true,
            _ => false,
        }
    }

    /// The value that this mapping holds under the text `key`: that of the
    /// first such entry, and nothing where there is none or where this node is
    /// no mapping.
    pub fn field(&self, key: &str) -> (found: Option<&Node>)
        ensures
            match found {
                Some(value) => self@.field(key@) == Some(value@),
                None => self@.field(key@) is None,
            },
    {
        match self {
            Node::Table(entries) => {
                let ghost docs = self@->Table_0;
                let mut index: usize = 0;
                while index < entries.len()
                    invariant
                        index <= entries.len(),
                        self@ == Doc::Table(docs),
                        docs.len() == entries@.len(),
                        forall|i: int|
                            0 <= i < entries@.len() ==> #[trigger] docs[i] == (
                                entries@[i].0@,
                                entries@[i].1@,
                            ),
                        forall|earlier: int|
                            0 <= earlier < index ==> (#[trigger] docs[earlier]).0 != Doc::Text(key@),
                    decreases entries.len() - index,
                {
                    if entries[index].0.is_text(key) {
                        proof {
                            let hit = index as int;
                            assert(Doc::is_first_entry(docs, key@, hit));
                            let chosen = choose|i: int| Doc::is_first_entry(docs, key@, i);
                            assert(Doc::is_first_entry(docs, key@, chosen));
                            assert(chosen == hit) by {
                                if chosen < hit {
                                    assert(docs[chosen].0 != Doc::Text(key@));
                                } else if hit < chosen {
                                    assert(docs[hit].0 != Doc::Text(key@));
                                }
                            }
                        }
                        return Some(&entries[index].1);
                    }
                    index += 1;
                }
                proof {
                    assert forall|i: int| !Doc::is_first_entry(docs, key@, i) by {
                        if 0 <= i < docs.len() {
                            assert(docs[i].0 != Doc::Text(key@));
                        }
                    }
                }
                None
            },
            _ => None,
        }
    }
}

impl View for Node {
    type V = Doc;

    open spec fn view(&self) -> Doc {
        self.doc()
    }
}

/// The documents that a run of nodes holds, one for one.
pub open spec fn items_doc(items: Seq<Node>) -> Seq<Doc> {
    Seq::new(items.len(), |i: int| items[i]@)
}

} // verus!
