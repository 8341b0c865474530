//! YAML documents as trees of plain values. Reading a document from text
//! is left to `serde_yaml`; looking values up in the tree is done here.

use crate::slicing::{split_on, split_text, trim_text, trimmed};
use vstd::prelude::*;
use vstd::string::*;

verus! {

/// A YAML value.
#[derive(Debug)]
pub enum YamlNode {
    Null,
    Bool(bool),
    /// A number: its value where it is a non-negative integer below 2^64,
    /// and the numeral as `serde_yaml` writes it.
    Number(Option<u64>, String),
    Text(String),
    Sequence(Vec<YamlNode>),
    /// The entries of a mapping, in the order of the document. No two
    /// entries of a mapping read from text have the same key.
    Mapping(Vec<(YamlNode, YamlNode)>),
    /// A value under a `!Tag`.
    Tagged(Box<YamlNode>),
}

/// A YAML value as a tree of plain values: what a `YamlNode` holds.
pub enum YamlTree {
    Null,
    Bool(bool),
    Number(Option<u64>, Seq<char>),
    Text(Seq<char>),
    Sequence(Seq<YamlTree>),
    Mapping(Seq<(YamlTree, YamlTree)>),
    Tagged(Box<YamlTree>),
}

/// The tree that a node holds.
pub open spec fn node_tree(node: YamlNode) -> YamlTree
    decreases node,
{
    match node {
        YamlNode::Null => YamlTree::Null,
        YamlNode::Bool(b) => YamlTree::Bool(b),
        YamlNode::Number(n, written) => YamlTree::Number(n, written@),
        YamlNode::Text(t) => YamlTree::Text(t@),
        YamlNode::Sequence(items) => YamlTree::Sequence(item_trees(items@)),
        YamlNode::Mapping(entries) => YamlTree::Mapping(entry_trees(entries@)),
        YamlNode::Tagged(inner) => YamlTree::Tagged(Box::new(node_tree(*inner))),
    }
}

/// The trees of the items of a sequence.
pub open spec fn item_trees(items: Seq<YamlNode>) -> Seq<YamlTree>
    decreases items,
{
    Seq::new(
        items.len(),
        |i: int|
            if 0 <= i < items.len() {
                node_tree(items[i])
            } else {
                YamlTree::Null
            },
    )
}

/// The trees of the entries of a mapping.
pub open spec fn entry_trees(entries: Seq<(YamlNode, YamlNode)>) -> Seq<(YamlTree, YamlTree)>
    decreases entries,
{
    Seq::new(
        entries.len(),
        |i: int|
            if 0 <= i < entries.len() {
                (node_tree(entries[i].0), node_tree(entries[i].1))
            } else {
                (YamlTree::Null, YamlTree::Null)
            },
    )
}

impl View for YamlNode {
    type V = YamlTree;

    open spec fn view(&self) -> YamlTree {
        node_tree(*self)
    }
}

impl DeepView for YamlNode {
    type V = YamlTree;

    open spec fn deep_view(&self) -> YamlTree {
        self@
    }
}

/// `serde_yaml::Value`, opaque to the verifier.
#[verifier::external_type_specification]
#[verifier::external_body]
pub struct ExYamlValue(serde_yaml::Value);

/// What `serde_yaml::from_str` makes of `text` when it reads it into a
/// `serde_yaml::Value`: the tree of the document, or the text of its
/// error.
pub uninterp spec fn yaml_reading(text: Seq<char>) -> Result<YamlTree, Seq<char>>;

/// The tree of the YAML document that `text` holds; `None` where the
/// text is rejected.
pub open spec fn yaml_document(text: Seq<char>) -> Option<YamlTree> {
    match yaml_reading(text) {
        Ok(document) => Some(document),
        Err(_) => None,
    }
}

/// Copies a `serde_yaml::Value` into a tree, variant by variant: a
/// number keeps what `Number::as_u64` gives and what its `Display`
/// writes, a mapping its entries in the order of `Mapping::iter`, a
/// tagged value its value.
#[verifier::external_body]
fn tree_of_value(value: &serde_yaml::Value) -> YamlNode {
    match value {
        serde_yaml::Value::Null => YamlNode::Null,
        serde_yaml::Value::Bool(b) => YamlNode::Bool(*b),
        serde_yaml::Value::Number(n) => YamlNode::Number(n.as_u64(), n.to_string()),
        serde_yaml::Value::String(s) => YamlNode::Text(s.clone()),
        serde_yaml::Value::Sequence(v) => YamlNode::Sequence(v.iter().map(tree_of_value).collect()),
        serde_yaml::Value::Mapping(m) => YamlNode::Mapping(
            m.iter().map(|(k, v)| (tree_of_value(k), tree_of_value(v))).collect(),
        ),
        serde_yaml::Value::Tagged(t) => YamlNode::Tagged(Box::new(tree_of_value(&t.value))),
    }
}

/// `serde_yaml::from_str` into a `serde_yaml::Value`: the result, the
/// tree of the document or the text of the error, is a function of the
/// text alone. Which texts are rejected and what tree a text gives is
/// not stated.
#[verifier::external_body]
fn read_yaml(text: &str) -> (reading: Result<YamlNode, String>)
    ensures
        match reading {
            Ok(document) => yaml_reading(text@) == Ok::<YamlTree, Seq<char>>(document@),
            Err(error) => yaml_reading(text@) == Err::<YamlTree, Seq<char>>(error@),
        },
{
    match serde_yaml::from_str::<serde_yaml::Value>(text) {
        Ok(value) => Ok(tree_of_value(&value)),
        Err(error) => Err(error.to_string()),
    }
}

/// The value under the tags of `node`.
pub open spec fn untagged(node: YamlTree) -> YamlTree
    decreases node,
{
    match node {
        YamlTree::Tagged(inner) => untagged(*inner),
        _ => node,
    }
}

/// The value of the first entry from index `from` on whose key is the
/// text `key`.
pub open spec fn entry_value(entries: Seq<(YamlTree, YamlTree)>, key: Seq<char>, from: int) -> Option<
    YamlTree,
>
    decreases entries.len() - from,
{
    if from < 0 || from >= entries.len() {
        None
    } else if entries[from].0 == YamlTree::Text(key) {
        Some(entries[from].1)
    } else {
        entry_value(entries, key, from + 1)
    }
}

/// The member `key` of `node`: the value that a mapping, tagged or not,
/// holds under the text `key`.
pub open spec fn member(node: YamlTree, key: Seq<char>) -> Option<YamlTree> {
    match untagged(node) {
        YamlTree::Mapping(entries) => entry_value(entries, key, 0),
        _ => None,
    }
}

/// The member `key` of `node`, where there is a node.
pub open spec fn member_of(node: Option<YamlTree>, key: Seq<char>) -> Option<YamlTree> {
    match node {
        Some(n) => member(n, key),
        None => None,
    }
}

/// The text that `node` is, tagged or not.
pub open spec fn text_of(node: Option<YamlTree>) -> Option<Seq<char>> {
    match node {
        Some(n) => match untagged(n) {
            YamlTree::Text(t) => Some(t),
            _ => None,
        },
        None => None,
    }
}

/// The unsigned number that `node` is, tagged or not.
pub open spec fn unsigned_of(node: Option<YamlTree>) -> Option<u64> {
    match node {
        Some(n) => match untagged(n) {
            YamlTree::Number(value, _) => value,
            _ => None,
        },
        None => None,
    }
}

/// The numeral of the number that `node` is, tagged or not.
pub open spec fn numeral_of(node: Option<YamlTree>) -> Option<Seq<char>> {
    match node {
        Some(n) => match untagged(n) {
            YamlTree::Number(_, written) => Some(written),
            _ => None,
        },
        None => None,
    }
}

/// The boolean that `node` is, tagged or not.
pub open spec fn bool_of(node: Option<YamlTree>) -> Option<bool> {
    match node {
        Some(n) => match untagged(n) {
            YamlTree::Bool(b) => Some(b),
            _ => None,
        },
        None => None,
    }
}

/// The items of the sequence that `node` is, tagged or not.
pub open spec fn items_of(node: Option<YamlTree>) -> Option<Seq<YamlTree>> {
    match node {
        Some(n) => match untagged(n) {
            YamlTree::Sequence(items) => Some(items),
            _ => None,
        },
        None => None,
    }
}

/// The texts among `items`, in order.
pub open spec fn texts_among(items: Seq<YamlTree>) -> Seq<Seq<char>>
    decreases items.len(),
{
    if items.len() == 0 {
        Seq::empty()
    } else {
        match text_of(Some(items.last())) {
            Some(t) => texts_among(items.drop_last()).push(t),
            None => texts_among(items.drop_last()),
        }
    }
}

/// The texts of the sequence that `node` is; none where it is no
/// sequence.
pub open spec fn text_list_of(node: Option<YamlTree>) -> Seq<Seq<char>> {
    match items_of(node) {
        Some(items) => texts_among(items),
        None => Seq::empty(),
    }
}

/// The tree of an optional node.
pub open spec fn tree_of(node: Option<&YamlNode>) -> Option<YamlTree> {
    match node {
        Some(n) => Some(n@),
        None => None,
    }
}

fn find_entry<'a>(entries: &'a Vec<(YamlNode, YamlNode)>, key: &str) -> (found: Option<&'a YamlNode>)
    ensures
        tree_of(found) == entry_value(entry_trees(entries@), key@, 0),
{
    let ghost trees = entry_trees(entries@);
    let mut i: usize = 0;
    while i < entries.len()
        invariant
            i <= entries.len(),
            trees == entry_trees(entries@),
            entry_value(trees, key@, 0) == entry_value(trees, key@, i as int),
        decreases entries.len() - i,
    {
        assert(trees[i as int] == (node_tree(entries@[i as int].0), node_tree(entries@[i as int].1)));
        let hit = match &entries[i].0 {
            YamlNode::Text(k) => crate::text::text_eq(k.as_str(), key),
            _ => false,
        };
        if hit {
            return Some(&entries[i].1);
        }
        i += 1;
    }
    None
}

impl YamlNode {
    /// The value under the tags of the node.
    pub fn untag(&self) -> (inner: &YamlNode)
        ensures
            inner@ == untagged(self@),
            !(inner is Tagged),
        decreases self,
    {
        match self {
            YamlNode::Tagged(inner) => inner.untag(),
            _ => self,
        }
    }

    /// The member `key` of a mapping.
    pub fn get(&self, key: &str) -> (found: Option<&YamlNode>)
        ensures
            tree_of(found) == member(self@, key@),
    {
        match self.untag() {
            YamlNode::Mapping(entries) => find_entry(entries, key),
            _ => None,
        }
    }

    /// The text that the node is.
    pub fn as_str(&self) -> (text: Option<&str>)
        ensures
            match text {
                Some(t) => text_of(Some(self@)) == Some(t@),
                None => text_of(Some(self@)) is None,
            },
    {
        match self.untag() {
            YamlNode::Text(t) => Some(t.as_str()),
            _ => None,
        }
    }

    /// The unsigned number that the node is.
    pub fn as_u64(&self) -> (value: Option<u64>)
        ensures
            value == unsigned_of(Some(self@)),
    {
        match self.untag() {
            YamlNode::Number(value, _) => *value,
            _ => None,
        }
    }

    /// The numeral of the number that the node is.
    pub fn as_numeral(&self) -> (numeral: Option<&str>)
        ensures
            match numeral {
                Some(t) => numeral_of(Some(self@)) == Some(t@),
                None => numeral_of(Some(self@)) is None,
            },
    {
        match self.untag() {
            YamlNode::Number(_, written) => Some(written.as_str()),
            _ => None,
        }
    }

    /// The boolean that the node is.
    pub fn as_bool(&self) -> (value: Option<bool>)
        ensures
            value == bool_of(Some(self@)),
    {
        match self.untag() {
            YamlNode::Bool(b) => Some(*b),
            _ => None,
        }
    }

    /// The items of the sequence that the node is.
    pub fn as_sequence(&self) -> (items: Option<&Vec<YamlNode>>)
        ensures
            match items {
                Some(list) => items_of(Some(self@)) == Some(list.deep_view()),
                None => items_of(Some(self@)) is None,
            },
    {
        match self.untag() {
            YamlNode::Sequence(items) => {
                assert(items.deep_view() =~= item_trees(items@));
                Some(items)
            },
            _ => None,
        }
    }
}

/// The member `key` of `node`, where there is a node.
pub fn get_in<'a>(node: Option<&'a YamlNode>, key: &str) -> (found: Option<&'a YamlNode>)
    ensures
        tree_of(found) == member_of(tree_of(node), key@),
{
    match node {
        Some(n) => n.get(key),
        None => None,
    }
}

/// The text under `key` of `node`.
pub fn text_in(node: Option<&YamlNode>, key: &str) -> (text: Option<String>)
    ensures
        text.deep_view() == text_of(member_of(tree_of(node), key@)),
{
    match get_in(node, key) {
        Some(value) => match value.as_str() {
            Some(t) => Some(t.to_string()),
            None => None,
        },
        None => None,
    }
}

/// The unsigned number under `key` of `node`.
pub fn unsigned_in(node: Option<&YamlNode>, key: &str) -> (value: Option<u64>)
    ensures
        value == unsigned_of(member_of(tree_of(node), key@)),
{
    match get_in(node, key) {
        Some(value) => value.as_u64(),
        None => None,
    }
}

/// The boolean under `key` of `node`.
pub fn bool_in(node: Option<&YamlNode>, key: &str) -> (value: Option<bool>)
    ensures
        value == bool_of(member_of(tree_of(node), key@)),
{
    match get_in(node, key) {
        Some(value) => value.as_bool(),
        None => None,
    }
}

/// The texts of the sequence under `key` of `node`.
pub fn text_list_in(node: Option<&YamlNode>, key: &str) -> (texts: Vec<String>)
    ensures
        texts.deep_view() == text_list_of(member_of(tree_of(node), key@)),
{
    let mut texts: Vec<String> = Vec::new();
    assert(texts.deep_view() =~= Seq::empty());
    let items = match get_in(node, key) {
        Some(value) => match value.as_sequence() {
            Some(items) => items,
            None => {
                return texts;
            },
        },
        None => {
            return texts;
        },
    };
    let mut i: usize = 0;
    assert(items.deep_view().take(0) =~= Seq::empty());
    while i < items.len()
        invariant
            i <= items.len(),
            texts.deep_view() == texts_among(items.deep_view().take(i as int)),
        decreases items.len() - i,
    {
        let ghost before = texts.deep_view();
        proof {
            let prefix = items.deep_view().take(i + 1);
            assert(prefix.drop_last() =~= items.deep_view().take(i as int));
            assert(prefix.last() == items@[i as int]@);
        }
        match items[i].as_str() {
            Some(t) => {
                texts.push(t.to_string());
                assert(texts.deep_view() =~= before.push(t@));
            },
            None => {},
        }
        i += 1;
    }
    assert(items.deep_view().take(items.len() as int) =~= items.deep_view());
    texts
}

/// The documents of a YAML stream: the pieces between the separator
/// lines `---`, trimmed, without the empty ones.
pub open spec fn document_texts(stream: Seq<char>) -> Seq<Seq<char>> {
    nonempty_trimmed(split_on(stream, "\n---"@))
}

/// The pieces trimmed, without the ones that are empty then.
pub open spec fn nonempty_trimmed(pieces: Seq<Seq<char>>) -> Seq<Seq<char>>
    decreases pieces.len(),
{
    if pieces.len() == 0 {
        Seq::empty()
    } else if trimmed(pieces.last()).len() > 0 {
        nonempty_trimmed(pieces.drop_last()).push(trimmed(pieces.last()))
    } else {
        nonempty_trimmed(pieces.drop_last())
    }
}

/// The trees of the texts that are YAML documents, in order.
pub open spec fn readable_documents(texts: Seq<Seq<char>>) -> Seq<YamlTree>
    decreases texts.len(),
{
    if texts.len() == 0 {
        Seq::empty()
    } else {
        match yaml_document(texts.last()) {
            Some(document) => readable_documents(texts.drop_last()).push(document),
            None => readable_documents(texts.drop_last()),
        }
    }
}

/// Reads one YAML document; `Err` holds the text of the reader's error.
pub fn read_document(text: &str) -> (reading: Result<YamlNode, String>)
    ensures
        match reading {
            Ok(document) => yaml_reading(text@) == Ok::<YamlTree, Seq<char>>(document@),
            Err(error) => yaml_reading(text@) == Err::<YamlTree, Seq<char>>(error@),
        },
{
    read_yaml(text)
}

/// Reads the documents of a YAML stream; a document that cannot be read
/// is passed over.
pub fn read_documents(stream: &str) -> (documents: Vec<YamlNode>)
    ensures
        documents.deep_view() == readable_documents(document_texts(stream@)),
{
    proof {
        reveal_strlit("\n---");
    }
    let pieces = split_text(stream, "\n---");
    let mut documents: Vec<YamlNode> = Vec::new();
    let ghost mut texts: Seq<Seq<char>> = Seq::empty();
    let mut i: usize = 0;
    assert(pieces.deep_view().take(0) =~= Seq::empty());
    while i < pieces.len()
        invariant
            i <= pieces.len(),
            texts == nonempty_trimmed(pieces.deep_view().take(i as int)),
            documents.deep_view() == readable_documents(texts),
        decreases pieces.len() - i,
    {
        proof {
            let prefix = pieces.deep_view().take(i + 1);
            assert(prefix.drop_last() =~= pieces.deep_view().take(i as int));
            assert(prefix.last() == pieces[i as int]@);
        }
        let text = trim_text(pieces[i].as_str());
        if text.as_str().unicode_len() > 0 {
            proof {
                let grown = texts.push(text@);
                assert(grown.drop_last() =~= texts);
                assert(grown.last() == text@);
                texts = grown;
            }
            let ghost read = documents.deep_view();
            match read_yaml(text.as_str()) {
                Ok(document) => {
                    documents.push(document);
                    assert(documents.deep_view() =~= read.push(document@));
                },
                Err(_) => {},
            }
        }
        i += 1;
    }
    assert(pieces.deep_view().take(pieces.len() as int) =~= pieces.deep_view());
    documents
}

} // verus!
