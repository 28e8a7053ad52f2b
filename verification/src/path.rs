//! Filesystem paths as plain values: an anchor and the names below it.

use vstd::prelude::*;
use crate::text::{join, join_strs, lemma_join_with_char, same_text};

verus! {

/// What a path is, mathematically.
pub struct PathModel {
    /// The root the path hangs from; empty for a relative path.
    pub anchor: Seq<char>,
    /// The names below the anchor, outermost first.
    pub components: Seq<Seq<char>>,
}

impl PathModel {
    /// The path one name deeper.
    pub open spec fn join(self, name: Seq<char>) -> PathModel {
        PathModel { anchor: self.anchor, components: self.components.push(name) }
    }

    /// The path followed by all of `tail`, or `tail` itself where it is anchored.
    pub open spec fn join_path(self, tail: PathModel) -> PathModel {
        if tail.anchor.len() > 0 {
            tail
        } else {
            PathModel { anchor: self.anchor, components: self.components + tail.components }
        }
    }

    /// The directory that holds this path, if there is one below the anchor.
    pub open spec fn parent(self) -> Option<PathModel> {
        if self.components.len() == 0 {
            None
        } else {
            Some(PathModel { anchor: self.anchor, components: self.components.drop_last() })
        }
    }

    /// The path written with `/` between its names.
    pub open spec fn text(self) -> Seq<char> {
        self.anchor + join(self.components, '/')
    }
}

/// A filesystem path: the anchor (such as `/`, or nothing for a relative
/// path) and the names below it, outermost first.
#[derive(Debug)]
pub struct FsPath {
    pub anchor: String,
    pub components: Vec<String>,
}

impl View for FsPath {
    type V = PathModel;

    open spec fn view(&self) -> PathModel {
        PathModel { anchor: self.anchor@, components: self.components.deep_view() }
    }
}

/// Whether two lists of texts hold the same texts in the same order.
pub fn same_texts(a: &Vec<String>, b: &Vec<String>) -> (same: bool)
    ensures
        same == (a.deep_view() == b.deep_view()),
{
    if a.len() != b.len() {
        assert(a.deep_view().len() != b.deep_view().len());
        return false;
    }
    let mut i: usize = 0;
    while i < a.len()
        invariant
            i <= a.len(),
            a.len() == b.len(),
            forall|j: int| 0 <= j < i ==> a[j]@ == b[j]@,
        decreases a.len() - i,
    {
        if !same_text(a[i].as_str(), b[i].as_str()) {
            assert(a.deep_view()[i as int] != b.deep_view()[i as int]);
            return false;
        }
        i = i + 1;
    }
    assert(a.deep_view() =~= b.deep_view());
    true
}

impl FsPath {
    /// The path with the given anchor and names.
    pub fn new(anchor: String, components: Vec<String>) -> (path: FsPath)
        ensures
            path@ == (PathModel { anchor: anchor@, components: components.deep_view() }),
    {
        FsPath { anchor, components }
    }

    /// The relative path with the given names.
    pub fn relative(components: Vec<String>) -> (path: FsPath)
        ensures
            path@ == (PathModel { anchor: Seq::empty(), components: components.deep_view() }),
    {
        FsPath { anchor: String::new(), components }
    }

    /// Whether the path hangs from a root.
    pub fn is_anchored(&self) -> (anchored: bool)
        ensures
            anchored == (self@.anchor.len() > 0),
    {
        self.anchor.as_str().unicode_len() > 0
    }

    /// The path one name deeper.
    pub fn join(&self, name: &str) -> (path: FsPath)
        ensures
            path@ == self@.join(name@),
    {
        let mut components = self.components.clone();
        assert(components.deep_view() =~= self.components.deep_view());
        components.push(name.to_owned());
        assert(components.deep_view() =~= self.components.deep_view().push(name@));
        FsPath { anchor: self.anchor.clone(), components }
    }

    /// The path followed by `tail`; an anchored `tail` stands alone.
    pub fn join_path(&self, tail: &FsPath) -> (path: FsPath)
        ensures
            path@ == self@.join_path(tail@),
    {
        if tail.is_anchored() {
            return tail.clone();
        }
        let mut components = self.components.clone();
        assert(components.deep_view() =~= self.components.deep_view());
        let mut i: usize = 0;
        while i < tail.components.len()
            invariant
                i <= tail.components.len(),
                components.deep_view() == self.components.deep_view()
                    + tail.components.deep_view().subrange(0, i as int),
            decreases tail.components.len() - i,
        {
            let ghost before = components.deep_view();
            components.push(tail.components[i].clone());
            assert(components.deep_view() =~= before.push(tail.components[i as int]@));
            assert(components.deep_view() =~= self.components.deep_view()
                + tail.components.deep_view().subrange(0, i + 1));
            i = i + 1;
        }
        assert(tail.components.deep_view().subrange(0, tail.components.len() as int)
            =~= tail.components.deep_view());
        FsPath { anchor: self.anchor.clone(), components }
    }

    /// The directory that holds this path; `None` at the anchor.
    pub fn parent(&self) -> (parent: Option<FsPath>)
        ensures
            parent.deep_view() == self@.parent(),
    {
        if self.components.len() == 0 {
            return None;
        }
        let mut components = self.components.clone();
        assert(components.deep_view() =~= self.components.deep_view());
        components.pop();
        assert(components.deep_view() =~= self.components.deep_view().drop_last());
        Some(FsPath { anchor: self.anchor.clone(), components })
    }

    /// Shortens the path by its last name. Returns whether there was one.
    pub fn pop(&mut self) -> (popped: bool)
        ensures
            popped == old(self)@.parent().is_some(),
            popped ==> Some(final(self)@) == old(self)@.parent(),
            !popped ==> final(self)@ == old(self)@,
    {
        if self.components.len() == 0 {
            return false;
        }
        let ghost before = self.components.deep_view();
        self.components.pop();
        assert(self.components.deep_view() =~= before.drop_last());
        true
    }

    /// The last name of the path, if it has one.
    pub fn file_name(&self) -> (name: Option<String>)
        ensures
            name.deep_view() == if self@.components.len() == 0 {
                None
            } else {
                Some(self@.components.last())
            },
    {
        if self.components.len() == 0 {
            None
        } else {
            Some(self.components[self.components.len() - 1].clone())
        }
    }

    /// The path written with `/` between its names.
    pub fn to_string(&self) -> (text: String)
        ensures
            text@ == self@.text(),
    {
        proof {
            reveal_strlit("/");
            assert("/"@ =~= seq!['/']);
            lemma_join_with_char(self.components.deep_view(), '/');
        }
        let names = join_strs(&self.components, "/");
        self.anchor.clone().concat(names.as_str())
    }
}

impl DeepView for FsPath {
    type V = PathModel;

    open spec fn deep_view(&self) -> PathModel {
        self@
    }
}

impl Clone for FsPath {
    fn clone(&self) -> (copy: FsPath)
        ensures
            copy@ == self@,
    {
        let components = self.components.clone();
        assert(components.deep_view() =~= self.components.deep_view());
        FsPath { anchor: self.anchor.clone(), components }
    }
}

impl PartialEq for FsPath {
    fn eq(&self, other: &FsPath) -> (same: bool) {
        same_text(self.anchor.as_str(), other.anchor.as_str()) && same_texts(
            &self.components,
            &other.components,
        )
    }
}

impl vstd::std_specs::cmp::PartialEqSpecImpl for FsPath {
    open spec fn obeys_eq_spec() -> bool {
        true
    }

    open spec fn eq_spec(&self, other: &FsPath) -> bool {
        self@ == other@
    }
}

impl Eq for FsPath {

}

} // verus!
