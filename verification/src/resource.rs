//! Resource names and how they are laid out on disk.

use vstd::prelude::*;
use crate::path::{FsPath, PathModel, same_texts};
use crate::text::{
    all_free_of, free_of, join, join_strs, lemma_join_with_char, lemma_split_join,
    lemma_split_pieces, split, split_str,
};

pub mod batlrc;
pub mod decode;
pub mod encode;
pub mod kinds;
pub mod read_back;
pub mod repository;
pub mod restrict;
pub mod tomlconfig;
pub mod workspace;

verus! {

/// A namespace segment as it is written on disk.
pub open spec fn marked(segment: Seq<char>) -> Seq<char> {
    seq!['@'] + segment
}

/// Whether a path component is written as a namespace.
pub open spec fn is_marked(component: Seq<char>) -> bool {
    component.len() > 0 && component[0] == '@'
}

/// The path components of a name: every segment but the last is marked.
pub open spec fn encode_path(segments: Seq<Seq<char>>) -> Seq<Seq<char>> {
    Seq::new(
        segments.len(),
        |i: int|
            if i < segments.len() - 1 {
                marked(segments[i])
            } else {
                segments[i]
            },
    )
}

/// The segments that the marked components among `components` stand for.
pub open spec fn namespaces(components: Seq<Seq<char>>) -> Seq<Seq<char>>
    decreases components.len(),
{
    if components.len() == 0 {
        Seq::empty()
    } else {
        let earlier = namespaces(components.drop_last());
        let component = components.last();
        if is_marked(component) {
            earlier.push(component.subrange(1, component.len() as int))
        } else {
            earlier
        }
    }
}

/// The name that a path stands for: its last component is the leaf, and
/// each marked component above it is a namespace. Other components are
/// passed over. The path without components stands for the empty leaf.
pub open spec fn decode_path(components: Seq<Seq<char>>) -> Seq<Seq<char>> {
    if components.len() == 0 {
        seq![Seq::<char>::empty()]
    } else {
        namespaces(components.drop_last()).push(components.last())
    }
}

/// Marking segments and reading the marks back gives the segments.
pub proof fn lemma_namespaces_of_marked(segments: Seq<Seq<char>>)
    ensures
        namespaces(Seq::new(segments.len(), |i: int| marked(segments[i]))) == segments,
    decreases segments.len(),
{
    let all = Seq::new(segments.len(), |i: int| marked(segments[i]));
    if segments.len() > 0 {
        let init = segments.drop_last();
        lemma_namespaces_of_marked(init);
        assert(all.drop_last() =~= Seq::new(init.len(), |i: int| marked(init[i])));
        let component = all.last();
        assert(component == marked(segments.last()));
        assert(component.subrange(1, component.len() as int) =~= segments.last());
        assert(namespaces(all) =~= segments);
    } else {
        assert(namespaces(all) =~= segments);
    }
}

/// Whether a segment is fit for a name: it is not empty, and holds
/// neither the separator `/` nor the mark `@`.
pub open spec fn valid_segment(segment: Seq<char>) -> bool {
    segment.len() > 0 && free_of(segment, '/') && free_of(segment, '@')
}

/// Whether segments make a name as names are meant to be: there is one,
/// and each is fit.
pub open spec fn valid_segments(segments: Seq<Seq<char>>) -> bool {
    segments.len() >= 1 && forall|i: int|
        0 <= i < segments.len() ==> valid_segment(#[trigger] segments[i])
}

/// The round trip of a name through its path: decoding the path that a
/// name is encoded to gives the name back, whatever its segments hold.
pub proof fn lemma_path_round_trip(segments: Seq<Seq<char>>)
    requires
        segments.len() >= 1,
    ensures
        decode_path(encode_path(segments)) == segments,
{
    let path = encode_path(segments);
    let init = segments.drop_last();
    lemma_namespaces_of_marked(init);
    assert(path.drop_last() =~= Seq::new(init.len(), |i: int| marked(init[i])));
    assert(path.last() == segments.last());
    assert(decode_path(path) =~= segments);
}

/// A name of one segment is its own path: nothing is marked.
pub proof fn lemma_single_segment_path(segment: Seq<char>)
    ensures
        encode_path(seq![segment]) == seq![segment],
        decode_path(seq![segment]) == seq![segment],
{
    assert(encode_path(seq![segment]) =~= seq![segment]);
    assert(seq![segment].drop_last() =~= Seq::<Seq<char>>::empty());
    assert(decode_path(seq![segment]) =~= seq![segment]);
}

/// The round trip of a name through its text: parsing the text that a name
/// is displayed as gives the name back, unless a segment holds a `/`.
pub proof fn lemma_text_round_trip(segments: Seq<Seq<char>>)
    requires
        segments.len() >= 1,
        all_free_of(segments, '/'),
    ensures
        split(join(segments, '/'), '/') == segments,
{
    lemma_split_join(segments, '/');
}

/// What every resource has: a place, a name and a configuration.
pub trait Resource {
    type Config;

    /// The path of the resource, as contracts speak of it.
    spec fn spec_path(&self) -> FsPath;

    /// The name of the resource, as contracts speak of it.
    spec fn spec_name(&self) -> Name;

    /// The configuration of the resource, as contracts speak of it.
    spec fn spec_config(&self) -> Self::Config;

    /// The path of the resource in the filesystem.
    fn path(&self) -> (path: &FsPath)
        ensures
            *path == self.spec_path(),
    ;

    /// The name of the resource.
    fn name(&self) -> (name: &Name)
        ensures
            *name == self.spec_name(),
    ;

    /// The configuration of the resource.
    fn config(&self) -> (config: &Self::Config)
        ensures
            *config == self.spec_config(),
    ;
}

/// A name of valid segments comes back from its path and from its text.
pub proof fn lemma_valid_name_round_trips(segments: Seq<Seq<char>>)
    requires
        valid_segments(segments),
    ensures
        decode_path(encode_path(segments)) == segments,
        split(join(segments, '/'), '/') == segments,
{
    lemma_path_round_trip(segments);
    lemma_text_round_trip(segments);
}

/// A Battalion resource name: the segments of a slash-separated hierarchy
/// such as `team/project/lib`. Repositories, workspaces and their archives
/// are known by such names. A name has at least one segment.
#[derive(Debug, Hash)]
pub struct Name(Vec<String>);

impl View for Name {
    type V = Seq<Seq<char>>;

    closed spec fn view(&self) -> Seq<Seq<char>> {
        self.0.deep_view()
    }
}

impl DeepView for Name {
    type V = Seq<Seq<char>>;

    open spec fn deep_view(&self) -> Seq<Seq<char>> {
        self@
    }
}

impl Name {
    #[verifier::type_invariant]
    spec fn has_leaf(self) -> bool {
        self.0.len() >= 1
    }

    /// The name with the given segments.
    pub(crate) fn new(components: Vec<String>) -> (name: Name)
        requires
            components.len() >= 1,
        ensures
            name@ == components.deep_view(),
    {
        Name(components)
    }

    /// The segments of the name, outermost first.
    pub fn components(&self) -> (components: &Vec<String>)
        ensures
            components.deep_view() == self@,
            components.len() >= 1,
    {
        proof {
            use_type_invariant(self);
        }
        &self.0
    }

    /// Reads a name from its text by cutting it at every `/`. Any text is
    /// a name; whether it is an acceptable one is for the caller to say.
    pub fn parse(text: &str) -> (name: Name)
        ensures
            name@ == split(text@, '/'),
            name@.len() >= 1,
            all_free_of(name@, '/'),
    {
        proof {
            lemma_split_pieces(text@, '/');
        }
        let segments = split_str(text, '/');
        Name::new(segments)
    }

    /// Whether every segment of the name is fit for a name.
    pub fn is_valid(&self) -> (valid: bool)
        ensures
            valid == valid_segments(self@),
    {
        proof {
            use_type_invariant(self);
        }
        let mut i: usize = 0;
        while i < self.0.len()
            invariant
                i <= self.0.len(),
                forall|j: int| 0 <= j < i ==> valid_segment(#[trigger] self@[j]),
            decreases self.0.len() - i,
        {
            let segment = self.0[i].as_str();
            let n = segment.unicode_len();
            if n == 0 {
                assert(!valid_segment(self@[i as int]));
                return false;
            }
            let mut k: usize = 0;
            while k < n
                invariant
                    k <= n,
                    i < self.0.len(),
                    n == segment@.len(),
                    segment@ == self@[i as int],
                    forall|j: int| 0 <= j < k ==> segment@[j] != '/' && segment@[j] != '@',
                decreases n - k,
            {
                let c = segment.get_char(k);
                if c == '/' || c == '@' {
                    assert(self@[i as int][k as int] == c);
                    assert(!valid_segment(self@[i as int]));
                    return false;
                }
                k = k + 1;
            }
            i = i + 1;
        }
        true
    }

    /// The name as text: its segments with `/` between them.
    pub fn to_string(&self) -> (text: String)
        ensures
            text@ == join(self@, '/'),
            self@.len() >= 1,
    {
        proof {
            use_type_invariant(self);
            reveal_strlit("/");
            assert("/"@ =~= seq!['/']);
            lemma_join_with_char(self@, '/');
        }
        join_strs(&self.0, "/")
    }

    /// Where the resource lies below the root of its kind: one directory
    /// per segment, each but the last marked with `@`.
    pub fn to_path(&self) -> (path: FsPath)
        ensures
            path@ == (PathModel { anchor: Seq::empty(), components: encode_path(self@) }),
            self@.len() >= 1,
    {
        proof {
            use_type_invariant(self);
            reveal_strlit("@");
        }
        assert("@"@ =~= seq!['@']);
        let n = self.0.len();
        let mut components: Vec<String> = Vec::new();
        let mut i: usize = 0;
        while i < n - 1
            invariant
                n == self.0.len(),
                n >= 1,
                i <= n - 1,
                "@"@ == seq!['@'],
                components.deep_view() == encode_path(self@).subrange(0, i as int),
            decreases n - i,
        {
            let ghost before = components.deep_view();
            let component = String::from_str("@").concat(self.0[i].as_str());
            components.push(component);
            assert(components.deep_view() =~= before.push(component@));
            assert(components.deep_view() =~= encode_path(self@).subrange(0, i + 1));
            i = i + 1;
        }
        let ghost before = components.deep_view();
        components.push(self.0[n - 1].clone());
        assert(components.deep_view() =~= before.push(self.0[n - 1]@));
        assert(components.deep_view() =~= encode_path(self@));
        FsPath::relative(components)
    }

    /// The name of the resource that lies at `path`: the last component is
    /// the leaf, and every marked component above it is a namespace.
    pub fn from_path(path: &FsPath) -> (name: Name)
        ensures
            name@ == decode_path(path@.components),
            name@.len() >= 1,
    {
        let n = path.components.len();
        if n == 0 {
            let mut segments: Vec<String> = Vec::new();
            segments.push(String::new());
            assert(segments.deep_view() =~= seq![Seq::<char>::empty()]);
            return Name::new(segments);
        }
        let ghost all = path.components.deep_view();
        let mut segments: Vec<String> = Vec::new();
        let mut i: usize = 0;
        assert(all.subrange(0, 0) =~= Seq::<Seq<char>>::empty());
        while i < n - 1
            invariant
                n == path.components.len(),
                n >= 1,
                i <= n - 1,
                all == path.components.deep_view(),
                segments.deep_view() == namespaces(all.subrange(0, i as int)),
            decreases n - i,
        {
            let component = path.components[i].as_str();
            let len = component.unicode_len();
            let ghost before = segments.deep_view();
            assert(all.subrange(0, i + 1).drop_last() =~= all.subrange(0, i as int));
            assert(all.subrange(0, i + 1).last() == component@);
            if len > 0 && component.get_char(0) == '@' {
                let segment = component.substring_char(1, len).to_owned();
                segments.push(segment);
                assert(segments.deep_view() =~= before.push(segment@));
            }
            i = i + 1;
        }
        assert(all.subrange(0, n - 1) =~= all.drop_last());
        let ghost before = segments.deep_view();
        segments.push(path.components[n - 1].clone());
        assert(segments.deep_view() =~= before.push(all.last()));
        Name::new(segments)
    }
}

impl Clone for Name {
    fn clone(&self) -> (copy: Name)
        ensures
            copy@ == self@,
    {
        proof {
            use_type_invariant(self);
        }
        let segments = self.0.clone();
        assert(segments.deep_view() =~= self.0.deep_view());
        Name::new(segments)
    }
}

impl PartialEq for Name {
    fn eq(&self, other: &Name) -> (same: bool) {
        same_texts(&self.0, &other.0)
    }
}

impl vstd::std_specs::cmp::PartialEqSpecImpl for Name {
    open spec fn obeys_eq_spec() -> bool {
        true
    }

    open spec fn eq_spec(&self, other: &Name) -> bool {
        self@ == other@
    }
}

impl Eq for Name {

}

} // verus!
