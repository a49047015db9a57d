//! Paths, as the components that tell one path from another.
use vstd::prelude::*;

verus! {

/// A path by the text of its components. An absolute path starts with the component `/`.
pub type PathView = Seq<Seq<char>>;

/// The pieces of `text` between its slashes, empty pieces included.
pub open spec fn split_on_slash(text: Seq<char>) -> Seq<Seq<char>>
    decreases text.len(),
{
    if text.len() == 0 {
        seq![Seq::empty()]
    } else {
        let before = split_on_slash(text.drop_last());
        if text.last() == '/' {
            before.push(Seq::empty())
        } else {
            before.drop_last().push(before.last().push(text.last()))
        }
    }
}

/// The path written `text` starts at the root.
pub open spec fn is_rooted(text: Seq<char>) -> bool {
    text.len() > 0 && text[0] == '/'
}

/// A piece that stands for a component: neither empty nor the current directory.
pub open spec fn is_name(piece: Seq<char>) -> bool {
    piece.len() > 0 && piece != seq!['.']
}

/// The pieces that stand for components, in their order.
pub open spec fn names(pieces: Seq<Seq<char>>) -> Seq<Seq<char>> {
    pieces.filter(|piece: Seq<char>| is_name(piece))
}

/// The component that a path of these pieces starts with, where it starts at the root or with
/// the current directory.
pub open spec fn leading(rooted: bool, pieces: Seq<Seq<char>>) -> PathView {
    if rooted {
        seq![seq!['/']]
    } else if pieces.len() > 0 && pieces[0] == seq!['.'] {
        seq![seq!['.']]
    } else {
        Seq::empty()
    }
}

/// The components of the path written `text`. Repeated slashes and a trailing slash do not count,
/// nor does a `.`, unless the path starts with it. A leading slash is a component of its own.
pub open spec fn components_of(text: Seq<char>) -> PathView {
    let pieces = split_on_slash(text);
    leading(is_rooted(text), pieces) + names(pieces)
}

/// A path that names a project or one of its files.
#[derive(Debug)]
pub struct ProjectPath {
    pub components: Vec<String>,
}

impl View for ProjectPath {
    type V = PathView;

    open spec fn view(&self) -> PathView {
        texts(self.components@)
    }
}

/// The text of each string.
pub open spec fn texts(strings: Seq<String>) -> Seq<Seq<char>> {
    strings.map_values(|s: String| s@)
}

impl Clone for ProjectPath {
    fn clone(&self) -> (copy: Self)
        ensures
            copy@ == self@,
    {
        let components = self.components.clone();
        assert(components@ =~= self.components@);
        ProjectPath { components }
    }
}

/// Adds `piece` to `components` where it stands for a component; `first` says that a relative
/// path starts with it.
fn push_piece(components: &mut Vec<String>, piece: &str, first: bool)
    ensures
        texts(final(components)@) == texts(old(components)@) + (if is_name(piece@) || (first
            && piece@ == seq!['.']) {
            seq![piece@]
        } else {
            Seq::empty()
        }),
{
    let size = piece.unicode_len();
    let current = size == 1 && piece.get_char(0) == '.';
    if current {
        assert(piece@ =~= seq!['.']);
    }
    if size > 0 && (!current || first) {
        components.push(piece.to_owned());
        assert(texts(components@) =~= texts(old(components)@).push(piece@));
    }
}

/// One more piece adds at most one name.
proof fn lemma_names_push(pieces: Seq<Seq<char>>, piece: Seq<char>)
    ensures
        names(pieces.push(piece)) == names(pieces) + (if is_name(piece) {
            seq![piece]
        } else {
            Seq::empty()
        }),
{
    reveal(Seq::filter);
    assert(pieces.push(piece).drop_last() == pieces);
}

impl ProjectPath {
    /// Reads the path that `text` writes.
    pub fn parse(text: &str) -> (path: ProjectPath)
        ensures
            path@ == components_of(text@),
    {
        let length = text.unicode_len();
        let mut components: Vec<String> = Vec::new();
        let rooted = length > 0 && text.get_char(0) == '/';
        if rooted {
            let root = text.substring_char(0, 1);
            components.push(root.to_owned());
            assert(root@ == seq!['/']);
        }
        let mut start: usize = 0;
        let mut at: usize = 0;
        let ghost mut done: Seq<Seq<char>> = Seq::empty();
        proof {
            reveal(Seq::filter);
            assert(text@.take(0) == Seq::<char>::empty());
            assert(text@.subrange(0, 0) == Seq::<char>::empty());
            assert(texts(components@) =~= leading(rooted, done) + names(done));
        }
        while at < length
            invariant
                start <= at <= length,
                length == text@.len(),
                rooted == is_rooted(text@),
                start == 0 <==> done.len() == 0,
                split_on_slash(text@.take(at as int)) == done.push(
                    text@.subrange(start as int, at as int),
                ),
                texts(components@) == leading(rooted, done) + names(done),
            decreases length - at,
        {
            let ghost piece = text@.subrange(start as int, at as int);
            assert(text@.take(at + 1).drop_last() == text@.take(at as int));
            if text.get_char(at) == '/' {
                proof {
                    lemma_names_push(done, piece);
                }
                push_piece(&mut components, text.substring_char(start, at), start == 0 && !rooted);
                proof {
                    let ghost extended = done.push(piece);
                    assert(texts(components@) =~= leading(rooted, extended) + names(extended));
                    done = extended;
                    assert(text@.subrange(at + 1, at + 1) == Seq::<char>::empty());
                }
                start = at + 1;
            } else {
                assert(piece.push(text@[at as int]) == text@.subrange(start as int, at + 1));
                assert(done.push(piece).drop_last() == done);
            }
            at = at + 1;
        }
        proof {
            assert(text@.take(length as int) == text@);
            lemma_names_push(done, text@.subrange(start as int, length as int));
        }
        push_piece(&mut components, text.substring_char(start, length), start == 0 && !rooted);
        assert(texts(components@) =~= components_of(text@));
        ProjectPath { components }
    }

    /// Tells whether the two are the same path.
    pub fn same(&self, other: &ProjectPath) -> (same: bool)
        ensures
            same == (self@ == other@),
    {
        if self.components.len() != other.components.len() {
            assert(self@.len() != other@.len());
            return false;
        }
        let mut at: usize = 0;
        while at < self.components.len()
            invariant
                self.components.len() == other.components.len(),
                at <= self.components.len(),
                forall|j: int| 0 <= j < at ==> self@[j] == other@[j],
            decreases self.components.len() - at,
        {
            if self.components[at] != other.components[at] {
                assert(self@[at as int] != other@[at as int]);
                return false;
            }
            at = at + 1;
        }
        assert(self@ =~= other@);
        true
    }

    /// The path without its last component: none for the root and for the empty path.
    pub fn parent(&self) -> (parent: Option<ProjectPath>)
        ensures
            match parent {
                Some(path) => parent_of(self@) == Some(path@),
                None => parent_of(self@) is None,
            },
            parent is Some <==> self@.len() > 0 && self@.last() != seq!['/'],
            parent matches Some(path) ==> path@ == self@.drop_last(),
    {
        let count = self.components.len();
        if count == 0 {
            return None;
        }
        let mut components = self.components.clone();
        assert(components@ =~= self.components@);
        match components.pop() {
            Some(last) => {
                if last.as_str().unicode_len() == 1 && last.as_str().get_char(0) == '/' {
                    assert(last@ =~= seq!['/']);
                    None
                } else {
                    assert(texts(components@) =~= self@.drop_last());
                    Some(ProjectPath { components })
                }
            },
            None => None,
        }
    }
}

/// The path that holds `path`: none for the root and for the empty path.
pub open spec fn parent_of(path: PathView) -> Option<PathView> {
    if path.len() == 0 || path.last() == seq!['/'] {
        None
    } else {
        Some(path.drop_last())
    }
}

proof fn lemma_split_is_not_empty(text: Seq<char>)
    ensures
        split_on_slash(text).len() > 0,
    decreases text.len(),
{
    if text.len() > 0 {
        lemma_split_is_not_empty(text.drop_last());
    }
}

proof fn lemma_split_without_slash(text: Seq<char>)
    requires
        !text.contains('/'),
    ensures
        split_on_slash(text) == seq![text],
    decreases text.len(),
{
    if text.len() > 0 {
        assert forall|i: int| 0 <= i < text.len() implies text[i] != '/' by {
            assert(text.contains(text[i]));
        }
        lemma_split_without_slash(text.drop_last());
        assert(seq![text.drop_last()].drop_last() =~= Seq::empty());
        assert(text.drop_last().push(text.last()) =~= text);
    } else {
        assert(text =~= Seq::empty());
    }
    assert(split_on_slash(text) =~= seq![text]);
}

/// A slash parts the pieces before it from those behind it.
proof fn lemma_split_at_slash(before: Seq<char>, behind: Seq<char>)
    ensures
        split_on_slash(before.push('/') + behind) == split_on_slash(before) + split_on_slash(
            behind,
        ),
    decreases behind.len(),
{
    let text = before.push('/') + behind;
    lemma_split_is_not_empty(before);
    if behind.len() == 0 {
        assert(text.drop_last() =~= before);
        assert(split_on_slash(text) =~= split_on_slash(before) + split_on_slash(behind));
    } else {
        let rest = behind.drop_last();
        lemma_split_at_slash(before, rest);
        lemma_split_is_not_empty(rest);
        assert(text.drop_last() =~= before.push('/') + rest);
        assert(split_on_slash(text) =~= split_on_slash(before) + split_on_slash(behind));
    }
}

/// The components of a path that holds a slash, by what stands before it and behind it.
proof fn lemma_components_at_slash(before: Seq<char>, behind: Seq<char>)
    ensures
        components_of(before.push('/') + behind) == components_of(before.push('/')) + names(
            split_on_slash(behind),
        ),
        before.len() > 0 ==> components_of(before.push('/')) == components_of(before),
{
    let nothing = Seq::<char>::empty();
    lemma_split_is_not_empty(before);
    lemma_split_at_slash(before, behind);
    lemma_split_at_slash(before, nothing);
    assert(before.push('/') + nothing =~= before.push('/'));
    assert(split_on_slash(before) + split_on_slash(nothing) =~= split_on_slash(before).push(
        nothing,
    ));
    lemma_names_push(split_on_slash(before), nothing);
    Seq::filter_distributes_over_add(
        split_on_slash(before),
        split_on_slash(behind),
        |piece: Seq<char>| is_name(piece),
    );
    assert(components_of(before.push('/') + behind) =~= components_of(before.push('/')) + names(
        split_on_slash(behind),
    ));
}

/// A repeated slash and a `.` between slashes do not change a path, nor does a trailing slash,
/// unless it is all of the path.
pub proof fn law_idle_pieces(before: Seq<char>, behind: Seq<char>)
    ensures
        before.len() > 0 ==> components_of(before.push('/')) == components_of(before),
        components_of(before.push('/').push('/') + behind) == components_of(
            before.push('/') + behind,
        ),
        components_of(before.push('/').push('.').push('/') + behind) == components_of(
            before.push('/') + behind,
        ),
{
    lemma_components_at_slash(before, behind);
    lemma_components_at_slash(before.push('/'), behind);

    let dot = seq!['.'];
    lemma_components_at_slash(before, dot);
    assert(before.push('/') + dot =~= before.push('/').push('.'));
    lemma_split_without_slash(dot);
    lemma_names_push(Seq::empty(), dot);
    assert(Seq::<Seq<char>>::empty().push(dot) =~= seq![dot]);
    reveal(Seq::filter);
    assert(components_of(before.push('/').push('.')) =~= components_of(before.push('/')));
    lemma_components_at_slash(before.push('/').push('.'), behind);
}

/// The parent of a file in a directory is the directory.
pub proof fn law_parent_of_child(directory: Seq<char>, name: Seq<char>)
    requires
        directory.len() > 0,
        is_name(name),
        !name.contains('/'),
    ensures
        parent_of(components_of(directory.push('/') + name)) == Some(components_of(directory)),
{
    reveal(Seq::filter);
    lemma_components_at_slash(directory, name);
    lemma_split_without_slash(name);
    lemma_names_push(Seq::empty(), name);
    assert(Seq::<Seq<char>>::empty().push(name) =~= seq![name]);
    assert(names(seq![name]) =~= seq![name]);
    let path = components_of(directory.push('/') + name);
    assert(path.last() == name);
    assert(seq!['/'][0] == '/');
    assert(name != seq!['/']);
    assert(path.drop_last() =~= components_of(directory));
}

/// A path is as long as the list of its components, and shows the text of each.
pub proof fn law_view_shows_components(path: ProjectPath)
    ensures
        path@.len() == path.components@.len(),
        forall|i: int| 0 <= i < path@.len() ==> #[trigger] path@[i] == path.components@[i]@,
{
}

/// A path is read piece by piece: a name behind a slash adds one component, and nothing else does.
/// The root and a `.` count where the path starts with them.
pub proof fn law_components_by_last_piece(before: Seq<char>, piece: Seq<char>)
    requires
        !piece.contains('/'),
    ensures
        piece.len() == 0 || piece == seq!['.'] ==> {
            &&& before.len() > 0 ==> components_of(before.push('/') + piece) == components_of(
                before,
            )
            &&& components_of(seq!['/'] + piece) == seq![seq!['/']]
        },
        !(piece.len() == 0 || piece == seq!['.']) ==> {
            &&& before.len() > 0 ==> components_of(before.push('/') + piece) == components_of(
                before,
            ).push(piece)
            &&& components_of(seq!['/'] + piece) == seq![seq!['/'], piece]
        },
        components_of(piece) == if piece.len() == 0 {
            Seq::empty()
        } else {
            seq![piece]
        },
{
    reveal(Seq::filter);
    let nothing = Seq::<char>::empty();
    let none = Seq::<Seq<char>>::empty();
    lemma_split_without_slash(piece);
    lemma_names_push(none, piece);
    assert(none.push(piece) =~= seq![piece]);
    assert(names(none) =~= none);
    if piece.len() == 0 {
        assert(piece =~= nothing);
    }
    lemma_components_at_slash(before, piece);
    lemma_components_at_slash(nothing, piece);
    assert(nothing.push('/') =~= seq!['/']);
    assert(components_of(seq!['/']) =~= seq![seq!['/']]) by {
        lemma_split_at_slash(nothing, nothing);
        assert(nothing.push('/') + nothing =~= seq!['/']);
        lemma_names_push(none, nothing);
        assert(none.push(nothing) =~= seq![nothing]);
        lemma_names_push(seq![nothing], nothing);
        assert(split_on_slash(seq!['/']) =~= seq![nothing].push(nothing));
        assert(names(split_on_slash(seq!['/'])) =~= none);
    }
    assert(!is_rooted(piece)) by {
        if is_rooted(piece) {
            assert(piece.contains(piece[0]));
        }
    }
    let added = if is_name(piece) {
        seq![piece]
    } else {
        none
    };
    assert(names(seq![piece]) =~= added);
    if before.len() > 0 {
        assert(components_of(before.push('/') + piece) =~= components_of(before) + added);
    }
    assert(components_of(seq!['/'] + piece) =~= seq![seq!['/']] + added);
    assert(components_of(piece) =~= if piece.len() == 0 {
        none
    } else {
        seq![piece]
    });
}

/// One more component leads to a path whose parent is the path before. The root and the empty
/// path have no parent.
pub proof fn law_parent_drops_one_component(path: PathView, component: Seq<char>)
    ensures
        component != seq!['/'] ==> parent_of(path.push(component)) == Some(path),
        parent_of(path.push(seq!['/'])) is None,
        parent_of(Seq::empty()) is None,
{
    assert(path.push(component).drop_last() =~= path);
}

} // verus!
