//! The namespace model: a slash-delimited path names an ordered sequence of segments,
//! and a namespace wraps an expression in one parenthesized group per segment,
//! outermost first.
//!
//! The nested form is the only grammar this crate writes. The flat form that joins the
//! segments with `|` is not wire-compatible with it and is never produced.

use crate::error::ErrorKind;
use crate::text::{
    lemma_occurrences_absent, lemma_occurrences_concat, lemma_occurrences_repeated,
    lemma_occurrences_single, occurrences, repeated,
};
use vstd::prelude::*;

verus! {

/// The character that separates the segments of a namespace path.
pub const SEPARATOR: char = '/';

/// The substitution point of a wrapper: the place an expression is put into.
pub const HOLE: char = '\u{2022}';

/// Length of the longest prefix of `path` that holds no separator.
pub open spec fn segment_len(path: Seq<char>) -> nat
    decreases path.len(),
{
    if path.len() == 0 || path[0] == SEPARATOR {
        0
    } else {
        1 + segment_len(path.drop_first())
    }
}

/// The segments of a path: its maximal runs of characters other than the separator,
/// in order. Leading, trailing and doubled separators contribute nothing.
pub open spec fn path_segments(path: Seq<char>) -> Seq<Seq<char>>
    decreases path.len(),
{
    if path.len() == 0 {
        Seq::empty()
    } else if path[0] == SEPARATOR {
        path_segments(path.drop_first())
    } else {
        let n = segment_len(path) as int;
        proof {
            lemma_segment_len_bounds(path);
        }
        seq![path.take(n)] + path_segments(path.skip(n))
    }
}

/// A path is valid when it begins and ends with the separator.
pub open spec fn valid_path(path: Seq<char>) -> bool {
    path.len() > 0 && path.first() == SEPARATOR && path.last() == SEPARATOR
}

/// The nested form: `inner` inside one group per segment, the first segment outermost.
/// With no segment, `inner` itself.
pub open spec fn nest(segments: Seq<Seq<char>>, inner: Seq<char>) -> Seq<char>
    decreases segments.len(),
{
    if segments.len() == 0 {
        inner
    } else {
        seq!['('] + segments[0] + seq![' '] + nest(segments.drop_first(), inner) + seq![')']
    }
}

/// The wrapper of a segment sequence: its nested form around the substitution point.
pub open spec fn wrapper(segments: Seq<Seq<char>>) -> Seq<char> {
    nest(segments, seq![HOLE])
}

/// `text` with its first substitution point replaced by `value`; `text` itself where
/// it holds none.
pub open spec fn substitute(text: Seq<char>, value: Seq<char>) -> Seq<char>
    decreases text.len(),
{
    if text.len() == 0 {
        text
    } else if text[0] == HOLE {
        value + text.drop_first()
    } else {
        seq![text[0]] + substitute(text.drop_first(), value)
    }
}

/// What a wrapper holds before its substitution point: every group's opening
/// parenthesis, its segment and a space.
pub open spec fn opening(segments: Seq<Seq<char>>) -> Seq<char>
    decreases segments.len(),
{
    if segments.len() == 0 {
        Seq::empty()
    } else {
        seq!['('] + segments[0] + seq![' '] + opening(segments.drop_first())
    }
}

/// What a wrapper of `depth` groups holds after its substitution point.
pub open spec fn closing(depth: nat) -> Seq<char> {
    repeated(')', depth)
}

/// A segment is proper when it is non-empty and holds no separator.
pub open spec fn proper(segment: Seq<char>) -> bool {
    segment.len() > 0 && !segment.contains(SEPARATOR)
}

/// A segment is plain when it holds no parenthesis and no substitution point.
pub open spec fn plain(segment: Seq<char>) -> bool {
    !segment.contains('(') && !segment.contains(')') && !segment.contains(HOLE)
}

/// A hierarchical address: the slash-delimited path of the place where patterns and
/// templates are evaluated.
pub struct Namespace {
    pub ns: String,
}

impl View for Namespace {
    type V = Seq<Seq<char>>;

    /// A namespace stands for the segments of its path.
    open spec fn view(&self) -> Seq<Seq<char>> {
        path_segments(self.ns@)
    }
}

impl Namespace {
    /// The root namespace, `/`.
    pub fn new() -> (root: Namespace)
        ensures
            root.ns@ == seq![SEPARATOR],
            root@ == Seq::<Seq<char>>::empty(),
    {
        proof {
            reveal_strlit("/");
            lemma_root_is_identity(Seq::empty());
        }
        let root = Namespace { ns: String::from_str("/") };
        assert(root.ns@ =~= seq![SEPARATOR]);
        root
    }

    /// The same namespace value with its path replaced by `ns`.
    pub fn ns(self, ns: String) -> (moved: Namespace)
        ensures
            moved.ns == ns,
    {
        let mut moved = self;
        moved.ns = ns;
        moved
    }

    /// The namespace of `path`, where an empty path names the root.
    pub fn or_root(path: String) -> (found: Namespace)
        ensures
            found.ns@ == if path@.len() == 0 {
                seq![SEPARATOR]
            } else {
                path@
            },
            found@ == path_segments(path@),
    {
        if path.as_str().unicode_len() == 0 {
            proof {
                lemma_root_is_identity(Seq::empty());
                assert(path@ =~= Seq::<char>::empty());
            }
            Namespace::new()
        } else {
            Namespace::new().ns(path)
        }
    }

    /// Whether the path begins and ends with the separator.
    pub fn is_valid(&self) -> (valid: bool)
        ensures
            valid == valid_path(self.ns@),
    {
        let path: &str = self.ns.as_str();
        let len: usize = path.unicode_len();
        len > 0 && path.get_char(0) == SEPARATOR && path.get_char(len - 1) == SEPARATOR
    }

    /// The namespace of `path`, if the path passes the validity check. A path that does
    /// not begin and end with the separator is refused, never corrected.
    pub fn validated(path: String) -> (checked: Result<Namespace, ErrorKind>)
        ensures
            valid_path(path@) ==> checked == Ok::<Namespace, ErrorKind>(Namespace { ns: path }),
            !valid_path(path@) ==> checked == Err::<Namespace, ErrorKind>(
                ErrorKind::EncodingError,
            ),
    {
        let candidate = Namespace { ns: path };
        if candidate.is_valid() {
            Ok(candidate)
        } else {
            Err(ErrorKind::EncodingError)
        }
    }

    /// The wrapper of this namespace: one nested group per segment around the
    /// substitution point. The root namespace gives the bare substitution point.
    pub fn encoded(&self) -> (text: String)
        ensures
            text@ == wrapper(self@),
    {
        proof {
            reveal_strlit("\u{2022}");
        }
        let hole: &str = "\u{2022}";
        assert(hole@ =~= seq![HOLE]);
        self.with_namespace(hole)
    }

    /// `value` inside the wrapper of this namespace: the substitution point replaced by
    /// `value`, nothing else changed.
    pub fn with_namespace(&self, value: &str) -> (wrapped: String)
        ensures
            wrapped@ == nest(self@, value@),
    {
        let path: &str = self.ns.as_str();
        let len: usize = path.unicode_len();
        let ghost segments = path_segments(path@);
        let mut out: String = String::new();
        let mut depth: usize = 0;
        let mut i: usize = 0;
        proof {
            assert(path@.skip(0) =~= path@);
            assert(out@ + opening(segments) =~= opening(segments));
        }
        while i < len
            invariant
                i <= len,
                len == path@.len(),
                depth <= i,
                segments == path_segments(path@),
                opening(segments) == out@ + opening(path_segments(path@.skip(i as int))),
                segments.len() == depth + path_segments(path@.skip(i as int)).len(),
            decreases len - i,
        {
            let ghost rest = path@.skip(i as int);
            if path.get_char(i) == SEPARATOR {
                proof {
                    assert(rest.drop_first() =~= path@.skip(i + 1));
                }
                i += 1;
            } else {
                let mut j: usize = i + 1;
                while j < len && path.get_char(j) != SEPARATOR
                    invariant
                        i < j <= len,
                        len == path@.len(),
                        forall|k: int| i <= k < j ==> path@[k] != SEPARATOR,
                    decreases len - j,
                {
                    j += 1;
                }
                let segment: &str = path.substring_char(i, j);
                proof {
                    lemma_segment_len_is(rest, j - i);
                    assert(rest.take(j - i) =~= segment@);
                    assert(rest.skip(j - i) =~= path@.skip(j as int));
                    let later = path_segments(path@.skip(j as int));
                    assert(path_segments(rest) == seq![segment@] + later);
                    assert((seq![segment@] + later).drop_first() =~= later);
                    assert(opening(path_segments(rest)) == seq!['('] + segment@ + seq![' ']
                        + opening(later));
                    reveal_strlit("(");
                    reveal_strlit(" ");
                    assert(out@ + "("@ + segment@ + " "@ + opening(later) =~= out@ + (seq!['(']
                        + segment@ + seq![' '] + opening(later)));
                }
                out.append("(");
                out.append(segment);
                out.append(" ");
                depth += 1;
                i = j;
            }
        }
        proof {
            assert(path@.skip(len as int) =~= Seq::<char>::empty());
            assert(out@ + Seq::<char>::empty() =~= out@);
            lemma_nest_split(segments, value@);
        }
        out.append(value);
        let mut closed: usize = 0;
        while closed < depth
            invariant
                closed <= depth,
                out@ == opening(segments) + value@ + closing(closed as nat),
            decreases depth - closed,
        {
            proof {
                reveal_strlit(")");
                assert(opening(segments) + value@ + closing(closed as nat) + ")"@ =~= opening(
                    segments,
                ) + value@ + closing((closed + 1) as nat));
            }
            out.append(")");
            closed += 1;
        }
        out
    }
}

impl Clone for Namespace {
    fn clone(&self) -> (copy: Namespace)
        ensures
            copy == *self,
    {
        Namespace { ns: self.ns.clone() }
    }
}

impl From<String> for Namespace {
    /// The namespace of a path.
    fn from(ns: String) -> (made: Namespace) {
        Namespace::new().ns(ns)
    }
}

impl vstd::std_specs::convert::FromSpecImpl<String> for Namespace {
    open spec fn obeys_from_spec() -> bool {
        true
    }

    open spec fn from_spec(ns: String) -> Namespace {
        Namespace { ns }
    }
}

impl Default for Namespace {
    /// The root namespace.
    fn default() -> (root: Namespace)
        ensures
            root.ns@ == seq![SEPARATOR],
            root@ == Seq::<Seq<char>>::empty(),
    {
        Namespace::new()
    }
}

/// The bounds of `segment_len`: never past the end, and at least one character where
/// the path starts inside a segment.
pub proof fn lemma_segment_len_bounds(path: Seq<char>)
    ensures
        segment_len(path) <= path.len(),
        path.len() > 0 && path[0] != SEPARATOR ==> segment_len(path) >= 1,
    decreases path.len(),
{
    if path.len() > 0 && path[0] != SEPARATOR {
        lemma_segment_len_bounds(path.drop_first());
    }
}

/// A run of `n` characters other than the separator, followed by a separator or the end
/// of the path, is the path's first segment.
pub proof fn lemma_segment_len_is(path: Seq<char>, n: int)
    requires
        0 <= n <= path.len(),
        forall|k: int| 0 <= k < n ==> path[k] != SEPARATOR,
        n == path.len() || path[n] == SEPARATOR,
    ensures
        segment_len(path) == n,
    decreases n,
{
    if n > 0 {
        lemma_segment_len_is(path.drop_first(), n - 1);
    }
}

/// A path's first segment, where the path starts inside one, holds no separator.
proof fn lemma_first_segment_is_proper(path: Seq<char>, k: int)
    requires
        0 <= k < segment_len(path),
    ensures
        k < path.len(),
        path[k] != SEPARATOR,
    decreases path.len(),
{
    if k > 0 {
        lemma_first_segment_is_proper(path.drop_first(), k - 1);
    }
}

/// Every segment of a path is proper.
pub proof fn lemma_segments_are_proper(path: Seq<char>)
    ensures
        forall|i: int|
            0 <= i < path_segments(path).len() ==> proper(#[trigger] path_segments(path)[i]),
    decreases path.len(),
{
    if path.len() == 0 {
        assert(path_segments(path).len() == 0);
    } else if path[0] == SEPARATOR {
        lemma_segments_are_proper(path.drop_first());
        assert(path_segments(path) == path_segments(path.drop_first()));
    } else {
        let n = segment_len(path) as int;
        lemma_segment_len_bounds(path);
        lemma_segments_are_proper(path.skip(n));
        let first = path.take(n);
        assert forall|k: int| 0 <= k < first.len() implies first[k] != SEPARATOR by {
            lemma_first_segment_is_proper(path, k);
        }
        assert(proper(first));
        let later = path_segments(path.skip(n));
        let all = path_segments(path);
        assert(all == seq![first] + later);
        assert forall|i: int| 0 <= i < all.len() implies proper(#[trigger] all[i]) by {
            if i > 0 {
                assert(all[i] == later[i - 1]);
            } else {
                assert(all[0] == first);
            }
        }
    }
}

/// The nested form is the opening text, the inner expression and one closing
/// parenthesis per segment.
pub proof fn lemma_nest_split(segments: Seq<Seq<char>>, inner: Seq<char>)
    ensures
        nest(segments, inner) == opening(segments) + inner + closing(segments.len()),
    decreases segments.len(),
{
    if segments.len() == 0 {
        assert(closing(0) =~= Seq::<char>::empty());
        assert(nest(segments, inner) =~= opening(segments) + inner + closing(0));
    } else {
        let rest = segments.drop_first();
        lemma_nest_split(rest, inner);
        assert(closing(segments.len()) =~= closing(rest.len()) + seq![')']);
        assert(nest(segments, inner) =~= opening(segments) + inner + closing(segments.len()));
    }
}

/// Every namespace wrapper is nested around exactly one place for the expression: all
/// groups open before that place and close after it, one per segment, so whatever is
/// wrapped stands in the result unchanged, right behind the opening text.
pub proof fn lemma_wrapper_structure(segments: Seq<Seq<char>>, value: Seq<char>)
    ensures
        wrapper(segments) == opening(segments) + seq![HOLE] + closing(segments.len()),
        nest(segments, value) == opening(segments) + value + closing(segments.len()),
        closing(segments.len()).len() == segments.len(),
        forall|k: int| 0 <= k < segments.len() ==> closing(segments.len())[k] == ')',
        nest(segments, value).subrange(
            opening(segments).len() as int,
            (opening(segments).len() + value.len()) as int,
        ) == value,
{
    lemma_nest_split(segments, seq![HOLE]);
    lemma_nest_split(segments, value);
    let whole = opening(segments) + value + closing(segments.len());
    assert(whole.subrange(
        opening(segments).len() as int,
        (opening(segments).len() + value.len()) as int,
    ) =~= value);
}

/// With plain segments the opening text holds one opening parenthesis per segment,
/// and neither a closing parenthesis nor a substitution point.
pub proof fn lemma_opening_counts(segments: Seq<Seq<char>>)
    requires
        forall|i: int| 0 <= i < segments.len() ==> plain(#[trigger] segments[i]),
    ensures
        occurrences(opening(segments), '(') == segments.len(),
        occurrences(opening(segments), ')') == 0,
        occurrences(opening(segments), HOLE) == 0,
    decreases segments.len(),
{
    if segments.len() > 0 {
        let rest = segments.drop_first();
        assert forall|i: int| 0 <= i < rest.len() implies plain(#[trigger] rest[i]) by {
            assert(rest[i] == segments[i + 1]);
        }
        lemma_opening_counts(rest);
        assert(plain(segments[0]));
        let head = seq!['('] + segments[0] + seq![' '];
        assert(opening(segments) =~= head + opening(rest));
        lemma_count_group_head(segments[0], '(');
        lemma_count_group_head(segments[0], ')');
        lemma_count_group_head(segments[0], HOLE);
        lemma_occurrences_absent(segments[0], '(');
        lemma_occurrences_absent(segments[0], ')');
        lemma_occurrences_absent(segments[0], HOLE);
        lemma_occurrences_concat(head, opening(rest), '(');
        lemma_occurrences_concat(head, opening(rest), ')');
        lemma_occurrences_concat(head, opening(rest), HOLE);
    }
}

/// Occurrences of `c` in the text that opens one group: those in the segment, and one
/// more for the parenthesis or the space that the group itself brings.
proof fn lemma_count_group_head(segment: Seq<char>, c: char)
    ensures
        occurrences(seq!['('] + segment + seq![' '], c) == occurrences(segment, c) + if c == '('
            || c == ' ' {
            1nat
        } else {
            0nat
        },
{
    lemma_occurrences_concat(seq!['('] + segment, seq![' '], c);
    lemma_occurrences_concat(seq!['('], segment, c);
    lemma_occurrences_single('(', c);
    lemma_occurrences_single(' ', c);
}

/// The wrapper of plain segments holds exactly one substitution point and one pair of
/// parentheses per segment.
pub proof fn lemma_wrapper_counts(segments: Seq<Seq<char>>)
    requires
        forall|i: int| 0 <= i < segments.len() ==> plain(#[trigger] segments[i]),
    ensures
        occurrences(wrapper(segments), HOLE) == 1,
        occurrences(wrapper(segments), '(') == segments.len(),
        occurrences(wrapper(segments), ')') == segments.len(),
{
    let open = opening(segments);
    let close = closing(segments.len());
    lemma_nest_split(segments, seq![HOLE]);
    lemma_opening_counts(segments);
    lemma_occurrences_concat(open + seq![HOLE], close, HOLE);
    lemma_occurrences_concat(open + seq![HOLE], close, '(');
    lemma_occurrences_concat(open + seq![HOLE], close, ')');
    lemma_occurrences_concat(open, seq![HOLE], HOLE);
    lemma_occurrences_concat(open, seq![HOLE], '(');
    lemma_occurrences_concat(open, seq![HOLE], ')');
    lemma_occurrences_single(HOLE, HOLE);
    lemma_occurrences_single(HOLE, '(');
    lemma_occurrences_single(HOLE, ')');
    lemma_occurrences_repeated(')', segments.len(), HOLE);
    lemma_occurrences_repeated(')', segments.len(), '(');
    lemma_occurrences_repeated(')', segments.len(), ')');
}

/// Substituting into a text that holds its only substitution point behind `before`.
proof fn lemma_substitute_behind(before: Seq<char>, after: Seq<char>, value: Seq<char>)
    requires
        !before.contains(HOLE),
    ensures
        substitute(before + seq![HOLE] + after, value) == before + value + after,
    decreases before.len(),
{
    let text = before + seq![HOLE] + after;
    if before.len() == 0 {
        assert(text.drop_first() =~= after);
        assert(value + after =~= before + value + after);
    } else {
        let rest = before.drop_first();
        assert(before[0] != HOLE);
        assert forall|k: int| 0 <= k < rest.len() implies rest[k] != HOLE by {
            assert(before[k + 1] != HOLE);
        }
        lemma_substitute_behind(rest, after, value);
        assert(text.drop_first() =~= rest + seq![HOLE] + after);
        assert(seq![text[0]] + (rest + value + after) =~= before + value + after);
    }
}

/// The opening text of segments that hold no substitution point holds none either.
proof fn lemma_opening_has_no_hole(segments: Seq<Seq<char>>)
    requires
        forall|i: int| 0 <= i < segments.len() ==> !(#[trigger] segments[i]).contains(HOLE),
    ensures
        !opening(segments).contains(HOLE),
    decreases segments.len(),
{
    if segments.len() > 0 {
        let rest = segments.drop_first();
        assert forall|i: int| 0 <= i < rest.len() implies !(#[trigger] rest[i]).contains(
            HOLE,
        ) by {
            assert(rest[i] == segments[i + 1]);
        }
        lemma_opening_has_no_hole(rest);
        let head = seq!['('] + segments[0] + seq![' '];
        assert(!segments[0].contains(HOLE));
        assert forall|k: int| 0 <= k < opening(segments).len() implies opening(segments)[k]
            != HOLE by {
            if k == 0 {
            } else if k <= segments[0].len() {
                assert(opening(segments)[k] == segments[0][k - 1]);
            } else if k == segments[0].len() + 1 {
            } else {
                assert(opening(segments)[k] == opening(rest)[k - head.len()]);
            }
        }
    }
}

/// Wrapping is substitution: put into the wrapper of a namespace, a value gives the
/// nested form of that value. This holds wherever no segment holds the substitution
/// point itself.
pub proof fn lemma_wrapping_is_substitution(segments: Seq<Seq<char>>, value: Seq<char>)
    requires
        forall|i: int| 0 <= i < segments.len() ==> !(#[trigger] segments[i]).contains(HOLE),
    ensures
        substitute(wrapper(segments), value) == nest(segments, value),
{
    lemma_nest_split(segments, seq![HOLE]);
    lemma_nest_split(segments, value);
    lemma_opening_has_no_hole(segments);
    lemma_substitute_behind(opening(segments), closing(segments.len()), value);
}

/// The root namespace wraps nothing: its wrapper is the bare substitution point, and
/// whatever is put into it comes back unchanged.
pub proof fn lemma_root_is_identity(value: Seq<char>)
    ensures
        wrapper(Seq::empty()) == seq![HOLE],
        nest(Seq::empty(), value) == value,
        path_segments(Seq::empty()) == Seq::<Seq<char>>::empty(),
        path_segments(seq![SEPARATOR]) == Seq::<Seq<char>>::empty(),
{
    assert(seq![SEPARATOR].drop_first() =~= Seq::<char>::empty());
    assert(path_segments(Seq::<char>::empty()) == Seq::<Seq<char>>::empty());
}

} // verus!
