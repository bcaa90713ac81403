use vstd::prelude::*;

verus! {

/// One token of a protobuf type path as written in `#[proto_type = "..."]`:
/// an identifier, or the `::` that separates two identifiers.
pub enum PathToken {
    Ident(String),
    Sep,
}

/// `::` starts at position `i` of `s`.
pub open spec fn is_sep_at(s: Seq<char>, i: int) -> bool {
    0 <= i && i + 1 < s.len() && s[i] == ':' && s[i + 1] == ':'
}

/// The position of the leftmost `::` in `s`, if there is one.
pub open spec fn first_sep(s: Seq<char>) -> Option<int>
    decreases s.len(),
{
    if s.len() < 2 {
        None
    } else if is_sep_at(s, 0) {
        Some(0)
    } else {
        match first_sep(s.drop_first()) {
            Some(k) => Some(k + 1),
            None => None,
        }
    }
}

/// The pieces of `s` between the separators `::`, found from left to right
/// without overlap (as `str::split("::")` finds them).
pub open spec fn split_path(s: Seq<char>) -> Seq<Seq<char>>
    decreases s.len(),
{
    match first_sep(s) {
        Some(k) => if 0 <= k && k + 2 <= s.len() {
            seq![s.take(k)] + split_path(s.skip(k + 2))
        } else {
            seq![s]
        },
        None => seq![s],
    }
}

/// The pieces joined again with `::` between each two of them.
pub open spec fn join_path(segs: Seq<Seq<char>>) -> Seq<char>
    decreases segs.len(),
{
    if segs.len() == 0 {
        seq![]
    } else if segs.len() == 1 {
        segs[0]
    } else {
        segs[0] + seq![':', ':'] + join_path(segs.drop_first())
    }
}

/// The token sequence of a path made of `segs`: the identifiers in order with a
/// separator between each two of them, and none at the end.
pub open spec fn tokens_of(tokens: Seq<PathToken>, segs: Seq<Seq<char>>) -> bool {
    &&& segs.len() >= 1
    &&& tokens.len() == 2 * segs.len() - 1
    &&& forall|i: int|
        0 <= i < tokens.len() ==> (if i % 2 == 0 {
            #[trigger] tokens[i] matches PathToken::Ident(id) && id@ == segs[i / 2]
        } else {
            tokens[i] is Sep
        })
}

/// `first_sep` finds exactly the leftmost separator.
pub proof fn lemma_first_sep(s: Seq<char>)
    ensures
        first_sep(s) matches Some(k) ==> {
            &&& is_sep_at(s, k)
            &&& forall|j: int| 0 <= j < k ==> !#[trigger] is_sep_at(s, j)
        },
        first_sep(s) is None ==> forall|j: int| !#[trigger] is_sep_at(s, j),
    decreases s.len(),
{
    if s.len() >= 2 && !is_sep_at(s, 0) {
        let t = s.drop_first();
        lemma_first_sep(t);
        assert forall|j: int| 1 <= j implies is_sep_at(s, j) == #[trigger] is_sep_at(t, j - 1) by {}
        if let Some(k) = first_sep(t) {
            assert forall|j: int| 0 <= j < k + 1 implies !#[trigger] is_sep_at(s, j) by {
                if j >= 1 {
                    assert(is_sep_at(s, j) == is_sep_at(t, j - 1));
                }
            }
        } else {
            assert forall|j: int| !#[trigger] is_sep_at(s, j) by {
                if j >= 1 {
                    assert(is_sep_at(s, j) == is_sep_at(t, j - 1));
                }
            }
        }
    }
}

/// A position `k` with a separator there and none before it is what `first_sep` gives.
pub proof fn lemma_first_sep_is(s: Seq<char>, k: int)
    requires
        is_sep_at(s, k),
        forall|j: int| 0 <= j < k ==> !#[trigger] is_sep_at(s, j),
    ensures
        first_sep(s) == Some(k),
{
    lemma_first_sep(s);
    if let Some(m) = first_sep(s) {
        if m < k {
            assert(!is_sep_at(s, m));
        } else if k < m {
            assert(!is_sep_at(s, k));
        }
    }
}

/// A path always splits into at least one piece.
pub proof fn lemma_split_path_nonempty(s: Seq<char>)
    ensures
        split_path(s).len() >= 1,
    decreases s.len(),
{
    if let Some(k) = first_sep(s) {
        if 0 <= k && k + 2 <= s.len() {
            lemma_split_path_nonempty(s.skip(k + 2));
        }
    }
}

/// Law: joining the pieces of a path with `::` gives back the path itself, so
/// the token stream of a path spells exactly that path.
pub proof fn law_join_split_path(s: Seq<char>)
    ensures
        join_path(split_path(s)) == s,
    decreases s.len(),
{
    lemma_first_sep(s);
    if let Some(k) = first_sep(s) {
        let rest = s.skip(k + 2);
        law_join_split_path(rest);
        lemma_split_path_nonempty(rest);
        let segs = split_path(s);
        assert(segs == seq![s.take(k)] + split_path(rest));
        assert(segs.drop_first() =~= split_path(rest));
        assert(s.take(k) + seq![':', ':'] + rest =~= s);
    }
}

/// Law: no piece of a split path holds the separator `::`.
pub proof fn law_split_path_pieces_have_no_sep(s: Seq<char>)
    ensures
        forall|i: int, j: int|
            0 <= i < split_path(s).len() ==> !#[trigger] is_sep_at(split_path(s)[i], j),
    decreases s.len(),
{
    lemma_first_sep(s);
    if let Some(k) = first_sep(s) {
        let rest = s.skip(k + 2);
        law_split_path_pieces_have_no_sep(rest);
        let segs = split_path(s);
        assert forall|i: int, j: int| 0 <= i < segs.len() implies !#[trigger] is_sep_at(segs[i], j) by {
            if i == 0 {
                if is_sep_at(s.take(k), j) {
                    assert(is_sep_at(s, j));
                }
            } else {
                assert(segs[i] == split_path(rest)[i - 1]);
            }
        }
    }
}

/// Splits a protobuf type path such as `protos::processor::TpRegisterRequest`
/// at each `::` and gives back its identifiers with a separator between each
/// two of them.
pub fn path_to_token_stream(path: &str) -> (tokens: Vec<PathToken>)
    ensures
        tokens_of(tokens@, split_path(path@)),
{
    let len = path.unicode_len();
    let mut tokens: Vec<PathToken> = Vec::new();
    let ghost mut done: Seq<Seq<char>> = seq![];
    let mut start: usize = 0;
    let mut i: usize = 0;
    assert(path@.skip(0) =~= path@);
    assert(done + split_path(path@) =~= split_path(path@));
    while i < len
        invariant
            len == path@.len(),
            start <= i <= len,
            split_path(path@) == done + split_path(path@.skip(start as int)),
            forall|j: int| start <= j < i ==> !#[trigger] is_sep_at(path@, j),
            tokens@.len() == 2 * done.len(),
            forall|k: int|
                0 <= k < tokens@.len() ==> (if k % 2 == 0 {
                    #[trigger] tokens@[k] matches PathToken::Ident(id) && id@ == done[k / 2]
                } else {
                    tokens@[k] is Sep
                }),
        decreases len - i,
    {
        if i + 1 < len && path.get_char(i) == ':' && path.get_char(i + 1) == ':' {
            let ghost rest = path@.skip(start as int);
            proof {
                assert(is_sep_at(rest, i - start));
                assert forall|j: int| 0 <= j < i - start implies !#[trigger] is_sep_at(rest, j) by {
                    assert(is_sep_at(rest, j) == is_sep_at(path@, start + j));
                }
                lemma_first_sep_is(rest, i - start);
                assert(rest.take(i - start) =~= path@.subrange(start as int, i as int));
                assert(rest.skip(i - start + 2) =~= path@.skip(i + 2));
            }
            let seg = path.substring_char(start, i).to_owned();
            tokens.push(PathToken::Ident(seg));
            tokens.push(PathToken::Sep);
            proof {
                done = done.push(path@.subrange(start as int, i as int));
                assert(seq![rest.take(i - start)] + split_path(rest.skip(i - start + 2))
                    =~= seq![path@.subrange(start as int, i as int)] + split_path(path@.skip(i + 2)));
                assert(done.drop_last() + (seq![done.last()] + split_path(path@.skip(i + 2)))
                    =~= done + split_path(path@.skip(i + 2)));
            }
            i = i + 2;
            start = i;
        } else {
            i = i + 1;
        }
    }
    let ghost rest = path@.skip(start as int);
    proof {
        assert forall|j: int| !#[trigger] is_sep_at(rest, j) by {
            if 0 <= j && j + 1 < rest.len() {
                assert(is_sep_at(rest, j) == is_sep_at(path@, start + j));
            }
        }
        lemma_first_sep(rest);
        if first_sep(rest) is Some {
            assert(is_sep_at(rest, first_sep(rest)->0));
        }
        assert(rest =~= path@.subrange(start as int, len as int));
    }
    let seg = path.substring_char(start, len).to_owned();
    tokens.push(PathToken::Ident(seg));
    proof {
        done = done.push(path@.subrange(start as int, len as int));
        assert(split_path(path@) =~= done);
    }
    tokens
}

} // verus!
