//! Short forms of file paths for logs.

use vstd::prelude::*;
use vstd::string::*;

use crate::error::{LEAN_ERROR_MESSAGE_LIMIT, bound_message, bounded_message, kept_of};
use crate::text::{
    bounding_keeps_the_longest_prefix, cat3, lemma_split_nonempty, lemma_utf8_len_range,
    same_text, separator_parts_the_pieces, split_on, split_text,
    text_without_separator_is_one_piece, texts, utf8_len,
};

verus! {

/// Whether the piece at position `i` of a path split at its separators is a
/// component: it is not empty, and it is no `.` but at the very start.
pub open spec fn is_component(pieces: Seq<Seq<char>>, i: int) -> bool {
    pieces[i].len() > 0 && (i == 0 || pieces[i] != "."@)
}

/// The components among the first `n` pieces of a path.
pub open spec fn components_among(pieces: Seq<Seq<char>>, n: int) -> Seq<Seq<char>>
    decreases n,
{
    if n <= 0 {
        Seq::empty()
    } else if is_component(pieces, n - 1) {
        components_among(pieces, n - 1).push(pieces[n - 1])
    } else {
        components_among(pieces, n - 1)
    }
}

/// The components of a path, without its root.
pub open spec fn path_components(path: Seq<char>) -> Seq<Seq<char>> {
    components_among(split_on(path, '/'), split_on(path, '/').len() as int)
}

/// `parts` joined by `/`.
pub open spec fn joined(parts: Seq<Seq<char>>) -> Seq<char>
    decreases parts.len(),
{
    if parts.len() == 0 {
        Seq::empty()
    } else if parts.len() == 1 {
        parts[0]
    } else {
        joined(parts.drop_last()) + "/"@ + parts.last()
    }
}

/// The last three of `parts`, or all of them where there are fewer.
pub open spec fn last_three(parts: Seq<Seq<char>>) -> Seq<Seq<char>> {
    if parts.len() <= 3 {
        parts
    } else {
        parts.skip(parts.len() - 3)
    }
}

/// The short form of a path: its basename with up to two parents.
pub open spec fn short_form(path: Seq<char>) -> Seq<char> {
    let parts = path_components(path);
    if parts.len() > 0 {
        bounded_message(joined(last_three(parts)))
    } else if path.len() > 0 {
        "/"@
    } else {
        "<unknown>"@
    }
}

/// Renders a path for a log: its basename with up to two parents. The root on
/// its own stays `/`; an empty path becomes `<unknown>`.
pub fn short_path(path: &str) -> (r: String)
    ensures
        r@ == short_form(path@),
        utf8_len(r@) <= LEAN_ERROR_MESSAGE_LIMIT,
{
    proof {
        reveal_strlit("<unknown>");
        reveal_strlit("/");
        lemma_utf8_len_range("<unknown>"@);
        lemma_utf8_len_range("/"@);
    }
    let pieces: Vec<String> = split_text(path, '/');
    let ghost all = texts(pieces@);
    let mut parts: Vec<String> = Vec::new();
    let mut i: usize = 0;
    assert(texts(parts@) =~= components_among(all, 0));
    while i < pieces.len()
        invariant
            i <= pieces@.len(),
            all == texts(pieces@),
            texts(parts@) == components_among(all, i as int),
        decreases pieces@.len() - i,
    {
        let piece: &str = pieces[i].as_str();
        let ghost before = texts(parts@);
        assert(all[i as int] == piece@);
        if !piece.is_empty() && (i == 0 || !same_text(piece, ".")) {
            parts.push(piece.to_owned());
            assert(texts(parts@) =~= before.push(piece@));
        }
        i = i + 1;
    }
    let ghost kept = texts(parts@);
    assert(kept == path_components(path@));
    let total: usize = parts.len();
    if total == 0 {
        return if path.is_empty() {
            "<unknown>".to_owned()
        } else {
            "/".to_owned()
        };
    }
    let first: usize = if total <= 3 {
        0
    } else {
        total - 3
    };
    let ghost tail = last_three(kept);
    assert(tail =~= kept.skip(first as int));
    let mut text: String = parts[first].clone();
    let mut k: usize = first + 1;
    assert(tail.take(1) =~= seq![kept[first as int]]);
    while k < total
        invariant
            first < k <= total,
            total == parts@.len(),
            kept == texts(parts@),
            tail == kept.skip(first as int),
            text@ == joined(tail.take(k - first)),
        decreases total - k,
    {
        proof {
            assert(tail.take(k - first + 1).drop_last() =~= tail.take(k - first));
            assert(tail.take(k - first + 1).last() == kept[k as int]);
        }
        text = cat3(text.as_str(), "/", parts[k].as_str());
        k = k + 1;
    }
    assert(tail.take(total - first) =~= tail);
    bound_message(text)
}

/// The components of a path, piece by piece: a piece behind a separator counts where
/// it is neither empty nor a dot; at the very start a dot counts too.
pub proof fn components_go_piece_by_piece(path: Seq<char>, piece: Seq<char>)
    requires
        forall|i: int| 0 <= i < piece.len() ==> #[trigger] piece[i] != '/',
    ensures
        path_components(piece) == (if piece.len() > 0 {
            seq![piece]
        } else {
            Seq::empty()
        }),
        path_components(path + seq!['/'] + piece) == (if piece.len() > 0 && piece != "."@ {
            path_components(path).push(piece)
        } else {
            path_components(path)
        }),
{
    text_without_separator_is_one_piece(piece, '/');
    separator_parts_the_pieces(path, piece, '/');
    let before = split_on(path, '/');
    let all = before + seq![piece];
    let n = before.len() as int;
    lemma_split_nonempty(path, '/');
    lemma_components_of_prefix(all, before, n);
    assert(all[n] == piece);
    assert(components_among(seq![piece], 0) =~= Seq::empty());
    assert(components_among(seq![piece], 1) == path_components(piece));
    assert(seq![piece][0] == piece);
    if piece.len() > 0 {
        assert(path_components(piece) =~= seq![piece]);
    }
    assert(components_among(all, n + 1) == path_components(path + seq!['/'] + piece));
}

proof fn lemma_components_of_prefix(all: Seq<Seq<char>>, before: Seq<Seq<char>>, n: int)
    requires
        0 <= n <= before.len() <= all.len(),
        forall|i: int| 0 <= i < before.len() ==> #[trigger] before[i] == all[i],
    ensures
        components_among(all, n) == components_among(before, n),
    decreases n,
{
    if n > 0 {
        lemma_components_of_prefix(all, before, n - 1);
        assert(before[n - 1] == all[n - 1]);
    }
}

/// The short form of a path is its last components, three at most, with a separator
/// between them and as far as the limit on messages goes; parents further up make no
/// difference. A path without components is shown as the root, and the empty path as
/// unknown.
pub proof fn short_forms_show_the_last_components(path: Seq<char>)
    ensures
        ({
            let parts = path_components(path);
            let n = parts.len() as int;
            &&& n >= 3 ==> kept_of(
                parts[n - 3] + "/"@ + parts[n - 2] + "/"@ + parts[n - 1],
                short_form(path),
            )
            &&& n == 2 ==> kept_of(parts[0] + "/"@ + parts[1], short_form(path))
            &&& n == 1 ==> kept_of(parts[0], short_form(path))
            &&& n == 0 && path.len() > 0 ==> short_form(path) == "/"@
            &&& path.len() == 0 ==> short_form(path) == "<unknown>"@
        }),
{
    let parts = path_components(path);
    let tail = last_three(parts);
    bounding_keeps_the_longest_prefix(joined(tail), 4096);
    if parts.len() >= 3 {
        assert(tail =~= seq![parts[parts.len() - 3], parts[parts.len() - 2], parts[parts.len() - 1]]);
        assert(tail.drop_last() =~= seq![parts[parts.len() - 3], parts[parts.len() - 2]]);
        assert(tail.drop_last().drop_last() =~= seq![parts[parts.len() - 3]]);
        assert(joined(tail.drop_last().drop_last()) == parts[parts.len() - 3]);
        assert(joined(tail.drop_last()) == parts[parts.len() - 3] + "/"@ + parts[parts.len() - 2]);
    } else if parts.len() == 2 {
        assert(tail.drop_last() =~= seq![parts[0]]);
        assert(joined(tail.drop_last()) == parts[0]);
    }
    if path.len() == 0 {
        assert(split_on(path, '/') =~= seq![Seq::<char>::empty()]);
        assert(components_among(split_on(path, '/'), 0) =~= Seq::empty());
    }
}

} // verus!
