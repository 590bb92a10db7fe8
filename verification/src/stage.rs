//! Splitting a token sequence into pipeline stages.
//!
//! A command line arrives as a sequence of word tokens.  Every exact
//! match of the delimiter token closes the current stage and starts a
//! new one; the delimiter itself is discarded.  The model below
//! describes the split by the positions of the delimiter occurrences:
//! a sequence with `m` delimiter occurrences yields `m + 1` pieces,
//! piece `k` being the tokens strictly between occurrence `k - 1` and
//! occurrence `k`.

use crate::errors::PipelineError;
use vstd::prelude::*;

verus! {

/// One command of a pipeline: a non-empty token list whose first
/// token is the command name and whose remainder are its arguments.
/// A stage is read-only once built.
#[derive(Debug, Clone, PartialEq, Eq)]
pub struct Stage {
    pub tokens: Vec<String>,
}

impl View for Stage {
    type V = Seq<Seq<char>>;

    open spec fn view(&self) -> Seq<Seq<char>> {
        self.tokens.deep_view()
    }
}

impl DeepView for Stage {
    type V = Seq<Seq<char>>;

    open spec fn deep_view(&self) -> Seq<Seq<char>> {
        self.view()
    }
}

impl Stage {
    /// A stage is well formed when it has a command name.
    pub open spec fn wf(&self) -> bool {
        self@.len() >= 1
    }
}

/// The positions, in increasing order, of the tokens equal to `delim`.
pub open spec fn spec_delim_positions(tokens: Seq<Seq<char>>, delim: Seq<char>) -> Seq<int>
    decreases tokens.len(),
{
    if tokens.len() == 0 {
        Seq::empty()
    } else {
        let prefix = spec_delim_positions(tokens.drop_last(), delim);
        if tokens.last() == delim {
            prefix.push(tokens.len() - 1)
        } else {
            prefix
        }
    }
}

/// First token index of piece `k` when splitting at positions `ps`.
pub open spec fn spec_piece_lo(ps: Seq<int>, k: int) -> int {
    if k == 0 {
        0
    } else {
        ps[k - 1] + 1
    }
}

/// One-past-the-last token index of piece `k` when splitting at
/// positions `ps`, in a sequence of `total` tokens.
pub open spec fn spec_piece_hi(ps: Seq<int>, total: int, k: int) -> int {
    if k == ps.len() {
        total
    } else {
        ps[k]
    }
}

/// The pieces obtained by cutting `tokens` at the positions `ps`; the
/// tokens at the positions themselves are discarded.
pub open spec fn spec_pieces(tokens: Seq<Seq<char>>, ps: Seq<int>) -> Seq<Seq<Seq<char>>> {
    Seq::new(
        ps.len() + 1,
        |k: int| tokens.subrange(spec_piece_lo(ps, k), spec_piece_hi(ps, tokens.len() as int, k)),
    )
}

/// Splitting a token sequence on a delimiter: the pieces between the
/// delimiter occurrences, the occurrences themselves discarded.  A
/// sequence with no occurrence yields one piece, the sequence itself.
pub open spec fn spec_split_tokens(tokens: Seq<Seq<char>>, delim: Seq<char>) -> Seq<Seq<Seq<char>>> {
    spec_pieces(tokens, spec_delim_positions(tokens, delim))
}

/// The delimiter positions are increasing, in bounds, and are exactly
/// the indices whose token equals the delimiter.
pub proof fn lemma_delim_positions_props(tokens: Seq<Seq<char>>, delim: Seq<char>)
    ensures
        forall|j: int|
            0 <= j < spec_delim_positions(tokens, delim).len() ==> {
                let p = #[trigger] spec_delim_positions(tokens, delim)[j];
                0 <= p < tokens.len() && tokens[p] == delim
            },
        forall|j: int, k: int|
            0 <= j < k < spec_delim_positions(tokens, delim).len()
                ==> spec_delim_positions(tokens, delim)[j] < spec_delim_positions(tokens, delim)[k],
        forall|p: int|
            0 <= p < tokens.len() && tokens[p] == delim ==> spec_delim_positions(
                tokens,
                delim,
            ).contains(p),
    decreases tokens.len(),
{
    if tokens.len() == 0 {
    } else {
        let head = tokens.drop_last();
        lemma_delim_positions_props(head, delim);
        let prefix = spec_delim_positions(head, delim);
        let ps = spec_delim_positions(tokens, delim);
        assert(forall|x: int| 0 <= x < head.len() ==> head[x] == tokens[x]);
        if tokens.last() == delim {
            assert(ps == prefix.push(tokens.len() - 1));
            assert(forall|j: int| 0 <= j < prefix.len() ==> ps[j] == prefix[j]);
            assert forall|j: int, k: int| 0 <= j < k < ps.len() implies ps[j] < ps[k] by {
                if k == ps.len() - 1 {
                    assert(prefix[j] < head.len());
                }
            }
            assert forall|p: int|
                0 <= p < tokens.len() && tokens[p] == delim implies ps.contains(p) by {
                if p < tokens.len() - 1 {
                    assert(head[p] == delim);
                    let j = choose|j: int| 0 <= j < prefix.len() && prefix[j] == p;
                    assert(ps[j] == p);
                } else {
                    assert(ps[ps.len() - 1] == p);
                }
            }
        } else {
            assert(ps == prefix);
            assert forall|p: int|
                0 <= p < tokens.len() && tokens[p] == delim implies ps.contains(p) by {
                assert(p != tokens.len() - 1);
                assert(head[p] == delim);
            }
        }
    }
}

/// Cuts `args` at the given positions, discarding the tokens at the
/// positions themselves.  With `m` positions the result has `m + 1`
/// pieces; a position adjacent to the start, the end, or another
/// position yields an empty piece.
pub fn slice_with_positions(args: &Vec<String>, positions: Vec<usize>) -> (r: Vec<Vec<String>>)
    requires
        forall|j: int| 0 <= j < positions@.len() ==> (#[trigger] positions@[j]) < args@.len(),
        forall|j: int, k: int|
            0 <= j < k < positions@.len() ==> positions@[j] < positions@[k],
    ensures
        r.deep_view() =~= spec_pieces(
            args.deep_view(),
            positions@.map_values(|p: usize| p as int),
        ),
{
    let ghost ps: Seq<int> = positions@.map_values(|p: usize| p as int);
    let ghost toks: Seq<Seq<char>> = args.deep_view();
    proof {
        assert(forall|j: int| 0 <= j < ps.len() ==> ps[j] == positions@[j] as int);
    }
    let m = positions.len();
    let total = args.len();
    let mut r: Vec<Vec<String>> = Vec::new();
    let mut k: usize = 0;
    while k < m
        invariant
            m == positions@.len(),
            total == args@.len(),
            ps == positions@.map_values(|p: usize| p as int),
            forall|j: int| 0 <= j < ps.len() ==> ps[j] == (#[trigger] positions@[j]) as int,
            toks == args.deep_view(),
            toks.len() == args@.len(),
            forall|j: int| 0 <= j < positions@.len() ==> (#[trigger] positions@[j]) < args@.len(),
            forall|j: int, jj: int|
                0 <= j < jj < positions@.len() ==> positions@[j] < positions@[jj],
            k <= m,
            r.deep_view().len() == k,
            forall|kk: int|
                0 <= kk < k ==> r.deep_view()[kk] =~= toks.subrange(
                    spec_piece_lo(ps, kk),
                    spec_piece_hi(ps, toks.len() as int, kk),
                ),
        decreases m - k,
    {
        let lo: usize = if k == 0 {
            0
        } else {
            assert(positions@[k - 1] < args@.len());
            positions[k - 1] + 1
        };
        let hi: usize = positions[k];
        assert(lo == spec_piece_lo(ps, k as int));
        assert(hi == spec_piece_hi(ps, toks.len() as int, k as int));
        let piece = copy_token_range(&args, lo, hi);
        let ghost old_r = r.deep_view();
        r.push(piece);
        assert(r.deep_view() =~= old_r.push(piece.deep_view()));
        k = k + 1;
    }
    let lo: usize = if m == 0 {
        0
    } else {
        assert(positions@[m - 1] < args@.len());
        positions[m - 1] + 1
    };
    assert(lo == spec_piece_lo(ps, m as int));
    let piece = copy_token_range(&args, lo, args.len());
    let ghost old_r = r.deep_view();
    r.push(piece);
    assert(r.deep_view() =~= old_r.push(piece.deep_view()));
    assert(r.deep_view() =~= spec_pieces(toks, ps));
    r
}

/// Copies the tokens of `args` with indices in `lo .. hi`.
fn copy_token_range(args: &Vec<String>, lo: usize, hi: usize) -> (piece: Vec<String>)
    requires
        lo <= hi <= args@.len(),
    ensures
        piece.deep_view() =~= args.deep_view().subrange(lo as int, hi as int),
{
    let ghost toks: Seq<Seq<char>> = args.deep_view();
    let mut piece: Vec<String> = Vec::new();
    let mut j: usize = lo;
    while j < hi
        invariant
            toks == args.deep_view(),
            toks.len() == args@.len(),
            lo <= j <= hi,
            hi <= args@.len(),
            piece.deep_view() =~= toks.subrange(lo as int, j as int),
        decreases hi - j,
    {
        let ghost old_piece = piece.deep_view();
        let t: String = args[j].clone();
        piece.push(t);
        proof {
            assert(piece.deep_view() =~= old_piece.push(t@));
            assert(t@ == toks[j as int]);
            assert(piece.deep_view() =~= toks.subrange(lo as int, j + 1));
        }
        j = j + 1;
    }
    piece
}

/// Splits the token sequence into pieces around every exact match of
/// `slice_key`, discarding the matches themselves.
pub fn slice_vec_with_str(args: &Vec<String>, slice_key: &str) -> (r: Vec<Vec<String>>)
    ensures
        r.deep_view() =~= spec_split_tokens(args.deep_view(), slice_key@),
{
    let key: String = slice_key.to_owned();
    let ghost toks: Seq<Seq<char>> = args.deep_view();
    let ghost delim: Seq<char> = slice_key@;
    let mut positions: Vec<usize> = Vec::new();
    let mut i: usize = 0;
    while i < args.len()
        invariant
            key@ == delim,
            toks == args.deep_view(),
            toks.len() == args@.len(),
            i <= args@.len(),
            positions@.map_values(|p: usize| p as int) =~= spec_delim_positions(
                toks.take(i as int),
                delim,
            ),
        decreases args@.len() - i,
    {
        let ghost before = toks.take(i as int);
        let ghost after = toks.take(i + 1 as int);
        proof {
            assert(after.drop_last() =~= before);
            assert(after.last() == toks[i as int]);
        }
        let ghost old_mapped = positions@.map_values(|p: usize| p as int);
        if args[i] == key {
            positions.push(i);
            proof {
                assert(positions@.map_values(|p: usize| p as int) =~= old_mapped.push(i as int));
            }
        }
        proof {
            assert(positions@.map_values(|p: usize| p as int) =~= spec_delim_positions(
                after,
                delim,
            ));
        }
        i = i + 1;
    }
    proof {
        assert(toks.take(toks.len() as int) =~= toks);
        lemma_delim_positions_props(toks, delim);
        let mapped = positions@.map_values(|p: usize| p as int);
        assert(mapped == spec_delim_positions(toks, delim));
        assert forall|j: int| 0 <= j < positions@.len() implies (#[trigger] positions@[j])
            < args@.len() by {
            assert(mapped[j] == positions@[j] as int);
        }
        assert forall|j: int, k: int|
            0 <= j < k < positions@.len() implies positions@[j] < positions@[k] by {
            assert(mapped[j] == positions@[j] as int);
            assert(mapped[k] == positions@[k] as int);
        }
    }
    slice_with_positions(args, positions)
}

/// The error reported for a malformed split: an `EmptyStageError`
/// carrying the index of the first zero-length piece.
pub open spec fn spec_empty_stage_report(pieces: Seq<Seq<Seq<char>>>, e: PipelineError) -> bool {
    match e {
        PipelineError::EmptyStageError { stage } => {
            &&& 0 <= stage < pieces.len()
            &&& pieces[stage as int].len() == 0
            &&& forall|j: int| 0 <= j < stage ==> (#[trigger] pieces[j]).len() > 0
        },
        _ => false,
    }
}

/// Splits a token sequence into the ordered list of pipeline stages
/// around the delimiter token.  A leading, trailing, or doubled
/// delimiter produces a zero-length piece, which is reported as an
/// `EmptyStageError` carrying the index of the first such piece.
pub fn split_stages(tokens: Vec<String>, delimiter: &str) -> (r: Result<Vec<Stage>, PipelineError>)
    ensures
        ({
            let pieces = spec_split_tokens(tokens.deep_view(), delimiter@);
            &&& ((exists|k: int| 0 <= k < pieces.len() && pieces[k].len() == 0) <==> r is Err)
            &&& match r {
                Ok(stages) => {
                    &&& stages.deep_view() =~= pieces
                    &&& stages@.len() == pieces.len()
                    &&& forall|k: int| 0 <= k < stages@.len() ==> (#[trigger] stages@[k]).wf()
                },
                Err(e) => spec_empty_stage_report(pieces, e),
            }
        }),
{
    let ghost pieces = spec_split_tokens(tokens.deep_view(), delimiter@);
    let raw = slice_vec_with_str(&tokens, delimiter);
    let mut stages: Vec<Stage> = Vec::new();
    let mut i: usize = 0;
    while i < raw.len()
        invariant
            pieces == spec_split_tokens(tokens.deep_view(), delimiter@),
            raw.deep_view() =~= pieces,
            raw@.len() == pieces.len(),
            i <= raw@.len(),
            stages.deep_view() =~= pieces.take(i as int),
            stages@.len() == i,
            forall|k: int| 0 <= k < stages@.len() ==> (#[trigger] stages@[k]).wf(),
            forall|j: int| 0 <= j < i ==> (#[trigger] pieces[j]).len() > 0,
        decreases raw@.len() - i,
    {
        let piece = &raw[i];
        assert(piece.deep_view() == pieces[i as int]);
        if piece.len() == 0 {
            assert(pieces[i as int].len() == 0);
            let e = PipelineError::EmptyStageError { stage: i };
            assert(spec_empty_stage_report(pieces, e));
            return Err(e);
        }
        let stage = Stage { tokens: copy_token_range(piece, 0, piece.len()) };
        proof {
            assert(piece.deep_view().subrange(0, piece.deep_view().len() as int) =~= piece.deep_view());
            assert(stage.deep_view() =~= pieces[i as int]);
        }
        let ghost old_stages = stages.deep_view();
        stages.push(stage);
        proof {
            assert(stages.deep_view() =~= old_stages.push(stage.deep_view()));
            assert(stages.deep_view() =~= pieces.take(i + 1));
        }
        i = i + 1;
    }
    proof {
        assert(pieces.take(pieces.len() as int) =~= pieces);
    }
    Ok(stages)
}

/// A sequence without the delimiter splits into a single piece: the
/// sequence itself, unchanged.
pub proof fn lemma_split_no_delimiter(tokens: Seq<Seq<char>>, delim: Seq<char>)
    requires
        forall|i: int| 0 <= i < tokens.len() ==> tokens[i] != delim,
    ensures
        spec_split_tokens(tokens, delim) =~= seq![tokens],
{
    lemma_delim_positions_props(tokens, delim);
    let ps = spec_delim_positions(tokens, delim);
    if ps.len() > 0 {
        assert(tokens[ps[0]] == delim);
    }
    assert(ps.len() == 0);
    assert(spec_split_tokens(tokens, delim)[0] =~= tokens);
}

} // verus!
