//! Extracting an output redirection from the final stage.
//!
//! Only the last stage of a pipeline is inspected, never an interior
//! one.  When the stage's second-to-last token is the overwrite
//! operator `>` or the append operator `>>`, the operator and the
//! path token that follows it are removed from the stage and returned
//! as a redirection directive; otherwise the stage is left untouched.

use crate::stage::Stage;
use vstd::prelude::*;

verus! {

/// Whether the final output is written from the start of the file or
/// appended to it.
#[derive(Debug, Clone, Copy, PartialEq, Eq, Structural)]
pub enum RedirectMode {
    Truncate,
    Append,
}

/// An output redirection directive: the path to write the final
/// stage's output to, and how to open it.  A pipeline without a
/// redirection carries no directive.
#[derive(Debug, Clone, PartialEq, Eq)]
pub struct RedirectSpec {
    pub path: String,
    pub mode: RedirectMode,
}

/// A token list ends in a redirection when it has at least three
/// tokens and its second-to-last token is `>` or `>>`.
pub open spec fn spec_has_redirect(toks: Seq<Seq<char>>) -> bool {
    toks.len() >= 3 && (toks[toks.len() - 2] == ">"@ || toks[toks.len() - 2] == ">>"@)
}

/// The mode requested by a token list that ends in a redirection.
pub open spec fn spec_redirect_mode(toks: Seq<Seq<char>>) -> RedirectMode {
    if toks[toks.len() - 2] == ">"@ {
        RedirectMode::Truncate
    } else {
        RedirectMode::Append
    }
}

/// Inspects the last stage's trailing tokens for a redirection.  When
/// one is present, the operator and path tokens are removed from that
/// stage and the directive is returned beside the stages; interior
/// stages are never touched.
pub fn parse_redirect_info(stages: Vec<Stage>) -> (r: (Vec<Stage>, Option<RedirectSpec>))
    requires
        stages@.len() >= 1,
    ensures
        r.0@.len() == stages@.len(),
        forall|j: int| 0 <= j < stages@.len() - 1 ==> r.0.deep_view()[j] == stages.deep_view()[j],
        ({
            let last = stages.deep_view()[stages@.len() - 1];
            if spec_has_redirect(last) {
                &&& r.1 matches Some(spec) && spec.path@ == last[last.len() - 1]
                    && spec.mode == spec_redirect_mode(last)
                &&& r.0.deep_view()[stages@.len() - 1] =~= last.take(last.len() - 2)
            } else {
                &&& r.1 is None
                &&& r.0.deep_view() =~= stages.deep_view()
            }
        }),
{
    let ghost toks = stages.deep_view();
    let n = stages.len();
    let m = stages[n - 1].tokens.len();
    proof {
        assert(toks[n - 1 as int] == stages@[n - 1 as int].deep_view());
        assert(toks[n - 1 as int].len() == m);
    }
    if m < 3 {
        assert(!spec_has_redirect(toks[n - 1 as int]));
        return (stages, None);
    }
    let overwrite: String = ">".to_owned();
    let append: String = ">>".to_owned();
    let ghost last = toks[n - 1 as int];
    let is_overwrite = stages[n - 1].tokens[m - 2] == overwrite;
    let is_append = !is_overwrite && stages[n - 1].tokens[m - 2] == append;
    proof {
        assert(last[m - 2] == stages@[n - 1 as int].tokens@[m - 2 as int]@);
        assert(is_overwrite == (last[m - 2] == ">"@));
        assert(is_append == (!is_overwrite && last[m - 2] == ">>"@));
    }
    if is_overwrite || is_append {
        let mut stages = stages;
        let mut last_stage = stages.pop().unwrap();
        let path = last_stage.tokens.pop().unwrap();
        let _operator = last_stage.tokens.pop();
        proof {
            assert(last_stage.deep_view() =~= last.take(m - 2));
            assert(path@ == last[m - 1]);
        }
        let mode = if is_overwrite {
            RedirectMode::Truncate
        } else {
            RedirectMode::Append
        };
        stages.push(last_stage);
        proof {
            assert(forall|j: int|
                0 <= j < toks.len() - 1 ==> stages.deep_view()[j] == toks[j]);
            assert(stages.deep_view()[toks.len() - 1] =~= last.take(m - 2));
        }
        (stages, Some(RedirectSpec { path, mode }))
    } else {
        assert(!spec_has_redirect(last));
        (stages, None)
    }
}

} // verus!
