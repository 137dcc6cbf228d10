//! Laws of the normalization pipeline.
use crate::context::Context;
use crate::filter::{dropped, long_type_note};
use crate::level::{Normalization, LEVELS};
use crate::normalize::{normalized, unix_newlines, variants_of};
use crate::text::trim_start;
use vstd::prelude::*;

verus! {

/// The pipeline is a function of the output and the context: run twice on the
/// same input it gives the same variants.
pub proof fn lemma_deterministic(a: Seq<char>, b: Seq<char>, ctx_a: Context, ctx_b: Context)
    requires
        a == b,
        ctx_a == ctx_b,
    ensures
        variants_of(a, ctx_a) == variants_of(b, ctx_b),
{
}

/// Whether a line outlives the rules that drop whole lines at `level`
/// (closing summaries, outdated-compiler notes, notes on long type names),
/// leaving aside the rules that rewrite lines.
pub open spec fn survives(line: Seq<char>, level: Normalization) -> bool {
    !dropped(line, trim_start(line), level) && !(level.includes(
        Normalization::StripLongTypeNameFiles,
    ) && long_type_note(line))
}

/// The lines that outlive a later level's dropping rules outlive every
/// earlier level's too.
pub proof fn lemma_survivors_shrink(line: Seq<char>, lower: Normalization, higher: Normalization)
    requires
        lower.rank() <= higher.rank(),
        survives(line, higher),
    ensures
        survives(line, lower),
{
}

/// Each variant is the pass at its own level alone: appending a level to the
/// chain leaves every earlier variant as it was.
pub proof fn lemma_variant_is_its_level(output: Seq<char>, ctx: Context, i: int)
    requires
        0 <= i < LEVELS,
    ensures
        variants_of(output, ctx).len() == LEVELS,
        variants_of(output, ctx)[i] == normalized(
            unix_newlines(output),
            Normalization::spec_nth(i),
            ctx,
        ),
        Normalization::spec_nth(i).rank() == i,
{
}

} // verus!
