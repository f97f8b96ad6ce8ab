//! The stages in which shapes are drawn.

use vstd::prelude::*;

verus! {

/// A stage of drawing.
///
/// Shapes are drawn stage by stage, in the order of the variants.
#[derive(Clone, Copy, Debug, PartialEq, Eq, Structural)]
pub enum Stage {
    Back,
    Casing,
    /// The base for shapes that have an inside.
    InsideBase,
    /// The inside of shapes that have an inside.
    Inside,
    /// The base for shapes that don't have an inside.
    ///
    /// These need to be drawn last so they can paint over the insides.
    Base,
}

impl Default for Stage {
    fn default() -> (res: Self)
        ensures
            res == Stage::Back,
    {
        Stage::Back
    }
}

/// The position of a stage in the drawing order.
pub open spec fn stage_rank(s: Stage) -> int {
    match s {
        Stage::Back => 0,
        Stage::Casing => 1,
        Stage::InsideBase => 2,
        Stage::Inside => 3,
        Stage::Base => 4,
    }
}

/// The stage drawn after `s`, if any.
pub open spec fn next_stage(s: Stage) -> Option<Stage> {
    match s {
        Stage::Back => Some(Stage::Casing),
        Stage::Casing => Some(Stage::InsideBase),
        Stage::InsideBase => Some(Stage::Inside),
        Stage::Inside => Some(Stage::Base),
        Stage::Base => None,
    }
}

/// The stages from `s` on, in drawing order.
pub open spec fn stages_from(s: Stage) -> Seq<Stage>
    decreases 4 - stage_rank(s),
{
    match next_stage(s) {
        Some(t) => seq![s] + stages_from(t),
        None => seq![s],
    }
}

/// The stages from any stage on are drawn in strictly increasing order and
/// end with the base.
pub proof fn law_stages_ordered(s: Stage)
    ensures
        stages_from(s).len() == 5 - stage_rank(s),
        stages_from(s)[0] == s,
        stages_from(s).last() == Stage::Base,
        forall|i: int, j: int|
            0 <= i < j < stages_from(s).len() ==> stage_rank(#[trigger] stages_from(s)[i]) < stage_rank(
                #[trigger] stages_from(s)[j],
            ),
    decreases 4 - stage_rank(s),
{
    if let Some(t) = next_stage(s) {
        law_stages_ordered(t);
        let rest = stages_from(t);
        assert(stages_from(s) =~= seq![s] + rest);
        assert forall|i: int, j: int|
            0 <= i < j < stages_from(s).len() implies stage_rank(#[trigger] stages_from(s)[i]) < stage_rank(
                #[trigger] stages_from(s)[j],
            ) by {
            if i == 0 {
                assert(stages_from(s)[j] == rest[j - 1]);
                if j - 1 > 0 {
                    assert(stage_rank(rest[0]) < stage_rank(rest[j - 1]));
                }
            } else {
                assert(stages_from(s)[i] == rest[i - 1]);
                assert(stages_from(s)[j] == rest[j - 1]);
            }
        }
    }
}

/// An iterator over the stages from some stage on.
#[derive(Clone, Copy, Debug)]
pub struct StageIter(Option<Stage>);

impl StageIter {
    /// The stage the iterator returns next, if any.
    pub closed spec fn current(self) -> Option<Stage> {
        self.0
    }

    /// The stages the iterator has yet to return.
    pub open spec fn remaining(self) -> Seq<Stage> {
        match self.current() {
            Some(s) => stages_from(s),
            None => Seq::empty(),
        }
    }

    /// Returns the next stage and moves on.
    pub fn next(&mut self) -> (res: Option<Stage>)
        ensures
            res == old(self).current(),
            final(self).current() == (match old(self).current() {
                Some(s) => next_stage(s),
                None => None,
            }),
            res == (if old(self).remaining().len() > 0 {
                Some(old(self).remaining()[0])
            } else {
                None
            }),
            final(self).remaining() == (if old(self).remaining().len() > 0 {
                old(self).remaining().drop_first()
            } else {
                old(self).remaining()
            }),
    {
        proof {
            if let Some(s) = self.0 {
                assert(stages_from(s)[0] == s);
                if let Some(t) = next_stage(s) {
                    assert(stages_from(s).drop_first() =~= stages_from(t));
                } else {
                    assert(stages_from(s).drop_first() =~= Seq::<Stage>::empty());
                }
            }
        }
        let res = self.0;
        if let Some(stage) = self.0 {
            let next = match stage {
                Stage::Back => Some(Stage::Casing),
                Stage::Casing => Some(Stage::InsideBase),
                Stage::InsideBase => Some(Stage::Inside),
                Stage::Inside => Some(Stage::Base),
                Stage::Base => None,
            };
            self.0 = next;
        }
        res
    }
}

impl Stage {
    /// Returns an iterator over the stages from this one on.
    pub fn into_iter(self) -> (res: StageIter)
        ensures
            res.current() == Some(self),
    {
        StageIter(Some(self))
    }
}

} // verus!
