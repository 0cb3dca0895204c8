//! Transient floating score indicators: the "+10" / "+100" texts that pop up
//! where a bullet struck, drift upward, and fade after half a second.
//!
//! Combat resolution reports each hit as a [`ScoreEvent`]; placing an
//! indicator adds a small random jitter to the event's position. Each frame
//! the indicators drift upward and those whose lifetime ran out disappear.

use vstd::prelude::*;
use crate::combat::{EventModel, ScoreEvent, ScoreKind};
use crate::rng::random_in_range;
use crate::{
    INDICATOR_DRIFT_MILLI_PER_MS, INDICATOR_LIFETIME_MS, INDICATOR_OFF_X_MAX, INDICATOR_OFF_X_MIN,
    INDICATOR_OFF_Y_MAX, INDICATOR_OFF_Y_MIN, INDICATOR_Y_MAX, Y_FLOOR,
};

verus! {

/// Ghost image of a [`FloatingScore`].
pub struct FloatModel {
    pub x: int,
    pub y: int,
    pub amount: int,
    pub kind: ScoreKind,
    pub remaining: int,
}

impl FloatModel {
    /// A live indicator has lifetime left, sits within the widened play
    /// field, and can never drift above [`INDICATOR_Y_MAX`] in the lifetime
    /// it has left.
    pub open spec fn wf(self) -> bool {
        &&& 0 < self.remaining <= INDICATOR_LIFETIME_MS as int
        &&& -400_000 <= self.x <= 400_000
        &&& Y_FLOOR as int <= self.y
        &&& self.y + INDICATOR_DRIFT_MILLI_PER_MS as int * self.remaining
            <= INDICATOR_Y_MAX as int
    }

    /// The indicator one frame later: it drifts upward and its lifetime
    /// shrinks. Only meaningful while `dt < remaining`; at or past that the
    /// indicator disappears instead.
    pub open spec fn after_age(self, dt: int) -> FloatModel {
        FloatModel {
            y: self.y + INDICATOR_DRIFT_MILLI_PER_MS as int * dt,
            remaining: self.remaining - dt,
            ..self
        }
    }
}

/// Does `f` show event `ev`, placed with the permitted random jitter?
pub open spec fn indicator_for(f: FloatModel, ev: EventModel) -> bool {
    &&& f.amount == ev.amount
    &&& f.kind == ev.kind
    &&& f.remaining == INDICATOR_LIFETIME_MS as int
    &&& INDICATOR_OFF_X_MIN as int <= f.x - ev.x < INDICATOR_OFF_X_MAX as int
    &&& INDICATOR_OFF_Y_MIN as int <= f.y - ev.y < INDICATOR_OFF_Y_MAX as int
}

/// A floating score indicator: position in milli-pixels, the amount shown,
/// whether it announces a hit or a kill, and its remaining lifetime in ms.
#[derive(Clone, Copy, Debug, PartialEq, Eq, Structural)]
pub struct FloatingScore {
    pub x: i64,
    pub y: i64,
    pub amount: u32,
    pub kind: ScoreKind,
    pub remaining_ms: u32,
}

impl View for FloatingScore {
    type V = FloatModel;

    open spec fn view(&self) -> FloatModel {
        FloatModel {
            x: self.x as int,
            y: self.y as int,
            amount: self.amount as int,
            kind: self.kind,
            remaining: self.remaining_ms as int,
        }
    }
}

/// The ghost image of all live indicators.
pub open spec fn floats_view(s: Seq<FloatingScore>) -> Seq<FloatModel> {
    s.map_values(|f: FloatingScore| f@)
}

/// Every indicator of the sequence is well formed.
pub open spec fn all_floats_wf(s: Seq<FloatModel>) -> bool {
    forall|i: int| 0 <= i < s.len() ==> #[trigger] s[i].wf()
}

/// The indicators one frame later: those whose lifetime ran out are gone,
/// the rest drift upward.
pub open spec fn floats_after_age(s: Seq<FloatModel>, dt: int) -> Seq<FloatModel>
    decreases s.len(),
{
    if s.len() == 0 {
        Seq::empty()
    } else {
        let rest = floats_after_age(s.skip(1), dt);
        if dt < s[0].remaining {
            seq![s[0].after_age(dt)] + rest
        } else {
            rest
        }
    }
}

/// Ages every indicator by one frame: expired ones disappear, the rest
/// drift upward.
pub fn age_floating_scores(floats: &mut Vec<FloatingScore>, dt: u32)
    requires
        all_floats_wf(floats_view(old(floats)@)),
    ensures
        floats_view(final(floats)@) == floats_after_age(floats_view(old(floats)@), dt as int),
        all_floats_wf(floats_view(final(floats)@)),
{
    let ghost orig = floats_view(floats@);
    let mut kept: Vec<FloatingScore> = Vec::new();
    let mut i: usize = 0;
    assert(orig.skip(0) =~= orig);
    assert(floats_view(kept@) =~= Seq::<FloatModel>::empty());
    assert(floats_view(kept@) + floats_after_age(orig, dt as int) =~= floats_after_age(
        orig,
        dt as int,
    ));
    while i < floats.len()
        invariant
            i <= floats@.len(),
            floats_view(floats@) == orig,
            all_floats_wf(orig),
            all_floats_wf(floats_view(kept@)),
            floats_after_age(orig, dt as int) == floats_view(kept@) + floats_after_age(
                orig.skip(i as int),
                dt as int,
            ),
        decreases floats@.len() - i,
    {
        let f = floats[i];
        assert(floats_view(floats@)[i as int] == floats@[i as int]@);
        assert(f@ == orig[i as int]);
        assert(orig[i as int].wf());
        assert(orig.skip(i as int)[0] == orig[i as int]);
        assert(orig.skip(i as int).skip(1) =~= orig.skip(i as int + 1));
        if dt < f.remaining_ms {
            let aged = FloatingScore {
                y: f.y + INDICATOR_DRIFT_MILLI_PER_MS * (dt as i64),
                remaining_ms: f.remaining_ms - dt,
                ..f
            };
            assert(aged@ == orig[i as int].after_age(dt as int));
            assert(aged@.wf());
            let ghost kept_before = floats_view(kept@);
            kept.push(aged);
            assert(floats_view(kept@) =~= kept_before.push(aged@));
            assert(floats_view(kept@) + floats_after_age(orig.skip(i as int + 1), dt as int)
                =~= kept_before + (seq![aged@] + floats_after_age(
                orig.skip(i as int + 1),
                dt as int,
            )));
        }
        i = i + 1;
    }
    assert(orig.skip(floats@.len() as int) =~= Seq::<FloatModel>::empty());
    assert(floats_view(kept@) + Seq::<FloatModel>::empty() =~= floats_view(kept@));
    *floats = kept;
}

/// Places the indicator for one combat event: the event's amount and kind,
/// a fresh lifetime, and the event's position plus a small random jitter.
pub fn place_indicator(ev: &ScoreEvent) -> (f: FloatingScore)
    requires
        ev@.wf(),
    ensures
        indicator_for(f@, ev@),
        f@.wf(),
{
    let ox = random_in_range(INDICATOR_OFF_X_MIN, INDICATOR_OFF_X_MAX);
    let oy = random_in_range(INDICATOR_OFF_Y_MIN, INDICATOR_OFF_Y_MAX);
    FloatingScore {
        x: ev.x + ox,
        y: ev.y + oy,
        amount: ev.amount,
        kind: ev.kind,
        remaining_ms: INDICATOR_LIFETIME_MS,
    }
}

} // verus!
