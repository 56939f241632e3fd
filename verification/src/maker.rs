//! The formation maker: which unit gets which formation.

use crate::formation::{Draws, Formation};
use crate::grid::WinSize;
use vstd::prelude::*;

verus! {

/// Largest number of units that share one formation.
pub const FORMATION_MEMBERS_MAX: u32 = 2;

/// Hands out formations, one per unit, so that consecutive units fly the same
/// path until a wave of [`FORMATION_MEMBERS_MAX`] is complete.
#[derive(Debug)]
pub struct FormationMaker {
    current_template: Option<Formation>,
    current_members: u32,
}

impl FormationMaker {
    /// The formation of the wave being filled, if any unit was made yet.
    pub closed spec fn template(self) -> Option<Formation> {
        self.current_template
    }

    /// The number of units that were given [`Self::template`] so far.
    pub closed spec fn members(self) -> nat {
        self.current_members as nat
    }

    /// What holds of every maker: without a template it has no members, with
    /// one it has at least one member and never more than the maximum.
    #[verifier::type_invariant]
    pub open spec fn wf(self) -> bool {
        match self.template() {
            None => self.members() == 0,
            Some(_) => 1 <= self.members() <= FORMATION_MEMBERS_MAX,
        }
    }

    /// Whether the maker has handed out nothing yet.
    pub open spec fn is_fresh(self) -> bool {
        self.template() is None && self.members() == 0
    }

    /// Whether the next unit joins the current wave: there is a template and
    /// the wave is not full.
    pub open spec fn reuses(self) -> bool {
        self.template() is Some && self.members() < FORMATION_MEMBERS_MAX
    }

    /// Whether `out` and `next` are what a unit that joins the wave of `self`
    /// gets and leaves: the template unchanged, and one member more.
    pub open spec fn joined(self, out: Formation, next: Self) -> bool {
        &&& Some(out) == self.template()
        &&& next.template() == self.template()
        &&& next.members() == self.members() + 1
    }

    /// Whether `self` is a maker whose wave has just begun with `out`: `out`
    /// is the template and has one member.
    pub open spec fn begun_with(self, out: Formation) -> bool {
        &&& self.template() == Some(out)
        &&& self.members() == 1
    }

    /// Whether [`Self::make_with`], called on `self` with `win` and `draws`,
    /// returns `out` and leaves `next`.
    pub open spec fn makes_with(self, win: WinSize, draws: Draws, out: Formation, next: Self) -> bool {
        if self.reuses() {
            self.joined(out, next)
        } else {
            out.drawn_from(win, draws) && next.begun_with(out)
        }
    }

    /// Whether [`Self::make`], called on `self` with `win`, may return `out`
    /// and leave `next`.
    pub open spec fn makes(self, win: WinSize, out: Formation, next: Self) -> bool {
        if self.reuses() {
            self.joined(out, next)
        } else {
            out.fits(win) && next.begun_with(out)
        }
    }

    /// Tells whether the next unit joins the current wave.
    pub fn has_room(&self) -> (r: bool)
        ensures
            r == self.reuses(),
    {
        self.current_template.is_some() && self.current_members < FORMATION_MEMBERS_MAX
    }

    /// The number of units that were given the current template.
    pub fn current_members(&self) -> (n: u32)
        ensures
            n == self.members(),
            n <= FORMATION_MEMBERS_MAX,
    {
        proof {
            use_type_invariant(self);
        }
        self.current_members
    }

    /// A copy of the current template.
    pub fn current_template(&self) -> (t: Option<Formation>)
        ensures
            t == self.template(),
    {
        self.current_template
    }

    /// Counts one more unit into the current wave and returns its formation.
    fn join_wave(&mut self) -> (out: Formation)
        requires
            old(self).reuses(),
        ensures
            old(self).joined(out, *final(self)),
            final(self).wf(),
    {
        proof {
            use_type_invariant(&*self);
        }
        self.current_members += 1;
        self.current_template.unwrap()
    }

    /// Begins a new wave with `fresh` as its template and first formation.
    fn begin_wave(&mut self, fresh: Formation) -> (out: Formation)
        ensures
            out == fresh,
            final(self).begun_with(fresh),
            final(self).wf(),
    {
        *self = FormationMaker { current_template: Some(fresh), current_members: 1 };
        fresh
    }

    /// Returns the formation of the next unit, with the random choices made
    /// by the caller. While the wave has room the template is returned and
    /// `draws` are ignored; otherwise the formation that `draws` give in
    /// `win_size` begins a new wave.
    pub fn make_with(&mut self, win_size: &WinSize, draws: &Draws) -> (out: Formation)
        ensures
            old(self).makes_with(*win_size, *draws, out, *final(self)),
            final(self).wf(),
    {
        if self.has_room() {
            self.join_wave()
        } else {
            self.begin_wave(Formation::from_draws(win_size, draws))
        }
    }

    /// Returns the formation of the next unit. While the wave has room the
    /// template is returned and no random number is drawn; otherwise a
    /// formation is drawn at random within the bounds of `win_size`, and
    /// begins a new wave. A new wave needs a viewport that leaves room for a
    /// pivot.
    pub fn make(&mut self, win_size: &WinSize) -> (out: Formation)
        requires
            !old(self).reuses() ==> win_size.has_pivot_band(),
        ensures
            old(self).makes(*win_size, out, *final(self)),
            final(self).wf(),
    {
        if self.has_room() {
            self.join_wave()
        } else {
            let draws = Draws::sample(win_size);
            self.begin_wave(Formation::from_draws(win_size, &draws))
        }
    }
}

impl FormationMaker {
    /// What `make_with` does with admissible draws, `make` may do.
    pub proof fn lemma_make_with_is_a_make(
        self,
        win: WinSize,
        draws: Draws,
        out: Formation,
        next: Self,
    )
        requires
            draws.within(win),
            self.makes_with(win, draws, out, next),
        ensures
            self.makes(win, out, next),
    {
    }

    /// The maker, the viewport and the draws determine what `make_with`
    /// returns and how it leaves the maker.
    pub proof fn lemma_make_with_is_a_function(
        self,
        win: WinSize,
        draws: Draws,
        out: Formation,
        next: Self,
        other_out: Formation,
        other_next: Self,
    )
        requires
            self.makes_with(win, draws, out, next),
            self.makes_with(win, draws, other_out, other_next),
        ensures
            out == other_out,
            next == other_next,
    {
        if !self.reuses() {
            out.lemma_drawn_from_is_a_function(other_out, win, draws);
        }
    }

    /// A call keeps the invariant, and leaves a template with at least one
    /// member.
    pub proof fn lemma_make_keeps_wf(self, win: WinSize, out: Formation, next: Self)
        requires
            self.wf(),
            self.makes(win, out, next),
        ensures
            next.wf(),
            next.template() is Some,
            1 <= next.members() <= FORMATION_MEMBERS_MAX,
    {
    }

    /// A maker whose template has fewer members than the maximum returns the
    /// template, field for field, keeps it, and counts one member more.
    pub proof fn lemma_reuse(
        self,
        template: Formation,
        win: WinSize,
        out: Formation,
        next: Self,
    )
        requires
            self.template() == Some(template),
            self.members() < FORMATION_MEMBERS_MAX,
            self.makes(win, out, next),
        ensures
            out == template,
            next.template() == Some(template),
            next.members() == self.members() + 1,
    {
    }

    /// A maker whose wave is full returns a formation synthesized for the
    /// viewport, whatever the old template was, keeps it as the new template,
    /// and counts it as the first member.
    pub proof fn lemma_rollover(self, win: WinSize, out: Formation, next: Self)
        requires
            self.members() == FORMATION_MEMBERS_MAX,
            self.makes(win, out, next),
        ensures
            out.fits(win),
            next.template() == Some(out),
            next.members() == 1,
    {
    }

    /// A maker that has handed out nothing yet synthesizes, and counts the
    /// formation as the first member of its wave.
    pub proof fn lemma_first_call(self, win: WinSize, out: Formation, next: Self)
        requires
            self.is_fresh(),
            self.makes(win, out, next),
        ensures
            out.fits(win),
            next.template() == Some(out),
            next.members() == 1,
    {
    }

    /// The maker as call `i` of a run finds it: `self` for the first call,
    /// what the call before left for every other.
    pub open spec fn found_by(self, after: Seq<Self>, i: int) -> Self {
        if i == 0 {
            self
        } else {
            after[i - 1]
        }
    }

    /// Whether the three sequences record consecutive calls of `make` on a
    /// maker that was `self` before the first: call `i` was given the
    /// viewport `wins[i]`, returned `outs[i]` and left the maker as
    /// `after[i]`.
    pub open spec fn runs(self, wins: Seq<WinSize>, outs: Seq<Formation>, after: Seq<Self>) -> bool {
        &&& wins.len() == outs.len()
        &&& after.len() == outs.len()
        &&& forall|i: int|
            0 <= i < outs.len() ==> self.found_by(after, i).makes(wins[i], #[trigger] outs[i], after[i])
    }

    /// In a run of calls on a maker that had handed out nothing, the calls
    /// fall into waves of [`FORMATION_MEMBERS_MAX`]. The first call of
    /// each wave synthesizes a formation for its viewport, every other call
    /// of the wave returns that same formation, and after call `i` the wave
    /// has `i % FORMATION_MEMBERS_MAX + 1` members.
    pub proof fn lemma_waves(
        self,
        wins: Seq<WinSize>,
        outs: Seq<Formation>,
        after: Seq<Self>,
        i: int,
    )
        requires
            self.is_fresh(),
            self.runs(wins, outs, after),
            0 <= i < outs.len(),
        ensures
            after[i].template() == Some(outs[i]),
            after[i].members() == i % (FORMATION_MEMBERS_MAX as int) + 1,
            i % (FORMATION_MEMBERS_MAX as int) == 0 ==> outs[i].fits(wins[i]),
            i % (FORMATION_MEMBERS_MAX as int) != 0 ==> outs[i] == outs[i - 1],
        decreases i,
    {
        assert(self.found_by(after, i).makes(wins[i], outs[i], after[i]));
        if i > 0 {
            self.lemma_waves(wins, outs, after, i - 1);
        }
    }
}

impl Default for FormationMaker {
    /// A maker that has handed out nothing yet.
    fn default() -> (maker: Self)
        ensures
            maker.is_fresh(),
            maker.wf(),
    {
        FormationMaker { current_template: None, current_members: 0 }
    }
}

} // verus!
