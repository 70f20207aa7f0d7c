use vstd::prelude::*;

use crate::data::Recipe;
use crate::sim::Action;
use crate::text::string_of;

verus! {

/// The quality that a solve aims for.
#[derive(Clone, Copy, Debug, PartialEq, Eq, Structural)]
pub enum QualityTarget {
    Zero,
    CollectableT1,
    CollectableT2,
    CollectableT3,
    Full,
    Custom(u16),
}

impl Default for QualityTarget {
    fn default() -> (r: Self)
        ensures
            r == QualityTarget::Full,
    {
        QualityTarget::Full
    }
}

/// The settings of a solve.
#[derive(Clone, Copy, Debug, PartialEq, Eq, Structural)]
pub struct SolverConfig {
    pub quality_target: QualityTarget,
    pub backload_progress: bool,
    pub adversarial: bool,
    pub minimize_steps: bool,
}

impl Default for SolverConfig {
    fn default() -> (r: Self)
        ensures
            r == (SolverConfig {
                quality_target: QualityTarget::Full,
                backload_progress: false,
                adversarial: false,
                minimize_steps: false,
            }),
    {
        SolverConfig {
            quality_target: QualityTarget::default(),
            backload_progress: false,
            adversarial: false,
            minimize_steps: false,
        }
    }
}

impl SolverConfig {
    /// Expert recipes have no reliable rotation to aim for, so the reliability
    /// setting is switched off for them; other settings stay.
    pub fn adjust_for_recipe(&mut self, recipe: &Recipe)
        ensures
            final(self).adversarial == (old(self).adversarial && !recipe.is_expert),
            final(self).quality_target == old(self).quality_target,
            final(self).backload_progress == old(self).backload_progress,
            final(self).minimize_steps == old(self).minimize_steps,
    {
        if recipe.is_expert {
            self.adversarial = false;
        }
    }
}

/// What the solver reports while it runs.
#[derive(Debug)]
pub enum SolverEvent {
    Progress(usize),
    IntermediateSolution(Vec<Action>),
    FinalSolution(Vec<Action>),
}

/// What the app shows of a solve: the rotation so far, whether the solver is
/// still running, and how many nodes it has visited.
pub struct SolverStatus {
    pub actions: Vec<Action>,
    pub solver_pending: bool,
    pub solver_progress: usize,
}

impl SolverStatus {
    /// No solve yet: no actions, nothing pending, no progress.
    pub fn new() -> (r: Self)
        ensures
            r.actions@ == Seq::<Action>::empty(),
            !r.solver_pending,
            r.solver_progress == 0,
    {
        SolverStatus { actions: Vec::new(), solver_pending: false, solver_progress: 0 }
    }

    /// A solve starts: the old rotation is cleared, the solver is pending, and no
    /// node has been visited.
    pub fn start_solve(&mut self)
        ensures
            final(self).actions@ == Seq::<Action>::empty(),
            final(self).solver_pending,
            final(self).solver_progress == 0,
    {
        self.actions = Vec::new();
        self.solver_pending = true;
        self.solver_progress = 0;
    }

    /// Takes in one report of the solver. Progress updates the node count, a
    /// solution replaces the rotation, and the final solution also ends the solve;
    /// the result says whether the solve ended, so that its duration is recorded.
    pub fn apply_event(&mut self, event: SolverEvent) -> (finished: bool)
        ensures
            match event {
                SolverEvent::Progress(progress) => {
                    &&& final(self).solver_progress == progress
                    &&& final(self).actions@ == old(self).actions@
                    &&& final(self).solver_pending == old(self).solver_pending
                    &&& !finished
                },
                SolverEvent::IntermediateSolution(actions) => {
                    &&& final(self).actions@ == actions@
                    &&& final(self).solver_progress == old(self).solver_progress
                    &&& final(self).solver_pending == old(self).solver_pending
                    &&& !finished
                },
                SolverEvent::FinalSolution(actions) => {
                    &&& final(self).actions@ == actions@
                    &&& final(self).solver_progress == old(self).solver_progress
                    &&& !final(self).solver_pending
                    &&& finished
                },
            },
    {
        match event {
            SolverEvent::Progress(progress) => {
                self.solver_progress = progress;
                false
            },
            SolverEvent::IntermediateSolution(actions) => {
                self.actions = actions;
                false
            },
            SolverEvent::FinalSolution(actions) => {
                self.actions = actions;
                self.solver_pending = false;
                true
            },
        }
    }
}

/// The character of a decimal digit.
pub open spec fn digit_char(d: int) -> char {
    if d == 0 {
        '0'
    } else if d == 1 {
        '1'
    } else if d == 2 {
        '2'
    } else if d == 3 {
        '3'
    } else if d == 4 {
        '4'
    } else if d == 5 {
        '5'
    } else if d == 6 {
        '6'
    } else if d == 7 {
        '7'
    } else if d == 8 {
        '8'
    } else {
        '9'
    }
}

/// The decimal digits of `n`, most significant first, with no leading zero.
pub open spec fn decimal_digits(n: nat) -> Seq<char>
    decreases n,
{
    if n < 10 {
        seq![digit_char(n as int)]
    } else {
        decimal_digits(n / 10).push(digit_char((n % 10) as int))
    }
}

/// `digits` with a comma before each group of three digits counted from the
/// right, except at the very start.
pub open spec fn group_thousands(digits: Seq<char>) -> Seq<char>
    decreases digits.len(),
{
    if digits.len() <= 3 {
        digits
    } else {
        group_thousands(digits.take(digits.len() - 3)) + seq![','] + digits.skip(
            digits.len() - 3,
        )
    }
}

fn digit(d: usize) -> (c: char)
    requires
        d < 10,
    ensures
        c == digit_char(d as int),
{
    if d == 0 {
        '0'
    } else if d == 1 {
        '1'
    } else if d == 2 {
        '2'
    } else if d == 3 {
        '3'
    } else if d == 4 {
        '4'
    } else if d == 5 {
        '5'
    } else if d == 6 {
        '6'
    } else if d == 7 {
        '7'
    } else if d == 8 {
        '8'
    } else {
        '9'
    }
}

fn decimal(n: usize) -> (r: Vec<char>)
    ensures
        r@ == decimal_digits(n as nat),
{
    let mut rest = n;
    let mut acc: Vec<char> = Vec::new();
    while rest >= 10
        invariant
            decimal_digits(n as nat) == decimal_digits(rest as nat) + acc@,
        decreases rest,
    {
        let d = digit(rest % 10);
        proof {
            assert(decimal_digits(rest as nat) == decimal_digits((rest / 10) as nat).push(d));
            assert(decimal_digits((rest / 10) as nat).push(d) + acc@ == decimal_digits(
                (rest / 10) as nat,
            ) + seq![d].add(acc@));
        }
        acc.insert(0, d);
        rest = rest / 10;
    }
    let d = digit(rest);
    acc.insert(0, d);
    proof {
        assert(decimal_digits(rest as nat) == seq![d]);
    }
    acc
}

/// A count written in decimal with a comma between groups of three digits, as
/// in "1,234,567".
pub fn format_thousands(n: usize) -> (r: String)
    ensures
        r@ == group_thousands(decimal_digits(n as nat)),
{
    let digits = decimal(n);
    let len = digits.len();
    proof {
        assert(len >= 1) by {
            reveal_with_fuel(decimal_digits, 2);
        }
    }
    let first: usize = if len % 3 == 0 {
        3
    } else {
        len % 3
    };
    let mut out: Vec<char> = Vec::new();
    let mut i: usize = 0;
    while i < first
        invariant
            first <= len,
            len == digits@.len(),
            i <= first,
            out@ == digits@.take(i as int),
        decreases first - i,
    {
        assert(digits@.take(i + 1) == digits@.take(i as int).push(digits@[i as int]));
        out.push(digits[i]);
        i = i + 1;
    }
    assert(group_thousands(digits@.take(first as int)) == digits@.take(first as int));
    let mut b: usize = first;
    while b < len
        invariant
            1 <= first <= b <= len,
            len == digits@.len(),
            (len - b) % 3 == 0,
            out@ == group_thousands(digits@.take(b as int)),
        decreases len - b,
    {
        let ghost before = out@;
        out.push(',');
        out.push(digits[b]);
        out.push(digits[b + 1]);
        out.push(digits[b + 2]);
        proof {
            let t = digits@.take(b + 3);
            assert(t.take(t.len() - 3) == digits@.take(b as int));
            assert(t.skip(t.len() - 3) == seq![
                digits@[b as int],
                digits@[b + 1],
                digits@[b + 2],
            ]);
            assert(out@ == before + seq![','] + t.skip(t.len() - 3));
        }
        b = b + 3;
    }
    assert(digits@.take(len as int) == digits@);
    string_of(&out)
}

/// `s` with its commas taken out.
pub open spec fn without_commas(s: Seq<char>) -> Seq<char>
    decreases s.len(),
{
    if s.len() == 0 {
        s
    } else if s.last() == ',' {
        without_commas(s.drop_last())
    } else {
        without_commas(s.drop_last()).push(s.last())
    }
}

proof fn lemma_without_commas_concat(a: Seq<char>, b: Seq<char>)
    ensures
        without_commas(a + b) == without_commas(a) + without_commas(b),
    decreases b.len(),
{
    if b.len() == 0 {
        assert(a + b == a);
    } else {
        lemma_without_commas_concat(a, b.drop_last());
        assert((a + b).drop_last() == a + b.drop_last());
        assert((a + b).last() == b.last());
    }
}

proof fn lemma_without_commas_no_comma(s: Seq<char>)
    requires
        forall|i: int| 0 <= i < s.len() ==> s[i] != ',',
    ensures
        without_commas(s) == s,
    decreases s.len(),
{
    if s.len() > 0 {
        lemma_without_commas_no_comma(s.drop_last());
        assert(s.drop_last().push(s.last()) == s);
    }
}

proof fn lemma_digits_have_no_comma(n: nat)
    ensures
        decimal_digits(n).len() > 0,
        forall|i: int| 0 <= i < decimal_digits(n).len() ==> decimal_digits(n)[i] != ',',
    decreases n,
{
    if n >= 10 {
        lemma_digits_have_no_comma(n / 10);
    }
}

proof fn lemma_group_thousands(d: Seq<char>)
    requires
        forall|i: int| 0 <= i < d.len() ==> d[i] != ',',
    ensures
        without_commas(group_thousands(d)) == d,
        d.len() > 0 ==> group_thousands(d).len() > 0 && group_thousands(d)[0] == d[0],
    decreases d.len(),
{
    if d.len() <= 3 {
        lemma_without_commas_no_comma(d);
    } else {
        let head = d.take(d.len() - 3);
        let tail = d.skip(d.len() - 3);
        lemma_group_thousands(head);
        lemma_without_commas_no_comma(tail);
        let g = group_thousands(head);
        lemma_without_commas_concat(g + seq![','], tail);
        lemma_without_commas_concat(g, seq![',']);
        assert(without_commas(seq![',']) == Seq::<char>::empty()) by {
            let c = seq![','];
            assert(c.len() == 1);
            assert(c.last() == ',');
            assert(c.drop_last() =~= Seq::<char>::empty());
            assert(without_commas(c) == without_commas(c.drop_last()));
        }
        assert(head + tail == d);
    }
}

/// Writing a count with thousands separators only adds commas: taking them out
/// again gives the plain decimal digits, and the text never starts with a comma.
pub proof fn lemma_thousands_only_add_commas(n: nat)
    ensures
        without_commas(group_thousands(decimal_digits(n))) == decimal_digits(n),
        group_thousands(decimal_digits(n)).len() > 0,
        group_thousands(decimal_digits(n))[0] == decimal_digits(n)[0],
        group_thousands(decimal_digits(n))[0] != ',',
{
    lemma_digits_have_no_comma(n);
    lemma_group_thousands(decimal_digits(n));
}

/// The note shown while the solver runs: that the tables are being filled before
/// any node is visited, and then the number of nodes visited.
pub open spec fn progress_note(progress: usize) -> Seq<char> {
    if progress == 0 {
        "Populating DP tables"@
    } else {
        group_thousands(decimal_digits(progress as nat)) + " nodes visited"@
    }
}

/// The note shown while the solver runs (see [`progress_note`]).
pub fn progress_label(progress: usize) -> (r: String)
    ensures
        r@ == progress_note(progress),
{
    if progress == 0 {
        "Populating DP tables".to_owned()
    } else {
        let mut s = format_thousands(progress);
        s.append(" nodes visited");
        s
    }
}

} // verus!
