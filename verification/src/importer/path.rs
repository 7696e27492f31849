//! The grammar of SVG path data: which command each number belongs to.
//!
//! The geometry of a path (absolute positions, reflected control points,
//! arcs) is computed by the caller from the plan made here, one step at a
//! time.
use vstd::prelude::*;

use crate::error::Error;
use crate::importer::pattern::{captures_view, groups_view, regex_captures, regex_captures_spec};
use crate::text::{chars_of, decimal_spec, push_decimal, push_str, string_views};

verus! {

/// The longest `d` attribute, in bytes, that is read.
pub const MAX_PATH_D_LENGTH: usize = 10 * 1024 * 1024;

/// The most segments one path may have.
pub const MAX_PATH_SEGMENTS: usize = 1_000_000;

/// Command letters, and numbers with an optional sign, fraction and exponent.
pub const PATH_TOKEN_PATTERN: &'static str = r"([MmZzLlHhVvCcSsQqTtAa])|([+-]?(?:\d+\.?\d*|\.\d+)(?:[eE][+-]?\d+)?)";

/// One token of path data: a command letter, or a number as written.
pub enum PathToken<S> {
    Command(char),
    Number(S),
}

impl PathToken<String> {
    pub open spec fn model(&self) -> PathToken<Seq<char>> {
        match self {
            PathToken::Command(c) => PathToken::Command(*c),
            PathToken::Number(s) => PathToken::Number(s@),
        }
    }
}

pub open spec fn tokens_model(t: Seq<PathToken<String>>) -> Seq<PathToken<Seq<char>>> {
    t.map_values(|x: PathToken<String>| x.model())
}

/// The token of one match: group 1 is a command letter, group 2 a number.
pub open spec fn capture_token(g: Seq<Option<Seq<char>>>) -> Seq<PathToken<Seq<char>>> {
    let none: Option<Seq<char>> = None;
    let cmd = if g.len() > 1 { g[1] } else { none };
    let num = if g.len() > 2 { g[2] } else { none };
    match cmd {
        Some(c) => if c.len() > 0 {
            Seq::empty().push(PathToken::Command(first_char(c)))
        } else {
            Seq::empty()
        },
        None => match num {
            Some(n) => Seq::empty().push(PathToken::Number(n)),
            None => Seq::empty(),
        },
    }
}

/// The first character of a text.
pub open spec fn first_char(c: Seq<char>) -> char {
    c[0]
}

/// The tokens of a list of matches, in order.
pub open spec fn tokens_of(c: Seq<Seq<Option<Seq<char>>>>) -> Seq<PathToken<Seq<char>>>
    decreases c.len(),
{
    if c.len() == 0 {
        seq![]
    } else {
        tokens_of(c.drop_last()) + capture_token(c.last())
    }
}

/// One command of a path with the numbers it takes, as written, and the
/// command before it (`'\0'` for none). `cmd` is the letter in effect,
/// written or implied: numbers that follow a full set repeat the command,
/// and coordinate pairs that follow a moveto are lines (`L`, or `l` after
/// `m`).
pub struct PathStep<A> {
    pub cmd: char,
    pub args: A,
    pub prev: char,
}

impl PathStep<Vec<String>> {
    pub open spec fn model(&self) -> PathStep<Seq<Seq<char>>> {
        PathStep { cmd: self.cmd, args: string_views(self.args@), prev: self.prev }
    }
}

pub open spec fn steps_model(s: Seq<PathStep<Vec<String>>>) -> Seq<PathStep<Seq<Seq<char>>>> {
    s.map_values(|x: PathStep<Vec<String>>| x.model())
}

/// How reading the path data ends.
#[derive(Clone, Copy, Debug, PartialEq, Eq, Structural)]
pub enum PlanEnd {
    /// All tokens were read.
    Done,
    /// A number follows a close: the close repeats without end, which the
    /// segment limit stops.
    EndlessClose,
}

/// The commands of a path, in order, and how reading ended.
pub struct PathPlan<A> {
    pub steps: A,
    pub end: PlanEnd,
}

/// How many numbers each command takes.
pub open spec fn arity_spec(c: char) -> Option<nat> {
    if c == 'M' || c == 'm' || c == 'L' || c == 'l' || c == 'T' || c == 't' {
        Some(2)
    } else if c == 'H' || c == 'h' || c == 'V' || c == 'v' {
        Some(1)
    } else if c == 'C' || c == 'c' {
        Some(6)
    } else if c == 'S' || c == 's' || c == 'Q' || c == 'q' {
        Some(4)
    } else if c == 'A' || c == 'a' {
        Some(7)
    } else if c == 'Z' || c == 'z' {
        Some(0)
    } else {
        None
    }
}

/// The command that numbers without a letter of their own repeat.
pub open spec fn implied_spec(last: char) -> char {
    if last == 'M' {
        'L'
    } else if last == 'm' {
        'l'
    } else {
        last
    }
}

/// How many number tokens start at `i`, at most `count`.
pub open spec fn number_run(t: Seq<PathToken<Seq<char>>>, i: int, count: nat) -> nat
    decreases count,
{
    if count == 0 || i < 0 || i >= t.len() || t[i] is Command {
        0
    } else {
        1 + number_run(t, i + 1, (count - 1) as nat)
    }
}

/// The texts of the `k` number tokens from `i`.
pub open spec fn number_texts(t: Seq<PathToken<Seq<char>>>, i: int, k: nat) -> Seq<Seq<char>> {
    Seq::new(
        k,
        |j: int|
            match t[i + j] {
                PathToken::Number(s) => s,
                PathToken::Command(_) => seq![],
            },
    )
}

pub proof fn lemma_number_run(t: Seq<PathToken<Seq<char>>>, i: int, count: nat)
    ensures
        number_run(t, i, count) <= count,
        0 <= i < t.len() && count > 0 && t[i] is Number ==> number_run(t, i, count) >= 1,
        0 <= i <= t.len() ==> i + number_run(t, i, count) <= t.len(),
        forall|j: int|
            0 <= j < number_run(t, i, count) ==> (#[trigger] t[i + j]) is Number,
        number_run(t, i, count) < count && 0 <= i <= t.len() ==> (i + number_run(t, i, count) == t.len() || t[i
            + number_run(t, i, count)] is Command),
    decreases count,
{
    if count == 0 || i < 0 || i >= t.len() || t[i] is Command {
    } else {
        lemma_number_run(t, i + 1, (count - 1) as nat);
        assert forall|j: int| 0 <= j < number_run(t, i, count) implies (#[trigger] t[i + j]) is Number by {
            if j > 0 {
                assert(t[(i + 1) + (j - 1)] is Number);
            }
        }
    }
}

/// The coordinate pairs that follow a moveto, each one a line `line` after
/// the moveto `m`; also where reading stops. An odd number left over is
/// read and dropped.
pub open spec fn move_pairs(t: Seq<PathToken<Seq<char>>>, p: int, line: char, m: char) -> (
    Seq<PathStep<Seq<Seq<char>>>>,
    int,
)
    decreases t.len() - p,
{
    if p < 0 || p >= t.len() || t[p] is Command {
        (seq![], p)
    } else if number_run(t, p, 2) < 2 {
        (seq![], p + number_run(t, p, 2))
    } else {
        proof {
            lemma_number_run(t, p, 2);
        }
        let rest = move_pairs(t, p + 2, line, m);
        (seq![PathStep { cmd: line, args: number_texts(t, p, 2), prev: m }] + rest.0, rest.1)
    }
}

pub proof fn lemma_move_pairs_end(t: Seq<PathToken<Seq<char>>>, p: int, line: char, m: char)
    requires
        0 <= p <= t.len(),
    ensures
        p <= move_pairs(t, p, line, m).1 <= t.len(),
    decreases t.len() - p,
{
    lemma_number_run(t, p, 2);
    if p < 0 || p >= t.len() || t[p] is Command {
    } else if number_run(t, p, 2) < 2 {
    } else {
        lemma_move_pairs_end(t, p + 2, line, m);
    }
}

/// Adds steps in front of a plan.
pub open spec fn prepend(
    s: Seq<PathStep<Seq<Seq<char>>>>,
    r: Option<(Seq<PathStep<Seq<Seq<char>>>>, PlanEnd)>,
) -> Option<(Seq<PathStep<Seq<Seq<char>>>>, PlanEnd)> {
    match r {
        Some((x, e)) => Some((s + x, e)),
        None => None,
    }
}

/// The plan of the tokens from `i` on, `last` being the command before.
/// `None` where reading would never finish (numbers before any command, or
/// after an unknown letter) or a moveto is given a single number.
/// A command short of numbers is dropped together with the numbers it has.
pub open spec fn plan_from(t: Seq<PathToken<Seq<char>>>, i: int, last: char) -> Option<
    (Seq<PathStep<Seq<Seq<char>>>>, PlanEnd),
>
    decreases t.len() - i,
{
    if i < 0 || i >= t.len() {
        Some((seq![], PlanEnd::Done))
    } else {
        let explicit = t[i] is Command;
        let cmd = match t[i] {
            PathToken::Command(c) => c,
            PathToken::Number(_) => implied_spec(last),
        };
        let j = if explicit {
            i + 1
        } else {
            i
        };
        match arity_spec(cmd) {
            None => if explicit {
                plan_from(t, j, cmd)
            } else {
                None
            },
            Some(n) => if n == 0 {
                if explicit {
                    prepend(seq![PathStep { cmd, args: seq![], prev: last }], plan_from(t, j, cmd))
                } else {
                    Some((seq![], PlanEnd::EndlessClose))
                }
            } else {
                let k = number_run(t, j, n);
                let args = number_texts(t, j, k);
                if cmd == 'M' || cmd == 'm' {
                    if k == 0 {
                        plan_from(t, j, last)
                    } else if k == 1 {
                        None
                    } else {
                        let line = if cmd == 'M' {
                            'L'
                        } else {
                            'l'
                        };
                        let mp = move_pairs(t, j + 2, line, cmd);
                        proof {
                            lemma_number_run(t, j, n);
                            lemma_move_pairs_end(t, j + 2, line, cmd);
                        }
                        prepend(
                            seq![PathStep { cmd, args, prev: last }] + mp.0,
                            plan_from(t, mp.1, cmd),
                        )
                    }
                } else {
                    proof {
                        lemma_number_run(t, j, n);
                    }
                    if k < n {
                        plan_from(t, j + k, last)
                    } else {
                        prepend(seq![PathStep { cmd, args, prev: last }], plan_from(t, j + k, cmd))
                    }
                }
            },
        }
    }
}

/// The plan of a whole token list.
pub open spec fn plan_spec(t: Seq<PathToken<Seq<char>>>) -> Option<
    (Seq<PathStep<Seq<Seq<char>>>>, PlanEnd),
> {
    plan_from(t, 0, '\0')
}

/// Every step names a known command and carries exactly as many numbers as
/// that command takes.
pub open spec fn steps_well_formed(st: Seq<PathStep<Seq<Seq<char>>>>) -> bool {
    forall|k: int| 0 <= k < st.len() ==> arity_spec(#[trigger] st[k].cmd) == Some(st[k].args.len())
}

proof fn lemma_wf_concat(a: Seq<PathStep<Seq<Seq<char>>>>, b: Seq<PathStep<Seq<Seq<char>>>>)
    requires
        steps_well_formed(a),
        steps_well_formed(b),
    ensures
        steps_well_formed(a + b),
{
    assert forall|k: int| 0 <= k < (a + b).len() implies arity_spec(#[trigger] (a + b)[k].cmd) == Some(
        (a + b)[k].args.len(),
    ) by {
        if k < a.len() {
            assert((a + b)[k] == a[k]);
        } else {
            assert((a + b)[k] == b[k - a.len()]);
        }
    }
}

proof fn lemma_move_pairs_wf(t: Seq<PathToken<Seq<char>>>, p: int, line: char, m: char)
    requires
        line == 'L' || line == 'l',
    ensures
        steps_well_formed(move_pairs(t, p, line, m).0),
    decreases t.len() - p,
{
    if p < 0 || p >= t.len() || t[p] is Command {
    } else if number_run(t, p, 2) < 2 {
    } else {
        lemma_number_run(t, p, 2);
        lemma_move_pairs_wf(t, p + 2, line, m);
        let first = seq![PathStep { cmd: line, args: number_texts(t, p, 2), prev: m }];
        assert(steps_well_formed(first));
        lemma_wf_concat(first, move_pairs(t, p + 2, line, m).0);
    }
}

proof fn lemma_plan_from_wf(t: Seq<PathToken<Seq<char>>>, i: int, last: char)
    ensures
        plan_from(t, i, last) matches Some((st, e)) ==> steps_well_formed(st),
    decreases t.len() - i,
{
    if i < 0 || i >= t.len() {
    } else {
        let explicit = t[i] is Command;
        let cmd = match t[i] {
            PathToken::Command(c) => c,
            PathToken::Number(_) => implied_spec(last),
        };
        let j = if explicit {
            i + 1
        } else {
            i
        };
        match arity_spec(cmd) {
            None => if explicit {
                lemma_plan_from_wf(t, j, cmd);
            },
            Some(n) => if n == 0 {
                if explicit {
                    lemma_plan_from_wf(t, j, cmd);
                    let first = seq![PathStep { cmd, args: Seq::<Seq<char>>::empty(), prev: last }];
                    assert(steps_well_formed(first));
                    if let Some((rest, e)) = plan_from(t, j, cmd) {
                        lemma_wf_concat(first, rest);
                    }
                }
            } else {
                let k = number_run(t, j, n);
                lemma_number_run(t, j, n);
                let args = number_texts(t, j, k);
                if cmd == 'M' || cmd == 'm' {
                    if k == 0 {
                        lemma_plan_from_wf(t, j, last);
                    } else if k >= 2 {
                        let line = if cmd == 'M' {
                            'L'
                        } else {
                            'l'
                        };
                        let mp = move_pairs(t, j + 2, line, cmd);
                        lemma_move_pairs_end(t, j + 2, line, cmd);
                        lemma_move_pairs_wf(t, j + 2, line, cmd);
                        lemma_plan_from_wf(t, mp.1, cmd);
                        let first = seq![PathStep { cmd, args, prev: last }];
                        assert(steps_well_formed(first));
                        lemma_wf_concat(first, mp.0);
                        if let Some((rest, e)) = plan_from(t, mp.1, cmd) {
                            lemma_wf_concat(first + mp.0, rest);
                        }
                    }
                } else {
                    if k < n {
                        lemma_plan_from_wf(t, j + k, last);
                    } else {
                        lemma_plan_from_wf(t, j + k, cmd);
                        let first = seq![PathStep { cmd, args, prev: last }];
                        assert(steps_well_formed(first));
                        if let Some((rest, e)) = plan_from(t, j + k, cmd) {
                            lemma_wf_concat(first, rest);
                        }
                    }
                }
            },
        }
    }
}

/// Every step of a path plan names a known command and carries exactly as
/// many numbers as that command takes, so its numbers can be read by
/// position.
pub proof fn plan_arity_law(t: Seq<PathToken<Seq<char>>>)
    ensures
        plan_spec(t) matches Some((st, e)) ==> steps_well_formed(st),
{
    lemma_plan_from_wf(t, 0, '\0');
}

proof fn lemma_tokens_model_push(s: Seq<PathToken<String>>, x: PathToken<String>)
    ensures
        tokens_model(s.push(x)) =~= tokens_model(s).push(x.model()),
{
    assert forall|j: int| 0 <= j < s.len() + 1 implies tokens_model(s.push(x))[j] == tokens_model(
        s,
    ).push(x.model())[j] by {
        if j < s.len() {
            assert(s.push(x)[j] == s[j]);
        }
    }
}

/// The token of one match, if it has one.
fn capture_to_token(g: &Vec<Option<String>>) -> (r: Option<PathToken<String>>)
    ensures
        capture_token(groups_view(g@)) == match r {
            Some(t) => seq![t.model()],
            None => seq![],
        },
{
    let ghost gv = groups_view(g@);
    if g.len() > 1 {
        match &g[1] {
            Some(c) => {
                assert(gv[1] == Some(c@));
                let cs = chars_of(c.as_str());
                assert(cs@ == c@);
                if cs.len() > 0 {
                    let first = cs[0];
                    let r = PathToken::Command(first);
                    assert(first == c@[0]);
                    let ghost m = r.model();
                    assert(capture_token(gv) =~= seq![m]);
                    return Some(r);
                }
                assert(capture_token(gv) =~= seq![]);
                return None;
            },
            None => {
                assert(gv[1] is None);
            },
        }
    }
    if g.len() > 2 {
        match &g[2] {
            Some(n) => {
                assert(gv[2] == Some(n@));
                let r = PathToken::Number(n.clone());
                assert(capture_token(gv) =~= seq![r.model()]);
                return Some(r);
            },
            None => {
                assert(gv[2] is None);
            },
        }
    }
    assert(capture_token(gv) =~= seq![]);
    None
}

/// Reads the tokens of a list of regular-expression matches.
pub fn tokens_from_captures(caps: &Vec<Vec<Option<String>>>) -> (r: Vec<PathToken<String>>)
    ensures
        tokens_model(r@) == tokens_of(captures_view(caps@)),
{
    let ghost cv = captures_view(caps@);
    let mut r: Vec<PathToken<String>> = Vec::new();
    let mut i: usize = 0;
    while i < caps.len()
        invariant
            i <= caps@.len(),
            cv == captures_view(caps@),
            tokens_model(r@) == tokens_of(cv.take(i as int)),
        decreases caps.len() - i,
    {
        let ghost before = r@;
        proof {
            assert(cv.take(i + 1).drop_last() =~= cv.take(i as int));
            assert(cv.take(i + 1).last() == cv[i as int]);
            assert(cv[i as int] == groups_view(caps@[i as int]@));
        }
        match capture_to_token(&caps[i]) {
            Some(t) => {
                r.push(t);
                proof {
                    lemma_tokens_model_push(before, r@.last());
                    assert(r@ == before.push(r@.last()));
                }
            },
            None => {},
        }
        proof {
            assert(tokens_model(r@) =~= tokens_model(before) + capture_token(cv[i as int]));
        }
        i += 1;
    }
    proof {
        assert(cv.take(caps@.len() as int) =~= cv);
    }
    r
}

/// Splits path data into command letters and numbers, by the regular
/// expression [`PATH_TOKEN_PATTERN`]; no tokens where the expression is
/// refused.
pub fn tokenize_path_data(d: &str) -> (r: Vec<PathToken<String>>)
    ensures
        match regex_captures_spec(PATH_TOKEN_PATTERN@, d@) {
            Some(c) => tokens_model(r@) == tokens_of(c),
            None => r@.len() == 0,
        },
{
    match regex_captures(PATH_TOKEN_PATTERN, d) {
        Some(caps) => tokens_from_captures(&caps),
        None => Vec::new(),
    }
}

fn arity(c: char) -> (r: Option<usize>)
    ensures
        match arity_spec(c) {
            Some(n) => r == Some(n as usize),
            None => r is None,
        },
{
    if c == 'M' || c == 'm' || c == 'L' || c == 'l' || c == 'T' || c == 't' {
        Some(2)
    } else if c == 'H' || c == 'h' || c == 'V' || c == 'v' {
        Some(1)
    } else if c == 'C' || c == 'c' {
        Some(6)
    } else if c == 'S' || c == 's' || c == 'Q' || c == 'q' {
        Some(4)
    } else if c == 'A' || c == 'a' {
        Some(7)
    } else if c == 'Z' || c == 'z' {
        Some(0)
    } else {
        None
    }
}

/// Takes up to `count` numbers from `i` on; stops at a command.
fn take_numbers(t: &Vec<PathToken<String>>, i: usize, count: usize) -> (r: (Vec<String>, usize))
    requires
        i <= t@.len(),
    ensures
        r.1 == number_run(tokens_model(t@), i as int, count as nat),
        string_views(r.0@) == number_texts(tokens_model(t@), i as int, r.1 as nat),
{
    let ghost tm = tokens_model(t@);
    proof {
        lemma_number_run(tm, i as int, count as nat);
    }
    let mut nums: Vec<String> = Vec::new();
    let mut k: usize = 0;
    while k < count && k < t.len() - i
        invariant
            i <= t@.len(),
            tm == tokens_model(t@),
            k <= count,
            i + k <= t@.len(),
            number_run(tm, i as int, count as nat) == k + number_run(tm, i + k, (count - k) as nat),
            string_views(nums@) == number_texts(tm, i as int, k as nat),
        ensures
            k == count || i + k == t@.len() || tm[i + k] is Command,
            number_run(tm, i as int, count as nat) == k + number_run(tm, i + k, (count - k) as nat),
            string_views(nums@) == number_texts(tm, i as int, k as nat),
        decreases count - k,
    {
        match &t[i + k] {
            PathToken::Number(s) => {
                let ghost before = nums@;
                nums.push(s.clone());
                proof {
                    assert(tm[i + k] == t@[i + k].model());
                    assert(nums@ == before.push(t@[i + k]->Number_0));
                    assert(string_views(before) == number_texts(tm, i as int, k as nat));
                    assert(string_views(before).len() == before.len());
                    assert(before.len() == k);
                    assert(string_views(nums@)[k as int] == number_texts(tm, i as int, (k + 1) as nat)[k as int]);
                    assert(forall|j: int| 0 <= j < k ==> string_views(nums@)[j] == string_views(before)[j]);
                    assert forall|j: int| 0 <= j < k + 1 implies string_views(nums@)[j]
                        == number_texts(tm, i as int, (k + 1) as nat)[j] by {
                        if j < k {
                            assert(string_views(before)[j] == number_texts(tm, i as int, k as nat)[j]);
                        }
                    }
                    assert(string_views(nums@) =~= number_texts(tm, i as int, (k + 1) as nat));
                }
                k += 1;
            },
            PathToken::Command(_) => {
                proof {
                    assert(tm[i + k] == t@[i + k].model());
                }
                break;
            },
        }
    }
    (nums, k)
}

fn implied(last: char) -> (c: char)
    ensures
        c == implied_spec(last),
{
    if last == 'M' {
        'L'
    } else if last == 'm' {
        'l'
    } else {
        last
    }
}

proof fn lemma_steps_model_push(s: Seq<PathStep<Vec<String>>>, x: PathStep<Vec<String>>)
    ensures
        steps_model(s.push(x)) =~= steps_model(s).push(x.model()),
{
    assert forall|j: int| 0 <= j < s.len() + 1 implies steps_model(s.push(x))[j] == steps_model(
        s,
    ).push(x.model())[j] by {
        if j < s.len() {
            assert(s.push(x)[j] == s[j]);
        }
    }
}

/// Appends the lines drawn by the coordinate pairs after a moveto and
/// returns where reading stops.
fn push_move_pairs(
    t: &Vec<PathToken<String>>,
    p: usize,
    line: char,
    m: char,
    steps: &mut Vec<PathStep<Vec<String>>>,
) -> (end: usize)
    requires
        p <= t@.len(),
    ensures
        steps_model(final(steps)@) == steps_model(old(steps)@) + move_pairs(
            tokens_model(t@),
            p as int,
            line,
            m,
        ).0,
        end == move_pairs(tokens_model(t@), p as int, line, m).1,
{
    let ghost tm = tokens_model(t@);
    let ghost start = steps@;
    let mut q: usize = p;
    loop
        invariant_except_break
            move_pairs(tm, p as int, line, m) == (
                steps_model(steps@).subrange(steps_model(start).len() as int, steps_model(steps@).len() as int)
                    + move_pairs(tm, q as int, line, m).0,
                move_pairs(tm, q as int, line, m).1,
            ),
        invariant
            p <= q <= t@.len(),
            tm == tokens_model(t@),
            steps_model(steps@).subrange(0, steps_model(start).len() as int) == steps_model(start),
            steps_model(start).len() <= steps_model(steps@).len(),
        ensures
            move_pairs(tm, p as int, line, m) == (
                steps_model(steps@).subrange(steps_model(start).len() as int, steps_model(steps@).len() as int),
                q as int,
            ),
        decreases t@.len() - q,
    {
        if q >= t.len() {
            proof {
                let sm = steps_model(steps@);
                assert(sm.subrange(steps_model(start).len() as int, sm.len() as int) + seq![] =~= sm.subrange(steps_model(start).len() as int, sm.len() as int));
            }
            break;
        }
        match &t[q] {
            PathToken::Command(_) => {
                proof {
                    assert(tm[q as int] == t@[q as int].model());
                    let sm = steps_model(steps@);
                    assert(sm.subrange(steps_model(start).len() as int, sm.len() as int) + seq![] =~= sm.subrange(steps_model(start).len() as int, sm.len() as int));
                }
                break;
            },
            PathToken::Number(_) => {},
        }
        proof {
            assert(tm[q as int] == t@[q as int].model());
            lemma_number_run(tm, q as int, 2);
        }
        let (pair, k) = take_numbers(t, q, 2);
        if k < 2 {
            proof {
                let sm = steps_model(steps@);
                assert(sm.subrange(steps_model(start).len() as int, sm.len() as int) + seq![] =~= sm.subrange(steps_model(start).len() as int, sm.len() as int));
            }
            q = q + k;
            break;
        }
        let ghost before = steps@;
        let step = PathStep { cmd: line, args: pair, prev: m };
        proof {
            assert(step.model() == PathStep { cmd: line, args: number_texts(tm, q as int, 2), prev: m });
        }
        steps.push(step);
        proof {
            lemma_steps_model_push(before, step);
            let sm = steps_model(steps@);
            let bm = steps_model(before);
            let n0 = steps_model(start).len() as int;
            assert(sm.subrange(n0, sm.len() as int) =~= bm.subrange(n0, bm.len() as int).push(step.model()));
            assert(sm.subrange(0, n0) =~= bm.subrange(0, n0));
            let rest = move_pairs(tm, q + 2, line, m);
            assert(move_pairs(tm, q as int, line, m) == (seq![step.model()] + rest.0, rest.1));
            assert(bm.subrange(n0, bm.len() as int) + move_pairs(tm, q as int, line, m).0
                =~= sm.subrange(n0, sm.len() as int) + rest.0);
        }
        q = q + 2;
    }
    proof {
        let sm = steps_model(steps@);
        let n0 = steps_model(start).len() as int;
        assert(sm =~= steps_model(start) + sm.subrange(n0, sm.len() as int));
    }
    q
}

proof fn lemma_prepend_assoc(
    a: Seq<PathStep<Seq<Seq<char>>>>,
    b: Seq<PathStep<Seq<Seq<char>>>>,
    x: Option<(Seq<PathStep<Seq<Seq<char>>>>, PlanEnd)>,
)
    ensures
        prepend(a, prepend(b, x)) == prepend(a + b, x),
{
    match x {
        Some((s, e)) => {
            assert(a + (b + s) =~= (a + b) + s);
        },
        None => {},
    }
}

/// Reads the commands of a path from its tokens (see [`plan_from`]):
/// `None` where reading would never finish or a moveto has a single number.
pub fn plan_tokens(t: &Vec<PathToken<String>>) -> (r: Option<PathPlan<Vec<PathStep<Vec<String>>>>>)
    ensures
        match r {
            Some(p) => plan_spec(tokens_model(t@)) == Some((steps_model(p.steps@), p.end)),
            None => plan_spec(tokens_model(t@)) is None,
        },
{
    let ghost tm = tokens_model(t@);
    let mut steps: Vec<PathStep<Vec<String>>> = Vec::new();
    let mut i: usize = 0;
    let mut last: char = '\0';
    proof {
        assert(steps_model(steps@) =~= seq![]);
        match plan_from(tm, 0, '\0') {
            Some((x, e)) => {
                assert(seq![] + x =~= x);
            },
            None => {},
        }
    }
    while i < t.len()
        invariant
            i <= t@.len(),
            tm == tokens_model(t@),
            plan_spec(tm) == prepend(steps_model(steps@), plan_from(tm, i as int, last)),
        decreases t@.len() - i,
    {
        proof {
            assert(tm[i as int] == t@[i as int].model());
        }
        let explicit: bool;
        let cmd: char;
        match &t[i] {
            PathToken::Command(c) => {
                explicit = true;
                cmd = *c;
            },
            PathToken::Number(_) => {
                explicit = false;
                cmd = implied(last);
            },
        }
        let j = if explicit {
            i + 1
        } else {
            i
        };
        match arity(cmd) {
            None => {
                if explicit {
                    assert(plan_from(tm, i as int, last) == plan_from(tm, j as int, cmd));
                    i = j;
                    last = cmd;
                } else {
                    assert(plan_from(tm, i as int, last) is None);
                    return None;
                }
            },
            Some(n) => {
                if n == 0 {
                    if explicit {
                        let ghost before = steps@;
                        let step = PathStep { cmd, args: Vec::new(), prev: last };
                        proof {
                            assert(string_views(step.args@) =~= Seq::<Seq<char>>::empty());
                            assert(step.model() == PathStep { cmd, args: Seq::<Seq<char>>::empty(), prev: last });
                            assert(plan_from(tm, i as int, last) == prepend(seq![step.model()], plan_from(tm, j as int, cmd)));
                        }
                        steps.push(step);
                        proof {
                            lemma_steps_model_push(before, step);
                            lemma_prepend_assoc(steps_model(before), seq![step.model()], plan_from(tm, j as int, cmd));
                        }
                        i = j;
                        last = cmd;
                    } else {
                        proof {
                            assert(plan_from(tm, i as int, last) == Some((Seq::<PathStep<Seq<Seq<char>>>>::empty(), PlanEnd::EndlessClose)));
                            assert(steps_model(steps@) + seq![] =~= steps_model(steps@));
                        }
                        return Some(PathPlan { steps, end: PlanEnd::EndlessClose });
                    }
                } else {
                    let (args, k) = take_numbers(t, j, n);
                    proof {
                        lemma_number_run(tm, j as int, n as nat);
                    }
                    if cmd == 'M' || cmd == 'm' {
                        if k == 0 {
                            assert(plan_from(tm, i as int, last) == plan_from(tm, j as int, last));
                            i = j;
                        } else if k == 1 {
                            assert(plan_from(tm, i as int, last) is None);
                            return None;
                        } else {
                            let line = if cmd == 'M' {
                                'L'
                            } else {
                                'l'
                            };
                            let ghost before = steps@;
                            let step = PathStep { cmd, args, prev: last };
                            let ghost mp = move_pairs(tm, j + 2, line, cmd);
                            proof {
                                assert(step.model() == PathStep { cmd, args: number_texts(tm, j as int, k as nat), prev: last });
                                assert(plan_from(tm, i as int, last) == prepend(seq![step.model()] + mp.0, plan_from(tm, mp.1, cmd)));
                            }
                            steps.push(step);
                            proof {
                                lemma_steps_model_push(before, step);
                                lemma_move_pairs_end(tm, j + 2, line, cmd);
                            }
                            let ghost mid = steps@;
                            let end = push_move_pairs(t, j + 2, line, cmd, &mut steps);
                            proof {
                                lemma_prepend_assoc(steps_model(before), seq![step.model()] + mp.0, plan_from(tm, mp.1, cmd));
                                assert(steps_model(steps@) =~= steps_model(before) + (seq![step.model()] + mp.0));
                            }
                            i = end;
                            last = cmd;
                        }
                    } else if k < n {
                        assert(plan_from(tm, i as int, last) == plan_from(tm, j + k, last));
                        i = j + k;
                    } else {
                        let ghost before = steps@;
                        let step = PathStep { cmd, args, prev: last };
                        proof {
                            assert(step.model() == PathStep { cmd, args: number_texts(tm, j as int, k as nat), prev: last });
                            assert(plan_from(tm, i as int, last) == prepend(seq![step.model()], plan_from(tm, j + k, cmd)));
                        }
                        steps.push(step);
                        proof {
                            lemma_steps_model_push(before, step);
                            lemma_prepend_assoc(steps_model(before), seq![step.model()], plan_from(tm, j + k, cmd));
                        }
                        i = j + k;
                        last = cmd;
                    }
                }
            },
        }
    }
    proof {
        assert(steps_model(steps@) + seq![] =~= steps_model(steps@));
    }
    Some(PathPlan { steps, end: PlanEnd::Done })
}

/// The message for path data longer than [`MAX_PATH_D_LENGTH`] bytes.
pub open spec fn too_long_message(len: nat) -> Seq<char> {
    "SVG path `d` attribute too large: "@ + decimal_spec(len) + " bytes (limit "@ + decimal_spec(
        MAX_PATH_D_LENGTH as nat,
    ) + ")"@
}

/// The message for path data that cannot be read (see [`plan_from`]).
pub open spec fn unreadable_message() -> Seq<char> {
    "SVG path data has numbers before any command, or a moveto with one coordinate"@
}

/// The message for a path with more than [`MAX_PATH_SEGMENTS`] segments.
pub open spec fn segment_limit_message_spec() -> Seq<char> {
    "SVG path segment count exceeds limit ("@ + decimal_spec(MAX_PATH_SEGMENTS as nat) + ")"@
}

pub fn segment_limit_message() -> (m: String)
    ensures
        m@ == segment_limit_message_spec(),
{
    let mut m = String::new();
    push_str(&mut m, "SVG path segment count exceeds limit (");
    push_decimal(&mut m, MAX_PATH_SEGMENTS as u64);
    push_str(&mut m, ")");
    proof {
        reveal_strlit("SVG path segment count exceeds limit (");
        reveal_strlit(")");
        assert(m@ =~= segment_limit_message_spec());
    }
    m
}

/// Reads the commands of the path data `d`: its tokens by
/// [`tokenize_path_data`], then their plan by [`plan_tokens`].
/// Fails for data longer than [`MAX_PATH_D_LENGTH`] bytes and for data
/// that cannot be read.
pub fn path_plan(d: &str) -> (r: Result<PathPlan<Vec<PathStep<Vec<String>>>>, Error>)
    ensures
        d.len() > MAX_PATH_D_LENGTH ==> (r matches Err(e) && e matches Error::SvgPath(m)
            && m@ == too_long_message(d.len() as nat)),
        d.len() <= MAX_PATH_D_LENGTH ==> match regex_captures_spec(PATH_TOKEN_PATTERN@, d@) {
            Some(c) => match plan_spec(tokens_of(c)) {
                Some((st, end)) => r matches Ok(p) && steps_model(p.steps@) == st && p.end == end,
                None => r matches Err(e) && e matches Error::SvgPath(m) && m@ == unreadable_message(),
            },
            None => r matches Ok(p) && p.steps@.len() == 0 && p.end == PlanEnd::Done,
        },
{
    let len = d.len();
    if len > MAX_PATH_D_LENGTH {
        let mut m = String::new();
        push_str(&mut m, "SVG path `d` attribute too large: ");
        push_decimal(&mut m, len as u64);
        push_str(&mut m, " bytes (limit ");
        push_decimal(&mut m, MAX_PATH_D_LENGTH as u64);
        push_str(&mut m, ")");
        proof {
            reveal_strlit("SVG path `d` attribute too large: ");
            reveal_strlit(" bytes (limit ");
            reveal_strlit(")");
            assert(m@ =~= too_long_message(d.len() as nat));
        }
        return Err(Error::SvgPath(m));
    }
    let tokens = tokenize_path_data(d);
    match plan_tokens(&tokens) {
        Some(p) => {
            proof {
                if regex_captures_spec(PATH_TOKEN_PATTERN@, d@) is None {
                    assert(tokens_model(tokens@) =~= seq![]);
                    assert(plan_spec(seq![]) == Some((Seq::<PathStep<Seq<Seq<char>>>>::empty(), PlanEnd::Done)));
                    assert(steps_model(p.steps@).len() == 0);
                }
            }
            Ok(p)
        },
        None => {
            let m = "SVG path data has numbers before any command, or a moveto with one coordinate".to_owned();
            proof {
                if regex_captures_spec(PATH_TOKEN_PATTERN@, d@) is None {
                    assert(tokens_model(tokens@) =~= seq![]);
                }
            }
            Err(Error::SvgPath(m))
        },
    }
}

} // verus!
