//! The operand stack of the PGF interpreter, with the arrays being built.
use vstd::prelude::*;

use crate::parser::lexer::{Token, TokenType};

verus! {

/// Most values the operand stack holds; further values are dropped.
pub const MAX_STACK_DEPTH: usize = 10_000;

/// Most arrays open at once; further `[` are ignored.
pub const MAX_ARRAY_DEPTH: usize = 100;

/// An operand. A number keeps the text it was written as.
pub enum Value {
    Number(String),
    String(String),
    Name(String),
    Array(Vec<Value>),
    Boolean(bool),
    Null,
}

/// An operand as a mathematical value.
pub enum ValueModel {
    Number(Seq<char>),
    String(Seq<char>),
    Name(Seq<char>),
    Array(Seq<ValueModel>),
    Boolean(bool),
    Null,
}

impl Value {
    pub open spec fn model(self) -> ValueModel
        decreases self,
    {
        match self {
            Value::Number(s) => ValueModel::Number(s@),
            Value::String(s) => ValueModel::String(s@),
            Value::Name(s) => ValueModel::Name(s@),
            Value::Array(v) => ValueModel::Array(
                Seq::new(
                    v@.len(),
                    |i: int|
                        if 0 <= i < v@.len() {
                            proof {
                                assert(decreases_to!(v => v@));
                                assert(decreases_to!(v@ => v@[i]));
                            }
                            v@[i].model()
                        } else {
                            ValueModel::Null
                        },
                ),
            ),
            Value::Boolean(b) => ValueModel::Boolean(b),
            Value::Null => ValueModel::Null,
        }
    }
}

/// The models of a list of operands.
pub open spec fn models(s: Seq<Value>) -> Seq<ValueModel> {
    s.map_values(|v: Value| v.model())
}

/// A copy of `v`.
pub fn copy_value(v: &Value) -> (r: Value)
    ensures
        r.model() == v.model(),
    decreases v,
{
    match v {
        Value::Number(s) => Value::Number(s.clone()),
        Value::String(s) => Value::String(s.clone()),
        Value::Name(s) => Value::Name(s.clone()),
        Value::Array(items) => {
            let mut out: Vec<Value> = Vec::new();
            let mut i: usize = 0;
            while i < items.len()
                invariant
                    *v == Value::Array(*items),
                    i <= items@.len(),
                    out@.len() == i,
                    forall|j: int| 0 <= j < i ==> (#[trigger] out@[j]).model() == items@[j].model(),
                decreases items.len() - i,
            {
                proof {
                    assert(decreases_to!(*v => (*v)->Array_0));
                    assert(decreases_to!(*items => items@));
                    assert(decreases_to!(items@ => items@[i as int]));
                }
                let c = copy_value(&items[i]);
                out.push(c);
                i += 1;
            }
            let r = Value::Array(out);
            proof {
                let a = r.model()->Array_0;
                let b = v.model()->Array_0;
                assert(a.len() == b.len());
                assert forall|j: int| 0 <= j < a.len() implies a[j] == b[j] by {
                    assert(a[j] == out@[j].model());
                    assert(b[j] == items@[j].model());
                }
                assert(a =~= b);
            }
            r
        },
        Value::Boolean(b) => Value::Boolean(*b),
        Value::Null => Value::Null,
    }
}

proof fn lemma_models_push(s: Seq<Value>, v: Value)
    ensures
        models(s.push(v)) =~= models(s).push(v.model()),
{
    assert forall|j: int| 0 <= j < s.len() + 1 implies models(s.push(v))[j] == models(s).push(
        v.model(),
    )[j] by {
        if j < s.len() {
            assert(s.push(v)[j] == s[j]);
        }
    }
}

/// `s` with `v` on top, unless `s` is full.
pub open spec fn push_bounded(s: Seq<ValueModel>, v: ValueModel) -> Seq<ValueModel> {
    if s.len() >= MAX_STACK_DEPTH {
        s
    } else {
        s.push(v)
    }
}

/// The stack after the open arrays `a` are closed, innermost first, each
/// pushed as one operand.
pub open spec fn flush_spec(s: Seq<ValueModel>, a: Seq<Seq<ValueModel>>) -> Seq<ValueModel>
    decreases a.len(),
{
    if a.len() == 0 {
        s
    } else {
        flush_spec(push_bounded(s, ValueModel::Array(a.last())), a.drop_last())
    }
}

/// The stack after `n` values are popped, and the values in stack order;
/// missing values are `Null`.
pub open spec fn pop_n_spec(s: Seq<ValueModel>, n: nat) -> (Seq<ValueModel>, Seq<ValueModel>) {
    let k = if n <= s.len() {
        n as int
    } else {
        s.len() as int
    };
    (
        s.take(s.len() - k),
        Seq::new((n - k) as nat, |i: int| ValueModel::Null) + s.skip(s.len() - k),
    )
}

pub proof fn lemma_array_model(v: Vec<Value>)
    ensures
        Value::Array(v).model() == ValueModel::Array(models(v@)),
{
    let a = Value::Array(v).model()->Array_0;
    assert forall|j: int| 0 <= j < v@.len() implies a[j] == models(v@)[j] by {
        assert(a[j] == v@[j].model());
    }
    assert(a =~= models(v@));
}

/// The operand a number, string or name token stands for.
pub open spec fn operand_of(t: TokenType, text: Seq<char>) -> ValueModel {
    match t {
        TokenType::Number => ValueModel::Number(text),
        TokenType::String => ValueModel::String(text),
        _ => ValueModel::Name(text),
    }
}

/// `a` with `v` added to its last array.
pub open spec fn add_to_last(a: Seq<Seq<ValueModel>>, v: ValueModel) -> Seq<Seq<ValueModel>> {
    a.update(a.len() - 1, a.last().push(v))
}

/// The stack and open arrays after a token: an operand goes into the
/// innermost open array, else onto the stack; `[` opens an array unless
/// [`MAX_ARRAY_DEPTH`] are open; `]` closes the innermost one into the one
/// around it, or onto the stack; an operator first closes every open array
/// onto the stack ([`flush_spec`]); other tokens change nothing.
pub open spec fn feed_spec(s: Seq<ValueModel>, a: Seq<Seq<ValueModel>>, t: TokenType, text: Seq<char>) -> (
    Seq<ValueModel>,
    Seq<Seq<ValueModel>>,
) {
    match t {
        TokenType::Number | TokenType::String | TokenType::Name => {
            let v = operand_of(t, text);
            if a.len() == 0 {
                (push_bounded(s, v), a)
            } else {
                (s, add_to_last(a, v))
            }
        },
        TokenType::ArrayStart => if a.len() >= MAX_ARRAY_DEPTH {
            (s, a)
        } else {
            (s, a.push(seq![]))
        },
        TokenType::ArrayEnd => if a.len() == 0 {
            (s, a)
        } else {
            let arr = ValueModel::Array(a.last());
            let rest = a.drop_last();
            if rest.len() > 0 {
                (s, add_to_last(rest, arr))
            } else {
                (push_bounded(s, arr), rest)
            }
        },
        TokenType::Operator => (flush_spec(s, a), seq![]),
        _ => (s, a),
    }
}

/// What is pushed is what the next pop gives back, and the pop leaves the
/// stack as it was, as long as the stack was not full.
pub proof fn push_pop_law(s: Seq<ValueModel>, v: ValueModel)
    requires
        s.len() < MAX_STACK_DEPTH,
    ensures
        push_bounded(s, v).len() > 0,
        push_bounded(s, v).last() == v,
        push_bounded(s, v).drop_last() == s,
{
    assert(s.push(v).drop_last() =~= s);
}

/// A full stack ignores a push.
pub proof fn full_stack_law(s: Seq<ValueModel>, v: ValueModel)
    requires
        s.len() >= MAX_STACK_DEPTH,
    ensures
        push_bounded(s, v) == s,
{
}

proof fn lemma_flush_bound(s: Seq<ValueModel>, a: Seq<Seq<ValueModel>>)
    requires
        s.len() <= MAX_STACK_DEPTH,
    ensures
        flush_spec(s, a).len() <= MAX_STACK_DEPTH,
    decreases a.len(),
{
    if a.len() > 0 {
        lemma_flush_bound(push_bounded(s, ValueModel::Array(a.last())), a.drop_last());
    }
}

/// Whatever token comes or value is pushed, the stack never holds more
/// than [`MAX_STACK_DEPTH`] operands and no more than [`MAX_ARRAY_DEPTH`]
/// arrays are open at once.
pub proof fn depth_limits_law(
    s: Seq<ValueModel>,
    a: Seq<Seq<ValueModel>>,
    t: TokenType,
    text: Seq<char>,
    v: ValueModel,
)
    requires
        s.len() <= MAX_STACK_DEPTH,
        a.len() <= MAX_ARRAY_DEPTH,
    ensures
        feed_spec(s, a, t, text).0.len() <= MAX_STACK_DEPTH,
        feed_spec(s, a, t, text).1.len() <= MAX_ARRAY_DEPTH,
        push_bounded(s, v).len() <= MAX_STACK_DEPTH,
{
    lemma_flush_bound(s, a);
}

/// Popping `n` operands takes them off the top: what stays and what comes
/// out, in stack order, make up the stack again, once the `Null`s that
/// stand for missing operands are left out.
pub proof fn pop_n_law(s: Seq<ValueModel>, n: nat)
    ensures
        pop_n_spec(s, n).1.len() == n,
        n <= s.len() ==> pop_n_spec(s, n).0 + pop_n_spec(s, n).1 == s,
        n > s.len() ==> pop_n_spec(s, n).0.len() == 0 && pop_n_spec(s, n).1.skip(n - s.len()) == s,
{
    let (rest, out) = pop_n_spec(s, n);
    if n <= s.len() {
        assert(rest + out =~= s);
    } else {
        assert(out.skip(n - s.len()) =~= s);
    }
}

/// What the interpreter does with a token after the stack has taken it.
pub enum Step {
    /// The end of the input: stop reading.
    Stop,
    /// The token was an operand or a bracket: go on.
    Continue,
    /// Run this operator.
    Operator(String),
    Comment(String),
    PseudoComment(String),
}

impl Step {
    /// What the interpreter does after a token of kind `t` and text `text`.
    pub open spec fn matches_token(&self, t: TokenType, text: Seq<char>) -> bool {
        match t {
            TokenType::Eof => *self is Stop,
            TokenType::Operator => *self matches Step::Operator(x) && x@ == text,
            TokenType::Comment => *self matches Step::Comment(x) && x@ == text,
            TokenType::PseudoComment => *self matches Step::PseudoComment(x) && x@ == text,
            _ => *self is Continue,
        }
    }
}

/// Operands waiting for operators, and the arrays being built.
pub struct OperandStack {
    stack: Vec<Value>,
    arrays: Vec<Vec<Value>>,
}

impl OperandStack {
    /// The operands, bottom first.
    pub closed spec fn stack_model(&self) -> Seq<ValueModel> {
        models(self.stack@)
    }

    /// The open arrays, outermost first, each with its items so far.
    pub closed spec fn arrays_model(&self) -> Seq<Seq<ValueModel>> {
        self.arrays@.map_values(|a: Vec<Value>| models(a@))
    }

    pub fn new() -> (r: Self)
        ensures
            r.stack_model() == Seq::<ValueModel>::empty(),
            r.arrays_model() == Seq::<Seq<ValueModel>>::empty(),
    {
        let r = OperandStack { stack: Vec::new(), arrays: Vec::new() };
        proof {
            assert(r.stack_model() =~= Seq::<ValueModel>::empty());
            assert(r.arrays_model() =~= Seq::<Seq<ValueModel>>::empty());
        }
        r
    }

    /// The number of operands.
    pub fn depth(&self) -> (n: usize)
        ensures
            n == self.stack_model().len(),
    {
        self.stack.len()
    }

    /// Whether an array is being built.
    pub fn in_array(&self) -> (b: bool)
        ensures
            b == (self.arrays_model().len() > 0),
    {
        self.arrays.len() > 0
    }

    /// Pushes `v` unless the stack is full.
    pub fn push(&mut self, v: Value)
        ensures
            final(self).stack_model() == push_bounded(old(self).stack_model(), v.model()),
            final(self).arrays_model() == old(self).arrays_model(),
    {
        if self.stack.len() >= MAX_STACK_DEPTH {
            return;
        }
        let ghost before = self.stack@;
        self.stack.push(v);
        proof {
            lemma_models_push(before, v);
        }
    }

    /// Pops the top operand, or gives `Null` on an empty stack.
    pub fn pop(&mut self) -> (v: Value)
        ensures
            old(self).stack_model().len() > 0 ==> v.model() == old(self).stack_model().last()
                && final(self).stack_model() == old(self).stack_model().drop_last(),
            old(self).stack_model().len() == 0 ==> v.model() == ValueModel::Null
                && final(self).stack_model() == old(self).stack_model(),
            final(self).arrays_model() == old(self).arrays_model(),
    {
        let ghost before = self.stack@;
        match self.stack.pop() {
            Some(v) => {
                proof {
                    assert(models(self.stack@) =~= models(before).drop_last());
                }
                v
            },
            None => Value::Null,
        }
    }

    /// Pops `n` operands and gives them bottom first; missing ones are
    /// `Null` and come first.
    pub fn pop_n(&mut self, n: usize) -> (r: Vec<Value>)
        ensures
            (final(self).stack_model(), models(r@)) == pop_n_spec(old(self).stack_model(), n as nat),
            final(self).arrays_model() == old(self).arrays_model(),
    {
        let ghost s0 = self.stack_model();
        let mut popped: Vec<Value> = Vec::new();
        let mut i: usize = 0;
        while i < n
            invariant
                i <= n,
                self.arrays_model() == old(self).arrays_model(),
                s0 == old(self).stack_model(),
                popped@.len() == i,
                ({
                    let k = if i <= s0.len() {
                        i as int
                    } else {
                        s0.len() as int
                    };
                    &&& self.stack_model() == s0.take(s0.len() - k)
                    &&& forall|j: int|
                        0 <= j < i ==> (#[trigger] popped@[j]).model() == if j < k {
                            s0[s0.len() - 1 - j]
                        } else {
                            ValueModel::Null
                        }
                }),
            decreases n - i,
        {
            let ghost st = self.stack_model();
            let v = self.pop();
            popped.push(v);
            proof {
                if i < s0.len() {
                    assert(self.stack_model() =~= s0.take(s0.len() - (i + 1)));
                }
            }
            i += 1;
        }
        let mut r: Vec<Value> = Vec::new();
        let mut j: usize = n;
        while j > 0
            invariant
                j <= n,
                popped@.len() == n,
                r@.len() == n - j,
                forall|q: int| 0 <= q < n - j ==> (#[trigger] r@[q]).model() == popped@[n - 1 - q].model(),
            decreases j,
        {
            j -= 1;
            let v = copy_value(&popped[j]);
            r.push(v);
        }
        proof {
            let k = if n <= s0.len() {
                n as int
            } else {
                s0.len() as int
            };
            let expect = pop_n_spec(s0, n as nat).1;
            assert forall|q: int| 0 <= q < n implies models(r@)[q] == expect[q] by {
                let p = n - 1 - q;
                assert(r@[q].model() == popped@[p].model());
                if q < n - k {
                    assert(p >= k);
                } else {
                    assert(p < k);
                    assert(expect[q] == s0.skip(s0.len() - k)[q - (n - k)]);
                }
            }
            assert(models(r@) =~= expect);
        }
        r
    }

    /// Removes every operand and gives them bottom first; open arrays stay.
    pub fn take_all(&mut self) -> (r: Vec<Value>)
        ensures
            models(r@) == old(self).stack_model(),
            final(self).stack_model() == Seq::<ValueModel>::empty(),
            final(self).arrays_model() == old(self).arrays_model(),
    {
        let mut r: Vec<Value> = Vec::new();
        std::mem::swap(&mut r, &mut self.stack);
        proof {
            assert(models(self.stack@) =~= Seq::<ValueModel>::empty());
        }
        r
    }

    /// Pushes a copy of the top operand, if there is one.
    pub fn dup(&mut self)
        ensures
            old(self).stack_model().len() == 0 ==> final(self).stack_model() == old(self).stack_model(),
            old(self).stack_model().len() > 0 ==> final(self).stack_model() == push_bounded(
                old(self).stack_model(),
                old(self).stack_model().last(),
            ),
            final(self).arrays_model() == old(self).arrays_model(),
    {
        let n = self.stack.len();
        if n > 0 {
            let v = copy_value(&self.stack[n - 1]);
            self.push(v);
        }
    }

    /// Swaps the two top operands, if there are two.
    pub fn exch(&mut self)
        ensures
            old(self).stack_model().len() < 2 ==> final(self).stack_model() == old(self).stack_model(),
            old(self).stack_model().len() >= 2 ==> final(self).stack_model() == old(self).stack_model().update(
                old(self).stack_model().len() - 1,
                old(self).stack_model()[old(self).stack_model().len() - 2],
            ).update(
                old(self).stack_model().len() - 2,
                old(self).stack_model()[old(self).stack_model().len() - 1],
            ),
            final(self).arrays_model() == old(self).arrays_model(),
    {
        let n = self.stack.len();
        if n >= 2 {
            let ghost before = self.stack@;
            let top = self.stack.pop().unwrap();
            let below = self.stack.pop().unwrap();
            self.stack.push(top);
            self.stack.push(below);
            proof {
                assert(self.stack@ =~= before.update(n - 1, before[n - 2]).update(n - 2, before[n - 1]));
                assert(models(self.stack@) =~= models(before).update(
                    n - 1,
                    models(before)[n - 2],
                ).update(n - 2, models(before)[n - 1]));
            }
        }
    }

    /// Adds `v` to the innermost open array.
    fn add_to_array(&mut self, v: Value)
        requires
            old(self).arrays_model().len() > 0,
        ensures
            final(self).arrays_model() == add_to_last(old(self).arrays_model(), v.model()),
            final(self).stack_model() == old(self).stack_model(),
    {
        let ghost a0 = self.arrays@;
        let mut last = self.arrays.pop().unwrap();
        let ghost l0 = last@;
        last.push(v);
        proof {
            lemma_models_push(l0, v);
        }
        self.arrays.push(last);
        proof {
            assert(self.arrays_model() =~= add_to_last(a0.map_values(|a: Vec<Value>| models(a@)), v.model()));
        }
    }

    /// Closes every open array onto the stack, innermost first.
    fn flush(&mut self)
        ensures
            final(self).stack_model() == flush_spec(old(self).stack_model(), old(self).arrays_model()),
            final(self).arrays_model() == Seq::<Seq<ValueModel>>::empty(),
    {
        while self.arrays.len() > 0
            invariant
                flush_spec(self.stack_model(), self.arrays_model()) == flush_spec(
                    old(self).stack_model(),
                    old(self).arrays_model(),
                ),
            decreases self.arrays@.len(),
        {
            let ghost a0 = self.arrays@;
            let arr = self.arrays.pop().unwrap();
            proof {
                lemma_array_model(arr);
                assert(self.arrays_model() =~= a0.map_values(|a: Vec<Value>| models(a@)).drop_last());
            }
            self.push(Value::Array(arr));
        }
        proof {
            assert(self.arrays_model() =~= Seq::<Seq<ValueModel>>::empty());
        }
    }

    /// Takes one token: operands and brackets build the stack (see
    /// [`feed_spec`]); the result says whether to stop, go on, run an
    /// operator or read a comment.
    pub fn feed(&mut self, token: &Token) -> (step: Step)
        ensures
            (final(self).stack_model(), final(self).arrays_model()) == feed_spec(
                old(self).stack_model(),
                old(self).arrays_model(),
                token.token_type,
                token.value@,
            ),
            step.matches_token(token.token_type, token.value@),
    {
        match token.token_type {
            TokenType::Eof => Step::Stop,
            TokenType::Number | TokenType::String | TokenType::Name => {
                let text = token.value.clone();
                let v = match token.token_type {
                    TokenType::Number => Value::Number(text),
                    TokenType::String => Value::String(text),
                    _ => Value::Name(text),
                };
                if self.arrays.len() > 0 {
                    self.add_to_array(v);
                } else {
                    self.push(v);
                }
                Step::Continue
            },
            TokenType::ArrayStart => {
                if self.arrays.len() < MAX_ARRAY_DEPTH {
                    let ghost a0 = self.arrays@;
                    let fresh: Vec<Value> = Vec::new();
                    proof {
                        assert(models(fresh@) =~= Seq::<ValueModel>::empty());
                    }
                    self.arrays.push(fresh);
                    proof {
                        assert(self.arrays_model() =~= a0.map_values(|a: Vec<Value>| models(a@)).push(seq![]));
                    }
                }
                Step::Continue
            },
            TokenType::ArrayEnd => {
                if self.arrays.len() > 0 {
                    let ghost a0 = self.arrays@;
                    let arr = self.arrays.pop().unwrap();
                    proof {
                        lemma_array_model(arr);
                        assert(self.arrays_model() =~= a0.map_values(|a: Vec<Value>| models(a@)).drop_last());
                    }
                    if self.arrays.len() > 0 {
                        self.add_to_array(Value::Array(arr));
                    } else {
                        self.push(Value::Array(arr));
                    }
                }
                Step::Continue
            },
            TokenType::Operator => {
                self.flush();
                Step::Operator(token.value.clone())
            },
            TokenType::Comment => Step::Comment(token.value.clone()),
            TokenType::PseudoComment => Step::PseudoComment(token.value.clone()),
        }
    }
}

} // verus!
