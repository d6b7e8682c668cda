//! Floating-point numbers, held as IEEE 754 binary64 bit patterns.
//!
//! What can be decided from the bits alone is decided here: sign, zero, NaN,
//! order. What takes the host's arithmetic (reading a literal, converting an
//! integer, the four operations, writing a number out) is looked up in a
//! table of facts that the host supplies; where the table lacks a fact, the
//! evaluator stops and names the query.

use vstd::prelude::*;

verus! {

/// An arithmetic operation on two floating-point numbers.
#[derive(Debug, Clone, Copy, PartialEq, Eq, Structural)]
pub enum FloatOp {
    Add,
    Subtract,
    Multiply,
    Divide,
}

/// A question about floating-point numbers that the bits do not answer.
#[derive(Debug, Clone, PartialEq)]
pub enum FloatQuery {
    /// The number that a literal denotes.
    Literal(String),
    /// The number nearest to an integer.
    FromInteger(i64),
    /// The result of an operation.
    Arithmetic { op: FloatOp, left: u64, right: u64 },
    /// The text of a number.
    Text(u64),
}

/// A query together with its answer.
#[derive(Debug, Clone, PartialEq)]
pub enum FloatFact {
    Literal { text: String, bits: u64 },
    FromInteger { value: i64, bits: u64 },
    Arithmetic { op: FloatOp, left: u64, right: u64, bits: u64 },
    Text { bits: u64, text: String },
}

pub ghost enum FloatQueryView {
    Literal(Seq<char>),
    FromInteger(i64),
    Arithmetic { op: FloatOp, left: u64, right: u64 },
    Text(u64),
}

pub ghost enum FloatFactView {
    Literal { text: Seq<char>, bits: u64 },
    FromInteger { value: i64, bits: u64 },
    Arithmetic { op: FloatOp, left: u64, right: u64, bits: u64 },
    Text { bits: u64, text: Seq<char> },
}

impl View for FloatQuery {
    type V = FloatQueryView;

    open spec fn view(&self) -> FloatQueryView {
        match *self {
            FloatQuery::Literal(text) => FloatQueryView::Literal(text@),
            FloatQuery::FromInteger(value) => FloatQueryView::FromInteger(value),
            FloatQuery::Arithmetic { op, left, right } => FloatQueryView::Arithmetic {
                op,
                left,
                right,
            },
            FloatQuery::Text(bits) => FloatQueryView::Text(bits),
        }
    }
}

impl View for FloatFact {
    type V = FloatFactView;

    open spec fn view(&self) -> FloatFactView {
        match *self {
            FloatFact::Literal { text, bits } => FloatFactView::Literal { text: text@, bits },
            FloatFact::FromInteger { value, bits } => FloatFactView::FromInteger { value, bits },
            FloatFact::Arithmetic { op, left, right, bits } => FloatFactView::Arithmetic {
                op,
                left,
                right,
                bits,
            },
            FloatFact::Text { bits, text } => FloatFactView::Text { bits, text: text@ },
        }
    }
}

/// The sign bit.
pub open spec fn sign_bit() -> u64 {
    0x8000_0000_0000_0000
}

/// The bits of positive infinity: every larger magnitude is a NaN.
pub open spec fn infinity_bits() -> u64 {
    0x7ff0_0000_0000_0000
}

/// The bits of the machine epsilon, 2 to the power of -52.
pub open spec fn epsilon_bits() -> u64 {
    0x3cb0_0000_0000_0000
}

/// The bits without the sign.
pub open spec fn magnitude(bits: u64) -> u64 {
    if bits >= sign_bit() {
        (bits - sign_bit()) as u64
    } else {
        bits
    }
}

pub open spec fn is_negative(bits: u64) -> bool {
    bits >= sign_bit()
}

pub open spec fn is_nan(bits: u64) -> bool {
    magnitude(bits) > infinity_bits()
}

/// Positive or negative zero.
pub open spec fn is_zero(bits: u64) -> bool {
    magnitude(bits) == 0
}

/// The number with the opposite sign.
pub open spec fn negated(bits: u64) -> u64 {
    if bits >= sign_bit() {
        (bits - sign_bit()) as u64
    } else {
        (bits + sign_bit()) as u64
    }
}

/// An integer that orders the numbers that are no NaN as their values do.
pub open spec fn order_key(bits: u64) -> int {
    if is_negative(bits) {
        -(magnitude(bits) as int)
    } else {
        magnitude(bits) as int
    }
}

/// `a < b` as IEEE 754 has it: false where either is a NaN.
pub open spec fn less(a: u64, b: u64) -> bool {
    !is_nan(a) && !is_nan(b) && order_key(a) < order_key(b)
}

/// `a <= b` as IEEE 754 has it: false where either is a NaN.
pub open spec fn less_or_equal(a: u64, b: u64) -> bool {
    !is_nan(a) && !is_nan(b) && order_key(a) <= order_key(b)
}

/// Whether the absolute value is below the machine epsilon.
pub open spec fn below_epsilon(bits: u64) -> bool {
    magnitude(bits) < epsilon_bits()
}

/// Whether the absolute value is at least the machine epsilon: false of a
/// NaN.
pub open spec fn at_least_epsilon(bits: u64) -> bool {
    !is_nan(bits) && magnitude(bits) >= epsilon_bits()
}

pub fn float_magnitude(bits: u64) -> (m: u64)
    ensures
        m == magnitude(bits),
{
    if bits >= 0x8000_0000_0000_0000 {
        bits - 0x8000_0000_0000_0000
    } else {
        bits
    }
}

pub fn float_is_nan(bits: u64) -> (r: bool)
    ensures
        r == is_nan(bits),
{
    float_magnitude(bits) > 0x7ff0_0000_0000_0000
}

pub fn float_is_zero(bits: u64) -> (r: bool)
    ensures
        r == is_zero(bits),
{
    float_magnitude(bits) == 0
}

pub fn float_negated(bits: u64) -> (r: u64)
    ensures
        r == negated(bits),
{
    if bits >= 0x8000_0000_0000_0000 {
        bits - 0x8000_0000_0000_0000
    } else {
        bits + 0x8000_0000_0000_0000
    }
}

pub fn float_less(a: u64, b: u64) -> (r: bool)
    ensures
        r == less(a, b),
{
    if float_is_nan(a) || float_is_nan(b) {
        return false;
    }
    let ma = float_magnitude(a);
    let mb = float_magnitude(b);
    let na = a >= 0x8000_0000_0000_0000;
    let nb = b >= 0x8000_0000_0000_0000;
    if na && nb {
        mb < ma
    } else if na {
        !(ma == 0 && mb == 0)
    } else if nb {
        false
    } else {
        ma < mb
    }
}

pub fn float_less_or_equal(a: u64, b: u64) -> (r: bool)
    ensures
        r == less_or_equal(a, b),
{
    if float_is_nan(a) || float_is_nan(b) {
        return false;
    }
    let ma = float_magnitude(a);
    let mb = float_magnitude(b);
    let na = a >= 0x8000_0000_0000_0000;
    let nb = b >= 0x8000_0000_0000_0000;
    if na && nb {
        mb <= ma
    } else if na {
        true
    } else if nb {
        ma == 0 && mb == 0
    } else {
        ma <= mb
    }
}

pub fn float_below_epsilon(bits: u64) -> (r: bool)
    ensures
        r == below_epsilon(bits),
{
    float_magnitude(bits) < 0x3cb0_0000_0000_0000
}

pub fn float_at_least_epsilon(bits: u64) -> (r: bool)
    ensures
        r == at_least_epsilon(bits),
{
    !float_is_nan(bits) && float_magnitude(bits) >= 0x3cb0_0000_0000_0000
}

/// The number that a fact gives for a query, if the fact answers it.
pub open spec fn fact_bits(fact: FloatFactView, query: FloatQueryView) -> Option<u64> {
    match (fact, query) {
        (FloatFactView::Literal { text, bits }, FloatQueryView::Literal(asked)) => if text
            == asked {
            Some(bits)
        } else {
            None
        },
        (FloatFactView::FromInteger { value, bits }, FloatQueryView::FromInteger(asked)) => if value
            == asked {
            Some(bits)
        } else {
            None
        },
        (
            FloatFactView::Arithmetic { op, left, right, bits },
            FloatQueryView::Arithmetic { op: asked_op, left: asked_left, right: asked_right },
        ) => if op == asked_op && left == asked_left && right == asked_right {
            Some(bits)
        } else {
            None
        },
        _ => None,
    }
}

/// The text that a fact gives for a number, if the fact is about it.
pub open spec fn fact_text(fact: FloatFactView, bits: u64) -> Option<Seq<char>> {
    match fact {
        FloatFactView::Text { bits: of, text } => if of == bits {
            Some(text)
        } else {
            None
        },
        _ => None,
    }
}

/// The answer of the first fact from `from` on that answers the query.
pub open spec fn known_bits_from(facts: Seq<FloatFactView>, query: FloatQueryView, from: int) -> Option<
    u64,
>
    decreases facts.len() - from,
{
    if from < 0 || from >= facts.len() {
        None
    } else if fact_bits(facts[from], query) is Some {
        fact_bits(facts[from], query)
    } else {
        known_bits_from(facts, query, from + 1)
    }
}

/// The number that the table gives for a query.
pub open spec fn known_bits(facts: Seq<FloatFactView>, query: FloatQueryView) -> Option<u64> {
    known_bits_from(facts, query, 0)
}

/// The text of the first fact from `from` on that is about the number.
pub open spec fn known_text_from(facts: Seq<FloatFactView>, bits: u64, from: int) -> Option<
    Seq<char>,
>
    decreases facts.len() - from,
{
    if from < 0 || from >= facts.len() {
        None
    } else if fact_text(facts[from], bits) is Some {
        fact_text(facts[from], bits)
    } else {
        known_text_from(facts, bits, from + 1)
    }
}

/// The text that the table gives for a number.
pub open spec fn known_text(facts: Seq<FloatFactView>, bits: u64) -> Option<Seq<char>> {
    known_text_from(facts, bits, 0)
}

/// The values of a sequence of facts.
pub open spec fn facts_view(facts: Seq<FloatFact>) -> Seq<FloatFactView> {
    facts.map_values(|f: FloatFact| f@)
}

impl FloatQuery {
    /// A copy of the query.
    pub fn duplicate(&self) -> (copy: FloatQuery)
        ensures
            copy@ == self@,
    {
        match self {
            FloatQuery::Literal(text) => FloatQuery::Literal(text.clone()),
            FloatQuery::FromInteger(value) => FloatQuery::FromInteger(*value),
            FloatQuery::Arithmetic { op, left, right } => FloatQuery::Arithmetic {
                op: *op,
                left: *left,
                right: *right,
            },
            FloatQuery::Text(bits) => FloatQuery::Text(*bits),
        }
    }
}

impl FloatFact {
    /// The number that this fact gives for `query`, if it answers it.
    pub fn bits_for(&self, query: &FloatQuery) -> (r: Option<u64>)
        ensures
            r == fact_bits(self@, query@),
    {
        match (self, query) {
            (FloatFact::Literal { text, bits }, FloatQuery::Literal(asked)) => {
                if *text == *asked {
                    Some(*bits)
                } else {
                    None
                }
            },
            (FloatFact::FromInteger { value, bits }, FloatQuery::FromInteger(asked)) => {
                if *value == *asked {
                    Some(*bits)
                } else {
                    None
                }
            },
            (
                FloatFact::Arithmetic { op, left, right, bits },
                FloatQuery::Arithmetic { op: asked_op, left: asked_left, right: asked_right },
            ) => {
                if *op == *asked_op && *left == *asked_left && *right == *asked_right {
                    Some(*bits)
                } else {
                    None
                }
            },
            _ => None,
        }
    }

    /// The text that this fact gives for the number `bits`, if it is about it.
    pub fn text_for(&self, bits: u64) -> (r: Option<String>)
        ensures
            match r {
                Some(t) => fact_text(self@, bits) == Some(t@),
                None => fact_text(self@, bits) is None,
            },
    {
        match self {
            FloatFact::Text { bits: of, text } => {
                if *of == bits {
                    Some(text.clone())
                } else {
                    None
                }
            },
            _ => None,
        }
    }
}

/// The facts about floating-point numbers that the host has supplied.
pub struct FloatTable {
    facts: Vec<FloatFact>,
}

impl View for FloatTable {
    type V = Seq<FloatFactView>;

    closed spec fn view(&self) -> Seq<FloatFactView> {
        facts_view(self.facts@)
    }
}

impl FloatTable {
    /// A table without facts.
    pub fn new() -> (table: Self)
        ensures
            table@ == Seq::<FloatFactView>::empty(),
    {
        let table = FloatTable { facts: Vec::new() };
        assert(table@ =~= Seq::<FloatFactView>::empty());
        table
    }

    /// Adds a fact after those already held.
    pub fn record(&mut self, fact: FloatFact)
        ensures
            final(self)@ == old(self)@.push(fact@),
    {
        self.facts.push(fact);
        assert(final(self)@ =~= old(self)@.push(fact@));
    }

    /// The number of facts held.
    pub fn len(&self) -> (n: usize)
        ensures
            n == self@.len(),
    {
        self.facts.len()
    }

    /// The number that the table gives for `query`.
    pub fn bits(&self, query: &FloatQuery) -> (r: Option<u64>)
        ensures
            r == known_bits(self@, query@),
    {
        let mut i: usize = 0;
        while i < self.facts.len()
            invariant
                i <= self.facts.len(),
                known_bits(self@, query@) == known_bits_from(self@, query@, i as int),
            decreases self.facts.len() - i,
        {
            match self.facts[i].bits_for(query) {
                Some(bits) => {
                    return Some(bits);
                },
                None => {},
            }
            i += 1;
        }
        None
    }

    /// The text that the table gives for the number `bits`.
    pub fn text(&self, bits: u64) -> (r: Option<String>)
        ensures
            match r {
                Some(t) => known_text(self@, bits) == Some(t@),
                None => known_text(self@, bits) is None,
            },
    {
        let mut i: usize = 0;
        while i < self.facts.len()
            invariant
                i <= self.facts.len(),
                known_text(self@, bits) == known_text_from(self@, bits, i as int),
            decreases self.facts.len() - i,
        {
            match self.facts[i].text_for(bits) {
                Some(text) => {
                    return Some(text);
                },
                None => {},
            }
            i += 1;
        }
        None
    }
}

} // verus!
