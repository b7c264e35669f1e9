//! Values and comparisons that a hazard's trigger is made of.

use std::borrow::Cow;

use vstd::prelude::*;
use vstd::std_specs::convert::{FromSpecImpl, TryFromSpecImpl};

use crate::text::clone_text;

verus! {

/// The largest exponent field of a double; it marks infinities and NaN.
pub const F64_EXPONENT_ONES: u64 = 0x7ff;

/// Whether the IEEE-754 double with these bits is finite: neither infinite
/// nor NaN, which are the patterns whose eleven exponent bits are all set.
pub open spec fn f64_bits_finite(bits: u64) -> bool {
    (bits >> 52) & F64_EXPONENT_ONES != F64_EXPONENT_ONES
}

/// A double-precision number, held by its IEEE-754 bit pattern.
#[derive(Debug, Clone, Copy, PartialEq, Eq, Hash)]
pub struct F64Bits(pub u64);

impl F64Bits {
    /// Whether the number is neither infinite nor NaN.
    pub fn is_finite(&self) -> (finite: bool)
        ensures
            finite == f64_bits_finite(self.0),
    {
        (self.0 >> 52) & F64_EXPONENT_ONES != F64_EXPONENT_ONES
    }
}

#[derive(Debug, Clone, Copy, PartialEq, Eq, Hash)]
enum Repr {
    PosInt(u64),
    NegInt(i64),
    Float(u64),
}

/// What a [`Number`] stands for: an integer, or a finite double by its bits.
pub enum NumberView {
    /// An integer between `i64::MIN` and `u64::MAX`.
    Int(int),
    /// The IEEE-754 bit pattern of a finite double.
    Float(u64),
}

/// A JSON number.
///
/// An integer stays an integer: a non-negative one is held as `u64`, a
/// negative one as `i64`. A double is held by its bits and is always finite.
#[derive(Debug, Clone, Copy, PartialEq, Eq, Hash)]
pub struct Number {
    repr: Repr,
}

impl View for Number {
    type V = NumberView;

    closed spec fn view(&self) -> NumberView {
        match self.repr {
            Repr::PosInt(n) => NumberView::Int(n as int),
            Repr::NegInt(n) => NumberView::Int(n as int),
            Repr::Float(bits) => NumberView::Float(bits),
        }
    }
}

impl Number {
    /// A negative integer is held as such, and a double is finite.
    #[verifier::type_invariant]
    pub closed spec fn well_formed(self) -> bool {
        match self.repr {
            Repr::PosInt(_) => true,
            Repr::NegInt(n) => n < 0,
            Repr::Float(bits) => f64_bits_finite(bits),
        }
    }

    /// The number that holds the integer `i`.
    pub closed spec fn of_int(i: int) -> Number {
        if i < 0 {
            Number { repr: Repr::NegInt(i as i64) }
        } else {
            Number { repr: Repr::PosInt(i as u64) }
        }
    }

    /// The number that holds the double with the given bits.
    pub closed spec fn of_f64_bits(bits: u64) -> Number {
        Number { repr: Repr::Float(bits) }
    }

    /// `of_int` and `of_f64_bits` build the numbers that their arguments name.
    pub broadcast proof fn lemma_view_of(i: int, bits: u64)
        ensures
            i64::MIN <= i <= u64::MAX ==> (#[trigger] Number::of_int(i))@ == NumberView::Int(i),
            (#[trigger] Number::of_f64_bits(bits))@ == NumberView::Float(bits),
    {
    }

    /// A number is known by what it stands for: numbers that are well formed
    /// and have the same view are the same number.
    pub proof fn lemma_view_injective(a: Number, b: Number)
        requires
            a.well_formed(),
            b.well_formed(),
            a@ == b@,
        ensures
            a == b,
    {
    }

    /// The number for a non-negative integer.
    pub fn from_u64(value: u64) -> (number: Number)
        ensures
            number == Number::of_int(value as int),
            number@ == NumberView::Int(value as int),
    {
        Number { repr: Repr::PosInt(value) }
    }

    /// The number for an integer of either sign.
    pub fn from_i64(value: i64) -> (number: Number)
        ensures
            number == Number::of_int(value as int),
            number@ == NumberView::Int(value as int),
    {
        if value < 0 {
            Number { repr: Repr::NegInt(value) }
        } else {
            Number { repr: Repr::PosInt(value as u64) }
        }
    }

    /// The number for a double, unless it is infinite or NaN.
    pub fn from_f64_bits(value: F64Bits) -> (number: Option<Number>)
        ensures
            number is Some <==> f64_bits_finite(value.0),
            number is Some ==> number.unwrap() == Number::of_f64_bits(value.0),
            number is Some ==> number.unwrap()@ == NumberView::Float(value.0),
    {
        if value.is_finite() {
            Some(Number { repr: Repr::Float(value.0) })
        } else {
            None
        }
    }

    /// The integer, if the number is one that is not negative.
    pub fn as_u64(&self) -> (value: Option<u64>)
        ensures
            value == (match self@ {
                NumberView::Int(i) if i >= 0 => Some(i as u64),
                _ => None,
            }),
    {
        proof {
            use_type_invariant(self);
        }
        match self.repr {
            Repr::PosInt(n) => Some(n),
            _ => None,
        }
    }

    /// The integer, if the number is one that fits in `i64`.
    pub fn as_i64(&self) -> (value: Option<i64>)
        ensures
            value == (match self@ {
                NumberView::Int(i) if i <= i64::MAX => Some(i as i64),
                _ => None,
            }),
    {
        proof {
            use_type_invariant(self);
        }
        match self.repr {
            Repr::PosInt(n) => if n <= i64::MAX as u64 {
                Some(n as i64)
            } else {
                None
            },
            Repr::NegInt(n) => Some(n),
            Repr::Float(_) => None,
        }
    }

    /// The bits of the double, if the number is one.
    pub fn as_f64_bits(&self) -> (value: Option<F64Bits>)
        ensures
            value == (match self@ {
                NumberView::Float(bits) => Some(F64Bits(bits)),
                _ => None,
            }),
            value matches Some(v) ==> f64_bits_finite(v.0),
    {
        proof {
            use_type_invariant(self);
        }
        match self.repr {
            Repr::Float(bits) => Some(F64Bits(bits)),
            _ => None,
        }
    }
}

/// An ordering or an inequality; equality is a [`Condition::Value`].
#[derive(Debug, Clone, Copy, Eq, Hash, PartialEq, Structural)]
pub enum Operation {
    /// Less than.
    Lt,
    /// Less than or equal to.
    Le,
    /// Not equal to.
    Ne,
    /// Greater than.
    Gt,
    /// Greater than or equal to.
    Ge,
}

/// The error for a double that is infinite or NaN, which JSON cannot hold.
#[derive(Debug, Default, Clone, Copy, PartialEq, Eq, Hash)]
pub struct InvalidFloat;

impl InvalidFloat {
    /// What went wrong, in words.
    pub fn message(&self) -> (text: &'static str)
        ensures
            text@ == "infinite or NaN are not valid JSON numbers"@,
    {
        "infinite or NaN are not valid JSON numbers"
    }
}

/// What a [`Value`] stands for.
pub enum ValueView {
    /// A truth value.
    Bool(bool),
    /// A number.
    Number(NumberView),
    /// A text.
    String(Seq<char>),
}

/// A scalar to compare with.
#[derive(Debug, Eq, Hash, PartialEq)]
pub enum Value {
    /// A boolean value.
    Bool(bool),
    /// A numeric value.
    Number(Number),
    /// A string value.
    String(Cow<'static, str>),
}

impl View for Value {
    type V = ValueView;

    open spec fn view(&self) -> ValueView {
        match self {
            Value::Bool(b) => ValueView::Bool(*b),
            Value::Number(n) => ValueView::Number(n@),
            Value::String(s) => ValueView::String(s@),
        }
    }
}

impl Clone for Value {
    fn clone(&self) -> (copy: Value)
        ensures
            copy@ == self@,
    {
        match self {
            Value::Bool(value) => Value::Bool(*value),
            Value::Number(value) => Value::Number(*value),
            Value::String(value) => Value::String(clone_text(value)),
        }
    }
}

impl From<bool> for Value {
    fn from(value: bool) -> (r: Value)
        ensures
            r@ == ValueView::Bool(value),
    {
        Value::Bool(value)
    }
}

impl FromSpecImpl<bool> for Value {
    open spec fn obeys_from_spec() -> bool {
        true
    }

    open spec fn from_spec(value: bool) -> Value {
        Value::Bool(value)
    }
}

impl From<String> for Value {
    fn from(value: String) -> (r: Value)
        ensures
            r@ == ValueView::String(value@),
    {
        Value::String(Cow::Owned(value))
    }
}

impl FromSpecImpl<String> for Value {
    open spec fn obeys_from_spec() -> bool {
        true
    }

    open spec fn from_spec(value: String) -> Value {
        Value::String(Cow::Owned(value))
    }
}

impl From<&'static str> for Value {
    fn from(value: &'static str) -> (r: Value)
        ensures
            r@ == ValueView::String(value@),
    {
        Value::String(Cow::Borrowed(value))
    }
}

impl FromSpecImpl<&'static str> for Value {
    open spec fn obeys_from_spec() -> bool {
        true
    }

    open spec fn from_spec(value: &'static str) -> Value {
        Value::String(Cow::Borrowed(value))
    }
}

impl From<Number> for Value {
    fn from(value: Number) -> (r: Value)
        ensures
            r@ == ValueView::Number(value@),
    {
        Value::Number(value)
    }
}

impl FromSpecImpl<Number> for Value {
    open spec fn obeys_from_spec() -> bool {
        true
    }

    open spec fn from_spec(value: Number) -> Value {
        Value::Number(value)
    }
}

impl From<i8> for Value {
    fn from(value: i8) -> (r: Value)
        ensures
            r@ == ValueView::Number(NumberView::Int(value as int)),
    {
        Value::Number(Number::from_i64(value as i64))
    }
}

impl FromSpecImpl<i8> for Value {
    open spec fn obeys_from_spec() -> bool {
        true
    }

    open spec fn from_spec(value: i8) -> Value {
        Value::Number(Number::of_int(value as int))
    }
}

impl From<u8> for Value {
    fn from(value: u8) -> (r: Value)
        ensures
            r@ == ValueView::Number(NumberView::Int(value as int)),
    {
        Value::Number(Number::from_u64(value as u64))
    }
}

impl FromSpecImpl<u8> for Value {
    open spec fn obeys_from_spec() -> bool {
        true
    }

    open spec fn from_spec(value: u8) -> Value {
        Value::Number(Number::of_int(value as int))
    }
}

impl From<i16> for Value {
    fn from(value: i16) -> (r: Value)
        ensures
            r@ == ValueView::Number(NumberView::Int(value as int)),
    {
        Value::Number(Number::from_i64(value as i64))
    }
}

impl FromSpecImpl<i16> for Value {
    open spec fn obeys_from_spec() -> bool {
        true
    }

    open spec fn from_spec(value: i16) -> Value {
        Value::Number(Number::of_int(value as int))
    }
}

impl From<u16> for Value {
    fn from(value: u16) -> (r: Value)
        ensures
            r@ == ValueView::Number(NumberView::Int(value as int)),
    {
        Value::Number(Number::from_u64(value as u64))
    }
}

impl FromSpecImpl<u16> for Value {
    open spec fn obeys_from_spec() -> bool {
        true
    }

    open spec fn from_spec(value: u16) -> Value {
        Value::Number(Number::of_int(value as int))
    }
}

impl From<i32> for Value {
    fn from(value: i32) -> (r: Value)
        ensures
            r@ == ValueView::Number(NumberView::Int(value as int)),
    {
        Value::Number(Number::from_i64(value as i64))
    }
}

impl FromSpecImpl<i32> for Value {
    open spec fn obeys_from_spec() -> bool {
        true
    }

    open spec fn from_spec(value: i32) -> Value {
        Value::Number(Number::of_int(value as int))
    }
}

impl From<u32> for Value {
    fn from(value: u32) -> (r: Value)
        ensures
            r@ == ValueView::Number(NumberView::Int(value as int)),
    {
        Value::Number(Number::from_u64(value as u64))
    }
}

impl FromSpecImpl<u32> for Value {
    open spec fn obeys_from_spec() -> bool {
        true
    }

    open spec fn from_spec(value: u32) -> Value {
        Value::Number(Number::of_int(value as int))
    }
}

impl From<i64> for Value {
    fn from(value: i64) -> (r: Value)
        ensures
            r@ == ValueView::Number(NumberView::Int(value as int)),
    {
        Value::Number(Number::from_i64(value))
    }
}

impl FromSpecImpl<i64> for Value {
    open spec fn obeys_from_spec() -> bool {
        true
    }

    open spec fn from_spec(value: i64) -> Value {
        Value::Number(Number::of_int(value as int))
    }
}

impl From<u64> for Value {
    fn from(value: u64) -> (r: Value)
        ensures
            r@ == ValueView::Number(NumberView::Int(value as int)),
    {
        Value::Number(Number::from_u64(value))
    }
}

impl FromSpecImpl<u64> for Value {
    open spec fn obeys_from_spec() -> bool {
        true
    }

    open spec fn from_spec(value: u64) -> Value {
        Value::Number(Number::of_int(value as int))
    }
}

impl From<isize> for Value {
    fn from(value: isize) -> (r: Value)
        ensures
            r@ == ValueView::Number(NumberView::Int(value as int)),
    {
        Value::Number(Number::from_i64(value as i64))
    }
}

impl FromSpecImpl<isize> for Value {
    open spec fn obeys_from_spec() -> bool {
        true
    }

    open spec fn from_spec(value: isize) -> Value {
        Value::Number(Number::of_int(value as int))
    }
}

impl From<usize> for Value {
    fn from(value: usize) -> (r: Value)
        ensures
            r@ == ValueView::Number(NumberView::Int(value as int)),
    {
        Value::Number(Number::from_u64(value as u64))
    }
}

impl FromSpecImpl<usize> for Value {
    open spec fn obeys_from_spec() -> bool {
        true
    }

    open spec fn from_spec(value: usize) -> Value {
        Value::Number(Number::of_int(value as int))
    }
}

impl TryFrom<F64Bits> for Value {
    type Error = InvalidFloat;

    fn try_from(value: F64Bits) -> (r: Result<Value, InvalidFloat>)
        ensures
            r is Ok <==> f64_bits_finite(value.0),
            r is Ok ==> r.unwrap()@ == ValueView::Number(NumberView::Float(value.0)),
    {
        match Number::from_f64_bits(value) {
            Some(number) => Ok(Value::Number(number)),
            None => Err(InvalidFloat),
        }
    }
}

impl TryFromSpecImpl<F64Bits> for Value {
    open spec fn obeys_try_from_spec() -> bool {
        true
    }

    open spec fn try_from_spec(value: F64Bits) -> Result<Value, InvalidFloat> {
        if f64_bits_finite(value.0) {
            Ok(Value::Number(Number::of_f64_bits(value.0)))
        } else {
            Err(InvalidFloat)
        }
    }
}

/// What an [`Expr`] stands for.
pub struct ExprView {
    pub value: ValueView,
    pub op: Operation,
}

/// A comparison with a value, by an ordering or an inequality.
#[derive(Debug, Eq, Hash, PartialEq)]
pub struct Expr {
    /// The value to be compared.
    pub value: Value,
    /// The operation to be used in order to evaluate the [`value`].
    ///
    /// [`value`]: Expr::value
    pub op: Operation,
}

impl View for Expr {
    type V = ExprView;

    open spec fn view(&self) -> ExprView {
        ExprView { value: self.value@, op: self.op }
    }
}

impl Clone for Expr {
    fn clone(&self) -> (copy: Expr)
        ensures
            copy@ == self@,
    {
        Expr { value: self.value.clone(), op: self.op }
    }
}

/// What a [`Condition`] stands for.
pub enum ConditionView {
    /// Equality with the value.
    Value(ValueView),
    /// The comparison.
    Expr(ExprView),
}

/// What is asked of the value that a pointer leads to.
#[derive(Debug, Eq, Hash, PartialEq)]
pub enum Condition {
    /// A simple way to express value equality.
    Value(Value),
    /// A custom conditional expression.
    Expr(Expr),
}

impl View for Condition {
    type V = ConditionView;

    open spec fn view(&self) -> ConditionView {
        match self {
            Condition::Value(value) => ConditionView::Value(value@),
            Condition::Expr(expr) => ConditionView::Expr(expr@),
        }
    }
}

impl Clone for Condition {
    fn clone(&self) -> (copy: Condition)
        ensures
            copy@ == self@,
    {
        match self {
            Condition::Value(value) => Condition::Value(value.clone()),
            Condition::Expr(expr) => Condition::Expr(expr.clone()),
        }
    }
}

} // verus!
