//! Numbers and texts of a configuration that may depend on the environment
//! or on the frame.
use vstd::prelude::*;

verus! {

/// Why a number of the configuration has no value.
#[derive(Clone, Copy, Debug, PartialEq, Eq, Structural)]
pub enum JsonNumError {
    /// The environment variable is not set.
    EnvVar,
    /// The text of the environment variable is no number with a fraction.
    FloatFromStr,
    /// The text of the environment variable is no number of the type asked for.
    IntFromStr,
    /// The index of the frame is no number of the type asked for.
    UsizeConvert,
    /// A function of the frame has a value that is no number of the type asked for.
    Overflow,
    /// A uniform distribution has no value between its bounds.
    EmptyRange,
    /// Noise is to be averaged over no sample.
    EmptyWindow,
    /// A normal distribution has no standard deviation to be drawn with.
    NormalDistribution,
    /// An exponential distribution has no rate to be drawn with.
    ExpDistribution,
}

/// The names and values of the environment variables, as the program found them.
pub struct Environment {
    /// Each variable with its value. Of two with the same name the first counts.
    pub variables: Vec<(String, String)>,
}

/// The value of the first variable named `name` among `variables`.
pub open spec fn lookup(variables: Seq<(Seq<char>, Seq<char>)>, name: Seq<char>) -> Option<
    Seq<char>,
>
    decreases variables.len(),
{
    if variables.len() == 0 {
        None
    } else if variables[0].0 == name {
        Some(variables[0].1)
    } else {
        lookup(variables.skip(1), name)
    }
}

impl Environment {
    /// The variables as plain sequences of characters.
    pub open spec fn view(&self) -> Seq<(Seq<char>, Seq<char>)> {
        Seq::new(
            self.variables@.len(),
            |i: int| (self.variables@[i].0@, self.variables@[i].1@),
        )
    }

    /// An environment without variables.
    pub fn new() -> (r: Self)
        ensures
            r@ == Seq::<(Seq<char>, Seq<char>)>::empty(),
    {
        let r = Environment { variables: Vec::new() };
        proof {
            assert(r@ =~= Seq::<(Seq<char>, Seq<char>)>::empty());
        }
        r
    }

    /// The value of the variable `name`, if it is set.
    pub fn var(&self, name: &String) -> (r: Option<&String>)
        ensures
            match r {
                Some(value) => lookup(self@, name@) == Some(value@),
                None => lookup(self@, name@) is None,
            },
    {
        let mut i: usize = 0;
        proof {
            assert(self@.skip(0) =~= self@);
        }
        while i < self.variables.len()
            invariant
                i <= self.variables@.len(),
                lookup(self@, name@) == lookup(self@.skip(i as int), name@),
            decreases self.variables@.len() - i,
        {
            proof {
                assert(self@.skip(i as int).skip(1) =~= self@.skip(i + 1));
                assert(self@.skip(i as int)[0] == self@[i as int]);
            }
            if self.variables[i].0 == *name {
                return Some(&self.variables[i].1);
            }
            i += 1;
        }
        None
    }
}

/// Whether a character is one of the digits `0` to `9`.
pub open spec fn is_digit(c: char) -> bool {
    '0' <= c <= '9'
}

/// The number that the digits `digits` stand for in decimal notation.
pub open spec fn digits_value(digits: Seq<char>) -> int
    decreases digits.len(),
{
    if digits.len() == 0 {
        0
    } else {
        10 * digits_value(digits.drop_last()) + (digits.last() as int - '0' as int)
    }
}

/// Whether a text is made of digits only.
pub open spec fn all_digits(digits: Seq<char>) -> bool {
    forall|i: int| 0 <= i < digits.len() ==> is_digit(#[trigger] digits[i])
}

/// A text without the `+` that may stand before its digits.
pub open spec fn unsigned_part(text: Seq<char>) -> Seq<char> {
    if text.len() > 0 && text[0] == '+' {
        text.skip(1)
    } else {
        text
    }
}

/// The number that a text stands for in decimal notation, if it stands for
/// one: the text is made of digits, at least one, which a `+` may stand
/// before, and 64 bits hold its number.
pub open spec fn parsed_u64(text: Seq<char>) -> Option<u64> {
    let digits = unsigned_part(text);
    if digits.len() > 0 && all_digits(digits) && digits_value(digits) <= u64::MAX {
        Some(digits_value(digits) as u64)
    } else {
        None
    }
}

/// Reads a number in decimal notation.
///
/// This is `str::parse` for `u64`, which takes an optional `+` followed by
/// digits only, and fails on an empty text, on any other character and on a
/// number that 64 bits do not hold.
#[verifier::external_body]
fn parse_u64(text: &String) -> (r: Option<u64>)
    ensures
        r == parsed_u64(text@),
{
    text.parse::<u64>().ok()
}

/// The whole numbers that a configuration can hold.
pub trait Number: Copy {
    /// The number as a mathematical integer.
    spec fn to_int(self) -> int;

    /// Whether the type can hold `value`.
    spec fn fits(value: int) -> bool;

    /// A type holds its own numbers.
    proof fn lemma_fits(self)
        ensures
            Self::fits(self.to_int()),
    ;

    /// A type holds every number between two that it holds.
    proof fn lemma_fits_between(low: Self, high: Self, value: int)
        requires
            low.to_int() <= value <= high.to_int(),
        ensures
            Self::fits(value),
    ;

    /// The number `value` in this type, if the type can hold it.
    fn from_u64(value: u64) -> (r: Option<Self>)
        ensures
            match r {
                Some(number) => number.to_int() == value,
                None => !Self::fits(value as int),
            },
    ;

    /// The number `value` in this type, if the type can hold it.
    fn from_usize(value: usize) -> (r: Option<Self>)
        ensures
            match r {
                Some(number) => number.to_int() == value,
                None => !Self::fits(value as int),
            },
    ;

    /// The number in 64 bits.
    fn to_u64(self) -> (r: u64)
        ensures
            r == self.to_int(),
    ;

    /// `self * scale + translate`, if the type can hold it.
    fn affine(self, scale: Self, translate: Self) -> (r: Option<Self>)
        ensures
            match r {
                Some(number) => number.to_int() == self.to_int() * scale.to_int()
                    + translate.to_int(),
                None => !Self::fits(self.to_int() * scale.to_int() + translate.to_int()),
            },
    ;
}

/// `x * scale + translate` for three 64-bit numbers, if 64 bits can hold it.
fn affine_u64(x: u64, scale: u64, translate: u64) -> (r: Option<u64>)
    ensures
        match r {
            Some(number) => number == x * scale + translate,
            None => x * scale + translate > u64::MAX,
        },
{
    assert(0 <= x * scale <= 0xffff_ffff_ffff_ffff * 0xffff_ffff_ffff_ffff) by (nonlinear_arith)
        requires
            0 <= x <= 0xffff_ffff_ffff_ffff,
            0 <= scale <= 0xffff_ffff_ffff_ffff,
    ;
    let wide: u128 = (x as u128) * (scale as u128) + (translate as u128);
    if wide > u64::MAX as u128 {
        None
    } else {
        Some(wide as u64)
    }
}

impl Number for u64 {
    open spec fn to_int(self) -> int {
        self as int
    }

    open spec fn fits(value: int) -> bool {
        0 <= value <= u64::MAX
    }

    proof fn lemma_fits(self) {
    }

    proof fn lemma_fits_between(low: Self, high: Self, value: int) {
    }

    fn from_u64(value: u64) -> (r: Option<Self>) {
        Some(value)
    }

    fn from_usize(value: usize) -> (r: Option<Self>) {
        Some(value as u64)
    }

    fn to_u64(self) -> (r: u64) {
        self
    }

    fn affine(self, scale: Self, translate: Self) -> (r: Option<Self>) {
        affine_u64(self, scale, translate)
    }
}

impl Number for u32 {
    open spec fn to_int(self) -> int {
        self as int
    }

    open spec fn fits(value: int) -> bool {
        0 <= value <= u32::MAX
    }

    proof fn lemma_fits(self) {
    }

    proof fn lemma_fits_between(low: Self, high: Self, value: int) {
    }

    fn from_u64(value: u64) -> (r: Option<Self>) {
        if value <= u32::MAX as u64 {
            Some(value as u32)
        } else {
            None
        }
    }

    fn from_usize(value: usize) -> (r: Option<Self>) {
        Self::from_u64(value as u64)
    }

    fn to_u64(self) -> (r: u64) {
        self as u64
    }

    fn affine(self, scale: Self, translate: Self) -> (r: Option<Self>) {
        match affine_u64(self as u64, scale as u64, translate as u64) {
            Some(number) => Self::from_u64(number),
            None => None,
        }
    }
}

impl Number for usize {
    open spec fn to_int(self) -> int {
        self as int
    }

    open spec fn fits(value: int) -> bool {
        0 <= value <= usize::MAX
    }

    proof fn lemma_fits(self) {
    }

    proof fn lemma_fits_between(low: Self, high: Self, value: int) {
    }

    fn from_u64(value: u64) -> (r: Option<Self>) {
        if value <= usize::MAX as u64 {
            Some(value as usize)
        } else {
            None
        }
    }

    fn from_usize(value: usize) -> (r: Option<Self>) {
        Some(value)
    }

    fn to_u64(self) -> (r: u64) {
        self as u64
    }

    fn affine(self, scale: Self, translate: Self) -> (r: Option<Self>) {
        match affine_u64(self as u64, scale as u64, translate as u64) {
            Some(number) => Self::from_u64(number),
            None => None,
        }
    }
}

/// The number that the text of an environment variable stands for.
pub open spec fn number_of_text<T: Number>(text: Seq<char>) -> Result<int, JsonNumError> {
    match parsed_u64(text) {
        Some(value) if T::fits(value as int) => Ok(value as int),
        _ => Err(JsonNumError::IntFromStr),
    }
}

/// The number that the environment variable `name` stands for.
pub open spec fn number_of_variable<T: Number>(
    environment: Seq<(Seq<char>, Seq<char>)>,
    name: Seq<char>,
) -> Result<int, JsonNumError> {
    match lookup(environment, name) {
        Some(text) => number_of_text::<T>(text),
        None => Err(JsonNumError::EnvVar),
    }
}

/// Reads the number that the environment variable `name` stands for.
pub fn read_variable<T: Number>(environment: &Environment, name: &String) -> (r: Result<
    T,
    JsonNumError,
>)
    ensures
        match r {
            Ok(number) => number_of_variable::<T>(environment@, name@) == Ok::<
                int,
                JsonNumError,
            >(number.to_int()),
            Err(error) => number_of_variable::<T>(environment@, name@) == Err::<int, JsonNumError>(
                error,
            ),
        },
{
    match environment.var(name) {
        None => Err(JsonNumError::EnvVar),
        Some(text) => match parse_u64(text) {
            None => Err(JsonNumError::IntFromStr),
            Some(value) => match T::from_u64(value) {
                Some(number) => {
                    proof {
                        number.lemma_fits();
                    }
                    Ok(number)
                },
                None => Err(JsonNumError::IntFromStr),
            },
        },
    }
}

/// A line `x * scale + translate`.
#[derive(Clone, Copy, Debug)]
pub struct Transformation<T> {
    /// The slope of the line.
    pub scale: T,
    /// The value of the line at zero.
    pub translate: T,
}

impl<T: Number> Transformation<T> {
    /// The value of the line at `x`.
    pub open spec fn spec_transform(self, x: int) -> int {
        x * self.scale.to_int() + self.translate.to_int()
    }

    /// The value of the line at `x`, where the type can hold it.
    pub fn transform(&self, x: T) -> (r: T)
        requires
            T::fits(self.spec_transform(x.to_int())),
        ensures
            r.to_int() == self.spec_transform(x.to_int()),
    {
        match x.affine(self.scale, self.translate) {
            Some(number) => number,
            None => {
                assert(false);
                x
            },
        }
    }

    /// The value of the line at `x`, if the type can hold it.
    pub fn checked_transform(&self, x: T) -> (r: Option<T>)
        ensures
            match r {
                Some(number) => number.to_int() == self.spec_transform(x.to_int()),
                None => !T::fits(self.spec_transform(x.to_int())),
            },
    {
        x.affine(self.scale, self.translate)
    }
}

/// A number that is written down, or that an environment variable holds.
#[derive(Clone, Debug)]
pub enum NumConstant<T> {
    /// The number itself.
    Const(T),
    /// The name of the environment variable that holds the number.
    FromEnvVar(String),
}

impl<T: Number> NumConstant<T> {
    /// The number, or why there is none.
    pub open spec fn spec_value(self, environment: Seq<(Seq<char>, Seq<char>)>) -> Result<
        int,
        JsonNumError,
    > {
        match self {
            NumConstant::Const(number) => Ok(number.to_int()),
            NumConstant::FromEnvVar(name) => number_of_variable::<T>(environment, name@),
        }
    }

    /// The number, or why there is none.
    pub fn value(&self, environment: &Environment) -> (r: Result<T, JsonNumError>)
        ensures
            match r {
                Ok(number) => self.spec_value(environment@) == Ok::<int, JsonNumError>(
                    number.to_int(),
                ),
                Err(error) => self.spec_value(environment@) == Err::<int, JsonNumError>(error),
            },
    {
        match self {
            NumConstant::Const(number) => Ok(*number),
            NumConstant::FromEnvVar(name) => read_variable::<T>(environment, name),
        }
    }
}

/// A number that is written down, that an environment variable holds, or
/// that follows from the index of the frame.
#[derive(Clone, Debug)]
pub enum NumExpression<T> {
    /// The number itself.
    Const(T),
    /// The name of the environment variable that holds the number.
    FromEnvVar(String),
    /// The line on which the number lies at the index of the frame.
    NumFunc(Transformation<T>),
}

impl<T: Number> NumExpression<T> {
    /// The number in the frame `frame_index`, or why there is none.
    pub open spec fn spec_value(
        self,
        frame_index: int,
        environment: Seq<(Seq<char>, Seq<char>)>,
    ) -> Result<int, JsonNumError> {
        match self {
            NumExpression::Const(number) => Ok(number.to_int()),
            NumExpression::FromEnvVar(name) => number_of_variable::<T>(environment, name@),
            NumExpression::NumFunc(line) => if !T::fits(frame_index) {
                Err(JsonNumError::UsizeConvert)
            } else if !T::fits(line.spec_transform(frame_index)) {
                Err(JsonNumError::Overflow)
            } else {
                Ok(line.spec_transform(frame_index))
            },
        }
    }

    /// The number in the frame `frame_index`, or why there is none.
    pub fn value(&self, frame_index: usize, environment: &Environment) -> (r: Result<T, JsonNumError>)
        ensures
            match r {
                Ok(number) => self.spec_value(frame_index as int, environment@) == Ok::<
                    int,
                    JsonNumError,
                >(number.to_int()),
                Err(error) => self.spec_value(frame_index as int, environment@) == Err::<
                    int,
                    JsonNumError,
                >(error),
            },
    {
        match self {
            NumExpression::Const(number) => Ok(*number),
            NumExpression::FromEnvVar(name) => read_variable::<T>(environment, name),
            NumExpression::NumFunc(line) => match T::from_usize(frame_index) {
                None => Err(JsonNumError::UsizeConvert),
                Some(frame) => {
                    proof {
                        frame.lemma_fits();
                    }
                    match line.checked_transform(frame) {
                        Some(number) => {
                            proof {
                                number.lemma_fits();
                            }
                            Ok(number)
                        },
                        None => Err(JsonNumError::Overflow),
                    }
                },
            },
        }
    }
}

/// A text that is written down, or that an environment variable holds.
#[derive(Clone, Debug)]
pub enum TextConstant {
    /// The text itself.
    Text(String),
    /// The name of the environment variable that holds the text.
    TextEnv(String),
}

impl TextConstant {
    /// The text, if there is one.
    pub open spec fn spec_value(self, environment: Seq<(Seq<char>, Seq<char>)>) -> Option<Seq<char>> {
        match self {
            TextConstant::Text(text) => Some(text@),
            TextConstant::TextEnv(name) => lookup(environment, name@),
        }
    }

    /// The text. A text that an environment variable holds has a value only
    /// where the variable is set.
    pub fn value(&self, environment: &Environment) -> (r: String)
        requires
            self.spec_value(environment@) is Some,
        ensures
            Some(r@) == self.spec_value(environment@),
    {
        match self {
            TextConstant::Text(text) => text.clone(),
            TextConstant::TextEnv(name) => match environment.var(name) {
                Some(text) => text.clone(),
                None => String::new(),
            },
        }
    }
}

} // verus!
