//! Named parameters of the engine. A parameter is set by its name and a value
//! that is a text or an array of numbers; the name, and a text value, must be
//! strings that the engine can read.

use crate::context::Context;
use crate::error::{Error, ErrorView};
use crate::marshal::{marshaled, NativeString};
use vstd::prelude::*;
use vstd::string::StringSliceAdditionalSpecFns;

verus! {

/// A text parameter, ready for the engine.
#[derive(Debug)]
pub struct TextParameter {
    pub name: NativeString,
    pub value: NativeString,
    /// The number of bytes of the value, its terminator not counted.
    pub length: usize,
}

/// An array parameter, ready for the engine. The elements stay with the
/// caller; the engine is given where they start and how many there are.
#[derive(Debug)]
pub struct ArrayParameter {
    pub name: NativeString,
    /// The number of elements.
    pub count: usize,
}

/// What [`Context::parameter_sets`] gives for a name and a value with these
/// bytes: both as the engine takes them, or the error of the first of the two,
/// the name before the value, that holds a terminator.
pub open spec fn text_parameter(name: Seq<u8>, value: Seq<u8>) -> Result<
    (Seq<u8>, Seq<u8>),
    ErrorView,
> {
    match marshaled(name) {
        Ok(name) => match marshaled(value) {
            Ok(value) => Ok((name, value)),
            Err(error) => Err(error),
        },
        Err(error) => Err(error),
    }
}

/// Marshals the name of an array of `count` elements.
fn array_parameter(name: &str, count: usize) -> (result: Result<ArrayParameter, Error>)
    ensures
        match result {
            Ok(parameter) => marshaled(name.spec_bytes()) == Ok::<Seq<u8>, ErrorView>(
                parameter.name@,
            ) && parameter.count == count,
            Err(error) => marshaled(name.spec_bytes()) == Err::<Seq<u8>, ErrorView>(error@),
        },
{
    match NativeString::new(name) {
        Ok(name) => Ok(ArrayParameter { name, count }),
        Err(error) => Err(error),
    }
}

impl<H, R> Context<H, R> {
    /// Marshals a text parameter. A name or a value with a zero byte in it is
    /// refused, so that no call is made with it.
    pub fn parameter_sets(&self, name: &str, value: &str) -> (result: Result<
        TextParameter,
        Error,
    >)
        ensures
            match result {
                Ok(parameter) => text_parameter(name.spec_bytes(), value.spec_bytes()) == Ok::<
                    (Seq<u8>, Seq<u8>),
                    ErrorView,
                >((parameter.name@, parameter.value@)) && parameter.length
                    == value.spec_bytes().len(),
                Err(error) => text_parameter(name.spec_bytes(), value.spec_bytes()) == Err::<
                    (Seq<u8>, Seq<u8>),
                    ErrorView,
                >(error@),
            },
    {
        let name = match NativeString::new(name) {
            Ok(name) => name,
            Err(error) => return Err(error),
        };
        let value = match NativeString::new(value) {
            Ok(value) => value,
            Err(error) => return Err(error),
        };
        let length = value.len();
        Ok(TextParameter { name, value, length })
    }

    /// Marshals a parameter of 32-bit floating-point numbers, `count` of them. A
    /// name with a zero byte in it is refused, so that no call is made with it.
    pub fn parameter_setf(&self, name: &str, count: usize) -> (result: Result<
        ArrayParameter,
        Error,
    >)
        ensures
            match result {
                Ok(parameter) => marshaled(name.spec_bytes()) == Ok::<Seq<u8>, ErrorView>(
                    parameter.name@,
                ) && parameter.count == count,
                Err(error) => marshaled(name.spec_bytes()) == Err::<Seq<u8>, ErrorView>(error@),
            },
    {
        array_parameter(name, count)
    }

    /// Marshals a parameter of signed 32-bit integers. A name with a zero byte
    /// in it is refused, so that no call is made with it.
    pub fn parameter_seti(&self, name: &str, value: &[i32]) -> (result: Result<
        ArrayParameter,
        Error,
    >)
        ensures
            match result {
                Ok(parameter) => marshaled(name.spec_bytes()) == Ok::<Seq<u8>, ErrorView>(
                    parameter.name@,
                ) && parameter.count == value@.len(),
                Err(error) => marshaled(name.spec_bytes()) == Err::<Seq<u8>, ErrorView>(error@),
            },
    {
        array_parameter(name, value.len())
    }

    /// Marshals a parameter of unsigned 32-bit integers. A name with a zero byte
    /// in it is refused, so that no call is made with it.
    pub fn parameter_setu(&self, name: &str, value: &[u32]) -> (result: Result<
        ArrayParameter,
        Error,
    >)
        ensures
            match result {
                Ok(parameter) => marshaled(name.spec_bytes()) == Ok::<Seq<u8>, ErrorView>(
                    parameter.name@,
                ) && parameter.count == value@.len(),
                Err(error) => marshaled(name.spec_bytes()) == Err::<Seq<u8>, ErrorView>(error@),
            },
    {
        array_parameter(name, value.len())
    }
}

} // verus!
